use monadic::monads::cont::{cont_apply, cont_bind, cont_eval, cont_unit, ContKleisli, ContMonad};
use monadic::monads::function::SharedFn;
use monadic::monads::reader::{reader_apply, reader_bind, ReaderKleisli, ReaderMonad};
use monadic::monads::state::{state_apply, state_bind, StateKleisli, StateMonad};
use std::cell::RefCell;
use std::rc::Rc;

type Trace = Rc<RefCell<Vec<&'static str>>>;

fn traced_cont<A: Clone + 'static>(trace: &Trace, name: &'static str, a: A) -> ContMonad<i32, A> {
    let trace = trace.clone();
    cont_bind(
        cont_unit(()),
        ContKleisli {
            kleisli: SharedFn::new(move |_: ()| {
                trace.borrow_mut().push(name);
                cont_unit(a.clone())
            }),
        },
    )
}

#[test]
fn building_a_computation_runs_nothing() {
    let trace: Trace = Rc::new(RefCell::new(vec![]));
    let m = traced_cont(&trace, "ran", 1);
    assert!(trace.borrow().is_empty());
    assert_eq!(cont_eval(m), 1);
    assert_eq!(*trace.borrow(), vec!["ran"]);
}

#[test]
fn cont_apply_runs_the_function_before_the_value() {
    let trace: Trace = Rc::new(RefCell::new(vec![]));
    let mf = traced_cont(&trace, "function", SharedFn::new(|x: i32| x + 1));
    let ma = traced_cont(&trace, "value", 41);
    let applied = cont_apply(mf, ma);
    assert!(trace.borrow().is_empty());
    assert_eq!(cont_eval(applied), 42);
    assert_eq!(*trace.borrow(), vec!["function", "value"]);
}

#[test]
fn cont_bind_runs_the_first_computation_before_the_arrow() {
    let trace: Trace = Rc::new(RefCell::new(vec![]));
    let first = traced_cont(&trace, "first", 4);
    let arrow_trace = trace.clone();
    let bound = cont_bind(
        first,
        ContKleisli {
            kleisli: SharedFn::new(move |x: i32| {
                arrow_trace.borrow_mut().push("arrow");
                cont_unit(10 * x)
            }),
        },
    );
    assert_eq!(cont_eval(bound), 40);
    assert_eq!(*trace.borrow(), vec!["first", "arrow"]);
}

#[test]
fn reader_apply_runs_the_function_before_the_value() {
    let trace: Trace = Rc::new(RefCell::new(vec![]));
    let t_f = trace.clone();
    let mf: ReaderMonad<i32, SharedFn<i32, i32>> = ReaderMonad {
        run_reader: SharedFn::new(move |cfg: i32| {
            t_f.borrow_mut().push("function");
            SharedFn::new(move |x: i32| x + cfg)
        }),
    };
    let t_a = trace.clone();
    let ma: ReaderMonad<i32, i32> = ReaderMonad {
        run_reader: SharedFn::new(move |cfg: i32| {
            t_a.borrow_mut().push("value");
            2 * cfg
        }),
    };
    let applied = reader_apply(mf, ma);
    assert!(trace.borrow().is_empty());
    assert_eq!(applied.run_reader.call(5), 15);
    assert_eq!(*trace.borrow(), vec!["function", "value"]);
}

#[test]
fn reader_bind_runs_the_first_reader_before_the_arrow() {
    let trace: Trace = Rc::new(RefCell::new(vec![]));
    let t_a = trace.clone();
    let ma: ReaderMonad<i32, i32> = ReaderMonad {
        run_reader: SharedFn::new(move |cfg: i32| {
            t_a.borrow_mut().push("first");
            cfg
        }),
    };
    let t_k = trace.clone();
    let k = ReaderKleisli {
        kleisli: SharedFn::new(move |a: i32| {
            t_k.borrow_mut().push("arrow");
            let t_b = t_k.clone();
            ReaderMonad {
                run_reader: SharedFn::new(move |cfg: i32| {
                    t_b.borrow_mut().push("second");
                    a + cfg
                }),
            }
        }),
    };
    let bound = reader_bind(ma, k);
    assert_eq!(bound.run_reader.call(3), 6);
    assert_eq!(*trace.borrow(), vec!["first", "arrow", "second"]);
}

#[test]
fn state_apply_threads_the_state_from_the_function_to_the_value() {
    let mf: StateMonad<Vec<&'static str>, SharedFn<i32, i32>> = StateMonad {
        run_state: SharedFn::new(|mut s: Vec<&'static str>| {
            s.push("function");
            (SharedFn::new(|x: i32| x + 1), s)
        }),
    };
    let ma: StateMonad<Vec<&'static str>, i32> = StateMonad {
        run_state: SharedFn::new(|mut s: Vec<&'static str>| {
            s.push("value");
            (1, s)
        }),
    };
    let applied = state_apply(mf, ma);
    assert_eq!(applied.run_state.call(vec!["start"]), (2, vec!["start", "function", "value"]));
}

#[test]
fn state_bind_threads_the_state_from_the_first_to_the_second() {
    let ma: StateMonad<Vec<&'static str>, i32> = StateMonad {
        run_state: SharedFn::new(|mut s: Vec<&'static str>| {
            s.push("first");
            (1, s)
        }),
    };
    let k = StateKleisli {
        kleisli: SharedFn::new(|a: i32| StateMonad {
            run_state: SharedFn::new(move |mut s: Vec<&'static str>| {
                s.push("second");
                (a + 1, s)
            }),
        }),
    };
    let bound = state_bind(ma, k);
    assert_eq!(bound.run_state.call(vec![]), (2, vec!["first", "second"]));
}
