use monadic::monads::cont::{
    cont_bind, cont_binds, cont_eval, cont_then, cont_unit, ContKleisli, ContMonad,
};
use monadic::monads::function::SharedFn;
use monadic::monads::reader::{
    load, reader_bind, reader_binds, reader_then, reader_unit, ReaderKleisli, ReaderMonad,
};
use monadic::monads::state::{
    get, put, state_bind, state_binds, state_then, state_unit, StateKleisli, StateMonad,
};
use monadic::monads::writer::{
    log, writer_bind, writer_binds, writer_then, writer_unit, WriterKleisli, WriterMonad,
};

#[test]
fn constant_function_ignores_its_argument() {
    let k: SharedFn<i32, String> = SharedFn::constant("same".to_string());
    assert_eq!(k.call(1), "same");
    assert_eq!(k.call(2), "same");
}

#[test]
fn writer_then_keeps_the_second_value_and_both_logs() {
    let r = writer_then(log("a".to_string()), (5, "b".to_string()));
    assert_eq!(r, (5, "a\nb".to_string()));
}

#[test]
fn writer_then_is_bind_with_an_arrow_that_discards() {
    let first = (1, vec!["first"]);
    let second = ("two", vec!["second"]);
    let by_bind = writer_bind(
        first.clone(),
        WriterKleisli { kleisli: SharedFn::new(move |_: i32| ("two", vec!["second"])) },
    );
    assert_eq!(writer_then(first, second), by_bind);
    assert_eq!(by_bind, ("two", vec!["first", "second"]));
}

#[test]
fn writer_sequence_of_log_steps() {
    let do_calculation = |x: i32| {
        writer_then(log(format!("received number {}", x)), {
            let x0 = x + 10;
            writer_then(log("added 10 to the number".to_string()), {
                let x1 = 2 * x0;
                writer_then(log("multiplied result by 2".to_string()), writer_unit(x1))
            })
        })
    };
    assert_eq!(
        do_calculation(5),
        (30, "received number 5\nadded 10 to the number\nmultiplied result by 2".to_string())
    );
}

#[test]
fn reader_then_discards_the_first_value() {
    let m: ReaderMonad<i64, &str> = reader_then(load(), reader_unit("kept"));
    assert_eq!(m.run_reader.call(9), "kept");
}

#[test]
fn reader_then_is_bind_with_an_arrow_that_discards() {
    let second = || ReaderMonad { run_reader: SharedFn::new(|cfg: i64| cfg + 1) };
    let by_then: ReaderMonad<i64, i64> = reader_then(load(), second());
    let by_bind: ReaderMonad<i64, i64> =
        reader_bind(load(), ReaderKleisli { kleisli: SharedFn::new(move |_: i64| second()) });
    for cfg in [-1, 0, 41] {
        assert_eq!(by_then.run_reader.call(cfg), by_bind.run_reader.call(cfg));
    }
    assert_eq!(by_then.run_reader.call(41), 42);
}

#[test]
fn state_then_threads_the_state() {
    let m: StateMonad<i64, i64> = state_then(put(5), get());
    assert_eq!(m.run_state.call(0), (5, 5));
}

#[test]
fn state_then_is_bind_with_an_arrow_that_discards() {
    let bump = || StateMonad { run_state: SharedFn::new(|s: i64| (s, s + 1)) };
    let by_then = state_then(bump(), bump());
    let by_bind = state_bind(bump(), StateKleisli { kleisli: SharedFn::new(move |_: i64| bump()) });
    for s in [-1, 0, 7] {
        assert_eq!(by_then.run_state.call(s), by_bind.run_state.call(s));
    }
    assert_eq!(by_then.run_state.call(7), (8, 9));
}

#[test]
fn state_sequence_with_names_and_bare_steps() {
    let run_game: StateMonad<(i64, i64), i64> = state_bind(
        get(),
        StateKleisli {
            kleisli: SharedFn::new(move |st: (i64, i64)| {
                let winner = 1;
                state_then(
                    put(if winner == 0 { (st.0 + 1, st.1) } else { (st.0, st.1 + 1) }),
                    state_unit(winner),
                )
            }),
        },
    );
    assert_eq!(run_game.run_state.call((10, 13)), (1, (10, 14)));
}

#[test]
fn cont_then_discards_the_first_value() {
    let m: ContMonad<i32, i32> = cont_then(cont_unit("dropped"), cont_unit(2));
    assert_eq!(cont_eval(m), 2);
}

#[test]
fn cont_then_is_bind_with_an_arrow_that_discards() {
    let by_then: ContMonad<i32, i32> = cont_then(cont_unit(1), cont_unit(2));
    let by_bind: ContMonad<i32, i32> =
        cont_bind(cont_unit(1), ContKleisli { kleisli: SharedFn::new(|_: i32| cont_unit(2)) });
    assert_eq!(cont_eval(by_then), cont_eval(by_bind));
}

#[test]
fn writer_binds_runs_the_arrows_from_left_to_right() {
    let times = |n: i64, name: &'static str| WriterKleisli {
        kleisli: SharedFn::new(move |x: i64| (n * x, name.to_string())),
    };
    let start: WriterMonad<i64, String> = writer_unit(11);
    let r = writer_binds(start, &vec![times(3, "x3"), times(5, "x5"), times(7, "x7")]);
    assert_eq!(r, (1155, "x3\nx5\nx7".to_string()));
}

#[test]
fn writer_binds_is_the_nest_of_binds() {
    let k0 = WriterKleisli { kleisli: SharedFn::new(|x: i64| (3 * x, vec!["x3"])) };
    let k1 = WriterKleisli { kleisli: SharedFn::new(|x: i64| (x - 1, vec!["-1"])) };
    let start = (11, vec!["start"]);
    let nested = writer_bind(writer_bind(start.clone(), k0.clone()), k1.clone());
    assert_eq!(writer_binds(start, &vec![k0, k1]), nested);
    assert_eq!(nested, (32, vec!["start", "x3", "-1"]));
}

#[test]
fn writer_binds_over_no_arrow_returns_the_writer() {
    let start = (11, "start".to_string());
    assert_eq!(writer_binds(start.clone(), &vec![]), start);
}

#[test]
fn reader_binds_is_the_nest_of_binds() {
    let plus_env = ReaderKleisli {
        kleisli: SharedFn::new(|a: i64| ReaderMonad {
            run_reader: SharedFn::new(move |cfg: i64| a + cfg),
        }),
    };
    let times_env = ReaderKleisli {
        kleisli: SharedFn::new(|a: i64| ReaderMonad {
            run_reader: SharedFn::new(move |cfg: i64| a * cfg),
        }),
    };
    let chain = reader_binds(reader_unit(1), &vec![plus_env.clone(), times_env.clone()]);
    let nested = reader_bind(reader_bind(reader_unit(1), plus_env), times_env);
    for cfg in [-2, 0, 5] {
        assert_eq!(chain.run_reader.call(cfg), nested.run_reader.call(cfg));
    }
    assert_eq!(chain.run_reader.call(5), 30);
}

#[test]
fn reader_binds_over_no_arrow_returns_the_reader() {
    let chain: ReaderMonad<i64, i64> = reader_binds(load(), &vec![]);
    assert_eq!(chain.run_reader.call(8), 8);
}

#[test]
fn state_binds_threads_the_state_through_the_chain() {
    let push = |n: i64| StateKleisli {
        kleisli: SharedFn::new(move |a: i64| StateMonad {
            run_state: SharedFn::new(move |mut s: Vec<i64>| {
                s.push(a + n);
                (a + n, s)
            }),
        }),
    };
    let chain = state_binds(state_unit(0), &vec![push(1), push(10), push(100)]);
    assert_eq!(chain.run_state.call(vec![]), (111, vec![1, 11, 111]));
    let nested = state_bind(state_bind(state_bind(state_unit(0), push(1)), push(10)), push(100));
    assert_eq!(nested.run_state.call(vec![]), (111, vec![1, 11, 111]));
}

#[test]
fn cont_binds_is_the_nest_of_binds() {
    let times_four = ContKleisli { kleisli: SharedFn::new(|x: i32| cont_unit(4 * x)) };
    let plus_eleven = ContKleisli { kleisli: SharedFn::new(|x: i32| cont_unit(x + 11)) };
    let chain: ContMonad<i32, i32> =
        cont_binds(cont_unit(10), &vec![times_four.clone(), plus_eleven.clone()]);
    let nested: ContMonad<i32, i32> =
        cont_bind(cont_bind(cont_unit(10), times_four), plus_eleven);
    assert_eq!(cont_eval(chain), 51);
    assert_eq!(cont_eval(nested), 51);
}

#[test]
fn scope_runs_through_a_chain_as_its_value() {
    let bind_x = StateKleisli {
        kleisli: SharedFn::new(|scope: Vec<i64>| StateMonad {
            run_state: SharedFn::new(move |s: i64| {
                let mut names = scope.clone();
                names.push(s);
                (names, s + 1)
            }),
        }),
    };
    let let_y = StateKleisli {
        kleisli: SharedFn::new(|scope: Vec<i64>| {
            let mut names = scope.clone();
            names.push(scope[0] + scope[1]);
            state_unit_vec(names)
        }),
    };
    let chain = state_binds(state_unit_vec(vec![]), &vec![bind_x.clone(), bind_x, let_y]);
    assert_eq!(chain.run_state.call(20), (vec![20, 21, 41], 22));
}

fn state_unit_vec(names: Vec<i64>) -> StateMonad<i64, Vec<i64>> {
    StateMonad { run_state: SharedFn::new(move |s: i64| (names.clone(), s)) }
}
