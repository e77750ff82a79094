use monadic::monads::function::SharedFn;
use monadic::monads::state::{
    get, put, state_apply, state_bind, state_fmap, state_unit, StateKleisli, StateMonad,
};

fn tick() -> StateMonad<i64, i64> {
    StateMonad { run_state: SharedFn::new(|s: i64| (s * 10, s + 1)) }
}

fn add_state_arrow() -> StateKleisli<i64, i64, i64> {
    StateKleisli {
        kleisli: SharedFn::new(|a: i64| StateMonad {
            run_state: SharedFn::new(move |s: i64| (a + s, s * 2)),
        }),
    }
}

fn sub_state_arrow() -> StateKleisli<i64, i64, i64> {
    StateKleisli {
        kleisli: SharedFn::new(|a: i64| StateMonad {
            run_state: SharedFn::new(move |s: i64| (a - s, s + 100)),
        }),
    }
}

fn concat(a: &Vec<i64>, b: &Vec<i64>) -> Vec<i64> {
    let mut r = a.clone();
    r.extend(b.iter().cloned());
    r
}

#[test]
fn state_unit_leaves_the_state_unchanged() {
    let m: StateMonad<Vec<i64>, i64> = state_unit(3);
    assert_eq!(m.run_state.call(vec![1, 2]), (3, vec![1, 2]));
    assert_eq!(m.run_state.call(vec![]), (3, vec![]));
}

#[test]
fn get_returns_the_state_and_leaves_it_unchanged() {
    let m: StateMonad<Vec<i64>, Vec<i64>> = get();
    assert_eq!(m.run_state.call(vec![4, 5]), (vec![4, 5], vec![4, 5]));
}

#[test]
fn put_replaces_the_state() {
    let m = put("new".to_string());
    assert_eq!(m.run_state.call("old".to_string()), ((), "new".to_string()));
    assert_eq!(m.run_state.call("older".to_string()), ((), "new".to_string()));
}

#[test]
fn state_threading() {
    let m: StateMonad<Vec<i64>, ()> = state_bind(
        get(),
        StateKleisli { kleisli: SharedFn::new(|s: Vec<i64>| put(concat(&s, &vec![s[0] + 1]))) },
    );
    assert_eq!(m.run_state.call(vec![0]), ((), vec![0, 1]));
}

#[test]
fn state_runs_through_the_steps_in_order() {
    let m = state_bind(tick(), StateKleisli { kleisli: SharedFn::new(|_| tick()) });
    assert_eq!(m.run_state.call(1), (20, 3));
    let m3 = state_bind(m, StateKleisli { kleisli: SharedFn::new(|_| tick()) });
    assert_eq!(m3.run_state.call(1), (30, 4));
}

#[test]
fn state_fmap_identity() {
    let mapped = state_fmap(SharedFn::identity(), tick());
    for s in [-1, 0, 5] {
        assert_eq!(mapped.run_state.call(s), tick().run_state.call(s));
    }
    assert_eq!(mapped.run_state.call(5), (50, 6));
}

#[test]
fn state_fmap_composition() {
    let f = SharedFn::new(|x: i64| x + 1);
    let g = SharedFn::new(|x: i64| x * x);
    let left = state_fmap(g.clone().and_then(f.clone()), tick());
    let right = state_fmap(f, state_fmap(g, tick()));
    for s in [-1, 0, 5] {
        assert_eq!(left.run_state.call(s), right.run_state.call(s));
    }
    assert_eq!(left.run_state.call(2), (401, 3));
}

#[test]
fn state_apply_runs_the_function_first() {
    let mf: StateMonad<i64, SharedFn<i64, i64>> = StateMonad {
        run_state: SharedFn::new(|s: i64| (SharedFn::new(move |x: i64| x - s), s * 2)),
    };
    let r = state_apply(mf, tick());
    assert_eq!(r.run_state.call(3), (57, 7));
}

#[test]
fn state_left_identity() {
    let left = state_bind(state_unit(5), add_state_arrow());
    let right = add_state_arrow().kleisli.call(5);
    for s in [-1, 0, 9] {
        assert_eq!(left.run_state.call(s), right.run_state.call(s));
    }
    assert_eq!(left.run_state.call(9), (14, 18));
}

#[test]
fn state_right_identity() {
    let unit = StateKleisli { kleisli: SharedFn::new(|a: i64| state_unit(a)) };
    let bound = state_bind(tick(), unit);
    for s in [-1, 0, 9] {
        assert_eq!(bound.run_state.call(s), tick().run_state.call(s));
    }
    assert_eq!(bound.run_state.call(9), (90, 10));
}

#[test]
fn state_bind_is_associative() {
    let left = state_bind(state_bind(tick(), add_state_arrow()), sub_state_arrow());
    let nested = StateKleisli {
        kleisli: SharedFn::new(|a: i64| {
            state_bind(add_state_arrow().kleisli.call(a), sub_state_arrow())
        }),
    };
    let right = state_bind(tick(), nested);
    for s in [-2, 0, 3] {
        assert_eq!(left.run_state.call(s), right.run_state.call(s));
    }
    assert_eq!(left.run_state.call(3), (26, 108));
}
