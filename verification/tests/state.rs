use monadic::monads::function::SharedFn;
use monadic::monads::state::{
    get, put, state_apply, state_bind, state_fmap, state_unit, StateKleisli, StateMonad,
};

#[test]
fn state_test_fmap() {
    let s0 = state_fmap(
        SharedFn::new(|x| x + 1),
        StateMonad { run_state: SharedFn::new(|s| (10, s)) },
    );
    assert_eq!(s0.run_state.call((0, 0)), (11, (0, 0)));
}

#[test]
fn state_test_apply() {
    let s0 = state_apply(
        StateMonad { run_state: SharedFn::new(|s| (SharedFn::new(|x| x + 2), s)) },
        StateMonad { run_state: SharedFn::new(|s| (10, s)) },
    );
    assert_eq!(s0.run_state.call((0, 0)), (12, (0, 0)));
}

#[test]
fn state_test_bind() {
    let s0 = state_bind(
        StateMonad { run_state: SharedFn::new(|s| (10, s)) },
        StateKleisli {
            kleisli: SharedFn::new(move |x| StateMonad {
                run_state: SharedFn::new(move |s| (2 * x, s)),
            }),
        },
    );
    assert_eq!(s0.run_state.call((0, 0)), (20, (0, 0)));
}

#[test]
fn state_test_do() {
    let run_game: StateMonad<(i64, i64), i64> = state_bind(
        get(),
        StateKleisli {
            kleisli: SharedFn::new(move |st: (i64, i64)| {
                (|winner| {
                    state_bind(
                        put(if winner == 0 { (st.0 + 1, st.1) } else { (st.0, st.1 + 1) }),
                        StateKleisli { kleisli: SharedFn::new(move |_| state_unit(winner)) },
                    )
                })(0)
            }),
        },
    );
    assert_eq!(run_game.run_state.call((10, 13)), (0, (11, 13)));
}
