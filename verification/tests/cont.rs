use monadic::monads::cont::{
    cont_apply, cont_bind, cont_eval, cont_fmap, cont_unit, ContKleisli, ContMonad,
};
use monadic::monads::function::SharedFn;

#[test]
fn test_monad() {
    let m0 = cont_unit(10);
    assert_eq!(cont_eval(m0), 10);
}

#[test]
fn cont_test_fmap() {
    let m0 = cont_fmap(SharedFn::new(|x| x + 1), cont_unit(10));
    assert_eq!(cont_eval(m0), 11);
}

#[test]
fn cont_test_apply() {
    let m0 = cont_apply(cont_unit(SharedFn::new(move |x| {
            if x == 10 {
                "equal"
            } else {
                if x < 10 {
                    "less"
                } else {
                    "more"
                }
            }
        })), cont_unit(10));
    assert_eq!(cont_eval(m0), "equal");

    let m1 = cont_apply(cont_unit(SharedFn::new(move |x| {
            if x == 10 {
                "equal"
            } else {
                if x < 10 {
                    "less"
                } else {
                    "more"
                }
            }
        })), cont_unit(9));
    assert_eq!(cont_eval(m1), "less");

    let m2 = cont_apply(cont_unit(SharedFn::new(move |x| {
            if x == 10 {
                "equal"
            } else {
                if x < 10 {
                    "less"
                } else {
                    "more"
                }
            }
        })), cont_unit(12));
    assert_eq!(cont_eval(m2), "more");

    let m3 = cont_apply(cont_unit(SharedFn::new(move |x| {
            if x == 10 {
                "equal"
            } else {
                if x < 10 {
                    "less"
                } else {
                    "more"
                }
            }
        })), cont_unit(12));
    let m4 = cont_fmap(SharedFn::new(move |x: &str| x.len()), m3);
    assert_eq!(cont_eval(m4), 4);
}

#[test]
fn cont_test_bind() {
    let m0 = cont_bind(
        cont_unit(100),
        ContKleisli { kleisli: SharedFn::new(move |x| cont_unit(x * 100)) },
    );
    assert_eq!(cont_eval(m0), 10000);
}

#[test]
fn cont_test_do() {
    let calc = cont_bind(
        cont_unit(10),
        ContKleisli {
            kleisli: SharedFn::new(move |x| {
                cont_bind(
                    cont_unit(4 * x),
                    ContKleisli {
                        kleisli: SharedFn::new(move |y| {
                            cont_bind(
                                cont_unit(y + 11),
                                ContKleisli { kleisli: SharedFn::new(move |z| cont_unit(z)) },
                            )
                        }),
                    },
                )
            }),
        },
    );
    assert_eq!(cont_eval(calc), 51);

    let do_calc0 = |c| {
        cont_bind(
            c,
            ContKleisli {
                kleisli: SharedFn::new(move |x0| {
                    cont_bind(
                        cont_unit(10 * x0),
                        ContKleisli {
                            kleisli: SharedFn::new(move |x1| {
                                cont_bind(
                                    cont_unit(x1 + 12),
                                    ContKleisli { kleisli: SharedFn::new(move |x2| cont_unit(x2)) },
                                )
                            }),
                        },
                    )
                }),
            },
        )
    };
    let partial: ContMonad<i32, i32> = do_calc0(cont_unit(10));
    assert_eq!(cont_eval(partial), 112);
}
