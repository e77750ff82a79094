use monadic::monads::function::SharedFn;
use monadic::monads::writer::{
    log, writer_apply, writer_bind, writer_fmap, writer_unit, WriterKleisli,
};

#[test]
fn writer_test_fmap() {
    assert_eq!(writer_fmap(|x| 2 * x, (5, "hello".to_string())), (10, "hello".to_string()));
    assert_eq!(
        writer_fmap(|x| if x == 5 { "zero" } else { "one" }, (5, "hello".to_string())),
        ("zero", "hello".to_string())
    );
}

#[test]
fn writer_test_apply() {
    assert_eq!(
        writer_apply((|x| 2 * x, "hello".to_string()), (3, "goodbye".to_string())),
        (6, "hello\ngoodbye".to_string())
    );
}

#[test]
fn writer_test_bind() {
    assert_eq!(
        writer_bind(
            (1, "hello".to_string()),
            WriterKleisli { kleisli: SharedFn::new(|x| (2 * x, "goodbye".to_string())) }
        ),
        (2, "hello\ngoodbye".to_string())
    );
}

#[test]
fn writer_test_do() {
    let do_calculation = |x| {
        writer_bind(
            log(format!("received number {}", x)),
            WriterKleisli {
                kleisli: SharedFn::new(move |_| {
                    (|x0| {
                        writer_bind(
                            log("added 10 to the number".to_string()),
                            WriterKleisli {
                                kleisli: SharedFn::new(move |_| {
                                    (|x1| {
                                        writer_bind(
                                            log("multiplied result by 2".to_string()),
                                            WriterKleisli {
                                                kleisli: SharedFn::new(move |_| writer_unit(x1)),
                                            },
                                        )
                                    })(2 * x0)
                                }),
                            },
                        )
                    })(x + 10)
                }),
            },
        )
    };
    assert_eq!(
        do_calculation(5),
        (30, "received number 5\nadded 10 to the number\nmultiplied result by 2".to_string())
    );
}
