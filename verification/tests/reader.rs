use monadic::monads::function::SharedFn;
use monadic::monads::reader::{
    load, reader_apply, reader_bind, reader_fmap, reader_unit, ReaderKleisli, ReaderMonad,
};

#[test]
fn test_fmap0() {
    let r0: ReaderMonad<&str, i64> = reader_fmap(
        SharedFn::new(|x: i64| 3 * x),
        ReaderMonad { run_reader: SharedFn::new(|_cfg| 11) },
    );
    let r1: ReaderMonad<&str, i64> = ReaderMonad { run_reader: SharedFn::new(|_cfg| 33) };
    assert_eq!(r0.run_reader.call("hi"), r1.run_reader.call("hi"));
}

#[test]
fn test_fmap1() {
    let r0: ReaderMonad<&str, i64> = reader_fmap(
        SharedFn::new(|x: i64| 3 * x),
        ReaderMonad { run_reader: SharedFn::new(|cfg| if cfg == "one" { 10 } else { 1 }) },
    );
    assert_eq!(r0.run_reader.call("one"), 30);
    assert_eq!(r0.run_reader.call("none"), 3);
}

#[test]
fn reader_test_apply() {
    let r0: ReaderMonad<&str, SharedFn<i64, i64>> = ReaderMonad {
        run_reader: SharedFn::new(|cfg| {
            SharedFn::new(move |x| if cfg == "one" { x } else { 2 * x })
        }),
    };
    let r1: ReaderMonad<&str, i64> = ReaderMonad { run_reader: SharedFn::new(|_cfg| 10) };
    let r2 = reader_apply(r0, r1);
    assert_eq!(r2.run_reader.call("one"), 10);
    assert_eq!(r2.run_reader.call("two"), 20);
}

#[test]
fn reader_test_bind() {
    let r0: ReaderMonad<(bool, bool), &str> =
        ReaderMonad { run_reader: SharedFn::new(|cfg: (bool, bool)| if cfg.0 { "t" } else { "f" }) };
    let k0: ReaderKleisli<(bool, bool), &str, (&str, &str)> = ReaderKleisli {
        kleisli: SharedFn::new(|l| ReaderMonad {
            run_reader: SharedFn::new(move |cfg: (bool, bool)| {
                if cfg.1 {
                    (l, "t")
                } else {
                    (l, "f")
                }
            }),
        }),
    };
    let r1 = reader_bind(r0, k0);
    assert_eq!(r1.run_reader.call((true, true)), ("t", "t"));
    assert_eq!(r1.run_reader.call((true, false)), ("t", "f"));
    assert_eq!(r1.run_reader.call((false, true)), ("f", "t"));
    assert_eq!(r1.run_reader.call((false, false)), ("f", "f"));
}

#[derive(Debug, Clone)]
struct User {
    uname: String,
    host: String,
    ip: String,
}

#[test]
fn reader_test_do() {
    let gen_login_str: ReaderMonad<User, String> = reader_bind(
        load(),
        ReaderKleisli {
            kleisli: SharedFn::new(move |cfg: User| {
                reader_unit(format!("{}-{}-{}", cfg.uname, cfg.host, cfg.ip))
            }),
        },
    );
    assert_eq!(
        gen_login_str.run_reader.call(User {
            uname: "a".to_string(),
            host: "b".to_string(),
            ip: "c".to_string()
        }),
        "a-b-c".to_string()
    );
}
