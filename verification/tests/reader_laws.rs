use monadic::monads::function::SharedFn;
use monadic::monads::reader::{
    load, reader_apply, reader_bind, reader_fmap, reader_unit, ReaderKleisli, ReaderMonad,
};

fn scaled() -> ReaderMonad<i64, i64> {
    ReaderMonad { run_reader: SharedFn::new(|cfg: i64| 10 * cfg) }
}

fn offset_arrow() -> ReaderKleisli<i64, i64, i64> {
    ReaderKleisli {
        kleisli: SharedFn::new(|a: i64| ReaderMonad {
            run_reader: SharedFn::new(move |cfg: i64| a + cfg),
        }),
    }
}

fn product_arrow() -> ReaderKleisli<i64, i64, i64> {
    ReaderKleisli {
        kleisli: SharedFn::new(|a: i64| ReaderMonad {
            run_reader: SharedFn::new(move |cfg: i64| a * cfg),
        }),
    }
}

#[test]
fn reader_unit_ignores_the_environment() {
    let m: ReaderMonad<&str, i32> = reader_unit(7);
    assert_eq!(m.run_reader.call("one"), 7);
    assert_eq!(m.run_reader.call("two"), 7);
}

#[test]
fn load_returns_the_environment() {
    let m: ReaderMonad<(i32, &str), (i32, &str)> = load();
    assert_eq!(m.run_reader.call((1, "x")), (1, "x"));
}

#[test]
fn reader_can_run_many_times() {
    let m = reader_bind(scaled(), offset_arrow());
    assert_eq!(m.run_reader.call(1), 11);
    assert_eq!(m.run_reader.call(2), 22);
    assert_eq!(m.run_reader.call(1), 11);
}

#[test]
fn reader_fmap_identity() {
    let mapped = reader_fmap(SharedFn::identity(), scaled());
    for cfg in [-3, 0, 4] {
        assert_eq!(mapped.run_reader.call(cfg), scaled().run_reader.call(cfg));
    }
    assert_eq!(mapped.run_reader.call(4), 40);
}

#[test]
fn reader_fmap_composition() {
    let f = SharedFn::new(|x: i64| x + 1);
    let g = SharedFn::new(|x: i64| x * x);
    let left = reader_fmap(g.clone().and_then(f.clone()), scaled());
    let right = reader_fmap(f, reader_fmap(g, scaled()));
    for cfg in [-3, 0, 4] {
        assert_eq!(left.run_reader.call(cfg), right.run_reader.call(cfg));
    }
    assert_eq!(left.run_reader.call(2), 401);
}

#[test]
fn reader_apply_shares_the_environment() {
    let mf: ReaderMonad<i64, SharedFn<i64, i64>> = ReaderMonad {
        run_reader: SharedFn::new(|cfg: i64| SharedFn::new(move |x: i64| x - cfg)),
    };
    let r = reader_apply(mf, scaled());
    assert_eq!(r.run_reader.call(3), 27);
    assert_eq!(r.run_reader.call(0), 0);
}

#[test]
fn reader_left_identity() {
    let left = reader_bind(reader_unit(5), offset_arrow());
    let right = offset_arrow().kleisli.call(5);
    for cfg in [-1, 0, 9] {
        assert_eq!(left.run_reader.call(cfg), right.run_reader.call(cfg));
    }
    assert_eq!(left.run_reader.call(9), 14);
}

#[test]
fn reader_right_identity() {
    let unit = ReaderKleisli { kleisli: SharedFn::new(|a: i64| reader_unit(a)) };
    let bound = reader_bind(scaled(), unit);
    for cfg in [-1, 0, 9] {
        assert_eq!(bound.run_reader.call(cfg), scaled().run_reader.call(cfg));
    }
    assert_eq!(bound.run_reader.call(9), 90);
}

#[test]
fn reader_bind_is_associative() {
    let left = reader_bind(reader_bind(scaled(), offset_arrow()), product_arrow());
    let nested = ReaderKleisli {
        kleisli: SharedFn::new(|a: i64| reader_bind(offset_arrow().kleisli.call(a), product_arrow())),
    };
    let right = reader_bind(scaled(), nested);
    for cfg in [-2, 0, 3] {
        assert_eq!(left.run_reader.call(cfg), right.run_reader.call(cfg));
    }
    assert_eq!(left.run_reader.call(3), 99);
}

#[test]
fn reader_bind_passes_the_same_environment_to_both() {
    let first: ReaderMonad<String, String> =
        ReaderMonad { run_reader: SharedFn::new(|cfg: String| format!("first saw {}", cfg)) };
    let second = ReaderKleisli {
        kleisli: SharedFn::new(|seen: String| ReaderMonad {
            run_reader: SharedFn::new(move |cfg: String| format!("{}, second saw {}", seen, cfg)),
        }),
    };
    let both = reader_bind(first, second);
    assert_eq!(both.run_reader.call("E".to_string()), "first saw E, second saw E");
}
