use monadic::monads::cont::{
    cont_apply, cont_bind, cont_eval, cont_fmap, cont_unit, ContKleisli, ContMonad,
};
use monadic::monads::function::SharedFn;

fn quadruple() -> ContKleisli<i32, i32, i32> {
    ContKleisli { kleisli: SharedFn::new(|x: i32| cont_unit(4 * x)) }
}

fn add_eleven() -> ContKleisli<i32, i32, i32> {
    ContKleisli { kleisli: SharedFn::new(|x: i32| cont_unit(x + 11)) }
}

#[test]
fn continuation_exit() {
    assert_eq!(cont_eval(cont_unit(10)), 10);
    assert_eq!(cont_eval(cont_bind(cont_unit(10), quadruple())), 40);
}

#[test]
fn cont_unit_hands_over_text() {
    assert_eq!(cont_eval(cont_unit("done".to_string())), "done");
}

#[test]
fn cont_clone_is_a_second_handle() {
    let m: ContMonad<i32, i32> = cont_bind(cont_unit(3), quadruple());
    let again = m.clone();
    assert_eq!(cont_eval(m), 12);
    assert_eq!(cont_eval(again), 12);
}

#[test]
fn cont_fmap_identity() {
    let m: ContMonad<i32, i32> = cont_bind(cont_unit(3), quadruple());
    let mapped = cont_fmap(SharedFn::identity(), m.clone());
    assert_eq!(cont_eval(mapped), cont_eval(m));
}

#[test]
fn cont_fmap_composition() {
    let f = SharedFn::new(|x: i32| x + 1);
    let g = SharedFn::new(|x: i32| x * x);
    let left = cont_fmap(g.clone().and_then(f.clone()), cont_unit(7));
    let right = cont_fmap(f, cont_fmap(g, cont_unit(7)));
    assert_eq!(cont_eval(left), 50);
    assert_eq!(cont_eval(right), 50);
}

#[test]
fn cont_fmap_to_the_answer_type() {
    let m: ContMonad<String, i32> = cont_unit(12);
    let shown = cont_fmap(SharedFn::new(|x: i32| format!("<{}>", x)), m);
    assert_eq!(cont_eval(shown), "<12>");
}

#[test]
fn cont_apply_applies_the_function_to_the_value() {
    let mf: ContMonad<i32, SharedFn<i32, i32>> = cont_unit(SharedFn::new(|x: i32| x - 2));
    assert_eq!(cont_eval(cont_apply(mf, cont_unit(44))), 42);
}

#[test]
fn cont_left_identity() {
    let left = cont_bind(cont_unit(5), quadruple());
    let right = quadruple().kleisli.call(5);
    assert_eq!(cont_eval(left), 20);
    assert_eq!(cont_eval(right), 20);
}

#[test]
fn cont_right_identity() {
    let m: ContMonad<i32, i32> = cont_bind(cont_unit(5), quadruple());
    let unit = ContKleisli { kleisli: SharedFn::new(|x: i32| cont_unit(x)) };
    assert_eq!(cont_eval(cont_bind(m.clone(), unit)), cont_eval(m));
}

#[test]
fn cont_bind_is_associative() {
    let left = cont_bind(cont_bind(cont_unit(10), quadruple()), add_eleven());
    let nested = ContKleisli {
        kleisli: SharedFn::new(|a: i32| cont_bind(quadruple().kleisli.call(a), add_eleven())),
    };
    let right = cont_bind(cont_unit(10), nested);
    assert_eq!(cont_eval(left), 51);
    assert_eq!(cont_eval(right), 51);
}
