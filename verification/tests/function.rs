use monadic::monads::function::SharedFn;

#[test]
fn shared_fn_calls_the_closure() {
    let double = SharedFn::new(|x: i32| 2 * x);
    assert_eq!(double.call(21), 42);
    assert_eq!(double.call(-4), -8);
}

#[test]
fn shared_fn_can_be_called_many_times() {
    let offset = 7;
    let add = SharedFn::new(move |x: i32| x + offset);
    let mut total = 0;
    for i in 0..100 {
        total += add.call(i);
    }
    assert_eq!(total, 4950 + 700);
}

#[test]
fn clone_is_a_second_handle_to_the_same_function() {
    let shout = SharedFn::new(|s: String| format!("{}!", s));
    let again = shout.clone();
    assert_eq!(shout.call("a".to_string()), "a!");
    assert_eq!(again.call("a".to_string()), "a!");
    drop(shout);
    assert_eq!(again.call("b".to_string()), "b!");
}

#[test]
fn identity_returns_its_argument() {
    let id: SharedFn<&str, &str> = SharedFn::identity();
    assert_eq!(id.call("same"), "same");
    let id_num: SharedFn<u8, u8> = SharedFn::identity();
    assert_eq!(id_num.call(0), 0);
    assert_eq!(id_num.call(255), 255);
}

#[test]
fn and_then_calls_the_first_function_first() {
    let add_one = SharedFn::new(|x: i32| x + 1);
    let times_ten = SharedFn::new(|x: i32| x * 10);
    assert_eq!(add_one.clone().and_then(times_ten.clone()).call(2), 30);
    assert_eq!(times_ten.and_then(add_one).call(2), 21);
}

#[test]
fn and_then_changes_the_type() {
    let length = SharedFn::new(|s: &str| s.len());
    let is_even = SharedFn::new(|n: usize| n % 2 == 0);
    let even_length = length.and_then(is_even);
    assert!(even_length.call("abcd"));
    assert!(!even_length.call("abc"));
}
