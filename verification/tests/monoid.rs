use monadic::monads::monoid::{Monoid, StringLog};

#[test]
fn string_mempty_is_the_empty_text() {
    assert_eq!(<String as Monoid>::mempty(), "".to_string());
}

#[test]
fn string_mappend_puts_a_line_break_between() {
    assert_eq!("hello".to_string().mappend("goodbye".to_string()), "hello\ngoodbye");
}

#[test]
fn string_mappend_keeps_both_operands() {
    let a = "a".to_string();
    let b = "b".to_string();
    let joined = a.mappend(b.clone());
    assert_eq!(a, "a");
    assert_eq!(b, "b");
    assert_eq!(joined, "a\nb");
}

#[test]
fn string_mempty_is_a_unit_on_both_sides() {
    assert_eq!("a".to_string().mappend(String::mempty()), "a");
    assert_eq!(String::mempty().mappend("a".to_string()), "a");
    assert_eq!(String::mempty().mappend(String::mempty()), "");
}

#[test]
fn string_mappend_keeps_a_text_that_is_only_a_line_break() {
    assert_eq!("\n".to_string().mappend("a".to_string()), "\n\na");
    assert_eq!("a".to_string().mappend("\n".to_string()), "a\n\n");
    assert_eq!(" ".to_string().mappend(String::mempty()), " ");
}

#[test]
fn string_mappend_is_associative_beside_an_empty_text() {
    let a = "a".to_string();
    let c = "c".to_string();
    assert_eq!(a.mappend(String::mempty()).mappend(c.clone()), "a\nc");
    assert_eq!(a.mappend(String::mempty().mappend(c)), "a\nc");
}

#[test]
fn string_mappend_is_associative() {
    let a = "a".to_string();
    let b = "b".to_string();
    let c = "c".to_string();
    let left = a.mappend(b.clone()).mappend(c.clone());
    let right = a.mappend(b.mappend(c));
    assert_eq!(left, "a\nb\nc");
    assert_eq!(right, "a\nb\nc");
}

#[test]
fn string_mappend_keeps_characters_outside_ascii() {
    assert_eq!("é".to_string().mappend("日本".to_string()), "é\n日本");
}

#[test]
fn vec_mempty_is_the_empty_list() {
    assert_eq!(<Vec<i32> as Monoid>::mempty(), Vec::<i32>::new());
}

#[test]
fn vec_mappend_concatenates() {
    assert_eq!(vec![1, 2].mappend(vec![3]), vec![1, 2, 3]);
    assert_eq!(vec![3].mappend(vec![1, 2]), vec![3, 1, 2]);
}

#[test]
fn vec_mempty_is_a_unit_on_both_sides() {
    let v = vec!["x".to_string(), "y".to_string()];
    assert_eq!(v.mappend(Vec::mempty()), v);
    assert_eq!(<Vec<String> as Monoid>::mempty().mappend(v.clone()), v);
}

#[test]
fn vec_mappend_is_associative() {
    let a = vec![1];
    let b = vec![2, 3];
    let c = vec![4];
    assert_eq!(a.mappend(b.clone()).mappend(c.clone()), a.mappend(b.mappend(c)));
    assert_eq!(a.mappend(vec![2, 3]).mappend(vec![4]), vec![1, 2, 3, 4]);
}

#[test]
fn string_log_appends_as_text_does() {
    let a = StringLog { log: "added 1".to_string() };
    let b = StringLog { log: "multiplied by 2".to_string() };
    assert_eq!(a.mappend(b).log, "added 1\nmultiplied by 2");
    assert_eq!(StringLog::mempty().log, "");
    assert_eq!(a.mappend(StringLog::mempty()).log, "added 1");
    assert_eq!(StringLog::mempty().mappend(a.clone()).log, "added 1");
}
