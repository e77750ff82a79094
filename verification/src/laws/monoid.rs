//! Which of the monoid laws the logs of this library keep.

use crate::monads::function::exact_clone;
use crate::monads::monoid::{
    appended_from_left, appended_from_right, appended_text, associative, can_append,
    cloned_concat, has_identity, joined_lines, total, Monoid, StringLog,
};
use vstd::prelude::*;

verus! {

/// Joining lines is associative.
pub proof fn lemma_joined_lines_associative(a: Seq<char>, b: Seq<char>, c: Seq<char>)
    ensures
        joined_lines(joined_lines(a, b), c) == joined_lines(a, joined_lines(b, c)),
{
}

/// Appending text is associative.
pub proof fn lemma_appended_text_associative(a: Seq<char>, b: Seq<char>, c: Seq<char>)
    ensures
        appended_text(appended_text(a, b), c) == appended_text(a, appended_text(b, c)),
{
    lemma_joined_lines_associative(a, b, c);
}

/// The empty text is the unit of appending text, on both sides.
pub proof fn lemma_appended_text_identity(a: Seq<char>)
    ensures
        appended_text(Seq::empty(), a) == a,
        appended_text(a, Seq::empty()) == a,
{
}

/// Text keeps the monoid laws: any text can be appended to any text,
/// appending is associative, and the empty text is its unit.
pub proof fn lemma_string_is_a_monoid()
    ensures
        total::<String>(),
        associative::<String>(),
        has_identity::<String>(),
{
    assert forall|a: Seq<char>, b: Seq<char>| #[trigger] can_append::<String>(a, b) by {
        assert(String::is_mappend(a, b, appended_text(a, b)));
    }
    assert forall|a: Seq<char>, b: Seq<char>, c: Seq<char>, r: Seq<char>|
        appended_from_left::<String>(a, b, c, r) <==> appended_from_right::<String>(
            a,
            b,
            c,
            r,
        ) by {
        lemma_appended_text_associative(a, b, c);
        if appended_from_left::<String>(a, b, c, r) {
            assert(String::is_mappend(b, c, appended_text(b, c)));
        }
        if appended_from_right::<String>(a, b, c, r) {
            assert(String::is_mappend(a, b, appended_text(a, b)));
        }
    }
    assert(String::is_mempty(Seq::<char>::empty()));
    assert forall|e: Seq<char>, a: Seq<char>, r: Seq<char>| String::is_mempty(e) implies (
    #[trigger] String::is_mappend(e, a, r) <==> r == a) by {
        lemma_appended_text_identity(a);
    }
    assert forall|e: Seq<char>, a: Seq<char>, r: Seq<char>| String::is_mempty(e) implies (
    #[trigger] String::is_mappend(a, e, r) <==> r == a) by {
        lemma_appended_text_identity(a);
    }
}

/// A [`StringLog`] keeps the monoid laws as text does.
pub proof fn lemma_string_log_is_a_monoid()
    ensures
        total::<StringLog>(),
        associative::<StringLog>(),
        has_identity::<StringLog>(),
{
    assert forall|a: Seq<char>, b: Seq<char>| #[trigger] can_append::<StringLog>(a, b) by {
        assert(StringLog::is_mappend(a, b, appended_text(a, b)));
    }
    assert forall|a: Seq<char>, b: Seq<char>, c: Seq<char>, r: Seq<char>|
        appended_from_left::<StringLog>(a, b, c, r) <==> appended_from_right::<StringLog>(
            a,
            b,
            c,
            r,
        ) by {
        lemma_appended_text_associative(a, b, c);
        if appended_from_left::<StringLog>(a, b, c, r) {
            assert(StringLog::is_mappend(b, c, appended_text(b, c)));
        }
        if appended_from_right::<StringLog>(a, b, c, r) {
            assert(StringLog::is_mappend(a, b, appended_text(a, b)));
        }
    }
    assert(StringLog::is_mempty(Seq::<char>::empty()));
    assert forall|e: Seq<char>, a: Seq<char>, r: Seq<char>| StringLog::is_mempty(e) implies (
    #[trigger] StringLog::is_mappend(e, a, r) <==> r == a) by {
        lemma_appended_text_identity(a);
    }
    assert forall|e: Seq<char>, a: Seq<char>, r: Seq<char>| StringLog::is_mempty(e) implies (
    #[trigger] StringLog::is_mappend(a, e, r) <==> r == a) by {
        lemma_appended_text_identity(a);
    }
}

/// Where cloning an item gives the item back, appending lists is
/// concatenation.
pub proof fn lemma_vec_mappend_is_concatenation<A: Clone>(a: Seq<A>, b: Seq<A>, r: Seq<A>)
    requires
        exact_clone::<A>(),
    ensures
        cloned_concat(a, b, r) <==> r == a + b,
{
    if cloned_concat(a, b, r) {
        assert forall|i: int| 0 <= i < r.len() implies r[i] == (a + b)[i] by {}
        assert(r =~= a + b);
    }
    if r == a + b {
        assert forall|i: int| 0 <= i < b.len() implies cloned(#[trigger] b[i], r[a.len() + i]) by {}
    }
}

/// Lists keep both monoid laws where cloning an item gives the item back.
pub proof fn lemma_vec_is_a_monoid<A: Clone>()
    requires
        exact_clone::<A>(),
    ensures
        total::<Vec<A>>(),
        associative::<Vec<A>>(),
        has_identity::<Vec<A>>(),
{
    assert forall|a: Seq<A>, b: Seq<A>| #[trigger] can_append::<Vec<A>>(a, b) by {
        lemma_vec_mappend_is_concatenation(a, b, a + b);
        assert(Vec::<A>::is_mappend(a, b, a + b));
    }
    assert forall|a: Seq<A>, b: Seq<A>, c: Seq<A>, r: Seq<A>|
        appended_from_left::<Vec<A>>(a, b, c, r) <==> appended_from_right::<Vec<A>>(
            a,
            b,
            c,
            r,
        ) by {
        lemma_vec_mappend_is_concatenation(a, b, a + b);
        lemma_vec_mappend_is_concatenation(b, c, b + c);
        lemma_vec_mappend_is_concatenation(a + b, c, r);
        lemma_vec_mappend_is_concatenation(a, b + c, r);
        if appended_from_left::<Vec<A>>(a, b, c, r) {
            let ab = choose|ab: Seq<A>| #[trigger]
                Vec::<A>::is_mappend(a, b, ab) && Vec::<A>::is_mappend(ab, c, r);
            lemma_vec_mappend_is_concatenation(a, b, ab);
            assert(Vec::<A>::is_mappend(b, c, b + c));
        }
        if appended_from_right::<Vec<A>>(a, b, c, r) {
            let bc = choose|bc: Seq<A>| #[trigger]
                Vec::<A>::is_mappend(b, c, bc) && Vec::<A>::is_mappend(a, bc, r);
            lemma_vec_mappend_is_concatenation(b, c, bc);
            assert(Vec::<A>::is_mappend(a, b, a + b));
        }
    }
    let empty = Seq::<A>::empty();
    assert(Vec::<A>::is_mempty(empty));
    assert forall|e: Seq<A>, a: Seq<A>, r: Seq<A>| Vec::<A>::is_mempty(e) implies (
    #[trigger] Vec::<A>::is_mappend(e, a, r) <==> r == a) by {
        lemma_vec_mappend_is_concatenation(e, a, r);
    }
    assert forall|e: Seq<A>, a: Seq<A>, r: Seq<A>| Vec::<A>::is_mempty(e) implies (
    #[trigger] Vec::<A>::is_mappend(a, e, r) <==> r == a) by {
        lemma_vec_mappend_is_concatenation(a, e, r);
    }
}

} // verus!
