//! Monoids: what a Writer accumulates its log in.

use vstd::prelude::*;

verus! {

/// A type with an empty value and a way to append one value to another.
///
/// What the two operations return is stated over the views of the values.
/// A Writer asks nothing more of its log. The monad laws of the Writer hold
/// where any two values can be appended ([`total`]), appending is
/// associative ([`associative`]) and the empty value is its unit on both
/// sides ([`has_identity`]).
pub trait Monoid: View + Sized {
    type T: View<V = <Self as View>::V>;

    /// `e` is the view of an empty value.
    spec fn is_mempty(e: <Self as View>::V) -> bool;

    /// `r` is the view of `a` with `b` appended.
    spec fn is_mappend(a: <Self as View>::V, b: <Self as View>::V, r: <Self as View>::V) -> bool;

    /// The empty value.
    fn mempty() -> (e: Self::T)
        ensures
            Self::is_mempty(e@),
    ;

    /// A new value: `self` with `other` appended. Neither operand changes.
    fn mappend(&self, other: Self::T) -> (r: Self::T)
        ensures
            Self::is_mappend(self@, other@, r@),
    ;
}

/// `b` can be appended to `a`.
pub open spec fn can_append<M: Monoid>(a: M::V, b: M::V) -> bool {
    exists|r: M::V| #[trigger] M::is_mappend(a, b, r)
}

/// Any value can be appended to any value.
pub open spec fn total<M: Monoid>() -> bool {
    forall|a: M::V, b: M::V| #[trigger] can_append::<M>(a, b)
}

/// `r` is `a` with `b` appended, and then `c`.
pub open spec fn appended_from_left<M: Monoid>(a: M::V, b: M::V, c: M::V, r: M::V) -> bool {
    exists|ab: M::V| #[trigger] M::is_mappend(a, b, ab) && M::is_mappend(ab, c, r)
}

/// `r` is `a` with the following appended: `b` with `c` appended.
pub open spec fn appended_from_right<M: Monoid>(a: M::V, b: M::V, c: M::V, r: M::V) -> bool {
    exists|bc: M::V| #[trigger] M::is_mappend(b, c, bc) && M::is_mappend(a, bc, r)
}

/// Appending is associative.
pub open spec fn associative<M: Monoid>() -> bool {
    forall|a: M::V, b: M::V, c: M::V, r: M::V|
        #![trigger appended_from_left::<M>(a, b, c, r)]
        #![trigger appended_from_right::<M>(a, b, c, r)]
        appended_from_left::<M>(a, b, c, r) <==> appended_from_right::<M>(a, b, c, r)
}

/// There is an empty value, and it is the unit of appending, on both sides.
pub open spec fn has_identity<M: Monoid>() -> bool {
    &&& exists|e: M::V| #[trigger] M::is_mempty(e)
    &&& forall|e: M::V, a: M::V, r: M::V|
        M::is_mempty(e) ==> (#[trigger] M::is_mappend(e, a, r) <==> r == a)
    &&& forall|e: M::V, a: M::V, r: M::V|
        M::is_mempty(e) ==> (#[trigger] M::is_mappend(a, e, r) <==> r == a)
}

/// Two texts, the second on a new line below the first.
pub open spec fn joined_lines(a: Seq<char>, b: Seq<char>) -> Seq<char> {
    a + seq!['\n'] + b
}

/// The text `a` with the text `b` appended: `b` on a new line below `a`,
/// and where one of the two is empty, the other as it is.
pub open spec fn appended_text(a: Seq<char>, b: Seq<char>) -> Seq<char> {
    if a.len() == 0 {
        b
    } else if b.len() == 0 {
        a
    } else {
        joined_lines(a, b)
    }
}

/// Text, one entry to a line. Appending puts a line break between two texts
/// that both hold something; the empty text is the unit.
impl Monoid for String {
    type T = String;

    open spec fn is_mempty(e: Seq<char>) -> bool {
        e == Seq::<char>::empty()
    }

    open spec fn is_mappend(a: Seq<char>, b: Seq<char>, r: Seq<char>) -> bool {
        r == appended_text(a, b)
    }

    fn mempty() -> (e: String) {
        String::new()
    }

    fn mappend(&self, other: String) -> (r: String) {
        if self.as_str().is_empty() {
            other
        } else if other.as_str().is_empty() {
            self.clone()
        } else {
            let mut r = self.clone();
            proof {
                reveal_strlit("\n");
            }
            r.append("\n");
            r.append(other.as_str());
            assert(r@ =~= joined_lines(self@, other@));
            r
        }
    }
}

/// `r` holds a clone of each item of `a`, then a clone of each item of `b`.
pub open spec fn cloned_concat<A: Clone>(a: Seq<A>, b: Seq<A>, r: Seq<A>) -> bool {
    &&& r.len() == a.len() + b.len()
    &&& forall|i: int| 0 <= i < a.len() ==> cloned(a[i], #[trigger] r[i])
    &&& forall|i: int| 0 <= i < b.len() ==> cloned(#[trigger] b[i], r[a.len() + i])
}

/// Lists. Appending clones the items of both lists: the list that comes out
/// is the concatenation where cloning an item gives the item back.
impl<A: Clone> Monoid for Vec<A> {
    type T = Vec<A>;

    open spec fn is_mempty(e: Seq<A>) -> bool {
        e == Seq::<A>::empty()
    }

    open spec fn is_mappend(a: Seq<A>, b: Seq<A>, r: Seq<A>) -> bool {
        cloned_concat(a, b, r)
    }

    fn mempty() -> (e: Vec<A>) {
        Vec::new()
    }

    fn mappend(&self, other: Vec<A>) -> (r: Vec<A>) {
        let mut ret: Vec<A> = Vec::new();
        let mut i: usize = 0;
        while i < self.len()
            invariant
                i <= self@.len(),
                ret@.len() == i,
                forall|j: int| 0 <= j < i ==> cloned(self@[j], #[trigger] ret@[j]),
            decreases self@.len() - i,
        {
            ret.push(self[i].clone());
            i += 1;
        }
        let mut k: usize = 0;
        while k < other.len()
            invariant
                k <= other@.len(),
                ret@.len() == self@.len() + k,
                forall|j: int| 0 <= j < self@.len() ==> cloned(self@[j], #[trigger] ret@[j]),
                forall|j: int|
                    0 <= j < k ==> cloned(#[trigger] other@[j], ret@[self@.len() + j]),
            decreases other@.len() - k,
        {
            ret.push(other[k].clone());
            k += 1;
        }
        ret
    }
}

/// A log of text lines under a name of its own.
#[derive(Debug)]
pub struct StringLog {
    pub log: String,
}

impl Clone for StringLog {
    fn clone(&self) -> (r: Self)
        ensures
            r == *self,
    {
        StringLog { log: self.log.clone() }
    }
}

impl View for StringLog {
    type V = Seq<char>;

    open spec fn view(&self) -> Seq<char> {
        self.log@
    }
}

impl Monoid for StringLog {
    type T = StringLog;

    open spec fn is_mempty(e: Seq<char>) -> bool {
        e == Seq::<char>::empty()
    }

    open spec fn is_mappend(a: Seq<char>, b: Seq<char>, r: Seq<char>) -> bool {
        r == appended_text(a, b)
    }

    fn mempty() -> (e: StringLog) {
        StringLog { log: String::new() }
    }

    fn mappend(&self, other: StringLog) -> (r: StringLog) {
        StringLog { log: self.log.mappend(other.log) }
    }
}

} // verus!
