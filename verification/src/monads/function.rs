//! Shared function values.
//!
//! A computation wraps a function that is built once and called many times,
//! by several owners. [`SharedFn`] is that function value. What it may be
//! called on and what it may return is its [`Behavior`], the model that every
//! contract of the library is stated over.

use std::rc::Rc;
use vstd::prelude::*;

verus! {

/// The model of a function value: the arguments it accepts and, for each of
/// them, the results it may return.
#[verifier::ext_equal]
#[verifier::reject_recursive_types(A)]
#[verifier::reject_recursive_types(B)]
pub struct Behavior<A, B> {
    pub pre: spec_fn(A) -> bool,
    pub post: spec_fn(A, B) -> bool,
}

impl<A, B> Behavior<A, B> {
    /// The function may be called on `a`.
    pub open spec fn accepts(self, a: A) -> bool {
        (self.pre)(a)
    }

    /// A call on `a` may return `b`.
    pub open spec fn yields(self, a: A, b: B) -> bool {
        (self.post)(a, b)
    }
}

/// The behavior of a closure or a function item.
pub open spec fn behavior_of<A, B, F: Fn(A) -> B>(f: F) -> Behavior<A, B> {
    Behavior { pre: |a: A| call_requires(f, (a,)), post: |a: A, b: B| call_ensures(f, (a,), b) }
}

/// The behavior of the identity function: it accepts every argument and
/// returns it.
pub open spec fn identity_spec<A>() -> Behavior<A, A> {
    Behavior { pre: |a: A| true, post: |a: A, b: A| b == a }
}

/// The behavior of `first` followed by `second`: the composition accepts an
/// argument if `first` does and `second` accepts whatever `first` may return
/// on it.
pub open spec fn and_then_spec<A, B, C>(first: Behavior<A, B>, second: Behavior<B, C>) -> Behavior<
    A,
    C,
> {
    Behavior {
        pre: |a: A|
            first.accepts(a) && forall|b: B| #[trigger] first.yields(a, b) ==> second.accepts(b),
        post: |a: A, c: C| exists|b: B| #[trigger] first.yields(a, b) && second.yields(b, c),
    }
}

/// `f` can stand in for `g`: it accepts whatever `g` accepts and yields only
/// what `g` yields. This is what the contract of a closure tells of it: the
/// arguments that are sure to be accepted and a bound on the results.
pub open spec fn refines<A, B>(f: Behavior<A, B>, g: Behavior<A, B>) -> bool {
    &&& forall|a: A| #[trigger] g.accepts(a) ==> f.accepts(a)
    &&& forall|a: A, b: B| #[trigger] f.yields(a, b) ==> g.yields(a, b)
}

/// The behavior of the function that returns a clone of `b` whatever its
/// argument.
pub open spec fn constant_spec<A, B: Clone>(b: B) -> Behavior<A, B> {
    Behavior { pre: |a: A| true, post: |a: A, x: B| cloned(b, x) }
}

/// Cloning a `T` gives back the value that was cloned.
pub open spec fn exact_clone<T: Clone>() -> bool {
    forall|a: T, b: T| #[trigger] cloned(a, b) ==> a == b
}

/// What a [`SharedFn`] holds: anything that can be called through a shared
/// reference, with its precondition and postcondition.
pub trait Callable<A, B> {
    spec fn pre(&self, a: A) -> bool;

    spec fn post(&self, a: A, b: B) -> bool;

    fn call(&self, a: A) -> (b: B)
        requires
            self.pre(a),
        ensures
            self.post(a, b),
    ;
}

/// A closure seen as a [`Callable`].
struct Closure<F>(F);

impl<A, B, F: Fn(A) -> B> Callable<A, B> for Closure<F> {
    closed spec fn pre(&self, a: A) -> bool {
        call_requires(self.0, (a,))
    }

    closed spec fn post(&self, a: A, b: B) -> bool {
        call_ensures(self.0, (a,), b)
    }

    fn call(&self, a: A) -> (b: B) {
        (self.0)(a)
    }
}

/// The identity function.
struct Identity;

impl<A> Callable<A, A> for Identity {
    closed spec fn pre(&self, a: A) -> bool {
        true
    }

    closed spec fn post(&self, a: A, b: A) -> bool {
        b == a
    }

    fn call(&self, a: A) -> (b: A) {
        a
    }
}

/// A function that returns the same value whatever its argument.
struct Constant<B> {
    b: B,
}

impl<A, B: Clone> Callable<A, B> for Constant<B> {
    closed spec fn pre(&self, a: A) -> bool {
        true
    }

    closed spec fn post(&self, a: A, x: B) -> bool {
        cloned(self.b, x)
    }

    fn call(&self, a: A) -> (x: B) {
        self.b.clone()
    }
}

/// Two shared functions, the second called on what the first returns.
#[verifier::reject_recursive_types(A)]
#[verifier::reject_recursive_types(B)]
#[verifier::reject_recursive_types(C)]
struct Composed<A, B, C> {
    first: SharedFn<A, B>,
    second: SharedFn<B, C>,
}

impl<A, B, C> Callable<A, C> for Composed<A, B, C> {
    closed spec fn pre(&self, a: A) -> bool {
        and_then_spec(self.first@, self.second@).accepts(a)
    }

    closed spec fn post(&self, a: A, c: C) -> bool {
        and_then_spec(self.first@, self.second@).yields(a, c)
    }

    fn call(&self, a: A) -> (c: C) {
        let b = self.first.call(a);
        self.second.call(b)
    }
}

/// A function from `A` to `B` under shared ownership: cloning it gives a
/// second handle to the same function.
#[verifier::reject_recursive_types(A)]
#[verifier::reject_recursive_types(B)]
pub struct SharedFn<A, B> {
    // Boxed first, then shared: Verus turns a `Box` of a concrete type into
    // a `Box<dyn ..>`, which it does not do for an `Rc`.
    pub f: Rc<Box<dyn Callable<A, B>>>,
}

impl<A, B> View for SharedFn<A, B> {
    type V = Behavior<A, B>;

    open spec fn view(&self) -> Behavior<A, B> {
        Behavior { pre: |a: A| self.f.pre(a), post: |a: A, b: B| self.f.post(a, b) }
    }
}

impl<A, B> SharedFn<A, B> {
    /// Shares the closure `f`.
    pub fn new<F: Fn(A) -> B + 'static>(f: F) -> (r: Self)
        ensures
            r@ == behavior_of(f),
    {
        SharedFn { f: Rc::new(Box::new(Closure(f))) }
    }
}

impl<A> SharedFn<A, A> {
    /// The identity function.
    pub fn identity() -> (r: Self)
        ensures
            r@ == identity_spec::<A>(),
    {
        SharedFn { f: Rc::new(Box::new(Identity)) }
    }
}

impl<A, B: 'static + Clone> SharedFn<A, B> {
    /// The function that ignores its argument and returns `b`.
    pub fn constant(b: B) -> (r: Self)
        ensures
            r@ == constant_spec::<A, B>(b),
    {
        SharedFn { f: Rc::new(Box::new(Constant { b })) }
    }
}

impl<A: 'static, B: 'static> SharedFn<A, B> {
    /// The function that calls `self`, and `second` on the result.
    pub fn and_then<C: 'static>(self, second: SharedFn<B, C>) -> (r: SharedFn<A, C>)
        ensures
            r@ == and_then_spec(self@, second@),
    {
        SharedFn { f: Rc::new(Box::new(Composed { first: self, second })) }
    }
}

impl<A, B> SharedFn<A, B> {
    /// Calls the function on `a`.
    pub fn call(&self, a: A) -> (b: B)
        requires
            self@.accepts(a),
        ensures
            self@.yields(a, b),
    {
        self.f.call(a)
    }
}

impl<A, B> Clone for SharedFn<A, B> {
    fn clone(&self) -> (r: Self)
        ensures
            r == *self,
    {
        SharedFn { f: self.f.clone() }
    }
}

} // verus!
