//! State computations: functions from a state to a value and the state that
//! follows.
//!
//! The model of a State is the [`Behavior`] of the function it wraps. The
//! state runs through a chain of computations as one thread: each step gets
//! the state that the step before it returned.

use super::function::{Behavior, Callable, SharedFn};
use std::rc::Rc;
use vstd::prelude::*;

verus! {

/// The model of a State.
pub type StateSpec<Ts, Ta> = Behavior<Ts, (Ta, Ts)>;

/// A computation that takes a state of type `Ts` and returns a `Ta` with the
/// state that follows.
#[verifier::reject_recursive_types(Ts)]
#[verifier::reject_recursive_types(Ta)]
pub struct StateMonad<Ts, Ta> {
    pub run_state: SharedFn<Ts, (Ta, Ts)>,
}

impl<Ts, Ta> View for StateMonad<Ts, Ta> {
    type V = StateSpec<Ts, Ta>;

    open spec fn view(&self) -> StateSpec<Ts, Ta> {
        self.run_state@
    }
}

impl<Ts, Ta> Clone for StateMonad<Ts, Ta> {
    fn clone(&self) -> (r: Self)
        ensures
            r == *self,
    {
        StateMonad { run_state: self.run_state.clone() }
    }
}

/// The model of `state_unit(a)`: `a`, and the state as it came in.
pub open spec fn state_unit_spec<Ts, Ta>(a: Ta) -> StateSpec<Ts, Ta> {
    Behavior { pre: |s: Ts| true, post: |s: Ts, r: (Ta, Ts)| r == (a, s) }
}

struct UnitState<Ta> {
    a: Ta,
}

impl<Ts, Ta: Copy> Callable<Ts, (Ta, Ts)> for UnitState<Ta> {
    closed spec fn pre(&self, s: Ts) -> bool {
        true
    }

    closed spec fn post(&self, s: Ts, r: (Ta, Ts)) -> bool {
        r == (self.a, s)
    }

    fn call(&self, s: Ts) -> (r: (Ta, Ts)) {
        (self.a, s)
    }
}

/// The computation that returns `a` and leaves the state unchanged.
pub fn state_unit<Ts: 'static + Clone, Ta: 'static + Copy>(a: Ta) -> (m: StateMonad<Ts, Ta>)
    ensures
        m@ == state_unit_spec::<Ts, Ta>(a),
{
    StateMonad { run_state: SharedFn { f: Rc::new(Box::new(UnitState { a })) } }
}

/// The model of `state_fmap(f_ab, ma)`: `ma`, then `f_ab` on the value; the
/// state is the one that `ma` returned.
pub open spec fn state_fmap_spec<Ts, Ta, Tb>(
    f_ab: Behavior<Ta, Tb>,
    ma: StateSpec<Ts, Ta>,
) -> StateSpec<Ts, Tb> {
    Behavior {
        pre: |s: Ts|
            ma.accepts(s) && forall|p: (Ta, Ts)| #[trigger] ma.yields(s, p) ==> f_ab.accepts(p.0),
        post: |s: Ts, r: (Tb, Ts)|
            exists|p: (Ta, Ts)| #[trigger] ma.yields(s, p) && f_ab.yields(p.0, r.0) && r.1 == p.1,
    }
}

#[verifier::reject_recursive_types(Ts)]
#[verifier::reject_recursive_types(Ta)]
#[verifier::reject_recursive_types(Tb)]
struct FmapState<Ts, Ta, Tb> {
    f_ab: SharedFn<Ta, Tb>,
    ma: StateMonad<Ts, Ta>,
}

impl<Ts, Ta, Tb> Callable<Ts, (Tb, Ts)> for FmapState<Ts, Ta, Tb> {
    closed spec fn pre(&self, s: Ts) -> bool {
        state_fmap_spec(self.f_ab@, self.ma@).accepts(s)
    }

    closed spec fn post(&self, s: Ts, r: (Tb, Ts)) -> bool {
        state_fmap_spec(self.f_ab@, self.ma@).yields(s, r)
    }

    fn call(&self, s: Ts) -> (r: (Tb, Ts)) {
        let a_s: (Ta, Ts) = self.ma.run_state.call(s);
        (self.f_ab.call(a_s.0), a_s.1)
    }
}

/// The computation that runs `ma` and applies `f_ab` to its value.
pub fn state_fmap<Ts: 'static, Ta: 'static, Tb: 'static>(
    f_ab: SharedFn<Ta, Tb>,
    ma: StateMonad<Ts, Ta>,
) -> (m: StateMonad<Ts, Tb>)
    ensures
        m@ == state_fmap_spec(f_ab@, ma@),
{
    StateMonad { run_state: SharedFn { f: Rc::new(Box::new(FmapState { f_ab, ma })) } }
}

/// The model of `state_apply(mf, ma)`: `mf` runs on the state that came in,
/// `ma` on the state that `mf` returned, and the function is called on the
/// value; the state is the one that `ma` returned.
pub open spec fn state_apply_spec<Ts, Ta, Tb>(
    mf: StateSpec<Ts, SharedFn<Ta, Tb>>,
    ma: StateSpec<Ts, Ta>,
) -> StateSpec<Ts, Tb> {
    Behavior {
        pre: |s: Ts|
            mf.accepts(s) && forall|f: (SharedFn<Ta, Tb>, Ts)| #[trigger]
                mf.yields(s, f) ==> ma.accepts(f.1) && forall|p: (Ta, Ts)| #[trigger]
                    ma.yields(f.1, p) ==> f.0@.accepts(p.0),
        post: |s: Ts, r: (Tb, Ts)|
            exists|f: (SharedFn<Ta, Tb>, Ts), p: (Ta, Ts)|
                #[trigger] mf.yields(s, f) && #[trigger] ma.yields(f.1, p) && f.0@.yields(p.0, r.0)
                    && r.1 == p.1,
    }
}

#[verifier::reject_recursive_types(Ts)]
#[verifier::reject_recursive_types(Ta)]
#[verifier::reject_recursive_types(Tb)]
struct ApplyState<Ts, Ta, Tb> {
    mf: StateMonad<Ts, SharedFn<Ta, Tb>>,
    ma: StateMonad<Ts, Ta>,
}

impl<Ts, Ta, Tb> Callable<Ts, (Tb, Ts)> for ApplyState<Ts, Ta, Tb> {
    closed spec fn pre(&self, s: Ts) -> bool {
        state_apply_spec(self.mf@, self.ma@).accepts(s)
    }

    closed spec fn post(&self, s: Ts, r: (Tb, Ts)) -> bool {
        state_apply_spec(self.mf@, self.ma@).yields(s, r)
    }

    fn call(&self, s: Ts) -> (r: (Tb, Ts)) {
        let f_s: (SharedFn<Ta, Tb>, Ts) = self.mf.run_state.call(s);
        let a_s: (Ta, Ts) = self.ma.run_state.call(f_s.1);
        (f_s.0.call(a_s.0), a_s.1)
    }
}

/// The computation that runs `mf`, then `ma`, and applies the function to
/// the value.
pub fn state_apply<Ts: 'static, Ta: 'static, Tb: 'static>(
    mf: StateMonad<Ts, SharedFn<Ta, Tb>>,
    ma: StateMonad<Ts, Ta>,
) -> (m: StateMonad<Ts, Tb>)
    ensures
        m@ == state_apply_spec(mf@, ma@),
{
    StateMonad { run_state: SharedFn { f: Rc::new(Box::new(ApplyState { mf, ma })) } }
}

/// The model of a Kleisli arrow: for each argument, the models of the
/// States it may return.
pub type StateKleisliSpec<Ts, Ta, Tb> = Behavior<Ta, StateSpec<Ts, Tb>>;

/// A function from a value to a State.
#[verifier::reject_recursive_types(Ts)]
#[verifier::reject_recursive_types(Ta)]
#[verifier::reject_recursive_types(Tb)]
pub struct StateKleisli<Ts, Ta, Tb> {
    pub kleisli: SharedFn<Ta, StateMonad<Ts, Tb>>,
}

impl<Ts, Ta, Tb> View for StateKleisli<Ts, Ta, Tb> {
    type V = StateKleisliSpec<Ts, Ta, Tb>;

    open spec fn view(&self) -> StateKleisliSpec<Ts, Ta, Tb> {
        Behavior {
            pre: |a: Ta| self.kleisli@.accepts(a),
            post: |a: Ta, mb: StateSpec<Ts, Tb>|
                exists|m: StateMonad<Ts, Tb>| #[trigger] self.kleisli@.yields(a, m) && m@ == mb,
        }
    }
}

impl<Ts, Ta, Tb> Clone for StateKleisli<Ts, Ta, Tb> {
    fn clone(&self) -> (r: Self)
        ensures
            r == *self,
    {
        StateKleisli { kleisli: self.kleisli.clone() }
    }
}

/// The model of the computation that calls the arrow `k_ab` on `a` and runs
/// the State that comes back.
pub open spec fn state_arrow_at_spec<Ts, Ta, Tb>(
    k_ab: StateKleisliSpec<Ts, Ta, Tb>,
    a: Ta,
) -> StateSpec<Ts, Tb> {
    Behavior {
        pre: |s: Ts|
            k_ab.accepts(a) && forall|mb: StateSpec<Ts, Tb>| #[trigger]
                k_ab.yields(a, mb) ==> mb.accepts(s),
        post: |s: Ts, r: (Tb, Ts)|
            exists|mb: StateSpec<Ts, Tb>| #[trigger] k_ab.yields(a, mb) && mb.yields(s, r),
    }
}

/// The model of `state_bind(ma, k_ab)`: `ma` runs on the state that came in,
/// and the State that `k_ab` returns on its value runs on the state that `ma`
/// returned.
pub open spec fn state_bind_spec<Ts, Ta, Tb>(
    ma: StateSpec<Ts, Ta>,
    k_ab: StateKleisliSpec<Ts, Ta, Tb>,
) -> StateSpec<Ts, Tb> {
    Behavior {
        pre: |s: Ts|
            ma.accepts(s) && forall|p: (Ta, Ts)| #[trigger]
                ma.yields(s, p) ==> state_arrow_at_spec(k_ab, p.0).accepts(p.1),
        post: |s: Ts, r: (Tb, Ts)|
            exists|p: (Ta, Ts)| #[trigger]
                ma.yields(s, p) && state_arrow_at_spec(k_ab, p.0).yields(p.1, r),
    }
}

#[verifier::reject_recursive_types(Ts)]
#[verifier::reject_recursive_types(Ta)]
#[verifier::reject_recursive_types(Tb)]
struct BindState<Ts, Ta, Tb> {
    ma: StateMonad<Ts, Ta>,
    k_ab: StateKleisli<Ts, Ta, Tb>,
}

impl<Ts, Ta, Tb> Callable<Ts, (Tb, Ts)> for BindState<Ts, Ta, Tb> {
    closed spec fn pre(&self, s: Ts) -> bool {
        state_bind_spec(self.ma@, self.k_ab@).accepts(s)
    }

    closed spec fn post(&self, s: Ts, r: (Tb, Ts)) -> bool {
        state_bind_spec(self.ma@, self.k_ab@).yields(s, r)
    }

    fn call(&self, s: Ts) -> (r: (Tb, Ts)) {
        let a_s: (Ta, Ts) = self.ma.run_state.call(s);
        let mb: StateMonad<Ts, Tb> = self.k_ab.kleisli.call(a_s.0);
        assert(self.k_ab@.yields(a_s.0, mb@));
        mb.run_state.call(a_s.1)
    }
}

/// The computation that runs `ma`, calls `k_ab` on its value, and runs the
/// State that comes back on the state that `ma` returned.
pub fn state_bind<Ts: 'static, Ta: 'static, Tb: 'static>(
    ma: StateMonad<Ts, Ta>,
    k_ab: StateKleisli<Ts, Ta, Tb>,
) -> (m: StateMonad<Ts, Tb>)
    ensures
        m@ == state_bind_spec(ma@, k_ab@),
{
    StateMonad { run_state: SharedFn { f: Rc::new(Box::new(BindState { ma, k_ab })) } }
}

/// The model of the arrow that returns the State `mb` whatever its
/// argument.
pub open spec fn state_constant_arrow_spec<Ts, Ta, Tb>(mb: StateSpec<Ts, Tb>) -> StateKleisliSpec<
    Ts,
    Ta,
    Tb,
> {
    Behavior { pre: |a: Ta| true, post: |a: Ta, m: StateSpec<Ts, Tb>| m == mb }
}

/// The computation that runs `ma`, discards its value, and runs `mb` on the
/// state that `ma` returned: a step of a sequence that binds no name.
pub fn state_then<Ts: 'static, Ta: 'static, Tb: 'static>(
    ma: StateMonad<Ts, Ta>,
    mb: StateMonad<Ts, Tb>,
) -> (m: StateMonad<Ts, Tb>)
    ensures
        m@ == state_bind_spec(ma@, state_constant_arrow_spec::<Ts, Ta, Tb>(mb@)),
{
    let k_ab = StateKleisli { kleisli: SharedFn::constant(mb) };
    proof {
        let constant = state_constant_arrow_spec::<Ts, Ta, Tb>(mb@);
        assert forall|a: Ta, m: StateSpec<Ts, Tb>| #[trigger]
            (k_ab@.post)(a, m) == (constant.post)(a, m) by {
            assert(k_ab.kleisli@.yields(a, mb));
        }
        assert(k_ab@ =~~= constant);
    }
    state_bind(ma, k_ab)
}

/// The models of the arrows of `ks`.
pub open spec fn state_arrow_views<Ts, Ta>(ks: Seq<StateKleisli<Ts, Ta, Ta>>) -> Seq<
    StateKleisliSpec<Ts, Ta, Ta>,
> {
    ks.map_values(|k: StateKleisli<Ts, Ta, Ta>| k@)
}

/// The model of `state_binds(m, ks)`: `m` bound to each arrow of `ks` in
/// turn, the first one first.
pub open spec fn state_binds_spec<Ts, Ta>(
    m: StateSpec<Ts, Ta>,
    ks: Seq<StateKleisliSpec<Ts, Ta, Ta>>,
) -> StateSpec<Ts, Ta>
    decreases ks.len(),
{
    if ks.len() == 0 {
        m
    } else {
        state_binds_spec(state_bind_spec(m, ks[0]), ks.drop_first())
    }
}

/// Binds `m` to each arrow of `ks` in turn: a chain of binds, written from
/// left to right. The arrows of one chain keep the type of the value; where
/// it changes from step to step, the binds are nested by hand.
pub fn state_binds<Ts: 'static, Ta: 'static>(
    m: StateMonad<Ts, Ta>,
    ks: &Vec<StateKleisli<Ts, Ta, Ta>>,
) -> (r: StateMonad<Ts, Ta>)
    ensures
        r@ == state_binds_spec(m@, state_arrow_views(ks@)),
{
    let ghost all = state_arrow_views(ks@);
    let ghost start = m@;
    let mut acc = m;
    let mut i: usize = 0;
    assert(all.skip(0) =~= all);
    while i < ks.len()
        invariant
            i <= ks@.len(),
            all == state_arrow_views(ks@),
            state_binds_spec(acc@, all.skip(i as int)) == state_binds_spec(start, all),
        decreases ks@.len() - i,
    {
        assert(all.skip(i as int).drop_first() =~= all.skip(i + 1));
        acc = state_bind(acc, ks[i].clone());
        i += 1;
    }
    acc
}

/// The model of `get()`: a clone of the state as the value, and the state as
/// it came in.
pub open spec fn get_spec<Ts: Clone>() -> StateSpec<Ts, Ts> {
    Behavior { pre: |s: Ts| true, post: |s: Ts, r: (Ts, Ts)| cloned(s, r.0) && r.1 == s }
}

struct GetState;

impl<Ts: Clone> Callable<Ts, (Ts, Ts)> for GetState {
    closed spec fn pre(&self, s: Ts) -> bool {
        true
    }

    closed spec fn post(&self, s: Ts, r: (Ts, Ts)) -> bool {
        cloned(s, r.0) && r.1 == s
    }

    fn call(&self, s: Ts) -> (r: (Ts, Ts)) {
        let s0: Ts = s.clone();
        (s0, s)
    }
}

/// The computation that returns the state as its value and leaves it
/// unchanged.
pub fn get<Ts: Clone>() -> (m: StateMonad<Ts, Ts>)
    ensures
        m@ == get_spec::<Ts>(),
{
    StateMonad { run_state: SharedFn { f: Rc::new(Box::new(GetState)) } }
}

/// The model of `put(s)`: whatever the state was, a clone of `s` follows.
pub open spec fn put_spec<Ts: Clone>(s: Ts) -> StateSpec<Ts, ()> {
    Behavior { pre: |old_s: Ts| true, post: |old_s: Ts, r: ((), Ts)| cloned(s, r.1) }
}

struct PutState<Ts> {
    s: Ts,
}

impl<Ts: Clone> Callable<Ts, ((), Ts)> for PutState<Ts> {
    closed spec fn pre(&self, old_s: Ts) -> bool {
        true
    }

    closed spec fn post(&self, old_s: Ts, r: ((), Ts)) -> bool {
        cloned(self.s, r.1)
    }

    fn call(&self, old_s: Ts) -> (r: ((), Ts)) {
        ((), self.s.clone())
    }
}

/// The computation that replaces the state by `s`.
pub fn put<Ts: 'static + Clone>(s: Ts) -> (m: StateMonad<Ts, ()>)
    ensures
        m@ == put_spec::<Ts>(s),
{
    StateMonad { run_state: SharedFn { f: Rc::new(Box::new(PutState { s })) } }
}

} // verus!
