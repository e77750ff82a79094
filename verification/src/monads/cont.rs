//! Continuation computations.
//!
//! A computation that produces an `A` on the way to a final answer `R` takes
//! the consumer of that `A` and returns the answer. Its model is a
//! [`Behavior`] over the behavior of the consumer: which consumers it accepts
//! and, for each of them, the answers it may return.

use super::function::{and_then_spec, identity_spec, Behavior, Callable, SharedFn};
use std::rc::Rc;
use vstd::prelude::*;

verus! {

/// The model of a continuation computation.
pub type ContSpec<Tr, Ta> = Behavior<Behavior<Ta, Tr>, Tr>;

/// What a [`ContMonad`] holds: something that can be run with a consumer.
/// Which consumers it accepts and what it returns depends on the behavior of
/// the consumer alone.
trait Runnable<Tr, Ta> {
    spec fn pre(&self, k: Behavior<Ta, Tr>) -> bool;

    spec fn post(&self, k: Behavior<Ta, Tr>, r: Tr) -> bool;

    fn run(&self, k: SharedFn<Ta, Tr>) -> (r: Tr)
        requires
            self.pre(k@),
        ensures
            self.post(k@, r),
    ;
}

/// A computation in continuation-passing style.
#[verifier::reject_recursive_types(Tr)]
#[verifier::reject_recursive_types(Ta)]
pub struct ContMonad<Tr, Ta> {
    run_cont: Rc<Box<dyn Runnable<Tr, Ta>>>,
}

impl<Tr, Ta> View for ContMonad<Tr, Ta> {
    type V = ContSpec<Tr, Ta>;

    closed spec fn view(&self) -> ContSpec<Tr, Ta> {
        Behavior {
            pre: |k: Behavior<Ta, Tr>| self.run_cont.pre(k),
            post: |k: Behavior<Ta, Tr>, r: Tr| self.run_cont.post(k, r),
        }
    }
}

impl<Tr, Ta> Clone for ContMonad<Tr, Ta> {
    fn clone(&self) -> (r: Self)
        ensures
            r == *self,
    {
        ContMonad { run_cont: self.run_cont.clone() }
    }
}

impl<Tr, Ta> ContMonad<Tr, Ta> {
    /// Runs the computation with the consumer `k`.
    fn run(&self, k: SharedFn<Ta, Tr>) -> (r: Tr)
        requires
            self@.accepts(k@),
        ensures
            self@.yields(k@, r),
    {
        self.run_cont.run(k)
    }
}

/// The model of `cont_unit(a)`: the consumer is called on a clone of `a`.
pub open spec fn cont_unit_spec<Tr, Ta: Clone>(a: Ta) -> ContSpec<Tr, Ta> {
    Behavior {
        pre: |k: Behavior<Ta, Tr>| forall|x: Ta| #[trigger] cloned(a, x) ==> k.accepts(x),
        post: |k: Behavior<Ta, Tr>, r: Tr| exists|x: Ta| #[trigger] cloned(a, x) && k.yields(x, r),
    }
}

#[verifier::reject_recursive_types(Ta)]
struct UnitCont<Ta> {
    a: Ta,
}

impl<Tr, Ta: Clone> Runnable<Tr, Ta> for UnitCont<Ta> {
    closed spec fn pre(&self, k: Behavior<Ta, Tr>) -> bool {
        cont_unit_spec::<Tr, Ta>(self.a).accepts(k)
    }

    closed spec fn post(&self, k: Behavior<Ta, Tr>, r: Tr) -> bool {
        cont_unit_spec::<Tr, Ta>(self.a).yields(k, r)
    }

    fn run(&self, k: SharedFn<Ta, Tr>) -> (r: Tr) {
        let x = self.a.clone();
        assert(cloned(self.a, x));
        k.call(x)
    }
}

/// The computation that hands `a` to its consumer.
pub fn cont_unit<Tr, Ta: 'static + Clone>(a: Ta) -> (m: ContMonad<Tr, Ta>)
    ensures
        m@ == cont_unit_spec::<Tr, Ta>(a),
{
    ContMonad { run_cont: Rc::new(Box::new(UnitCont { a })) }
}

/// Runs `ma` with the identity consumer: the way out of continuation-passing
/// style.
pub fn cont_eval<Tr>(ma: ContMonad<Tr, Tr>) -> (r: Tr)
    requires
        ma@.accepts(identity_spec::<Tr>()),
    ensures
        ma@.yields(identity_spec::<Tr>(), r),
{
    ma.run(SharedFn::identity())
}

/// The model of `cont_fmap(f_ab, ma)`: `ma` runs with the consumer that
/// calls `f_ab` and hands the result on.
pub open spec fn cont_fmap_spec<Tr, Ta, Tb>(
    f_ab: Behavior<Ta, Tb>,
    ma: ContSpec<Tr, Ta>,
) -> ContSpec<Tr, Tb> {
    Behavior {
        pre: |k: Behavior<Tb, Tr>| ma.accepts(and_then_spec(f_ab, k)),
        post: |k: Behavior<Tb, Tr>, r: Tr| ma.yields(and_then_spec(f_ab, k), r),
    }
}

#[verifier::reject_recursive_types(Tr)]
#[verifier::reject_recursive_types(Ta)]
#[verifier::reject_recursive_types(Tb)]
struct FmapCont<Tr, Ta, Tb> {
    f_ab: SharedFn<Ta, Tb>,
    ma: ContMonad<Tr, Ta>,
}

impl<Tr: 'static, Ta: 'static, Tb: 'static> Runnable<Tr, Tb> for FmapCont<Tr, Ta, Tb> {
    closed spec fn pre(&self, k: Behavior<Tb, Tr>) -> bool {
        cont_fmap_spec(self.f_ab@, self.ma@).accepts(k)
    }

    closed spec fn post(&self, k: Behavior<Tb, Tr>, r: Tr) -> bool {
        cont_fmap_spec(self.f_ab@, self.ma@).yields(k, r)
    }

    fn run(&self, f_br: SharedFn<Tb, Tr>) -> (r: Tr) {
        let f_ar = self.f_ab.clone().and_then(f_br);
        self.ma.run(f_ar)
    }
}

/// Applies `f_ab` to what `ma` hands to its consumer.
pub fn cont_fmap<Tr: 'static, Ta: 'static, Tb: 'static>(
    f_ab: SharedFn<Ta, Tb>,
    ma: ContMonad<Tr, Ta>,
) -> (m: ContMonad<Tr, Tb>)
    ensures
        m@ == cont_fmap_spec(f_ab@, ma@),
{
    ContMonad { run_cont: Rc::new(Box::new(FmapCont { f_ab, ma })) }
}

/// The behavior of the consumer that `cont_apply` hands to the computation of
/// the function: on a function `f`, it runs `ma` with the consumer that calls
/// `f` and hands the result to `k`.
pub open spec fn cont_apply_consumer_spec<Tr, Ta, Tb>(
    ma: ContSpec<Tr, Ta>,
    k: Behavior<Tb, Tr>,
) -> Behavior<SharedFn<Ta, Tb>, Tr> {
    Behavior {
        pre: |f: SharedFn<Ta, Tb>| ma.accepts(and_then_spec(f@, k)),
        post: |f: SharedFn<Ta, Tb>, r: Tr| ma.yields(and_then_spec(f@, k), r),
    }
}

/// The model of `cont_apply(mf, ma)`: `mf` runs first, and its consumer
/// runs `ma`.
pub open spec fn cont_apply_spec<Tr, Ta, Tb>(
    mf: ContSpec<Tr, SharedFn<Ta, Tb>>,
    ma: ContSpec<Tr, Ta>,
) -> ContSpec<Tr, Tb> {
    Behavior {
        pre: |k: Behavior<Tb, Tr>| mf.accepts(cont_apply_consumer_spec(ma, k)),
        post: |k: Behavior<Tb, Tr>, r: Tr| mf.yields(cont_apply_consumer_spec(ma, k), r),
    }
}

#[verifier::reject_recursive_types(Tr)]
#[verifier::reject_recursive_types(Ta)]
#[verifier::reject_recursive_types(Tb)]
struct ApplyConsumer<Tr, Ta, Tb> {
    ma: ContMonad<Tr, Ta>,
    f_br: SharedFn<Tb, Tr>,
}

impl<Tr: 'static, Ta: 'static, Tb: 'static> Callable<SharedFn<Ta, Tb>, Tr> for ApplyConsumer<
    Tr,
    Ta,
    Tb,
> {
    closed spec fn pre(&self, f_ab: SharedFn<Ta, Tb>) -> bool {
        cont_apply_consumer_spec(self.ma@, self.f_br@).accepts(f_ab)
    }

    closed spec fn post(&self, f_ab: SharedFn<Ta, Tb>, r: Tr) -> bool {
        cont_apply_consumer_spec(self.ma@, self.f_br@).yields(f_ab, r)
    }

    fn call(&self, f_ab: SharedFn<Ta, Tb>) -> (r: Tr) {
        let f_ar = f_ab.and_then(self.f_br.clone());
        self.ma.run(f_ar)
    }
}

#[verifier::reject_recursive_types(Tr)]
#[verifier::reject_recursive_types(Ta)]
#[verifier::reject_recursive_types(Tb)]
struct ApplyCont<Tr, Ta, Tb> {
    mf: ContMonad<Tr, SharedFn<Ta, Tb>>,
    ma: ContMonad<Tr, Ta>,
}

impl<Tr: 'static, Ta: 'static, Tb: 'static> Runnable<Tr, Tb> for ApplyCont<Tr, Ta, Tb> {
    closed spec fn pre(&self, k: Behavior<Tb, Tr>) -> bool {
        cont_apply_spec(self.mf@, self.ma@).accepts(k)
    }

    closed spec fn post(&self, k: Behavior<Tb, Tr>, r: Tr) -> bool {
        cont_apply_spec(self.mf@, self.ma@).yields(k, r)
    }

    fn run(&self, f_br: SharedFn<Tb, Tr>) -> (r: Tr) {
        let f_abr = SharedFn {
            f: Rc::new(Box::new(ApplyConsumer { ma: self.ma.clone(), f_br })),
        };
        assert(f_abr@ =~~= cont_apply_consumer_spec(self.ma@, f_br@));
        self.mf.run(f_abr)
    }
}

/// Applies the function that `mf` hands to its consumer to the value that
/// `ma` hands to its consumer. `mf` runs before `ma`.
pub fn cont_apply<Tr: 'static, Ta: 'static, Tb: 'static>(
    mf: ContMonad<Tr, SharedFn<Ta, Tb>>,
    ma: ContMonad<Tr, Ta>,
) -> (m: ContMonad<Tr, Tb>)
    ensures
        m@ == cont_apply_spec(mf@, ma@),
{
    ContMonad { run_cont: Rc::new(Box::new(ApplyCont { mf, ma })) }
}

/// The model of a Kleisli arrow: for each argument, the models of the
/// computations it may return.
pub type ContKleisliSpec<Tr, Ta, Tb> = Behavior<Ta, ContSpec<Tr, Tb>>;

/// A function from a value to a continuation computation.
#[verifier::reject_recursive_types(Tr)]
#[verifier::reject_recursive_types(Ta)]
#[verifier::reject_recursive_types(Tb)]
pub struct ContKleisli<Tr, Ta, Tb> {
    pub kleisli: SharedFn<Ta, ContMonad<Tr, Tb>>,
}

impl<Tr, Ta, Tb> View for ContKleisli<Tr, Ta, Tb> {
    type V = ContKleisliSpec<Tr, Ta, Tb>;

    open spec fn view(&self) -> ContKleisliSpec<Tr, Ta, Tb> {
        Behavior {
            pre: |a: Ta| self.kleisli@.accepts(a),
            post: |a: Ta, mb: ContSpec<Tr, Tb>|
                exists|m: ContMonad<Tr, Tb>| #[trigger] self.kleisli@.yields(a, m) && m@ == mb,
        }
    }
}

impl<Tr, Ta, Tb> Clone for ContKleisli<Tr, Ta, Tb> {
    fn clone(&self) -> (r: Self)
        ensures
            r == *self,
    {
        ContKleisli { kleisli: self.kleisli.clone() }
    }
}

/// The behavior of the consumer that `cont_bind` hands to the first
/// computation: on a value `a`, it calls the arrow and runs the computation
/// that comes back with `k`.
pub open spec fn cont_bind_consumer_spec<Tr, Ta, Tb>(
    k_ab: ContKleisliSpec<Tr, Ta, Tb>,
    k: Behavior<Tb, Tr>,
) -> Behavior<Ta, Tr> {
    Behavior {
        pre: |a: Ta|
            k_ab.accepts(a) && forall|mb: ContSpec<Tr, Tb>| #[trigger]
                k_ab.yields(a, mb) ==> mb.accepts(k),
        post: |a: Ta, r: Tr|
            exists|mb: ContSpec<Tr, Tb>| #[trigger] k_ab.yields(a, mb) && mb.yields(k, r),
    }
}

/// The model of `cont_bind(ma, k_ab)`.
pub open spec fn cont_bind_spec<Tr, Ta, Tb>(
    ma: ContSpec<Tr, Ta>,
    k_ab: ContKleisliSpec<Tr, Ta, Tb>,
) -> ContSpec<Tr, Tb> {
    Behavior {
        pre: |k: Behavior<Tb, Tr>| ma.accepts(cont_bind_consumer_spec(k_ab, k)),
        post: |k: Behavior<Tb, Tr>, r: Tr| ma.yields(cont_bind_consumer_spec(k_ab, k), r),
    }
}

#[verifier::reject_recursive_types(Tr)]
#[verifier::reject_recursive_types(Ta)]
#[verifier::reject_recursive_types(Tb)]
struct BindConsumer<Tr, Ta, Tb> {
    k_ab: ContKleisli<Tr, Ta, Tb>,
    f_br: SharedFn<Tb, Tr>,
}

impl<Tr, Ta, Tb> Callable<Ta, Tr> for BindConsumer<Tr, Ta, Tb> {
    closed spec fn pre(&self, a: Ta) -> bool {
        cont_bind_consumer_spec(self.k_ab@, self.f_br@).accepts(a)
    }

    closed spec fn post(&self, a: Ta, r: Tr) -> bool {
        cont_bind_consumer_spec(self.k_ab@, self.f_br@).yields(a, r)
    }

    fn call(&self, a: Ta) -> (r: Tr) {
        let mb = self.k_ab.kleisli.call(a);
        assert(self.k_ab@.yields(a, mb@));
        mb.run(self.f_br.clone())
    }
}

#[verifier::reject_recursive_types(Tr)]
#[verifier::reject_recursive_types(Ta)]
#[verifier::reject_recursive_types(Tb)]
struct BindCont<Tr, Ta, Tb> {
    ma: ContMonad<Tr, Ta>,
    k_ab: ContKleisli<Tr, Ta, Tb>,
}

impl<Tr: 'static, Ta: 'static, Tb: 'static> Runnable<Tr, Tb> for BindCont<Tr, Ta, Tb> {
    closed spec fn pre(&self, k: Behavior<Tb, Tr>) -> bool {
        cont_bind_spec(self.ma@, self.k_ab@).accepts(k)
    }

    closed spec fn post(&self, k: Behavior<Tb, Tr>, r: Tr) -> bool {
        cont_bind_spec(self.ma@, self.k_ab@).yields(k, r)
    }

    fn run(&self, f_br: SharedFn<Tb, Tr>) -> (r: Tr) {
        let f_ar = SharedFn {
            f: Rc::new(Box::new(BindConsumer { k_ab: self.k_ab.clone(), f_br })),
        };
        assert(f_ar@ =~~= cont_bind_consumer_spec(self.k_ab@, f_br@));
        self.ma.run(f_ar)
    }
}

/// Runs `ma`, calls `k_ab` on what it hands to its consumer, and runs the
/// computation that comes back with the consumer of the whole.
pub fn cont_bind<Tr: 'static, Ta: 'static, Tb: 'static>(
    ma: ContMonad<Tr, Ta>,
    k_ab: ContKleisli<Tr, Ta, Tb>,
) -> (m: ContMonad<Tr, Tb>)
    ensures
        m@ == cont_bind_spec(ma@, k_ab@),
{
    ContMonad { run_cont: Rc::new(Box::new(BindCont { ma, k_ab })) }
}

/// The model of the arrow that returns the computation `mb` whatever its
/// argument.
pub open spec fn cont_constant_arrow_spec<Tr, Ta, Tb>(mb: ContSpec<Tr, Tb>) -> ContKleisliSpec<
    Tr,
    Ta,
    Tb,
> {
    Behavior { pre: |a: Ta| true, post: |a: Ta, m: ContSpec<Tr, Tb>| m == mb }
}

/// The computation that runs `ma`, discards what it hands to its consumer,
/// and runs `mb` with the consumer of the whole: a step of a sequence that
/// binds no name.
pub fn cont_then<Tr: 'static, Ta: 'static, Tb: 'static>(
    ma: ContMonad<Tr, Ta>,
    mb: ContMonad<Tr, Tb>,
) -> (m: ContMonad<Tr, Tb>)
    ensures
        m@ == cont_bind_spec(ma@, cont_constant_arrow_spec::<Tr, Ta, Tb>(mb@)),
{
    let k_ab = ContKleisli { kleisli: SharedFn::constant(mb) };
    proof {
        let constant = cont_constant_arrow_spec::<Tr, Ta, Tb>(mb@);
        assert forall|a: Ta, m: ContSpec<Tr, Tb>| #[trigger]
            (k_ab@.post)(a, m) == (constant.post)(a, m) by {
            assert(k_ab.kleisli@.yields(a, mb));
        }
        assert(k_ab@ =~~= constant);
    }
    cont_bind(ma, k_ab)
}

/// The models of the arrows of `ks`.
pub open spec fn cont_arrow_views<Tr, Ta>(ks: Seq<ContKleisli<Tr, Ta, Ta>>) -> Seq<
    ContKleisliSpec<Tr, Ta, Ta>,
> {
    ks.map_values(|k: ContKleisli<Tr, Ta, Ta>| k@)
}

/// The model of `cont_binds(m, ks)`: `m` bound to each arrow of `ks` in
/// turn, the first one first.
pub open spec fn cont_binds_spec<Tr, Ta>(
    m: ContSpec<Tr, Ta>,
    ks: Seq<ContKleisliSpec<Tr, Ta, Ta>>,
) -> ContSpec<Tr, Ta>
    decreases ks.len(),
{
    if ks.len() == 0 {
        m
    } else {
        cont_binds_spec(cont_bind_spec(m, ks[0]), ks.drop_first())
    }
}

/// Binds `m` to each arrow of `ks` in turn: a chain of binds, written from
/// left to right. The arrows of one chain keep the type of the value; where
/// it changes from step to step, the binds are nested by hand.
pub fn cont_binds<Tr: 'static, Ta: 'static>(
    m: ContMonad<Tr, Ta>,
    ks: &Vec<ContKleisli<Tr, Ta, Ta>>,
) -> (r: ContMonad<Tr, Ta>)
    ensures
        r@ == cont_binds_spec(m@, cont_arrow_views(ks@)),
{
    let ghost all = cont_arrow_views(ks@);
    let ghost start = m@;
    let mut acc = m;
    let mut i: usize = 0;
    assert(all.skip(0) =~= all);
    while i < ks.len()
        invariant
            i <= ks@.len(),
            all == cont_arrow_views(ks@),
            cont_binds_spec(acc@, all.skip(i as int)) == cont_binds_spec(start, all),
        decreases ks@.len() - i,
    {
        assert(all.skip(i as int).drop_first() =~= all.skip(i + 1));
        acc = cont_bind(acc, ks[i].clone());
        i += 1;
    }
    acc
}

} // verus!
