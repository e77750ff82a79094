//! Reader computations: functions of an environment that is read and never
//! changed.
//!
//! The model of a Reader is the [`Behavior`] of the function it wraps: the
//! environments it accepts and, for each of them, the values it may return.

use super::function::{and_then_spec, identity_spec, Behavior, Callable, SharedFn};
use std::rc::Rc;
use vstd::prelude::*;

verus! {

/// The model of a Reader.
pub type ReaderSpec<Tcfg, Ta> = Behavior<Tcfg, Ta>;

/// A computation that reads an environment of type `Tcfg` and returns a
/// `Ta`.
#[verifier::reject_recursive_types(Tcfg)]
#[verifier::reject_recursive_types(Ta)]
pub struct ReaderMonad<Tcfg, Ta> {
    pub run_reader: SharedFn<Tcfg, Ta>,
}

impl<Tcfg, Ta> View for ReaderMonad<Tcfg, Ta> {
    type V = ReaderSpec<Tcfg, Ta>;

    open spec fn view(&self) -> ReaderSpec<Tcfg, Ta> {
        self.run_reader@
    }
}

impl<Tcfg, Ta> Clone for ReaderMonad<Tcfg, Ta> {
    fn clone(&self) -> (r: Self)
        ensures
            r == *self,
    {
        ReaderMonad { run_reader: self.run_reader.clone() }
    }
}

/// The model of `reader_unit(a)`: whatever the environment, a clone of `a`.
pub open spec fn reader_unit_spec<Tcfg, Ta: Clone>(a: Ta) -> ReaderSpec<Tcfg, Ta> {
    Behavior { pre: |cfg: Tcfg| true, post: |cfg: Tcfg, x: Ta| cloned(a, x) }
}

struct UnitReader<Ta> {
    a: Ta,
}

impl<Tcfg, Ta: Clone> Callable<Tcfg, Ta> for UnitReader<Ta> {
    closed spec fn pre(&self, cfg: Tcfg) -> bool {
        true
    }

    closed spec fn post(&self, cfg: Tcfg, x: Ta) -> bool {
        cloned(self.a, x)
    }

    fn call(&self, cfg: Tcfg) -> (x: Ta) {
        self.a.clone()
    }
}

/// The computation that ignores its environment and returns `a`.
pub fn reader_unit<Tcfg, Ta: 'static + Clone>(a: Ta) -> (m: ReaderMonad<Tcfg, Ta>)
    ensures
        m@ == reader_unit_spec::<Tcfg, Ta>(a),
{
    ReaderMonad { run_reader: SharedFn { f: Rc::new(Box::new(UnitReader { a })) } }
}

/// The model of `reader_fmap(f_ab, ma)`: `ma`, then `f_ab` on what it
/// returned.
pub open spec fn reader_fmap_spec<Tcfg, Ta, Tb>(
    f_ab: Behavior<Ta, Tb>,
    ma: ReaderSpec<Tcfg, Ta>,
) -> ReaderSpec<Tcfg, Tb> {
    and_then_spec(ma, f_ab)
}

/// The computation that runs `ma` and applies `f_ab` to what it returns.
pub fn reader_fmap<Tcfg: 'static, Ta: 'static, Tb: 'static>(
    f_ab: SharedFn<Ta, Tb>,
    ma: ReaderMonad<Tcfg, Ta>,
) -> (m: ReaderMonad<Tcfg, Tb>)
    ensures
        m@ == reader_fmap_spec(f_ab@, ma@),
{
    ReaderMonad { run_reader: ma.run_reader.and_then(f_ab) }
}

/// The model of `reader_apply(mf, ma)`: `mf` and `ma` run on the same
/// environment, `mf` first, and the function that `mf` returned is called on
/// the value that `ma` returned.
pub open spec fn reader_apply_spec<Tcfg, Ta, Tb>(
    mf: ReaderSpec<Tcfg, SharedFn<Ta, Tb>>,
    ma: ReaderSpec<Tcfg, Ta>,
) -> ReaderSpec<Tcfg, Tb> {
    Behavior {
        pre: |cfg: Tcfg|
            mf.accepts(cfg) && forall|f: SharedFn<Ta, Tb>| #[trigger]
                mf.yields(cfg, f) ==> ma.accepts(cfg) && forall|a: Ta| #[trigger]
                    ma.yields(cfg, a) ==> f@.accepts(a),
        post: |cfg: Tcfg, b: Tb|
            exists|f: SharedFn<Ta, Tb>, a: Ta|
                #[trigger] mf.yields(cfg, f) && #[trigger] ma.yields(cfg, a) && f@.yields(a, b),
    }
}

#[verifier::reject_recursive_types(Tcfg)]
#[verifier::reject_recursive_types(Ta)]
#[verifier::reject_recursive_types(Tb)]
struct ApplyReader<Tcfg, Ta, Tb> {
    mf: ReaderMonad<Tcfg, SharedFn<Ta, Tb>>,
    ma: ReaderMonad<Tcfg, Ta>,
}

impl<Tcfg: Copy, Ta, Tb> Callable<Tcfg, Tb> for ApplyReader<Tcfg, Ta, Tb> {
    closed spec fn pre(&self, cfg: Tcfg) -> bool {
        reader_apply_spec(self.mf@, self.ma@).accepts(cfg)
    }

    closed spec fn post(&self, cfg: Tcfg, b: Tb) -> bool {
        reader_apply_spec(self.mf@, self.ma@).yields(cfg, b)
    }

    fn call(&self, cfg: Tcfg) -> (b: Tb) {
        let f = self.mf.run_reader.call(cfg);
        let a = self.ma.run_reader.call(cfg);
        f.call(a)
    }
}

/// The computation that runs `mf` and `ma` on the same environment and
/// applies the function to the value.
pub fn reader_apply<Tcfg: 'static + Copy, Ta: 'static, Tb: 'static>(
    mf: ReaderMonad<Tcfg, SharedFn<Ta, Tb>>,
    ma: ReaderMonad<Tcfg, Ta>,
) -> (m: ReaderMonad<Tcfg, Tb>)
    ensures
        m@ == reader_apply_spec(mf@, ma@),
{
    ReaderMonad { run_reader: SharedFn { f: Rc::new(Box::new(ApplyReader { mf, ma })) } }
}

/// The model of a Kleisli arrow: for each argument, the models of the
/// Readers it may return.
pub type ReaderKleisliSpec<Tcfg, Ta, Tb> = Behavior<Ta, ReaderSpec<Tcfg, Tb>>;

/// A function from a value to a Reader.
#[verifier::reject_recursive_types(Tcfg)]
#[verifier::reject_recursive_types(Ta)]
#[verifier::reject_recursive_types(Tb)]
pub struct ReaderKleisli<Tcfg, Ta, Tb> {
    pub kleisli: SharedFn<Ta, ReaderMonad<Tcfg, Tb>>,
}

impl<Tcfg, Ta, Tb> View for ReaderKleisli<Tcfg, Ta, Tb> {
    type V = ReaderKleisliSpec<Tcfg, Ta, Tb>;

    open spec fn view(&self) -> ReaderKleisliSpec<Tcfg, Ta, Tb> {
        Behavior {
            pre: |a: Ta| self.kleisli@.accepts(a),
            post: |a: Ta, mb: ReaderSpec<Tcfg, Tb>|
                exists|m: ReaderMonad<Tcfg, Tb>| #[trigger] self.kleisli@.yields(a, m) && m@ == mb,
        }
    }
}

impl<Tcfg, Ta, Tb> Clone for ReaderKleisli<Tcfg, Ta, Tb> {
    fn clone(&self) -> (r: Self)
        ensures
            r == *self,
    {
        ReaderKleisli { kleisli: self.kleisli.clone() }
    }
}

/// The model of the computation that calls the arrow `k_ab` on `a` and runs
/// the Reader that comes back.
pub open spec fn reader_arrow_at_spec<Tcfg, Ta, Tb>(
    k_ab: ReaderKleisliSpec<Tcfg, Ta, Tb>,
    a: Ta,
) -> ReaderSpec<Tcfg, Tb> {
    Behavior {
        pre: |cfg: Tcfg|
            k_ab.accepts(a) && forall|mb: ReaderSpec<Tcfg, Tb>| #[trigger]
                k_ab.yields(a, mb) ==> mb.accepts(cfg),
        post: |cfg: Tcfg, b: Tb|
            exists|mb: ReaderSpec<Tcfg, Tb>| #[trigger] k_ab.yields(a, mb) && mb.yields(cfg, b),
    }
}

/// The model of `reader_bind(ma, k_ab)`: `ma` runs on a clone of the
/// environment, and the Reader that `k_ab` returns on its value runs on the
/// environment itself.
pub open spec fn reader_bind_spec<Tcfg: Clone, Ta, Tb>(
    ma: ReaderSpec<Tcfg, Ta>,
    k_ab: ReaderKleisliSpec<Tcfg, Ta, Tb>,
) -> ReaderSpec<Tcfg, Tb> {
    Behavior {
        pre: |cfg: Tcfg|
            forall|c: Tcfg| #[trigger]
                cloned(cfg, c) ==> ma.accepts(c) && forall|a: Ta| #[trigger]
                    ma.yields(c, a) ==> reader_arrow_at_spec(k_ab, a).accepts(cfg),
        post: |cfg: Tcfg, b: Tb|
            exists|c: Tcfg, a: Ta|
                cloned(cfg, c) && #[trigger] ma.yields(c, a) && reader_arrow_at_spec(
                    k_ab,
                    a,
                ).yields(cfg, b),
    }
}

#[verifier::reject_recursive_types(Tcfg)]
#[verifier::reject_recursive_types(Ta)]
#[verifier::reject_recursive_types(Tb)]
struct BindReader<Tcfg, Ta, Tb> {
    ma: ReaderMonad<Tcfg, Ta>,
    k_ab: ReaderKleisli<Tcfg, Ta, Tb>,
}

impl<Tcfg: Clone, Ta, Tb> Callable<Tcfg, Tb> for BindReader<Tcfg, Ta, Tb> {
    closed spec fn pre(&self, cfg: Tcfg) -> bool {
        reader_bind_spec(self.ma@, self.k_ab@).accepts(cfg)
    }

    closed spec fn post(&self, cfg: Tcfg, b: Tb) -> bool {
        reader_bind_spec(self.ma@, self.k_ab@).yields(cfg, b)
    }

    fn call(&self, cfg: Tcfg) -> (b: Tb) {
        let c = cfg.clone();
        assert(cloned(cfg, c));
        let a = self.ma.run_reader.call(c);
        let mb = self.k_ab.kleisli.call(a);
        assert(self.k_ab@.yields(a, mb@));
        mb.run_reader.call(cfg)
    }
}

/// The computation that runs `ma`, calls `k_ab` on its value, and runs the
/// Reader that comes back on the same environment.
pub fn reader_bind<Tcfg: 'static + Clone, Ta: 'static, Tb: 'static>(
    ma: ReaderMonad<Tcfg, Ta>,
    k_ab: ReaderKleisli<Tcfg, Ta, Tb>,
) -> (m: ReaderMonad<Tcfg, Tb>)
    ensures
        m@ == reader_bind_spec(ma@, k_ab@),
{
    ReaderMonad { run_reader: SharedFn { f: Rc::new(Box::new(BindReader { ma, k_ab })) } }
}

/// The model of the arrow that returns the Reader `mb` whatever its
/// argument.
pub open spec fn reader_constant_arrow_spec<Tcfg, Ta, Tb>(
    mb: ReaderSpec<Tcfg, Tb>,
) -> ReaderKleisliSpec<Tcfg, Ta, Tb> {
    Behavior { pre: |a: Ta| true, post: |a: Ta, m: ReaderSpec<Tcfg, Tb>| m == mb }
}

/// The computation that runs `ma`, discards its value, and runs `mb` on the
/// same environment: a step of a sequence that binds no name.
pub fn reader_then<Tcfg: 'static + Clone, Ta: 'static, Tb: 'static>(
    ma: ReaderMonad<Tcfg, Ta>,
    mb: ReaderMonad<Tcfg, Tb>,
) -> (m: ReaderMonad<Tcfg, Tb>)
    ensures
        m@ == reader_bind_spec(ma@, reader_constant_arrow_spec::<Tcfg, Ta, Tb>(mb@)),
{
    let k_ab = ReaderKleisli { kleisli: SharedFn::constant(mb) };
    proof {
        let constant = reader_constant_arrow_spec::<Tcfg, Ta, Tb>(mb@);
        assert forall|a: Ta, m: ReaderSpec<Tcfg, Tb>| #[trigger]
            (k_ab@.post)(a, m) == (constant.post)(a, m) by {
            assert(k_ab.kleisli@.yields(a, mb));
        }
        assert(k_ab@ =~~= constant);
    }
    reader_bind(ma, k_ab)
}

/// The models of the arrows of `ks`.
pub open spec fn reader_arrow_views<Tcfg, Ta>(ks: Seq<ReaderKleisli<Tcfg, Ta, Ta>>) -> Seq<
    ReaderKleisliSpec<Tcfg, Ta, Ta>,
> {
    ks.map_values(|k: ReaderKleisli<Tcfg, Ta, Ta>| k@)
}

/// The model of `reader_binds(m, ks)`: `m` bound to each arrow of `ks` in
/// turn, the first one first.
pub open spec fn reader_binds_spec<Tcfg: Clone, Ta>(
    m: ReaderSpec<Tcfg, Ta>,
    ks: Seq<ReaderKleisliSpec<Tcfg, Ta, Ta>>,
) -> ReaderSpec<Tcfg, Ta>
    decreases ks.len(),
{
    if ks.len() == 0 {
        m
    } else {
        reader_binds_spec(reader_bind_spec(m, ks[0]), ks.drop_first())
    }
}

/// Binds `m` to each arrow of `ks` in turn: a chain of binds, written from
/// left to right. The arrows of one chain keep the type of the value; where
/// it changes from step to step, the binds are nested by hand.
pub fn reader_binds<Tcfg: 'static + Clone, Ta: 'static>(
    m: ReaderMonad<Tcfg, Ta>,
    ks: &Vec<ReaderKleisli<Tcfg, Ta, Ta>>,
) -> (r: ReaderMonad<Tcfg, Ta>)
    ensures
        r@ == reader_binds_spec(m@, reader_arrow_views(ks@)),
{
    let ghost all = reader_arrow_views(ks@);
    let ghost start = m@;
    let mut acc = m;
    let mut i: usize = 0;
    assert(all.skip(0) =~= all);
    while i < ks.len()
        invariant
            i <= ks@.len(),
            all == reader_arrow_views(ks@),
            reader_binds_spec(acc@, all.skip(i as int)) == reader_binds_spec(start, all),
        decreases ks@.len() - i,
    {
        assert(all.skip(i as int).drop_first() =~= all.skip(i + 1));
        acc = reader_bind(acc, ks[i].clone());
        i += 1;
    }
    acc
}

/// The computation that returns its environment.
pub fn load<Tcfg>() -> (m: ReaderMonad<Tcfg, Tcfg>)
    ensures
        m@ == identity_spec::<Tcfg>(),
{
    ReaderMonad { run_reader: SharedFn::identity() }
}

} // verus!
