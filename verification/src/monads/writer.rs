//! Writer computations: a value together with the log written so far.
//!
//! The model of a Writer is the value and the view of its log. Every step
//! that has a log of its own appends it to the log that came before, never
//! the other way round.

use super::function::{behavior_of, refines, Behavior, Callable, SharedFn};
use super::monoid::Monoid;
use std::fmt::Display;
use std::rc::Rc;
use vstd::prelude::*;

verus! {

/// A value and a log.
pub type WriterMonad<Ta, Tlog> = (Ta, Tlog);

/// The model of a Writer: the value and the view of the log.
pub open spec fn writer_view<Ta, Tlog: View>(m: WriterMonad<Ta, Tlog>) -> (Ta, Tlog::V) {
    (m.0, m.1@)
}

/// `r` is the model of `writer_unit(a)`: the value `a` with the empty log.
pub open spec fn writer_unit_yields<M: Monoid, Ta>(a: Ta, r: (Ta, M::V)) -> bool {
    r.0 == a && M::is_mempty(r.1)
}

/// `a` with an empty log.
pub fn writer_unit<Ta: Display + Copy, Tlog: Monoid<T = Tlog>>(a: Ta) -> (r: WriterMonad<Ta, Tlog>)
    ensures
        writer_unit_yields::<Tlog, Ta>(a, writer_view(r)),
{
    (a, Tlog::mempty())
}

/// `r` is a model of `writer_fmap(f_ab, ma)`: a result of `f_ab` on the value
/// of `ma`, with the log of `ma`.
pub open spec fn writer_fmap_yields<Ta, Tb, V>(
    f_ab: Behavior<Ta, Tb>,
    ma: (Ta, V),
    r: (Tb, V),
) -> bool {
    f_ab.yields(ma.0, r.0) && r.1 == ma.1
}

/// Applies `f_ab` to the value and leaves the log as it is.
pub fn writer_fmap<Ta, Tb, Tlog: Monoid, F: Fn(Ta) -> Tb>(
    f_ab: F,
    ma: WriterMonad<Ta, Tlog>,
) -> (r: WriterMonad<Tb, Tlog>)
    requires
        behavior_of(f_ab).accepts(ma.0),
    ensures
        writer_fmap_yields(behavior_of(f_ab), writer_view(ma), writer_view(r)),
        r.1 == ma.1,
{
    (f_ab(ma.0), ma.1)
}

/// `r` is a model of `writer_apply((f, log), ma)`: a result of `f` on the
/// value of `ma`, with the log of `ma` appended to `log`.
pub open spec fn writer_apply_yields<M: Monoid, Ta, Tb>(
    f: Behavior<Ta, Tb>,
    log: M::V,
    ma: (Ta, M::V),
    r: (Tb, M::V),
) -> bool {
    f.yields(ma.0, r.0) && M::is_mappend(log, ma.1, r.1)
}

/// Applies the function of `mf` to the value of `ma`. The log of `mf` comes
/// first, that of `ma` after it.
pub fn writer_apply<Ta, Tb, Tlog: Monoid<T = Tlog>, F: Fn(Ta) -> Tb>(
    mf: WriterMonad<F, Tlog>,
    ma: WriterMonad<Ta, Tlog>,
) -> (r: WriterMonad<Tb, Tlog>)
    requires
        behavior_of(mf.0).accepts(ma.0),
    ensures
        writer_apply_yields::<Tlog, Ta, Tb>(
            behavior_of(mf.0),
            mf.1@,
            writer_view(ma),
            writer_view(r),
        ),
{
    let b = (mf.0)(ma.0);
    (b, mf.1.mappend(ma.1))
}

/// The model of a Kleisli arrow: for each argument, the models of the
/// Writers it may return.
pub type WriterKleisliSpec<Ta, Tb, V> = Behavior<Ta, (Tb, V)>;

/// A function from a value to a Writer.
#[verifier::reject_recursive_types(Ta)]
#[verifier::reject_recursive_types(Tb)]
#[verifier::reject_recursive_types(Tlog)]
pub struct WriterKleisli<Ta, Tb, Tlog: Monoid> {
    pub kleisli: SharedFn<Ta, WriterMonad<Tb, Tlog>>,
}

impl<Ta, Tb, Tlog: Monoid> View for WriterKleisli<Ta, Tb, Tlog> {
    type V = WriterKleisliSpec<Ta, Tb, Tlog::V>;

    open spec fn view(&self) -> WriterKleisliSpec<Ta, Tb, Tlog::V> {
        Behavior {
            pre: |a: Ta| self.kleisli@.accepts(a),
            post: |a: Ta, w: (Tb, Tlog::V)|
                exists|m: WriterMonad<Tb, Tlog>| #[trigger]
                    self.kleisli@.yields(a, m) && writer_view(m) == w,
        }
    }
}

impl<Ta, Tb, Tlog: Monoid> Clone for WriterKleisli<Ta, Tb, Tlog> {
    fn clone(&self) -> (r: Self)
        ensures
            r == *self,
    {
        WriterKleisli { kleisli: self.kleisli.clone() }
    }
}

/// `r` is a model of `writer_bind(ma, k_ab)`: the value of a Writer that
/// `k_ab` returns on the value of `ma`, with the log of that Writer appended
/// to the log of `ma`.
pub open spec fn writer_bind_yields<M: Monoid, Ta, Tb>(
    ma: (Ta, M::V),
    k_ab: WriterKleisliSpec<Ta, Tb, M::V>,
    r: (Tb, M::V),
) -> bool {
    exists|w: (Tb, M::V)| #[trigger]
        k_ab.yields(ma.0, w) && r.0 == w.0 && M::is_mappend(ma.1, w.1, r.1)
}

/// Calls `k_ab` on the value of `ma` and appends the log that comes back to
/// the log of `ma`.
pub fn writer_bind<Ta, Tb, Tlog: Monoid<T = Tlog>>(
    ma: WriterMonad<Ta, Tlog>,
    k_ab: WriterKleisli<Ta, Tb, Tlog>,
) -> (r: WriterMonad<Tb, Tlog>)
    requires
        k_ab@.accepts(ma.0),
    ensures
        writer_bind_yields::<Tlog, Ta, Tb>(writer_view(ma), k_ab@, writer_view(r)),
{
    let b_log_ab: WriterMonad<Tb, Tlog> = k_ab.kleisli.call(ma.0);
    assert(k_ab@.yields(writer_view(ma).0, writer_view(b_log_ab)));
    (b_log_ab.0, ma.1.mappend(b_log_ab.1))
}

/// The model of the arrow that returns the Writer `mb` whatever its
/// argument.
pub open spec fn writer_constant_arrow_spec<Ta, Tb, V>(mb: (Tb, V)) -> WriterKleisliSpec<
    Ta,
    Tb,
    V,
> {
    Behavior { pre: |a: Ta| true, post: |a: Ta, w: (Tb, V)| w == mb }
}

/// The value of `mb`, with the log of `mb` appended to the log of `ma`: a
/// step of a sequence that binds no name.
pub fn writer_then<Ta, Tb, Tlog: Monoid<T = Tlog>>(
    ma: WriterMonad<Ta, Tlog>,
    mb: WriterMonad<Tb, Tlog>,
) -> (r: WriterMonad<Tb, Tlog>)
    ensures
        r.0 == mb.0,
        writer_bind_yields::<Tlog, Ta, Tb>(
            writer_view(ma),
            writer_constant_arrow_spec::<Ta, Tb, Tlog::V>(writer_view(mb)),
            writer_view(r),
        ),
{
    assert(writer_constant_arrow_spec::<Ta, Tb, Tlog::V>(writer_view(mb)).yields(
        writer_view(ma).0,
        writer_view(mb),
    ));
    (mb.0, ma.1.mappend(mb.1))
}

/// The Writer that only writes `msg` to the log.
pub fn log<Tlog: Monoid>(msg: Tlog) -> (r: WriterMonad<(), Tlog>)
    ensures
        r == ((), msg),
{
    ((), msg)
}

/// The model of `compose_writers(wab, wbc)`: `wab`, then `wbc` on the value
/// that came back, the log of the second appended to the log of the first.
pub open spec fn compose_writers_spec<M: Monoid, Ta, Tb, Tc>(
    wab: WriterKleisliSpec<Ta, Tb, M::V>,
    wbc: WriterKleisliSpec<Tb, Tc, M::V>,
) -> WriterKleisliSpec<Ta, Tc, M::V> {
    Behavior {
        pre: |a: Ta|
            wab.accepts(a) && forall|w: (Tb, M::V)| #[trigger]
                wab.yields(a, w) ==> wbc.accepts(w.0),
        post: |a: Ta, r: (Tc, M::V)|
            exists|w: (Tb, M::V)| #[trigger]
                wab.yields(a, w) && writer_bind_yields::<M, Tb, Tc>(w, wbc, r),
    }
}

#[verifier::reject_recursive_types(Ta)]
#[verifier::reject_recursive_types(Tb)]
#[verifier::reject_recursive_types(Tc)]
#[verifier::reject_recursive_types(Tlog)]
struct ComposedWriters<Ta, Tb, Tc, Tlog: Monoid> {
    wab: WriterKleisli<Ta, Tb, Tlog>,
    wbc: WriterKleisli<Tb, Tc, Tlog>,
}

impl<Ta, Tb, Tc, Tlog: Monoid<T = Tlog>> Callable<Ta, WriterMonad<Tc, Tlog>> for ComposedWriters<
    Ta,
    Tb,
    Tc,
    Tlog,
> {
    closed spec fn pre(&self, a: Ta) -> bool {
        compose_writers_spec::<Tlog, Ta, Tb, Tc>(self.wab@, self.wbc@).accepts(a)
    }

    closed spec fn post(&self, a: Ta, r: WriterMonad<Tc, Tlog>) -> bool {
        compose_writers_spec::<Tlog, Ta, Tb, Tc>(self.wab@, self.wbc@).yields(a, writer_view(r))
    }

    fn call(&self, a: Ta) -> (r: WriterMonad<Tc, Tlog>) {
        let b_log_ab: WriterMonad<Tb, Tlog> = self.wab.kleisli.call(a);
        assert(self.wab@.yields(a, writer_view(b_log_ab)));
        let c_log_bc: WriterMonad<Tc, Tlog> = self.wbc.kleisli.call(b_log_ab.0);
        assert(self.wbc@.yields(b_log_ab.0, writer_view(c_log_bc)));
        (c_log_bc.0, b_log_ab.1.mappend(c_log_bc.1))
    }
}

/// The arrow that calls `wab` and then `wbc`, the logs appended in that
/// order.
pub fn compose_writers<Ta: 'static, Tb: 'static, Tc: 'static, Tlog: Monoid<T = Tlog> + 'static>(
    wab: WriterKleisli<Ta, Tb, Tlog>,
    wbc: WriterKleisli<Tb, Tc, Tlog>,
) -> (wac: WriterKleisli<Ta, Tc, Tlog>)
    ensures
        forall|a: Ta|
            wac.kleisli@.accepts(a) == #[trigger] compose_writers_spec::<Tlog, Ta, Tb, Tc>(
                wab@,
                wbc@,
            ).accepts(a),
        forall|a: Ta, r: WriterMonad<Tc, Tlog>| #[trigger]
            wac.kleisli@.yields(a, r) == compose_writers_spec::<Tlog, Ta, Tb, Tc>(wab@, wbc@).yields(
                a,
                writer_view(r),
            ),
        refines(wac@, compose_writers_spec::<Tlog, Ta, Tb, Tc>(wab@, wbc@)),
{
    WriterKleisli { kleisli: SharedFn { f: Rc::new(Box::new(ComposedWriters { wab, wbc })) } }
}

/// `r` is a model of `writer_binds(m, ks)`: of `m` bound to each arrow of
/// `ks` in turn, the first one first.
pub open spec fn writer_binds_yields<M: Monoid, Ta>(
    m: (Ta, M::V),
    ks: Seq<WriterKleisliSpec<Ta, Ta, M::V>>,
    r: (Ta, M::V),
) -> bool
    decreases ks.len(),
{
    if ks.len() == 0 {
        r == m
    } else {
        exists|mid: (Ta, M::V)| #[trigger]
            writer_bind_yields::<M, Ta, Ta>(m, ks[0], mid) && writer_binds_yields::<M, Ta>(
                mid,
                ks.drop_first(),
                r,
            )
    }
}

/// `m` can be bound to each arrow of `ks` in turn: each arrow accepts the
/// value that reaches it.
pub open spec fn writer_binds_accepts<M: Monoid, Ta>(
    m: (Ta, M::V),
    ks: Seq<WriterKleisliSpec<Ta, Ta, M::V>>,
) -> bool
    decreases ks.len(),
{
    ks.len() == 0 || (ks[0].accepts(m.0) && forall|mid: (Ta, M::V)| #[trigger]
        writer_bind_yields::<M, Ta, Ta>(m, ks[0], mid) ==> writer_binds_accepts::<M, Ta>(
            mid,
            ks.drop_first(),
        ))
}

/// The models of the arrows of `ks`.
pub open spec fn writer_arrow_views<Ta, Tlog: Monoid>(
    ks: Seq<WriterKleisli<Ta, Ta, Tlog>>,
) -> Seq<WriterKleisliSpec<Ta, Ta, Tlog::V>> {
    ks.map_values(|k: WriterKleisli<Ta, Ta, Tlog>| k@)
}

/// Binds `m` to each arrow of `ks` in turn: a chain of binds, written from
/// left to right. The arrows of one chain keep the type of the value; where
/// it changes from step to step, the binds are nested by hand.
pub fn writer_binds<Ta, Tlog: Monoid<T = Tlog>>(
    m: WriterMonad<Ta, Tlog>,
    ks: &Vec<WriterKleisli<Ta, Ta, Tlog>>,
) -> (r: WriterMonad<Ta, Tlog>)
    requires
        writer_binds_accepts::<Tlog, Ta>(writer_view(m), writer_arrow_views(ks@)),
    ensures
        writer_binds_yields::<Tlog, Ta>(writer_view(m), writer_arrow_views(ks@), writer_view(r)),
{
    let ghost all = writer_arrow_views(ks@);
    let ghost start = writer_view(m);
    let mut acc = m;
    let mut i: usize = 0;
    assert(all.skip(0) =~= all);
    while i < ks.len()
        invariant
            i <= ks@.len(),
            all == writer_arrow_views(ks@),
            writer_binds_accepts::<Tlog, Ta>(writer_view(acc), all.skip(i as int)),
            forall|r: (Ta, Tlog::V)| #[trigger]
                writer_binds_yields::<Tlog, Ta>(writer_view(acc), all.skip(i as int), r)
                    ==> writer_binds_yields::<Tlog, Ta>(start, all, r),
        decreases ks@.len() - i,
    {
        let ghost before = writer_view(acc);
        let ghost rest = all.skip(i as int);
        assert(rest.drop_first() =~= all.skip(i + 1));
        acc = writer_bind(acc, ks[i].clone());
        proof {
            let after = writer_view(acc);
            assert forall|r: (Ta, Tlog::V)| #[trigger]
                writer_binds_yields::<Tlog, Ta>(after, all.skip(i + 1), r) implies writer_binds_yields::<
                Tlog,
                Ta,
            >(start, all, r) by {
                assert(writer_binds_yields::<Tlog, Ta>(before, rest, r));
            }
        }
        i += 1;
    }
    assert(writer_binds_yields::<Tlog, Ta>(writer_view(acc), all.skip(i as int), writer_view(acc)));
    acc
}

} // verus!
