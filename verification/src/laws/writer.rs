//! The functor and monad laws of Writer computations, and the order of the
//! log.
//!
//! The laws speak of the models of Writers: a value and the view of a log.
//! The monad laws hold for a log where any two values can be appended,
//! appending is associative and the empty log is its unit.

use crate::monads::function::{and_then_spec, identity_spec, refines, Behavior};
use crate::monads::monoid::{
    appended_from_left, appended_from_right, associative, can_append, has_identity, total,
    Monoid,
};
use crate::monads::writer::{
    compose_writers_spec, writer_bind_yields, writer_binds_yields, writer_fmap_yields,
    writer_unit_yields, WriterKleisliSpec,
};
use vstd::prelude::*;

verus! {

/// The model of `writer_unit` as an arrow.
pub open spec fn writer_unit_arrow_spec<M: Monoid, Ta>() -> WriterKleisliSpec<Ta, Ta, M::V> {
    Behavior {
        pre: |a: Ta| true,
        post: |a: Ta, w: (Ta, M::V)| writer_unit_yields::<M, Ta>(a, w),
    }
}

/// Functor law: mapping the identity function changes nothing.
pub proof fn lemma_writer_fmap_identity<Ta, V>(m: (Ta, V), r: (Ta, V))
    ensures
        writer_fmap_yields(identity_spec::<Ta>(), m, r) <==> r == m,
{
}

/// Functor law: mapping `g` and then `f` is mapping their composition.
pub proof fn lemma_writer_fmap_composition<Ta, Tb, Tc, V>(
    f: Behavior<Tb, Tc>,
    g: Behavior<Ta, Tb>,
    m: (Ta, V),
    r: (Tc, V),
)
    ensures
        and_then_spec(g, f).accepts(m.0) <==> g.accepts(m.0) && forall|mid: (Tb, V)| #[trigger]
            writer_fmap_yields(g, m, mid) ==> f.accepts(mid.0),
        writer_fmap_yields(and_then_spec(g, f), m, r) <==> exists|mid: (Tb, V)| #[trigger]
            writer_fmap_yields(g, m, mid) && writer_fmap_yields(f, mid, r),
{
    if and_then_spec(g, f).accepts(m.0) {
        assert forall|mid: (Tb, V)| #[trigger] writer_fmap_yields(g, m, mid) implies f.accepts(
            mid.0,
        ) by {}
    }
    if g.accepts(m.0) && forall|mid: (Tb, V)| #[trigger]
        writer_fmap_yields(g, m, mid) ==> f.accepts(mid.0) {
        assert forall|b: Tb| #[trigger] g.yields(m.0, b) implies f.accepts(b) by {
            assert(writer_fmap_yields(g, m, (b, m.1)));
        }
    }
    if writer_fmap_yields(and_then_spec(g, f), m, r) {
        let b = choose|b: Tb| #[trigger] g.yields(m.0, b) && f.yields(b, r.0);
        assert(writer_fmap_yields(g, m, (b, m.1)));
    }
}

/// Left identity: binding `writer_unit(a)` to an arrow is calling the arrow
/// on `a`.
pub proof fn lemma_writer_left_identity<M: Monoid, Ta, Tb>(
    a: Ta,
    unit: (Ta, M::V),
    k_ab: WriterKleisliSpec<Ta, Tb, M::V>,
    r: (Tb, M::V),
)
    requires
        has_identity::<M>(),
        writer_unit_yields::<M, Ta>(a, unit),
    ensures
        writer_bind_yields::<M, Ta, Tb>(unit, k_ab, r) <==> k_ab.yields(a, r),
{
    if writer_bind_yields::<M, Ta, Tb>(unit, k_ab, r) {
        let w = choose|w: (Tb, M::V)| #[trigger]
            k_ab.yields(unit.0, w) && r.0 == w.0 && M::is_mappend(unit.1, w.1, r.1);
    }
}

/// Right identity: binding a Writer to `writer_unit` changes nothing.
pub proof fn lemma_writer_right_identity<M: Monoid, Ta>(m: (Ta, M::V), r: (Ta, M::V))
    requires
        has_identity::<M>(),
    ensures
        writer_bind_yields::<M, Ta, Ta>(m, writer_unit_arrow_spec::<M, Ta>(), r) <==> r == m,
{
    let unit = writer_unit_arrow_spec::<M, Ta>();
    if writer_bind_yields::<M, Ta, Ta>(m, unit, r) {
        let w = choose|w: (Ta, M::V)| #[trigger]
            unit.yields(m.0, w) && r.0 == w.0 && M::is_mappend(m.1, w.1, r.1);
    }
    if r == m {
        let e = choose|e: M::V| #[trigger] M::is_mempty(e);
        assert(unit.yields(m.0, (m.0, e)));
    }
}

/// Right identity, for an arrow of which only its contract is known: where
/// `k` returns nothing but `writer_unit` of its argument, binding `m` to `k`
/// gives nothing but `m`.
pub proof fn lemma_writer_right_identity_run<M: Monoid, Ta>(
    m: (Ta, M::V),
    k: WriterKleisliSpec<Ta, Ta, M::V>,
    r: (Ta, M::V),
)
    requires
        has_identity::<M>(),
        refines(k, writer_unit_arrow_spec::<M, Ta>()),
        writer_bind_yields::<M, Ta, Ta>(m, k, r),
    ensures
        r == m,
{
    let w = choose|w: (Ta, M::V)| #[trigger]
        k.yields(m.0, w) && r.0 == w.0 && M::is_mappend(m.1, w.1, r.1);
    lemma_writer_right_identity::<M, Ta>(m, r);
}

/// Associativity: binding to `k_ab` and then to `k_bc` is binding to their
/// composition, the arrow that calls `k_ab` and binds what comes back to
/// `k_bc`.
pub proof fn lemma_writer_bind_associative<M: Monoid, Ta, Tb, Tc>(
    m: (Ta, M::V),
    k_ab: WriterKleisliSpec<Ta, Tb, M::V>,
    k_bc: WriterKleisliSpec<Tb, Tc, M::V>,
    r: (Tc, M::V),
)
    requires
        total::<M>(),
        associative::<M>(),
    ensures
        compose_writers_spec::<M, Ta, Tb, Tc>(k_ab, k_bc).accepts(m.0) <==> k_ab.accepts(m.0)
            && forall|mid: (Tb, M::V)| #[trigger]
            writer_bind_yields::<M, Ta, Tb>(m, k_ab, mid) ==> k_bc.accepts(mid.0),
        writer_bind_yields::<M, Ta, Tc>(m, compose_writers_spec::<M, Ta, Tb, Tc>(k_ab, k_bc), r)
            <==> exists|mid: (Tb, M::V)| #[trigger]
            writer_bind_yields::<M, Ta, Tb>(m, k_ab, mid) && writer_bind_yields::<M, Tb, Tc>(
                mid,
                k_bc,
                r,
            ),
{
    let k_ac = compose_writers_spec::<M, Ta, Tb, Tc>(k_ab, k_bc);
    if k_ac.accepts(m.0) {
        assert forall|mid: (Tb, M::V)| #[trigger]
            writer_bind_yields::<M, Ta, Tb>(m, k_ab, mid) implies k_bc.accepts(mid.0) by {
            let w = choose|w: (Tb, M::V)| #[trigger]
                k_ab.yields(m.0, w) && mid.0 == w.0 && M::is_mappend(m.1, w.1, mid.1);
        }
    }
    if k_ab.accepts(m.0) && forall|mid: (Tb, M::V)| #[trigger]
        writer_bind_yields::<M, Ta, Tb>(m, k_ab, mid) ==> k_bc.accepts(mid.0) {
        assert forall|w: (Tb, M::V)| #[trigger] k_ab.yields(m.0, w) implies k_bc.accepts(w.0) by {
            assert(can_append::<M>(m.1, w.1));
            let log = choose|log: M::V| #[trigger] M::is_mappend(m.1, w.1, log);
            assert(writer_bind_yields::<M, Ta, Tb>(m, k_ab, (w.0, log)));
        }
    }
    if writer_bind_yields::<M, Ta, Tc>(m, k_ac, r) {
        let x = choose|x: (Tc, M::V)| #[trigger]
            k_ac.yields(m.0, x) && r.0 == x.0 && M::is_mappend(m.1, x.1, r.1);
        let w1 = choose|w1: (Tb, M::V)| #[trigger]
            k_ab.yields(m.0, w1) && writer_bind_yields::<M, Tb, Tc>(w1, k_bc, x);
        let w2 = choose|w2: (Tc, M::V)| #[trigger]
            k_bc.yields(w1.0, w2) && x.0 == w2.0 && M::is_mappend(w1.1, w2.1, x.1);
        assert(appended_from_left::<M>(m.1, w1.1, w2.1, r.1));
        let log = choose|log: M::V| #[trigger]
            M::is_mappend(m.1, w1.1, log) && M::is_mappend(log, w2.1, r.1);
        let mid = (w1.0, log);
        assert(writer_bind_yields::<M, Ta, Tb>(m, k_ab, mid));
    }
    if exists|mid: (Tb, M::V)| #[trigger]
        writer_bind_yields::<M, Ta, Tb>(m, k_ab, mid) && writer_bind_yields::<M, Tb, Tc>(
            mid,
            k_bc,
            r,
        ) {
        let mid = choose|mid: (Tb, M::V)| #[trigger]
            writer_bind_yields::<M, Ta, Tb>(m, k_ab, mid) && writer_bind_yields::<M, Tb, Tc>(
                mid,
                k_bc,
                r,
            );
        let w1 = choose|w1: (Tb, M::V)| #[trigger]
            k_ab.yields(m.0, w1) && mid.0 == w1.0 && M::is_mappend(m.1, w1.1, mid.1);
        let w2 = choose|w2: (Tc, M::V)| #[trigger]
            k_bc.yields(mid.0, w2) && r.0 == w2.0 && M::is_mappend(mid.1, w2.1, r.1);
        assert(appended_from_right::<M>(m.1, w1.1, w2.1, r.1));
        let log = choose|log: M::V| #[trigger]
            M::is_mappend(w1.1, w2.1, log) && M::is_mappend(m.1, log, r.1);
        let x = (w2.0, log);
        assert(k_ac.yields(m.0, x));
    }
}

/// Associativity, for an arrow of which only its contract is known: where
/// `k_ac` can stand in for the composition of `k_ab` and `k_bc`, as the
/// arrow that `compose_writers` returns does, what binding `m` to `k_ac`
/// gives is what binding `m` to `k_ab` and then to `k_bc` gives.
pub proof fn lemma_writer_bind_associative_run<M: Monoid, Ta, Tb, Tc>(
    m: (Ta, M::V),
    k_ab: WriterKleisliSpec<Ta, Tb, M::V>,
    k_bc: WriterKleisliSpec<Tb, Tc, M::V>,
    k_ac: WriterKleisliSpec<Ta, Tc, M::V>,
    r: (Tc, M::V),
)
    requires
        total::<M>(),
        associative::<M>(),
        refines(k_ac, compose_writers_spec::<M, Ta, Tb, Tc>(k_ab, k_bc)),
        writer_bind_yields::<M, Ta, Tc>(m, k_ac, r),
    ensures
        exists|mid: (Tb, M::V)| #[trigger]
            writer_bind_yields::<M, Ta, Tb>(m, k_ab, mid) && writer_bind_yields::<M, Tb, Tc>(
                mid,
                k_bc,
                r,
            ),
{
    let composed = compose_writers_spec::<M, Ta, Tb, Tc>(k_ab, k_bc);
    let x = choose|x: (Tc, M::V)| #[trigger]
        k_ac.yields(m.0, x) && r.0 == x.0 && M::is_mappend(m.1, x.1, r.1);
    lemma_writer_bind_associative::<M, Ta, Tb, Tc>(m, k_ab, k_bc, r);
}

/// Log order: after a Writer with log `m.1` is bound to two arrows in turn,
/// the log is that of the first step with that of the second appended, and
/// then that of the third.
pub proof fn lemma_writer_log_order<M: Monoid, Ta, Tb, Tc>(
    m: (Ta, M::V),
    k_ab: WriterKleisliSpec<Ta, Tb, M::V>,
    k_bc: WriterKleisliSpec<Tb, Tc, M::V>,
    mid: (Tb, M::V),
    r: (Tc, M::V),
)
    requires
        writer_bind_yields::<M, Ta, Tb>(m, k_ab, mid),
        writer_bind_yields::<M, Tb, Tc>(mid, k_bc, r),
    ensures
        exists|second: (Tb, M::V), third: (Tc, M::V)|
            #[trigger] k_ab.yields(m.0, second) && #[trigger] k_bc.yields(second.0, third) && r.0
                == third.0 && appended_from_left::<M>(m.1, second.1, third.1, r.1),
{
    let second = choose|w: (Tb, M::V)| #[trigger]
        k_ab.yields(m.0, w) && mid.0 == w.0 && M::is_mappend(m.1, w.1, mid.1);
    let third = choose|w: (Tc, M::V)| #[trigger]
        k_bc.yields(mid.0, w) && r.0 == w.0 && M::is_mappend(mid.1, w.1, r.1);
}

/// A chain of binds is the nest of binds with the first arrow innermost:
/// binding to the arrows of `ks` and then to `k` is binding the chain over
/// `ks` to `k`.
pub proof fn lemma_writer_binds_nested<M: Monoid, Ta>(
    m: (Ta, M::V),
    ks: Seq<WriterKleisliSpec<Ta, Ta, M::V>>,
    k: WriterKleisliSpec<Ta, Ta, M::V>,
    r: (Ta, M::V),
)
    ensures
        writer_binds_yields::<M, Ta>(m, ks.push(k), r) <==> exists|mid: (Ta, M::V)| #[trigger]
            writer_binds_yields::<M, Ta>(m, ks, mid) && writer_bind_yields::<M, Ta, Ta>(mid, k, r),
    decreases ks.len(),
{
    let chain = ks.push(k);
    if ks.len() == 0 {
        if writer_binds_yields::<M, Ta>(m, chain, r) {
            let mid = choose|mid: (Ta, M::V)| #[trigger]
                writer_bind_yields::<M, Ta, Ta>(m, chain[0], mid) && writer_binds_yields::<M, Ta>(
                    mid,
                    chain.drop_first(),
                    r,
                );
            assert(writer_binds_yields::<M, Ta>(m, ks, m));
        }
        if exists|mid: (Ta, M::V)| #[trigger]
            writer_binds_yields::<M, Ta>(m, ks, mid) && writer_bind_yields::<M, Ta, Ta>(mid, k, r) {
            assert(writer_bind_yields::<M, Ta, Ta>(m, chain[0], r));
            assert(writer_binds_yields::<M, Ta>(r, chain.drop_first(), r));
        }
    } else {
        let tail = ks.drop_first();
        assert(chain.drop_first() =~= tail.push(k));
        assert(chain[0] == ks[0]);
        if writer_binds_yields::<M, Ta>(m, chain, r) {
            let first = choose|first: (Ta, M::V)| #[trigger]
                writer_bind_yields::<M, Ta, Ta>(m, chain[0], first) && writer_binds_yields::<M, Ta>(
                    first,
                    chain.drop_first(),
                    r,
                );
            lemma_writer_binds_nested::<M, Ta>(first, tail, k, r);
            let mid = choose|mid: (Ta, M::V)| #[trigger]
                writer_binds_yields::<M, Ta>(first, tail, mid) && writer_bind_yields::<M, Ta, Ta>(
                    mid,
                    k,
                    r,
                );
            assert(writer_binds_yields::<M, Ta>(m, ks, mid));
        }
        if exists|mid: (Ta, M::V)| #[trigger]
            writer_binds_yields::<M, Ta>(m, ks, mid) && writer_bind_yields::<M, Ta, Ta>(mid, k, r) {
            let mid = choose|mid: (Ta, M::V)| #[trigger]
                writer_binds_yields::<M, Ta>(m, ks, mid) && writer_bind_yields::<M, Ta, Ta>(
                    mid,
                    k,
                    r,
                );
            let first = choose|first: (Ta, M::V)| #[trigger]
                writer_bind_yields::<M, Ta, Ta>(m, ks[0], first) && writer_binds_yields::<M, Ta>(
                    first,
                    tail,
                    mid,
                );
            lemma_writer_binds_nested::<M, Ta>(first, tail, k, r);
        }
    }
}

} // verus!
