//! The functor and monad laws of continuation computations.

use super::function::{
    lemma_and_then_associative, lemma_and_then_refines, lemma_behavior_equal,
    lemma_identity_and_then,
};
use crate::monads::cont::{
    cont_bind_consumer_spec, cont_bind_spec, cont_binds_spec, cont_fmap_spec, cont_unit_spec,
    ContKleisliSpec, ContSpec,
};
use crate::monads::function::{and_then_spec, exact_clone, identity_spec, refines, Behavior};
use vstd::prelude::*;

verus! {

/// The model of the computation that calls the arrow `k_ab` on `a` and runs
/// what comes back.
pub open spec fn cont_arrow_at_spec<Tr, Ta, Tb>(
    k_ab: ContKleisliSpec<Tr, Ta, Tb>,
    a: Ta,
) -> ContSpec<Tr, Tb> {
    Behavior {
        pre: |k: Behavior<Tb, Tr>| cont_bind_consumer_spec(k_ab, k).accepts(a),
        post: |k: Behavior<Tb, Tr>, r: Tr| cont_bind_consumer_spec(k_ab, k).yields(a, r),
    }
}

/// The model of `cont_unit` as an arrow.
pub open spec fn cont_unit_arrow_spec<Tr, Ta: Clone>() -> ContKleisliSpec<Tr, Ta, Ta> {
    Behavior {
        pre: |a: Ta| true,
        post: |a: Ta, m: ContSpec<Tr, Ta>| m == cont_unit_spec::<Tr, Ta>(a),
    }
}

/// The model of the arrow that calls `k_ab` and binds what comes back to
/// `k_bc`.
pub open spec fn cont_arrow_bind_spec<Tr, Ta, Tb, Tc>(
    k_ab: ContKleisliSpec<Tr, Ta, Tb>,
    k_bc: ContKleisliSpec<Tr, Tb, Tc>,
) -> ContKleisliSpec<Tr, Ta, Tc> {
    Behavior {
        pre: |a: Ta| k_ab.accepts(a),
        post: |a: Ta, mc: ContSpec<Tr, Tc>|
            exists|mb: ContSpec<Tr, Tb>| #[trigger]
                k_ab.yields(a, mb) && mc == cont_bind_spec(mb, k_bc),
    }
}

/// Functor law: mapping the identity function changes nothing.
pub proof fn lemma_cont_fmap_identity<Tr, Ta>(m: ContSpec<Tr, Ta>)
    ensures
        cont_fmap_spec(identity_spec::<Ta>(), m) == m,
{
    let mapped = cont_fmap_spec(identity_spec::<Ta>(), m);
    assert forall|k: Behavior<Ta, Tr>| mapped.accepts(k) == m.accepts(k) by {
        lemma_identity_and_then(k);
    }
    assert forall|k: Behavior<Ta, Tr>, r: Tr| mapped.yields(k, r) == m.yields(k, r) by {
        lemma_identity_and_then(k);
    }
    lemma_behavior_equal(mapped, m);
}

/// Functor law: mapping `g` and then `f` is mapping their composition.
pub proof fn lemma_cont_fmap_composition<Tr, Ta, Tb, Tc>(
    f: Behavior<Tb, Tc>,
    g: Behavior<Ta, Tb>,
    m: ContSpec<Tr, Ta>,
)
    ensures
        cont_fmap_spec(and_then_spec(g, f), m) == cont_fmap_spec(f, cont_fmap_spec(g, m)),
{
    let left = cont_fmap_spec(and_then_spec(g, f), m);
    let right = cont_fmap_spec(f, cont_fmap_spec(g, m));
    assert forall|k: Behavior<Tc, Tr>| left.accepts(k) == right.accepts(k) by {
        lemma_and_then_associative(g, f, k);
    }
    assert forall|k: Behavior<Tc, Tr>, r: Tr| left.yields(k, r) == right.yields(k, r) by {
        lemma_and_then_associative(g, f, k);
    }
    lemma_behavior_equal(left, right);
}

/// The consumer that `cont_bind` builds from the unit arrow and `k` behaves
/// as `k`.
proof fn lemma_unit_arrow_consumer<Tr, Ta: Clone>(k: Behavior<Ta, Tr>)
    requires
        exact_clone::<Ta>(),
    ensures
        cont_bind_consumer_spec(cont_unit_arrow_spec::<Tr, Ta>(), k) == k,
{
    let unit = cont_unit_arrow_spec::<Tr, Ta>();
    let c = cont_bind_consumer_spec(unit, k);
    assert forall|a: Ta| c.accepts(a) == k.accepts(a) by {
        let m = cont_unit_spec::<Tr, Ta>(a);
        assert(unit.yields(a, m));
        assert(cloned(a, a));
    }
    assert forall|a: Ta, r: Tr| c.yields(a, r) == k.yields(a, r) by {
        let m = cont_unit_spec::<Tr, Ta>(a);
        assert(unit.yields(a, m));
        assert(cloned(a, a));
    }
    lemma_behavior_equal(c, k);
}

/// Left identity: binding `cont_unit(a)` to an arrow is calling the arrow
/// on `a`.
pub proof fn lemma_cont_left_identity<Tr, Ta: Clone, Tb>(a: Ta, k_ab: ContKleisliSpec<Tr, Ta, Tb>)
    requires
        exact_clone::<Ta>(),
    ensures
        cont_bind_spec(cont_unit_spec::<Tr, Ta>(a), k_ab) == cont_arrow_at_spec(k_ab, a),
{
    let left = cont_bind_spec(cont_unit_spec::<Tr, Ta>(a), k_ab);
    let right = cont_arrow_at_spec(k_ab, a);
    assert forall|k: Behavior<Tb, Tr>| left.accepts(k) == right.accepts(k) by {
        assert(cloned(a, a));
    }
    assert forall|k: Behavior<Tb, Tr>, r: Tr| left.yields(k, r) == right.yields(k, r) by {
        assert(cloned(a, a));
    }
    lemma_behavior_equal(left, right);
}

/// Right identity: binding a computation to `cont_unit` changes nothing.
///
/// The law speaks of the arrow whose model is `cont_unit_arrow_spec()`. Of an
/// arrow built from a closure only a bound on its results is known, and for
/// such an arrow the law does not follow for every `m`: the arrow becomes
/// part of the consumer that `m` is run with, and nothing says of an
/// arbitrary `m` that it accepts a consumer that accepts more, or yields less
/// on one that yields less. [`lemma_cont_right_identity_run`] states the law
/// for such an arrow and an `m` of which [`cont_monotone`] holds.
pub proof fn lemma_cont_right_identity<Tr, Ta: Clone>(m: ContSpec<Tr, Ta>)
    requires
        exact_clone::<Ta>(),
    ensures
        cont_bind_spec(m, cont_unit_arrow_spec::<Tr, Ta>()) == m,
{
    let bound = cont_bind_spec(m, cont_unit_arrow_spec::<Tr, Ta>());
    assert forall|k: Behavior<Ta, Tr>| bound.accepts(k) == m.accepts(k) by {
        lemma_unit_arrow_consumer::<Tr, Ta>(k);
    }
    assert forall|k: Behavior<Ta, Tr>, r: Tr| bound.yields(k, r) == m.yields(k, r) by {
        lemma_unit_arrow_consumer::<Tr, Ta>(k);
    }
    lemma_behavior_equal(bound, m);
}

/// The consumer that `cont_bind` builds from the arrow "call `k_ab`, bind to
/// `k_bc`" is the one it builds from `k_ab` and the consumer it builds from
/// `k_bc`.
proof fn lemma_arrow_bind_consumer<Tr, Ta, Tb, Tc>(
    k_ab: ContKleisliSpec<Tr, Ta, Tb>,
    k_bc: ContKleisliSpec<Tr, Tb, Tc>,
    k: Behavior<Tc, Tr>,
)
    ensures
        cont_bind_consumer_spec(cont_arrow_bind_spec(k_ab, k_bc), k) == cont_bind_consumer_spec(
            k_ab,
            cont_bind_consumer_spec(k_bc, k),
        ),
{
    let k_ac = cont_arrow_bind_spec(k_ab, k_bc);
    let inner = cont_bind_consumer_spec(k_bc, k);
    let left = cont_bind_consumer_spec(k_ac, k);
    let right = cont_bind_consumer_spec(k_ab, inner);
    assert forall|a: Ta| left.accepts(a) == right.accepts(a) by {
        if left.accepts(a) {
            assert forall|mb: ContSpec<Tr, Tb>| #[trigger] k_ab.yields(a, mb) implies mb.accepts(
                inner,
            ) by {
                let mc = cont_bind_spec(mb, k_bc);
                assert(k_ac.yields(a, mc));
            }
        }
        if right.accepts(a) {
            assert forall|mc: ContSpec<Tr, Tc>| #[trigger] k_ac.yields(a, mc) implies mc.accepts(
                k,
            ) by {
                let mb = choose|mb: ContSpec<Tr, Tb>| #[trigger]
                    k_ab.yields(a, mb) && mc == cont_bind_spec(mb, k_bc);
            }
        }
    }
    assert forall|a: Ta, r: Tr| left.yields(a, r) == right.yields(a, r) by {
        if left.yields(a, r) {
            let mc = choose|mc: ContSpec<Tr, Tc>| #[trigger] k_ac.yields(a, mc) && mc.yields(k, r);
            let mb = choose|mb: ContSpec<Tr, Tb>| #[trigger]
                k_ab.yields(a, mb) && mc == cont_bind_spec(mb, k_bc);
        }
        if right.yields(a, r) {
            let mb = choose|mb: ContSpec<Tr, Tb>| #[trigger]
                k_ab.yields(a, mb) && mb.yields(inner, r);
            let mc = cont_bind_spec(mb, k_bc);
            assert(k_ac.yields(a, mc));
        }
    }
    lemma_behavior_equal(left, right);
}

/// Associativity: binding to `k_ab` and then to `k_bc` is binding to the
/// arrow that calls `k_ab` and binds what comes back to `k_bc`.
///
/// As with right identity, the law speaks of the arrow whose model is
/// `cont_arrow_bind_spec(k_ab, k_bc)`, and does not follow for every `m` from
/// a bound on the results of an arrow. [`lemma_cont_bind_associative_run`]
/// states it for such an arrow and an `m` of which [`cont_monotone`] holds.
pub proof fn lemma_cont_bind_associative<Tr, Ta, Tb, Tc>(
    m: ContSpec<Tr, Ta>,
    k_ab: ContKleisliSpec<Tr, Ta, Tb>,
    k_bc: ContKleisliSpec<Tr, Tb, Tc>,
)
    ensures
        cont_bind_spec(cont_bind_spec(m, k_ab), k_bc) == cont_bind_spec(
            m,
            cont_arrow_bind_spec(k_ab, k_bc),
        ),
{
    let left = cont_bind_spec(cont_bind_spec(m, k_ab), k_bc);
    let right = cont_bind_spec(m, cont_arrow_bind_spec(k_ab, k_bc));
    assert forall|k: Behavior<Tc, Tr>| left.accepts(k) == right.accepts(k) by {
        lemma_arrow_bind_consumer(k_ab, k_bc, k);
    }
    assert forall|k: Behavior<Tc, Tr>, r: Tr| left.yields(k, r) == right.yields(k, r) by {
        lemma_arrow_bind_consumer(k_ab, k_bc, k);
    }
    lemma_behavior_equal(left, right);
}

/// `m` is no worse off with a consumer that can stand in for another: it
/// accepts the first where it accepts the second, and what it yields with
/// the first it also yields with the second. The computations that this
/// library builds are of this kind.
pub open spec fn cont_monotone<Tr, Ta>(m: ContSpec<Tr, Ta>) -> bool {
    forall|c: Behavior<Ta, Tr>, c2: Behavior<Ta, Tr>| #[trigger]
        refines(c, c2) ==> (m.accepts(c2) ==> m.accepts(c)) && forall|r: Tr| #[trigger]
            m.yields(c, r) ==> m.yields(c2, r)
}

/// `cont_unit(a)` is no worse off with a consumer that can stand in for
/// another.
pub proof fn lemma_cont_unit_monotone<Tr, Ta: Clone>(a: Ta)
    ensures
        cont_monotone(cont_unit_spec::<Tr, Ta>(a)),
{
    let m = cont_unit_spec::<Tr, Ta>(a);
    assert forall|c: Behavior<Ta, Tr>, c2: Behavior<Ta, Tr>| #[trigger]
        refines(c, c2) implies (m.accepts(c2) ==> m.accepts(c)) && forall|r: Tr| #[trigger]
        m.yields(c, r) ==> m.yields(c2, r) by {
        assert forall|r: Tr| #[trigger] m.yields(c, r) implies m.yields(c2, r) by {
            let x = choose|x: Ta| #[trigger] cloned(a, x) && c.yields(x, r);
        }
    }
}

/// The consumer that `cont_bind` builds from an arrow and a consumer of the
/// whole can stand in for the one it builds from another arrow and another
/// consumer, where the arrow and the consumer can stand in for the others.
proof fn lemma_bind_consumer_refines<Tr, Ta, Tb>(
    k: ContKleisliSpec<Tr, Ta, Tb>,
    k2: ContKleisliSpec<Tr, Ta, Tb>,
    c: Behavior<Tb, Tr>,
    c2: Behavior<Tb, Tr>,
)
    requires
        refines(k, k2),
        refines(c, c2),
        forall|a: Ta, mb: ContSpec<Tr, Tb>| #[trigger] k.yields(a, mb) ==> cont_monotone(mb),
    ensures
        refines(cont_bind_consumer_spec(k, c), cont_bind_consumer_spec(k2, c2)),
{
    let f = cont_bind_consumer_spec(k, c);
    let g = cont_bind_consumer_spec(k2, c2);
    assert forall|a: Ta| #[trigger] g.accepts(a) implies f.accepts(a) by {
        assert forall|mb: ContSpec<Tr, Tb>| #[trigger] k.yields(a, mb) implies mb.accepts(c) by {}
    }
    assert forall|a: Ta, r: Tr| #[trigger] f.yields(a, r) implies g.yields(a, r) by {
        let mb = choose|mb: ContSpec<Tr, Tb>| #[trigger] k.yields(a, mb) && mb.yields(c, r);
    }
}

/// Binding keeps what stands in for what: where `m` and what `k` returns are
/// no worse off with a consumer that can stand in for another, and `k` can
/// stand in for `k2`, binding `m` to `k` can stand in for binding `m` to
/// `k2`.
pub proof fn lemma_cont_bind_refines<Tr, Ta, Tb>(
    m: ContSpec<Tr, Ta>,
    k: ContKleisliSpec<Tr, Ta, Tb>,
    k2: ContKleisliSpec<Tr, Ta, Tb>,
)
    requires
        cont_monotone(m),
        refines(k, k2),
        forall|a: Ta, mb: ContSpec<Tr, Tb>| #[trigger] k.yields(a, mb) ==> cont_monotone(mb),
    ensures
        refines(cont_bind_spec(m, k), cont_bind_spec(m, k2)),
{
    let bound = cont_bind_spec(m, k);
    let bound2 = cont_bind_spec(m, k2);
    assert forall|c: Behavior<Tb, Tr>| #[trigger] bound2.accepts(c) implies bound.accepts(c) by {
        lemma_bind_consumer_refines(k, k2, c, c);
    }
    assert forall|c: Behavior<Tb, Tr>, r: Tr| #[trigger] bound.yields(c, r) implies bound2.yields(
        c,
        r,
    ) by {
        lemma_bind_consumer_refines(k, k2, c, c);
    }
}

/// Binding gives a computation that is no worse off with a consumer that can
/// stand in for another, where that holds of `m` and of what `k` returns.
pub proof fn lemma_cont_bind_monotone<Tr, Ta, Tb>(
    m: ContSpec<Tr, Ta>,
    k: ContKleisliSpec<Tr, Ta, Tb>,
)
    requires
        cont_monotone(m),
        forall|a: Ta, mb: ContSpec<Tr, Tb>| #[trigger] k.yields(a, mb) ==> cont_monotone(mb),
    ensures
        cont_monotone(cont_bind_spec(m, k)),
{
    let bound = cont_bind_spec(m, k);
    assert forall|c: Behavior<Tb, Tr>, c2: Behavior<Tb, Tr>| #[trigger]
        refines(c, c2) implies (bound.accepts(c2) ==> bound.accepts(c)) && forall|r: Tr|
        #[trigger] bound.yields(c, r) ==> bound.yields(c2, r) by {
        lemma_bind_consumer_refines(k, k, c, c2);
    }
}

/// Mapping gives a computation that is no worse off with a consumer that can
/// stand in for another, where that holds of `m`.
pub proof fn lemma_cont_fmap_monotone<Tr, Ta, Tb>(f: Behavior<Ta, Tb>, m: ContSpec<Tr, Ta>)
    requires
        cont_monotone(m),
    ensures
        cont_monotone(cont_fmap_spec(f, m)),
{
    let mapped = cont_fmap_spec(f, m);
    assert forall|c: Behavior<Tb, Tr>, c2: Behavior<Tb, Tr>| #[trigger]
        refines(c, c2) implies (mapped.accepts(c2) ==> mapped.accepts(c)) && forall|r: Tr|
        #[trigger] mapped.yields(c, r) ==> mapped.yields(c2, r) by {
        lemma_and_then_refines(f, c, c2);
    }
}

/// Right identity, for an arrow of which only its contract is known: where
/// `m` is no worse off with a consumer that can stand in for another, and `k`
/// accepts every value and returns nothing but `cont_unit` of its argument,
/// binding `m` to `k` accepts the consumers that `m` accepts and yields only
/// what `m` yields.
pub proof fn lemma_cont_right_identity_run<Tr, Ta: Clone>(
    m: ContSpec<Tr, Ta>,
    k: ContKleisliSpec<Tr, Ta, Ta>,
)
    requires
        exact_clone::<Ta>(),
        cont_monotone(m),
        refines(k, cont_unit_arrow_spec::<Tr, Ta>()),
    ensures
        refines(cont_bind_spec(m, k), m),
{
    assert forall|a: Ta, mb: ContSpec<Tr, Ta>| #[trigger] k.yields(a, mb) implies cont_monotone(
        mb,
    ) by {
        lemma_cont_unit_monotone::<Tr, Ta>(a);
    }
    lemma_cont_bind_refines(m, k, cont_unit_arrow_spec::<Tr, Ta>());
    lemma_cont_right_identity(m);
}

/// Associativity, for an arrow of which only its contract is known: where
/// `m` and what `k_ab` and `k_bc` return are no worse off with a consumer
/// that can stand in for another, and `k_ac` can stand in for the arrow that
/// calls `k_ab` and binds what comes back to `k_bc`, binding `m` to `k_ac`
/// can stand in for binding `m` to `k_ab` and then to `k_bc`.
pub proof fn lemma_cont_bind_associative_run<Tr, Ta, Tb, Tc>(
    m: ContSpec<Tr, Ta>,
    k_ab: ContKleisliSpec<Tr, Ta, Tb>,
    k_bc: ContKleisliSpec<Tr, Tb, Tc>,
    k_ac: ContKleisliSpec<Tr, Ta, Tc>,
)
    requires
        cont_monotone(m),
        forall|a: Ta, mb: ContSpec<Tr, Tb>| #[trigger] k_ab.yields(a, mb) ==> cont_monotone(mb),
        forall|b: Tb, mc: ContSpec<Tr, Tc>| #[trigger] k_bc.yields(b, mc) ==> cont_monotone(mc),
        refines(k_ac, cont_arrow_bind_spec(k_ab, k_bc)),
    ensures
        refines(cont_bind_spec(m, k_ac), cont_bind_spec(cont_bind_spec(m, k_ab), k_bc)),
{
    let composed = cont_arrow_bind_spec(k_ab, k_bc);
    assert forall|a: Ta, mc: ContSpec<Tr, Tc>| #[trigger] k_ac.yields(a, mc) implies cont_monotone(
        mc,
    ) by {
        let mb = choose|mb: ContSpec<Tr, Tb>| #[trigger]
            k_ab.yields(a, mb) && mc == cont_bind_spec(mb, k_bc);
        lemma_cont_bind_monotone(mb, k_bc);
    }
    lemma_cont_bind_refines(m, k_ac, composed);
    lemma_cont_bind_associative(m, k_ab, k_bc);
}

/// Evaluating `cont_unit(a)` gives `a`.
pub proof fn lemma_cont_eval_unit<Ta: Clone>(a: Ta, r: Ta)
    requires
        exact_clone::<Ta>(),
    ensures
        cont_unit_spec::<Ta, Ta>(a).accepts(identity_spec::<Ta>()),
        cont_unit_spec::<Ta, Ta>(a).yields(identity_spec::<Ta>(), r) <==> r == a,
{
    assert(cloned(a, a));
}

/// A chain of binds is the nest of binds with the first arrow innermost:
/// binding to the arrows of `ks` and then to `k` is binding the chain over
/// `ks` to `k`.
pub proof fn lemma_cont_binds_nested<Tr, Ta>(
    m: ContSpec<Tr, Ta>,
    ks: Seq<ContKleisliSpec<Tr, Ta, Ta>>,
    k: ContKleisliSpec<Tr, Ta, Ta>,
)
    ensures
        cont_binds_spec(m, ks.push(k)) == cont_bind_spec(cont_binds_spec(m, ks), k),
    decreases ks.len(),
{
    let chain = ks.push(k);
    if ks.len() == 0 {
        assert(chain.drop_first() =~= ks);
        assert(cont_binds_spec(cont_bind_spec(m, k), ks) == cont_bind_spec(m, k));
    } else {
        assert(chain.drop_first() =~= ks.drop_first().push(k));
        lemma_cont_binds_nested(cont_bind_spec(m, ks[0]), ks.drop_first(), k);
    }
}

} // verus!
