//! The functor and monad laws of State computations.

use super::function::lemma_behavior_equal;
use crate::monads::function::{and_then_spec, identity_spec, refines, Behavior};
use crate::monads::state::{
    state_arrow_at_spec, state_bind_spec, state_binds_spec, state_fmap_spec, state_unit_spec,
    StateKleisliSpec, StateSpec,
};
use vstd::prelude::*;

verus! {

/// The model of `state_unit` as an arrow.
pub open spec fn state_unit_arrow_spec<Ts, Ta>() -> StateKleisliSpec<Ts, Ta, Ta> {
    Behavior {
        pre: |a: Ta| true,
        post: |a: Ta, m: StateSpec<Ts, Ta>| m == state_unit_spec::<Ts, Ta>(a),
    }
}

/// The model of the arrow that calls `k_ab` and binds what comes back to
/// `k_bc`.
pub open spec fn state_arrow_bind_spec<Ts, Ta, Tb, Tc>(
    k_ab: StateKleisliSpec<Ts, Ta, Tb>,
    k_bc: StateKleisliSpec<Ts, Tb, Tc>,
) -> StateKleisliSpec<Ts, Ta, Tc> {
    Behavior {
        pre: |a: Ta| k_ab.accepts(a),
        post: |a: Ta, mc: StateSpec<Ts, Tc>|
            exists|mb: StateSpec<Ts, Tb>| #[trigger]
                k_ab.yields(a, mb) && mc == state_bind_spec(mb, k_bc),
    }
}

/// Functor law: mapping the identity function changes nothing.
pub proof fn lemma_state_fmap_identity<Ts, Ta>(m: StateSpec<Ts, Ta>)
    ensures
        state_fmap_spec(identity_spec::<Ta>(), m) == m,
{
    let mapped = state_fmap_spec(identity_spec::<Ta>(), m);
    assert forall|s: Ts| #[trigger] mapped.accepts(s) == m.accepts(s) by {}
    assert forall|s: Ts, r: (Ta, Ts)| #[trigger] mapped.yields(s, r) == m.yields(s, r) by {
        if mapped.yields(s, r) {
            let p = choose|p: (Ta, Ts)| #[trigger]
                m.yields(s, p) && identity_spec::<Ta>().yields(p.0, r.0) && r.1 == p.1;
        }
    }
    lemma_behavior_equal(mapped, m);
}

/// Functor law: mapping `g` and then `f` is mapping their composition.
pub proof fn lemma_state_fmap_composition<Ts, Ta, Tb, Tc>(
    f: Behavior<Tb, Tc>,
    g: Behavior<Ta, Tb>,
    m: StateSpec<Ts, Ta>,
)
    ensures
        state_fmap_spec(and_then_spec(g, f), m) == state_fmap_spec(f, state_fmap_spec(g, m)),
{
    let gf = and_then_spec(g, f);
    let inner = state_fmap_spec(g, m);
    let left = state_fmap_spec(gf, m);
    let right = state_fmap_spec(f, inner);
    assert forall|s: Ts| #[trigger] left.accepts(s) == right.accepts(s) by {
        if left.accepts(s) {
            assert forall|q: (Tb, Ts)| #[trigger] inner.yields(s, q) implies f.accepts(q.0) by {
                let p = choose|p: (Ta, Ts)| #[trigger]
                    m.yields(s, p) && g.yields(p.0, q.0) && q.1 == p.1;
            }
            assert forall|p: (Ta, Ts)| #[trigger] m.yields(s, p) implies g.accepts(p.0) by {}
        }
        if right.accepts(s) {
            assert forall|p: (Ta, Ts)| #[trigger] m.yields(s, p) implies gf.accepts(p.0) by {
                assert forall|b: Tb| #[trigger] g.yields(p.0, b) implies f.accepts(b) by {
                    assert(inner.yields(s, (b, p.1)));
                }
            }
        }
    }
    assert forall|s: Ts, r: (Tc, Ts)| #[trigger] left.yields(s, r) == right.yields(s, r) by {
        if left.yields(s, r) {
            let p = choose|p: (Ta, Ts)| #[trigger]
                m.yields(s, p) && gf.yields(p.0, r.0) && r.1 == p.1;
            let b = choose|b: Tb| #[trigger] g.yields(p.0, b) && f.yields(b, r.0);
            assert(inner.yields(s, (b, p.1)));
        }
        if right.yields(s, r) {
            let q = choose|q: (Tb, Ts)| #[trigger]
                inner.yields(s, q) && f.yields(q.0, r.0) && r.1 == q.1;
            let p = choose|p: (Ta, Ts)| #[trigger]
                m.yields(s, p) && g.yields(p.0, q.0) && q.1 == p.1;
        }
    }
    lemma_behavior_equal(left, right);
}

/// Left identity: binding `state_unit(a)` to an arrow is calling the arrow
/// on `a`.
pub proof fn lemma_state_left_identity<Ts, Ta, Tb>(a: Ta, k_ab: StateKleisliSpec<Ts, Ta, Tb>)
    ensures
        state_bind_spec(state_unit_spec::<Ts, Ta>(a), k_ab) == state_arrow_at_spec(k_ab, a),
{
    let unit = state_unit_spec::<Ts, Ta>(a);
    let left = state_bind_spec(unit, k_ab);
    let right = state_arrow_at_spec(k_ab, a);
    assert forall|s: Ts| #[trigger] left.accepts(s) == right.accepts(s) by {
        assert(unit.yields(s, (a, s)));
    }
    assert forall|s: Ts, r: (Tb, Ts)| #[trigger] left.yields(s, r) == right.yields(s, r) by {
        assert(unit.yields(s, (a, s)));
    }
    lemma_behavior_equal(left, right);
}

/// Right identity: binding a State to `state_unit` changes nothing.
pub proof fn lemma_state_right_identity<Ts, Ta>(m: StateSpec<Ts, Ta>)
    ensures
        state_bind_spec(m, state_unit_arrow_spec::<Ts, Ta>()) == m,
{
    let unit = state_unit_arrow_spec::<Ts, Ta>();
    let bound = state_bind_spec(m, unit);
    assert forall|s: Ts| #[trigger] bound.accepts(s) == m.accepts(s) by {}
    assert forall|s: Ts, r: (Ta, Ts)| #[trigger] bound.yields(s, r) == m.yields(s, r) by {
        if bound.yields(s, r) {
            let p = choose|p: (Ta, Ts)| #[trigger]
                m.yields(s, p) && state_arrow_at_spec(unit, p.0).yields(p.1, r);
        }
        if m.yields(s, r) {
            let mb = state_unit_spec::<Ts, Ta>(r.0);
            assert(unit.yields(r.0, mb));
        }
    }
    lemma_behavior_equal(bound, m);
}

/// Associativity: binding to `k_ab` and then to `k_bc` is binding to the
/// arrow that calls `k_ab` and binds what comes back to `k_bc`.
pub proof fn lemma_state_bind_associative<Ts, Ta, Tb, Tc>(
    m: StateSpec<Ts, Ta>,
    k_ab: StateKleisliSpec<Ts, Ta, Tb>,
    k_bc: StateKleisliSpec<Ts, Tb, Tc>,
)
    ensures
        state_bind_spec(state_bind_spec(m, k_ab), k_bc) == state_bind_spec(
            m,
            state_arrow_bind_spec(k_ab, k_bc),
        ),
{
    let k_ac = state_arrow_bind_spec(k_ab, k_bc);
    let inner = state_bind_spec(m, k_ab);
    let left = state_bind_spec(inner, k_bc);
    let right = state_bind_spec(m, k_ac);
    assert forall|s: Ts| #[trigger] left.accepts(s) == right.accepts(s) by {
        if left.accepts(s) {
            assert forall|p: (Ta, Ts)| #[trigger] m.yields(s, p) implies state_arrow_at_spec(
                k_ac,
                p.0,
            ).accepts(p.1) by {
                assert forall|mc: StateSpec<Ts, Tc>| #[trigger]
                    k_ac.yields(p.0, mc) implies mc.accepts(p.1) by {
                    let mb = choose|mb: StateSpec<Ts, Tb>| #[trigger]
                        k_ab.yields(p.0, mb) && mc == state_bind_spec(mb, k_bc);
                    assert forall|q: (Tb, Ts)| #[trigger]
                        mb.yields(p.1, q) implies state_arrow_at_spec(k_bc, q.0).accepts(q.1) by {
                        assert(inner.yields(s, q));
                    }
                }
            }
        }
        if right.accepts(s) {
            assert forall|p: (Ta, Ts)| #[trigger] m.yields(s, p) implies state_arrow_at_spec(
                k_ab,
                p.0,
            ).accepts(p.1) by {
                assert forall|mb: StateSpec<Ts, Tb>| #[trigger]
                    k_ab.yields(p.0, mb) implies mb.accepts(p.1) by {
                    let mc = state_bind_spec(mb, k_bc);
                    assert(k_ac.yields(p.0, mc));
                }
            }
            assert forall|q: (Tb, Ts)| #[trigger] inner.yields(s, q) implies state_arrow_at_spec(
                k_bc,
                q.0,
            ).accepts(q.1) by {
                let p = choose|p: (Ta, Ts)| #[trigger]
                    m.yields(s, p) && state_arrow_at_spec(k_ab, p.0).yields(p.1, q);
                let mb = choose|mb: StateSpec<Ts, Tb>| #[trigger]
                    k_ab.yields(p.0, mb) && mb.yields(p.1, q);
                let mc = state_bind_spec(mb, k_bc);
                assert(k_ac.yields(p.0, mc));
            }
        }
    }
    assert forall|s: Ts, r: (Tc, Ts)| #[trigger] left.yields(s, r) == right.yields(s, r) by {
        if left.yields(s, r) {
            let q = choose|q: (Tb, Ts)| #[trigger]
                inner.yields(s, q) && state_arrow_at_spec(k_bc, q.0).yields(q.1, r);
            let p = choose|p: (Ta, Ts)| #[trigger]
                m.yields(s, p) && state_arrow_at_spec(k_ab, p.0).yields(p.1, q);
            let mb = choose|mb: StateSpec<Ts, Tb>| #[trigger]
                k_ab.yields(p.0, mb) && mb.yields(p.1, q);
            let mc = state_bind_spec(mb, k_bc);
            assert(k_ac.yields(p.0, mc));
        }
        if right.yields(s, r) {
            let p = choose|p: (Ta, Ts)| #[trigger]
                m.yields(s, p) && state_arrow_at_spec(k_ac, p.0).yields(p.1, r);
            let mc = choose|mc: StateSpec<Ts, Tc>| #[trigger]
                k_ac.yields(p.0, mc) && mc.yields(p.1, r);
            let mb = choose|mb: StateSpec<Ts, Tb>| #[trigger]
                k_ab.yields(p.0, mb) && mc == state_bind_spec(mb, k_bc);
            let q = choose|q: (Tb, Ts)| #[trigger]
                mb.yields(p.1, q) && state_arrow_at_spec(k_bc, q.0).yields(q.1, r);
            assert(inner.yields(s, q));
        }
    }
    lemma_behavior_equal(left, right);
}

/// Binding keeps what stands in for what: where the arrow `k` can stand in
/// for the arrow `k2`, binding `m` to `k` can stand in for binding `m` to
/// `k2`.
pub proof fn lemma_state_bind_refines<Ts, Ta, Tb>(
    m: StateSpec<Ts, Ta>,
    k: StateKleisliSpec<Ts, Ta, Tb>,
    k2: StateKleisliSpec<Ts, Ta, Tb>,
)
    requires
        refines(k, k2),
    ensures
        refines(state_bind_spec(m, k), state_bind_spec(m, k2)),
{
    let bound = state_bind_spec(m, k);
    let bound2 = state_bind_spec(m, k2);
    assert forall|s: Ts| #[trigger] bound2.accepts(s) implies bound.accepts(s) by {
        assert forall|p: (Ta, Ts)| #[trigger] m.yields(s, p) implies state_arrow_at_spec(
            k,
            p.0,
        ).accepts(p.1) by {
            assert forall|mb: StateSpec<Ts, Tb>| #[trigger] k.yields(p.0, mb) implies mb.accepts(
                p.1,
            ) by {}
        }
    }
    assert forall|s: Ts, r: (Tb, Ts)| #[trigger] bound.yields(s, r) implies bound2.yields(s, r) by {
        let p = choose|p: (Ta, Ts)| #[trigger]
            m.yields(s, p) && state_arrow_at_spec(k, p.0).yields(p.1, r);
        let mb = choose|mb: StateSpec<Ts, Tb>| #[trigger] k.yields(p.0, mb) && mb.yields(p.1, r);
    }
}

/// Right identity, for an arrow of which only its contract is known: where
/// `k` accepts every value and returns nothing but `state_unit` of its
/// argument, binding `m` to `k` accepts the states that `m` accepts and
/// yields only what `m` yields.
pub proof fn lemma_state_right_identity_run<Ts, Ta>(
    m: StateSpec<Ts, Ta>,
    k: StateKleisliSpec<Ts, Ta, Ta>,
)
    requires
        forall|a: Ta| #[trigger] k.accepts(a),
        forall|a: Ta, mb: StateSpec<Ts, Ta>| #[trigger]
            k.yields(a, mb) ==> mb == state_unit_spec::<Ts, Ta>(a),
    ensures
        refines(state_bind_spec(m, k), m),
{
    lemma_state_bind_refines(m, k, state_unit_arrow_spec::<Ts, Ta>());
    lemma_state_right_identity(m);
}

/// Associativity, for an arrow of which only its contract is known: where
/// `k_ac` accepts what `k_ab` accepts and returns nothing but what `k_ab`
/// returned, bound to `k_bc`, binding `m` to `k_ac` can stand in for binding
/// `m` to `k_ab` and then to `k_bc`.
pub proof fn lemma_state_bind_associative_run<Ts, Ta, Tb, Tc>(
    m: StateSpec<Ts, Ta>,
    k_ab: StateKleisliSpec<Ts, Ta, Tb>,
    k_bc: StateKleisliSpec<Ts, Tb, Tc>,
    k_ac: StateKleisliSpec<Ts, Ta, Tc>,
)
    requires
        forall|a: Ta| #[trigger] k_ab.accepts(a) ==> k_ac.accepts(a),
        forall|a: Ta, mc: StateSpec<Ts, Tc>| #[trigger]
            k_ac.yields(a, mc) ==> exists|mb: StateSpec<Ts, Tb>| #[trigger]
                k_ab.yields(a, mb) && mc == state_bind_spec(mb, k_bc),
    ensures
        refines(state_bind_spec(m, k_ac), state_bind_spec(state_bind_spec(m, k_ab), k_bc)),
{
    lemma_state_bind_refines(m, k_ac, state_arrow_bind_spec(k_ab, k_bc));
    lemma_state_bind_associative(m, k_ab, k_bc);
}

/// A chain of binds is the nest of binds with the first arrow innermost:
/// binding to the arrows of `ks` and then to `k` is binding the chain over
/// `ks` to `k`.
pub proof fn lemma_state_binds_nested<Ts, Ta>(
    m: StateSpec<Ts, Ta>,
    ks: Seq<StateKleisliSpec<Ts, Ta, Ta>>,
    k: StateKleisliSpec<Ts, Ta, Ta>,
)
    ensures
        state_binds_spec(m, ks.push(k)) == state_bind_spec(state_binds_spec(m, ks), k),
    decreases ks.len(),
{
    let chain = ks.push(k);
    if ks.len() == 0 {
        assert(chain.drop_first() =~= ks);
        assert(state_binds_spec(state_bind_spec(m, k), ks) == state_bind_spec(m, k));
    } else {
        assert(chain.drop_first() =~= ks.drop_first().push(k));
        lemma_state_binds_nested(state_bind_spec(m, ks[0]), ks.drop_first(), k);
    }
}

} // verus!
