//! The functor and monad laws of Reader computations.

use super::function::{
    lemma_and_then_associative, lemma_and_then_identity, lemma_behavior_equal,
};
use crate::monads::function::{and_then_spec, exact_clone, identity_spec, refines, Behavior};
use crate::monads::reader::{
    reader_arrow_at_spec, reader_bind_spec, reader_binds_spec, reader_fmap_spec, reader_unit_spec,
    ReaderKleisliSpec, ReaderSpec,
};
use vstd::prelude::*;

verus! {

/// The model of `reader_unit` as an arrow.
pub open spec fn reader_unit_arrow_spec<Tcfg, Ta: Clone>() -> ReaderKleisliSpec<Tcfg, Ta, Ta> {
    Behavior {
        pre: |a: Ta| true,
        post: |a: Ta, m: ReaderSpec<Tcfg, Ta>| m == reader_unit_spec::<Tcfg, Ta>(a),
    }
}

/// The model of the arrow that calls `k_ab` and binds what comes back to
/// `k_bc`.
pub open spec fn reader_arrow_bind_spec<Tcfg: Clone, Ta, Tb, Tc>(
    k_ab: ReaderKleisliSpec<Tcfg, Ta, Tb>,
    k_bc: ReaderKleisliSpec<Tcfg, Tb, Tc>,
) -> ReaderKleisliSpec<Tcfg, Ta, Tc> {
    Behavior {
        pre: |a: Ta| k_ab.accepts(a),
        post: |a: Ta, mc: ReaderSpec<Tcfg, Tc>|
            exists|mb: ReaderSpec<Tcfg, Tb>| #[trigger]
                k_ab.yields(a, mb) && mc == reader_bind_spec(mb, k_bc),
    }
}

/// Functor law: mapping the identity function changes nothing.
pub proof fn lemma_reader_fmap_identity<Tcfg, Ta>(m: ReaderSpec<Tcfg, Ta>)
    ensures
        reader_fmap_spec(identity_spec::<Ta>(), m) == m,
{
    lemma_and_then_identity(m);
}

/// Functor law: mapping `g` and then `f` is mapping their composition.
pub proof fn lemma_reader_fmap_composition<Tcfg, Ta, Tb, Tc>(
    f: Behavior<Tb, Tc>,
    g: Behavior<Ta, Tb>,
    m: ReaderSpec<Tcfg, Ta>,
)
    ensures
        reader_fmap_spec(and_then_spec(g, f), m) == reader_fmap_spec(f, reader_fmap_spec(g, m)),
{
    lemma_and_then_associative(m, g, f);
}

/// Where cloning an environment gives it back, `reader_bind(ma, k_ab)`
/// accepts `cfg` where `ma` does and whatever follows accepts it too.
proof fn lemma_reader_bind_accepts<Tcfg: Clone, Ta, Tb>(
    ma: ReaderSpec<Tcfg, Ta>,
    k_ab: ReaderKleisliSpec<Tcfg, Ta, Tb>,
    cfg: Tcfg,
)
    requires
        exact_clone::<Tcfg>(),
    ensures
        reader_bind_spec(ma, k_ab).accepts(cfg) <==> ma.accepts(cfg) && forall|a: Ta| #[trigger]
            ma.yields(cfg, a) ==> reader_arrow_at_spec(k_ab, a).accepts(cfg),
{
    assert(cloned(cfg, cfg));
}

/// Environment sharing: where cloning an environment gives it back,
/// `reader_bind(ma, k_ab)` on `cfg` runs `ma` on `cfg` and the Reader that
/// `k_ab` returns on that same `cfg`.
pub proof fn lemma_reader_bind_shares_environment<Tcfg: Clone, Ta, Tb>(
    ma: ReaderSpec<Tcfg, Ta>,
    k_ab: ReaderKleisliSpec<Tcfg, Ta, Tb>,
    cfg: Tcfg,
    b: Tb,
)
    requires
        exact_clone::<Tcfg>(),
    ensures
        reader_bind_spec(ma, k_ab).accepts(cfg) <==> ma.accepts(cfg) && forall|a: Ta| #[trigger]
            ma.yields(cfg, a) ==> reader_arrow_at_spec(k_ab, a).accepts(cfg),
        reader_bind_spec(ma, k_ab).yields(cfg, b) <==> exists|a: Ta| #[trigger]
            ma.yields(cfg, a) && reader_arrow_at_spec(k_ab, a).yields(cfg, b),
{
    assert(cloned(cfg, cfg));
    let bound = reader_bind_spec(ma, k_ab);
    if bound.yields(cfg, b) {
        let (c, a) = choose|c: Tcfg, a: Ta|
            cloned(cfg, c) && #[trigger] ma.yields(c, a) && reader_arrow_at_spec(k_ab, a).yields(
                cfg,
                b,
            );
    }
}

/// Left identity: binding `reader_unit(a)` to an arrow is calling the arrow
/// on `a`.
pub proof fn lemma_reader_left_identity<Tcfg: Clone, Ta: Clone, Tb>(
    a: Ta,
    k_ab: ReaderKleisliSpec<Tcfg, Ta, Tb>,
)
    requires
        exact_clone::<Ta>(),
    ensures
        reader_bind_spec(reader_unit_spec::<Tcfg, Ta>(a), k_ab) == reader_arrow_at_spec(k_ab, a),
{
    let unit = reader_unit_spec::<Tcfg, Ta>(a);
    let left = reader_bind_spec(unit, k_ab);
    let right = reader_arrow_at_spec(k_ab, a);
    assert forall|cfg: Tcfg| #[trigger] left.accepts(cfg) == right.accepts(cfg) by {
        assert(cloned(cfg, cfg));
        assert(unit.yields(cfg, a));
    }
    assert forall|cfg: Tcfg, b: Tb| #[trigger] left.yields(cfg, b) == right.yields(cfg, b) by {
        assert(unit.yields(cfg, a));
    }
    lemma_behavior_equal(left, right);
}

/// Right identity: binding a Reader to `reader_unit` changes nothing.
pub proof fn lemma_reader_right_identity<Tcfg: Clone, Ta: Clone>(m: ReaderSpec<Tcfg, Ta>)
    requires
        exact_clone::<Tcfg>(),
        exact_clone::<Ta>(),
    ensures
        reader_bind_spec(m, reader_unit_arrow_spec::<Tcfg, Ta>()) == m,
{
    let unit = reader_unit_arrow_spec::<Tcfg, Ta>();
    let bound = reader_bind_spec(m, unit);
    assert forall|cfg: Tcfg| #[trigger] bound.accepts(cfg) == m.accepts(cfg) by {
        assert(cloned(cfg, cfg));
        if m.accepts(cfg) {
            assert forall|c: Tcfg| #[trigger] cloned(cfg, c) implies m.accepts(c) && forall|a: Ta|
                #[trigger] m.yields(c, a) ==> reader_arrow_at_spec(unit, a).accepts(cfg) by {
                assert forall|a: Ta| #[trigger] m.yields(c, a) implies reader_arrow_at_spec(
                    unit,
                    a,
                ).accepts(cfg) by {
                    assert(forall|mb: ReaderSpec<Tcfg, Ta>| #[trigger]
                        unit.yields(a, mb) ==> mb.accepts(cfg));
                }
            }
        }
    }
    assert forall|cfg: Tcfg, x: Ta| #[trigger] bound.yields(cfg, x) == m.yields(cfg, x) by {
        if bound.yields(cfg, x) {
            let (c, a) = choose|c: Tcfg, a: Ta|
                cloned(cfg, c) && #[trigger] m.yields(c, a) && reader_arrow_at_spec(
                    unit,
                    a,
                ).yields(cfg, x);
            let mb = choose|mb: ReaderSpec<Tcfg, Ta>| #[trigger]
                unit.yields(a, mb) && mb.yields(cfg, x);
        }
        if m.yields(cfg, x) {
            let mb = reader_unit_spec::<Tcfg, Ta>(x);
            assert(unit.yields(x, mb));
        }
    }
    lemma_behavior_equal(bound, m);
}

/// Associativity: binding to `k_ab` and then to `k_bc` is binding to the
/// arrow that calls `k_ab` and binds what comes back to `k_bc`.
pub proof fn lemma_reader_bind_associative<Tcfg: Clone, Ta, Tb, Tc>(
    m: ReaderSpec<Tcfg, Ta>,
    k_ab: ReaderKleisliSpec<Tcfg, Ta, Tb>,
    k_bc: ReaderKleisliSpec<Tcfg, Tb, Tc>,
)
    requires
        exact_clone::<Tcfg>(),
    ensures
        reader_bind_spec(reader_bind_spec(m, k_ab), k_bc) == reader_bind_spec(
            m,
            reader_arrow_bind_spec(k_ab, k_bc),
        ),
{
    let k_ac = reader_arrow_bind_spec(k_ab, k_bc);
    let inner = reader_bind_spec(m, k_ab);
    let left = reader_bind_spec(inner, k_bc);
    let right = reader_bind_spec(m, k_ac);
    assert forall|cfg: Tcfg| #[trigger] left.accepts(cfg) == right.accepts(cfg) by {
        lemma_reader_bind_accepts(inner, k_bc, cfg);
        lemma_reader_bind_accepts(m, k_ac, cfg);
        lemma_reader_bind_accepts(m, k_ab, cfg);
        if left.accepts(cfg) {
            assert forall|a: Ta| #[trigger] m.yields(cfg, a) implies reader_arrow_at_spec(
                k_ac,
                a,
            ).accepts(cfg) by {
                assert forall|mc: ReaderSpec<Tcfg, Tc>| #[trigger]
                    k_ac.yields(a, mc) implies mc.accepts(cfg) by {
                    let mb = choose|mb: ReaderSpec<Tcfg, Tb>| #[trigger]
                        k_ab.yields(a, mb) && mc == reader_bind_spec(mb, k_bc);
                    lemma_reader_bind_accepts(mb, k_bc, cfg);
                    assert forall|b: Tb| #[trigger] mb.yields(cfg, b) implies reader_arrow_at_spec(
                        k_bc,
                        b,
                    ).accepts(cfg) by {
                        lemma_reader_bind_shares_environment(m, k_ab, cfg, b);
                    }
                }
            }
        }
        if right.accepts(cfg) {
            assert forall|a: Ta| #[trigger] m.yields(cfg, a) implies reader_arrow_at_spec(
                k_ab,
                a,
            ).accepts(cfg) by {
                assert forall|mb: ReaderSpec<Tcfg, Tb>| #[trigger]
                    k_ab.yields(a, mb) implies mb.accepts(cfg) by {
                    let mc = reader_bind_spec(mb, k_bc);
                    assert(k_ac.yields(a, mc));
                    lemma_reader_bind_accepts(mb, k_bc, cfg);
                }
            }
            assert forall|b: Tb| #[trigger] inner.yields(cfg, b) implies reader_arrow_at_spec(
                k_bc,
                b,
            ).accepts(cfg) by {
                lemma_reader_bind_shares_environment(m, k_ab, cfg, b);
                let a = choose|a: Ta| #[trigger]
                    m.yields(cfg, a) && reader_arrow_at_spec(k_ab, a).yields(cfg, b);
                let mb = choose|mb: ReaderSpec<Tcfg, Tb>| #[trigger]
                    k_ab.yields(a, mb) && mb.yields(cfg, b);
                let mc = reader_bind_spec(mb, k_bc);
                assert(k_ac.yields(a, mc));
                lemma_reader_bind_accepts(mb, k_bc, cfg);
            }
        }
    }
    assert forall|cfg: Tcfg, x: Tc| #[trigger] left.yields(cfg, x) == right.yields(cfg, x) by {
        lemma_reader_bind_shares_environment(inner, k_bc, cfg, x);
        lemma_reader_bind_shares_environment(m, k_ac, cfg, x);
        if left.yields(cfg, x) {
            let b = choose|b: Tb| #[trigger]
                inner.yields(cfg, b) && reader_arrow_at_spec(k_bc, b).yields(cfg, x);
            lemma_reader_bind_shares_environment(m, k_ab, cfg, b);
            let a = choose|a: Ta| #[trigger]
                m.yields(cfg, a) && reader_arrow_at_spec(k_ab, a).yields(cfg, b);
            let mb = choose|mb: ReaderSpec<Tcfg, Tb>| #[trigger]
                k_ab.yields(a, mb) && mb.yields(cfg, b);
            let mc = reader_bind_spec(mb, k_bc);
            assert(k_ac.yields(a, mc));
            lemma_reader_bind_shares_environment(mb, k_bc, cfg, x);
        }
        if right.yields(cfg, x) {
            let a = choose|a: Ta| #[trigger]
                m.yields(cfg, a) && reader_arrow_at_spec(k_ac, a).yields(cfg, x);
            let mc = choose|mc: ReaderSpec<Tcfg, Tc>| #[trigger]
                k_ac.yields(a, mc) && mc.yields(cfg, x);
            let mb = choose|mb: ReaderSpec<Tcfg, Tb>| #[trigger]
                k_ab.yields(a, mb) && mc == reader_bind_spec(mb, k_bc);
            lemma_reader_bind_shares_environment(mb, k_bc, cfg, x);
            let b = choose|b: Tb| #[trigger]
                mb.yields(cfg, b) && reader_arrow_at_spec(k_bc, b).yields(cfg, x);
            lemma_reader_bind_shares_environment(m, k_ab, cfg, b);
        }
    }
    lemma_behavior_equal(left, right);
}

/// Binding keeps what stands in for what: where the arrow `k` can stand in
/// for the arrow `k2`, binding `m` to `k` can stand in for binding `m` to
/// `k2`.
pub proof fn lemma_reader_bind_refines<Tcfg: Clone, Ta, Tb>(
    m: ReaderSpec<Tcfg, Ta>,
    k: ReaderKleisliSpec<Tcfg, Ta, Tb>,
    k2: ReaderKleisliSpec<Tcfg, Ta, Tb>,
)
    requires
        refines(k, k2),
    ensures
        refines(reader_bind_spec(m, k), reader_bind_spec(m, k2)),
{
    let bound = reader_bind_spec(m, k);
    let bound2 = reader_bind_spec(m, k2);
    assert forall|cfg: Tcfg| #[trigger] bound2.accepts(cfg) implies bound.accepts(cfg) by {
        assert forall|c: Tcfg| #[trigger] cloned(cfg, c) implies m.accepts(c) && forall|a: Ta|
            #[trigger] m.yields(c, a) ==> reader_arrow_at_spec(k, a).accepts(cfg) by {
            assert forall|a: Ta| #[trigger] m.yields(c, a) implies reader_arrow_at_spec(
                k,
                a,
            ).accepts(cfg) by {
                assert forall|mb: ReaderSpec<Tcfg, Tb>| #[trigger]
                    k.yields(a, mb) implies mb.accepts(cfg) by {}
            }
        }
    }
    assert forall|cfg: Tcfg, b: Tb| #[trigger] bound.yields(cfg, b) implies bound2.yields(
        cfg,
        b,
    ) by {
        let (c, a) = choose|c: Tcfg, a: Ta|
            cloned(cfg, c) && #[trigger] m.yields(c, a) && reader_arrow_at_spec(k, a).yields(
                cfg,
                b,
            );
        let mb = choose|mb: ReaderSpec<Tcfg, Tb>| #[trigger] k.yields(a, mb) && mb.yields(cfg, b);
    }
}

/// Right identity, for an arrow of which only its contract is known: where
/// `k` accepts every value and returns nothing but `reader_unit` of its
/// argument, binding `m` to `k` accepts the environments that `m` accepts
/// and yields only what `m` yields.
pub proof fn lemma_reader_right_identity_run<Tcfg: Clone, Ta: Clone>(
    m: ReaderSpec<Tcfg, Ta>,
    k: ReaderKleisliSpec<Tcfg, Ta, Ta>,
)
    requires
        exact_clone::<Tcfg>(),
        exact_clone::<Ta>(),
        forall|a: Ta| #[trigger] k.accepts(a),
        forall|a: Ta, mb: ReaderSpec<Tcfg, Ta>| #[trigger]
            k.yields(a, mb) ==> mb == reader_unit_spec::<Tcfg, Ta>(a),
    ensures
        refines(reader_bind_spec(m, k), m),
{
    lemma_reader_bind_refines(m, k, reader_unit_arrow_spec::<Tcfg, Ta>());
    lemma_reader_right_identity(m);
}

/// Associativity, for an arrow of which only its contract is known: where
/// `k_ac` accepts what `k_ab` accepts and returns nothing but what `k_ab`
/// returned, bound to `k_bc`, binding `m` to `k_ac` can stand in for binding
/// `m` to `k_ab` and then to `k_bc`.
pub proof fn lemma_reader_bind_associative_run<Tcfg: Clone, Ta, Tb, Tc>(
    m: ReaderSpec<Tcfg, Ta>,
    k_ab: ReaderKleisliSpec<Tcfg, Ta, Tb>,
    k_bc: ReaderKleisliSpec<Tcfg, Tb, Tc>,
    k_ac: ReaderKleisliSpec<Tcfg, Ta, Tc>,
)
    requires
        exact_clone::<Tcfg>(),
        forall|a: Ta| #[trigger] k_ab.accepts(a) ==> k_ac.accepts(a),
        forall|a: Ta, mc: ReaderSpec<Tcfg, Tc>| #[trigger]
            k_ac.yields(a, mc) ==> exists|mb: ReaderSpec<Tcfg, Tb>| #[trigger]
                k_ab.yields(a, mb) && mc == reader_bind_spec(mb, k_bc),
    ensures
        refines(reader_bind_spec(m, k_ac), reader_bind_spec(reader_bind_spec(m, k_ab), k_bc)),
{
    lemma_reader_bind_refines(m, k_ac, reader_arrow_bind_spec(k_ab, k_bc));
    lemma_reader_bind_associative(m, k_ab, k_bc);
}

/// A chain of binds is the nest of binds with the first arrow innermost:
/// binding to the arrows of `ks` and then to `k` is binding the chain over
/// `ks` to `k`.
pub proof fn lemma_reader_binds_nested<Tcfg: Clone, Ta>(
    m: ReaderSpec<Tcfg, Ta>,
    ks: Seq<ReaderKleisliSpec<Tcfg, Ta, Ta>>,
    k: ReaderKleisliSpec<Tcfg, Ta, Ta>,
)
    ensures
        reader_binds_spec(m, ks.push(k)) == reader_bind_spec(reader_binds_spec(m, ks), k),
    decreases ks.len(),
{
    let chain = ks.push(k);
    if ks.len() == 0 {
        assert(chain.drop_first() =~= ks);
        assert(reader_binds_spec(reader_bind_spec(m, k), ks) == reader_bind_spec(m, k));
    } else {
        assert(chain.drop_first() =~= ks.drop_first().push(k));
        lemma_reader_binds_nested(reader_bind_spec(m, ks[0]), ks.drop_first(), k);
    }
}

} // verus!
