//! Laws of function composition.

use crate::monads::function::{and_then_spec, identity_spec, refines, Behavior};
use vstd::prelude::*;

verus! {

/// Two behaviors that accept the same arguments and yield the same results
/// are equal.
pub proof fn lemma_behavior_equal<A, B>(f: Behavior<A, B>, g: Behavior<A, B>)
    requires
        forall|a: A| #[trigger] f.accepts(a) == g.accepts(a),
        forall|a: A, b: B| #[trigger] f.yields(a, b) == g.yields(a, b),
    ensures
        f == g,
{
    assert forall|a: A| #[trigger] (f.pre)(a) == (g.pre)(a) by {
        assert(f.accepts(a) == g.accepts(a));
    }
    assert forall|a: A, b: B| #[trigger] (f.post)(a, b) == (g.post)(a, b) by {
        assert(f.yields(a, b) == g.yields(a, b));
    }
}

/// The identity function followed by `f` behaves as `f`.
pub proof fn lemma_identity_and_then<A, B>(f: Behavior<A, B>)
    ensures
        and_then_spec(identity_spec::<A>(), f) == f,
{
    let g = and_then_spec(identity_spec::<A>(), f);
    assert forall|a: A| g.accepts(a) == f.accepts(a) by {
        assert(identity_spec::<A>().yields(a, a));
    }
    assert forall|a: A, b: B| g.yields(a, b) == f.yields(a, b) by {
        if f.yields(a, b) {
            assert(identity_spec::<A>().yields(a, a));
        }
    }
    lemma_behavior_equal(g, f);
}

/// `f` followed by the identity function behaves as `f`.
pub proof fn lemma_and_then_identity<A, B>(f: Behavior<A, B>)
    ensures
        and_then_spec(f, identity_spec::<B>()) == f,
{
    let g = and_then_spec(f, identity_spec::<B>());
    assert forall|a: A| g.accepts(a) == f.accepts(a) by {}
    assert forall|a: A, b: B| g.yields(a, b) == f.yields(a, b) by {}
    lemma_behavior_equal(g, f);
}

/// Composition is associative.
pub proof fn lemma_and_then_associative<A, B, C, D>(
    f: Behavior<A, B>,
    g: Behavior<B, C>,
    h: Behavior<C, D>,
)
    ensures
        and_then_spec(and_then_spec(f, g), h) == and_then_spec(f, and_then_spec(g, h)),
{
    let fg = and_then_spec(f, g);
    let gh = and_then_spec(g, h);
    let left = and_then_spec(fg, h);
    let right = and_then_spec(f, gh);
    assert forall|a: A| left.accepts(a) == right.accepts(a) by {
        if left.accepts(a) {
            assert forall|b: B| #[trigger] f.yields(a, b) implies gh.accepts(b) by {
                assert forall|c: C| #[trigger] g.yields(b, c) implies h.accepts(c) by {
                    assert(fg.yields(a, c));
                }
            }
        }
        if right.accepts(a) {
            assert forall|b: B| #[trigger] f.yields(a, b) implies g.accepts(b) by {}
            assert forall|c: C| #[trigger] fg.yields(a, c) implies h.accepts(c) by {
                let b = choose|b: B| #[trigger] f.yields(a, b) && g.yields(b, c);
            }
        }
    }
    assert forall|a: A, d: D| left.yields(a, d) == right.yields(a, d) by {
        if left.yields(a, d) {
            let c = choose|c: C| #[trigger] fg.yields(a, c) && h.yields(c, d);
            let b = choose|b: B| #[trigger] f.yields(a, b) && g.yields(b, c);
        }
        if right.yields(a, d) {
            let b = choose|b: B| #[trigger] f.yields(a, b) && gh.yields(b, d);
            let c = choose|c: C| #[trigger] g.yields(b, c) && h.yields(c, d);
            assert(fg.yields(a, c));
        }
    }
    lemma_behavior_equal(left, right);
}

/// Composition keeps what stands in for what: `f` followed by a function
/// that can stand in for another can stand in for `f` followed by the other.
pub proof fn lemma_and_then_refines<A, B, C>(
    f: Behavior<A, B>,
    g: Behavior<B, C>,
    g2: Behavior<B, C>,
)
    requires
        refines(g, g2),
    ensures
        refines(and_then_spec(f, g), and_then_spec(f, g2)),
{
    let fg = and_then_spec(f, g);
    let fg2 = and_then_spec(f, g2);
    assert forall|a: A| #[trigger] fg2.accepts(a) implies fg.accepts(a) by {
        assert forall|b: B| #[trigger] f.yields(a, b) implies g.accepts(b) by {}
    }
    assert forall|a: A, c: C| #[trigger] fg.yields(a, c) implies fg2.yields(a, c) by {
        let b = choose|b: B| #[trigger] f.yields(a, b) && g.yields(b, c);
    }
}

} // verus!
