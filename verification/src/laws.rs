//! The laws of the tree operations, stated and proved once for every
//! tree: how growth passes compose, that rotations cancel exactly, and
//! how the draw list relates to the tree's shape.

use vstd::prelude::*;
use crate::branch::Branch;

verus! {

/// A growth pass lengthens the left spine by exactly one node.
pub proof fn lemma_grow_shape_spine(o: Branch, n: Branch)
    requires
        Branch::grow_shape(o, n),
    ensures
        n.left_spine_len() == o.left_spine_len() + 1,
    decreases o,
{
    match o.left {
        Some(ol) => lemma_grow_shape_spine(*ol, *n.left.unwrap()),
        None => {
            assert(n.left.unwrap().left_spine_len() == 1);
        },
    }
}

/// A growth pass keeps every field bound in step: depths rise by at most
/// one, stroke weights by exactly three tenths, and cumulative angles
/// stay within two milliradian-thousandths of the old band.
pub proof fn lemma_grow_shape_bounds(o: Branch, n: Branch, dmax: int, wmax: int, lo: int, hi: int)
    requires
        Branch::grow_shape(o, n),
        o.depth_below(dmax),
        o.weight_below(wmax),
        o.accum_within(lo, hi),
    ensures
        n.depth_below(dmax + 1),
        n.weight_below(wmax + 3),
        n.accum_within(lo - 2000, hi + 2000),
    decreases o,
{
    match o.left {
        Some(ol) => lemma_grow_shape_bounds(*ol, *n.left.unwrap(), dmax, wmax, lo, hi),
        None => {
            assert(n.left.unwrap().depth_below(dmax + 1));
            assert(n.left.unwrap().weight_below(wmax + 3));
            assert(n.left.unwrap().accum_within(lo - 2000, hi + 2000));
        },
    }
    match o.right {
        Some(or) => lemma_grow_shape_bounds(*or, *n.right.unwrap(), dmax, wmax, lo, hi),
        None => {
            if n.right is Some {
                assert(n.right.unwrap().depth_below(dmax + 1));
                assert(n.right.unwrap().weight_below(wmax + 3));
                assert(n.right.unwrap().accum_within(lo - 2000, hi + 2000));
            }
        },
    }
}

/// Bounds on depth, weight and cumulative angle give a tree the headroom
/// that one growth pass needs.
pub proof fn lemma_grow_ready_from_bounds(t: Branch, dmax: int, wmax: int, lo: int, hi: int)
    requires
        t.depth_below(dmax),
        t.weight_below(wmax),
        t.accum_within(lo, hi),
        dmax < crate::branch::DEPTH_CAP,
        wmax + 3 <= u64::MAX,
        i64::MIN + 2000 <= lo,
        hi <= i64::MAX - 2000,
    ensures
        t.grow_ready(),
    decreases t,
{
    match t.left {
        Some(l) => lemma_grow_ready_from_bounds(*l, dmax, wmax, lo, hi),
        None => {
        },
    }
    match t.right {
        Some(r) => lemma_grow_ready_from_bounds(*r, dmax, wmax, lo, hi),
        None => {
        },
    }
}

/// A sequence of trees where each is one growth pass from the previous.
pub open spec fn grow_chain(ts: Seq<Branch>) -> bool {
    forall|i: int|
        0 <= i && i + 1 < ts.len() ==> #[trigger] Branch::grow_shape(ts[i], ts[i + 1])
}

/// After `i` growth passes, the left spine has gained exactly `i` nodes
/// and the root exactly `3 * i` tenths of stroke weight.
pub proof fn lemma_grow_chain(ts: Seq<Branch>, i: int)
    requires
        grow_chain(ts),
        0 <= i < ts.len(),
    ensures
        ts[i].left_spine_len() == ts[0].left_spine_len() + i,
        ts[i].weight == ts[0].weight + 3 * i,
    decreases i,
{
    if i > 0 {
        let j = i - 1;
        lemma_grow_chain(ts, j);
        assert(Branch::grow_shape(ts[j], ts[j + 1]));
        lemma_grow_shape_spine(ts[j], ts[i]);
    }
}

/// Growth passes applied to a fresh root: after `i` of them the left
/// spine holds exactly `i + 1` nodes, the root included, and the root's
/// stroke weight is exactly `3 + 3 * i` tenths.
pub proof fn lemma_grow_chain_from_root(ts: Seq<Branch>, i: int)
    requires
        grow_chain(ts),
        0 <= i < ts.len(),
        ts[0].left is None,
        ts[0].weight == 3,
    ensures
        ts[i].left_spine_len() == i + 1,
        ts[i].weight == 3 + 3 * i,
{
    lemma_grow_chain(ts, i);
    assert(ts[0].left_spine_len() == 1);
}

/// Rotations compose additively: rotating by `d1` and then by `d2` is
/// one rotation by `d1 + d2`.
pub proof fn lemma_rotated_additive(t0: Branch, t1: Branch, t2: Branch, d1: int, d2: int)
    requires
        Branch::rotated(t0, t1, d1),
        Branch::rotated(t1, t2, d2),
    ensures
        Branch::rotated(t0, t2, d1 + d2),
    decreases t0,
{
    match t0.left {
        Some(l0) => lemma_rotated_additive(*l0, *t1.left.unwrap(), *t2.left.unwrap(), d1, d2),
        None => {
        },
    }
    match t0.right {
        Some(r0) => lemma_rotated_additive(*r0, *t1.right.unwrap(), *t2.right.unwrap(), d1, d2),
        None => {
        },
    }
}

/// A rotation by zero changes nothing.
pub proof fn lemma_rotated_zero(t0: Branch, t1: Branch)
    requires
        Branch::rotated(t0, t1, 0),
    ensures
        t1 == t0,
    decreases t0,
{
    match t0.left {
        Some(l0) => lemma_rotated_zero(*l0, *t1.left.unwrap()),
        None => {
        },
    }
    match t0.right {
        Some(r0) => lemma_rotated_zero(*r0, *t1.right.unwrap()),
        None => {
        },
    }
}

/// Rotating by `d` and then by `-d` restores every node's cumulative
/// angle exactly: the round trip is the identity.
pub proof fn lemma_rotate_round_trip(t0: Branch, t1: Branch, t2: Branch, d: int)
    requires
        Branch::rotated(t0, t1, d),
        Branch::rotated(t1, t2, -d),
    ensures
        t2 == t0,
{
    lemma_rotated_additive(t0, t1, t2, d, -d);
    lemma_rotated_zero(t0, t2);
}

/// A rotation preserves well-formedness: it touches only the cumulative
/// angles, which well-formedness does not constrain.
pub proof fn lemma_rotated_wf(o: Branch, n: Branch, d: int)
    requires
        o.wf(),
        Branch::rotated(o, n, d),
    ensures
        n.wf(),
    decreases o,
{
    match o.left {
        Some(l) => lemma_rotated_wf(*l, *n.left.unwrap(), d),
        None => {
        },
    }
    match o.right {
        Some(r) => lemma_rotated_wf(*r, *n.right.unwrap(), d),
        None => {
        },
    }
}

/// A tree has at least as many nodes as its left spine, so a draw list
/// is at least as long as the left spine.
pub proof fn lemma_count_ge_spine(t: Branch)
    ensures
        t.node_count() >= t.left_spine_len(),
    decreases t,
{
    match t.left {
        Some(l) => lemma_count_ge_spine(*l),
        None => {
        },
    }
}

} // verus!
