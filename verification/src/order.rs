//! The draw orderer.
//!
//! Bones are issued to the renderer in ascending z-index order, so a
//! higher z-index draws later and lands on top. The sort is stable:
//! bones with equal z-index keep their original relative order, which
//! keeps the image deterministic from frame to frame. Stability is
//! captured by sorting on the pair (z-index, original index): the
//! output is strictly increasing in that lexicographic key.

use vstd::prelude::*;
use crate::model::PoseBone;

verus! {

/// Strict lexicographic order on (z-index, original index).
pub open spec fn z_before(pose: Seq<PoseBone>, a: int, b: int) -> bool {
    ||| pose[a].zindex.v() < pose[b].zindex.v()
    ||| (pose[a].zindex.v() == pose[b].zindex.v() && a < b)
}

/// The index `v` occurs somewhere in the order.
pub open spec fn appears(ord: Seq<usize>, v: int) -> bool {
    exists|i: int| 0 <= i < ord.len() && (#[trigger] ord[i]) == v
}

/// A draw order: every bone index once, ascending by z-index, original
/// order kept among equal z-indexes.
pub open spec fn is_draw_order(pose: Seq<PoseBone>, ord: Seq<usize>) -> bool {
    &&& ord.len() == pose.len()
    &&& forall|i: int| 0 <= i < ord.len() ==> (#[trigger] ord[i]) < pose.len()
    &&& forall|i: int, j: int|
        0 <= i < j < ord.len() ==> z_before(pose, #[trigger] ord[i] as int, #[trigger] ord[j] as int)
    &&& forall|v: int| 0 <= v < pose.len() ==> #[trigger] appears(ord, v)
}

/// Sort the bones of a pose into draw order.
pub fn draw_order(pose: &Vec<PoseBone>) -> (r: Vec<usize>)
    ensures
        is_draw_order(pose@, r@),
{
    let n = pose.len();
    let mut out: Vec<usize> = Vec::new();
    for b in 0..n
        invariant
            n == pose@.len(),
            out@.len() == b,
            forall|i: int| 0 <= i < out@.len() ==> (#[trigger] out@[i]) < b,
            forall|i: int, j: int|
                0 <= i < j < out@.len()
                    ==> z_before(pose@, #[trigger] out@[i] as int, #[trigger] out@[j] as int),
            forall|v: int| 0 <= v < b ==> #[trigger] appears(out@, v),
    {
        let ghost before = out@;
        let mut pos: usize = 0;
        while pos < out.len() && pose[out[pos]].zindex.le(pose[b].zindex)
            invariant
                out@ == before,
                pos <= out@.len(),
                n == pose@.len(),
                b < n,
                forall|i: int| 0 <= i < out@.len() ==> (#[trigger] out@[i]) < b,
                forall|i: int| 0 <= i < pos
                    ==> pose@[#[trigger] out@[i] as int].zindex.v() <= pose@[b as int].zindex.v(),
            decreases out@.len() - pos,
        {
            pos = pos + 1;
        }
        proof {
            if pos < out@.len() {
                assert(pose@[out@[pos as int] as int].zindex.v() > pose@[b as int].zindex.v());
            }
        }
        out.insert(pos, b);
        proof {
            let after = before.insert(pos as int, b);
            assert(out@ == after);
            assert forall|i: int, j: int| 0 <= i < j < after.len()
                implies z_before(pose@, #[trigger] after[i] as int, #[trigger] after[j] as int)
            by {
                if i < pos && j == pos {
                    assert(after[i] == before[i]);
                } else if i == pos && j > pos {
                    assert(after[j] == before[j - 1]);
                } else if j < pos {
                    assert(after[i] == before[i] && after[j] == before[j]);
                } else if i > pos {
                    assert(after[i] == before[i - 1] && after[j] == before[j - 1]);
                } else if i < pos && j > pos {
                    assert(after[i] == before[i] && after[j] == before[j - 1]);
                }
            }
            assert forall|v: int| 0 <= v < b + 1 implies #[trigger] appears(after, v) by {
                if v == b {
                    assert(after[pos as int] == b);
                } else {
                    assert(appears(before, v));
                    let i0 = choose|i: int| 0 <= i < before.len() && (#[trigger] before[i]) == v;
                    assert(0 <= i0 < before.len() && before[i0] == v);
                    if i0 < pos {
                        assert(after[i0] == before[i0]);
                    } else {
                        assert(after[i0 + 1] == before[i0]);
                    }
                }
            }
        }
    }
    out
}

/// The draw order of a pose is unique: any two sequences that both
/// satisfy `is_draw_order` are equal, so sorting is as deterministic as
/// the rest of the pipeline.
pub proof fn lemma_draw_order_unique(pose: Seq<PoseBone>, a: Seq<usize>, b: Seq<usize>)
    requires
        is_draw_order(pose, a),
        is_draw_order(pose, b),
    ensures
        a =~= b,
{
    assert forall|k: int| 0 <= k < a.len() implies a[k] == b[k] by {
        lemma_orders_agree(pose, a, b, k);
    }
}

/// Helper: two draw orders agree at every position. Strong induction on
/// the position: below the first disagreement, a value sitting earlier
/// in one order than the other would break strict sortedness.
proof fn lemma_orders_agree(pose: Seq<PoseBone>, a: Seq<usize>, b: Seq<usize>, k: int)
    requires
        is_draw_order(pose, a),
        is_draw_order(pose, b),
        0 <= k < a.len(),
    ensures
        a[k] == b[k],
    decreases k,
{
    assert forall|i: int| 0 <= i < k implies a[i] == b[i] by {
        lemma_orders_agree(pose, a, b, i);
    }
    if a[k] != b[k] {
        assert(appears(b, a[k] as int));
        let j = choose|j: int| 0 <= j < b.len() && (#[trigger] b[j]) == a[k] as int;
        assert(b[j] == a[k]);
        if j < k {
            assert(a[j] == b[j]);
            assert(z_before(pose, a[j] as int, a[k] as int));
        } else {
            assert(j > k);
            assert(appears(a, b[k] as int));
            let i = choose|i: int| 0 <= i < a.len() && (#[trigger] a[i]) == b[k] as int;
            assert(a[i] == b[k]);
            if i < k {
                assert(b[i] == a[i]);
                assert(z_before(pose, b[i] as int, b[k] as int));
            } else {
                assert(i > k);
                assert(z_before(pose, a[k] as int, a[i] as int));
                assert(z_before(pose, b[k] as int, b[j] as int));
            }
        }
    }
}

} // verus!
