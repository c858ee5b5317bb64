//! The pose blender.
//!
//! When playback switches animations, each bone carries a blend budget:
//! `total` frames to complete the transition and `remaining` frames
//! still to go. The blended value is the linear mix of the outgoing and
//! incoming values weighted by how far the countdown has come; when the
//! countdown reaches zero the incoming value holds exactly.

use vstd::prelude::*;
use crate::fx::{Fx, div_trunc, sat};
use crate::model::{FxVec, PoseBone, pose_wf};

verus! {

/// Largest accepted blend budget, in frames.
pub const MAX_BLEND: u32 = 0x10000;

/// The blended value: `prev + (target - prev) * (total - remaining) / total`,
/// in fixed point. An exhausted countdown (or an empty budget) gives the
/// target exactly.
pub open spec fn blend_spec(prev: int, target: int, remaining: int, total: int) -> int {
    if total == 0 || remaining == 0 {
        target
    } else {
        sat(prev + div_trunc((target - prev) * (total - remaining), total))
    }
}

/// Blend one fixed-point value under a blend-frame countdown.
pub fn blend_value(prev: Fx, target: Fx, remaining: u32, total: u32) -> (r: Fx)
    requires
        prev.wf(),
        target.wf(),
        remaining <= total,
        total <= MAX_BLEND,
    ensures
        r.wf(),
        r.v() == blend_spec(prev.v(), target.v(), remaining as int, total as int),
{
    if total == 0 || remaining == 0 {
        return target;
    }
    let elapsed: i64 = (total - remaining) as i64;
    let diff: i64 = target.bits - prev.bits;
    proof {
        assert(-0x2000_0000_0000_0000 <= diff * elapsed <= 0x2000_0000_0000_0000)
            by (nonlinear_arith)
            requires
                -0x1_0000_0000 <= diff <= 0x1_0000_0000,
                0 <= elapsed <= 0x10000,
        ;
    }
    let num: i64 = diff * elapsed;
    let q: i64 = if num >= 0 {
        num / (total as i64)
    } else {
        -((-num) / (total as i64))
    };
    Fx::from_bits(prev.bits + q)
}

/// What one blended bone looks like: every animated scalar mixed under
/// the same countdown; discrete fields come from the target pose.
pub open spec fn blend_bone_spec(prev: PoseBone, target: PoseBone, remaining: int, total: int)
    -> PoseBone {
    PoseBone {
        pos: FxVec {
            x: Fx { bits: blend_spec(prev.pos.x.v(), target.pos.x.v(), remaining, total) as i64 },
            y: Fx { bits: blend_spec(prev.pos.y.v(), target.pos.y.v(), remaining, total) as i64 },
        },
        rot: Fx { bits: blend_spec(prev.rot.v(), target.rot.v(), remaining, total) as i64 },
        scale: FxVec {
            x: Fx {
                bits: blend_spec(prev.scale.x.v(), target.scale.x.v(), remaining, total) as i64,
            },
            y: Fx {
                bits: blend_spec(prev.scale.y.v(), target.scale.y.v(), remaining, total) as i64,
            },
        },
        alpha: Fx { bits: blend_spec(prev.alpha.v(), target.alpha.v(), remaining, total) as i64 },
        zindex: Fx {
            bits: blend_spec(prev.zindex.v(), target.zindex.v(), remaining, total) as i64,
        },
        ..target
    }
}

/// Blend one bone's animated scalars under its countdown.
pub fn blend_bone(prev: PoseBone, target: PoseBone, remaining: u32, total: u32) -> (r: PoseBone)
    requires
        prev.wf(),
        target.wf(),
        remaining <= total,
        total <= MAX_BLEND,
    ensures
        r.wf(),
        r == blend_bone_spec(prev, target, remaining as int, total as int),
{
    let mut r = target;
    r.pos.x = blend_value(prev.pos.x, target.pos.x, remaining, total);
    r.pos.y = blend_value(prev.pos.y, target.pos.y, remaining, total);
    r.rot = blend_value(prev.rot, target.rot, remaining, total);
    r.scale.x = blend_value(prev.scale.x, target.scale.x, remaining, total);
    r.scale.y = blend_value(prev.scale.y, target.scale.y, remaining, total);
    r.alpha = blend_value(prev.alpha, target.alpha, remaining, total);
    r.zindex = blend_value(prev.zindex, target.zindex, remaining, total);
    r
}

/// What a blended pose looks like, bone by bone, each under its own
/// countdown.
pub open spec fn blend_pose_spec(
    prev: Seq<PoseBone>,
    target: Seq<PoseBone>,
    remaining: Seq<u32>,
    total: int,
) -> Seq<PoseBone> {
    Seq::new(target.len(), |i: int| blend_bone_spec(prev[i], target[i], remaining[i] as int, total))
}

/// Blend two sampled poses, each bone under its own blend countdown.
///
/// Bones finish blending independently: a bone whose countdown has
/// reached zero already sits exactly on the target pose while others
/// are still in transit.
pub fn blend_pose(prev: &Vec<PoseBone>, target: &Vec<PoseBone>, remaining: &Vec<u32>, total: u32)
    -> (r: Vec<PoseBone>)
    requires
        pose_wf(prev@),
        pose_wf(target@),
        prev@.len() == target@.len(),
        remaining@.len() == target@.len(),
        forall|i: int| 0 <= i < remaining@.len() ==> (#[trigger] remaining@[i]) <= total,
        total <= MAX_BLEND,
    ensures
        pose_wf(r@),
        r@ == blend_pose_spec(prev@, target@, remaining@, total as int),
{
    let mut out: Vec<PoseBone> = Vec::new();
    let n = target.len();
    for i in 0..n
        invariant
            n == target@.len(),
            pose_wf(prev@),
            pose_wf(target@),
            prev@.len() == n,
            remaining@.len() == n,
            forall|j: int| 0 <= j < n ==> (#[trigger] remaining@[j]) <= total,
            total <= MAX_BLEND,
            out@.len() == i,
            pose_wf(out@),
            forall|j: int| 0 <= j < i
                ==> out@[j] == blend_bone_spec(prev@[j], target@[j], remaining@[j] as int,
                    total as int),
    {
        let b = blend_bone(prev[i], target[i], remaining[i], total);
        out.push(b);
    }
    proof {
        assert(out@ =~= blend_pose_spec(prev@, target@, remaining@, total as int));
    }
    out
}

} // verus!
