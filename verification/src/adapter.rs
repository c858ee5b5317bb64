//! The coordinate adapter.
//!
//! Authored data uses the opposite vertical axis and rotation sign from
//! the render target, so on entry to the pipeline every rest pose has
//! its y position and rotation negated, and every rotation keyframe its
//! value negated — once, before sampling, so nothing is flipped twice.
//!
//! After pose resolution a caller-supplied view is applied: scale
//! multiplies positions and scales, an offset then shifts positions.
//! A negative horizontal view scale mirrors the character; a bone whose
//! final scale has exactly one negative component has its rotation sign
//! corrected so mirrored limbs still bend the right way.

use vstd::prelude::*;
use crate::fx::{Fx, fx_add_spec, fx_mul_spec};
use crate::model::{AnimElement, Bone, FxVec, Keyframe, PoseBone, pose_wf};
use crate::sampler::kfs_wf;

verus! {

/// A rest pose carried into render conventions: y position and rotation
/// negated.
pub open spec fn flip_pose_spec(p: PoseBone) -> PoseBone {
    PoseBone {
        pos: FxVec { x: p.pos.x, y: Fx { bits: -p.pos.y.v() as i64 } },
        rot: Fx { bits: -p.rot.v() as i64 },
        ..p
    }
}

/// A keyframe carried into render conventions: rotation values negated,
/// everything else kept.
pub open spec fn flip_keyframe_spec(kf: Keyframe) -> Keyframe {
    if kf.element is Rotation {
        Keyframe { value: Fx { bits: -kf.value.v() as i64 }, ..kf }
    } else {
        kf
    }
}

/// Flip every bone's rest pose into render conventions.
pub fn flip_rests(bones: &Vec<Bone>) -> (r: Vec<PoseBone>)
    requires
        forall|b: int| 0 <= b < bones@.len() ==> (#[trigger] bones@[b]).wf(),
    ensures
        r@.len() == bones@.len(),
        pose_wf(r@),
        r@ == Seq::new(bones@.len(), |b: int| flip_pose_spec(bones@[b].rest)),
{
    let n = bones.len();
    let mut out: Vec<PoseBone> = Vec::new();
    for b in 0..n
        invariant
            n == bones@.len(),
            forall|i: int| 0 <= i < n ==> (#[trigger] bones@[i]).wf(),
            out@.len() == b,
            pose_wf(out@),
            forall|i: int| 0 <= i < b ==> out@[i] == flip_pose_spec(bones@[i].rest),
    {
        let rest = bones[b].rest;
        let mut p = rest;
        p.pos.y = rest.pos.y.neg();
        p.rot = rest.rot.neg();
        out.push(p);
    }
    proof {
        assert(out@ =~= Seq::new(bones@.len(), |b: int| flip_pose_spec(bones@[b].rest)));
    }
    out
}

/// Flip an animation's keyframes into render conventions.
pub fn flip_keyframes(kfs: &Vec<Keyframe>) -> (r: Vec<Keyframe>)
    requires
        kfs_wf(kfs@),
    ensures
        r@.len() == kfs@.len(),
        kfs_wf(r@),
        r@ == Seq::new(kfs@.len(), |k: int| flip_keyframe_spec(kfs@[k])),
{
    let n = kfs.len();
    let mut out: Vec<Keyframe> = Vec::new();
    for k in 0..n
        invariant
            n == kfs@.len(),
            kfs_wf(kfs@),
            out@.len() == k,
            forall|i: int| 0 <= i < k ==> out@[i] == flip_keyframe_spec(kfs@[i]),
    {
        let kf = kfs[k];
        let flipped = if kf.element == AnimElement::Rotation {
            Keyframe { value: kf.value.neg(), ..kf }
        } else {
            kf
        };
        out.push(flipped);
    }
    proof {
        assert(out@ =~= Seq::new(kfs@.len(), |k: int| flip_keyframe_spec(kfs@[k])));
        assert forall|i: int| 0 <= i < out@.len() implies (#[trigger] out@[i]).wf() by {
            assert(out@[i] == flip_keyframe_spec(kfs@[i]));
        }
        assert forall|i: int, j: int|
            0 <= i < j < out@.len()
                && (#[trigger] out@[i]).bone == (#[trigger] out@[j]).bone
                && out@[i].element == out@[j].element
            implies out@[i].frame < out@[j].frame by {
            assert(out@[i] == flip_keyframe_spec(kfs@[i]));
            assert(out@[j] == flip_keyframe_spec(kfs@[j]));
        }
    }
    out
}

/// Is a final scale mirrored: exactly one component negative?
pub open spec fn mirrored_spec(scale: FxVec) -> bool {
    (scale.x.v() < 0) != (scale.y.v() < 0)
}

/// One bone under the caller's view: scale multiplies position and
/// scale, the offset shifts position, and a mirrored bone has its
/// rotation sign corrected.
pub open spec fn view_bone_spec(p: PoseBone, scale: FxVec, offset: FxVec) -> PoseBone {
    let vs = FxVec {
        x: Fx { bits: fx_mul_spec(p.scale.x.v(), scale.x.v()) as i64 },
        y: Fx { bits: fx_mul_spec(p.scale.y.v(), scale.y.v()) as i64 },
    };
    let vp = FxVec {
        x: Fx {
            bits: fx_add_spec(fx_mul_spec(p.pos.x.v(), scale.x.v()), offset.x.v()) as i64,
        },
        y: Fx {
            bits: fx_add_spec(fx_mul_spec(p.pos.y.v(), scale.y.v()), offset.y.v()) as i64,
        },
    };
    let vr = if mirrored_spec(vs) {
        Fx { bits: -p.rot.v() as i64 }
    } else {
        p.rot
    };
    PoseBone { pos: vp, rot: vr, scale: vs, ..p }
}

/// Apply the caller's view to one bone.
pub fn view_bone(p: PoseBone, scale: FxVec, offset: FxVec) -> (r: PoseBone)
    requires
        p.wf(),
        scale.wf(),
        offset.wf(),
    ensures
        r.wf(),
        r == view_bone_spec(p, scale, offset),
{
    let mut out = p;
    out.scale = FxVec { x: p.scale.x.mul(scale.x), y: p.scale.y.mul(scale.y) };
    out.pos = FxVec {
        x: p.pos.x.mul(scale.x).add(offset.x),
        y: p.pos.y.mul(scale.y).add(offset.y),
    };
    let neg_x = out.scale.x.bits < 0;
    let neg_y = out.scale.y.bits < 0;
    if neg_x != neg_y {
        out.rot = p.rot.neg();
    }
    out
}

/// Apply the caller's view to a whole world pose.
pub fn apply_view(pose: &Vec<PoseBone>, scale: FxVec, offset: FxVec) -> (r: Vec<PoseBone>)
    requires
        pose_wf(pose@),
        scale.wf(),
        offset.wf(),
    ensures
        r@.len() == pose@.len(),
        pose_wf(r@),
        r@ == Seq::new(pose@.len(), |b: int| view_bone_spec(pose@[b], scale, offset)),
{
    let n = pose.len();
    let mut out: Vec<PoseBone> = Vec::new();
    for b in 0..n
        invariant
            n == pose@.len(),
            pose_wf(pose@),
            scale.wf(),
            offset.wf(),
            out@.len() == b,
            pose_wf(out@),
            forall|i: int| 0 <= i < b ==> out@[i] == view_bone_spec(pose@[i], scale, offset),
    {
        let v = view_bone(pose[b], scale, offset);
        out.push(v);
    }
    proof {
        assert(out@ =~= Seq::new(pose@.len(), |b: int| view_bone_spec(pose@[b], scale, offset)));
    }
    out
}

/// Mirroring preserves bend direction: when the view leaves a bone's
/// final scale with exactly one negative component, the adapted
/// rotation is exactly the negation of the unmirrored one, so the
/// visual bend keeps its side after the axis flip.
pub proof fn lemma_mirror_inverts_rotation(p: PoseBone, scale: FxVec, offset: FxVec)
    requires
        p.wf(),
        mirrored_spec(view_bone_spec(p, scale, offset).scale),
    ensures
        view_bone_spec(p, scale, offset).rot.v() == -p.rot.v(),
{
}

} // verus!
