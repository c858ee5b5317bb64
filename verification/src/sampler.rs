//! The keyframe sampler.
//!
//! For one bone, one animated property and a target frame, the sampler
//! finds the tightest bracketing keyframes and interpolates linearly in
//! frame space. Outside the keyframed range the nearest boundary value
//! holds (no extrapolation); a property with no keyframes keeps its
//! rest-pose value. Rotations interpolate along the shortest angular
//! path, never across more than half a turn.

use vstd::prelude::*;
use crate::fx::{Fx, FX_ONE, div_trunc, sat, shortest_delta, shortest_delta_spec};
use crate::model::{AnimElement, Keyframe, PoseBone};

verus! {

/// Keyframes a sampler scan accepts: each in range and, within each
/// (bone, element) pair, strictly ordered by frame.
pub open spec fn kfs_wf(kfs: Seq<Keyframe>) -> bool {
    &&& forall|i: int| 0 <= i < kfs.len() ==> (#[trigger] kfs[i]).wf()
    &&& forall|i: int, j: int|
        0 <= i < j < kfs.len()
            && (#[trigger] kfs[i]).bone == (#[trigger] kfs[j]).bone
            && kfs[i].element == kfs[j].element
            ==> kfs[i].frame < kfs[j].frame
}

/// Does a keyframe animate this (bone, element) pair?
pub open spec fn kf_matches(kf: Keyframe, bone: int, el: AnimElement) -> bool {
    kf.bone == bone && kf.element == el
}

/// Index of the last matching keyframe at or before `frame`; -1 if none.
pub open spec fn prev_kf(kfs: Seq<Keyframe>, bone: int, el: AnimElement, frame: int) -> int
    decreases kfs.len(),
{
    if kfs.len() == 0 {
        -1
    } else if kf_matches(kfs.last(), bone, el) && kfs.last().frame <= frame {
        kfs.len() - 1
    } else {
        prev_kf(kfs.drop_last(), bone, el, frame)
    }
}

/// Index of the first matching keyframe strictly after `frame`; -1 if
/// none.
pub open spec fn next_kf(kfs: Seq<Keyframe>, bone: int, el: AnimElement, frame: int) -> int
    decreases kfs.len(),
{
    if kfs.len() == 0 {
        -1
    } else {
        let pre = next_kf(kfs.drop_last(), bone, el, frame);
        if pre != -1 {
            pre
        } else if kf_matches(kfs.last(), bone, el) && kfs.last().frame > frame {
            kfs.len() - 1
        } else {
            -1
        }
    }
}

/// Linear interpolation in frame space between two bracketing values.
pub open spec fn lerp_spec(f0: int, v0: int, f1: int, v1: int, frame: int) -> int
    recommends
        f0 <= frame < f1,
{
    sat(v0 + div_trunc((v1 - v0) * (frame - f0), f1 - f0))
}

/// Rotation interpolation: the step is the shortest angular path from
/// `v0` to `v1`, so a sample never swings more than half a turn.
pub open spec fn lerp_angle_spec(f0: int, v0: int, f1: int, v1: int, frame: int) -> int
    recommends
        f0 <= frame < f1,
{
    sat(v0 + div_trunc(shortest_delta_spec(v0, v1) * (frame - f0), f1 - f0))
}

/// The sampled value of one (bone, element) pair at `frame`:
/// `None` when the pair has no keyframes, the nearest boundary value
/// outside the keyframed range, and the bracketed interpolation inside
/// it.
pub open spec fn sample_value_spec(
    kfs: Seq<Keyframe>,
    bone: int,
    el: AnimElement,
    frame: int,
) -> Option<int> {
    let p = prev_kf(kfs, bone, el, frame);
    let n = next_kf(kfs, bone, el, frame);
    if p == -1 && n == -1 {
        None
    } else if p == -1 {
        Some(kfs[n].value.v())
    } else if n == -1 {
        Some(kfs[p].value.v())
    } else if el is Rotation {
        Some(lerp_angle_spec(kfs[p].frame as int, kfs[p].value.v(), kfs[n].frame as int,
            kfs[n].value.v(), frame))
    } else {
        Some(lerp_spec(kfs[p].frame as int, kfs[p].value.v(), kfs[n].frame as int,
            kfs[n].value.v(), frame))
    }
}

/// What `prev_kf` finds: the last matching keyframe at or before the
/// frame.
pub proof fn lemma_prev_kf(kfs: Seq<Keyframe>, bone: int, el: AnimElement, frame: int)
    ensures
        prev_kf(kfs, bone, el, frame) == -1 ==> forall|j: int|
            0 <= j < kfs.len() && kf_matches(#[trigger] kfs[j], bone, el)
                ==> kfs[j].frame > frame,
        prev_kf(kfs, bone, el, frame) != -1 ==> {
            let p = prev_kf(kfs, bone, el, frame);
            &&& 0 <= p < kfs.len()
            &&& kf_matches(kfs[p], bone, el)
            &&& kfs[p].frame <= frame
            &&& forall|j: int|
                p < j < kfs.len() && kf_matches(#[trigger] kfs[j], bone, el)
                    ==> kfs[j].frame > frame
        },
    decreases kfs.len(),
{
    if kfs.len() > 0 {
        lemma_prev_kf(kfs.drop_last(), bone, el, frame);
        assert(forall|j: int| 0 <= j < kfs.len() - 1 ==> kfs.drop_last()[j] == #[trigger] kfs[j]);
    }
}

/// What `next_kf` finds: the first matching keyframe strictly after the
/// frame.
pub proof fn lemma_next_kf(kfs: Seq<Keyframe>, bone: int, el: AnimElement, frame: int)
    ensures
        next_kf(kfs, bone, el, frame) == -1 ==> forall|j: int|
            0 <= j < kfs.len() && kf_matches(#[trigger] kfs[j], bone, el)
                ==> kfs[j].frame <= frame,
        next_kf(kfs, bone, el, frame) != -1 ==> {
            let n = next_kf(kfs, bone, el, frame);
            &&& 0 <= n < kfs.len()
            &&& kf_matches(kfs[n], bone, el)
            &&& kfs[n].frame > frame
            &&& forall|j: int|
                0 <= j < n && kf_matches(#[trigger] kfs[j], bone, el)
                    ==> kfs[j].frame <= frame
        },
    decreases kfs.len(),
{
    if kfs.len() > 0 {
        lemma_next_kf(kfs.drop_last(), bone, el, frame);
        assert(forall|j: int| 0 <= j < kfs.len() - 1 ==> kfs.drop_last()[j] == #[trigger] kfs[j]);
    }
}

/// Sample one (bone, element) pair of an animation at a frame.
pub fn sample_value(kfs: &Vec<Keyframe>, bone: usize, el: AnimElement, frame: u32)
    -> (r: Option<Fx>)
    requires
        kfs_wf(kfs@),
    ensures
        match r {
            Some(v) => {
                &&& v.wf()
                &&& Some(v.v()) == sample_value_spec(kfs@, bone as int, el, frame as int)
            },
            None => sample_value_spec(kfs@, bone as int, el, frame as int) is None,
        },
{
    let n_kfs = kfs.len();
    let mut prev: Option<usize> = None;
    let mut next: Option<usize> = None;
    for i in 0..n_kfs
        invariant
            kfs_wf(kfs@),
            n_kfs == kfs@.len(),
            match prev {
                None => prev_kf(kfs@.take(i as int), bone as int, el, frame as int) == -1,
                Some(p) => prev_kf(kfs@.take(i as int), bone as int, el, frame as int) == p
                    && p < i,
            },
            match next {
                None => next_kf(kfs@.take(i as int), bone as int, el, frame as int) == -1,
                Some(nx) => next_kf(kfs@.take(i as int), bone as int, el, frame as int) == nx
                    && nx < i,
            },
    {
        let kf = &kfs[i];
        proof {
            assert(kfs@.take(i + 1).drop_last() =~= kfs@.take(i as int));
            assert(kfs@.take(i + 1).last() == kfs@[i as int]);
        }
        let hit = kf.bone == bone && kf.element == el;
        if hit && kf.frame <= frame {
            prev = Some(i);
        }
        if next.is_none() && hit && kf.frame > frame {
            next = Some(i);
        }
    }
    proof {
        assert(kfs@.take(n_kfs as int) =~= kfs@);
    }
    match (prev, next) {
        (None, None) => None,
        (None, Some(nx)) => Some(kfs[nx].value),
        (Some(p), None) => Some(kfs[p].value),
        (Some(p), Some(nx)) => {
            let kp = &kfs[p];
            let kn = &kfs[nx];
            proof {
                lemma_prev_kf(kfs@, bone as int, el, frame as int);
                lemma_next_kf(kfs@, bone as int, el, frame as int);
            }
            Some(interp_bracket(kp, kn, el, frame))
        },
    }
}

/// Interpolate between two bracketing keyframes.
fn interp_bracket(kp: &Keyframe, kn: &Keyframe, el: AnimElement, frame: u32) -> (r: Fx)
    requires
        kp.wf(),
        kn.wf(),
        kp.frame <= frame < kn.frame,
    ensures
        r.wf(),
        el is Rotation ==> r.v() == lerp_angle_spec(kp.frame as int, kp.value.v(), kn.frame as int,
            kn.value.v(), frame as int),
        !(el is Rotation) ==> r.v() == lerp_spec(kp.frame as int, kp.value.v(), kn.frame as int,
            kn.value.v(), frame as int),
{
    let span: i64 = (kn.frame - kp.frame) as i64;
    let at: i64 = (frame - kp.frame) as i64;
    let step: i64 = if matches!(el, AnimElement::Rotation) {
        shortest_delta(kp.value, kn.value).bits
    } else {
        kn.value.bits - kp.value.bits
    };
    proof {
        assert(-0x2000_0000_0000_0000 <= step * at <= 0x2000_0000_0000_0000)
            by (nonlinear_arith)
            requires
                -0x1_0000_0000 <= step <= 0x1_0000_0000,
                0 <= at < 0x10000,
        ;
    }
    let num: i64 = step * at;
    let q: i64 = if num >= 0 {
        num / span
    } else {
        -((-num) / span)
    };
    Fx::from_bits(kp.value.bits + q)
}

/// What one fully sampled bone looks like: each animated property takes
/// its sampled value, or keeps the rest pose where the animation never
/// keyframes it.
pub open spec fn sample_bone_spec(kfs: Seq<Keyframe>, rest: PoseBone, b: int, frame: int)
    -> PoseBone {
    PoseBone {
        pos: crate::model::FxVec {
            x: Fx { bits: sample_or(kfs, b, AnimElement::PositionX, frame, rest.pos.x.v()) as i64 },
            y: Fx { bits: sample_or(kfs, b, AnimElement::PositionY, frame, rest.pos.y.v()) as i64 },
        },
        rot: Fx { bits: sample_or(kfs, b, AnimElement::Rotation, frame, rest.rot.v()) as i64 },
        scale: crate::model::FxVec {
            x: Fx { bits: sample_or(kfs, b, AnimElement::ScaleX, frame, rest.scale.x.v()) as i64 },
            y: Fx { bits: sample_or(kfs, b, AnimElement::ScaleY, frame, rest.scale.y.v()) as i64 },
        },
        alpha: Fx { bits: sample_or(kfs, b, AnimElement::Alpha, frame, rest.alpha.v()) as i64 },
        zindex: Fx { bits: sample_or(kfs, b, AnimElement::Zindex, frame, rest.zindex.v()) as i64 },
        tex_idx: match sample_value_spec(kfs, b, AnimElement::TextureIndex, frame) {
            Some(v) => fx_to_index(v) as usize,
            None => rest.tex_idx,
        },
        ik_on: match sample_value_spec(kfs, b, AnimElement::IkToggle, frame) {
            Some(v) => v != 0,
            None => rest.ik_on,
        },
    }
}

/// The sampled value of a property, or the given rest value when the
/// property has no keyframes.
pub open spec fn sample_or(
    kfs: Seq<Keyframe>,
    b: int,
    el: AnimElement,
    frame: int,
    rest: int,
) -> int {
    match sample_value_spec(kfs, b, el, frame) {
        Some(v) => v,
        None => rest,
    }
}

/// A sampled fixed-point value read as a nonnegative index.
pub open spec fn fx_to_index(v: int) -> nat {
    if v < 0 {
        0
    } else {
        (v / (FX_ONE as int)) as nat
    }
}

/// Sample every animated property of one bone.
pub fn sample_bone(kfs: &Vec<Keyframe>, rest: PoseBone, b: usize, frame: u32) -> (r: PoseBone)
    requires
        kfs_wf(kfs@),
        rest.wf(),
    ensures
        r.wf(),
        r == sample_bone_spec(kfs@, rest, b as int, frame as int),
{
    let mut out = rest;
    out.pos.x = sample_field(kfs, b, AnimElement::PositionX, frame, rest.pos.x);
    out.pos.y = sample_field(kfs, b, AnimElement::PositionY, frame, rest.pos.y);
    out.rot = sample_field(kfs, b, AnimElement::Rotation, frame, rest.rot);
    out.scale.x = sample_field(kfs, b, AnimElement::ScaleX, frame, rest.scale.x);
    out.scale.y = sample_field(kfs, b, AnimElement::ScaleY, frame, rest.scale.y);
    out.alpha = sample_field(kfs, b, AnimElement::Alpha, frame, rest.alpha);
    out.zindex = sample_field(kfs, b, AnimElement::Zindex, frame, rest.zindex);
    match sample_value(kfs, b, AnimElement::TextureIndex, frame) {
        Some(v) => {
            out.tex_idx = if v.bits < 0 {
                0
            } else {
                (v.bits / FX_ONE) as usize
            };
        },
        None => {},
    }
    match sample_value(kfs, b, AnimElement::IkToggle, frame) {
        Some(v) => {
            out.ik_on = v.bits != 0;
        },
        None => {},
    }
    out
}

/// Sample one scalar property, falling back to its rest value.
fn sample_field(kfs: &Vec<Keyframe>, b: usize, el: AnimElement, frame: u32, rest: Fx) -> (r: Fx)
    requires
        kfs_wf(kfs@),
        rest.wf(),
    ensures
        r.wf(),
        r.v() == sample_or(kfs@, b as int, el, frame as int, rest.v()),
{
    match sample_value(kfs, b, el, frame) {
        Some(v) => v,
        None => rest,
    }
}

/// What a fully sampled pose looks like, bone by bone.
pub open spec fn sample_pose_spec(kfs: Seq<Keyframe>, rests: Seq<PoseBone>, frame: int)
    -> Seq<PoseBone> {
    Seq::new(rests.len(), |b: int| sample_bone_spec(kfs, rests[b], b, frame))
}

/// Sample a whole pose: every bone, every animated property, at one
/// frame.
pub fn sample_pose(kfs: &Vec<Keyframe>, rests: &Vec<PoseBone>, frame: u32) -> (r: Vec<PoseBone>)
    requires
        kfs_wf(kfs@),
        crate::model::pose_wf(rests@),
    ensures
        r@.len() == rests@.len(),
        crate::model::pose_wf(r@),
        r@ == sample_pose_spec(kfs@, rests@, frame as int),
{
    let mut out: Vec<PoseBone> = Vec::new();
    let n = rests.len();
    for b in 0..n
        invariant
            kfs_wf(kfs@),
            n == rests@.len(),
            crate::model::pose_wf(rests@),
            out@.len() == b,
            forall|i: int| 0 <= i < b ==> (#[trigger] out@[i]).wf(),
            forall|i: int| 0 <= i < b
                ==> out@[i] == sample_bone_spec(kfs@, rests@[i], i, frame as int),
    {
        let pb = sample_bone(kfs, rests[b], b, frame);
        out.push(pb);
    }
    proof {
        assert(out@ =~= sample_pose_spec(kfs@, rests@, frame as int));
    }
    out
}

} // verus!
