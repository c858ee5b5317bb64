//! Pipeline-wide laws.
//!
//! Each proof function here states a guarantee of the pipeline as a
//! whole, over the same spec functions the executable contracts use.

use vstd::prelude::*;
use crate::blend::{blend_bone_spec, blend_pose_spec, blend_spec};
use crate::fx::Fx;
use crate::ik::{aim_angle_spec, apply_family_spec, chain_reach, chain_valid, dist_spec,
    set_chain_spec};
use crate::mesh::geometry_spec;
use crate::model::{Bone, FxVec, IkFamily, Keyframe, PoseBone, Style};
use crate::order::{is_draw_order, lemma_draw_order_unique, z_before};
use crate::sampler::{kf_matches, kfs_wf, lemma_next_kf, lemma_prev_kf, next_kf, prev_kf,
    sample_value_spec};
use crate::temporal::wrap_frame_spec;

verus! {

/// Determinism: the whole pipeline yields bit-identical output across
/// repeated runs. The frame, the posed bones and the buffers are
/// already pinned to spec functions of the inputs by the executable
/// contracts (`resolved_frame_spec`, `animate_pose_spec`,
/// `geometry_spec`), so two runs can only differ through the draw
/// order, whose contract is relational; this lemma closes that gap:
/// any two draw orders of one pose are equal, and with them the
/// synthesized geometry.
pub proof fn lemma_pipeline_deterministic(
    pose: Seq<PoseBone>,
    ord1: Seq<usize>,
    ord2: Seq<usize>,
    bones: Seq<Bone>,
    styles: Seq<Style>,
    atlas_sizes: Seq<FxVec>,
    style_idx: int,
)
    requires
        is_draw_order(pose, ord1),
        is_draw_order(pose, ord2),
    ensures
        ord1 =~= ord2,
        geometry_spec(bones, pose, styles, atlas_sizes, style_idx, ord1)
            == geometry_spec(bones, pose, styles, atlas_sizes, style_idx, ord2),
{
    lemma_draw_order_unique(pose, ord1, ord2);
    assert(ord1 == ord2);
}

/// Looping correctness: once playback has passed the end of an
/// animation of length `length`, a looping resolve wraps modulo the
/// length, and a non-looping resolve holds the last frame.
pub proof fn lemma_looping(length: int, extra: int)
    requires
        length > 0,
        extra >= 0,
    ensures
        wrap_frame_spec(length + extra, length, true) == extra % length,
        wrap_frame_spec(length + extra, length, false) == length - 1,
{
    vstd::arithmetic::div_mod::lemma_mod_multiples_vanish(1, extra, length);
}

/// Interpolation boundary, below: sampling at or before the earliest
/// keyframe of a (bone, element) pair returns exactly that keyframe's
/// value.
pub proof fn lemma_sample_at_or_before_first(
    kfs: Seq<Keyframe>,
    bone: int,
    el: crate::model::AnimElement,
    frame: int,
    k0: int,
)
    requires
        kfs_wf(kfs),
        0 <= k0 < kfs.len(),
        kf_matches(kfs[k0], bone, el),
        forall|j: int|
            0 <= j < kfs.len() && kf_matches(#[trigger] kfs[j], bone, el)
                ==> kfs[k0].frame <= kfs[j].frame,
        0 <= frame <= kfs[k0].frame,
    ensures
        sample_value_spec(kfs, bone, el, frame) == Some(kfs[k0].value.v()),
{
    lemma_prev_kf(kfs, bone, el, frame);
    lemma_next_kf(kfs, bone, el, frame);
    let p = prev_kf(kfs, bone, el, frame);
    let n = next_kf(kfs, bone, el, frame);
    if frame < kfs[k0].frame {
        assert(p == -1);
        assert(n != -1);
        if n != k0 {
            if n < k0 {
                assert(kfs[n].frame < kfs[k0].frame);
            } else {
                assert(kfs[k0].frame <= frame);
            }
        }
    } else {
        assert(p != -1);
        if p != k0 {
            assert(kf_matches(kfs[p], bone, el) && kfs[p].frame <= frame);
            if p < k0 {
                assert(kfs[p].frame < kfs[k0].frame);
                assert(kfs[k0].frame <= kfs[p].frame);
            } else {
                assert(kfs[k0].frame < kfs[p].frame);
            }
        }
        assert(p == k0);
        if n != -1 {
            assert(kfs[n].frame > frame);
            lemma_lerp_at_left(kfs[p].frame as int, kfs[p].value.v(), kfs[n].frame as int,
                kfs[n].value.v(), frame);
        }
    }
}

/// Interpolation boundary, above: sampling at or after the latest
/// keyframe of a (bone, element) pair returns exactly that keyframe's
/// value.
pub proof fn lemma_sample_at_or_after_last(
    kfs: Seq<Keyframe>,
    bone: int,
    el: crate::model::AnimElement,
    frame: int,
    k1: int,
)
    requires
        kfs_wf(kfs),
        0 <= k1 < kfs.len(),
        kf_matches(kfs[k1], bone, el),
        forall|j: int|
            0 <= j < kfs.len() && kf_matches(#[trigger] kfs[j], bone, el)
                ==> kfs[j].frame <= kfs[k1].frame,
        frame >= kfs[k1].frame,
    ensures
        sample_value_spec(kfs, bone, el, frame) == Some(kfs[k1].value.v()),
{
    lemma_prev_kf(kfs, bone, el, frame);
    lemma_next_kf(kfs, bone, el, frame);
    let p = prev_kf(kfs, bone, el, frame);
    let n = next_kf(kfs, bone, el, frame);
    assert(n == -1);
    assert(p != -1);
    if p != k1 {
        assert(kf_matches(kfs[p], bone, el));
        if p < k1 {
            assert(kfs[k1].frame > frame);
        } else {
            assert(kfs[k1].frame < kfs[p].frame);
            assert(kfs[p].frame <= kfs[k1].frame);
        }
    }
}

/// Interpolation boundary, exact hit: sampling exactly on a keyframe's
/// frame returns that keyframe's value with zero error.
pub proof fn lemma_sample_at_keyframe(
    kfs: Seq<Keyframe>,
    bone: int,
    el: crate::model::AnimElement,
    k: int,
)
    requires
        kfs_wf(kfs),
        0 <= k < kfs.len(),
        kf_matches(kfs[k], bone, el),
    ensures
        sample_value_spec(kfs, bone, el, kfs[k].frame as int) == Some(kfs[k].value.v()),
{
    let frame = kfs[k].frame as int;
    lemma_prev_kf(kfs, bone, el, frame);
    lemma_next_kf(kfs, bone, el, frame);
    let p = prev_kf(kfs, bone, el, frame);
    let n = next_kf(kfs, bone, el, frame);
    assert(p != -1);
    if p != k {
        assert(kf_matches(kfs[p], bone, el) && kfs[p].frame <= frame);
        if p < k {
            assert(kfs[p].frame < kfs[k].frame);
            assert(kfs[k].frame > frame);
        } else {
            assert(kfs[k].frame < kfs[p].frame);
        }
    }
    assert(p == k);
    if n != -1 {
        lemma_lerp_at_left(kfs[p].frame as int, kfs[p].value.v(), kfs[n].frame as int,
            kfs[n].value.v(), frame);
    }
}

/// Interpolating at the left endpoint of a bracket gives the left value
/// exactly, for both the plain and the angular path.
proof fn lemma_lerp_at_left(f0: int, v0: int, f1: int, v1: int, frame: int)
    requires
        -crate::fx::FX_LIM <= v0 <= crate::fx::FX_LIM,
        frame == f0 < f1,
    ensures
        crate::sampler::lerp_spec(f0, v0, f1, v1, frame) == v0,
        crate::sampler::lerp_angle_spec(f0, v0, f1, v1, frame) == v0,
{
    assert((v1 - v0) * (frame - f0) == 0);
    assert(crate::fx::shortest_delta_spec(v0, v1) * (frame - f0) == 0);
    assert(crate::fx::div_trunc(0, f1 - f0) == 0);
}

/// Blend completion: a bone whose countdown has reached zero sits
/// exactly on the target animation's value; one whose countdown is
/// still full sits exactly on the outgoing value; in between, the
/// blended value is exactly the linear mix the budget prescribes.
pub proof fn lemma_blend_completion(prev: int, target: int, remaining: int, total: int)
    requires
        0 <= remaining <= total,
    ensures
        remaining == 0 ==> blend_spec(prev, target, remaining, total) == target,
        (remaining == total && total > 0) ==> blend_spec(prev, target, remaining, total)
            == crate::fx::sat(prev),
        (0 < remaining < total) ==> blend_spec(prev, target, remaining, total)
            == crate::fx::sat(prev + crate::fx::div_trunc((target - prev) * (total - remaining),
                total)),
{
    if remaining == total && total > 0 {
        assert((target - prev) * (total - remaining) == 0);
        assert(crate::fx::div_trunc(0, total) == 0);
    }
}

/// Blend completion over a whole pose: each bone finishes
/// independently — any bone whose countdown is zero equals the target
/// pose's bone exactly, whatever the other bones' countdowns are.
pub proof fn lemma_blend_pose_completion(
    prev: Seq<PoseBone>,
    target: Seq<PoseBone>,
    remaining: Seq<u32>,
    total: int,
    i: int,
)
    requires
        prev.len() == target.len(),
        remaining.len() == target.len(),
        0 <= i < target.len(),
        target[i].wf(),
        remaining[i] == 0,
    ensures
        blend_pose_spec(prev, target, remaining, total)[i] == target[i],
{
    assert(blend_bone_spec(prev[i], target[i], 0, total) == target[i]);
}

/// IK reachability: a target at or beyond the chain's total reach
/// fully extends the chain toward the target — every solved joint's
/// world rotation is exactly the angle from the chain base to the
/// target, so the remaining error is the target's distance minus the
/// reach, never an undefined value.
pub proof fn lemma_ik_full_extension(
    out: Seq<Option<Fx>>,
    world: Seq<PoseBone>,
    fam: IkFamily,
    i: int,
)
    requires
        out.len() == world.len(),
        chain_valid(world, fam),
        dist_spec(
            world[fam.bones@[0] as int].pos.x.v(),
            world[fam.bones@[0] as int].pos.y.v(),
            world[fam.target as int].pos.x.v(),
            world[fam.target as int].pos.y.v(),
        ) >= chain_reach(world, fam.bones@),
        0 <= i < fam.bones@.len() - 1,
    ensures
        apply_family_spec(out, world, fam)[fam.bones@[i] as int]
            == Some(Fx { bits: aim_angle_spec(world, fam) as i64 }),
{
    crate::trig::lemma_atan2_in_band(
        world[fam.target as int].pos.y.v() - world[fam.bones@[0] as int].pos.y.v(),
        world[fam.target as int].pos.x.v() - world[fam.bones@[0] as int].pos.x.v(),
    );
    lemma_set_chain_hits(out, fam.bones@, fam.bones@.len() - 1, aim_angle_spec(world, fam), i,
        world.len() as int);
}

/// Helper: after setting a chain's overrides, every written slot holds
/// the written angle.
proof fn lemma_set_chain_hits(
    out: Seq<Option<Fx>>,
    ch: Seq<usize>,
    upto: int,
    rot: int,
    i: int,
    n: int,
)
    requires
        out.len() == n,
        forall|k: int| 0 <= k < ch.len() ==> (#[trigger] ch[k]) < n,
        0 <= i < upto <= ch.len(),
    ensures
        set_chain_spec(out, ch, upto, rot)[ch[i] as int] == Some(Fx { bits: rot as i64 }),
    decreases upto,
{
    lemma_set_chain_len(out, ch, upto - 1, rot, n);
    if i < upto - 1 && ch[i] != ch[upto - 1] {
        lemma_set_chain_hits(out, ch, upto - 1, rot, i, n);
    }
}

/// The solver writes no override for a chain's effector: its world
/// rotation (and with it every world position) is left to the
/// hierarchy composer. Holds whenever the effector is not also a joint
/// of the chain, which the no-shared-joints convention guarantees.
pub proof fn lemma_ik_effector_untouched(out: Seq<Option<Fx>>, world: Seq<PoseBone>, fam: IkFamily)
    requires
        out.len() == world.len(),
        chain_valid(world, fam),
        dist_spec(
            world[fam.bones@[0] as int].pos.x.v(),
            world[fam.bones@[0] as int].pos.y.v(),
            world[fam.target as int].pos.x.v(),
            world[fam.target as int].pos.y.v(),
        ) >= chain_reach(world, fam.bones@),
        forall|i: int|
            0 <= i < fam.bones@.len() - 1
                ==> (#[trigger] fam.bones@[i]) != fam.bones@[fam.bones@.len() - 1],
    ensures
        apply_family_spec(out, world, fam)[fam.bones@[fam.bones@.len() - 1] as int]
            == out[fam.bones@[fam.bones@.len() - 1] as int],
{
    lemma_set_chain_misses(out, fam.bones@, fam.bones@.len() - 1, aim_angle_spec(world, fam),
        fam.bones@[fam.bones@.len() - 1] as int, world.len() as int);
}

/// Helper: a slot that none of the written chain entries name keeps
/// its old value.
proof fn lemma_set_chain_misses(
    out: Seq<Option<Fx>>,
    ch: Seq<usize>,
    upto: int,
    rot: int,
    slot: int,
    n: int,
)
    requires
        out.len() == n,
        forall|k: int| 0 <= k < ch.len() ==> (#[trigger] ch[k]) < n,
        0 <= upto <= ch.len(),
        0 <= slot < n,
        forall|i: int| 0 <= i < upto ==> (#[trigger] ch[i]) != slot,
    ensures
        set_chain_spec(out, ch, upto, rot)[slot] == out[slot],
    decreases upto,
{
    if upto > 0 {
        lemma_set_chain_misses(out, ch, upto - 1, rot, slot, n);
        lemma_set_chain_len(out, ch, upto - 1, rot, n);
    }
}

/// Helper: setting chain overrides keeps the table's length.
proof fn lemma_set_chain_len(out: Seq<Option<Fx>>, ch: Seq<usize>, upto: int, rot: int, n: int)
    requires
        out.len() == n,
        forall|k: int| 0 <= k < ch.len() ==> (#[trigger] ch[k]) < n,
        upto <= ch.len(),
    ensures
        set_chain_spec(out, ch, upto, rot).len() == n,
    decreases upto,
{
    if upto > 0 {
        lemma_set_chain_len(out, ch, upto - 1, rot, n);
    }
}

/// Z-order stability: in a draw order, two bones with equal z-index
/// keep their original relative order, whatever the rest of the pose
/// looks like.
pub proof fn lemma_z_order_stable(pose: Seq<PoseBone>, ord: Seq<usize>, a: int, b: int)
    requires
        is_draw_order(pose, ord),
        0 <= a < b < ord.len(),
        pose[ord[a] as int].zindex.v() == pose[ord[b] as int].zindex.v(),
    ensures
        ord[a] < ord[b],
{
    assert(z_before(pose, ord[a] as int, ord[b] as int));
}

} // verus!
