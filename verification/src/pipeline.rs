//! The per-frame animation pipeline.
//!
//! [`animate`] runs one frame end to end: adapt the authored data to
//! render conventions, resolve the frame from time or an explicit
//! override, sample the animation, optionally blend from a previous
//! animation, compose world transforms, solve inverse kinematics,
//! recompose with the solved rotations, and apply the caller's view.
//! The result is the posed bone list and the frame that was used;
//! geometry is synthesized separately from the posed bones.
//!
//! Every step is a pure function of the arguments, pinned by
//! [`animate_pose_spec`]: the same armature, animation, frame and
//! options always produce the same pose.

use vstd::prelude::*;
use crate::adapter::{apply_view, flip_keyframe_spec, flip_keyframes, flip_pose_spec, flip_rests,
    view_bone_spec};
use crate::blend::{MAX_BLEND, blend_pose, blend_pose_spec};
use crate::fx::{FX_ONE, Fx};
use crate::hierarchy::{compose, compose_spec};
use crate::ik::{solve_ik, solve_ik_spec};
use crate::model::{Animation, Armature, FxVec, PoseBone, pose_wf};
use crate::sampler::{sample_pose, sample_pose_spec};
use crate::temporal::{MAX_ELAPSED_MS, raw_frame_spec, resolve_frame, wrap_frame,
    wrap_frame_spec};

verus! {

/// Caller-supplied playback and view configuration.
#[derive(Clone, Copy, PartialEq, Eq, Structural, Debug)]
pub struct AnimOptions {
    /// Playback speed multiplier (1 is authored speed).
    pub speed: Fx,
    /// Added to every posed bone's position, after scaling.
    pub pos_offset: FxVec,
    /// Multiplies every posed bone's position and scale; a negative x
    /// mirrors the character.
    pub scale: FxVec,
    /// Render exactly this frame instead of resolving one from time.
    pub frame: Option<u32>,
    /// Which style (skin) resolves the bones' texture indices.
    pub style_idx: usize,
}

impl AnimOptions {
    /// All scalar fields are in band and the speed is nonnegative.
    pub open spec fn wf(self) -> bool {
        &&& self.speed.wf()
        &&& self.speed.v() >= 0
        &&& self.pos_offset.wf()
        &&& self.scale.wf()
    }
}

impl Default for AnimOptions {
    /// Authored speed, no offset, quarter scale, no frame override, the
    /// first style.
    fn default() -> (r: AnimOptions)
        ensures
            r.wf(),
            r.speed.v() == FX_ONE,
            r.pos_offset.x.v() == 0,
            r.pos_offset.y.v() == 0,
            r.scale.x.v() == 16384,
            r.scale.y.v() == 16384,
            r.frame is None,
            r.style_idx == 0,
    {
        AnimOptions {
            speed: Fx { bits: FX_ONE },
            pos_offset: FxVec { x: Fx { bits: 0 }, y: Fx { bits: 0 } },
            scale: FxVec { x: Fx { bits: 16384 }, y: Fx { bits: 16384 } },
            frame: None,
            style_idx: 0,
        }
    }
}

/// The state a blend out of the previous animation needs: where that
/// animation stood, and each bone's countdown.
#[derive(Clone, Debug)]
pub struct BlendState {
    /// Index of the outgoing animation.
    pub prev_anim: usize,
    /// The frame of the outgoing animation to blend from.
    pub prev_frame: u32,
    /// Frames remaining in the transition, per bone.
    pub remaining: Vec<u32>,
    /// Total transition length, in frames.
    pub total: u32,
}

/// The rest poses of the bone list, adapted to render conventions.
pub open spec fn rests_spec(arm: Armature) -> Seq<PoseBone> {
    Seq::new(arm.bones@.len(), |b: int| flip_pose_spec(arm.bones@[b].rest))
}

/// An animation's keyframes, adapted to render conventions.
pub open spec fn flipped_kfs_spec(anim: Animation) -> Seq<crate::model::Keyframe> {
    Seq::new(anim.keyframes@.len(), |k: int| flip_keyframe_spec(anim.keyframes@[k]))
}

/// The frame the pipeline uses: an explicit override, or the time
/// resolution, both under the looping policy. An out-of-range
/// animation index resolves to frame 0.
pub open spec fn resolved_frame_spec(
    arm: Armature,
    animation_index: int,
    elapsed_ms: Option<u64>,
    should_loop: bool,
    options: AnimOptions,
) -> int {
    if animation_index >= arm.animations@.len() {
        0
    } else {
        let len = arm.animations@[animation_index].length as int;
        match options.frame {
            Some(f) => wrap_frame_spec(f as int, len, should_loop),
            None => match elapsed_ms {
                Some(ms) => wrap_frame_spec(
                    raw_frame_spec(ms as int, arm.animations@[animation_index].fps as int,
                        options.speed.v()),
                    len,
                    should_loop,
                ),
                None => wrap_frame_spec(0, len, should_loop),
            },
        }
    }
}

/// The local pose the sampler and blender produce. An out-of-range
/// animation index leaves the rest pose; a blend whose outgoing
/// animation is out of range is skipped.
pub open spec fn local_pose_spec(
    arm: Armature,
    animation_index: int,
    frame: int,
    blend: Option<BlendState>,
) -> Seq<PoseBone> {
    let rests = rests_spec(arm);
    if animation_index >= arm.animations@.len() {
        rests
    } else {
        let target = sample_pose_spec(flipped_kfs_spec(arm.animations@[animation_index]), rests,
            frame);
        match blend {
            Some(bs) => {
                if bs.prev_anim < arm.animations@.len() {
                    let prev = sample_pose_spec(flipped_kfs_spec(arm.animations@[
                        bs.prev_anim as int]), rests, bs.prev_frame as int);
                    blend_pose_spec(prev, target, bs.remaining@, bs.total as int)
                } else {
                    target
                }
            },
            None => target,
        }
    }
}

/// The posed bones of one frame: the local pose composed to world
/// space, recomposed with the solved inverse-kinematics rotations, and
/// carried into the caller's view.
pub open spec fn animate_pose_spec(
    arm: Armature,
    animation_index: int,
    frame: int,
    blend: Option<BlendState>,
    options: AnimOptions,
) -> Seq<PoseBone> {
    let local = local_pose_spec(arm, animation_index, frame, blend);
    let no_ik = Seq::new(arm.bones@.len(), |b: int| None::<Fx>);
    let og = compose_spec(arm.bones@, local, no_ik);
    let ik = solve_ik_spec(og, arm.ik_families@);
    let world = compose_spec(arm.bones@, local, ik);
    Seq::new(world.len(), |b: int| view_bone_spec(world[b], options.scale, options.pos_offset))
}

/// Does a blend request fit this armature?
pub open spec fn blend_ok_spec(arm: Armature, blend: Option<BlendState>) -> bool {
    match blend {
        Some(bs) => {
            &&& bs.remaining@.len() == arm.bones@.len()
            &&& bs.total <= MAX_BLEND
            &&& forall|i: int| 0 <= i < bs.remaining@.len() ==> (#[trigger] bs.remaining@[i])
                <= bs.total
        },
        None => true,
    }
}

/// Run one frame of the pipeline and return the posed bones and the
/// frame that was used.
///
/// The animation index is checked against the full animation list
/// (inclusive of the last animation); an out-of-range index is a no-op
/// that returns the adapted rest pose at frame 0 rather than indexing
/// out of bounds.
pub fn animate(
    arm: &Armature,
    animation_index: usize,
    elapsed_ms: Option<u64>,
    should_loop: bool,
    options: &AnimOptions,
    blend: Option<&BlendState>,
) -> (r: (Vec<PoseBone>, u32))
    requires
        arm.wf(),
        options.wf(),
        match elapsed_ms {
            Some(ms) => ms <= MAX_ELAPSED_MS,
            None => true,
        },
        blend_ok_spec(*arm, match blend {
            Some(bs) => Some(*bs),
            None => None,
        }),
    ensures
        r.1 == resolved_frame_spec(*arm, animation_index as int, elapsed_ms, should_loop,
            *options),
        r.0@.len() == arm.bones@.len(),
        pose_wf(r.0@),
        r.0@ == animate_pose_spec(*arm, animation_index as int, r.1 as int, match blend {
            Some(bs) => Some(*bs),
            None => None,
        }, *options),
{
    let n = arm.bones.len();
    let rests = flip_rests(&arm.bones);
    proof {
        assert(rests@ =~= rests_spec(*arm));
    }

    let mut frame: u32 = 0;
    if animation_index < arm.animations.len() {
        let anim = &arm.animations[animation_index];
        frame = match options.frame {
            Some(f) => wrap_frame(f, anim.length, should_loop),
            None => match elapsed_ms {
                Some(ms) => resolve_frame(ms, anim.fps, options.speed, anim.length, should_loop),
                None => wrap_frame(0, anim.length, should_loop),
            },
        };
    }

    let mut pose = if animation_index < arm.animations.len() {
        let anim = &arm.animations[animation_index];
        let fk = flip_keyframes(&anim.keyframes);
        proof {
            assert(fk@ =~= flipped_kfs_spec(arm.animations@[animation_index as int]));
        }
        sample_pose(&fk, &rests, frame)
    } else {
        copy_pose(&rests)
    };
    proof {
        if animation_index >= arm.animations@.len() {
            assert(pose@ =~= rests_spec(*arm));
        }
    }

    if animation_index < arm.animations.len() {
        if let Some(bs) = blend {
            if bs.prev_anim < arm.animations.len() {
                let pk = flip_keyframes(&arm.animations[bs.prev_anim].keyframes);
                proof {
                    assert(pk@ =~= flipped_kfs_spec(arm.animations@[bs.prev_anim as int]));
                }
                let prev = sample_pose(&pk, &rests, bs.prev_frame);
                pose = blend_pose(&prev, &pose, &bs.remaining, bs.total);
            }
        }
    }

    let mut no_ik: Vec<Option<Fx>> = Vec::new();
    for i in 0..n
        invariant
            no_ik@.len() == i,
            forall|j: int| 0 <= j < i ==> (#[trigger] no_ik@[j]) is None,
    {
        no_ik.push(None);
    }
    proof {
        assert(no_ik@ =~= Seq::new(arm.bones@.len(), |b: int| None::<Fx>));
    }

    let og = compose(&arm.bones, &pose, &no_ik);
    let ik = solve_ik(&og, &arm.ik_families);
    let world = compose(&arm.bones, &pose, &ik);
    let props = apply_view(&world, options.scale, options.pos_offset);
    proof {
        assert(props@ =~= animate_pose_spec(*arm, animation_index as int, frame as int,
            match blend {
                Some(bs) => Some(*bs),
                None => None,
            }, *options));
    }
    (props, frame)
}

/// Duplicate a pose buffer.
fn copy_pose(p: &Vec<PoseBone>) -> (r: Vec<PoseBone>)
    ensures
        r@ == p@,
{
    let n = p.len();
    let mut out: Vec<PoseBone> = Vec::new();
    for i in 0..n
        invariant
            n == p@.len(),
            out@.len() == i,
            forall|j: int| 0 <= j < i ==> out@[j] == p@[j],
    {
        out.push(p[i]);
    }
    proof {
        assert(out@ =~= p@);
    }
    out
}

} // verus!
