//! The hierarchy composer.
//!
//! A sampled pose holds local transforms. Composition walks the bone
//! list once, parents before children (the armature invariant orders
//! parents earlier), turning local transforms into world transforms:
//! scales multiply, rotations add, and a child's position is scaled by
//! the parent's scale, rotated by the parent's rotation, and offset by
//! the parent's position. An optional rotation override per bone (the
//! IK solver's output) replaces the composed world rotation; bones
//! without an override are unaffected.

use vstd::prelude::*;
use crate::fx::{Fx, FX_ONE, div_trunc, fx_add_spec, fx_mul_spec, sat};
use crate::model::{Bone, FxVec, PoseBone, pose_wf};
use crate::trig::{cos_fx, cos_spec, sin_fx, sin_spec};

verus! {

/// The x component of a vector rotated by an angle.
pub open spec fn rot_x_spec(px: int, py: int, r: int) -> int {
    sat(div_trunc(px * cos_spec(r) - py * sin_spec(r), FX_ONE as int))
}

/// The y component of a vector rotated by an angle.
pub open spec fn rot_y_spec(px: int, py: int, r: int) -> int {
    sat(div_trunc(px * sin_spec(r) + py * cos_spec(r), FX_ONE as int))
}

/// Rotate a vector about the origin.
pub fn rotate_vec(p: FxVec, r: Fx) -> (out: FxVec)
    requires
        p.wf(),
        r.wf(),
    ensures
        out.wf(),
        out.x.v() == rot_x_spec(p.x.v(), p.y.v(), r.v()),
        out.y.v() == rot_y_spec(p.x.v(), p.y.v(), r.v()),
{
    let s: i64 = sin_fx(r).bits;
    let c: i64 = cos_fx(r).bits;
    proof {
        assert(-0x1_0000_0000_0000 <= p.x.bits * c <= 0x1_0000_0000_0000
            && -0x1_0000_0000_0000 <= p.y.bits * s <= 0x1_0000_0000_0000
            && -0x1_0000_0000_0000 <= p.x.bits * s <= 0x1_0000_0000_0000
            && -0x1_0000_0000_0000 <= p.y.bits * c <= 0x1_0000_0000_0000)
            by (nonlinear_arith)
            requires
                -0x4000_0000 <= p.x.bits <= 0x4000_0000,
                -0x4000_0000 <= p.y.bits <= 0x4000_0000,
                -0x10000 <= s <= 0x10000,
                -0x10000 <= c <= 0x10000,
        ;
    }
    let xn: i64 = p.x.bits * c - p.y.bits * s;
    let yn: i64 = p.x.bits * s + p.y.bits * c;
    let xq: i64 = if xn >= 0 {
        xn / FX_ONE
    } else {
        -((-xn) / FX_ONE)
    };
    let yq: i64 = if yn >= 0 {
        yn / FX_ONE
    } else {
        -((-yn) / FX_ONE)
    };
    FxVec { x: Fx::from_bits(xq), y: Fx::from_bits(yq) }
}

/// One step of composition: a child's local pose under its parent's
/// world pose.
///
/// Scales multiply componentwise, rotations add, and the child position
/// is scaled, rotated, then offset. Draw-order, opacity and texture
/// fields stay the child's own.
pub open spec fn compose_one_spec(pw: PoseBone, local: PoseBone) -> PoseBone {
    let sx = fx_mul_spec(local.pos.x.v(), pw.scale.x.v());
    let sy = fx_mul_spec(local.pos.y.v(), pw.scale.y.v());
    PoseBone {
        pos: FxVec {
            x: Fx { bits: fx_add_spec(pw.pos.x.v(), rot_x_spec(sx, sy, pw.rot.v())) as i64 },
            y: Fx { bits: fx_add_spec(pw.pos.y.v(), rot_y_spec(sx, sy, pw.rot.v())) as i64 },
        },
        rot: Fx { bits: fx_add_spec(pw.rot.v(), local.rot.v()) as i64 },
        scale: FxVec {
            x: Fx { bits: fx_mul_spec(pw.scale.x.v(), local.scale.x.v()) as i64 },
            y: Fx { bits: fx_mul_spec(pw.scale.y.v(), local.scale.y.v()) as i64 },
        },
        ..local
    }
}

/// Compose one bone under its parent's world pose.
pub fn compose_one(pw: PoseBone, local: PoseBone) -> (r: PoseBone)
    requires
        pw.wf(),
        local.wf(),
    ensures
        r.wf(),
        r == compose_one_spec(pw, local),
{
    let scaled = FxVec {
        x: local.pos.x.mul(pw.scale.x),
        y: local.pos.y.mul(pw.scale.y),
    };
    let turned = rotate_vec(scaled, pw.rot);
    let mut r = local;
    r.pos = FxVec { x: pw.pos.x.add(turned.x), y: pw.pos.y.add(turned.y) };
    r.rot = pw.rot.add(local.rot);
    r.scale = FxVec { x: pw.scale.x.mul(local.scale.x), y: pw.scale.y.mul(local.scale.y) };
    r
}

/// The world pose of bone `b`: its local pose composed under its
/// parent's world pose (roots compose under the identity), with the
/// rotation override applied last.
pub open spec fn world_pose_spec(
    bones: Seq<Bone>,
    pose: Seq<PoseBone>,
    ik: Seq<Option<Fx>>,
    b: int,
) -> PoseBone
    decreases b,
{
    let local = pose[b];
    let base = match bones[b].parent {
        Some(p) => {
            if 0 <= p < b {
                compose_one_spec(world_pose_spec(bones, pose, ik, p as int), local)
            } else {
                local
            }
        },
        None => local,
    };
    match ik[b] {
        Some(r) => PoseBone { rot: r, ..base },
        None => base,
    }
}

/// The world pose of every bone.
pub open spec fn compose_spec(bones: Seq<Bone>, pose: Seq<PoseBone>, ik: Seq<Option<Fx>>)
    -> Seq<PoseBone> {
    Seq::new(pose.len(), |b: int| world_pose_spec(bones, pose, ik, b))
}

/// Rotation overrides are well formed when every present angle is.
pub open spec fn ik_wf(ik: Seq<Option<Fx>>) -> bool {
    forall|i: int| 0 <= i < ik.len() && (#[trigger] ik[i]) is Some ==> ik[i]->0.wf()
}

/// Compose a local pose into world space, parents before children.
pub fn compose(bones: &Vec<Bone>, pose: &Vec<PoseBone>, ik: &Vec<Option<Fx>>)
    -> (r: Vec<PoseBone>)
    requires
        pose@.len() == bones@.len(),
        ik@.len() == bones@.len(),
        pose_wf(pose@),
        ik_wf(ik@),
        forall|b: int|
            0 <= b < bones@.len() && (#[trigger] bones@[b]).parent is Some
                ==> bones@[b].parent->0 < b,
    ensures
        r@.len() == bones@.len(),
        pose_wf(r@),
        r@ == compose_spec(bones@, pose@, ik@),
{
    let n = bones.len();
    let mut out: Vec<PoseBone> = Vec::new();
    for b in 0..n
        invariant
            n == bones@.len(),
            pose@.len() == n,
            ik@.len() == n,
            pose_wf(pose@),
            ik_wf(ik@),
            forall|j: int|
                0 <= j < n && (#[trigger] bones@[j]).parent is Some
                    ==> bones@[j].parent->0 < j,
            out@.len() == b,
            pose_wf(out@),
            forall|j: int| 0 <= j < b
                ==> out@[j] == world_pose_spec(bones@, pose@, ik@, j),
    {
        let local = pose[b];
        let base = match bones[b].parent {
            Some(p) => {
                if p < b {
                    compose_one(out[p], local)
                } else {
                    local
                }
            },
            None => local,
        };
        let world = match ik[b] {
            Some(rr) => {
                let mut w = base;
                w.rot = rr;
                w
            },
            None => base,
        };
        out.push(world);
    }
    proof {
        assert(out@ =~= compose_spec(bones@, pose@, ik@));
    }
    out
}

} // verus!
