//! The inverse-kinematics solver.
//!
//! Each chain is solved independently against the pre-IK world pose:
//! the solver reads the chain bones' current world positions and the
//! target bone's world position, and produces a world-rotation override
//! for every chain bone except the effector. It never moves a position
//! itself; the hierarchy composer's second pass applies the overrides.
//!
//! A target at or beyond the chain's total reach extends the chain
//! fully toward the target: every solved joint points straight at it.
//! Within reach, a chain of exactly two links gets the closed-form
//! law-of-cosines solution, with the bend side chosen by the chain's
//! constraint; any other chain is solved iteratively: a fixed number
//! of forward-and-backward reaching rounds over the joint positions,
//! after which each joint's rotation points at its successor's solved
//! position — reflected about the base-to-target axis when the solved
//! bend lands on the side the chain's constraint forbids. A target
//! sitting exactly on the chain base leaves the chain unchanged.
//!
//! Chains are assumed not to share joints; when two chains do overlap,
//! the later chain's overrides win.

use vstd::prelude::*;
use crate::fx::{Fx, FX_LIM, sat};
use crate::model::{BendConstraint, FxVec, IkFamily, PoseBone};
use crate::trig::{atan2_fx, atan2_spec, isqrt_spec, isqrt64, lemma_isqrt_correct};

verus! {

/// The distance between two world positions, in raw fixed-point units.
pub open spec fn dist_spec(ax: int, ay: int, bx: int, by: int) -> int {
    isqrt_spec((bx - ax) * (bx - ax) + (by - ay) * (by - ay))
}

/// Measure the distance between two posed bones' positions.
pub fn dist_points(a: &PoseBone, b: &PoseBone) -> (r: i64)
    requires
        a.wf(),
        b.wf(),
    ensures
        r == dist_spec(a.pos.x.v(), a.pos.y.v(), b.pos.x.v(), b.pos.y.v()),
        0 <= r < 0x1_0000_0000,
{
    dist_vec(a.pos, b.pos)
}

/// Measure the distance between two points.
pub fn dist_vec(a: FxVec, b: FxVec) -> (r: i64)
    requires
        a.wf(),
        b.wf(),
    ensures
        r == dist_spec(a.x.v(), a.y.v(), b.x.v(), b.y.v()),
        0 <= r < 0x1_0000_0000,
{
    let dx: i64 = b.x.bits - a.x.bits;
    let dy: i64 = b.y.bits - a.y.bits;
    proof {
        assert(0 <= dx * dx <= 0x4000_0000_0000_0000 && 0 <= dy * dy <= 0x4000_0000_0000_0000)
            by (nonlinear_arith)
            requires
                -0x8000_0000 <= dx <= 0x8000_0000,
                -0x8000_0000 <= dy <= 0x8000_0000,
        ;
    }
    let d2: u64 = ((dx * dx) as u64) + ((dy * dy) as u64);
    let r: u64 = isqrt64(d2);
    r as i64
}

/// A chain the solver will process: at least two bones, all indices in
/// range, a bounded length, and the chain root's IK flag on.
pub open spec fn chain_valid(world: Seq<PoseBone>, fam: IkFamily) -> bool {
    &&& 2 <= fam.bones@.len() <= 0x10000
    &&& forall|i: int| 0 <= i < fam.bones@.len() ==> (#[trigger] fam.bones@[i]) < world.len()
    &&& fam.target < world.len()
    &&& world[fam.bones@[0] as int].ik_on
}

/// The chain's total reach: the sum of its link lengths in the current
/// world pose.
pub open spec fn chain_reach(world: Seq<PoseBone>, ch: Seq<usize>) -> int
    decreases ch.len(),
{
    if ch.len() <= 1 {
        0
    } else {
        chain_reach(world, ch.drop_last()) + dist_spec(
            world[ch[ch.len() - 2] as int].pos.x.v(),
            world[ch[ch.len() - 2] as int].pos.y.v(),
            world[ch[ch.len() - 1] as int].pos.x.v(),
            world[ch[ch.len() - 1] as int].pos.y.v(),
        )
    }
}

/// Each link is a distance between in-band points, so the total reach
/// of a bounded chain is bounded.
pub proof fn lemma_chain_reach_bounds(world: Seq<PoseBone>, ch: Seq<usize>)
    requires
        crate::model::pose_wf(world),
        forall|i: int| 0 <= i < ch.len() ==> (#[trigger] ch[i]) < world.len(),
        ch.len() <= 0x10000,
    ensures
        0 <= chain_reach(world, ch) <= ch.len() * 0x1_0000_0000,
    decreases ch.len(),
{
    if ch.len() <= 1 {
    } else {
        lemma_chain_reach_bounds(world, ch.drop_last());
        let a = world[ch[ch.len() - 2] as int];
        let b = world[ch[ch.len() - 1] as int];
        let dx = b.pos.x.v() - a.pos.x.v();
        let dy = b.pos.y.v() - a.pos.y.v();
        let d2 = dx * dx + dy * dy;
        assert(0 <= d2 <= 0x8000_0000_0000_0000) by (nonlinear_arith)
            requires
                -0x8000_0000 <= dx <= 0x8000_0000,
                -0x8000_0000 <= dy <= 0x8000_0000,
                d2 == dx * dx + dy * dy,
        ;
        lemma_isqrt_in_range(d2);
        assert((ch.len() - 1) * 0x1_0000_0000 + 0x1_0000_0000 == ch.len() * 0x1_0000_0000)
            by (nonlinear_arith)
        ;
    }
}

/// The integer square root of a bounded number is bounded.
proof fn lemma_isqrt_in_range(x: int)
    requires
        0 <= x <= 0x8000_0000_0000_0000,
    ensures
        0 <= isqrt_spec(x) < 0x1_0000_0000,
{
    lemma_isqrt_correct(x);
    let r = isqrt_spec(x);
    assert(r < 0x1_0000_0000) by (nonlinear_arith)
        requires
            0 <= r,
            r * r <= x,
            x <= 0x8000_0000_0000_0000,
    ;
}

/// The aim angle of a chain: the direction from the chain base to the
/// target.
pub open spec fn aim_angle_spec(world: Seq<PoseBone>, fam: IkFamily) -> int {
    let b = world[fam.bones@[0] as int].pos;
    let t = world[fam.target as int].pos;
    atan2_spec(t.y.v() - b.y.v(), t.x.v() - b.x.v())
}

/// Truncated division of a wide intermediate by a positive divisor.
pub open spec fn div_trunc_wide(a: int, d: int) -> int
    recommends
        d > 0,
{
    if a >= 0 {
        a / d
    } else {
        -((-a) / d)
    }
}

/// The two solved world rotations of an in-reach two-link chain.
///
/// The mid joint sits at distance `x` along the base-to-target axis and
/// height `h` beside it (the law-of-cosines triangle); the bend side
/// follows the chain's constraint. The returned pair is (root rotation,
/// mid rotation).
pub open spec fn two_link_spec(world: Seq<PoseBone>, fam: IkFamily) -> (int, int) {
    let bp = world[fam.bones@[0] as int].pos;
    let mp = world[fam.bones@[1] as int].pos;
    let ep = world[fam.bones@[2] as int].pos;
    let tp = world[fam.target as int].pos;
    let a = dist_spec(bp.x.v(), bp.y.v(), mp.x.v(), mp.y.v());
    let bl = dist_spec(mp.x.v(), mp.y.v(), ep.x.v(), ep.y.v());
    let d = dist_spec(bp.x.v(), bp.y.v(), tp.x.v(), tp.y.v());
    let dx = tp.x.v() - bp.x.v();
    let dy = tp.y.v() - bp.y.v();
    let x0 = div_trunc_wide(a * a - bl * bl + d * d, 2 * d);
    let x = if x0 > a {
        a
    } else if x0 < -a {
        -a
    } else {
        x0
    };
    let h = isqrt_spec(a * a - x * x);
    let s = if fam.constraint is Clockwise {
        -1int
    } else {
        1int
    };
    let jx = sat(bp.x.v() + div_trunc_wide(dx * x - dy * (h * s), d));
    let jy = sat(bp.y.v() + div_trunc_wide(dy * x + dx * (h * s), d));
    let rot0 = atan2_spec(jy - bp.y.v(), jx - bp.x.v());
    let rot1 = atan2_spec(tp.y.v() - jy, tp.x.v() - jx);
    (rot0, rot1)
}

/// Rotation overrides for the first `upto` chain bones, all set to the
/// same angle.
pub open spec fn set_chain_spec(
    out: Seq<Option<Fx>>,
    ch: Seq<usize>,
    upto: int,
    rot: int,
) -> Seq<Option<Fx>>
    decreases upto,
{
    if upto <= 0 {
        out
    } else {
        set_chain_spec(out, ch, upto - 1, rot).update(
            ch[upto - 1] as int,
            Some(Fx { bits: rot as i64 }),
        )
    }
}

/// How many forward-and-backward rounds the iterative solver runs.
pub const FABRIK_ROUNDS: u32 = 10;

/// One placement step of the iterative solver: the point at distance
/// `len` from `t` toward `f` (or `t` itself when the two coincide).
pub open spec fn reach_toward_spec(f: FxVec, t: FxVec, len: int) -> FxVec {
    let d = dist_spec(t.x.v(), t.y.v(), f.x.v(), f.y.v());
    if d == 0 {
        t
    } else {
        FxVec {
            x: Fx { bits: sat(t.x.v() + div_trunc_wide((f.x.v() - t.x.v()) * len, d)) as i64 },
            y: Fx { bits: sat(t.y.v() + div_trunc_wide((f.y.v() - t.y.v()) * len, d)) as i64 },
        }
    }
}

/// The forward (tip-to-root) half of a solver round: with the effector
/// already pinned, each position from index `i - 1` down to the root
/// is pulled to link distance from its successor.
pub open spec fn fabrik_fwd_spec(ps: Seq<FxVec>, lens: Seq<i64>, i: int) -> Seq<FxVec>
    decreases i,
{
    if i <= 0 {
        ps
    } else {
        fabrik_fwd_spec(
            ps.update(i - 1, reach_toward_spec(ps[i - 1], ps[i], lens[i - 1] as int)),
            lens,
            i - 1,
        )
    }
}

/// The backward (root-to-tip) half: with the root pinned back on the
/// base, each position from index `i` up is pulled to link distance
/// from its predecessor.
pub open spec fn fabrik_bwd_spec(ps: Seq<FxVec>, lens: Seq<i64>, i: int) -> Seq<FxVec>
    decreases ps.len() - i,
{
    if i < 1 || i >= ps.len() {
        ps
    } else {
        fabrik_bwd_spec(
            ps.update(i, reach_toward_spec(ps[i], ps[i - 1], lens[i - 1] as int)),
            lens,
            i + 1,
        )
    }
}

/// One full solver round: pin the effector on the target and walk
/// down, then pin the root on the base and walk up.
pub open spec fn fabrik_round_spec(ps: Seq<FxVec>, lens: Seq<i64>, base: FxVec, target: FxVec)
    -> Seq<FxVec> {
    let fwd = fabrik_fwd_spec(ps.update(ps.len() - 1, target), lens, ps.len() - 1);
    fabrik_bwd_spec(fwd.update(0, base), lens, 1)
}

/// The chain positions after `k` solver rounds.
pub open spec fn fabrik_solve_spec(
    ps: Seq<FxVec>,
    lens: Seq<i64>,
    base: FxVec,
    target: FxVec,
    k: int,
) -> Seq<FxVec>
    decreases k,
{
    if k <= 0 {
        ps
    } else {
        fabrik_round_spec(fabrik_solve_spec(ps, lens, base, target, k - 1), lens, base, target)
    }
}

/// The chain bones' current world positions.
pub open spec fn chain_pos_spec(world: Seq<PoseBone>, ch: Seq<usize>) -> Seq<FxVec> {
    Seq::new(ch.len(), |i: int| world[ch[i] as int].pos)
}

/// The chain's link lengths in the current world pose.
pub open spec fn chain_lens_spec(world: Seq<PoseBone>, ch: Seq<usize>) -> Seq<i64> {
    Seq::new(
        (ch.len() - 1) as nat,
        |i: int| dist_spec(
            world[ch[i] as int].pos.x.v(),
            world[ch[i] as int].pos.y.v(),
            world[ch[i + 1] as int].pos.x.v(),
            world[ch[i + 1] as int].pos.y.v(),
        ) as i64,
    )
}

/// A solved joint's world rotation: toward the next solved position.
pub open spec fn joint_rot_spec(qs: Seq<FxVec>, i: int) -> int {
    atan2_spec(qs[i + 1].y.v() - qs[i].y.v(), qs[i + 1].x.v() - qs[i].x.v())
}

/// Which side the solved chain bends to: the cross product of the
/// first solved link with the base-to-target direction.
pub open spec fn bend_cross_spec(qs: Seq<FxVec>, target: FxVec) -> int {
    let jx = qs[1].x.v() - qs[0].x.v();
    let jy = qs[1].y.v() - qs[0].y.v();
    let bx = target.x.v() - qs[0].x.v();
    let by = target.y.v() - qs[0].y.v();
    jx * by - bx * jy
}

/// Does the solved bend side violate the chain's constraint?
pub open spec fn bend_violated_spec(c: BendConstraint, cross: int) -> bool {
    ||| (c is Clockwise && cross > 0)
    ||| (c is CounterClockwise && cross < 0)
}

/// The rotation written for a solved joint: toward its successor, or,
/// when the bend side violates the chain's constraint, reflected about
/// the base-to-target axis (`-rot + 2 * theta`).
pub open spec fn solved_rot_spec(qs: Seq<FxVec>, i: int, reflect: bool, theta: int) -> int {
    if reflect {
        -joint_rot_spec(qs, i) + 2 * theta
    } else {
        joint_rot_spec(qs, i)
    }
}

/// Rotation overrides for the first `upto` chain bones, each toward
/// its successor's solved position, reflected as the constraint asks.
pub open spec fn set_rots_spec(
    out: Seq<Option<Fx>>,
    ch: Seq<usize>,
    qs: Seq<FxVec>,
    upto: int,
    reflect: bool,
    theta: int,
) -> Seq<Option<Fx>>
    decreases upto,
{
    if upto <= 0 {
        out
    } else {
        set_rots_spec(out, ch, qs, upto - 1, reflect, theta).update(
            ch[upto - 1] as int,
            Some(Fx { bits: solved_rot_spec(qs, upto - 1, reflect, theta) as i64 }),
        )
    }
}

/// What solving one family does to the override table.
pub open spec fn apply_family_spec(out: Seq<Option<Fx>>, world: Seq<PoseBone>, fam: IkFamily)
    -> Seq<Option<Fx>> {
    if !chain_valid(world, fam) {
        out
    } else {
        let bp = world[fam.bones@[0] as int].pos;
        let tp = world[fam.target as int].pos;
        let d = dist_spec(bp.x.v(), bp.y.v(), tp.x.v(), tp.y.v());
        let reach = chain_reach(world, fam.bones@);
        if d >= reach {
            set_chain_spec(out, fam.bones@, fam.bones@.len() - 1,
                aim_angle_spec(world, fam))
        } else if d == 0 {
            out
        } else if fam.bones@.len() == 3 {
            let (rot0, rot1) = two_link_spec(world, fam);
            out.update(fam.bones@[0] as int, Some(Fx { bits: rot0 as i64 })).update(
                fam.bones@[1] as int,
                Some(Fx { bits: rot1 as i64 }),
            )
        } else {
            let qs = fabrik_solve_spec(
                chain_pos_spec(world, fam.bones@),
                chain_lens_spec(world, fam.bones@),
                bp,
                tp,
                FABRIK_ROUNDS as int,
            );
            let reflect = bend_violated_spec(fam.constraint, bend_cross_spec(qs, tp));
            set_rots_spec(out, fam.bones@, qs, fam.bones@.len() - 1, reflect,
                aim_angle_spec(world, fam))
        }
    }
}

/// The override table after solving every family in order.
pub open spec fn solve_ik_spec(world: Seq<PoseBone>, fams: Seq<IkFamily>) -> Seq<Option<Fx>>
    decreases fams.len(),
{
    if fams.len() == 0 {
        Seq::new(world.len(), |i: int| None::<Fx>)
    } else {
        apply_family_spec(solve_ik_spec(world, fams.drop_last()), world, fams.last())
    }
}

/// The override table always keeps the pose's length and holds only
/// well-formed angles.
pub proof fn lemma_apply_family_wf(out: Seq<Option<Fx>>, world: Seq<PoseBone>, fam: IkFamily)
    requires
        crate::model::pose_wf(world),
        out.len() == world.len(),
        crate::hierarchy::ik_wf(out),
    ensures
        apply_family_spec(out, world, fam).len() == world.len(),
        crate::hierarchy::ik_wf(apply_family_spec(out, world, fam)),
{
    crate::trig::lemma_atan2_in_band_all();
    if chain_valid(world, fam) {
        let bp = world[fam.bones@[0] as int].pos;
        let tp = world[fam.target as int].pos;
        let d = dist_spec(bp.x.v(), bp.y.v(), tp.x.v(), tp.y.v());
        let reach = chain_reach(world, fam.bones@);
        if d >= reach {
            lemma_set_chain_wf(out, fam.bones@, fam.bones@.len() - 1,
                aim_angle_spec(world, fam));
        } else if d == 0 {
        } else if fam.bones@.len() == 3 {
            lemma_two_link_in_band(world, fam);
        } else {
            let qs = fabrik_solve_spec(
                chain_pos_spec(world, fam.bones@),
                chain_lens_spec(world, fam.bones@),
                bp,
                tp,
                FABRIK_ROUNDS as int,
            );
            let reflect = bend_violated_spec(fam.constraint, bend_cross_spec(qs, tp));
            lemma_set_rots_wf(out, fam.bones@, qs, fam.bones@.len() - 1, reflect,
                aim_angle_spec(world, fam));
        }
    }
}

/// Writing per-joint rotations preserves length and well-formedness:
/// every written angle is an atan2 value, possibly reflected about an
/// atan2 value, which stays well inside the saturation band.
proof fn lemma_set_rots_wf(
    out: Seq<Option<Fx>>,
    ch: Seq<usize>,
    qs: Seq<FxVec>,
    upto: int,
    reflect: bool,
    theta: int,
)
    requires
        crate::hierarchy::ik_wf(out),
        forall|i: int| 0 <= i < ch.len() ==> (#[trigger] ch[i]) < out.len(),
        upto <= ch.len(),
        -crate::fx::HALF_TURN <= theta <= crate::fx::HALF_TURN,
    ensures
        set_rots_spec(out, ch, qs, upto, reflect, theta).len() == out.len(),
        crate::hierarchy::ik_wf(set_rots_spec(out, ch, qs, upto, reflect, theta)),
    decreases upto,
{
    if upto > 0 {
        lemma_set_rots_wf(out, ch, qs, upto - 1, reflect, theta);
        crate::trig::lemma_atan2_in_band(qs[upto].y.v() - qs[upto - 1].y.v(),
            qs[upto].x.v() - qs[upto - 1].x.v());
    }
}

/// Both two-link rotations are in the angle band.
proof fn lemma_two_link_in_band(world: Seq<PoseBone>, fam: IkFamily)
    requires
        crate::model::pose_wf(world),
        chain_valid(world, fam),
        fam.bones@.len() == 3,
    ensures
        -FX_LIM <= two_link_spec(world, fam).0 <= FX_LIM,
        -FX_LIM <= two_link_spec(world, fam).1 <= FX_LIM,
{
    crate::trig::lemma_atan2_in_band_all();
}

/// Setting a chain's overrides preserves length and well-formedness
/// when the written angle is in band.
proof fn lemma_set_chain_wf(out: Seq<Option<Fx>>, ch: Seq<usize>, upto: int, rot: int)
    requires
        crate::hierarchy::ik_wf(out),
        -FX_LIM <= rot <= FX_LIM,
        forall|i: int| 0 <= i < ch.len() ==> (#[trigger] ch[i]) < out.len(),
        upto <= ch.len(),
    ensures
        set_chain_spec(out, ch, upto, rot).len() == out.len(),
        crate::hierarchy::ik_wf(set_chain_spec(out, ch, upto, rot)),
    decreases upto,
{
    if upto > 0 {
        lemma_set_chain_wf(out, ch, upto - 1, rot);
    }
}

/// Solve every chain against the pre-IK world pose.
pub fn solve_ik(world: &Vec<PoseBone>, fams: &Vec<IkFamily>) -> (r: Vec<Option<Fx>>)
    requires
        crate::model::pose_wf(world@),
    ensures
        r@.len() == world@.len(),
        crate::hierarchy::ik_wf(r@),
        r@ == solve_ik_spec(world@, fams@),
{
    let n = world.len();
    let mut out: Vec<Option<Fx>> = Vec::new();
    for i in 0..n
        invariant
            out@.len() == i,
            forall|j: int| 0 <= j < i ==> (#[trigger] out@[j]) is None,
    {
        out.push(None);
    }
    proof {
        assert(out@ =~= Seq::new(world@.len(), |i: int| None::<Fx>));
    }
    let n_fams = fams.len();
    for f in 0..n_fams
        invariant
            n_fams == fams@.len(),
            crate::model::pose_wf(world@),
            out@.len() == world@.len(),
            crate::hierarchy::ik_wf(out@),
            out@ == solve_ik_spec(world@, fams@.take(f as int)),
    {
        proof {
            assert(fams@.take(f + 1).drop_last() =~= fams@.take(f as int));
            assert(fams@.take(f + 1).last() == fams@[f as int]);
        }
        apply_family(&mut out, world, &fams[f]);
    }
    proof {
        assert(fams@.take(n_fams as int) =~= fams@);
    }
    out
}

/// Solve one family and write its overrides into the table.
fn apply_family(out: &mut Vec<Option<Fx>>, world: &Vec<PoseBone>, fam: &IkFamily)
    requires
        crate::model::pose_wf(world@),
        old(out)@.len() == world@.len(),
        crate::hierarchy::ik_wf(old(out)@),
    ensures
        final(out)@.len() == world@.len(),
        crate::hierarchy::ik_wf(final(out)@),
        final(out)@ == apply_family_spec(old(out)@, world@, *fam),
{
    let m = fam.bones.len();
    let valid = check_valid(world, fam);
    if !valid {
        return;
    }
    let base = fam.bones[0];
    let bp = world[base];
    let tp = world[fam.target];
    let d = dist_points(&bp, &tp);
    let reach = measure_reach(world, &fam.bones);
    proof {
        lemma_apply_family_wf(old(out)@, world@, *fam);
    }
    if d >= reach {
        let theta = atan2_fx(tp.pos.y.bits - bp.pos.y.bits, tp.pos.x.bits - bp.pos.x.bits);
        let ghost start = out@;
        for i in 0..m - 1
            invariant
                m == fam.bones@.len(),
                2 <= m <= 0x10000,
                forall|k: int| 0 <= k < m ==> (#[trigger] fam.bones@[k]) < out@.len(),
                out@.len() == world@.len(),
                theta.wf(),
                theta.v() == aim_angle_spec(world@, *fam),
                out@ == set_chain_spec(start, fam.bones@, i as int, theta.v()),
        {
            let idx = fam.bones[i];
            out.set(idx, Some(theta));
        }
    } else if d == 0 {
    } else if m == 3 {
        let (rot0, rot1) = two_link(world, fam);
        let b0 = fam.bones[0];
        let b1 = fam.bones[1];
        out.set(b0, Some(rot0));
        out.set(b1, Some(rot1));
    } else {
        let qs = fabrik_positions(world, &fam.bones, bp.pos, tp.pos);
        let theta = atan2_fx(tp.pos.y.bits - bp.pos.y.bits, tp.pos.x.bits - bp.pos.x.bits);
        let jx: i64 = qs[1].x.bits - qs[0].x.bits;
        let jy: i64 = qs[1].y.bits - qs[0].y.bits;
        let bx: i64 = tp.pos.x.bits - qs[0].x.bits;
        let by: i64 = tp.pos.y.bits - qs[0].y.bits;
        proof {
            assert(-0x4000_0000_0000_0000 <= jx * by <= 0x4000_0000_0000_0000
                && -0x4000_0000_0000_0000 <= bx * jy <= 0x4000_0000_0000_0000)
                by (nonlinear_arith)
                requires
                    -0x8000_0000 <= jx <= 0x8000_0000,
                    -0x8000_0000 <= jy <= 0x8000_0000,
                    -0x8000_0000 <= bx <= 0x8000_0000,
                    -0x8000_0000 <= by <= 0x8000_0000,
            ;
        }
        let cross: i128 = (jx as i128) * (by as i128) - (bx as i128) * (jy as i128);
        let reflect = match fam.constraint {
            BendConstraint::Clockwise => cross > 0,
            BendConstraint::CounterClockwise => cross < 0,
            BendConstraint::Free => false,
        };
        let ghost start = out@;
        for i in 0..m - 1
            invariant
                m == fam.bones@.len(),
                2 <= m <= 0x10000,
                qs@.len() == m,
                chain_points_wf(qs@),
                forall|k: int| 0 <= k < m ==> (#[trigger] fam.bones@[k]) < out@.len(),
                out@.len() == world@.len(),
                qs@ == fabrik_solve_spec(chain_pos_spec(world@, fam.bones@),
                    chain_lens_spec(world@, fam.bones@), bp.pos, tp.pos, FABRIK_ROUNDS as int),
                theta.wf(),
                theta.v() == aim_angle_spec(world@, *fam),
                -crate::fx::HALF_TURN <= theta.v() <= crate::fx::HALF_TURN,
                reflect == bend_violated_spec(fam.constraint, bend_cross_spec(qs@, tp.pos)),
                out@ == set_rots_spec(start, fam.bones@, qs@, i as int, reflect, theta.v()),
        {
            let aimed = atan2_fx(qs[i + 1].y.bits - qs[i].y.bits,
                qs[i + 1].x.bits - qs[i].x.bits);
            let rot = if reflect {
                Fx { bits: -aimed.bits + 2 * theta.bits }
            } else {
                aimed
            };
            let idx = fam.bones[i];
            out.set(idx, Some(rot));
        }
    }
}

/// Every point of a working chain is in band.
pub open spec fn chain_points_wf(ps: Seq<FxVec>) -> bool {
    forall|i: int| 0 <= i < ps.len() ==> (#[trigger] ps[i]).wf()
}

/// Run the iterative solver over the chain's current positions.
fn fabrik_positions(world: &Vec<PoseBone>, ch: &Vec<usize>, base: FxVec, target: FxVec)
    -> (r: Vec<FxVec>)
    requires
        crate::model::pose_wf(world@),
        2 <= ch@.len() <= 0x10000,
        forall|i: int| 0 <= i < ch@.len() ==> (#[trigger] ch@[i]) < world@.len(),
        base.wf(),
        target.wf(),
    ensures
        r@.len() == ch@.len(),
        chain_points_wf(r@),
        r@ == fabrik_solve_spec(chain_pos_spec(world@, ch@), chain_lens_spec(world@, ch@), base,
            target, FABRIK_ROUNDS as int),
{
    let m = ch.len();
    let mut ps: Vec<FxVec> = Vec::new();
    for i in 0..m
        invariant
            m == ch@.len(),
            crate::model::pose_wf(world@),
            forall|k: int| 0 <= k < m ==> (#[trigger] ch@[k]) < world@.len(),
            ps@.len() == i,
            chain_points_wf(ps@),
            forall|k: int| 0 <= k < i ==> ps@[k] == world@[ch@[k] as int].pos,
    {
        ps.push(world[ch[i]].pos);
    }
    proof {
        assert(ps@ =~= chain_pos_spec(world@, ch@));
    }
    let mut lens: Vec<i64> = Vec::new();
    let mut i: usize = 0;
    while i + 1 < m
        invariant
            m == ch@.len(),
            2 <= m,
            ps@ == chain_pos_spec(world@, ch@),
            ps@.len() == m,
            chain_points_wf(ps@),
            i + 1 <= m,
            lens@.len() == i,
            forall|k: int| 0 <= k < i ==> (#[trigger] lens@[k]) == chain_lens_spec(world@, ch@)[k],
            forall|k: int| 0 <= k < i ==> 0 <= (#[trigger] lens@[k]) < 0x1_0000_0000,
        decreases m - i,
    {
        let l = dist_vec(ps[i], ps[i + 1]);
        lens.push(l);
        i = i + 1;
    }
    proof {
        assert(lens@ =~= chain_lens_spec(world@, ch@));
    }
    let ghost ps0 = ps@;
    let mut round: u32 = 0;
    while round < FABRIK_ROUNDS
        invariant
            round <= FABRIK_ROUNDS,
            ps@.len() == m,
            2 <= m <= 0x10000,
            lens@.len() + 1 == m,
            forall|k: int| 0 <= k < lens@.len() ==> 0 <= (#[trigger] lens@[k]) < 0x1_0000_0000,
            chain_points_wf(ps@),
            base.wf(),
            target.wf(),
            ps@ == fabrik_solve_spec(ps0, lens@, base, target, round as int),
        decreases FABRIK_ROUNDS - round,
    {
        fabrik_round(&mut ps, &lens, base, target);
        round = round + 1;
    }
    ps
}

/// One forward-and-backward round of the iterative solver.
fn fabrik_round(ps: &mut Vec<FxVec>, lens: &Vec<i64>, base: FxVec, target: FxVec)
    requires
        2 <= old(ps)@.len(),
        lens@.len() + 1 == old(ps)@.len(),
        forall|k: int| 0 <= k < lens@.len() ==> 0 <= (#[trigger] lens@[k]) < 0x1_0000_0000,
        chain_points_wf(old(ps)@),
        base.wf(),
        target.wf(),
    ensures
        final(ps)@.len() == old(ps)@.len(),
        chain_points_wf(final(ps)@),
        final(ps)@ == fabrik_round_spec(old(ps)@, lens@, base, target),
{
    let m = ps.len();
    ps.set(m - 1, target);
    let ghost s0 = ps@;
    let mut i: usize = m - 1;
    while i > 0
        invariant
            m == ps@.len(),
            2 <= m,
            lens@.len() + 1 == m,
            forall|k: int| 0 <= k < lens@.len() ==> 0 <= (#[trigger] lens@[k]) < 0x1_0000_0000,
            chain_points_wf(ps@),
            i <= m - 1,
            fabrik_fwd_spec(ps@, lens@, i as int) == fabrik_fwd_spec(s0, lens@, m - 1),
        decreases i,
    {
        let np = reach_toward(ps[i - 1], ps[i], lens[i - 1]);
        ps.set(i - 1, np);
        i = i - 1;
    }
    ps.set(0, base);
    let ghost s1 = ps@;
    let mut j: usize = 1;
    while j < m
        invariant
            m == ps@.len(),
            2 <= m,
            lens@.len() + 1 == m,
            forall|k: int| 0 <= k < lens@.len() ==> 0 <= (#[trigger] lens@[k]) < 0x1_0000_0000,
            chain_points_wf(ps@),
            1 <= j <= m,
            fabrik_bwd_spec(ps@, lens@, j as int) == fabrik_bwd_spec(s1, lens@, 1),
        decreases m - j,
    {
        let np = reach_toward(ps[j], ps[j - 1], lens[j - 1]);
        ps.set(j, np);
        j = j + 1;
    }
}

/// One placement step of the iterative solver.
fn reach_toward(f: FxVec, t: FxVec, len: i64) -> (r: FxVec)
    requires
        f.wf(),
        t.wf(),
        0 <= len < 0x1_0000_0000,
    ensures
        r.wf(),
        r == reach_toward_spec(f, t, len as int),
{
    let d = dist_vec(t, f);
    if d == 0 {
        t
    } else {
        proof {
            assert(-0x8000_0000_0000_0000 <= (f.x.bits - t.x.bits) * len
                <= 0x8000_0000_0000_0000
                && -0x8000_0000_0000_0000 <= (f.y.bits - t.y.bits) * len
                <= 0x8000_0000_0000_0000)
                by (nonlinear_arith)
                requires
                    -0x8000_0000 <= f.x.bits - t.x.bits <= 0x8000_0000,
                    -0x8000_0000 <= f.y.bits - t.y.bits <= 0x8000_0000,
                    0 <= len < 0x1_0000_0000,
            ;
        }
        let x = sat_wide(
            (t.x.bits as i128) + div_wide(((f.x.bits - t.x.bits) as i128) * (len as i128),
                d as i128),
        );
        let y = sat_wide(
            (t.y.bits as i128) + div_wide(((f.y.bits - t.y.bits) as i128) * (len as i128),
                d as i128),
        );
        FxVec { x: Fx { bits: x }, y: Fx { bits: y } }
    }
}

/// Check that a chain is one the solver processes.
fn check_valid(world: &Vec<PoseBone>, fam: &IkFamily) -> (r: bool)
    ensures
        r == chain_valid(world@, *fam),
{
    let m = fam.bones.len();
    if m < 2 || m > 0x10000 {
        return false;
    }
    if fam.target >= world.len() {
        return false;
    }
    let mut ok = true;
    for i in 0..m
        invariant
            m == fam.bones@.len(),
            ok == forall|k: int| 0 <= k < i ==> (#[trigger] fam.bones@[k]) < world@.len(),
    {
        if fam.bones[i] >= world.len() {
            ok = false;
        }
    }
    if !ok {
        return false;
    }
    world[fam.bones[0]].ik_on
}

/// Sum the chain's link lengths in the current world pose.
fn measure_reach(world: &Vec<PoseBone>, ch: &Vec<usize>) -> (r: i64)
    requires
        crate::model::pose_wf(world@),
        forall|i: int| 0 <= i < ch@.len() ==> (#[trigger] ch@[i]) < world@.len(),
        ch@.len() <= 0x10000,
    ensures
        r == chain_reach(world@, ch@),
        0 <= r <= 0x1_0000_0000_0000,
{
    let m = ch.len();
    let mut acc: i64 = 0;
    if m == 0 {
        return 0;
    }
    for i in 1..m
        invariant
            m == ch@.len() <= 0x10000,
            crate::model::pose_wf(world@),
            forall|k: int| 0 <= k < m ==> (#[trigger] ch@[k]) < world@.len(),
            acc == chain_reach(world@, ch@.take(i as int)),
            0 <= acc <= i * 0x1_0000_0000,
    {
        proof {
            assert(ch@.take(i + 1).drop_last() =~= ch@.take(i as int));
            lemma_chain_reach_bounds(world@, ch@.take(i as int));
        }
        let l = dist_points(&world[ch[i - 1]], &world[ch[i]]);
        acc = acc + l;
    }
    proof {
        assert(ch@.take(m as int) =~= ch@);
    }
    acc
}

/// The closed-form in-reach two-link solution.
fn two_link(world: &Vec<PoseBone>, fam: &IkFamily) -> (r: (Fx, Fx))
    requires
        crate::model::pose_wf(world@),
        chain_valid(world@, *fam),
        fam.bones@.len() == 3,
        dist_spec(
            world@[fam.bones@[0] as int].pos.x.v(),
            world@[fam.bones@[0] as int].pos.y.v(),
            world@[fam.target as int].pos.x.v(),
            world@[fam.target as int].pos.y.v(),
        ) > 0,
    ensures
        r.0.wf(),
        r.1.wf(),
        r.0.v() == two_link_spec(world@, *fam).0,
        r.1.v() == two_link_spec(world@, *fam).1,
{
    let bp = world[fam.bones[0]];
    let mp = world[fam.bones[1]];
    let ep = world[fam.bones[2]];
    let tp = world[fam.target];
    let a: i64 = dist_points(&bp, &mp);
    let bl: i64 = dist_points(&mp, &ep);
    let d: i64 = dist_points(&bp, &tp);
    let dx: i64 = tp.pos.x.bits - bp.pos.x.bits;
    let dy: i64 = tp.pos.y.bits - bp.pos.y.bits;
    proof {
        assert(0 <= a * a < 0x1_0000_0000_0000_0000_0000
            && 0 <= bl * bl < 0x1_0000_0000_0000_0000_0000
            && 0 <= d * d < 0x1_0000_0000_0000_0000_0000)
            by (nonlinear_arith)
            requires
                0 <= a < 0x1_0000_0000,
                0 <= bl < 0x1_0000_0000,
                0 <= d < 0x1_0000_0000,
        ;
    }
    let num: i128 = (a as i128) * (a as i128) - (bl as i128) * (bl as i128)
        + (d as i128) * (d as i128);
    let x0: i128 = div_wide(num, 2 * (d as i128));
    let x: i64 = if x0 > a as i128 {
        a
    } else if x0 < -(a as i128) {
        -a
    } else {
        x0 as i64
    };
    proof {
        assert(0 <= a * a - x * x && a * a - x * x < 0x1_0000_0000_0000_0000)
            by (nonlinear_arith)
            requires
                -a <= x <= a,
                0 <= a < 0x1_0000_0000,
        ;
    }
    let h64: u64 = isqrt64(((a as i128) * (a as i128) - (x as i128) * (x as i128)) as u64);
    let h: i64 = h64 as i64;
    let hs: i64 = if matches!(fam.constraint, BendConstraint::Clockwise) {
        -h
    } else {
        h
    };
    proof {
        let s: int = if fam.constraint is Clockwise { -1int } else { 1int };
        assert(hs == h * s) by (nonlinear_arith)
            requires
                (s == 1 && hs == h) || (s == -1 && hs == -h),
        ;
        assert(-0x1_0000_0000_0000_0000 <= (dx as int) * (x as int) <= 0x1_0000_0000_0000_0000
            && -0x1_0000_0000_0000_0000 <= (dy as int) * (hs as int) <= 0x1_0000_0000_0000_0000
            && -0x1_0000_0000_0000_0000 <= (dy as int) * (x as int) <= 0x1_0000_0000_0000_0000
            && -0x1_0000_0000_0000_0000 <= (dx as int) * (hs as int) <= 0x1_0000_0000_0000_0000)
            by (nonlinear_arith)
            requires
                -0x8000_0000 <= dx <= 0x8000_0000,
                -0x8000_0000 <= dy <= 0x8000_0000,
                -0x1_0000_0000 <= x <= 0x1_0000_0000,
                -0x1_0000_0000 <= hs <= 0x1_0000_0000,
        ;
    }
    let jx: i64 = sat_wide(
        (bp.pos.x.bits as i128)
            + div_wide((dx as i128) * (x as i128) - (dy as i128) * (hs as i128),
                d as i128),
    );
    let jy: i64 = sat_wide(
        (bp.pos.y.bits as i128)
            + div_wide((dy as i128) * (x as i128) + (dx as i128) * (hs as i128),
                d as i128),
    );
    let rot0 = atan2_fx(jy - bp.pos.y.bits, jx - bp.pos.x.bits);
    let rot1 = atan2_fx(tp.pos.y.bits - jy, tp.pos.x.bits - jx);
    (rot0, rot1)
}

/// Truncated division on wide intermediates.
fn div_wide(a: i128, d: i128) -> (r: i128)
    requires
        d > 0,
        -0x8000_0000_0000_0000_0000_0000_0000 <= a <= 0x8000_0000_0000_0000_0000_0000_0000,
    ensures
        r == div_trunc_wide(a as int, d as int),
        -0x8000_0000_0000_0000_0000_0000_0000 <= r <= 0x8000_0000_0000_0000_0000_0000_0000,
{
    if a >= 0 {
        let q = a / d;
        proof {
            lemma_div_le(a as int, d as int);
        }
        q
    } else {
        let q = (-a) / d;
        proof {
            lemma_div_le(-a as int, d as int);
        }
        -q
    }
}

/// Dividing a nonnegative number by a positive divisor never grows it.
proof fn lemma_div_le(a: int, d: int)
    requires
        a >= 0,
        d > 0,
    ensures
        0 <= a / d <= a,
{
    vstd::arithmetic::div_mod::lemma_div_pos_is_pos(a, d);
    vstd::arithmetic::div_mod::lemma_fundamental_div_mod(a, d);
    vstd::arithmetic::div_mod::lemma_mod_division_less_than_divisor(a, d);
    assert(a / d <= a) by (nonlinear_arith)
        requires
            a == d * (a / d) + a % d,
            a % d >= 0,
            a / d >= 0,
            d >= 1,
    ;
}

/// Clamp a wide intermediate into the saturation band.
fn sat_wide(v: i128) -> (r: i64)
    ensures
        r == sat(v as int),
{
    if v > FX_LIM as i128 {
        FX_LIM
    } else if v < -(FX_LIM as i128) {
        -FX_LIM
    } else {
        v as i64
    }
}

} // verus!
