//! The mesh and quad synthesizer.
//!
//! For each posed bone, in draw order, the synthesizer resolves the
//! bone's texture region through the active style and emits geometry:
//! a textured quad for a plain bone, or a mesh for a bone with authored
//! vertices. A bone whose texture cannot be resolved (style or texture
//! index out of range, or a mesh bone with no usable atlas size) is
//! skipped: it contributes no draw call and no error.
//!
//! Output is a flat buffer: an ordered list of draw calls over shared
//! vertex and index arrays. Mesh index lists are passed through
//! unchanged and stay relative to their call's vertex range; each call
//! carries the atlas index its geometry must be drawn with.

use vstd::prelude::*;
use crate::fx::{Fx, div_trunc, fx_add_spec, fx_mul_spec, fx_div_spec, sat};
use crate::hierarchy::{rot_x_spec, rot_y_spec, rotate_vec};
use crate::model::{Bone, FxVec, PoseBone, Style, Texture, Vertex, pose_wf};

verus! {

/// One output vertex: a render-space position and an atlas-space
/// normalized texture coordinate.
#[derive(Clone, Copy, PartialEq, Eq, Structural, Debug)]
pub struct RenderVertex {
    pub pos: FxVec,
    pub uv: FxVec,
}

/// A textured rectangle: destination origin and size, a rotation about
/// the rectangle's center, and a source region in atlas pixels.
#[derive(Clone, Copy, PartialEq, Eq, Structural, Debug)]
pub struct QuadCall {
    pub atlas_idx: usize,
    pub origin: FxVec,
    pub size: FxVec,
    pub rot: Fx,
    pub src_offset: FxVec,
    pub src_size: FxVec,
    pub alpha: Fx,
}

/// An indexed mesh: a range of the shared vertex and index buffers.
/// Indices are relative to the call's vertex range.
#[derive(Clone, Copy, PartialEq, Eq, Structural, Debug)]
pub struct MeshCall {
    pub atlas_idx: usize,
    pub alpha: Fx,
    pub vtx_start: usize,
    pub vtx_count: usize,
    pub idx_start: usize,
    pub idx_count: usize,
}

/// One draw call, in draw order.
#[derive(Clone, Copy, PartialEq, Eq, Structural, Debug)]
pub enum DrawCall {
    Quad(QuadCall),
    Mesh(MeshCall),
}

/// The synthesized geometry of one frame.
#[derive(Clone, Debug)]
pub struct Geometry {
    /// Draw calls in draw order.
    pub calls: Vec<DrawCall>,
    /// Shared vertex buffer for the mesh calls.
    pub vertices: Vec<RenderVertex>,
    /// Shared index buffer for the mesh calls.
    pub indices: Vec<usize>,
}

/// The texture region a bone resolves through a style, if any.
pub open spec fn resolve_tex_spec(styles: Seq<Style>, style_idx: int, tex_idx: int)
    -> Option<Texture> {
    if 0 <= style_idx < styles.len() && 0 <= tex_idx < styles[style_idx].textures@.len() {
        Some(styles[style_idx].textures@[tex_idx])
    } else {
        None
    }
}

/// Resolve a bone's texture region through a style.
pub fn resolve_tex(styles: &Vec<Style>, style_idx: usize, tex_idx: usize) -> (r: Option<Texture>)
    ensures
        r == resolve_tex_spec(styles@, style_idx as int, tex_idx as int),
{
    if style_idx < styles.len() && tex_idx < styles[style_idx].textures.len() {
        Some(styles[style_idx].textures[tex_idx])
    } else {
        None
    }
}

/// Half of a fixed-point value, truncated toward zero.
pub open spec fn half_spec(v: int) -> int {
    div_trunc(v, 2)
}

/// The quad a plain bone emits: a rectangle of the texture's pixel size
/// times the bone's scale, centered on the bone's position (the origin
/// is pushed back by half the scaled size), rotated about that center,
/// sourced from the texture's atlas region.
pub open spec fn quad_call_spec(pb: PoseBone, tex: Texture) -> QuadCall {
    let push_x = fx_mul_spec(half_spec(tex.size.x.v()), pb.scale.x.v());
    let push_y = fx_mul_spec(half_spec(tex.size.y.v()), pb.scale.y.v());
    QuadCall {
        atlas_idx: tex.atlas_idx,
        origin: FxVec {
            x: Fx { bits: fx_add_spec(pb.pos.x.v(), -push_x) as i64 },
            y: Fx { bits: fx_add_spec(pb.pos.y.v(), -push_y) as i64 },
        },
        size: FxVec {
            x: Fx { bits: fx_mul_spec(tex.size.x.v(), pb.scale.x.v()) as i64 },
            y: Fx { bits: fx_mul_spec(tex.size.y.v(), pb.scale.y.v()) as i64 },
        },
        rot: pb.rot,
        src_offset: tex.offset,
        src_size: tex.size,
        alpha: pb.alpha,
    }
}

/// Half of a fixed-point value, truncated toward zero.
fn fx_half(v: Fx) -> (r: Fx)
    requires
        v.wf(),
    ensures
        r.wf(),
        r.v() == half_spec(v.v()),
{
    if v.bits >= 0 {
        Fx { bits: v.bits / 2 }
    } else {
        Fx { bits: -((-v.bits) / 2) }
    }
}

/// Emit the quad of a plain bone.
pub fn quad_call(pb: PoseBone, tex: Texture) -> (r: QuadCall)
    requires
        pb.wf(),
        tex.wf(),
    ensures
        r == quad_call_spec(pb, tex),
{
    let push_x = fx_half(tex.size.x).mul(pb.scale.x);
    let push_y = fx_half(tex.size.y).mul(pb.scale.y);
    QuadCall {
        atlas_idx: tex.atlas_idx,
        origin: FxVec { x: pb.pos.x.sub(push_x), y: pb.pos.y.sub(push_y) },
        size: FxVec { x: tex.size.x.mul(pb.scale.x), y: tex.size.y.mul(pb.scale.y) },
        rot: pb.rot,
        src_offset: tex.offset,
        src_size: tex.size,
        alpha: pb.alpha,
    }
}

/// Where one authored vertex lands: its offset has its y negated once
/// (the same axis flip the rest poses get on entry), is centered on
/// the texture's half size, scaled by the bone's scale, rotated by the
/// bone's rotation and moved to the bone's position — consistent with
/// the quad path. Its normalized coordinate is mapped into the
/// texture's sub-rectangle of the atlas:
/// `uv' = lt + uv * (rb - lt)` per axis, with `lt` and `rb` the
/// region's corners in atlas-relative [0, 1] space.
pub open spec fn mesh_vertex_spec(pb: PoseBone, tex: Texture, atlas: FxVec, v: Vertex)
    -> RenderVertex {
    let cx = fx_add_spec(v.pos.x.v(), -half_spec(tex.size.x.v()));
    let cy = fx_add_spec(-v.pos.y.v(), -half_spec(tex.size.y.v()));
    let sx = fx_mul_spec(cx, pb.scale.x.v());
    let sy = fx_mul_spec(cy, pb.scale.y.v());
    let ltx = fx_div_spec(tex.offset.x.v(), atlas.x.v());
    let lty = fx_div_spec(tex.offset.y.v(), atlas.y.v());
    let rbx = fx_div_spec(fx_add_spec(tex.offset.x.v(), tex.size.x.v()), atlas.x.v());
    let rby = fx_div_spec(fx_add_spec(tex.offset.y.v(), tex.size.y.v()), atlas.y.v());
    RenderVertex {
        pos: FxVec {
            x: Fx {
                bits: fx_add_spec(pb.pos.x.v(), rot_x_spec(sx, sy, pb.rot.v())) as i64,
            },
            y: Fx {
                bits: fx_add_spec(pb.pos.y.v(), rot_y_spec(sx, sy, pb.rot.v())) as i64,
            },
        },
        uv: FxVec {
            x: Fx {
                bits: fx_add_spec(ltx, fx_mul_spec(v.uv.x.v(), fx_add_spec(rbx, -ltx))) as i64,
            },
            y: Fx {
                bits: fx_add_spec(lty, fx_mul_spec(v.uv.y.v(), fx_add_spec(rby, -lty))) as i64,
            },
        },
    }
}

/// Synthesize one mesh vertex.
fn mesh_vertex(pb: PoseBone, tex: Texture, atlas: FxVec, v: Vertex) -> (r: RenderVertex)
    requires
        pb.wf(),
        tex.wf(),
        atlas.wf(),
        atlas.x.v() != 0,
        atlas.y.v() != 0,
        v.wf(),
    ensures
        r == mesh_vertex_spec(pb, tex, atlas, v),
{
    let c = FxVec {
        x: v.pos.x.sub(fx_half(tex.size.x)),
        y: v.pos.y.neg().sub(fx_half(tex.size.y)),
    };
    let s = FxVec { x: c.x.mul(pb.scale.x), y: c.y.mul(pb.scale.y) };
    let turned = rotate_vec(s, pb.rot);
    let lt = FxVec { x: tex.offset.x.div(atlas.x), y: tex.offset.y.div(atlas.y) };
    let rb = FxVec {
        x: tex.offset.x.add(tex.size.x).div(atlas.x),
        y: tex.offset.y.add(tex.size.y).div(atlas.y),
    };
    RenderVertex {
        pos: FxVec { x: pb.pos.x.add(turned.x), y: pb.pos.y.add(turned.y) },
        uv: FxVec {
            x: lt.x.add(v.uv.x.mul(rb.x.sub(lt.x))),
            y: lt.y.add(v.uv.y.mul(rb.y.sub(lt.y))),
        },
    }
}

/// Build the vertex list of one mesh bone.
pub fn create_mesh(bone: &Bone, pb: PoseBone, tex: Texture, atlas: FxVec)
    -> (r: Vec<RenderVertex>)
    requires
        bone.wf(),
        pb.wf(),
        tex.wf(),
        atlas.wf(),
        atlas.x.v() != 0,
        atlas.y.v() != 0,
    ensures
        r@ == Seq::new(
            bone.vertices@.len(),
            |k: int| mesh_vertex_spec(pb, tex, atlas, bone.vertices@[k]),
        ),
{
    let n = bone.vertices.len();
    let mut out: Vec<RenderVertex> = Vec::new();
    for k in 0..n
        invariant
            n == bone.vertices@.len(),
            bone.wf(),
            pb.wf(),
            tex.wf(),
            atlas.wf(),
            atlas.x.v() != 0,
            atlas.y.v() != 0,
            out@.len() == k,
            forall|i: int| 0 <= i < k
                ==> out@[i] == mesh_vertex_spec(pb, tex, atlas, bone.vertices@[i]),
    {
        let rv = mesh_vertex(pb, tex, atlas, bone.vertices[k]);
        out.push(rv);
    }
    proof {
        assert(out@ =~= Seq::new(
            bone.vertices@.len(),
            |k: int| mesh_vertex_spec(pb, tex, atlas, bone.vertices@[k]),
        ));
    }
    out
}

/// Does this bone contribute a draw call?
///
/// It must resolve a texture; a mesh bone additionally needs a usable
/// atlas size for its region.
pub open spec fn kept_spec(
    bones: Seq<Bone>,
    pose: Seq<PoseBone>,
    styles: Seq<Style>,
    atlas_sizes: Seq<FxVec>,
    style_idx: int,
    b: int,
) -> bool {
    match resolve_tex_spec(styles, style_idx, pose[b].tex_idx as int) {
        None => false,
        Some(tex) => {
            if bones[b].vertices@.len() == 0 {
                true
            } else {
                &&& tex.atlas_idx < atlas_sizes.len()
                &&& atlas_sizes[tex.atlas_idx as int].x.v() != 0
                &&& atlas_sizes[tex.atlas_idx as int].y.v() != 0
            }
        },
    }
}

/// The geometry that a prefix of the draw order synthesizes: the draw
/// calls and the shared buffers they reference.
pub open spec fn geometry_spec(
    bones: Seq<Bone>,
    pose: Seq<PoseBone>,
    styles: Seq<Style>,
    atlas_sizes: Seq<FxVec>,
    style_idx: int,
    order: Seq<usize>,
) -> (Seq<DrawCall>, Seq<RenderVertex>, Seq<usize>)
    decreases order.len(),
{
    if order.len() == 0 {
        (Seq::empty(), Seq::empty(), Seq::empty())
    } else {
        let pre = geometry_spec(bones, pose, styles, atlas_sizes, style_idx, order.drop_last());
        let b = order.last() as int;
        if !kept_spec(bones, pose, styles, atlas_sizes, style_idx, b) {
            pre
        } else {
            let tex = resolve_tex_spec(styles, style_idx, pose[b].tex_idx as int)->0;
            if bones[b].vertices@.len() == 0 {
                (pre.0.push(DrawCall::Quad(quad_call_spec(pose[b], tex))), pre.1, pre.2)
            } else {
                let atlas = atlas_sizes[tex.atlas_idx as int];
                let vs = Seq::new(
                    bones[b].vertices@.len(),
                    |k: int| mesh_vertex_spec(pose[b], tex, atlas, bones[b].vertices@[k]),
                );
                let call = MeshCall {
                    atlas_idx: tex.atlas_idx,
                    alpha: pose[b].alpha,
                    vtx_start: pre.1.len() as usize,
                    vtx_count: vs.len() as usize,
                    idx_start: pre.2.len() as usize,
                    idx_count: bones[b].indices@.len() as usize,
                };
                (pre.0.push(DrawCall::Mesh(call)), pre.1 + vs, pre.2 + bones[b].indices@)
            }
        }
    }
}

/// Synthesize the frame's geometry from a posed armature, visiting
/// bones in the given draw order.
pub fn build_geometry(
    bones: &Vec<Bone>,
    pose: &Vec<PoseBone>,
    styles: &Vec<Style>,
    atlas_sizes: &Vec<FxVec>,
    style_idx: usize,
    order: &Vec<usize>,
) -> (r: Geometry)
    requires
        pose@.len() == bones@.len(),
        forall|b: int| 0 <= b < bones@.len() ==> (#[trigger] bones@[b]).wf(),
        pose_wf(pose@),
        forall|s: int, t: int|
            0 <= s < styles@.len() && 0 <= t < (#[trigger] styles@[s]).textures@.len()
                ==> (#[trigger] styles@[s].textures@[t]).wf(),
        forall|a: int| 0 <= a < atlas_sizes@.len() ==> (#[trigger] atlas_sizes@[a]).wf(),
        forall|i: int| 0 <= i < order@.len() ==> (#[trigger] order@[i]) < bones@.len(),
    ensures
        (r.calls@, r.vertices@, r.indices@) == geometry_spec(bones@, pose@, styles@,
            atlas_sizes@, style_idx as int, order@),
{
    let mut calls: Vec<DrawCall> = Vec::new();
    let mut vertices: Vec<RenderVertex> = Vec::new();
    let mut indices: Vec<usize> = Vec::new();
    let n = order.len();
    for k in 0..n
        invariant
            n == order@.len(),
            pose@.len() == bones@.len(),
            forall|b: int| 0 <= b < bones@.len() ==> (#[trigger] bones@[b]).wf(),
            pose_wf(pose@),
            forall|s: int, t: int|
                0 <= s < styles@.len() && 0 <= t < (#[trigger] styles@[s]).textures@.len()
                    ==> (#[trigger] styles@[s].textures@[t]).wf(),
            forall|a: int| 0 <= a < atlas_sizes@.len() ==> (#[trigger] atlas_sizes@[a]).wf(),
            forall|i: int| 0 <= i < n ==> (#[trigger] order@[i]) < bones@.len(),
            (calls@, vertices@, indices@) == geometry_spec(bones@, pose@, styles@, atlas_sizes@,
                style_idx as int, order@.take(k as int)),
    {
        proof {
            assert(order@.take(k + 1).drop_last() =~= order@.take(k as int));
            assert(order@.take(k + 1).last() == order@[k as int]);
        }
        let b = order[k];
        let resolved = resolve_tex(styles, style_idx, pose[b].tex_idx);
        if let Some(tex) = resolved {
            let atlas_ok = tex.atlas_idx < atlas_sizes.len() && atlas_sizes[tex.atlas_idx].x.bits
                != 0 && atlas_sizes[tex.atlas_idx].y.bits != 0;
            if bones[b].vertices.len() == 0 {
                let q = quad_call(pose[b], tex);
                calls.push(DrawCall::Quad(q));
            } else if atlas_ok {
                let atlas = atlas_sizes[tex.atlas_idx];
                let mut vs = create_mesh(&bones[b], pose[b], tex, atlas);
                let call = MeshCall {
                    atlas_idx: tex.atlas_idx,
                    alpha: pose[b].alpha,
                    vtx_start: vertices.len(),
                    vtx_count: vs.len(),
                    idx_start: indices.len(),
                    idx_count: bones[b].indices.len(),
                };
                calls.push(DrawCall::Mesh(call));
                vertices.append(&mut vs);
                let m = bones[b].indices.len();
                let ghost idx_before = indices@;
                for t in 0..m
                    invariant
                        m == bones@[b as int].indices@.len(),
                        b < bones@.len(),
                        indices@ == idx_before + bones@[b as int].indices@.take(t as int),
                {
                    let iv = bones[b].indices[t];
                    indices.push(iv);
                    proof {
                        assert(bones@[b as int].indices@.take(t + 1)
                            =~= bones@[b as int].indices@.take(t as int).push(
                                bones@[b as int].indices@[t as int]));
                        assert(indices@ =~= idx_before + bones@[b as int].indices@.take(t + 1));
                    }
                }
                proof {
                    assert(bones@[b as int].indices@.take(m as int)
                        =~= bones@[b as int].indices@);
                }
            }
        }
        proof {
            let g = geometry_spec(bones@, pose@, styles@, atlas_sizes@, style_idx as int,
                order@.take(k + 1));
            assert(calls@ =~= g.0);
            assert(vertices@ =~= g.1);
            assert(indices@ =~= g.2);
        }
    }
    proof {
        assert(order@.take(n as int) =~= order@);
    }
    Geometry { calls, vertices, indices }
}

} // verus!
