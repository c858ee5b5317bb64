//! The armature data model.
//!
//! An [`Armature`] is the authored asset: a forest of [`Bone`]s encoded
//! with parent indices, keyframed [`Animation`]s, inverse-kinematics
//! chains, and named skins ([`Style`]s holding atlas [`Texture`]
//! regions). The authored armature is never mutated by playback; every
//! pipeline stage derives fresh per-frame values from it.

use vstd::prelude::*;
use crate::fx::Fx;

verus! {

/// A two-component fixed-point vector (position, scale, or pixel size).
#[derive(Clone, Copy, PartialEq, Eq, Structural, Debug)]
pub struct FxVec {
    pub x: Fx,
    pub y: Fx,
}

impl FxVec {
    /// Both components are inside the saturation band.
    pub open spec fn wf(self) -> bool {
        self.x.wf() && self.y.wf()
    }

    pub fn new(x: Fx, y: Fx) -> (r: FxVec)
        ensures
            r.x == x,
            r.y == y,
    {
        FxVec { x, y }
    }

    pub fn zero() -> (r: FxVec)
        ensures
            r.wf(),
            r.x.v() == 0,
            r.y.v() == 0,
    {
        FxVec { x: Fx::zero(), y: Fx::zero() }
    }
}

/// The animated properties a keyframe may target.
#[derive(Clone, Copy, PartialEq, Eq, Structural, Debug)]
pub enum AnimElement {
    PositionX,
    PositionY,
    Rotation,
    ScaleX,
    ScaleY,
    Alpha,
    Zindex,
    TextureIndex,
    IkToggle,
}

/// One sample of one animated property of one bone.
#[derive(Clone, Copy, PartialEq, Eq, Structural, Debug)]
pub struct Keyframe {
    /// Frame index this sample sits on.
    pub frame: u32,
    /// Index of the bone the sample animates.
    pub bone: usize,
    /// Which property the sample animates.
    pub element: AnimElement,
    /// The property's value at `frame`.
    pub value: Fx,
}

/// A named sequence of keyframes played at a fixed rate.
///
/// The animation's length in frames is `length`: one past the highest
/// keyframe frame, kept explicit so looping never needs a scan.
#[derive(Clone, Debug)]
pub struct Animation {
    /// Frames per second.
    pub fps: u32,
    /// Total frame count; looping wraps modulo this.
    pub length: u32,
    /// Keyframes, ordered by frame within each (bone, element) pair.
    pub keyframes: Vec<Keyframe>,
}

/// Highest frame index a keyframe may sit on.
///
/// Bounding keyframe frames keeps every interpolation numerator inside
/// `i64` without further case analysis.
pub const MAX_KF_FRAME: u32 = 0xFFFF;

/// One mesh vertex: a local offset and a normalized texture coordinate.
#[derive(Clone, Copy, PartialEq, Eq, Structural, Debug)]
pub struct Vertex {
    /// Offset from the bone origin, in authored pixels.
    pub pos: FxVec,
    /// Normalized texture coordinate in [0, 1] of the bone's own region.
    pub uv: FxVec,
}

/// The animated state of one bone at one frame.
///
/// A pose value is local before hierarchy composition and world-space
/// after it. The authored rest pose is one of these too; per-frame
/// working poses are fresh copies, so the template is never mutated.
#[derive(Clone, Copy, PartialEq, Eq, Structural, Debug)]
pub struct PoseBone {
    /// Position (local, then world).
    pub pos: FxVec,
    /// Rotation, a signed angle in fixed-point degrees.
    pub rot: Fx,
    /// Scale.
    pub scale: FxVec,
    /// Opacity in [0, 1].
    pub alpha: Fx,
    /// Draw-order key: higher draws later (on top).
    pub zindex: Fx,
    /// Index into the active style's texture list.
    pub tex_idx: usize,
    /// Whether the bone's IK chain is active this frame.
    pub ik_on: bool,
}

/// A node of the skeleton: immutable structure plus the authored rest
/// pose.
#[derive(Clone, Debug)]
pub struct Bone {
    /// Index of the parent bone, which must come earlier in the bone
    /// list; `None` for a root.
    pub parent: Option<usize>,
    /// Marks the bone as affected by an inverse-kinematics chain.
    pub ik_flag: bool,
    /// Mesh vertices; empty means the bone renders as a plain quad.
    pub vertices: Vec<Vertex>,
    /// Triangle list over `vertices`, passed through to the renderer.
    pub indices: Vec<usize>,
    /// The authored pose the sampler starts from.
    pub rest: PoseBone,
}

/// An inverse-kinematics chain.
#[derive(Clone, Debug)]
pub struct IkFamily {
    /// Chain bone indices, root first, effector last.
    pub bones: Vec<usize>,
    /// Index of the bone whose world position is the chain's target.
    pub target: usize,
    /// Bend-direction constraint for the solved joints.
    pub constraint: BendConstraint,
}

/// Which bend direction an IK chain accepts.
#[derive(Clone, Copy, PartialEq, Eq, Structural, Debug)]
pub enum BendConstraint {
    /// Either direction is kept as solved.
    Free,
    /// The chain must bend clockwise; a counter-clockwise solution is
    /// reflected about the base-to-target axis.
    Clockwise,
    /// The mirror of `Clockwise`.
    CounterClockwise,
}

/// A rectangular region of a texture atlas, in pixels.
#[derive(Clone, Copy, PartialEq, Eq, Structural, Debug)]
pub struct Texture {
    /// Which atlas image holds the region.
    pub atlas_idx: usize,
    /// Top-left corner of the region, in atlas pixels.
    pub offset: FxVec,
    /// Width and height of the region, in pixels.
    pub size: FxVec,
}

impl Texture {
    /// The region's corner and extent are inside the saturation band.
    pub open spec fn wf(self) -> bool {
        self.offset.wf() && self.size.wf()
    }
}

/// A named skin: one texture region per bone `tex_idx`.
#[derive(Clone, Debug)]
pub struct Style {
    pub textures: Vec<Texture>,
}

/// The full skeletal asset.
#[derive(Clone, Debug)]
pub struct Armature {
    pub bones: Vec<Bone>,
    pub animations: Vec<Animation>,
    pub ik_families: Vec<IkFamily>,
    pub styles: Vec<Style>,
    /// Pixel dimensions of each atlas image, by atlas index.
    pub atlas_sizes: Vec<FxVec>,
}

impl Keyframe {
    pub open spec fn wf(self) -> bool {
        &&& self.frame <= MAX_KF_FRAME
        &&& self.value.wf()
    }
}

impl Animation {
    /// Keyframes are in range and, within each (bone, element) pair,
    /// strictly ordered by frame: a property's curve has one value per
    /// frame.
    pub open spec fn wf(self) -> bool {
        &&& forall|i: int| 0 <= i < self.keyframes@.len() ==> (#[trigger] self.keyframes@[i]).wf()
        &&& forall|i: int, j: int|
            0 <= i < j < self.keyframes@.len()
                && (#[trigger] self.keyframes@[i]).bone == (#[trigger] self.keyframes@[j]).bone
                && self.keyframes@[i].element == self.keyframes@[j].element
                ==> self.keyframes@[i].frame < self.keyframes@[j].frame
    }
}

impl Vertex {
    pub open spec fn wf(self) -> bool {
        self.pos.wf() && self.uv.wf()
    }
}

impl PoseBone {
    /// All scalar fields are inside the saturation band.
    pub open spec fn wf(self) -> bool {
        &&& self.pos.wf()
        &&& self.rot.wf()
        &&& self.scale.wf()
        &&& self.alpha.wf()
        &&& self.zindex.wf()
    }
}

impl Bone {
    /// The rest pose is in band and the mesh vertices are too.
    pub open spec fn wf(self) -> bool {
        &&& self.rest.wf()
        &&& forall|i: int| 0 <= i < self.vertices@.len() ==> (#[trigger] self.vertices@[i]).wf()
    }
}

impl Armature {
    /// Structural invariant of the asset.
    ///
    /// Parent indices always point earlier in the bone list, so the
    /// bones form a forest and a single forward walk composes parents
    /// before children. Keyframe bone references and IK chain members
    /// stay inside the bone list.
    pub open spec fn wf(self) -> bool {
        &&& forall|b: int| 0 <= b < self.bones@.len() ==> (#[trigger] self.bones@[b]).wf()
        &&& forall|b: int|
            0 <= b < self.bones@.len() && (#[trigger] self.bones@[b]).parent is Some
                ==> self.bones@[b].parent->0 < b
        &&& forall|a: int| 0 <= a < self.animations@.len() ==> (#[trigger] self.animations@[a]).wf()
        &&& forall|a: int, k: int|
            0 <= a < self.animations@.len()
                && 0 <= k < (#[trigger] self.animations@[a]).keyframes@.len()
                ==> (#[trigger] self.animations@[a].keyframes@[k]).bone < self.bones@.len()
        &&& forall|f: int, i: int|
            0 <= f < self.ik_families@.len()
                && 0 <= i < (#[trigger] self.ik_families@[f]).bones@.len()
                ==> (#[trigger] self.ik_families@[f].bones@[i]) < self.bones@.len()
        &&& forall|f: int|
            0 <= f < self.ik_families@.len()
                ==> (#[trigger] self.ik_families@[f]).target < self.bones@.len()
        &&& forall|s: int, t: int|
            0 <= s < self.styles@.len()
                && 0 <= t < (#[trigger] self.styles@[s]).textures@.len()
                ==> (#[trigger] self.styles@[s].textures@[t]).wf()
        &&& forall|a: int|
            0 <= a < self.atlas_sizes@.len() ==> (#[trigger] self.atlas_sizes@[a]).wf()
    }
}

/// A pose is well formed when each bone's pose value is.
pub open spec fn pose_wf(pose: Seq<PoseBone>) -> bool {
    forall|b: int| 0 <= b < pose.len() ==> (#[trigger] pose[b]).wf()
}

} // verus!
