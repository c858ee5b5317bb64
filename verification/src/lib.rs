//! A deterministic 2D skeletal-animation runtime.
//!
//! The pipeline resolves a point in time to an animation frame, samples
//! keyframed bone properties, blends between animations, composes local
//! transforms down the bone hierarchy, solves inverse-kinematics chains,
//! adapts the result to the renderer's coordinate convention, and emits
//! drawable quad and mesh geometry sorted by draw order.
//!
//! All arithmetic is fixed-point over `i64`, so every stage is a pure,
//! total function of its inputs: the same armature, animation and frame
//! always produce the same geometry.

use vstd::prelude::*;

pub mod adapter;
pub mod blend;
pub mod fx;
pub mod hierarchy;
pub mod ik;
pub mod laws;
pub mod mesh;
pub mod model;
pub mod order;
pub mod pipeline;
pub mod sampler;
pub mod temporal;
pub mod trig;

pub use adapter::{apply_view, flip_keyframes, flip_rests, view_bone};
pub use blend::{blend_bone, blend_pose, blend_value};
pub use fx::{FX_LIM, FX_ONE, Fx, HALF_TURN, TURN};
pub use hierarchy::{compose, compose_one, rotate_vec};
pub use ik::{dist_points, solve_ik};
pub use mesh::{DrawCall, Geometry, MeshCall, QuadCall, RenderVertex, build_geometry, create_mesh,
    quad_call, resolve_tex};
pub use model::{AnimElement, Animation, Armature, BendConstraint, Bone, FxVec, IkFamily, Keyframe,
    PoseBone, Style, Texture, Vertex};
pub use order::draw_order;
pub use pipeline::{AnimOptions, BlendState, animate};
pub use sampler::{sample_bone, sample_pose, sample_value};
pub use temporal::{resolve_frame, wrap_frame};
pub use trig::{atan2_fx, cos_fx, isqrt64, sin_fx};
