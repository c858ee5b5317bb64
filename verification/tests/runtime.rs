use skelform_runtime::{
    animate, apply_view, blend_pose, blend_value, build_geometry, compose, cos_fx, draw_order,
    isqrt64, resolve_frame, sample_value, sin_fx, solve_ik, view_bone, wrap_frame, AnimElement,
    AnimOptions, Animation, Armature, BendConstraint, Bone, DrawCall, Fx, FxVec, IkFamily,
    Keyframe, PoseBone, Style, Texture, Vertex, FX_ONE,
};

fn fx(units: i64) -> Fx {
    Fx { bits: units * FX_ONE }
}

fn v2(x: i64, y: i64) -> FxVec {
    FxVec { x: fx(x), y: fx(y) }
}

fn pose_bone(x: i64, y: i64, rot: i64, sx: i64, sy: i64) -> PoseBone {
    PoseBone {
        pos: v2(x, y),
        rot: fx(rot),
        scale: v2(sx, sy),
        alpha: fx(1),
        zindex: fx(0),
        tex_idx: 0,
        ik_on: false,
    }
}

fn bone(parent: Option<usize>, rest: PoseBone) -> Bone {
    Bone {
        parent,
        ik_flag: false,
        vertices: vec![],
        indices: vec![],
        rest,
    }
}

fn kf(frame: u32, bone: usize, element: AnimElement, units: i64) -> Keyframe {
    Keyframe {
        frame,
        bone,
        element,
        value: fx(units),
    }
}

// -------- temporal resolver --------

#[test]
fn loop_wraps_past_length() {
    // 10 frames at 20 fps: 0.5 s plays the whole animation; 50 ms more
    // is one extra frame, which wraps to frame 1.
    let r = resolve_frame(550, 20, fx(1), 10, true);
    assert_eq!(r, 1);
}

#[test]
fn no_loop_clamps_to_last_frame() {
    let r = resolve_frame(550, 20, fx(1), 10, false);
    assert_eq!(r, 9);
}

#[test]
fn zero_length_animation_resolves_to_zero() {
    assert_eq!(resolve_frame(550, 20, fx(1), 0, true), 0);
    assert_eq!(resolve_frame(550, 20, fx(1), 0, false), 0);
    assert_eq!(wrap_frame(7, 0, true), 0);
}

#[test]
fn speed_scales_time() {
    // Double speed: 275 ms at 20 fps covers 11 frames, same as above.
    let r = resolve_frame(275, 20, Fx { bits: 2 * FX_ONE }, 10, true);
    assert_eq!(r, 1);
}

#[test]
fn explicit_frame_wraps_too() {
    assert_eq!(wrap_frame(11, 10, true), 1);
    assert_eq!(wrap_frame(11, 10, false), 9);
    assert_eq!(wrap_frame(3, 10, true), 3);
}

// -------- keyframe sampler --------

fn two_kf_vec() -> Vec<Keyframe> {
    vec![
        kf(10, 0, AnimElement::PositionX, 100),
        kf(20, 0, AnimElement::PositionX, 200),
    ]
}

#[test]
fn sample_before_first_returns_first() {
    let kfs = two_kf_vec();
    let r = sample_value(&kfs, 0, AnimElement::PositionX, 0).unwrap();
    assert_eq!(r.bits, 100 * FX_ONE);
}

#[test]
fn sample_at_first_returns_first_exactly() {
    let kfs = two_kf_vec();
    let r = sample_value(&kfs, 0, AnimElement::PositionX, 10).unwrap();
    assert_eq!(r.bits, 100 * FX_ONE);
}

#[test]
fn sample_midway_is_linear() {
    let kfs = two_kf_vec();
    let r = sample_value(&kfs, 0, AnimElement::PositionX, 15).unwrap();
    assert_eq!(r.bits, 150 * FX_ONE);
}

#[test]
fn sample_at_last_returns_last_exactly() {
    let kfs = two_kf_vec();
    let r = sample_value(&kfs, 0, AnimElement::PositionX, 20).unwrap();
    assert_eq!(r.bits, 200 * FX_ONE);
}

#[test]
fn sample_after_last_holds_last() {
    let kfs = two_kf_vec();
    let r = sample_value(&kfs, 0, AnimElement::PositionX, 99).unwrap();
    assert_eq!(r.bits, 200 * FX_ONE);
}

#[test]
fn sample_single_keyframe_is_constant() {
    let kfs = vec![kf(10, 0, AnimElement::ScaleY, 3)];
    for frame in [0, 10, 50] {
        let r = sample_value(&kfs, 0, AnimElement::ScaleY, frame).unwrap();
        assert_eq!(r.bits, 3 * FX_ONE);
    }
}

#[test]
fn sample_missing_pair_is_none() {
    let kfs = two_kf_vec();
    assert!(sample_value(&kfs, 0, AnimElement::PositionY, 15).is_none());
    assert!(sample_value(&kfs, 1, AnimElement::PositionX, 15).is_none());
}

#[test]
fn rotation_interpolates_shortest_path() {
    // 170 degrees to -170 degrees is a 20-degree step forward, not a
    // 340-degree swing back: the midpoint is 180 degrees.
    let kfs = vec![
        kf(0, 0, AnimElement::Rotation, 170),
        kf(10, 0, AnimElement::Rotation, -170),
    ];
    let r = sample_value(&kfs, 0, AnimElement::Rotation, 5).unwrap();
    assert_eq!(r.bits, 180 * FX_ONE);
}

// -------- pose blender --------

#[test]
fn blend_reaches_target_at_zero_remaining() {
    let r = blend_value(fx(0), fx(100), 0, 10);
    assert_eq!(r.bits, 100 * FX_ONE);
}

#[test]
fn blend_starts_at_previous_value() {
    let r = blend_value(fx(0), fx(100), 10, 10);
    assert_eq!(r.bits, 0);
}

#[test]
fn blend_midway_is_linear_mix() {
    let r = blend_value(fx(0), fx(100), 5, 10);
    assert_eq!(r.bits, 50 * FX_ONE);
}

#[test]
fn bones_blend_independently() {
    let prev = vec![pose_bone(0, 0, 0, 1, 1), pose_bone(0, 0, 0, 1, 1)];
    let target = vec![pose_bone(100, 0, 0, 1, 1), pose_bone(100, 0, 0, 1, 1)];
    // First bone finished, second still halfway.
    let r = blend_pose(&prev, &target, &vec![0, 5], 10);
    assert_eq!(r[0].pos.x.bits, 100 * FX_ONE);
    assert_eq!(r[1].pos.x.bits, 50 * FX_ONE);
}

// -------- hierarchy composer --------

#[test]
fn child_inherits_parent_scale() {
    let bones = vec![
        bone(None, pose_bone(0, 0, 0, 2, 2)),
        bone(Some(0), pose_bone(10, 0, 0, 1, 1)),
    ];
    let pose = vec![bones[0].rest, bones[1].rest];
    let no_ik = vec![None, None];
    let world = compose(&bones, &pose, &no_ik);
    assert_eq!(world[1].pos.x.bits, 20 * FX_ONE);
    assert_eq!(world[1].pos.y.bits, 0);
    assert_eq!(world[1].scale.x.bits, 2 * FX_ONE);
}

#[test]
fn rotated_parent_orbits_child() {
    // Root scaled by two and rotated a quarter turn: the child's local
    // (10, 0) lands at world (0, 20), exactly.
    let bones = vec![
        bone(None, pose_bone(0, 0, 90, 2, 2)),
        bone(Some(0), pose_bone(10, 0, 0, 1, 1)),
    ];
    let pose = vec![bones[0].rest, bones[1].rest];
    let no_ik = vec![None, None];
    let world = compose(&bones, &pose, &no_ik);
    assert_eq!(world[1].pos.x.bits, 0);
    assert_eq!(world[1].pos.y.bits, 20 * FX_ONE);
    assert_eq!(world[1].rot.bits, 90 * FX_ONE);
}

#[test]
fn root_uses_identity_parent() {
    let bones = vec![bone(None, pose_bone(7, 8, 30, 1, 1))];
    let pose = vec![bones[0].rest];
    let world = compose(&bones, &pose, &vec![None]);
    assert_eq!(world[0].pos.x.bits, 7 * FX_ONE);
    assert_eq!(world[0].pos.y.bits, 8 * FX_ONE);
    assert_eq!(world[0].rot.bits, 30 * FX_ONE);
}

// -------- inverse kinematics --------

fn ik_world(target_x: i64, target_y: i64) -> (Vec<PoseBone>, Vec<IkFamily>) {
    let mut chain_root = pose_bone(0, 0, 0, 1, 1);
    chain_root.ik_on = true;
    let world = vec![
        chain_root,
        pose_bone(10, 0, 0, 1, 1),
        pose_bone(20, 0, 0, 1, 1),
        pose_bone(target_x, target_y, 0, 1, 1),
    ];
    let fams = vec![IkFamily {
        bones: vec![0, 1, 2],
        target: 3,
        constraint: BendConstraint::Free,
    }];
    (world, fams)
}

#[test]
fn out_of_reach_target_fully_extends_chain() {
    // Total reach is 20; the target sits 100 away along the x axis, so
    // both joints point straight at it (angle zero) and the effector
    // keeps no override.
    let (world, fams) = ik_world(100, 0);
    let rots = solve_ik(&world, &fams);
    assert_eq!(rots[0], Some(Fx { bits: 0 }));
    assert_eq!(rots[1], Some(Fx { bits: 0 }));
    assert_eq!(rots[2], None);
    assert_eq!(rots[3], None);
}

#[test]
fn out_of_reach_target_aims_along_direction() {
    // Out of reach along the positive y axis: both joints aim at
    // 90 degrees, exactly.
    let (world, fams) = ik_world(0, 100);
    let rots = solve_ik(&world, &fams);
    assert_eq!(rots[0], Some(fx(90)));
    assert_eq!(rots[1], Some(fx(90)));
    assert_eq!(rots[2], None);
}

#[test]
fn in_reach_two_link_bends() {
    // Target within reach but off the chain line: the two joints get
    // distinct rotations and the effector none.
    let (world, fams) = ik_world(10, 10);
    let rots = solve_ik(&world, &fams);
    assert!(rots[0].is_some());
    assert!(rots[1].is_some());
    assert_eq!(rots[2], None);
    assert_ne!(rots[0], rots[1]);
}

#[test]
fn out_of_reach_error_is_distance_minus_reach() {
    // A bent two-link chain (total reach 20) aiming at a target 100
    // away: after the solve-and-recompose pass the chain lies straight
    // toward the target, so the remaining effector-to-target distance
    // is exactly 100 - 20 = 80.
    let mut root = pose_bone(0, 0, 0, 1, 1);
    root.ik_on = true;
    let bones = vec![
        bone(None, root),
        bone(Some(0), pose_bone(10, 0, 90, 1, 1)),
        bone(Some(1), pose_bone(10, 0, 0, 1, 1)),
        bone(None, pose_bone(100, 0, 0, 1, 1)),
    ];
    let fams = vec![IkFamily {
        bones: vec![0, 1, 2],
        target: 3,
        constraint: BendConstraint::Free,
    }];
    let pose: Vec<PoseBone> = bones.iter().map(|b| b.rest).collect();
    let no_ik = vec![None; 4];
    let og = compose(&bones, &pose, &no_ik);
    // Pre-IK the chain is bent: the effector sits at (10, 10).
    assert_eq!(og[2].pos.x.bits, 10 * FX_ONE);
    assert_eq!(og[2].pos.y.bits, 10 * FX_ONE);
    let rots = solve_ik(&og, &fams);
    let world = compose(&bones, &pose, &rots);
    // Fully extended along the x axis toward the target.
    assert_eq!(world[2].pos.x.bits, 20 * FX_ONE);
    assert_eq!(world[2].pos.y.bits, 0);
    // Remaining error: the target distance minus the chain's reach.
    assert_eq!(
        skelform_runtime::dist_points(&world[2], &world[3]),
        80 * FX_ONE
    );
}

#[test]
fn in_reach_long_chain_is_solved_iteratively() {
    // A three-link chain (total reach 30) with a target 15 away: the
    // iterative solver bends the chain, writing a rotation for every
    // joint and leaving the effector alone.
    let mut root = pose_bone(0, 0, 0, 1, 1);
    root.ik_on = true;
    let world = vec![
        root,
        pose_bone(10, 0, 0, 1, 1),
        pose_bone(20, 0, 0, 1, 1),
        pose_bone(30, 0, 0, 1, 1),
        pose_bone(0, 15, 0, 1, 1),
    ];
    let fams = vec![IkFamily {
        bones: vec![0, 1, 2, 3],
        target: 4,
        constraint: BendConstraint::Free,
    }];
    let rots = solve_ik(&world, &fams);
    assert!(rots[0].is_some());
    assert!(rots[1].is_some());
    assert!(rots[2].is_some());
    assert_eq!(rots[3], None);
    assert_eq!(rots[4], None);
    // A bent chain is not the straight aim at the target: the joints
    // disagree with each other.
    assert_ne!(rots[0], rots[2]);
    // And the solve is repeatable.
    assert_eq!(rots, solve_ik(&world, &fams));
}

#[test]
fn bend_constraint_reflects_long_chain() {
    // The solved chain bends to one side; the constraint that forbids
    // that side reflects the joint rotations about the base-to-target
    // axis, while the other constraint leaves the free solution alone.
    let mut root = pose_bone(0, 0, 0, 1, 1);
    root.ik_on = true;
    let world = vec![
        root,
        pose_bone(10, 0, 0, 1, 1),
        pose_bone(20, 0, 0, 1, 1),
        pose_bone(30, 0, 0, 1, 1),
        pose_bone(0, 15, 0, 1, 1),
    ];
    let fam_with = |constraint| {
        vec![IkFamily {
            bones: vec![0, 1, 2, 3],
            target: 4,
            constraint,
        }]
    };
    let free = solve_ik(&world, &fam_with(BendConstraint::Free));
    let cw = solve_ik(&world, &fam_with(BendConstraint::Clockwise));
    let ccw = solve_ik(&world, &fam_with(BendConstraint::CounterClockwise));
    // Exactly one of the two constraints fires a reflection.
    assert!((cw != free) != (ccw != free));
}

#[test]
fn ik_flag_off_skips_chain() {
    let (mut world, fams) = ik_world(100, 0);
    world[0].ik_on = false;
    let rots = solve_ik(&world, &fams);
    assert!(rots.iter().all(|r| r.is_none()));
}

#[test]
fn ik_solve_is_deterministic() {
    let (world, fams) = ik_world(13, 7);
    let a = solve_ik(&world, &fams);
    let b = solve_ik(&world, &fams);
    assert_eq!(a, b);
}

// -------- coordinate adapter --------

#[test]
fn mirrored_bone_inverts_rotation() {
    // A negative horizontal view scale leaves exactly one negative
    // scale component, so the bone's rotation sign flips; the plain
    // view keeps it.
    let p = pose_bone(0, 0, 30, 1, 1);
    let mirrored = view_bone(p, v2(-1, 1), v2(0, 0));
    let plain = view_bone(p, v2(1, 1), v2(0, 0));
    assert_eq!(mirrored.rot.bits, -30 * FX_ONE);
    assert_eq!(plain.rot.bits, 30 * FX_ONE);
    assert_eq!(mirrored.scale.x.bits, -FX_ONE);
}

#[test]
fn double_mirror_keeps_rotation() {
    // Both components negative is a 180-degree turn, not a mirror: the
    // rotation sign stays.
    let p = pose_bone(0, 0, 30, 1, 1);
    let turned = view_bone(p, v2(-1, -1), v2(0, 0));
    assert_eq!(turned.rot.bits, 30 * FX_ONE);
}

#[test]
fn view_scales_then_offsets() {
    let pose = vec![pose_bone(10, 20, 0, 1, 1)];
    let r = apply_view(&pose, v2(2, 2), v2(5, -5));
    assert_eq!(r[0].pos.x.bits, 25 * FX_ONE);
    assert_eq!(r[0].pos.y.bits, 35 * FX_ONE);
    assert_eq!(r[0].scale.x.bits, 2 * FX_ONE);
}

// -------- draw orderer --------

#[test]
fn draw_order_sorts_by_zindex() {
    let mut a = pose_bone(0, 0, 0, 1, 1);
    a.zindex = fx(5);
    let mut b = pose_bone(0, 0, 0, 1, 1);
    b.zindex = fx(1);
    let mut c = pose_bone(0, 0, 0, 1, 1);
    c.zindex = fx(0);
    let pose = vec![a, b, c];
    assert_eq!(draw_order(&pose), vec![2, 1, 0]);
}

#[test]
fn equal_zindex_keeps_original_order() {
    let mut a = pose_bone(0, 0, 0, 1, 1);
    a.zindex = fx(5);
    let mut b = pose_bone(0, 0, 0, 1, 1);
    b.zindex = fx(1);
    let mut c = pose_bone(0, 0, 0, 1, 1);
    c.zindex = fx(5);
    let mut d = pose_bone(0, 0, 0, 1, 1);
    d.zindex = fx(0);
    let pose = vec![a, b, c, d];
    // The two z = 5 bones keep their original relative order 0 then 2,
    // whatever the rest of the pose holds.
    assert_eq!(draw_order(&pose), vec![3, 1, 0, 2]);
}

// -------- trigonometry --------

#[test]
fn sine_is_exact_at_quadrants() {
    assert_eq!(sin_fx(fx(0)).bits, 0);
    assert_eq!(sin_fx(fx(90)).bits, FX_ONE);
    assert_eq!(sin_fx(fx(180)).bits, 0);
    assert_eq!(sin_fx(fx(270)).bits, -FX_ONE);
    assert_eq!(cos_fx(fx(0)).bits, FX_ONE);
    assert_eq!(cos_fx(fx(90)).bits, 0);
    assert_eq!(cos_fx(fx(180)).bits, -FX_ONE);
}

#[test]
fn integer_square_root_brackets() {
    assert_eq!(isqrt64(0), 0);
    assert_eq!(isqrt64(144), 12);
    assert_eq!(isqrt64(145), 12);
    assert_eq!(isqrt64(168), 12);
    assert_eq!(isqrt64(169), 13);
}

// -------- pipeline --------

fn small_armature() -> Armature {
    Armature {
        bones: vec![
            bone(None, pose_bone(0, 0, 0, 1, 1)),
            bone(Some(0), pose_bone(10, 0, 0, 1, 1)),
        ],
        animations: vec![
            Animation {
                fps: 20,
                length: 21,
                keyframes: vec![
                    kf(0, 1, AnimElement::PositionX, 10),
                    kf(20, 1, AnimElement::PositionX, 30),
                ],
            },
            Animation {
                fps: 20,
                length: 1,
                keyframes: vec![kf(0, 1, AnimElement::PositionX, 50)],
            },
        ],
        ik_families: vec![],
        styles: vec![],
        atlas_sizes: vec![],
    }
}

fn unit_options() -> AnimOptions {
    AnimOptions {
        scale: v2(1, 1),
        ..AnimOptions::default()
    }
}

#[test]
fn animate_samples_at_explicit_frame() {
    let arm = small_armature();
    let mut opts = unit_options();
    opts.frame = Some(10);
    let (props, frame) = animate(&arm, 0, None, true, &opts, None);
    assert_eq!(frame, 10);
    // Midway between 10 and 30.
    assert_eq!(props[1].pos.x.bits, 20 * FX_ONE);
}

#[test]
fn animate_resolves_frame_from_time() {
    let arm = small_armature();
    let opts = unit_options();
    // 500 ms at 20 fps is frame 10.
    let (props, frame) = animate(&arm, 0, Some(500), true, &opts, None);
    assert_eq!(frame, 10);
    assert_eq!(props[1].pos.x.bits, 20 * FX_ONE);
}

#[test]
fn animate_plays_last_animation() {
    // The animation list bound is inclusive: the last animation is
    // reachable and plays.
    let arm = small_armature();
    let mut opts = unit_options();
    opts.frame = Some(0);
    let (props, _) = animate(&arm, 1, None, true, &opts, None);
    assert_eq!(props[1].pos.x.bits, 50 * FX_ONE);
}

#[test]
fn animate_out_of_range_index_is_noop() {
    let arm = small_armature();
    let mut opts = unit_options();
    opts.frame = Some(3);
    let (props, frame) = animate(&arm, 2, None, true, &opts, None);
    assert_eq!(frame, 0);
    // The rest pose, adapted, not a panic.
    assert_eq!(props[1].pos.x.bits, 10 * FX_ONE);
}

#[test]
fn animate_flips_vertical_axis_and_rotation() {
    let arm = Armature {
        bones: vec![bone(None, pose_bone(5, 10, 30, 1, 1))],
        animations: vec![],
        ik_families: vec![],
        styles: vec![],
        atlas_sizes: vec![],
    };
    let (props, _) = animate(&arm, 0, None, true, &unit_options(), None);
    assert_eq!(props[0].pos.x.bits, 5 * FX_ONE);
    assert_eq!(props[0].pos.y.bits, -10 * FX_ONE);
    assert_eq!(props[0].rot.bits, -30 * FX_ONE);
}

#[test]
fn animate_empty_armature_yields_no_bones() {
    let arm = Armature {
        bones: vec![],
        animations: vec![],
        ik_families: vec![],
        styles: vec![],
        atlas_sizes: vec![],
    };
    let (props, frame) = animate(&arm, 0, None, true, &unit_options(), None);
    assert!(props.is_empty());
    assert_eq!(frame, 0);
}

#[test]
fn animate_negates_rotation_keyframes_once() {
    // A rotation keyframe of 30 degrees reaches the renderer as -30:
    // the axis flip negates authored rotations exactly once, before
    // sampling.
    let arm = Armature {
        bones: vec![bone(None, pose_bone(0, 0, 0, 1, 1))],
        animations: vec![Animation {
            fps: 20,
            length: 1,
            keyframes: vec![kf(0, 0, AnimElement::Rotation, 30)],
        }],
        ik_families: vec![],
        styles: vec![],
        atlas_sizes: vec![],
    };
    let mut opts = unit_options();
    opts.frame = Some(0);
    let (props, _) = animate(&arm, 0, None, true, &opts, None);
    assert_eq!(props[0].rot.bits, -30 * FX_ONE);
}

#[test]
fn animate_is_deterministic() {
    let arm = small_armature();
    let mut opts = unit_options();
    opts.frame = Some(7);
    let (a, fa) = animate(&arm, 0, None, true, &opts, None);
    let (b, fb) = animate(&arm, 0, None, true, &opts, None);
    assert_eq!(fa, fb);
    assert_eq!(a, b);
}

#[test]
fn animate_defaults_to_frame_zero_without_time() {
    let arm = small_armature();
    let (_, frame) = animate(&arm, 0, None, true, &unit_options(), None);
    assert_eq!(frame, 0);
}

// -------- geometry synthesis --------

fn textured_armature(vertices: Vec<Vertex>, indices: Vec<usize>) -> Armature {
    Armature {
        bones: vec![Bone {
            parent: None,
            ik_flag: false,
            vertices,
            indices,
            rest: pose_bone(100, 50, 0, 2, 2),
        }],
        animations: vec![],
        ik_families: vec![],
        styles: vec![Style {
            textures: vec![Texture {
                atlas_idx: 0,
                offset: v2(8, 10),
                size: v2(4, 6),
            }],
        }],
        atlas_sizes: vec![v2(16, 16)],
    }
}

#[test]
fn quad_is_centered_scaled_and_sourced() {
    let arm = textured_armature(vec![], vec![]);
    let pose = vec![arm.bones[0].rest];
    let order = draw_order(&pose);
    let geom = build_geometry(&arm.bones, &pose, &arm.styles, &arm.atlas_sizes, 0, &order);
    assert_eq!(geom.calls.len(), 1);
    match geom.calls[0] {
        DrawCall::Quad(q) => {
            // Origin pushed back by half the scaled texture size.
            assert_eq!(q.origin.x.bits, 96 * FX_ONE);
            assert_eq!(q.origin.y.bits, 44 * FX_ONE);
            assert_eq!(q.size.x.bits, 8 * FX_ONE);
            assert_eq!(q.size.y.bits, 12 * FX_ONE);
            assert_eq!(q.src_offset.x.bits, 8 * FX_ONE);
            assert_eq!(q.src_size.y.bits, 6 * FX_ONE);
            assert_eq!(q.atlas_idx, 0);
        }
        DrawCall::Mesh(_) => panic!("expected a quad"),
    }
}

#[test]
fn unresolvable_texture_skips_bone() {
    let mut arm = textured_armature(vec![], vec![]);
    let mut pose = vec![arm.bones[0].rest];
    pose[0].tex_idx = 9;
    let order = draw_order(&pose);
    let geom = build_geometry(&arm.bones, &pose, &arm.styles, &arm.atlas_sizes, 0, &order);
    assert_eq!(geom.calls.len(), 0);
    // An absent style is skipped the same way.
    arm.styles.clear();
    let pose = vec![arm.bones[0].rest];
    let geom = build_geometry(&arm.bones, &pose, &arm.styles, &arm.atlas_sizes, 0, &order);
    assert_eq!(geom.calls.len(), 0);
}

#[test]
fn mesh_maps_uv_into_atlas_region() {
    let vert = Vertex {
        pos: v2(2, 3),
        uv: FxVec {
            x: Fx { bits: FX_ONE / 2 },
            y: Fx { bits: FX_ONE / 2 },
        },
    };
    let arm = textured_armature(vec![vert], vec![0, 0, 0]);
    let pose = vec![arm.bones[0].rest];
    let order = draw_order(&pose);
    let geom = build_geometry(&arm.bones, &pose, &arm.styles, &arm.atlas_sizes, 0, &order);
    assert_eq!(geom.calls.len(), 1);
    match geom.calls[0] {
        DrawCall::Mesh(m) => {
            assert_eq!(m.vtx_start, 0);
            assert_eq!(m.vtx_count, 1);
            assert_eq!(m.idx_count, 3);
            assert_eq!(m.atlas_idx, 0);
        }
        DrawCall::Quad(_) => panic!("expected a mesh"),
    }
    // lt = (0.5, 0.625), rb = (0.75, 1.0); uv 0.5 maps to the middle.
    assert_eq!(geom.vertices[0].uv.x.bits, 40960);
    assert_eq!(geom.vertices[0].uv.y.bits, 53248);
    // Horizontally the offset equals half the texture size, so x sits
    // on the bone's position; vertically the authored y is negated
    // once (the axis flip), centered and scaled:
    // (-3 - 3) * 2 = -12 below the bone.
    assert_eq!(geom.vertices[0].pos.x.bits, 100 * FX_ONE);
    assert_eq!(geom.vertices[0].pos.y.bits, 38 * FX_ONE);
    // Index lists pass through unchanged.
    assert_eq!(geom.indices, vec![0, 0, 0]);
}

#[test]
fn geometry_follows_draw_order() {
    let mut arm = textured_armature(vec![], vec![]);
    arm.bones.push(Bone {
        parent: None,
        ik_flag: false,
        vertices: vec![],
        indices: vec![],
        rest: pose_bone(0, 0, 0, 1, 1),
    });
    let mut pose = vec![arm.bones[0].rest, arm.bones[1].rest];
    pose[0].zindex = fx(5);
    pose[1].zindex = fx(-1);
    let order = draw_order(&pose);
    assert_eq!(order, vec![1, 0]);
    let geom = build_geometry(&arm.bones, &pose, &arm.styles, &arm.atlas_sizes, 0, &order);
    assert_eq!(geom.calls.len(), 2);
    match (geom.calls[0], geom.calls[1]) {
        (DrawCall::Quad(first), DrawCall::Quad(second)) => {
            // The low z-index bone (at the origin) is drawn first.
            assert_eq!(first.origin.x.bits, -2 * FX_ONE);
            assert_eq!(second.origin.x.bits, 96 * FX_ONE);
        }
        _ => panic!("expected two quads"),
    }
}

// -------- blending through the pipeline --------

#[test]
fn pipeline_blend_mixes_animations() {
    let arm = small_armature();
    let mut opts = unit_options();
    opts.frame = Some(0);
    let blend = skelform_runtime::BlendState {
        prev_anim: 1,
        prev_frame: 0,
        remaining: vec![0, 5],
        total: 10,
    };
    // Animation 0 at frame 0 puts bone 1 at x = 10; animation 1 holds
    // x = 50. Bone 1 is halfway through its countdown: 50 + (10 - 50)/2.
    let (props, _) = animate(&arm, 0, None, true, &opts, Some(&blend));
    assert_eq!(props[1].pos.x.bits, 30 * FX_ONE);
}
