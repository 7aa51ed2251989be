use transform2::global::Decomposition;
use transform2::global::GlobalTransform2;
use transform2::scalar::Scalar;
use transform2::transform2::display_text;
use transform2::transform2::LocalTransform;
use transform2::transform2::Transform2;
use transform2::vector::Vec2;
use transform2::vector::Vec3;

fn s(x: f32) -> Scalar {
    Scalar::from_bits(x.to_bits())
}

fn v2(x: f32, y: f32) -> Vec2 {
    Vec2::new(s(x), s(y))
}

fn v3(x: f32, y: f32, z: f32) -> Vec3 {
    Vec3::new(s(x), s(y), s(z))
}

fn sample_bits() -> Vec<u32> {
    vec![
        0x0000_0000,
        0x8000_0000,
        0x3f80_0000,
        0xbf80_0000,
        0x0000_0001,
        0x8000_0001,
        0x7f7f_ffff,
        0x7f80_0000,
        0xff80_0000,
        0x7f80_0001,
        0x7fc0_0000,
        0xffc0_0000,
        0xffff_ffff,
        0x4049_0fdb,
        0x3fc9_0fdb,
    ]
}

#[test]
fn scalar_equality_is_numeric() {
    for a in sample_bits() {
        for b in sample_bits() {
            let expected = f32::from_bits(a) == f32::from_bits(b);
            assert_eq!(Scalar::from_bits(a) == Scalar::from_bits(b), expected, "{a:#x} {b:#x}");
        }
    }
}

#[test]
fn scalar_nan_equals_nothing() {
    let nan = s(f32::NAN);
    assert!(nan != nan);
    assert!(nan != s(0.0));
    assert!(nan.is_nan());
    assert!(!nan.is_finite());
}

#[test]
fn scalar_zeros_are_equal() {
    assert!(s(0.0) == s(-0.0));
    assert_ne!(s(0.0).to_bits(), s(-0.0).to_bits());
    assert!(s(-0.0).is_zero());
    assert!(!s(1.0e-40).is_zero());
}

#[test]
fn scalar_negation_matches_the_machine() {
    for a in sample_bits() {
        assert_eq!(Scalar::from_bits(a).neg().to_bits(), (-f32::from_bits(a)).to_bits());
        assert_eq!(Scalar::from_bits(a).neg().neg().to_bits(), a);
    }
    assert_eq!(s(1.5).neg().to_bits(), (-1.5f32).to_bits());
}

#[test]
fn scalar_classes_match_the_machine() {
    for a in sample_bits() {
        let x = f32::from_bits(a);
        assert_eq!(Scalar::from_bits(a).is_nan(), x.is_nan());
        assert_eq!(Scalar::from_bits(a).is_finite(), x.is_finite());
        assert_eq!(Scalar::from_bits(a).is_zero(), x == 0.0);
    }
}

#[test]
fn scalar_constants() {
    assert_eq!(Scalar::zero().to_bits(), 0.0f32.to_bits());
    assert_eq!(Scalar::one().to_bits(), 1.0f32.to_bits());
    assert_eq!(transform2::scalar::ONE_BITS, 1.0f32.to_bits());
    assert_eq!(transform2::scalar::INFINITY_BITS, f32::INFINITY.to_bits());
}

#[test]
fn vectors_extend_and_project() {
    let v = v2(1.0, 2.0).extend(s(3.0));
    assert_eq!(v, v3(1.0, 2.0, 3.0));
    assert_eq!(v.xy(), v2(1.0, 2.0));
    assert_eq!(Vec2::zero(), v2(0.0, 0.0));
    assert_eq!(Vec2::one(), v2(1.0, 1.0));
    assert_eq!(Vec3::zero(), v3(0.0, 0.0, 0.0));
    assert_eq!(Vec3::one(), v3(1.0, 1.0, 1.0));
    assert_ne!(v2(1.0, 2.0), v2(2.0, 1.0));
    assert_eq!(Vec3::from_bits(1, 2, 3).z.to_bits(), 3);
    assert_eq!(Vec2::from_bits(1, 2).y.to_bits(), 2);
}

#[test]
fn identity_fields() {
    let id = Transform2::identity();
    assert_eq!(id.translation, v2(0.0, 0.0));
    assert_eq!(id.depth.to_bits(), 0.0f32.to_bits());
    assert_eq!(id.rotation.to_bits(), 0.0f32.to_bits());
    assert_eq!(id.scale, v2(1.0, 1.0));
    assert_eq!(Transform2::default(), id);
}

#[test]
fn constructors_keep_the_identity_elsewhere() {
    let id = Transform2::identity();
    assert_eq!(
        Transform2::from_translation(v2(3.0, 4.0)),
        Transform2 { translation: v2(3.0, 4.0), ..id }
    );
    assert_eq!(
        Transform2::from_translation_depth(v2(3.0, 4.0), s(7.0)),
        Transform2 { translation: v2(3.0, 4.0), depth: s(7.0), ..id }
    );
    assert_eq!(Transform2::from_rotation(s(0.5)), Transform2 { rotation: s(0.5), ..id });
    assert_eq!(Transform2::from_scale(v2(2.0, 3.0)), Transform2 { scale: v2(2.0, 3.0), ..id });
    assert_eq!(Transform2::from_depth(s(9.0)), Transform2 { depth: s(9.0), ..id });
    assert_ne!(Transform2::from_depth(s(9.0)), id);
}

#[test]
fn with_calls_change_one_field() {
    let base = Transform2 {
        translation: v2(1.0, 2.0),
        depth: s(3.0),
        rotation: s(4.0),
        scale: v2(5.0, 6.0),
    };
    assert_eq!(
        base.with_translation(v2(8.0, 9.0)),
        Transform2 { translation: v2(8.0, 9.0), ..base }
    );
    assert_eq!(base.with_rotation(s(8.0)), Transform2 { rotation: s(8.0), ..base });
    assert_eq!(base.with_depth(s(8.0)), Transform2 { depth: s(8.0), ..base });
    assert_eq!(base.with_scale(v2(8.0, 9.0)), Transform2 { scale: v2(8.0, 9.0), ..base });
}

#[test]
fn builder_fluency() {
    let built = Transform2::from_translation(v2(3.0, 4.0)).with_depth(s(2.0)).with_rotation(s(1.0));
    let direct = Transform2 {
        translation: v2(3.0, 4.0),
        depth: s(2.0),
        rotation: s(1.0),
        scale: v2(1.0, 1.0),
    };
    assert_eq!(built, direct);
    assert_eq!(built.translation.x.to_bits(), 3.0f32.to_bits());
    assert_eq!(built.scale.y.to_bits(), 1.0f32.to_bits());
}

#[test]
fn pose_with_nan_differs_from_itself() {
    let p = Transform2::from_depth(s(f32::NAN));
    assert!(p != p);
}

#[test]
fn conversion_fields() {
    let pose = Transform2 {
        translation: v2(1.0, 2.0),
        depth: s(3.0),
        rotation: s(0.25),
        scale: v2(5.0, 6.0),
    };
    let local = pose.to_local();
    assert_eq!(local.translation, v3(1.0, 2.0, 3.0));
    assert_eq!(local.rotation_z.to_bits(), (-0.25f32).to_bits());
    assert_eq!(local.scale, v3(5.0, 6.0, 1.0));
    assert_eq!(LocalTransform::from(&pose), local);
}

#[test]
fn conversion_of_identity_is_identity() {
    assert_eq!(Transform2::identity().to_local(), LocalTransform::identity());
    assert_eq!(Transform2::identity().to_local().rotation_z.to_bits(), (-0.0f32).to_bits());
}

#[test]
fn conversion_lets_non_finite_numbers_through() {
    let pose = Transform2::from_translation_depth(v2(f32::INFINITY, 0.0), s(f32::NAN));
    let local = pose.to_local();
    assert_eq!(local.translation.x.to_bits(), f32::INFINITY.to_bits());
    assert!(local.translation.z.is_nan());
}

#[test]
fn read_back_fields() {
    let parts = Decomposition::new(v3(2.0, 3.0, 4.0), s(-0.5), v3(7.0, 8.0, 9.0));
    let global = GlobalTransform2::from_decomposition(&parts);
    assert_eq!(global.translation(), v2(7.0, 8.0));
    assert_eq!(global.transform2().depth.to_bits(), 9.0f32.to_bits());
    assert_eq!(global.rotation().to_bits(), 0.5f32.to_bits());
    assert_eq!(global.scale(), v2(2.0, 3.0));
    assert_eq!(GlobalTransform2::from(&parts), global);
}

#[test]
fn read_back_of_identity_is_identity() {
    let global = GlobalTransform2::from_decomposition(&Decomposition::identity());
    assert_eq!(*global.transform2(), Transform2::identity());
    assert_eq!(global, GlobalTransform2::default());
    assert_eq!(*GlobalTransform2::default().transform2(), Transform2::identity());
}

#[test]
fn read_back_of_own_parts_is_exact() {
    let pose = Transform2 {
        translation: v2(1.5, -2.5),
        depth: s(3.0),
        rotation: s(0.75),
        scale: v2(5.0, 0.5),
    };
    let local = pose.to_local();
    let parts = Decomposition::new(local.scale, local.rotation_z, local.translation);
    let back = *GlobalTransform2::from_decomposition(&parts).transform2();
    assert_eq!(back.translation.x.to_bits(), pose.translation.x.to_bits());
    assert_eq!(back.translation.y.to_bits(), pose.translation.y.to_bits());
    assert_eq!(back.depth.to_bits(), pose.depth.to_bits());
    assert_eq!(back.rotation.to_bits(), pose.rotation.to_bits());
    assert_eq!(back.scale.x.to_bits(), pose.scale.x.to_bits());
    assert_eq!(back.scale.y.to_bits(), pose.scale.y.to_bits());
}

#[test]
fn display_text_is_canonical() {
    let pose = Transform2::from_translation(v2(3.0, 4.0)).with_depth(s(2.0)).with_rotation(s(1.0));
    let n = |x: Scalar| format!("{}", f32::from_bits(x.to_bits()));
    let text = display_text(
        &n(pose.translation.x),
        &n(pose.translation.y),
        &n(pose.depth),
        &n(pose.rotation),
        &n(pose.scale.x),
        &n(pose.scale.y),
    );
    assert_eq!(text, "{T[3, 4], D[2], R[1], S[1, 1]}");
    assert_eq!(display_text("", "", "", "", "", ""), "{T[, ], D[], R[], S[, ]}");
    assert_eq!(display_text("a", "b", "c", "d", "e", "f"), "{T[a, b], D[c], R[d], S[e, f]}");
}
