use bevy::prelude::EulerRot;
use bevy::prelude::GlobalTransform;
use bevy::prelude::Quat;
use bevy::prelude::Transform;
use std::f32::consts::PI;
use transform2::global::Decomposition;
use transform2::global::GlobalTransform2;
use transform2::node::update_global_transform_2;
use transform2::node::update_transform_from_transform2;
use transform2::node::Node;
use transform2::node::SpatialBundle2;
use transform2::scalar::Scalar;
use transform2::transform2::LocalTransform;
use transform2::transform2::Transform2;
use transform2::vector::Vec2;
use transform2::vector::Vec3;

fn to_scalar(x: f32) -> Scalar {
    Scalar::from_bits(x.to_bits())
}

fn to_float(x: Scalar) -> f32 {
    f32::from_bits(x.to_bits())
}

fn to_vec2(x: f32, y: f32) -> Vec2 {
    Vec2::new(to_scalar(x), to_scalar(y))
}

fn to_host_vec3(v: Vec3) -> bevy::math::Vec3 {
    bevy::math::Vec3::new(to_float(v.x), to_float(v.y), to_float(v.z))
}

fn from_host_vec3(v: bevy::math::Vec3) -> Vec3 {
    Vec3::new(to_scalar(v.x), to_scalar(v.y), to_scalar(v.z))
}

fn host_transform(local: &LocalTransform) -> Transform {
    Transform {
        translation: to_host_vec3(local.translation),
        rotation: Quat::from_rotation_z(to_float(local.rotation_z)),
        scale: to_host_vec3(local.scale),
    }
}

fn host_parts(global: &GlobalTransform) -> Decomposition {
    let (scale, rotation, translation) = global.to_scale_rotation_translation();
    Decomposition::new(
        from_host_vec3(scale),
        to_scalar(rotation.to_euler(EulerRot::ZYX).0),
        from_host_vec3(translation),
    )
}

fn read_back(pose: &Transform2) -> Transform2 {
    let global = GlobalTransform::from(host_transform(&pose.to_local()));
    *GlobalTransform2::from_decomposition(&host_parts(&global)).transform2()
}

fn close(a: Scalar, b: Scalar) -> bool {
    (to_float(a) - to_float(b)).abs() < 1e-5
}

fn close_angle(a: Scalar, b: Scalar) -> bool {
    let d = (to_float(a) - to_float(b)).rem_euclid(2.0 * PI);
    d < 1e-5 || 2.0 * PI - d < 1e-5
}

fn close_pose(a: &Transform2, b: &Transform2) -> bool {
    close(a.translation.x, b.translation.x)
        && close(a.translation.y, b.translation.y)
        && close(a.depth, b.depth)
        && close_angle(a.rotation, b.rotation)
        && close(a.scale.x, b.scale.x)
        && close(a.scale.y, b.scale.y)
}

fn run_cycle(nodes: &mut Vec<Node>, parents: &[Option<usize>]) -> (usize, usize) {
    let local_writes = update_transform_from_transform2(nodes);
    let mut globals: Vec<GlobalTransform> = Vec::new();
    for i in 0..nodes.len() {
        let local = host_transform(&nodes[i].transform.unwrap());
        let global = match parents[i] {
            Some(p) => globals[p].mul_transform(local),
            None => GlobalTransform::from(local),
        };
        globals.push(global);
        nodes[i].set_global_transform(host_parts(&global));
    }
    let global_writes = update_global_transform_2(nodes);
    (local_writes, global_writes)
}

#[test]
fn round_trip_through_the_host() {
    let poses = vec![
        Transform2::identity(),
        Transform2::from_translation(to_vec2(3.0, -4.0)),
        Transform2::from_translation_depth(to_vec2(0.5, 100.0), to_scalar(-7.0)),
        Transform2::from_rotation(to_scalar(1.0)),
        Transform2::from_rotation(to_scalar(-2.5)),
        Transform2::from_scale(to_vec2(2.0, 0.25)),
        Transform2 {
            translation: to_vec2(12.0, 9.0),
            depth: to_scalar(3.0),
            rotation: to_scalar(0.3),
            scale: to_vec2(1.5, 4.0),
        },
    ];
    for pose in poses {
        let back = read_back(&pose);
        assert!(close_pose(&back, &pose), "{:?} read back as {:?}", pose, back);
    }
}

#[test]
fn identity_is_the_hosts_identity() {
    let local = host_transform(&Transform2::identity().to_local());
    assert_eq!(local, Transform::IDENTITY);
    let back = GlobalTransform2::from_decomposition(&host_parts(&GlobalTransform::IDENTITY));
    assert_eq!(*back.transform2(), Transform2::identity());
    assert_eq!(back, GlobalTransform2::default());
}

#[test]
fn rotation_sign() {
    let pose = Transform2::from_rotation(to_scalar(PI / 2.0));
    let local = pose.to_local();
    assert_eq!(to_float(local.rotation_z), -PI / 2.0);
    let host = host_transform(&local);
    let expected = Quat::from_rotation_z(-PI / 2.0);
    assert!(host.rotation.abs_diff_eq(expected, 1e-6));
    let turned = host.rotation * bevy::math::Vec3::X;
    assert!(turned.abs_diff_eq(bevy::math::Vec3::new(0.0, -1.0, 0.0), 1e-6));
    let back = read_back(&pose);
    assert!(close_angle(back.rotation, to_scalar(PI / 2.0)), "{:?}", back);
}

#[test]
fn depth_composition() {
    let parent = Node::spawn(SpatialBundle2::default(), true);
    let child = Node::spawn(
        SpatialBundle2 {
            transform2: Transform2::from_translation_depth(to_vec2(0.0, 0.0), to_scalar(5.0)),
            ..SpatialBundle2::default()
        },
        true,
    );
    let mut nodes = vec![parent, child];
    run_cycle(&mut nodes, &[None, Some(0)]);
    let global = nodes[1].global_transform2.unwrap();
    assert_eq!(global.translation(), to_vec2(0.0, 0.0));
    assert_eq!(to_float(global.transform2().depth), 5.0);
    assert!(close(global.rotation(), to_scalar(0.0)));
    assert_eq!(global.scale(), to_vec2(1.0, 1.0));
}

#[test]
fn child_follows_parent_within_one_cycle() {
    let parent = Node::spawn(SpatialBundle2::from_translation(to_vec2(1.0, 2.0)), true);
    let child = Node::spawn(SpatialBundle2::from_translation(to_vec2(10.0, 20.0)), true);
    let mut nodes = vec![parent, child];
    let parents = [None, Some(0)];
    assert_eq!(run_cycle(&mut nodes, &parents), (2, 2));
    assert_eq!(nodes[1].global_transform2.unwrap().translation(), to_vec2(11.0, 22.0));

    nodes[0].set_transform2(Transform2::from_translation(to_vec2(100.0, 200.0)));
    assert_eq!(run_cycle(&mut nodes, &parents), (1, 2));
    assert_eq!(nodes[0].global_transform2.unwrap().translation(), to_vec2(100.0, 200.0));
    assert_eq!(nodes[1].global_transform2.unwrap().translation(), to_vec2(110.0, 220.0));
    assert_ne!(nodes[1].global_transform2.unwrap().translation(), to_vec2(11.0, 22.0));
}

#[test]
fn nothing_changed_nothing_written() {
    let mut nodes = vec![
        Node::spawn(SpatialBundle2::from_translation(to_vec2(1.0, 2.0)), true),
        Node::spawn(SpatialBundle2::from_translation(to_vec2(3.0, 4.0)), true),
    ];
    run_cycle(&mut nodes, &[None, Some(0)]);
    let settled = nodes.clone();
    assert_eq!(update_transform_from_transform2(&mut nodes), 0);
    assert_eq!(update_global_transform_2(&mut nodes), 0);
    for (now, then) in nodes.iter().zip(settled.iter()) {
        assert_eq!(now.transform, then.transform);
        assert_eq!(now.global_transform2, then.global_transform2);
    }
}
