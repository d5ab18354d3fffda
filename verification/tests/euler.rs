use glam::{EulerRot, Quat};
use p5r_freecam::node::{FreecamNode, Quaternion, Vector3};
use p5r_freecam::path_file::{decode_path, encode_path, ByteOrder};
use p5r_freecam::scalar::Scalar;

fn s(x: f32) -> Scalar {
    Scalar::from_bits(x.to_bits())
}

fn f(x: Scalar) -> f32 {
    f32::from_bits(x.to_bits())
}

fn carried(q: Quat) -> Quaternion {
    Quaternion::new(s(q.x), s(q.y), s(q.z), s(q.w))
}

fn back(q: Quaternion) -> Quat {
    Quat::from_xyzw(f(q.x), f(q.y), f(q.z), f(q.w))
}

#[test]
fn euler_angles_survive_a_keyframe() {
    let steps = [-1.4f32, -0.9, -0.3, 0.0, 0.2, 0.75, 1.3];
    for &pan in &steps {
        for &pitch in &steps {
            for &roll in &steps {
                let q = Quat::from_euler(EulerRot::YXZEx, pan, pitch, roll);
                let node = FreecamNode::new(Vector3::zero(), carried(q));
                assert_eq!(back(node.rot), q);
                let (y, p, r) = back(node.rot).to_euler(EulerRot::YXZEx);
                assert!((y - pan).abs() < 1.0e-4, "pan {} -> {}", pan, y);
                assert!((p - pitch).abs() < 1.0e-4, "pitch {} -> {}", pitch, p);
                assert!((r - roll).abs() < 1.0e-4, "roll {} -> {}", roll, r);
            }
        }
    }
}

#[test]
fn euler_angles_survive_a_saved_path() {
    let mut nodes = Vec::new();
    let mut angles = Vec::new();
    for i in 0..20 {
        let (pan, pitch, roll) = (0.1 * i as f32 - 1.0, 0.05 * i as f32 - 0.5, 0.07 * i as f32);
        angles.push((pan, pitch, roll));
        let q = Quat::from_euler(EulerRot::YXZEx, pan, pitch, roll);
        nodes.push(FreecamNode::new(Vector3::new(s(i as f32), s(0.0), s(0.0)), carried(q)));
    }
    let saved = encode_path(&nodes, ByteOrder::Little).unwrap();
    let loaded = decode_path(&saved, ByteOrder::Little).unwrap();
    assert_eq!(loaded, nodes);
    for (node, (pan, pitch, roll)) in loaded.iter().zip(angles) {
        let (y, p, r) = back(node.rot).to_euler(EulerRot::YXZEx);
        assert!((y - pan).abs() < 1.0e-4);
        assert!((p - pitch).abs() < 1.0e-4);
        assert!((r - roll).abs() < 1.0e-4);
    }
}

#[test]
fn negated_quaternion_is_glams_negation() {
    let q = Quat::from_euler(EulerRot::YXZEx, 0.3, -0.2, 1.1);
    assert_eq!(back(carried(q).negated()), -q);
    let zero = Quat::from_xyzw(0.0, -0.0, 1.0, 0.0);
    let n = carried(zero).negated();
    assert_eq!(n.x.to_bits(), (-0.0f32).to_bits());
    assert_eq!(n.y.to_bits(), 0.0f32.to_bits());
}

#[test]
fn negating_one_orientation_mirrors_the_dot_product() {
    let a = Quat::from_euler(EulerRot::YXZEx, 0.3, -0.2, 1.1);
    let b = Quat::from_euler(EulerRot::YXZEx, -2.3, 0.9, 0.1);
    let d = s(a.dot(b));
    let mirrored = s(back(carried(a).negated()).dot(b));
    assert_eq!(mirrored, d.negated());
    assert_eq!(mirrored.is_negative(), d.is_positive());
    assert_eq!(mirrored.is_positive(), d.is_negative());
}
