use nalgebra::{Matrix4, Rotation3, Vector3};
use stereo_pbr::draw::uber::{sun_axes, ParamsBlock, UberStyle};
use stereo_pbr::factory::Factory;
use stereo_pbr::linear::{identity, to_homogeneous};

fn rotation_bits(r: &Rotation3<f32>) -> [[u32; 3]; 3] {
    let m = r.matrix();
    let mut out = [[0u32; 3]; 3];
    for c in 0..3 {
        for row in 0..3 {
            out[c][row] = m[(row, c)].to_bits();
        }
    }
    out
}

fn matrix_bits(m: &Matrix4<f32>) -> [[u32; 4]; 4] {
    let mut out = [[0u32; 4]; 4];
    for c in 0..4 {
        for row in 0..4 {
            out[c][row] = m[(row, c)].to_bits();
        }
    }
    out
}

fn axis(a: [u32; 3]) -> Vector3<f32> {
    Vector3::new(f32::from_bits(a[0]), f32::from_bits(a[1]), f32::from_bits(a[2]))
}

#[test]
fn homogeneous_form_agrees_with_nalgebra() {
    let rotations = [
        Rotation3::identity(),
        Rotation3::from_euler_angles(0.3, -1.2, 2.5),
        Rotation3::from_axis_angle(&Vector3::z_axis(), std::f32::consts::FRAC_PI_6),
        Rotation3::from_axis_angle(&Vector3::x_axis(), -std::f32::consts::FRAC_PI_2),
    ];
    for r in rotations.iter() {
        assert_eq!(to_homogeneous(&rotation_bits(r)), matrix_bits(&r.to_homogeneous()));
    }
}

#[test]
fn identity_agrees_with_nalgebra() {
    assert_eq!(identity(), matrix_bits(&Matrix4::identity()));
}

#[test]
fn default_sun_shines_straight_down() {
    let (from, to) = sun_axes();
    let rotation = Rotation3::rotation_between(&axis(from), &axis(to)).unwrap();
    let turned = rotation * axis(from);
    assert!((turned - axis(to)).norm() < 1.0e-6);

    let mut f = Factory::new();
    let inputs = UberStyle::init(&mut f, Some(rotation_bits(&rotation))).unwrap();
    let params = ParamsBlock::derive(inputs.env(), inputs.exposure(), inputs.gamma());
    assert_eq!(params.sun_matrix, matrix_bits(&rotation.to_homogeneous()));
}

#[test]
fn opposite_axes_have_no_rotation_between_them() {
    let (from, _) = sun_axes();
    let none = Rotation3::rotation_between(&axis(from), &(-axis(from)));
    assert!(none.is_none());
    let mut f = Factory::new();
    assert!(UberStyle::init(&mut f, none.map(|r| rotation_bits(&r))).is_err());
}
