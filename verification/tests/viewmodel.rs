use glam::Vec3;
use openstrike::viewmodel::{validate, ViewModel};

fn fixture() -> Vec<u8> {
    let mut bytes = vec![0u8; 24 + 3 * 16];
    bytes[..4].copy_from_slice(b"OPVM");
    bytes[4..8].copy_from_slice(&1u32.to_le_bytes());
    bytes[8..12].copy_from_slice(&3u32.to_le_bytes());
    for at in [39, 55, 71] {
        bytes[at] = 255;
    }
    bytes
}

fn vec3(bits: [u32; 3]) -> Vec3 {
    Vec3::from_array(bits.map(f32::from_bits))
}

#[test]
fn rejects_corrupt_or_unbounded_geometry_before_rendering() {
    let good = fixture();
    assert_eq!(validate(&good), Ok(()));
    for len in 0..good.len() {
        assert!(validate(&good[..len]).is_err());
    }
    for (at, value) in [
        (4, 2),
        (8, 3075),
        (8, 2),
        (12, f32::NAN.to_bits()),
        (24, 129f32.to_bits()),
        (36, 0x80ffffff),
    ] {
        let mut bad = good.clone();
        bad[at..at + 4].copy_from_slice(&value.to_le_bytes());
        assert!(validate(&bad).is_err(), "offset {at}");
    }
    let mesh = ViewModel::parse(Box::leak(good.into_boxed_slice())).unwrap();
    assert_eq!(mesh.len(), 3);
    assert_eq!(vec3(mesh.muzzle()), Vec3::ZERO);
    let (position, color) = mesh.vertex(2);
    assert_eq!((vec3(position), color), (Vec3::ZERO, 0xff000000));
}

#[test]
fn viewmodel_errors_follow_the_header_then_coordinates_then_alpha() {
    let good = fixture();
    assert_eq!(validate(&good[..23]), Err("invalid viewmodel header"));
    let mut bad = good.clone();
    bad[0] = b'X';
    assert_eq!(validate(&bad), Err("invalid viewmodel header"));
    let mut bad = good.clone();
    bad[8..12].copy_from_slice(&6u32.to_le_bytes());
    assert_eq!(validate(&bad), Err("viewmodel triangle budget or length is invalid"));
    let mut bad = good.clone();
    bad[16..20].copy_from_slice(&f32::INFINITY.to_bits().to_le_bytes());
    assert_eq!(validate(&bad), Err("viewmodel coordinate is invalid"));
    let mut bad = good.clone();
    bad[24 + 2 * 16 + 8..24 + 2 * 16 + 12].copy_from_slice(&(-128.5f32).to_bits().to_le_bytes());
    assert_eq!(validate(&bad), Err("viewmodel coordinate is invalid"));
    let mut bad = good.clone();
    bad[24 + 16 + 4..24 + 16 + 8].copy_from_slice(&(-128.0f32).to_bits().to_le_bytes());
    assert_eq!(validate(&bad), Ok(()));
    let mut bad = good.clone();
    bad[55] = 254;
    assert_eq!(validate(&bad), Err("viewmodel must be opaque"));
}

#[test]
fn vertices_and_muzzle_keep_their_bits() {
    let mut bytes = fixture();
    bytes[12..16].copy_from_slice(&1.5f32.to_bits().to_le_bytes());
    bytes[20..24].copy_from_slice(&(-31.0f32).to_bits().to_le_bytes());
    bytes[24 + 16..24 + 20].copy_from_slice(&2.0f32.to_bits().to_le_bytes());
    bytes[24 + 16 + 12..24 + 16 + 16].copy_from_slice(&0xff336699u32.to_le_bytes());
    let mesh = ViewModel::parse(Box::leak(bytes.into_boxed_slice())).unwrap();
    assert_eq!(vec3(mesh.muzzle()), Vec3::new(1.5, 0.0, -31.0));
    let (position, color) = mesh.vertex(1);
    assert_eq!(vec3(position), Vec3::new(2.0, 0.0, 0.0));
    assert_eq!(color, 0xff336699);
}
