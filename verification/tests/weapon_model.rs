use openstrike::weapon::WeaponKind;
use openstrike::weapon_model::{u32le, WeaponModel};

fn batch(data: &mut Vec<u8>, width: u32, pixels: &[u8], vertices: &[[f32; 5]]) {
    for n in [width, width, pixels.len() as u32, vertices.len() as u32, 0] {
        data.extend(n.to_le_bytes());
    }
    for i in 0..256u32 {
        data.extend((0xff000000 | i).to_le_bytes());
    }
    data.extend(pixels);
    while data.len() % 4 != 0 {
        data.push(0);
    }
    for v in vertices {
        for f in v {
            data.extend(f.to_bits().to_le_bytes());
        }
    }
}

fn model() -> Vec<u8> {
    let mut data = Vec::from(*b"PWM1");
    data.extend(1u32.to_le_bytes());
    data.extend(2u32.to_le_bytes());
    batch(&mut data, 2, &[1, 2, 3], &[[0.5, 0.25, 1.0, 2.0, -3.0]; 3]);
    batch(&mut data, 4, &[7; 16], &[]);
    data
}

#[test]
fn u32le_reads_and_advances_or_stops() {
    let data = [1u8, 0, 0, 0, 2, 0, 0];
    let mut o = 0;
    assert_eq!(u32le(&data, &mut o), Ok(1));
    assert_eq!(o, 4);
    assert_eq!(u32le(&data, &mut o), Err("truncated weapon model"));
    assert_eq!(o, 4);
}

#[test]
fn weapon_model_batches_keep_palette_pixels_and_vertices() {
    let data = model();
    let model = WeaponModel::parse(WeaponKind::Ak47, &data).unwrap();
    assert_eq!(model.kind, WeaponKind::Ak47);
    assert_eq!(model.batches.len(), 2);
    let first = &model.batches[0];
    assert_eq!((first.width, first.height), (2, 2));
    assert_eq!(first.palette.len(), 256);
    assert_eq!(first.palette[255], 0xff0000ff);
    assert_eq!(first.pixels, vec![1, 2, 3]);
    assert_eq!(first.vertices.len(), 3);
    assert_eq!(first.vertices[2].map(f32::from_bits), [0.5, 0.25, 1.0, 2.0, -3.0]);
    let second = &model.batches[1];
    assert_eq!(second.pixels, vec![7; 16]);
    assert!(second.vertices.is_empty());
}

#[test]
fn weapon_model_truncation_names_the_missing_part() {
    let data = model();
    assert_eq!(WeaponModel::parse(WeaponKind::Ak47, b"PWM2\x01\0\0\0").err(), Some("bad weapon model magic"));
    assert_eq!(WeaponModel::parse(WeaponKind::Ak47, &data[..6]).err(), Some("truncated weapon model"));
    let mut v2 = data.clone();
    v2[4] = 2;
    assert_eq!(WeaponModel::parse(WeaponKind::Ak47, &v2).err(), Some("unsupported weapon model"));
    assert_eq!(WeaponModel::parse(WeaponKind::Ak47, &data[..20]).err(), Some("truncated weapon model"));
    assert_eq!(WeaponModel::parse(WeaponKind::Ak47, &data[..40]).err(), Some("truncated palette"));
    assert_eq!(WeaponModel::parse(WeaponKind::Ak47, &data[..12 + 20 + 1024 + 2]).err(), Some("truncated texture"));
    assert_eq!(WeaponModel::parse(WeaponKind::Ak47, &data[..12 + 20 + 1024 + 4 + 59]).err(), Some("truncated weapon model"));
    assert_eq!(WeaponModel::parse(WeaponKind::Ak47, &data[..data.len() - 1]).err(), Some("truncated texture"));
    let mut extra = data.clone();
    extra.extend([9u8; 5]);
    assert_eq!(WeaponModel::parse(WeaponKind::Ak47, &extra).unwrap().batches.len(), 2);
}
