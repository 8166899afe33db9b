use openstrike::format::validate;

fn fixture() -> Vec<u8> {
    let mut data = Vec::from(*b"OPCH");
    for n in [2u32, 3, 3, 7, 14, 16, 16, 1024, 0] {
        data.extend(n.to_le_bytes());
    }
    for clip in 0..7u32 {
        for n in [clip * 2, 2, 1.0f32.to_bits(), u32::from(clip < 3)] {
            data.extend(n.to_le_bytes());
        }
    }
    data.extend([255u8; 12]); // vertex colors
    data.extend([0u8; 12]); // UVs
    for i in 0..3u16 {
        data.extend(i.to_le_bytes());
    }
    data.extend([0u8; 14 * 3 * 6]); // poses
    data.extend([0u8; 14 * 12]); // attack sockets
    data.extend([255u8; 1024]);
    data
}

fn with_frames(frames: u32) -> Vec<u8> {
    let mut data = Vec::from(*b"OPCH");
    for n in [2u32, 3, 3, 7, frames, 16, 16, 1024, 0] {
        data.extend(n.to_le_bytes());
    }
    for clip in 0..7u32 {
        for n in [clip * 2, 2, 1.0f32.to_bits(), u32::from(clip < 3)] {
            data.extend(n.to_le_bytes());
        }
    }
    data.extend([255u8; 12]);
    data.extend([0u8; 12]);
    for i in 0..3u16 {
        data.extend(i.to_le_bytes());
    }
    data.extend(vec![0u8; frames as usize * 3 * 6]);
    data.extend(vec![0u8; frames as usize * 12]);
    data.extend([255u8; 1024]);
    data
}

fn changed(offset: usize, value: u32) -> Vec<u8> {
    let mut data = fixture();
    data[offset..offset + 4].copy_from_slice(&value.to_le_bytes());
    data
}

#[test]
fn rejects_truncation_and_unbounded_gpu_allocations() {
    let data = fixture();
    validate(&data).unwrap();
    for len in [0, 4, 23, 39, 120, data.len() - 1] {
        assert!(validate(&data[..len]).is_err());
    }
    for (offset, value) in [
        (4, 3),
        (8, u32::MAX),
        (12, 65535),
        (20, 4096),
        (24, 257),
        (28, 32),
        (32, 1),
    ] {
        assert!(validate(&changed(offset, value)).is_err());
    }
}

#[test]
fn rejects_invalid_clips_indices_and_nonfinite_sockets() {
    for (offset, value) in [(40, 1), (44, u32::MAX), (48, f32::NAN.to_bits()), (52, 0)] {
        assert!(validate(&changed(offset, value)).is_err());
    }
    let mut data = fixture();
    let indices = 40 + 7 * 16 + 3 * 8;
    data[indices..indices + 2].copy_from_slice(&3u16.to_le_bytes());
    assert_eq!(validate(&data), Err("out-of-range vertex index"));
    let socket = indices + 6 + 14 * 3 * 6;
    assert_eq!(
        validate(&changed(socket, f32::INFINITY.to_bits())),
        Err("invalid attack socket")
    );
}

#[test]
fn each_rule_names_its_own_error() {
    let data = fixture();
    assert_eq!(validate(b"OPC"), Err("invalid magic"));
    assert_eq!(validate(b"NOPE----"), Err("invalid magic"));
    assert_eq!(validate(&data[..6]), Err("truncated header"));
    assert_eq!(validate(&changed(4, 3)), Err("unsupported version"));
    assert_eq!(validate(&data[..20]), Err("truncated header"));
    assert_eq!(validate(&changed(8, 0)), Err("vertex/index budget exceeded"));
    assert_eq!(validate(&changed(12, 4)), Err("vertex/index budget exceeded"));
    assert_eq!(validate(&changed(16, 6)), Err("invalid clip/frame count"));
    assert_eq!(validate(&changed(20, 13)), Err("invalid clip/frame count"));
    let mut heavy = changed(8, 16000);
    heavy[20..24].copy_from_slice(&512u32.to_le_bytes());
    assert_eq!(validate(&heavy), Err("morph cache budget exceeded"));
    assert_eq!(validate(&data[..30]), Err("truncated header"));
    assert_eq!(validate(&changed(24, 48)), Err("invalid texture dimensions"));
    assert_eq!(validate(&changed(28, 32)), Err("invalid texture dimensions"));
    assert_eq!(validate(&data[..34]), Err("truncated header"));
    assert_eq!(validate(&changed(32, 1)), Err("invalid texture header"));
    assert_eq!(validate(&data[..38]), Err("truncated header"));
    assert_eq!(validate(&changed(36, 1)), Err("invalid texture header"));
    assert_eq!(validate(&data[..data.len() - 1]), Err("invalid asset length"));
    assert_eq!(validate(&changed(40, 1)), Err("invalid clip record"));
    // A looping flag on a one-shot clip.
    assert_eq!(validate(&changed(40 + 3 * 16 + 12, 1)), Err("invalid clip record"));
    // Durations: zero, negative, above 30 s, and exactly 30 s.
    assert_eq!(validate(&changed(48, 0)), Err("invalid clip record"));
    assert_eq!(validate(&changed(48, (-1.0f32).to_bits())), Err("invalid clip record"));
    assert_eq!(validate(&changed(48, 30.5f32.to_bits())), Err("invalid clip record"));
    assert_eq!(validate(&changed(48, 30.0f32.to_bits())), Ok(()));
    // Seven two-frame clips cover 14 of 15 pose frames.
    assert_eq!(validate(&with_frames(15)), Err("unreferenced pose frames"));
    // Sockets: exactly 128 units is accepted, one ulp more is not.
    let socket = 40 + 7 * 16 + 3 * 8 + 6 + 14 * 3 * 6;
    assert_eq!(validate(&changed(socket, (-128.0f32).to_bits())), Ok(()));
    assert_eq!(
        validate(&changed(socket, 128.0f32.to_bits() + 1)),
        Err("invalid attack socket")
    );
}

#[test]
fn untextured_version_one_asset_is_accepted() {
    let mut data = Vec::from(*b"OPCH");
    for n in [1u32, 3, 3, 7, 14] {
        data.extend(n.to_le_bytes());
    }
    for clip in 0..7u32 {
        for n in [clip * 2, 2, 0.5f32.to_bits(), u32::from(clip < 3)] {
            data.extend(n.to_le_bytes());
        }
    }
    data.extend([255u8; 12]);
    for i in 0..3u16 {
        data.extend(i.to_le_bytes());
    }
    data.extend([0u8; 14 * 3 * 6]);
    assert_eq!(validate(&data), Ok(()));
    data.push(0);
    assert_eq!(validate(&data), Err("invalid asset length"));
}
