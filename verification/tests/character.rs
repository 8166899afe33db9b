use openstrike::character::{
    attack_origin, duration, swizzled_atlas, ActorClip, asset_bytes, baked_frame_count, baked_vertex, copy_indices, index, index_count,
    selected_asset, swizzled_rgba_block, texture, textured, textured_vertex, triangle_count,
    vertex_count, Asset, PackedVertex, PoseCache, TexturedVertex,
};
use openstrike::format::{validate, MAX_CACHE_BYTES};

/// The smallest textured asset the format accepts (the default officer
/// asset is produced by the asset pipeline and is not part of this crate).
fn fixture() -> Vec<u8> {
    let mut data = Vec::from(*b"OPCH");
    for n in [2u32, 3, 3, 7, 14, 16, 16, 1024, 0] {
        data.extend(n.to_le_bytes());
    }
    for clip in 0..7u32 {
        for n in [clip * 2, 2, 1.0f32.to_bits(), u32::from(clip < 3)] {
            data.extend(n.to_le_bytes());
        }
    }
    for i in 0..3u32 {
        data.extend((0xff000000u32 | i).to_le_bytes()); // vertex colors
    }
    for i in 0..3u16 {
        data.extend((i * 100).to_le_bytes()); // u
        data.extend((i * 100 + 1).to_le_bytes()); // v
    }
    for i in 0..3u16 {
        data.extend(i.to_le_bytes());
    }
    for frame in 0..14i16 {
        for vertex in 0..3i16 {
            for axis in 0..3i16 {
                data.extend((frame * 100 + vertex * 10 - axis).to_le_bytes());
            }
        }
    }
    data.extend([0u8; 14 * 12]); // attack sockets
    data.extend((0..1024u32).map(|i| i as u8));
    data
}

fn leak(data: Vec<u8>) -> &'static [u8] {
    Box::leak(data.into_boxed_slice())
}

#[test]
fn swizzled_texture_retains_every_texel_across_tile_boundaries() {
    for width in [16usize, 32, 128, 256] {
        let mut source = vec![0u8; width * width * 4];
        for (i, pixel) in source.chunks_exact_mut(4).enumerate() {
            pixel.copy_from_slice(&(i as u32).to_le_bytes());
        }
        let swizzled: Vec<u8> = (0..source.len() / 16)
            .flat_map(|i| swizzled_rgba_block(&source, width, i))
            .collect();
        for y in 0..width {
            for x in 0..width {
                let tile = (y / 8) * (width / 4) + x / 4;
                let at = tile * 128 + (y % 8) * 16 + (x % 4) * 4;
                assert_eq!(
                    &swizzled[at..at + 4],
                    &((y * width + x) as u32).to_le_bytes()
                );
            }
        }
    }
}

#[test]
fn authored_asset_stays_within_psp_budget_and_indices_are_valid() {
    let data = leak(fixture());
    let asset = selected_asset(data);
    assert_eq!(&data[..4], b"OPCH");
    validate(data).unwrap();
    // Seven clip records: Idle, Walk, Run, Fire, Reload, Hit, Death.
    assert_eq!(u32::from_le_bytes(data[16..20].try_into().unwrap()), 7);
    assert!(asset_bytes(&asset) <= 4 * 1024 * 1024);
    assert!(triangle_count(&asset) <= 10922);
    if !textured(&asset) {
        assert!(asset_bytes(&asset) <= 512 * 1024);
        assert!(triangle_count(&asset) <= 1400);
    }
    assert!(index_count(&asset) * 2 <= 65536);
    assert_eq!(core::mem::size_of::<PackedVertex>(), 12);
    assert_eq!(core::mem::size_of::<TexturedVertex>(), 16);
    let stride = if textured(&asset) { 32 } else { 24 };
    assert!(baked_frame_count(&asset) * vertex_count(&asset) * stride <= MAX_CACHE_BYTES);
    for i in 0..index_count(&asset) {
        assert!(index(&asset, i) < vertex_count(&asset));
    }
}

#[test]
fn parse_reads_header_counts_and_every_table() {
    let asset = Asset::parse(leak(fixture())).unwrap();
    assert!(asset.textured());
    assert_eq!(asset.vertex_count(), 3);
    assert_eq!(asset.index_count(), 3);
    assert_eq!(asset.triangle_count(), 1);
    assert_eq!(asset.baked_frame_count(), 14);
    assert_eq!(asset.asset_bytes(), fixture().len());
    assert_eq!(asset.index(2), 2);
    let mut out = [9u16; 3];
    asset.copy_indices(&mut out);
    assert_eq!(out, [0, 1, 2]);
    let v = asset.baked_vertex(5, 2);
    assert_eq!(v.color, 0xff000002);
    assert_eq!((v.x, v.y, v.z), (520, 519, 518));
    assert_eq!(v.padding, 0);
    let t = asset.textured_vertex(13, 1);
    assert_eq!((t.u, t.v), (100, 101));
    assert_eq!((t.vertex.x, t.vertex.y, t.vertex.z), (1310, 1309, 1308));
    let (width, rgba) = asset.texture().unwrap();
    assert_eq!(width, 16);
    assert_eq!(rgba.len(), 1024);
    assert_eq!(rgba[0], 0);
    assert_eq!(rgba[1023], 255);
    // Negative coordinates keep their sign.
    let mut data = fixture();
    let at = 40 + 7 * 16 + 3 * 8 + 6;
    data[at..at + 2].copy_from_slice(&(-300i16).to_le_bytes());
    let negative = Asset::parse(leak(data)).unwrap();
    assert_eq!(baked_vertex(&negative, 0, 0).x, -300);
    assert_eq!(textured_vertex(&negative, 0, 0).vertex.x, -300);
    assert_eq!(texture(&negative).unwrap().0, 16);
    let mut free = [0u16; 3];
    copy_indices(&negative, &mut free);
    assert_eq!(free, [0, 1, 2]);
}

#[test]
fn parse_rejects_what_validate_rejects() {
    let mut data = fixture();
    data.pop();
    assert_eq!(Asset::parse(leak(data)).err(), Some("invalid asset length"));
    assert_eq!(Asset::parse(b"OPCH").err(), Some("truncated header"));
}

#[test]
fn pose_cache_pairs_each_frame_with_the_next_and_fits_the_budget() {
    let asset = Asset::parse(leak(fixture())).unwrap();
    let cache = PoseCache::new(&asset);
    assert_eq!(cache.bytes(), 14 * 3 * 32);
    assert!(cache.bytes() <= MAX_CACHE_BYTES);
    match cache {
        PoseCache::Textured(pairs) => {
            assert_eq!(pairs.len(), 14 * 3);
            assert_eq!(pairs[3 * 4 + 1][0].vertex.x, 410);
            assert_eq!(pairs[3 * 4 + 1][1].vertex.x, 510);
            // The last frame blends towards itself.
            assert_eq!(pairs[13 * 3 + 2][1].vertex.x, 1320);
            assert_eq!(pairs[13 * 3 + 2][0].vertex.x, 1320);
        }
        PoseCache::Color(_) => panic!("textured asset"),
    }
}

#[test]
fn clips_expose_their_frames_durations_and_loop_flags() {
    let mut data = fixture();
    // Death lasts 2.5 s; the first Fire frame's socket is (1, -2, 3).
    let death = 40 + 6 * 16 + 8;
    data[death..death + 4].copy_from_slice(&2.5f32.to_bits().to_le_bytes());
    let sockets = 40 + 7 * 16 + 3 * 8 + 6 + 14 * 3 * 6;
    let fire = sockets + 6 * 12;
    for (k, v) in [1.0f32, -2.0, 3.0].into_iter().enumerate() {
        data[fire + 4 * k..fire + 4 * k + 4].copy_from_slice(&v.to_bits().to_le_bytes());
    }
    let asset = Asset::parse(leak(data)).unwrap();
    assert_eq!(asset.clip_range(ActorClip::Idle), (0, 2));
    assert_eq!(asset.clip_range(ActorClip::Fire), (6, 2));
    assert_eq!(asset.clip_range(ActorClip::Death), (12, 2));
    assert!(asset.looping(ActorClip::Run));
    assert!(!asset.looping(ActorClip::Fire));
    assert_eq!(f32::from_bits(asset.duration(ActorClip::Death)), 2.5);
    assert_eq!(f32::from_bits(duration(&asset, ActorClip::Walk)), 1.0);
    assert_eq!(attack_origin(&asset).map(f32::from_bits), [1.0, -2.0, 3.0]);
}

#[test]
fn untextured_officer_attacks_from_its_fixed_muzzle() {
    let mut data = Vec::from(*b"OPCH");
    for n in [1u32, 3, 3, 7, 14] {
        data.extend(n.to_le_bytes());
    }
    for clip in 0..7u32 {
        for n in [clip * 2, 2, 1.0f32.to_bits(), u32::from(clip < 3)] {
            data.extend(n.to_le_bytes());
        }
    }
    data.extend([255u8; 12]);
    for i in 0..3u16 {
        data.extend(i.to_le_bytes());
    }
    data.extend([0u8; 14 * 3 * 6]);
    let asset = Asset::parse(leak(data)).unwrap();
    assert!(!asset.textured());
    assert!(asset.texture().is_none());
    assert_eq!(asset.attack_origin().map(f32::from_bits), [3.60, 50.97, -36.52]);
    match PoseCache::new(&asset) {
        PoseCache::Color(pairs) => assert_eq!(pairs.len(), 14 * 3),
        PoseCache::Textured(_) => panic!("untextured asset"),
    }
    assert_eq!(PoseCache::new(&asset).bytes(), 14 * 3 * 24);
}

#[test]
fn swizzled_atlas_places_every_block() {
    let width = 16;
    let source: Vec<u8> = (0..width * 16 * 4).map(|i| (i % 256) as u8).collect();
    let atlas = swizzled_atlas(&source, width);
    assert_eq!(atlas.len(), source.len() / 16);
    for (b, block) in atlas.iter().enumerate() {
        assert_eq!(*block, swizzled_rgba_block(&source, width, b));
    }
    // Block 9 is row 1 of the second tile: texels (4..8, 1).
    assert_eq!(&atlas[9][..], &source[(16 + 4) * 4..(16 + 8) * 4]);
}
