use openstrike::mods::{
    check_config, check_id, get, Ballistic, Catalog, ModPack, PackSource, ProjectileConfig, ShotStyle,
    ViewMotion, MAX_PAYLOAD_BYTES,
};

fn character() -> &'static [u8] {
    let mut data = Vec::from(*b"OPCH");
    for n in [1u32, 3, 3, 7, 14] {
        data.extend(n.to_le_bytes());
    }
    for clip in 0..7u32 {
        for n in [clip * 2, 2, 1.0f32.to_bits(), u32::from(clip < 3)] {
            data.extend(n.to_le_bytes());
        }
    }
    data.extend([255u8; 12]);
    for i in 0..3u16 {
        data.extend(i.to_le_bytes());
    }
    data.extend([0u8; 14 * 3 * 6]);
    Box::leak(data.into_boxed_slice())
}

/// The Pikachu pack's ball: speed 520, gravity 600, lift 140, radius 3,
/// lifetime 2.5 s.
fn ball() -> ProjectileConfig {
    ProjectileConfig {
        speed: 520f32.to_bits(),
        gravity: 600f32.to_bits(),
        lift: 140f32.to_bits(),
        radius: 3f32.to_bits(),
        lifetime: 2.5f32.to_bits(),
    }
}

fn thrown() -> Option<Ballistic> {
    Some(Ballistic { config: ball(), mesh: mesh() })
}

fn mesh() -> &'static [u8] {
    let mut bytes = vec![0u8; 24 + 3 * 16];
    bytes[..4].copy_from_slice(b"OPVM");
    bytes[4..8].copy_from_slice(&1u32.to_le_bytes());
    bytes[8..12].copy_from_slice(&3u32.to_le_bytes());
    for at in [39, 55, 71] {
        bytes[at] = 255;
    }
    Box::leak(bytes.into_boxed_slice())
}

#[test]
fn packs_expose_their_validated_resources() {
    let classic =
        ModPack::new("classic", character(), None, ShotStyle::Flame, ViewMotion::Rifle, None).unwrap();
    assert_eq!(classic.id, "classic");
    assert_eq!(classic.character().vertex_count(), 3);
    assert!(classic.viewmodel().is_none());
    assert!(classic.projectile_mesh().is_none());
    let thrown = ModPack::new(
        "throw",
        character(),
        Some(mesh()),
        ShotStyle::Orb,
        ViewMotion::Throw,
        thrown(),
    )
    .unwrap();
    assert_eq!(thrown.viewmodel().unwrap().len(), 3);
    assert_eq!(thrown.projectile_mesh().unwrap().len(), 3);
    assert_eq!(thrown.motion, ViewMotion::Throw);
    assert_eq!(thrown.projectile, Some(ball()));
    assert_eq!(classic.projectile, None);
    let packs = [classic, thrown];
    assert_eq!(get(&packs, 1).unwrap().id, "throw");
    assert!(get(&packs, 2).is_none());
}

#[test]
fn invalid_packs_are_rejected() {
    assert_eq!(
        ModPack::new("orb", character(), None, ShotStyle::Orb, ViewMotion::Throw, None).err(),
        Some("orb effects require ballistic delivery and vice versa")
    );
    assert_eq!(
        ModPack::new("beam", character(), None, ShotStyle::Beam, ViewMotion::Staff, thrown())
            .err(),
        Some("orb effects require ballistic delivery and vice versa")
    );
    assert_eq!(
        ModPack::new("bad", b"OPCH", None, ShotStyle::Flame, ViewMotion::Rifle, None).err(),
        Some("truncated header")
    );
    assert_eq!(
        ModPack::new("bad", character(), Some(b"OPVM"), ShotStyle::Flame, ViewMotion::Rifle, None)
            .err(),
        Some("invalid viewmodel header")
    );
    let bad_ball = ProjectileConfig { radius: 9f32.to_bits(), ..ball() };
    assert_eq!(
        ModPack::new(
            "orb",
            b"OPCH",
            None,
            ShotStyle::Orb,
            ViewMotion::Throw,
            Some(Ballistic { config: bad_ball, mesh: b"OPVM" })
        )
        .err(),
        Some("invalid radius")
    );
    assert_eq!(ShotStyle::default(), ShotStyle::Flame);
    assert_eq!(ViewMotion::default(), ViewMotion::Rifle);
}

#[test]
fn presentation_uses_the_viewmodel_muzzle_or_the_rifle() {
    let classic =
        ModPack::new("classic", character(), None, ShotStyle::Beam, ViewMotion::Staff, None).unwrap();
    let p = classic.presentation();
    assert_eq!(p.muzzle.map(f32::from_bits), [0.0, 0.6, -31.0]);
    assert_eq!((p.shot, p.motion), (ShotStyle::Beam, ViewMotion::Staff));
    let staff = ModPack::new("staff", character(), Some(mesh()), ShotStyle::Flame, ViewMotion::Rifle, None)
        .unwrap();
    assert_eq!(staff.presentation().muzzle, [0, 0, 0]);
}

/// A valid untextured character of `vertices` vertices and seven clips of
/// `per_clip` frames each.
fn large_character(vertices: u32, per_clip: u32) -> &'static [u8] {
    let frames = 7 * per_clip;
    let mut data = Vec::from(*b"OPCH");
    for n in [1u32, vertices, 3, 7, frames] {
        data.extend(n.to_le_bytes());
    }
    for clip in 0..7u32 {
        for n in [clip * per_clip, per_clip, 1.0f32.to_bits(), u32::from(clip < 3)] {
            data.extend(n.to_le_bytes());
        }
    }
    data.extend(vec![255u8; 4 * vertices as usize]);
    for i in 0..3u16 {
        data.extend(i.to_le_bytes());
    }
    data.extend(vec![0u8; (frames * vertices * 6) as usize]);
    Box::leak(data.into_boxed_slice())
}

fn source(id: &'static str, character: &'static [u8]) -> PackSource {
    PackSource {
        id,
        character,
        viewmodel: None,
        effects: ShotStyle::Flame,
        motion: ViewMotion::Rifle,
        projectile: None,
    }
}

#[test]
fn pack_ids_are_short_lowercase_names() {
    assert_eq!(check_id("classic"), Ok(()));
    assert_eq!(check_id("frieren-2"), Ok(()));
    assert_eq!(check_id(&"a".repeat(32)), Ok(()));
    assert_eq!(check_id(""), Err("invalid id"));
    assert_eq!(check_id(&"a".repeat(33)), Err("invalid id"));
    assert_eq!(check_id("a\tb"), Err("invalid id"));
    assert_eq!(check_id("a\u{85}b"), Err("invalid id"));
    assert_eq!(check_id("Classic"), Err("invalid mod id"));
    assert_eq!(check_id("a_b"), Err("invalid mod id"));
    assert_eq!(check_id("caf\u{e9}"), Err("invalid mod id"));
    assert_eq!(
        ModPack::new("Local", character(), None, ShotStyle::Flame, ViewMotion::Rifle, None).err(),
        Some("invalid mod id")
    );
    assert_eq!(
        ModPack::new("", b"OPCH", None, ShotStyle::Flame, ViewMotion::Rifle, None).err(),
        Some("invalid id")
    );
}

#[test]
fn catalogue_rejects_duplicates_and_more_than_eight_packs() {
    let ids = ["a", "b", "c", "d", "e", "f", "g", "h"];
    let seven: Vec<PackSource> = ids[..7].iter().map(|id| source(id, character())).collect();
    let catalog = Catalog::new(source("classic", character()), seven).unwrap();
    assert_eq!(catalog.len(), 8);
    assert_eq!(catalog.get(0).unwrap().id, "classic");
    assert_eq!(catalog.get(7).unwrap().id, "g");
    assert!(catalog.get(8).is_none());
    let eight: Vec<PackSource> = ids.iter().map(|id| source(id, character())).collect();
    assert_eq!(
        Catalog::new(source("classic", character()), eight).err(),
        Some("at most seven additional mod packs")
    );
    let twice = vec![source("a", character()), source("classic", character())];
    assert_eq!(Catalog::new(source("classic", character()), twice).err(), Some("duplicate mod id"));
    let alone = Catalog::new(source("classic", character()), Vec::new()).unwrap();
    assert_eq!(alone.len(), 1);
}

#[test]
fn catalogue_checks_each_pack_id_before_its_resources() {
    let broken = vec![source("classic", b"OPCH")];
    assert_eq!(Catalog::new(source("classic", character()), broken).err(), Some("duplicate mod id"));
    let bad_id = vec![source("Bad", b"OPCH")];
    assert_eq!(Catalog::new(source("classic", character()), bad_id).err(), Some("invalid mod id"));
    let bad_asset = vec![source("a", b"OPCH"), source("a", character())];
    assert_eq!(Catalog::new(source("classic", character()), bad_asset).err(), Some("truncated header"));
    assert_eq!(
        Catalog::new(source("classic", b"OPCH"), Vec::new()).err(),
        Some("truncated header")
    );
}

#[test]
fn catalogue_keeps_baked_resources_within_eight_mib() {
    let big = large_character(1000, 26);
    assert_eq!(big.len(), 24 + 7 * 16 + 4000 + 6 + 182 * 1000 * 6);
    let ids = ["a", "b", "c", "d", "e", "f", "g"];
    let six: Vec<PackSource> = ids[..6].iter().map(|id| source(id, big)).collect();
    assert!(7 * big.len() <= MAX_PAYLOAD_BYTES);
    assert!(Catalog::new(source("classic", big), six).is_ok());
    let seven: Vec<PackSource> = ids.iter().map(|id| source(id, big)).collect();
    assert!(8 * big.len() > MAX_PAYLOAD_BYTES);
    assert_eq!(
        Catalog::new(source("classic", big), seven).err(),
        Some("mod bundle exceeds 8 MiB baked resource budget")
    );
}

#[test]
fn menu_opens_on_the_named_pack_or_the_first_added_one() {
    let one = Catalog::new(source("classic", character()), Vec::new()).unwrap();
    assert_eq!(one.initial(None), Some(0));
    let three = Catalog::new(
        source("classic", character()),
        vec![source("frieren", character()), source("pikachu", character())],
    )
    .unwrap();
    assert_eq!(three.initial(None), Some(1));
    assert_eq!(three.initial(Some("")), Some(1));
    assert_eq!(three.initial(Some("pikachu")), Some(2));
    assert_eq!(three.initial(Some("classic")), Some(0));
    assert_eq!(three.initial(Some("missing")), None);
}

#[test]
fn ballistic_settings_stay_within_their_ranges() {
    assert_eq!(check_config(ball()), Ok(()));
    let at = |f: fn(&mut ProjectileConfig)| {
        let mut c = ball();
        f(&mut c);
        check_config(c)
    };
    assert_eq!(at(|c| c.speed = 100f32.to_bits()), Ok(()));
    assert_eq!(at(|c| c.speed = 2000f32.to_bits()), Ok(()));
    assert_eq!(at(|c| c.speed = 99.9f32.to_bits()), Err("invalid speed"));
    assert_eq!(at(|c| c.speed = f32::NAN.to_bits()), Err("invalid speed"));
    assert_eq!(at(|c| c.gravity = 0f32.to_bits()), Ok(()));
    assert_eq!(at(|c| c.gravity = (-0f32).to_bits()), Ok(()));
    assert_eq!(at(|c| c.gravity = (-1f32).to_bits()), Err("invalid gravity"));
    assert_eq!(at(|c| c.lift = 300.5f32.to_bits()), Err("invalid lift"));
    assert_eq!(at(|c| c.radius = 0.4f32.to_bits()), Err("invalid radius"));
    assert_eq!(at(|c| c.lifetime = 0.1f32.to_bits()), Ok(()));
    assert_eq!(at(|c| c.lifetime = f32::INFINITY.to_bits()), Err("invalid lifetime"));
    assert_eq!(at(|c| {
        c.speed = 0;
        c.lifetime = 0;
    }), Err("invalid speed"));
}
