//! The firearm catalogue: display names, asset stems, purchase prices and
//! the stable buy-menu IDs shared by the native hosts and the guest, plus the
//! simulation's deterministic random sequence.
use vstd::prelude::*;

verus! {

#[derive(Clone, Copy, Debug, PartialEq, Eq, Structural)]
pub enum WeaponKind {
    // Legacy presets retained for mod and API compatibility.
    Pistol,
    Smg,
    Rifle,
    P228,
    Glock18,
    Scout,
    Xm1014,
    Mac10,
    Aug,
    Elite,
    FiveSeven,
    Ump45,
    Sg550,
    Galil,
    Famas,
    Usp,
    Awp,
    Mp5Navy,
    M249,
    M3,
    M4A1,
    Tmp,
    G3Sg1,
    Deagle,
    Sg552,
    Ak47,
    P90,
}

/// The name the HUD shows.
pub open spec fn weapon_name(kind: WeaponKind) -> &'static str {
    match kind {
        WeaponKind::Pistol => "PISTOL",
        WeaponKind::Smg => "SMG",
        WeaponKind::Rifle => "RIFLE",
        WeaponKind::P228 => "P228",
        WeaponKind::Glock18 => "GLOCK 18",
        WeaponKind::Scout => "SCOUT",
        WeaponKind::Xm1014 => "XM1014",
        WeaponKind::Mac10 => "MAC-10",
        WeaponKind::Aug => "AUG",
        WeaponKind::Elite => "DUAL ELITES",
        WeaponKind::FiveSeven => "FIVE-SEVEN",
        WeaponKind::Ump45 => "UMP45",
        WeaponKind::Sg550 => "SG-550",
        WeaponKind::Galil => "GALIL",
        WeaponKind::Famas => "FAMAS",
        WeaponKind::Usp => "USP",
        WeaponKind::Awp => "AWP",
        WeaponKind::Mp5Navy => "MP5 NAVY",
        WeaponKind::M249 => "M249",
        WeaponKind::M3 => "M3",
        WeaponKind::M4A1 => "M4A1",
        WeaponKind::Tmp => "TMP",
        WeaponKind::G3Sg1 => "G3SG1",
        WeaponKind::Deagle => "DESERT EAGLE",
        WeaponKind::Sg552 => "SG-552",
        WeaponKind::Ak47 => "AK-47",
        WeaponKind::P90 => "P90",
    }
}

/// File stem of the first-person model; legacy presets share the model of
/// the firearm they stand for.
pub open spec fn weapon_stem(kind: WeaponKind) -> &'static str {
    match kind {
        WeaponKind::Pistol => "glock18",
        WeaponKind::Smg => "mp5",
        WeaponKind::Rifle => "ak47",
        WeaponKind::P228 => "p228",
        WeaponKind::Glock18 => "glock18",
        WeaponKind::Scout => "scout",
        WeaponKind::Xm1014 => "xm1014",
        WeaponKind::Mac10 => "mac10",
        WeaponKind::Aug => "aug",
        WeaponKind::Elite => "elite",
        WeaponKind::FiveSeven => "fiveseven",
        WeaponKind::Ump45 => "ump45",
        WeaponKind::Sg550 => "sg550",
        WeaponKind::Galil => "galil",
        WeaponKind::Famas => "famas",
        WeaponKind::Usp => "usp",
        WeaponKind::Awp => "awp",
        WeaponKind::Mp5Navy => "mp5",
        WeaponKind::M249 => "m249",
        WeaponKind::M3 => "m3",
        WeaponKind::M4A1 => "m4a1",
        WeaponKind::Tmp => "tmp",
        WeaponKind::G3Sg1 => "g3sg1",
        WeaponKind::Deagle => "deagle",
        WeaponKind::Sg552 => "sg552",
        WeaponKind::Ak47 => "ak47",
        WeaponKind::P90 => "p90",
    }
}

/// Counter-Strike 1.6 purchase price; legacy presets keep the OpenStrike
/// prices that existing mods were written against.
pub open spec fn weapon_price(kind: WeaponKind) -> i32 {
    match kind {
        WeaponKind::Pistol => 400,
        WeaponKind::Smg => 1250,
        WeaponKind::Rifle => 2700,
        WeaponKind::P228 => 600,
        WeaponKind::Glock18 => 400,
        WeaponKind::Scout => 2750,
        WeaponKind::Xm1014 => 3000,
        WeaponKind::Mac10 => 1400,
        WeaponKind::Aug => 3500,
        WeaponKind::Elite => 800,
        WeaponKind::FiveSeven => 750,
        WeaponKind::Ump45 => 1700,
        WeaponKind::Sg550 => 4200,
        WeaponKind::Galil => 2000,
        WeaponKind::Famas => 2250,
        WeaponKind::Usp => 500,
        WeaponKind::Awp => 4750,
        WeaponKind::Mp5Navy => 1500,
        WeaponKind::M249 => 5750,
        WeaponKind::M3 => 1700,
        WeaponKind::M4A1 => 3100,
        WeaponKind::Tmp => 1250,
        WeaponKind::G3Sg1 => 5000,
        WeaponKind::Deagle => 650,
        WeaponKind::Sg552 => 3500,
        WeaponKind::Ak47 => 2500,
        WeaponKind::P90 => 2350,
    }
}

/// A character a HUD label may hold: a capital letter, a digit, a space or
/// a hyphen.
pub open spec fn label_char(c: char) -> bool {
    ('A' <= c && c <= 'Z') || ('0' <= c && c <= '9') || c == ' ' || c == '-'
}

/// Length, first and last character of a label; they tell the labels apart.
spec fn label_key(s: Seq<char>) -> (nat, char, char) {
    (s.len(), s[0], s[s.len() - 1])
}

/// The firearm whose label has `key`.
spec fn kind_with_key(key: (nat, char, char)) -> WeaponKind {
    if key == (6nat, 'P', 'L') {
        WeaponKind::Pistol
    } else if key == (3nat, 'S', 'G') {
        WeaponKind::Smg
    } else if key == (5nat, 'R', 'E') {
        WeaponKind::Rifle
    } else if key == (4nat, 'P', '8') {
        WeaponKind::P228
    } else if key == (8nat, 'G', '8') {
        WeaponKind::Glock18
    } else if key == (5nat, 'S', 'T') {
        WeaponKind::Scout
    } else if key == (6nat, 'X', '4') {
        WeaponKind::Xm1014
    } else if key == (6nat, 'M', '0') {
        WeaponKind::Mac10
    } else if key == (3nat, 'A', 'G') {
        WeaponKind::Aug
    } else if key == (11nat, 'D', 'S') {
        WeaponKind::Elite
    } else if key == (10nat, 'F', 'N') {
        WeaponKind::FiveSeven
    } else if key == (5nat, 'U', '5') {
        WeaponKind::Ump45
    } else if key == (6nat, 'S', '0') {
        WeaponKind::Sg550
    } else if key == (5nat, 'G', 'L') {
        WeaponKind::Galil
    } else if key == (5nat, 'F', 'S') {
        WeaponKind::Famas
    } else if key == (3nat, 'U', 'P') {
        WeaponKind::Usp
    } else if key == (3nat, 'A', 'P') {
        WeaponKind::Awp
    } else if key == (8nat, 'M', 'Y') {
        WeaponKind::Mp5Navy
    } else if key == (4nat, 'M', '9') {
        WeaponKind::M249
    } else if key == (2nat, 'M', '3') {
        WeaponKind::M3
    } else if key == (4nat, 'M', '1') {
        WeaponKind::M4A1
    } else if key == (3nat, 'T', 'P') {
        WeaponKind::Tmp
    } else if key == (5nat, 'G', '1') {
        WeaponKind::G3Sg1
    } else if key == (12nat, 'D', 'E') {
        WeaponKind::Deagle
    } else if key == (6nat, 'S', '2') {
        WeaponKind::Sg552
    } else if key == (5nat, 'A', '7') {
        WeaponKind::Ak47
    } else if key == (3nat, 'P', '0') {
        WeaponKind::P90
    } else {
        WeaponKind::Rifle
    }
}

proof fn lemma_label_of(kind: WeaponKind)
    ensures
        weapon_name(kind)@.len() > 0,
        forall|i: int| 0 <= i < weapon_name(kind)@.len() ==> label_char(#[trigger] weapon_name(kind)@[i]),
        kind_with_key(label_key(weapon_name(kind)@)) == kind,
{
    match kind {
        WeaponKind::Pistol => {
            reveal_strlit("PISTOL");
        },
        WeaponKind::Smg => {
            reveal_strlit("SMG");
        },
        WeaponKind::Rifle => {
            reveal_strlit("RIFLE");
        },
        WeaponKind::P228 => {
            reveal_strlit("P228");
        },
        WeaponKind::Glock18 => {
            reveal_strlit("GLOCK 18");
        },
        WeaponKind::Scout => {
            reveal_strlit("SCOUT");
        },
        WeaponKind::Xm1014 => {
            reveal_strlit("XM1014");
        },
        WeaponKind::Mac10 => {
            reveal_strlit("MAC-10");
        },
        WeaponKind::Aug => {
            reveal_strlit("AUG");
        },
        WeaponKind::Elite => {
            reveal_strlit("DUAL ELITES");
        },
        WeaponKind::FiveSeven => {
            reveal_strlit("FIVE-SEVEN");
        },
        WeaponKind::Ump45 => {
            reveal_strlit("UMP45");
        },
        WeaponKind::Sg550 => {
            reveal_strlit("SG-550");
        },
        WeaponKind::Galil => {
            reveal_strlit("GALIL");
        },
        WeaponKind::Famas => {
            reveal_strlit("FAMAS");
        },
        WeaponKind::Usp => {
            reveal_strlit("USP");
        },
        WeaponKind::Awp => {
            reveal_strlit("AWP");
        },
        WeaponKind::Mp5Navy => {
            reveal_strlit("MP5 NAVY");
        },
        WeaponKind::M249 => {
            reveal_strlit("M249");
        },
        WeaponKind::M3 => {
            reveal_strlit("M3");
        },
        WeaponKind::M4A1 => {
            reveal_strlit("M4A1");
        },
        WeaponKind::Tmp => {
            reveal_strlit("TMP");
        },
        WeaponKind::G3Sg1 => {
            reveal_strlit("G3SG1");
        },
        WeaponKind::Deagle => {
            reveal_strlit("DESERT EAGLE");
        },
        WeaponKind::Sg552 => {
            reveal_strlit("SG-552");
        },
        WeaponKind::Ak47 => {
            reveal_strlit("AK-47");
        },
        WeaponKind::P90 => {
            reveal_strlit("P90");
        },
    }
}

/// Every HUD label is non-empty and made of capitals, digits, spaces and
/// hyphens, and no two firearms share one.
pub proof fn lemma_weapon_names_are_distinct_labels(a: WeaponKind, b: WeaponKind)
    ensures
        weapon_name(a)@.len() > 0,
        forall|i: int| 0 <= i < weapon_name(a)@.len() ==> label_char(#[trigger] weapon_name(a)@[i]),
        a != b ==> weapon_name(a)@ != weapon_name(b)@,
{
    lemma_label_of(a);
    lemma_label_of(b);
}

impl WeaponKind {
    pub fn name(self) -> (r: &'static str)
        ensures
            r == weapon_name(self),
    {
        match self {
            WeaponKind::Pistol => "PISTOL",
            WeaponKind::Smg => "SMG",
            WeaponKind::Rifle => "RIFLE",
            WeaponKind::P228 => "P228",
            WeaponKind::Glock18 => "GLOCK 18",
            WeaponKind::Scout => "SCOUT",
            WeaponKind::Xm1014 => "XM1014",
            WeaponKind::Mac10 => "MAC-10",
            WeaponKind::Aug => "AUG",
            WeaponKind::Elite => "DUAL ELITES",
            WeaponKind::FiveSeven => "FIVE-SEVEN",
            WeaponKind::Ump45 => "UMP45",
            WeaponKind::Sg550 => "SG-550",
            WeaponKind::Galil => "GALIL",
            WeaponKind::Famas => "FAMAS",
            WeaponKind::Usp => "USP",
            WeaponKind::Awp => "AWP",
            WeaponKind::Mp5Navy => "MP5 NAVY",
            WeaponKind::M249 => "M249",
            WeaponKind::M3 => "M3",
            WeaponKind::M4A1 => "M4A1",
            WeaponKind::Tmp => "TMP",
            WeaponKind::G3Sg1 => "G3SG1",
            WeaponKind::Deagle => "DESERT EAGLE",
            WeaponKind::Sg552 => "SG-552",
            WeaponKind::Ak47 => "AK-47",
            WeaponKind::P90 => "P90",
        }
    }

    pub fn asset_stem(self) -> (r: &'static str)
        ensures
            r == weapon_stem(self),
    {
        match self {
            WeaponKind::Pistol => "glock18",
            WeaponKind::Smg => "mp5",
            WeaponKind::Rifle => "ak47",
            WeaponKind::P228 => "p228",
            WeaponKind::Glock18 => "glock18",
            WeaponKind::Scout => "scout",
            WeaponKind::Xm1014 => "xm1014",
            WeaponKind::Mac10 => "mac10",
            WeaponKind::Aug => "aug",
            WeaponKind::Elite => "elite",
            WeaponKind::FiveSeven => "fiveseven",
            WeaponKind::Ump45 => "ump45",
            WeaponKind::Sg550 => "sg550",
            WeaponKind::Galil => "galil",
            WeaponKind::Famas => "famas",
            WeaponKind::Usp => "usp",
            WeaponKind::Awp => "awp",
            WeaponKind::Mp5Navy => "mp5",
            WeaponKind::M249 => "m249",
            WeaponKind::M3 => "m3",
            WeaponKind::M4A1 => "m4a1",
            WeaponKind::Tmp => "tmp",
            WeaponKind::G3Sg1 => "g3sg1",
            WeaponKind::Deagle => "deagle",
            WeaponKind::Sg552 => "sg552",
            WeaponKind::Ak47 => "ak47",
            WeaponKind::P90 => "p90",
        }
    }

    pub fn price(self) -> (r: i32)
        ensures
            r == weapon_price(self),
            0 < r <= 5750,
    {
        match self {
            WeaponKind::Pistol => 400,
            WeaponKind::Smg => 1250,
            WeaponKind::Rifle => 2700,
            WeaponKind::P228 => 600,
            WeaponKind::Glock18 => 400,
            WeaponKind::Scout => 2750,
            WeaponKind::Xm1014 => 3000,
            WeaponKind::Mac10 => 1400,
            WeaponKind::Aug => 3500,
            WeaponKind::Elite => 800,
            WeaponKind::FiveSeven => 750,
            WeaponKind::Ump45 => 1700,
            WeaponKind::Sg550 => 4200,
            WeaponKind::Galil => 2000,
            WeaponKind::Famas => 2250,
            WeaponKind::Usp => 500,
            WeaponKind::Awp => 4750,
            WeaponKind::Mp5Navy => 1500,
            WeaponKind::M249 => 5750,
            WeaponKind::M3 => 1700,
            WeaponKind::M4A1 => 3100,
            WeaponKind::Tmp => 1250,
            WeaponKind::G3Sg1 => 5000,
            WeaponKind::Deagle => 650,
            WeaponKind::Sg552 => 3500,
            WeaponKind::Ak47 => 2500,
            WeaponKind::P90 => 2350,
        }
    }
}

/// Stable buy IDs. The first three keep the menu layout that mods already
/// use; the other firearms use IDs 5 to 25.
pub open spec fn buy_catalog() -> Seq<(u8, WeaponKind)> {
    seq![
        (0u8, WeaponKind::Glock18),
        (1u8, WeaponKind::Mp5Navy),
        (2u8, WeaponKind::Ak47),
        (5u8, WeaponKind::P228),
        (6u8, WeaponKind::Scout),
        (7u8, WeaponKind::Xm1014),
        (8u8, WeaponKind::Mac10),
        (9u8, WeaponKind::Aug),
        (10u8, WeaponKind::Elite),
        (11u8, WeaponKind::FiveSeven),
        (12u8, WeaponKind::Ump45),
        (13u8, WeaponKind::Sg550),
        (14u8, WeaponKind::Galil),
        (15u8, WeaponKind::Famas),
        (16u8, WeaponKind::Usp),
        (17u8, WeaponKind::Awp),
        (18u8, WeaponKind::M249),
        (19u8, WeaponKind::M3),
        (20u8, WeaponKind::M4A1),
        (21u8, WeaponKind::Tmp),
        (22u8, WeaponKind::G3Sg1),
        (23u8, WeaponKind::Deagle),
        (24u8, WeaponKind::Sg552),
        (25u8, WeaponKind::P90),
    ]
}

/// The firearm the buy menu sells under each stable ID: Glock 18, MP5 and
/// AK-47 under 0 to 2, then P228, Scout, XM1014, MAC-10, AUG, Dual Elites,
/// Five-SeveN, UMP45, SG-550, Galil, FAMAS, USP, AWP, M249, M3, M4A1, TMP,
/// G3SG1, Desert Eagle, SG-552 and P90 under 5 to 25; nothing under 3, 4 or
/// above 25.
pub open spec fn sold_under(id: u8) -> Option<WeaponKind> {
    match id {
        0 => Some(WeaponKind::Glock18),
        1 => Some(WeaponKind::Mp5Navy),
        2 => Some(WeaponKind::Ak47),
        5 => Some(WeaponKind::P228),
        6 => Some(WeaponKind::Scout),
        7 => Some(WeaponKind::Xm1014),
        8 => Some(WeaponKind::Mac10),
        9 => Some(WeaponKind::Aug),
        10 => Some(WeaponKind::Elite),
        11 => Some(WeaponKind::FiveSeven),
        12 => Some(WeaponKind::Ump45),
        13 => Some(WeaponKind::Sg550),
        14 => Some(WeaponKind::Galil),
        15 => Some(WeaponKind::Famas),
        16 => Some(WeaponKind::Usp),
        17 => Some(WeaponKind::Awp),
        18 => Some(WeaponKind::M249),
        19 => Some(WeaponKind::M3),
        20 => Some(WeaponKind::M4A1),
        21 => Some(WeaponKind::Tmp),
        22 => Some(WeaponKind::G3Sg1),
        23 => Some(WeaponKind::Deagle),
        24 => Some(WeaponKind::Sg552),
        25 => Some(WeaponKind::P90),
        _ => None,
    }
}

/// The menu sells exactly the firearms of `sold_under`, each under its own
/// ID.
pub proof fn lemma_buy_menu_sells_fixed_firearms()
    ensures
        forall|i: int|
            0 <= i < buy_catalog().len() ==> sold_under((#[trigger] buy_catalog()[i]).0) == Some(
                buy_catalog()[i].1,
            ),
        forall|id: u8|
            #![trigger sold_under(id)]
            sold_under(id) is Some ==> exists|i: int|
                0 <= i < buy_catalog().len() && #[trigger] buy_catalog()[i].0 == id,
{
    assert(buy_catalog().len() == 24);
    assert forall|i: int| 0 <= i < buy_catalog().len() implies sold_under(
        (#[trigger] buy_catalog()[i]).0,
    ) == Some(buy_catalog()[i].1) by {
        if i == 0 {
        } else if i == 1 {
        } else if i == 2 {
        } else if i == 3 {
        } else if i == 4 {
        } else if i == 5 {
        } else if i == 6 {
        } else if i == 7 {
        } else if i == 8 {
        } else if i == 9 {
        } else if i == 10 {
        } else if i == 11 {
        } else if i == 12 {
        } else if i == 13 {
        } else if i == 14 {
        } else if i == 15 {
        } else if i == 16 {
        } else if i == 17 {
        } else if i == 18 {
        } else if i == 19 {
        } else if i == 20 {
        } else if i == 21 {
        } else if i == 22 {
        } else if i == 23 {
        }
    }
    assert forall|id: u8| #![trigger sold_under(id)] sold_under(id) is Some implies exists|i: int|
        0 <= i < buy_catalog().len() && #[trigger] buy_catalog()[i].0 == id by {
        let i: int = if id < 3 {
            id as int
        } else {
            id - 2
        };
        assert(buy_catalog()[i].0 == id);
    }
}

/// The whole-number part of a firearm's tuning: magazine and reserve sizes
/// and the damage of a body and a head hit.
#[derive(Clone, Copy, Debug, PartialEq, Eq, Structural)]
pub struct Tuning {
    pub mag_size: u32,
    pub reserve: u32,
    pub damage_body: i32,
    pub damage_head: i32,
}

/// Counter-Strike 1.6 magazine, reserve and damage; a head hit does four
/// times the body damage, except on the legacy presets, which keep their own.
pub open spec fn weapon_tuning(kind: WeaponKind) -> Tuning {
    match kind {
        WeaponKind::Pistol => Tuning { mag_size: 12, reserve: 36, damage_body: 24, damage_head: 72 },
        WeaponKind::Smg => Tuning { mag_size: 30, reserve: 90, damage_body: 22, damage_head: 66 },
        WeaponKind::Rifle => Tuning { mag_size: 30, reserve: 90, damage_body: 34, damage_head: 100 },
        WeaponKind::P228 => Tuning { mag_size: 13, reserve: 52, damage_body: 32, damage_head: 128 },
        WeaponKind::Glock18 => Tuning { mag_size: 20, reserve: 120, damage_body: 25, damage_head: 100 },
        WeaponKind::Scout => Tuning { mag_size: 10, reserve: 90, damage_body: 75, damage_head: 300 },
        WeaponKind::Xm1014 => Tuning { mag_size: 7, reserve: 32, damage_body: 20, damage_head: 80 },
        WeaponKind::Mac10 => Tuning { mag_size: 30, reserve: 100, damage_body: 29, damage_head: 116 },
        WeaponKind::Aug => Tuning { mag_size: 30, reserve: 90, damage_body: 32, damage_head: 128 },
        WeaponKind::Elite => Tuning { mag_size: 30, reserve: 120, damage_body: 36, damage_head: 144 },
        WeaponKind::FiveSeven => Tuning { mag_size: 20, reserve: 100, damage_body: 20, damage_head: 80 },
        WeaponKind::Ump45 => Tuning { mag_size: 25, reserve: 100, damage_body: 30, damage_head: 120 },
        WeaponKind::Sg550 => Tuning { mag_size: 30, reserve: 90, damage_body: 40, damage_head: 160 },
        WeaponKind::Galil => Tuning { mag_size: 35, reserve: 90, damage_body: 30, damage_head: 120 },
        WeaponKind::Famas => Tuning { mag_size: 25, reserve: 90, damage_body: 30, damage_head: 120 },
        WeaponKind::Usp => Tuning { mag_size: 12, reserve: 100, damage_body: 34, damage_head: 136 },
        WeaponKind::Awp => Tuning { mag_size: 10, reserve: 30, damage_body: 115, damage_head: 460 },
        WeaponKind::Mp5Navy => Tuning { mag_size: 30, reserve: 120, damage_body: 26, damage_head: 104 },
        WeaponKind::M249 => Tuning { mag_size: 100, reserve: 200, damage_body: 32, damage_head: 128 },
        WeaponKind::M3 => Tuning { mag_size: 8, reserve: 32, damage_body: 20, damage_head: 80 },
        WeaponKind::M4A1 => Tuning { mag_size: 30, reserve: 90, damage_body: 33, damage_head: 132 },
        WeaponKind::Tmp => Tuning { mag_size: 30, reserve: 120, damage_body: 20, damage_head: 80 },
        WeaponKind::G3Sg1 => Tuning { mag_size: 20, reserve: 90, damage_body: 80, damage_head: 320 },
        WeaponKind::Deagle => Tuning { mag_size: 7, reserve: 35, damage_body: 54, damage_head: 216 },
        WeaponKind::Sg552 => Tuning { mag_size: 30, reserve: 90, damage_body: 33, damage_head: 132 },
        WeaponKind::Ak47 => Tuning { mag_size: 30, reserve: 90, damage_body: 36, damage_head: 144 },
        WeaponKind::P90 => Tuning { mag_size: 50, reserve: 100, damage_body: 21, damage_head: 84 },
    }
}

impl WeaponKind {
    /// Magazine, reserve and damage of this firearm.
    pub fn tuning(self) -> (r: Tuning)
        ensures
            r == weapon_tuning(self),
    {
        match self {
            WeaponKind::Pistol => Tuning { mag_size: 12, reserve: 36, damage_body: 24, damage_head: 72 },
            WeaponKind::Smg => Tuning { mag_size: 30, reserve: 90, damage_body: 22, damage_head: 66 },
            WeaponKind::Rifle => Tuning { mag_size: 30, reserve: 90, damage_body: 34, damage_head: 100 },
            WeaponKind::P228 => Tuning { mag_size: 13, reserve: 52, damage_body: 32, damage_head: 128 },
            WeaponKind::Glock18 => Tuning { mag_size: 20, reserve: 120, damage_body: 25, damage_head: 100 },
            WeaponKind::Scout => Tuning { mag_size: 10, reserve: 90, damage_body: 75, damage_head: 300 },
            WeaponKind::Xm1014 => Tuning { mag_size: 7, reserve: 32, damage_body: 20, damage_head: 80 },
            WeaponKind::Mac10 => Tuning { mag_size: 30, reserve: 100, damage_body: 29, damage_head: 116 },
            WeaponKind::Aug => Tuning { mag_size: 30, reserve: 90, damage_body: 32, damage_head: 128 },
            WeaponKind::Elite => Tuning { mag_size: 30, reserve: 120, damage_body: 36, damage_head: 144 },
            WeaponKind::FiveSeven => Tuning { mag_size: 20, reserve: 100, damage_body: 20, damage_head: 80 },
            WeaponKind::Ump45 => Tuning { mag_size: 25, reserve: 100, damage_body: 30, damage_head: 120 },
            WeaponKind::Sg550 => Tuning { mag_size: 30, reserve: 90, damage_body: 40, damage_head: 160 },
            WeaponKind::Galil => Tuning { mag_size: 35, reserve: 90, damage_body: 30, damage_head: 120 },
            WeaponKind::Famas => Tuning { mag_size: 25, reserve: 90, damage_body: 30, damage_head: 120 },
            WeaponKind::Usp => Tuning { mag_size: 12, reserve: 100, damage_body: 34, damage_head: 136 },
            WeaponKind::Awp => Tuning { mag_size: 10, reserve: 30, damage_body: 115, damage_head: 460 },
            WeaponKind::Mp5Navy => Tuning { mag_size: 30, reserve: 120, damage_body: 26, damage_head: 104 },
            WeaponKind::M249 => Tuning { mag_size: 100, reserve: 200, damage_body: 32, damage_head: 128 },
            WeaponKind::M3 => Tuning { mag_size: 8, reserve: 32, damage_body: 20, damage_head: 80 },
            WeaponKind::M4A1 => Tuning { mag_size: 30, reserve: 90, damage_body: 33, damage_head: 132 },
            WeaponKind::Tmp => Tuning { mag_size: 30, reserve: 120, damage_body: 20, damage_head: 80 },
            WeaponKind::G3Sg1 => Tuning { mag_size: 20, reserve: 90, damage_body: 80, damage_head: 320 },
            WeaponKind::Deagle => Tuning { mag_size: 7, reserve: 35, damage_body: 54, damage_head: 216 },
            WeaponKind::Sg552 => Tuning { mag_size: 30, reserve: 90, damage_body: 33, damage_head: 132 },
            WeaponKind::Ak47 => Tuning { mag_size: 30, reserve: 90, damage_body: 36, damage_head: 144 },
            WeaponKind::P90 => Tuning { mag_size: 50, reserve: 100, damage_body: 21, damage_head: 84 },
        }
    }
}

/// A head hit does four times the body damage, except on the legacy presets.
pub proof fn lemma_head_hit_is_four_body_hits(kind: WeaponKind)
    requires
        kind != WeaponKind::Pistol,
        kind != WeaponKind::Smg,
        kind != WeaponKind::Rifle,
    ensures
        weapon_tuning(kind).damage_head == 4 * weapon_tuning(kind).damage_body,
{
}

/// The rounds a firearm carries: the loaded magazine and the reserve.
#[derive(Clone, Copy, Debug, PartialEq, Eq, Structural)]
pub struct Rounds {
    pub mag_size: u32,
    pub ammo: u32,
    pub reserve: u32,
}

impl Rounds {
    /// A reload has something to do: the magazine is not full and the
    /// reserve is not empty.
    pub open spec fn reload_wanted(self) -> bool {
        self.ammo < self.mag_size && self.reserve > 0
    }

    /// How many rounds a finished reload moves from the reserve into the
    /// magazine.
    pub open spec fn reload_take(self) -> int {
        let want = self.mag_size - self.ammo;
        if want <= self.reserve {
            want
        } else {
            self.reserve as int
        }
    }

    /// The rounds after a finished reload.
    pub open spec fn refilled(self) -> Rounds {
        Rounds {
            mag_size: self.mag_size,
            ammo: (self.ammo + self.reload_take()) as u32,
            reserve: (self.reserve - self.reload_take()) as u32,
        }
    }

    /// A full magazine and the given reserve.
    pub fn full(mag_size: u32, reserve: u32) -> (r: Rounds)
        ensures
            r == (Rounds { mag_size, ammo: mag_size, reserve }),
    {
        Rounds { mag_size, ammo: mag_size, reserve }
    }

    /// Whether a reload request should start a reload.
    pub fn wants_reload(&self) -> (r: bool)
        ensures
            r == self.reload_wanted(),
    {
        self.ammo < self.mag_size && self.reserve > 0
    }

    /// Finishes a reload: fills the magazine from the reserve as far as the
    /// reserve allows.
    pub fn refill(&mut self)
        requires
            old(self).ammo <= old(self).mag_size,
        ensures
            *final(self) == old(self).refilled(),
    {
        let want = self.mag_size - self.ammo;
        let take = if want <= self.reserve {
            want
        } else {
            self.reserve
        };
        self.ammo = self.ammo + take;
        self.reserve = self.reserve - take;
    }

    /// Spends one round from the magazine; false, and nothing spent, when it
    /// is empty.
    pub fn spend(&mut self) -> (r: bool)
        ensures
            r == (old(self).ammo > 0),
            r ==> *final(self) == (Rounds { ammo: (old(self).ammo - 1) as u32, ..*old(self) }),
            !r ==> *final(self) == *old(self),
    {
        if self.ammo == 0 {
            return false;
        }
        self.ammo = self.ammo - 1;
        true
    }
}

/// A reload neither makes nor loses rounds: what leaves the reserve arrives
/// in the magazine, and the magazine never goes past its size.
pub proof fn lemma_reload_keeps_rounds(rounds: Rounds)
    requires
        rounds.ammo <= rounds.mag_size,
    ensures
        rounds.refilled().ammo + rounds.refilled().reserve == rounds.ammo + rounds.reserve,
        rounds.refilled().ammo <= rounds.mag_size,
        rounds.refilled().ammo == rounds.mag_size || rounds.refilled().reserve == 0,
{
}

/// After one finished reload another request has nothing to do, and a
/// second refill changes nothing: a held reload request refills once.
pub proof fn lemma_reload_settles(rounds: Rounds)
    requires
        rounds.ammo <= rounds.mag_size,
    ensures
        !rounds.refilled().reload_wanted(),
        rounds.refilled().refilled() == rounds.refilled(),
{
}

/// The catalogue, firearm by firearm: HUD label, model stem, price, then
/// magazine, reserve, body and head damage. Counter-Strike 1.6 values; the
/// legacy presets keep the OpenStrike values mods were written against.
pub proof fn lemma_catalogue_values()
    ensures
        weapon_name(WeaponKind::Pistol) == "PISTOL" && weapon_stem(WeaponKind::Pistol) == "glock18"
            && weapon_price(WeaponKind::Pistol) == 400 && weapon_tuning(WeaponKind::Pistol).mag_size == 12
            && weapon_tuning(WeaponKind::Pistol).reserve == 36 && weapon_tuning(WeaponKind::Pistol).damage_body == 24
            && weapon_tuning(WeaponKind::Pistol).damage_head == 72,
        weapon_name(WeaponKind::Smg) == "SMG" && weapon_stem(WeaponKind::Smg) == "mp5"
            && weapon_price(WeaponKind::Smg) == 1250 && weapon_tuning(WeaponKind::Smg).mag_size == 30
            && weapon_tuning(WeaponKind::Smg).reserve == 90 && weapon_tuning(WeaponKind::Smg).damage_body == 22
            && weapon_tuning(WeaponKind::Smg).damage_head == 66,
        weapon_name(WeaponKind::Rifle) == "RIFLE" && weapon_stem(WeaponKind::Rifle) == "ak47"
            && weapon_price(WeaponKind::Rifle) == 2700 && weapon_tuning(WeaponKind::Rifle).mag_size == 30
            && weapon_tuning(WeaponKind::Rifle).reserve == 90 && weapon_tuning(WeaponKind::Rifle).damage_body == 34
            && weapon_tuning(WeaponKind::Rifle).damage_head == 100,
        weapon_name(WeaponKind::P228) == "P228" && weapon_stem(WeaponKind::P228) == "p228"
            && weapon_price(WeaponKind::P228) == 600 && weapon_tuning(WeaponKind::P228).mag_size == 13
            && weapon_tuning(WeaponKind::P228).reserve == 52 && weapon_tuning(WeaponKind::P228).damage_body == 32
            && weapon_tuning(WeaponKind::P228).damage_head == 128,
        weapon_name(WeaponKind::Glock18) == "GLOCK 18" && weapon_stem(WeaponKind::Glock18) == "glock18"
            && weapon_price(WeaponKind::Glock18) == 400 && weapon_tuning(WeaponKind::Glock18).mag_size == 20
            && weapon_tuning(WeaponKind::Glock18).reserve == 120 && weapon_tuning(WeaponKind::Glock18).damage_body == 25
            && weapon_tuning(WeaponKind::Glock18).damage_head == 100,
        weapon_name(WeaponKind::Scout) == "SCOUT" && weapon_stem(WeaponKind::Scout) == "scout"
            && weapon_price(WeaponKind::Scout) == 2750 && weapon_tuning(WeaponKind::Scout).mag_size == 10
            && weapon_tuning(WeaponKind::Scout).reserve == 90 && weapon_tuning(WeaponKind::Scout).damage_body == 75
            && weapon_tuning(WeaponKind::Scout).damage_head == 300,
        weapon_name(WeaponKind::Xm1014) == "XM1014" && weapon_stem(WeaponKind::Xm1014) == "xm1014"
            && weapon_price(WeaponKind::Xm1014) == 3000 && weapon_tuning(WeaponKind::Xm1014).mag_size == 7
            && weapon_tuning(WeaponKind::Xm1014).reserve == 32 && weapon_tuning(WeaponKind::Xm1014).damage_body == 20
            && weapon_tuning(WeaponKind::Xm1014).damage_head == 80,
        weapon_name(WeaponKind::Mac10) == "MAC-10" && weapon_stem(WeaponKind::Mac10) == "mac10"
            && weapon_price(WeaponKind::Mac10) == 1400 && weapon_tuning(WeaponKind::Mac10).mag_size == 30
            && weapon_tuning(WeaponKind::Mac10).reserve == 100 && weapon_tuning(WeaponKind::Mac10).damage_body == 29
            && weapon_tuning(WeaponKind::Mac10).damage_head == 116,
        weapon_name(WeaponKind::Aug) == "AUG" && weapon_stem(WeaponKind::Aug) == "aug"
            && weapon_price(WeaponKind::Aug) == 3500 && weapon_tuning(WeaponKind::Aug).mag_size == 30
            && weapon_tuning(WeaponKind::Aug).reserve == 90 && weapon_tuning(WeaponKind::Aug).damage_body == 32
            && weapon_tuning(WeaponKind::Aug).damage_head == 128,
        weapon_name(WeaponKind::Elite) == "DUAL ELITES" && weapon_stem(WeaponKind::Elite) == "elite"
            && weapon_price(WeaponKind::Elite) == 800 && weapon_tuning(WeaponKind::Elite).mag_size == 30
            && weapon_tuning(WeaponKind::Elite).reserve == 120 && weapon_tuning(WeaponKind::Elite).damage_body == 36
            && weapon_tuning(WeaponKind::Elite).damage_head == 144,
        weapon_name(WeaponKind::FiveSeven) == "FIVE-SEVEN" && weapon_stem(WeaponKind::FiveSeven) == "fiveseven"
            && weapon_price(WeaponKind::FiveSeven) == 750 && weapon_tuning(WeaponKind::FiveSeven).mag_size == 20
            && weapon_tuning(WeaponKind::FiveSeven).reserve == 100 && weapon_tuning(WeaponKind::FiveSeven).damage_body == 20
            && weapon_tuning(WeaponKind::FiveSeven).damage_head == 80,
        weapon_name(WeaponKind::Ump45) == "UMP45" && weapon_stem(WeaponKind::Ump45) == "ump45"
            && weapon_price(WeaponKind::Ump45) == 1700 && weapon_tuning(WeaponKind::Ump45).mag_size == 25
            && weapon_tuning(WeaponKind::Ump45).reserve == 100 && weapon_tuning(WeaponKind::Ump45).damage_body == 30
            && weapon_tuning(WeaponKind::Ump45).damage_head == 120,
        weapon_name(WeaponKind::Sg550) == "SG-550" && weapon_stem(WeaponKind::Sg550) == "sg550"
            && weapon_price(WeaponKind::Sg550) == 4200 && weapon_tuning(WeaponKind::Sg550).mag_size == 30
            && weapon_tuning(WeaponKind::Sg550).reserve == 90 && weapon_tuning(WeaponKind::Sg550).damage_body == 40
            && weapon_tuning(WeaponKind::Sg550).damage_head == 160,
        weapon_name(WeaponKind::Galil) == "GALIL" && weapon_stem(WeaponKind::Galil) == "galil"
            && weapon_price(WeaponKind::Galil) == 2000 && weapon_tuning(WeaponKind::Galil).mag_size == 35
            && weapon_tuning(WeaponKind::Galil).reserve == 90 && weapon_tuning(WeaponKind::Galil).damage_body == 30
            && weapon_tuning(WeaponKind::Galil).damage_head == 120,
        weapon_name(WeaponKind::Famas) == "FAMAS" && weapon_stem(WeaponKind::Famas) == "famas"
            && weapon_price(WeaponKind::Famas) == 2250 && weapon_tuning(WeaponKind::Famas).mag_size == 25
            && weapon_tuning(WeaponKind::Famas).reserve == 90 && weapon_tuning(WeaponKind::Famas).damage_body == 30
            && weapon_tuning(WeaponKind::Famas).damage_head == 120,
        weapon_name(WeaponKind::Usp) == "USP" && weapon_stem(WeaponKind::Usp) == "usp"
            && weapon_price(WeaponKind::Usp) == 500 && weapon_tuning(WeaponKind::Usp).mag_size == 12
            && weapon_tuning(WeaponKind::Usp).reserve == 100 && weapon_tuning(WeaponKind::Usp).damage_body == 34
            && weapon_tuning(WeaponKind::Usp).damage_head == 136,
        weapon_name(WeaponKind::Awp) == "AWP" && weapon_stem(WeaponKind::Awp) == "awp"
            && weapon_price(WeaponKind::Awp) == 4750 && weapon_tuning(WeaponKind::Awp).mag_size == 10
            && weapon_tuning(WeaponKind::Awp).reserve == 30 && weapon_tuning(WeaponKind::Awp).damage_body == 115
            && weapon_tuning(WeaponKind::Awp).damage_head == 460,
        weapon_name(WeaponKind::Mp5Navy) == "MP5 NAVY" && weapon_stem(WeaponKind::Mp5Navy) == "mp5"
            && weapon_price(WeaponKind::Mp5Navy) == 1500 && weapon_tuning(WeaponKind::Mp5Navy).mag_size == 30
            && weapon_tuning(WeaponKind::Mp5Navy).reserve == 120 && weapon_tuning(WeaponKind::Mp5Navy).damage_body == 26
            && weapon_tuning(WeaponKind::Mp5Navy).damage_head == 104,
        weapon_name(WeaponKind::M249) == "M249" && weapon_stem(WeaponKind::M249) == "m249"
            && weapon_price(WeaponKind::M249) == 5750 && weapon_tuning(WeaponKind::M249).mag_size == 100
            && weapon_tuning(WeaponKind::M249).reserve == 200 && weapon_tuning(WeaponKind::M249).damage_body == 32
            && weapon_tuning(WeaponKind::M249).damage_head == 128,
        weapon_name(WeaponKind::M3) == "M3" && weapon_stem(WeaponKind::M3) == "m3"
            && weapon_price(WeaponKind::M3) == 1700 && weapon_tuning(WeaponKind::M3).mag_size == 8
            && weapon_tuning(WeaponKind::M3).reserve == 32 && weapon_tuning(WeaponKind::M3).damage_body == 20
            && weapon_tuning(WeaponKind::M3).damage_head == 80,
        weapon_name(WeaponKind::M4A1) == "M4A1" && weapon_stem(WeaponKind::M4A1) == "m4a1"
            && weapon_price(WeaponKind::M4A1) == 3100 && weapon_tuning(WeaponKind::M4A1).mag_size == 30
            && weapon_tuning(WeaponKind::M4A1).reserve == 90 && weapon_tuning(WeaponKind::M4A1).damage_body == 33
            && weapon_tuning(WeaponKind::M4A1).damage_head == 132,
        weapon_name(WeaponKind::Tmp) == "TMP" && weapon_stem(WeaponKind::Tmp) == "tmp"
            && weapon_price(WeaponKind::Tmp) == 1250 && weapon_tuning(WeaponKind::Tmp).mag_size == 30
            && weapon_tuning(WeaponKind::Tmp).reserve == 120 && weapon_tuning(WeaponKind::Tmp).damage_body == 20
            && weapon_tuning(WeaponKind::Tmp).damage_head == 80,
        weapon_name(WeaponKind::G3Sg1) == "G3SG1" && weapon_stem(WeaponKind::G3Sg1) == "g3sg1"
            && weapon_price(WeaponKind::G3Sg1) == 5000 && weapon_tuning(WeaponKind::G3Sg1).mag_size == 20
            && weapon_tuning(WeaponKind::G3Sg1).reserve == 90 && weapon_tuning(WeaponKind::G3Sg1).damage_body == 80
            && weapon_tuning(WeaponKind::G3Sg1).damage_head == 320,
        weapon_name(WeaponKind::Deagle) == "DESERT EAGLE" && weapon_stem(WeaponKind::Deagle) == "deagle"
            && weapon_price(WeaponKind::Deagle) == 650 && weapon_tuning(WeaponKind::Deagle).mag_size == 7
            && weapon_tuning(WeaponKind::Deagle).reserve == 35 && weapon_tuning(WeaponKind::Deagle).damage_body == 54
            && weapon_tuning(WeaponKind::Deagle).damage_head == 216,
        weapon_name(WeaponKind::Sg552) == "SG-552" && weapon_stem(WeaponKind::Sg552) == "sg552"
            && weapon_price(WeaponKind::Sg552) == 3500 && weapon_tuning(WeaponKind::Sg552).mag_size == 30
            && weapon_tuning(WeaponKind::Sg552).reserve == 90 && weapon_tuning(WeaponKind::Sg552).damage_body == 33
            && weapon_tuning(WeaponKind::Sg552).damage_head == 132,
        weapon_name(WeaponKind::Ak47) == "AK-47" && weapon_stem(WeaponKind::Ak47) == "ak47"
            && weapon_price(WeaponKind::Ak47) == 2500 && weapon_tuning(WeaponKind::Ak47).mag_size == 30
            && weapon_tuning(WeaponKind::Ak47).reserve == 90 && weapon_tuning(WeaponKind::Ak47).damage_body == 36
            && weapon_tuning(WeaponKind::Ak47).damage_head == 144,
        weapon_name(WeaponKind::P90) == "P90" && weapon_stem(WeaponKind::P90) == "p90"
            && weapon_price(WeaponKind::P90) == 2350 && weapon_tuning(WeaponKind::P90).mag_size == 50
            && weapon_tuning(WeaponKind::P90).reserve == 100 && weapon_tuning(WeaponKind::P90).damage_body == 21
            && weapon_tuning(WeaponKind::P90).damage_head == 84,
{
}

/// The buy menu, in menu order.
pub fn buy_weapons() -> (r: Vec<(u8, WeaponKind)>)
    ensures
        r@ == buy_catalog(),
        r@.len() == 24,
        forall|i: int| 0 <= i < r@.len() ==> sold_under((#[trigger] r@[i]).0) == Some(r@[i].1),
{
    proof {
        lemma_buy_menu_sells_fixed_firearms();
    }
    let r = vec![(0u8, WeaponKind::Glock18), (1u8, WeaponKind::Mp5Navy), (2u8, WeaponKind::Ak47), (5u8, WeaponKind::P228), (6u8, WeaponKind::Scout), (7u8, WeaponKind::Xm1014), (8u8, WeaponKind::Mac10), (9u8, WeaponKind::Aug), (10u8, WeaponKind::Elite), (11u8, WeaponKind::FiveSeven), (12u8, WeaponKind::Ump45), (13u8, WeaponKind::Sg550), (14u8, WeaponKind::Galil), (15u8, WeaponKind::Famas), (16u8, WeaponKind::Usp), (17u8, WeaponKind::Awp), (18u8, WeaponKind::M249), (19u8, WeaponKind::M3), (20u8, WeaponKind::M4A1), (21u8, WeaponKind::Tmp), (22u8, WeaponKind::G3Sg1), (23u8, WeaponKind::Deagle), (24u8, WeaponKind::Sg552), (25u8, WeaponKind::P90)];
    assert(r@ =~= buy_catalog());
    r
}

/// The firearm sold under `id`, if any.
pub fn buy_weapon(id: u8) -> (r: Option<WeaponKind>)
    ensures
        r is None <==> forall|i: int| 0 <= i < buy_catalog().len() ==> (#[trigger] buy_catalog()[i]).0 != id,
        r matches Some(kind) ==> exists|i: int|
            0 <= i < buy_catalog().len() && #[trigger] buy_catalog()[i] == (id, kind),
        r == sold_under(id),
{
    proof {
        lemma_buy_menu_sells_fixed_firearms();
    }
    let catalog = buy_weapons();
    let mut i: usize = 0;
    while i < catalog.len()
        invariant
            catalog@ == buy_catalog(),
            i <= catalog@.len(),
            forall|j: int| 0 <= j < i ==> (#[trigger] buy_catalog()[j]).0 != id,
        decreases catalog@.len() - i,
    {
        let (item, kind) = catalog[i];
        if item == id {
            assert(buy_catalog()[i as int] == (id, kind));
            return Some(kind);
        }
        i = i + 1;
    }
    None
}

/// No two catalogue entries share an ID, so an ID names one firearm.
pub proof fn lemma_buy_ids_unique()
    ensures
        forall|i: int, j: int|
            0 <= i < j < buy_catalog().len() ==> (#[trigger] buy_catalog()[i]).0 != (
            #[trigger] buy_catalog()[j]).0,
{
    assert(buy_catalog().len() == 24);
    assert forall|i: int, j: int|
        0 <= i < j < buy_catalog().len() implies (#[trigger] buy_catalog()[i]).0 != (
        #[trigger] buy_catalog()[j]).0 by {
        assert(forall|k: int| 0 <= k < 24 ==> #[trigger] buy_catalog()[k].0 == (if k < 3 {
            k
        } else {
            k + 2
        }));
    }
}

/// One xorshift64 step.
pub open spec fn xorshift64(x: u64) -> u64 {
    let a = x ^ (x << 13u64);
    let b = a ^ (a >> 7u64);
    b ^ (b << 17u64)
}

/// A tiny deterministic generator (xorshift) for reproducible runs.
#[derive(Clone)]
pub struct Rng(pub u64);

impl Rng {
    /// Advances the state one xorshift64 step and returns its high half.
    pub fn next_u32(&mut self) -> (r: u32)
        ensures
            final(self).0 == xorshift64(old(self).0),
            r == (xorshift64(old(self).0) >> 32u64) as u32,
    {
        let mut x = self.0;
        x ^= x << 13u64;
        x ^= x >> 7u64;
        x ^= x << 17u64;
        self.0 = x;
        (x >> 32u64) as u32
    }
}

} // verus!
