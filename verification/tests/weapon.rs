use openstrike::weapon::{buy_weapon, buy_weapons, Rng, Rounds, Tuning, WeaponKind};

#[test]
fn buy_catalog_has_stable_ids_names_and_prices() {
    assert_eq!(buy_weapons().len(), 24);
    assert_eq!(buy_weapon(0), Some(WeaponKind::Glock18));
    assert_eq!(buy_weapon(2), Some(WeaponKind::Ak47));
    assert_eq!(buy_weapon(3), None);
    assert_eq!(buy_weapon(4), None);
    assert_eq!(buy_weapon(25), Some(WeaponKind::P90));
    assert_eq!(buy_weapon(26), None);
    assert_eq!(WeaponKind::Ak47.price(), 2500);
    assert_eq!(WeaponKind::Rifle.price(), 2700);
    assert_eq!(WeaponKind::M249.price(), 5750);
    assert_eq!(WeaponKind::Deagle.name(), "DESERT EAGLE");
    assert_eq!(WeaponKind::Mac10.name(), "MAC-10");
    assert_eq!(WeaponKind::Pistol.asset_stem(), "glock18");
    assert_eq!(WeaponKind::Mp5Navy.asset_stem(), "mp5");
    let mut ids: Vec<u8> = buy_weapons().iter().map(|(id, _)| *id).collect();
    ids.dedup();
    assert_eq!(ids.len(), 24);
    for (id, kind) in buy_weapons() {
        assert_eq!(buy_weapon(id), Some(kind));
    }
}

#[test]
fn xorshift_sequence_is_reproducible() {
    let mut a = Rng(0x1234_5678_9abc_def0);
    let mut b = a.clone();
    for _ in 0..100 {
        assert_eq!(a.next_u32(), b.next_u32());
    }
    let mut r = Rng(1);
    let mut x: u64 = 1;
    x ^= x << 13;
    x ^= x >> 7;
    x ^= x << 17;
    assert_eq!(r.next_u32(), (x >> 32) as u32);
    assert_eq!(r.0, x);
    let mut zero = Rng(0);
    assert_eq!(zero.next_u32(), 0);
    assert_eq!(zero.0, 0);
}

#[test]
fn catalog_tuning_keeps_counter_strike_rounds_and_damage() {
    assert_eq!(WeaponKind::Ak47.tuning().damage_body, 36);
    assert_eq!(WeaponKind::Ak47.tuning().damage_head, 144);
    assert_eq!(WeaponKind::Awp.tuning().damage_body, 115);
    assert_eq!(WeaponKind::M249.tuning().mag_size, 100);
    assert_eq!(WeaponKind::P90.tuning().mag_size, 50);
    assert_eq!(
        WeaponKind::Rifle.tuning(),
        Tuning { mag_size: 30, reserve: 90, damage_body: 34, damage_head: 100 }
    );
    assert_eq!(WeaponKind::Pistol.tuning().damage_head, 72);
    assert_eq!(WeaponKind::Deagle.tuning().reserve, 35);
}

#[test]
fn repeated_reload_refills_once_without_spending_extra_reserve() {
    let mut rounds = Rounds::full(30, 90);
    assert!(!rounds.wants_reload());
    rounds.ammo = 23;
    assert!(rounds.wants_reload());
    rounds.refill();
    assert_eq!((rounds.ammo, rounds.reserve), (30, 83));
    assert!(!rounds.wants_reload());
    rounds.refill();
    assert_eq!((rounds.ammo, rounds.reserve), (30, 83));
}

#[test]
fn short_reserve_fills_what_it_can_and_empty_magazine_cannot_fire() {
    let mut rounds = Rounds { mag_size: 30, ammo: 2, reserve: 5 };
    rounds.refill();
    assert_eq!(rounds, Rounds { mag_size: 30, ammo: 7, reserve: 0 });
    assert!(!rounds.wants_reload());
    let mut last = Rounds { mag_size: 30, ammo: 1, reserve: 0 };
    assert!(last.spend());
    assert_eq!(last.ammo, 0);
    assert!(!last.spend());
    assert_eq!(last, Rounds { mag_size: 30, ammo: 0, reserve: 0 });
}
