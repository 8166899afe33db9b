use openstrike::bot::{damage_bonus, next_brain, BotState, BotStatus, Perception, BOT_HEALTH};
use openstrike::weapon::WeaponKind;

#[test]
fn budget_buys_the_best_affordable_loadout() {
    let mut bot = BotStatus::spawn();
    assert_eq!((bot.health, bot.armor, bot.weapon), (BOT_HEALTH, 0, WeaponKind::Glock18));
    for (budget, weapon, armor) in [
        (0, WeaponKind::Glock18, 0),
        (649, WeaponKind::Glock18, 0),
        (650, WeaponKind::Glock18, 100),
        (1250, WeaponKind::Mp5Navy, 0),
        (1900, WeaponKind::Mp5Navy, 100),
        (2700, WeaponKind::Ak47, 0),
        (3349, WeaponKind::Ak47, 0),
        (3350, WeaponKind::Ak47, 100),
        (-5, WeaponKind::Glock18, 0),
    ] {
        bot.buy_for_budget(budget);
        assert_eq!((bot.weapon, bot.armor), (weapon, armor), "{budget}");
    }
}

#[test]
fn armor_absorbs_until_it_runs_out() {
    let mut bot = BotStatus::spawn();
    bot.armor = 100;
    // 36 damage at ratio 0.3875 rounds to 14 through armor; armor pays 11.
    assert!(!bot.hurt_with_armor(36, 14));
    assert_eq!((bot.health, bot.armor), (86, 89));
    bot.armor = 3;
    // Armor that cannot pay stops twice its points.
    assert!(!bot.hurt_with_armor(40, 10));
    assert_eq!((bot.health, bot.armor), (52, 0));
    assert!(!bot.hurt(51));
    assert_eq!(bot.health, 1);
    assert!(bot.hurt(1));
    assert_eq!(bot.brain, BotState::Dead);
    assert!(!bot.alive());
    assert!(!bot.hurt(50));
    assert_eq!(bot.health, 0);
}

#[test]
fn negative_damage_heals_and_large_armor_is_accepted() {
    let mut bot = BotStatus::spawn();
    assert!(!bot.hurt(-10));
    assert_eq!(bot.health, 110);
    bot.armor = i32::MAX;
    assert!(!bot.hurt_with_armor(100, 25));
    assert_eq!((bot.health, bot.armor), (85, i32::MAX - 38));
    bot.armor = -5;
    assert!(!bot.hurt_with_armor(30, 10));
    assert_eq!((bot.health, bot.armor), (55, -5));
}

#[test]
fn brain_chases_what_it_sees_and_gives_up_when_lost() {
    let p = |visible, in_attack_range, beyond_attack_hold, lost| Perception {
        visible,
        in_attack_range,
        beyond_attack_hold,
        lost,
    };
    assert_eq!(next_brain(BotState::Patrol, p(true, true, false, false)), BotState::Chase);
    assert_eq!(next_brain(BotState::Patrol, p(false, false, false, true)), BotState::Patrol);
    assert_eq!(next_brain(BotState::Chase, p(true, true, false, false)), BotState::Attack);
    assert_eq!(next_brain(BotState::Chase, p(true, false, false, false)), BotState::Chase);
    assert_eq!(next_brain(BotState::Chase, p(false, false, false, true)), BotState::Patrol);
    assert_eq!(next_brain(BotState::Attack, p(true, true, false, false)), BotState::Attack);
    assert_eq!(next_brain(BotState::Attack, p(true, false, true, false)), BotState::Chase);
    assert_eq!(next_brain(BotState::Attack, p(false, false, false, true)), BotState::Patrol);
    assert_eq!(next_brain(BotState::Dead, p(true, true, false, false)), BotState::Dead);
    assert_eq!(damage_bonus(WeaponKind::Pistol), 0);
    assert_eq!(damage_bonus(WeaponKind::Smg), 2);
    assert_eq!(damage_bonus(WeaponKind::Rifle), 5);
    assert_eq!(damage_bonus(WeaponKind::Ak47), 4);
}
