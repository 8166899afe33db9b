//! The integer side of an opponent: health, armor, purchased weapon and
//! whether it still fights. Movement, aim and timers stay with the host.
use vstd::prelude::*;

use crate::weapon::WeaponKind;

verus! {

pub const BOT_HEALTH: i32 = 100;

/// The opponent's brain state.
#[derive(Clone, Copy, Debug, PartialEq, Eq, Structural)]
pub enum BotState {
    Patrol,
    Chase,
    Attack,
    Dead,
}

/// A volley an opponent lands on the player this tick.
#[derive(Clone, Copy, Debug)]
pub struct BotShot {
    pub damage: i32,
}

/// Health, armor, brain state and weapon of one opponent.
#[derive(Clone, Copy, Debug)]
pub struct BotStatus {
    pub health: i32,
    pub armor: i32,
    pub brain: BotState,
    pub weapon: WeaponKind,
}

/// Armor points a hit costs: half the damage the armor absorbed, rounded
/// half up.
pub open spec fn armor_cost(dmg: int, reduced: int) -> int {
    let absorbed = if dmg - reduced > 0 {
        dmg - reduced
    } else {
        0
    };
    (absorbed + 1) / 2
}

/// The damage a hit deals and the armor left: armor that can pay the cost
/// lets only the reduced damage through; armor that cannot is used up and
/// stops twice its points.
pub open spec fn armored_hit(armor: int, dmg: int, reduced: int) -> (int, int) {
    if armor > 0 {
        if armor_cost(dmg, reduced) <= armor {
            (reduced, armor - armor_cost(dmg, reduced))
        } else {
            (if dmg - armor * 2 > 0 {
                dmg - armor * 2
            } else {
                0
            }, 0)
        }
    } else {
        (dmg, armor)
    }
}

/// What a budget buys: the best firearm it affords among the AK-47 (2700),
/// the MP5 (1250) and a free Glock, then armor (650) from what is left.
pub open spec fn loadout(budget: int) -> (WeaponKind, int, int) {
    let (weapon, left) = if budget >= 2700 {
        (WeaponKind::Ak47, budget - 2700)
    } else if budget >= 1250 {
        (WeaponKind::Mp5Navy, budget - 1250)
    } else {
        (WeaponKind::Glock18, budget)
    };
    if left >= 650 {
        (weapon, 100, budget - left + 650)
    } else {
        (weapon, 0, budget - left)
    }
}

/// What an opponent perceives in one tick, judged by the host in world
/// units and seconds: whether it sees the player, whether the player is
/// within attack range, whether the player is beyond the range at which an
/// attack is held (a quarter more), and whether sight was lost long enough
/// to give up the chase.
#[derive(Clone, Copy, Debug)]
pub struct Perception {
    pub visible: bool,
    pub in_attack_range: bool,
    pub beyond_attack_hold: bool,
    pub lost: bool,
}

/// The brain after one tick: a seen player is chased, a chased player in
/// range is attacked, an attack that loses the player falls back to the
/// chase (or to patrol once sight is lost for long), and a chase that lost
/// the player for long returns to patrol.
pub open spec fn brain_after(brain: BotState, p: Perception) -> BotState {
    match brain {
        BotState::Patrol => if p.visible {
            BotState::Chase
        } else {
            BotState::Patrol
        },
        BotState::Chase => if p.visible && p.in_attack_range {
            BotState::Attack
        } else if p.lost {
            BotState::Patrol
        } else {
            BotState::Chase
        },
        BotState::Attack => if !p.visible || p.beyond_attack_hold {
            if p.lost {
                BotState::Patrol
            } else {
                BotState::Chase
            }
        } else {
            BotState::Attack
        },
        BotState::Dead => BotState::Dead,
    }
}

/// Extra damage of a landed volley by the opponent's weapon.
pub open spec fn volley_bonus(weapon: WeaponKind) -> i32 {
    match weapon {
        WeaponKind::Pistol => 0,
        WeaponKind::Smg => 2,
        WeaponKind::Rifle => 5,
        _ => 4,
    }
}

/// The brain's transition for one tick's perception.
pub fn next_brain(brain: BotState, p: Perception) -> (r: BotState)
    ensures
        r == brain_after(brain, p),
{
    match brain {
        BotState::Patrol => if p.visible {
            BotState::Chase
        } else {
            BotState::Patrol
        },
        BotState::Chase => if p.visible && p.in_attack_range {
            BotState::Attack
        } else if p.lost {
            BotState::Patrol
        } else {
            BotState::Chase
        },
        BotState::Attack => if !p.visible || p.beyond_attack_hold {
            if p.lost {
                BotState::Patrol
            } else {
                BotState::Chase
            }
        } else {
            BotState::Attack
        },
        BotState::Dead => BotState::Dead,
    }
}

/// Extra damage of a volley that lands.
pub fn damage_bonus(weapon: WeaponKind) -> (r: i32)
    ensures
        r == volley_bonus(weapon),
{
    match weapon {
        WeaponKind::Pistol => 0,
        WeaponKind::Smg => 2,
        WeaponKind::Rifle => 5,
        _ => 4,
    }
}

/// Perception never revives a dead opponent nor kills a live one, and a
/// patrolling opponent attacks only after a tick of chase.
pub proof fn lemma_brain_steps(brain: BotState, p: Perception)
    ensures
        (brain == BotState::Dead) == (brain_after(brain, p) == BotState::Dead),
        brain == BotState::Patrol ==> brain_after(brain, p) != BotState::Attack,
        brain_after(brain, p) == BotState::Attack ==> p.visible,
{
}

impl BotStatus {
    /// A fresh opponent: full health, no armor, patrolling with a Glock.
    pub fn spawn() -> (r: Self)
        ensures
            r.health == BOT_HEALTH,
            r.armor == 0,
            r.brain == BotState::Patrol,
            r.weapon == WeaponKind::Glock18,
    {
        BotStatus { health: BOT_HEALTH, armor: 0, brain: BotState::Patrol, weapon: WeaponKind::Glock18 }
    }

    pub fn alive(&self) -> (r: bool)
        ensures
            r == (self.brain != BotState::Dead),
    {
        match self.brain {
            BotState::Dead => false,
            _ => true,
        }
    }

    /// Applies a hit of `dmg`, of which `reduced` gets through armor (the
    /// weapon's armor ratio applied and rounded by the caller). Returns
    /// whether this hit killed the opponent; a dead opponent is unaffected.
    /// Damage stays within 2^24, where the armor cost, half the absorbed
    /// damage rounded, is exact in single precision; health must not leave
    /// the `i32` range.
    pub fn hurt_with_armor(&mut self, dmg: i32, reduced: i32) -> (r: bool)
        requires
            -16_777_216 <= dmg <= 16_777_216,
            -16_777_216 <= reduced <= 16_777_216,
            dmg - reduced <= 16_777_216,
            old(self).brain != BotState::Dead ==> i32::MIN <= old(self).health - armored_hit(
                old(self).armor as int,
                dmg as int,
                reduced as int,
            ).0 <= i32::MAX,
        ensures
            old(self).brain == BotState::Dead ==> !r && *final(self) == *old(self),
            old(self).brain != BotState::Dead ==> {
                let (actual, armor) = armored_hit(
                    old(self).armor as int,
                    dmg as int,
                    reduced as int,
                );
                &&& final(self).armor == armor
                &&& final(self).health == old(self).health - actual
                &&& r == (final(self).health <= 0)
                &&& final(self).brain == if r {
                    BotState::Dead
                } else {
                    old(self).brain
                }
                &&& final(self).weapon == old(self).weapon
                &&& (old(self).armor > 0 ==> 0 <= armor <= old(self).armor)
            },
    {
        if !self.alive() {
            return false;
        }
        let mut actual = dmg;
        if self.armor > 0 {
            let absorbed = if dmg - reduced > 0 {
                dmg - reduced
            } else {
                0
            };
            let cost = (absorbed + 1) / 2;
            if cost <= self.armor {
                actual = reduced;
                self.armor = self.armor - cost;
            } else {
                actual = if dmg - self.armor * 2 > 0 {
                    dmg - self.armor * 2
                } else {
                    0
                };
                self.armor = 0;
            }
        }
        self.health = self.health - actual;
        if self.health <= 0 {
            self.brain = BotState::Dead;
            return true;
        }
        false
    }

    /// A hit that armor does not reduce.
    pub fn hurt(&mut self, dmg: i32) -> (r: bool)
        requires
            -16_777_216 <= dmg <= 16_777_216,
            old(self).brain != BotState::Dead ==> i32::MIN <= old(self).health - dmg <= i32::MAX,
        ensures
            old(self).brain == BotState::Dead ==> !r && *final(self) == *old(self),
            old(self).brain != BotState::Dead ==> {
                &&& final(self).health == old(self).health - dmg
                &&& final(self).armor == old(self).armor
                &&& r == (final(self).health <= 0)
                &&& final(self).brain == if r {
                    BotState::Dead
                } else {
                    old(self).brain
                }
                &&& final(self).weapon == old(self).weapon
            },
    {
        self.hurt_with_armor(dmg, dmg)
    }

    /// Buys the round's weapon and armor from `budget`; never spends more
    /// than a non-negative budget.
    pub fn buy_for_budget(&mut self, budget: i32)
        ensures
            final(self).weapon == loadout(budget as int).0,
            final(self).armor == loadout(budget as int).1,
            final(self).health == old(self).health,
            final(self).brain == old(self).brain,
            budget >= 0 ==> loadout(budget as int).2 <= budget,
    {
        let mut left = budget;
        self.weapon = if left >= 2700 {
            left = left - 2700;
            WeaponKind::Ak47
        } else if left >= 1250 {
            left = left - 1250;
            WeaponKind::Mp5Navy
        } else {
            WeaponKind::Glock18
        };
        self.armor = if left >= 650 {
            100
        } else {
            0
        };
    }
}

} // verus!
