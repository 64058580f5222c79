//! The per-encounter enemy: ephemeral stats created on entering a fight,
//! scaled by the difficulty setting, and discarded when the fight ends.

use vstd::prelude::*;
use vstd::string::StringExecFns;
use crate::config::GameConfig;
use crate::player::sat_sub;
use crate::scale::{spec_scaled, scaled_by_percent};

verus! {

/// Base health of a freshly spawned enemy, before difficulty scaling.
pub const BASE_ENEMY_HEALTH: u32 = 25;

/// Base attack power of a freshly spawned enemy, before difficulty scaling.
pub const BASE_ENEMY_DAMAGE: u32 = 5;

/// Base coin reward for defeating an enemy, before difficulty scaling.
pub const BASE_ENEMY_COINS_DROP: u32 = 10;

/// Stats of the enemy in the current fight. Instantiated on entering the
/// fighting phase with stats scaled by the difficulty multiplier; discarded
/// when combat ends in victory, defeat or flight.
pub struct EncounterEnemy {
    /// Display identifier.
    pub name: String,
    /// Current health; always within `0 ..= max_health`.
    pub health: u32,
    /// Health ceiling; always positive.
    pub max_health: u32,
    /// Attack power of one retaliation. Difficulty scaling is applied here,
    /// once, at spawn time; combat uses this value unchanged.
    pub damage: u32,
    /// Coins the player gains on defeating this enemy.
    pub coins_drop: u32,
}

impl EncounterEnemy {
    /// Well-formedness: health never exceeds the ceiling and the ceiling is
    /// positive.
    pub open spec fn wf(self) -> bool {
        &&& self.health <= self.max_health
        &&& self.max_health >= 1
    }

    /// The stats an enemy spawned under multiplier `percent` carries: every
    /// base stat scaled by the difficulty multiplier, at full health.
    pub open spec fn spec_spawned(self, percent: u32) -> bool {
        &&& self.health == spec_scaled(BASE_ENEMY_HEALTH, percent)
        &&& self.max_health == spec_scaled(BASE_ENEMY_HEALTH, percent)
        &&& self.damage == spec_scaled(BASE_ENEMY_DAMAGE, percent)
        &&& self.coins_drop == spec_scaled(BASE_ENEMY_COINS_DROP, percent)
    }

    /// The score awarded for defeating this enemy: its health ceiling, which
    /// carries the difficulty scaling applied at spawn time. A fixed,
    /// non-negative amount for a given enemy.
    pub open spec fn spec_score_reward(self) -> u32 {
        self.max_health
    }

    /// Executable mirror of `spec_score_reward`.
    pub fn score_reward(&self) -> (s: u32)
        ensures
            s == self.spec_score_reward(),
    {
        self.max_health
    }

    /// Spawn the enemy for a new fight, with every base stat scaled by the
    /// configured difficulty multiplier.
    pub fn spawn(config: &GameConfig) -> (e: EncounterEnemy)
        requires
            config.wf(),
        ensures
            e.wf(),
            e.spec_spawned(config.difficulty_multiplier_percent),
    {
        let percent = config.difficulty_multiplier_percent;
        let health = scaled_by_percent(BASE_ENEMY_HEALTH, percent);
        EncounterEnemy {
            name: String::from_str("Goblin"),
            health,
            max_health: health,
            damage: scaled_by_percent(BASE_ENEMY_DAMAGE, percent),
            coins_drop: scaled_by_percent(BASE_ENEMY_COINS_DROP, percent),
        }
    }

    /// Take `amount` damage, clamped at 0 health.
    pub fn take_damage(&mut self, amount: u32)
        requires
            old(self).wf(),
        ensures
            final(self).wf(),
            final(self).health == sat_sub(old(self).health, amount),
            *final(self) == (EncounterEnemy { health: final(self).health, ..*old(self) }),
    {
        self.health = self.health.saturating_sub(amount);
    }
}

} // verus!
