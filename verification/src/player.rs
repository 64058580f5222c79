//! The persistent player profile: stats, economy counters, and the clamped
//! arithmetic that every mutation of them goes through.

use vstd::prelude::*;
use vstd::string::StringExecFns;

verus! {

/// Default starting health and maximum health.
pub const DEFAULT_MAX_HEALTH: u32 = 100;

/// Default base attack power.
pub const DEFAULT_DAMAGE: u32 = 10;

/// Default health restored per potion use.
pub const DEFAULT_POTION_SIZE: u32 = 25;

/// Potion charges a fresh profile carries. The charge count is a design
/// placeholder: combat potion use consumes one charge and the shop sells more.
pub const DEFAULT_POTION_CHARGES: u32 = 3;

/// `a + b`, saturating at `u32::MAX`.
pub open spec fn sat_add(a: u32, b: u32) -> u32 {
    if a + b > u32::MAX {
        u32::MAX
    } else {
        (a + b) as u32
    }
}

/// `a - b`, saturating at 0.
pub open spec fn sat_sub(a: u32, b: u32) -> u32 {
    if a - b < 0 {
        0u32
    } else {
        (a - b) as u32
    }
}

/// The persistent player profile. It is created once at session start,
/// mutated by combat, shop and exploration events, and reset to its defaults
/// when a finished run is acknowledged.
pub struct PlayerProfile {
    /// Display identifier, immutable after creation.
    pub name: String,
    /// Current health; always within `0 ..= max_health`.
    pub health: u32,
    /// Health ceiling; always positive.
    pub max_health: u32,
    /// Base attack power.
    pub damage: u32,
    /// Health restored per potion use.
    pub potion_size: u32,
    /// Economy currency.
    pub coins: u32,
    /// Session score; never decreases except on reset.
    pub score: u32,
    /// Potion charges available for combat.
    pub potion_charges: u32,
}

impl PlayerProfile {
    /// Well-formedness: health never exceeds the ceiling and the ceiling is
    /// positive.
    pub open spec fn wf(self) -> bool {
        &&& self.health <= self.max_health
        &&& self.max_health >= 1
    }

    /// Health after a heal of `amount`: restored, clamped at `max_health`.
    pub open spec fn spec_healed(self, amount: u32) -> u32 {
        if self.health + amount > self.max_health {
            self.max_health
        } else {
            (self.health + amount) as u32
        }
    }

    /// Health after drinking one potion: restored by `potion_size`, clamped
    /// at `max_health`.
    pub open spec fn spec_health_after_potion(self) -> u32 {
        self.spec_healed(self.potion_size)
    }

    /// The stats a fresh profile starts with.
    pub open spec fn spec_is_default(self) -> bool {
        &&& self.name@ == "Hero"@
        &&& self.health == DEFAULT_MAX_HEALTH
        &&& self.max_health == DEFAULT_MAX_HEALTH
        &&& self.damage == DEFAULT_DAMAGE
        &&& self.potion_size == DEFAULT_POTION_SIZE
        &&& self.coins == 0
        &&& self.score == 0
        &&& self.potion_charges == DEFAULT_POTION_CHARGES
    }

    /// A fresh profile with the fixed session defaults.
    pub fn new() -> (p: PlayerProfile)
        ensures
            p.wf(),
            p.spec_is_default(),
    {
        PlayerProfile {
            name: String::from_str("Hero"),
            health: DEFAULT_MAX_HEALTH,
            max_health: DEFAULT_MAX_HEALTH,
            damage: DEFAULT_DAMAGE,
            potion_size: DEFAULT_POTION_SIZE,
            coins: 0,
            score: 0,
            potion_charges: DEFAULT_POTION_CHARGES,
        }
    }

    /// Restore `amount` health, clamped at `max_health`. Every heal in the
    /// game (potions, flavor events) goes through this clamp.
    pub fn heal(&mut self, amount: u32)
        requires
            old(self).wf(),
        ensures
            final(self).wf(),
            final(self).health == old(self).spec_healed(amount),
            *final(self) == (PlayerProfile { health: final(self).health, ..*old(self) }),
    {
        if self.max_health - self.health < amount {
            self.health = self.max_health;
        } else {
            self.health = self.health + amount;
        }
    }

    /// Drink one potion: restore `potion_size` health, clamped at
    /// `max_health`. Charge bookkeeping is the combat resolver's concern.
    pub fn use_potion(&mut self)
        requires
            old(self).wf(),
        ensures
            final(self).wf(),
            final(self).health == old(self).spec_health_after_potion(),
            *final(self) == (PlayerProfile { health: final(self).health, ..*old(self) }),
    {
        let amount = self.potion_size;
        self.heal(amount);
    }

    /// Take `amount` damage, clamped at 0 health.
    pub fn take_damage(&mut self, amount: u32)
        requires
            old(self).wf(),
        ensures
            final(self).wf(),
            final(self).health == sat_sub(old(self).health, amount),
            *final(self) == (PlayerProfile { health: final(self).health, ..*old(self) }),
    {
        self.health = self.health.saturating_sub(amount);
    }

    /// Add coins, saturating at `u32::MAX`.
    pub fn gain_coins(&mut self, amount: u32)
        requires
            old(self).wf(),
        ensures
            final(self).wf(),
            final(self).coins == sat_add(old(self).coins, amount),
            *final(self) == (PlayerProfile { coins: final(self).coins, ..*old(self) }),
    {
        self.coins = self.coins.saturating_add(amount);
    }

    /// Add score, saturating at `u32::MAX`; score never decreases.
    pub fn gain_score(&mut self, amount: u32)
        requires
            old(self).wf(),
        ensures
            final(self).wf(),
            final(self).score == sat_add(old(self).score, amount),
            final(self).score >= old(self).score,
            *final(self) == (PlayerProfile { score: final(self).score, ..*old(self) }),
    {
        self.score = self.score.saturating_add(amount);
    }
}

} // verus!
