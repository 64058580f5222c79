//! Session-wide configuration: the difficulty setting, the scaling factors
//! derived from it, and the cheat switch.

use vstd::prelude::*;

verus! {

/// Number of difficulty levels; `difficulty` cycles through `0..DIFFICULTY_LEVELS`.
pub const DIFFICULTY_LEVELS: u8 = 3;

/// Scaling factor for difficulty level 0 (Easy), in percent.
pub const EASY_MULTIPLIER_PERCENT: u32 = 100;

/// Scaling factor for difficulty level 1 (Normal), in percent.
pub const NORMAL_MULTIPLIER_PERCENT: u32 = 150;

/// Scaling factor for difficulty level 2 (Hard), in percent.
pub const HARD_MULTIPLIER_PERCENT: u32 = 200;

/// Default pacing modifier, in percent. Pacing is not combat-critical and the
/// core never reads it beyond exposing it to the host.
pub const DEFAULT_SPEED_MODIFIER_PERCENT: u32 = 100;

/// The scaling factor that belongs to a difficulty level. Scaling factors are
/// kept in integer percent (100 = unscaled) and increase strictly with the
/// difficulty, so that harder settings always scale enemy stats and rewards up.
pub open spec fn spec_multiplier_percent(difficulty: u8) -> u32 {
    if difficulty == 0 {
        EASY_MULTIPLIER_PERCENT
    } else if difficulty == 1 {
        NORMAL_MULTIPLIER_PERCENT
    } else {
        HARD_MULTIPLIER_PERCENT
    }
}

/// The difficulty level that follows `difficulty` in the cycle
/// Easy -> Normal -> Hard -> Easy.
pub open spec fn spec_next_difficulty(difficulty: u8) -> u8 {
    ((difficulty + 1) % (DIFFICULTY_LEVELS as int)) as u8
}

/// Session configuration: difficulty level, the scaling factor derived from
/// it, a pacing modifier, and the cheat switch.
pub struct GameConfig {
    /// Difficulty level: 0 = Easy, 1 = Normal, 2 = Hard.
    pub difficulty: u8,
    /// Scaling factor applied to enemy stats and rewards, in percent.
    /// Always `spec_multiplier_percent(difficulty)`: the two never disagree.
    pub difficulty_multiplier_percent: u32,
    /// Pacing modifier in percent; scales event frequency in the host loop.
    pub speed_modifier_percent: u32,
    /// When set, defeat consequences are bypassed: a downed player is revived
    /// instead of the game ending.
    pub cheats_enabled: bool,
}

impl GameConfig {
    /// Well-formedness: the difficulty is one of the three levels and the
    /// stored multiplier agrees with the one derived from the difficulty.
    pub open spec fn wf(self) -> bool {
        &&& self.difficulty < DIFFICULTY_LEVELS
        &&& self.difficulty_multiplier_percent == spec_multiplier_percent(self.difficulty)
    }

    /// The starting configuration: Easy, unscaled, default pacing, no cheats.
    pub fn new() -> (cfg: GameConfig)
        ensures
            cfg.wf(),
            cfg.difficulty == 0,
            cfg.speed_modifier_percent == DEFAULT_SPEED_MODIFIER_PERCENT,
            !cfg.cheats_enabled,
    {
        GameConfig {
            difficulty: 0,
            difficulty_multiplier_percent: EASY_MULTIPLIER_PERCENT,
            speed_modifier_percent: DEFAULT_SPEED_MODIFIER_PERCENT,
            cheats_enabled: false,
        }
    }

    /// Executable mirror of `spec_multiplier_percent`.
    pub fn multiplier_percent_of(difficulty: u8) -> (m: u32)
        ensures
            m == spec_multiplier_percent(difficulty),
    {
        if difficulty == 0 {
            EASY_MULTIPLIER_PERCENT
        } else if difficulty == 1 {
            NORMAL_MULTIPLIER_PERCENT
        } else {
            HARD_MULTIPLIER_PERCENT
        }
    }

    /// Advance the difficulty cyclically (Easy -> Normal -> Hard -> Easy) and
    /// re-derive the multiplier, so the two never disagree.
    pub fn change_difficulty(&mut self)
        requires
            old(self).wf(),
        ensures
            final(self).wf(),
            final(self).difficulty == spec_next_difficulty(old(self).difficulty),
            final(self).difficulty_multiplier_percent == spec_multiplier_percent(
                final(self).difficulty,
            ),
            final(self).speed_modifier_percent == old(self).speed_modifier_percent,
            final(self).cheats_enabled == old(self).cheats_enabled,
    {
        self.difficulty = (self.difficulty + 1) % DIFFICULTY_LEVELS;
        self.difficulty_multiplier_percent = GameConfig::multiplier_percent_of(self.difficulty);
    }
}

/// Advancing the difficulty three times returns to the starting level, for
/// every well-formed level: the cycle is exactly Easy -> Normal -> Hard -> Easy.
pub proof fn lemma_difficulty_cycles(difficulty: u8)
    requires
        difficulty < DIFFICULTY_LEVELS,
    ensures
        spec_next_difficulty(spec_next_difficulty(spec_next_difficulty(difficulty))) == difficulty,
{
}

} // verus!
