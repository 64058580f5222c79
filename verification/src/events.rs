//! Exploration events: one outcome is rolled per exploration step from a
//! five-entry table, either requesting a phase change (a fight, the shop) or
//! applying a small deterministic flavor effect.

use vstd::prelude::*;
use crate::rng::{seeded_rng, roll_in_range};

verus! {

/// Smallest value the event roll can take.
pub const EVENT_ROLL_MIN: u8 = 1;

/// Largest value the event roll can take; the table has five entries.
pub const EVENT_ROLL_MAX: u8 = 5;

/// Health restored by resting at a pool (flavor effect, clamped by the
/// player's health ceiling).
pub const POOL_HEAL_AMOUNT: u32 = 5;

/// Coins granted by finding a chest (flavor effect).
pub const CHEST_COIN_REWARD: u32 = 10;

/// Score granted by visiting an altar (flavor effect).
pub const ALTAR_SCORE_BONUS: u32 = 5;

/// The outcome of one exploration step. `Encounter` and `Shop` request a
/// phase change; the rest are flavor events that leave the phase alone.
#[derive(Clone, Copy, PartialEq, Eq, Structural, Debug)]
pub enum ExplorationEvent {
    /// An enemy appears: the game moves to the fighting phase.
    Encounter,
    /// A restful pool: restores a little health, no phase change.
    Pool,
    /// A treasure chest: grants a few coins, no phase change.
    Chest,
    /// A wandering merchant: the game moves to the shop phase.
    Shop,
    /// An altar: grants a little score, no phase change.
    Altar,
}

/// The event each roll value stands for. Rolls outside the table's range
/// never reach this map: every roll source promises `1..=5`.
pub open spec fn spec_event_of_roll(roll: u8) -> ExplorationEvent {
    if roll == 1 {
        ExplorationEvent::Encounter
    } else if roll == 2 {
        ExplorationEvent::Pool
    } else if roll == 3 {
        ExplorationEvent::Chest
    } else if roll == 4 {
        ExplorationEvent::Shop
    } else {
        ExplorationEvent::Altar
    }
}

/// Executable mirror of `spec_event_of_roll`.
pub fn event_of_roll(roll: u8) -> (e: ExplorationEvent)
    ensures
        e == spec_event_of_roll(roll),
{
    if roll == 1 {
        ExplorationEvent::Encounter
    } else if roll == 2 {
        ExplorationEvent::Pool
    } else if roll == 3 {
        ExplorationEvent::Chest
    } else if roll == 4 {
        ExplorationEvent::Shop
    } else {
        ExplorationEvent::Altar
    }
}

/// The description the host shows for an event. The core supplies only this
/// string; all rendering is the host's concern.
pub fn event_description(e: ExplorationEvent) -> (s: &'static str)
    ensures
        e == ExplorationEvent::Encounter ==> s@ == "An enemy blocks the path!"@,
        e == ExplorationEvent::Pool ==> s@ == "A restful pool soothes your wounds."@,
        e == ExplorationEvent::Chest ==> s@ == "You find a chest of coins."@,
        e == ExplorationEvent::Shop ==> s@ == "A wandering merchant waves you over."@,
        e == ExplorationEvent::Altar ==> s@ == "An ancient altar hums with power."@,
{
    match e {
        ExplorationEvent::Encounter => "An enemy blocks the path!",
        ExplorationEvent::Pool => "A restful pool soothes your wounds.",
        ExplorationEvent::Chest => "You find a chest of coins.",
        ExplorationEvent::Shop => "A wandering merchant waves you over.",
        ExplorationEvent::Altar => "An ancient altar hums with power.",
    }
}

/// Rolls exploration outcomes from a seedable random source. The source is
/// injected by seed so a session can be replayed; the verified rules hold for
/// every value the source can yield.
pub struct EventDispatcher {
    rng: rand::rngs::StdRng,
}

impl EventDispatcher {
    /// A dispatcher whose stream of rolls is determined by `seed`.
    pub fn new(seed: u64) -> EventDispatcher {
        EventDispatcher { rng: seeded_rng(seed) }
    }

    /// Draw the next event roll: always within the five-entry table.
    pub fn next_roll(&mut self) -> (r: u8)
        ensures
            EVENT_ROLL_MIN <= r <= EVENT_ROLL_MAX,
    {
        roll_in_range(&mut self.rng, EVENT_ROLL_MIN, EVENT_ROLL_MAX)
    }

    /// Draw the next exploration event.
    pub fn next_event(&mut self) -> (e: ExplorationEvent)
        ensures
            exists|r: u8| EVENT_ROLL_MIN <= r <= EVENT_ROLL_MAX && e == spec_event_of_roll(r),
    {
        let roll = self.next_roll();
        event_of_roll(roll)
    }
}

} // verus!
