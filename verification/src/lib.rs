//! Core rules of a turn-based menu RPG: a phase state machine driving a
//! persistent player profile, per-encounter enemies, random exploration
//! events, turn-based combat, and a coin/score economy modulated by a
//! difficulty setting. The host UI layer is out of scope: it delivers
//! abstract input signals and renders read-only snapshots.

mod combat;
mod config;
mod enemy;
mod error;
mod events;
mod player;
mod rng;
mod scale;
mod shop;
mod state;

pub use combat::{resolve_round, CombatAction, CombatOutcome};
pub use config::GameConfig;
pub use enemy::EncounterEnemy;
pub use error::GameError;
pub use events::{EventDispatcher, ExplorationEvent};
pub use player::PlayerProfile;
pub use shop::ShopItem;
pub use state::{GamePhase, GameStateMachine, Signal, SignalOutcome};
