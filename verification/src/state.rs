//! The top-level game state machine. It owns the phase, the player profile,
//! the configuration, the current enemy and the event source, and it is the
//! sole writer of the phase: every input signal and every exploration step
//! applies at most one phase transition.

use vstd::prelude::*;
use crate::combat::{spec_round, resolve_round, CombatAction, CombatOutcome};
use crate::config::{spec_multiplier_percent, spec_next_difficulty, GameConfig};
use crate::enemy::EncounterEnemy;
use crate::error::GameError;
use crate::events::{
    spec_event_of_roll, event_description, EventDispatcher, ExplorationEvent, ALTAR_SCORE_BONUS,
    CHEST_COIN_REWARD, EVENT_ROLL_MAX, EVENT_ROLL_MIN, POOL_HEAL_AMOUNT,
};
use crate::player::{sat_add, PlayerProfile};
use crate::shop::{spec_price, spec_purchase_applied, purchase, ShopItem};

verus! {

/// The mutually exclusive modes of the game. Exactly one is active at any
/// time; the player profile and the configuration persist across all of
/// them, while an enemy exists only while fighting.
#[derive(Clone, Copy, PartialEq, Eq, Structural, Debug, Hash)]
pub enum GamePhase {
    /// The entry phase: start a run, change the difficulty, or leave.
    MainMenu,
    /// Wandering between encounters; exploration events are rolled here.
    Exploring,
    /// A fight against the current enemy.
    Fighting,
    /// Trading coins for upgrades.
    Shop,
    /// The run is over; acknowledging returns to the main menu.
    GameOver,
}

/// One abstract input signal from the host; each user interaction yields
/// exactly one signal per tick.
#[derive(Clone, Copy, PartialEq, Eq, Structural, Debug)]
pub enum Signal {
    /// Begin a run (main menu only).
    StartGame,
    /// Advance the difficulty cyclically (main menu only, so a change can
    /// never retroactively alter an enemy already spawned).
    ChangeDifficulty,
    /// Ask the host to end the process (main menu only).
    ExitGame,
    /// Strike the enemy (fighting only).
    Attack,
    /// Drink a potion (fighting only).
    UsePotion,
    /// Abandon the fight (fighting only).
    Flee,
    /// Buy an item (shop only).
    Purchase(ShopItem),
    /// Return from the shop to exploring (shop only).
    LeaveShop,
    /// Acknowledge the end of a run (game over only).
    Acknowledge,
}

/// What a handled signal asks of the host.
#[derive(Clone, Copy, PartialEq, Eq, Structural, Debug)]
pub enum SignalOutcome {
    /// The signal was applied; play on.
    Handled,
    /// The host should terminate the process; the core keeps no state.
    ExitRequested,
}

/// The top-level controller: the active phase and everything that persists
/// across it.
pub struct GameStateMachine {
    /// The active phase.
    pub phase: GamePhase,
    /// The persistent player profile.
    pub player: PlayerProfile,
    /// The enemy of the current fight; `Some` exactly while fighting.
    pub enemy: Option<EncounterEnemy>,
    /// The session configuration.
    pub config: GameConfig,
    /// The outcome of the latest exploration step, for display.
    pub last_event: Option<ExplorationEvent>,
    /// The seedable source of exploration rolls.
    pub dispatcher: EventDispatcher,
}

/// How a main-menu signal changes the machine: starting moves to exploring,
/// the difficulty cycles in place, leaving is handed to the host, and
/// anything else is ignored as invalid. Nothing else moves.
pub open spec fn spec_menu_handled(
    pre: GameStateMachine,
    post: GameStateMachine,
    signal: Signal,
    r: Result<SignalOutcome, GameError>,
) -> bool {
    match signal {
        Signal::StartGame => {
            &&& post == (GameStateMachine { phase: GamePhase::Exploring, ..pre })
            &&& r == Result::<SignalOutcome, GameError>::Ok(SignalOutcome::Handled)
        },
        Signal::ChangeDifficulty => {
            &&& post == (GameStateMachine {
                config: GameConfig {
                    difficulty: spec_next_difficulty(pre.config.difficulty),
                    difficulty_multiplier_percent: spec_multiplier_percent(
                        spec_next_difficulty(pre.config.difficulty),
                    ),
                    ..pre.config
                },
                ..pre
            })
            &&& r == Result::<SignalOutcome, GameError>::Ok(SignalOutcome::Handled)
        },
        Signal::ExitGame => {
            &&& post == pre
            &&& r == Result::<SignalOutcome, GameError>::Ok(SignalOutcome::ExitRequested)
        },
        _ => {
            &&& post == pre
            &&& r == Result::<SignalOutcome, GameError>::Err(GameError::InvalidSignal)
        },
    }
}

/// How one combat action changes the machine: the round is resolved exactly
/// as `spec_round` states, and the outcome decides the next phase — the
/// fight goes on, victory and flight return to exploring, defeat ends the
/// run. The enemy exists afterwards exactly if the fight goes on.
pub open spec fn spec_fight_round_handled(
    pre: GameStateMachine,
    post: GameStateMachine,
    action: CombatAction,
    r: Result<SignalOutcome, GameError>,
) -> bool {
    let step = spec_round(pre.player, pre.enemy->Some_0, pre.config.cheats_enabled, action);
    &&& r == Result::<SignalOutcome, GameError>::Ok(SignalOutcome::Handled)
    &&& post == (GameStateMachine { phase: post.phase, player: step.0, enemy: post.enemy, ..pre })
    &&& match step.2 {
        CombatOutcome::Continue => post.phase == GamePhase::Fighting && post.enemy == Some(step.1),
        CombatOutcome::Victory => post.phase == GamePhase::Exploring && post.enemy is None,
        CombatOutcome::Fled => post.phase == GamePhase::Exploring && post.enemy is None,
        CombatOutcome::Defeat => post.phase == GamePhase::GameOver && post.enemy is None,
    }
}

/// How a fighting-phase signal changes the machine: the three combat actions
/// resolve a round; anything else is ignored as invalid.
pub open spec fn spec_fighting_handled(
    pre: GameStateMachine,
    post: GameStateMachine,
    signal: Signal,
    r: Result<SignalOutcome, GameError>,
) -> bool {
    match signal {
        Signal::Attack => spec_fight_round_handled(pre, post, CombatAction::Attack, r),
        Signal::UsePotion => spec_fight_round_handled(pre, post, CombatAction::UsePotion, r),
        Signal::Flee => spec_fight_round_handled(pre, post, CombatAction::Flee, r),
        _ => {
            &&& post == pre
            &&& r == Result::<SignalOutcome, GameError>::Err(GameError::InvalidSignal)
        },
    }
}

/// How a shop signal changes the machine: a purchase succeeds exactly when
/// the player affords the difficulty-scaled price (no partial purchases; a
/// denied one changes nothing), leaving returns to exploring, and anything
/// else is ignored as invalid.
pub open spec fn spec_shop_handled(
    pre: GameStateMachine,
    post: GameStateMachine,
    signal: Signal,
    r: Result<SignalOutcome, GameError>,
) -> bool {
    match signal {
        Signal::Purchase(item) => {
            let cost = spec_price(item, pre.config.difficulty_multiplier_percent);
            if pre.player.coins >= cost {
                &&& post == (GameStateMachine {
                    player: spec_purchase_applied(pre.player, item, cost),
                    ..pre
                })
                &&& r == Result::<SignalOutcome, GameError>::Ok(SignalOutcome::Handled)
            } else {
                &&& post == pre
                &&& r == Result::<SignalOutcome, GameError>::Err(GameError::InsufficientFunds)
            }
        },
        Signal::LeaveShop => {
            &&& post == (GameStateMachine { phase: GamePhase::Exploring, ..pre })
            &&& r == Result::<SignalOutcome, GameError>::Ok(SignalOutcome::Handled)
        },
        _ => {
            &&& post == pre
            &&& r == Result::<SignalOutcome, GameError>::Err(GameError::InvalidSignal)
        },
    }
}

/// How a game-over signal changes the machine: acknowledging starts a new
/// run — the player is reset to the session defaults, the enemy and the last
/// event are cleared, and the configuration (the chosen difficulty among it)
/// persists. Anything else is ignored as invalid.
pub open spec fn spec_game_over_handled(
    pre: GameStateMachine,
    post: GameStateMachine,
    signal: Signal,
    r: Result<SignalOutcome, GameError>,
) -> bool {
    match signal {
        Signal::Acknowledge => {
            &&& post.phase == GamePhase::MainMenu
            &&& post.player.spec_is_default()
            &&& post.enemy is None
            &&& post.last_event is None
            &&& post.config == pre.config
            &&& post.dispatcher == pre.dispatcher
            &&& r == Result::<SignalOutcome, GameError>::Ok(SignalOutcome::Handled)
        },
        _ => {
            &&& post == pre
            &&& r == Result::<SignalOutcome, GameError>::Err(GameError::InvalidSignal)
        },
    }
}

/// How one exploration event changes the machine (the event source aside):
/// an encounter spawns a difficulty-scaled enemy and moves to fighting, a
/// merchant moves to the shop, and the three flavor events apply their small
/// fixed effect and stay in place. The event is recorded for display either
/// way.
pub open spec fn spec_event_applied(
    pre: GameStateMachine,
    post: GameStateMachine,
    e: ExplorationEvent,
) -> bool {
    match e {
        ExplorationEvent::Encounter => {
            &&& post == (GameStateMachine {
                phase: GamePhase::Fighting,
                enemy: post.enemy,
                last_event: Some(e),
                ..pre
            })
            &&& (post.enemy matches Some(en) && en.wf() && en.spec_spawned(
                pre.config.difficulty_multiplier_percent,
            ))
        },
        ExplorationEvent::Pool => post == (GameStateMachine {
            player: PlayerProfile {
                health: pre.player.spec_healed(POOL_HEAL_AMOUNT),
                ..pre.player
            },
            last_event: Some(e),
            ..pre
        }),
        ExplorationEvent::Chest => post == (GameStateMachine {
            player: PlayerProfile {
                coins: sat_add(pre.player.coins, CHEST_COIN_REWARD),
                ..pre.player
            },
            last_event: Some(e),
            ..pre
        }),
        ExplorationEvent::Shop => post == (GameStateMachine {
            phase: GamePhase::Shop,
            last_event: Some(e),
            ..pre
        }),
        ExplorationEvent::Altar => post == (GameStateMachine {
            player: PlayerProfile {
                score: sat_add(pre.player.score, ALTAR_SCORE_BONUS),
                ..pre.player
            },
            last_event: Some(e),
            ..pre
        }),
    }
}

impl GameStateMachine {
    /// Well-formedness: the persistent data is well-formed, and an enemy
    /// exists exactly while fighting — a fight without an enemy is prevented
    /// by construction.
    pub open spec fn wf(self) -> bool {
        &&& self.player.wf()
        &&& self.config.wf()
        &&& (self.phase == GamePhase::Fighting <==> self.enemy is Some)
        &&& (self.enemy matches Some(e) ==> e.wf())
    }

    /// A fresh session: main menu, default player and configuration, no
    /// enemy, no event yet, and an event source determined by `seed`.
    pub fn new(seed: u64) -> (m: GameStateMachine)
        ensures
            m.wf(),
            m.phase == GamePhase::MainMenu,
            m.player.spec_is_default(),
            (m.enemy is None),
            m.config.wf(),
            m.config.difficulty == 0,
            !m.config.cheats_enabled,
            (m.last_event is None),
    {
        GameStateMachine {
            phase: GamePhase::MainMenu,
            player: PlayerProfile::new(),
            enemy: None,
            config: GameConfig::new(),
            last_event: None,
            dispatcher: EventDispatcher::new(seed),
        }
    }

    /// Handle one input signal: apply at most one phase transition and
    /// exactly the state change the current phase prescribes for it. A
    /// signal that the phase does not recognize is ignored with
    /// `InvalidSignal` and changes nothing. The run can end here only
    /// through a combat defeat with cheats off, and fleeing is always free.
    pub fn handle_signal(&mut self, signal: Signal) -> (r: Result<SignalOutcome, GameError>)
        requires
            old(self).wf(),
        ensures
            final(self).wf(),
            old(self).phase == GamePhase::MainMenu ==> spec_menu_handled(
                *old(self),
                *final(self),
                signal,
                r,
            ),
            old(self).phase == GamePhase::Exploring ==> *final(self) == *old(self) && r
                == Result::<SignalOutcome, GameError>::Err(GameError::InvalidSignal),
            old(self).phase == GamePhase::Fighting ==> spec_fighting_handled(
                *old(self),
                *final(self),
                signal,
                r,
            ),
            old(self).phase == GamePhase::Shop ==> spec_shop_handled(
                *old(self),
                *final(self),
                signal,
                r,
            ),
            old(self).phase == GamePhase::GameOver ==> spec_game_over_handled(
                *old(self),
                *final(self),
                signal,
                r,
            ),
            (final(self).phase == GamePhase::GameOver && old(self).phase != GamePhase::GameOver)
                ==> final(self).player.health == 0 && !old(self).config.cheats_enabled,
            (old(self).phase == GamePhase::Fighting && signal == Signal::Flee) ==> final(self).phase
                == GamePhase::Exploring && (final(self).enemy is None) && final(self).player == old(
                self,
            ).player,
    {
        match self.phase {
            GamePhase::MainMenu => match signal {
                Signal::StartGame => {
                    self.phase = GamePhase::Exploring;
                    Ok(SignalOutcome::Handled)
                },
                Signal::ChangeDifficulty => {
                    self.config.change_difficulty();
                    Ok(SignalOutcome::Handled)
                },
                Signal::ExitGame => Ok(SignalOutcome::ExitRequested),
                _ => Err(GameError::InvalidSignal),
            },
            GamePhase::Exploring => Err(GameError::InvalidSignal),
            GamePhase::Fighting => match signal {
                Signal::Attack => self.fight_round(CombatAction::Attack),
                Signal::UsePotion => self.fight_round(CombatAction::UsePotion),
                Signal::Flee => self.fight_round(CombatAction::Flee),
                _ => Err(GameError::InvalidSignal),
            },
            GamePhase::Shop => match signal {
                Signal::Purchase(item) => {
                    match purchase(&mut self.player, &self.config, item) {
                        Ok(()) => Ok(SignalOutcome::Handled),
                        Err(e) => Err(e),
                    }
                },
                Signal::LeaveShop => {
                    self.phase = GamePhase::Exploring;
                    Ok(SignalOutcome::Handled)
                },
                _ => Err(GameError::InvalidSignal),
            },
            GamePhase::GameOver => match signal {
                Signal::Acknowledge => {
                    self.player = PlayerProfile::new();
                    self.enemy = None;
                    self.last_event = None;
                    self.phase = GamePhase::MainMenu;
                    Ok(SignalOutcome::Handled)
                },
                _ => Err(GameError::InvalidSignal),
            },
        }
    }

    /// Resolve one combat round and apply the transition its outcome asks
    /// for: none while the fight continues, back to exploring on victory or
    /// flight, to game over on defeat. The enemy is discarded whenever the
    /// fight ends.
    fn fight_round(&mut self, action: CombatAction) -> (r: Result<SignalOutcome, GameError>)
        requires
            old(self).wf(),
            old(self).phase == GamePhase::Fighting,
        ensures
            final(self).wf(),
            spec_fight_round_handled(*old(self), *final(self), action, r),
    {
        let cheats = self.config.cheats_enabled;
        let mut enemy = self.enemy.take().unwrap();
        let outcome = resolve_round(&mut self.player, &mut enemy, cheats, action);
        match outcome {
            CombatOutcome::Continue => {
                self.enemy = Some(enemy);
            },
            CombatOutcome::Victory => {
                self.enemy = None;
                self.phase = GamePhase::Exploring;
            },
            CombatOutcome::Fled => {
                self.enemy = None;
                self.phase = GamePhase::Exploring;
            },
            CombatOutcome::Defeat => {
                self.enemy = None;
                self.phase = GamePhase::GameOver;
            },
        }
        Ok(SignalOutcome::Handled)
    }

    /// Apply one exploration event to the machine: spawn a fight, open the
    /// shop, or apply a flavor effect, exactly as `spec_event_applied`
    /// states.
    pub fn apply_event(&mut self, e: ExplorationEvent)
        requires
            old(self).wf(),
            old(self).phase == GamePhase::Exploring,
        ensures
            final(self).wf(),
            spec_event_applied(*old(self), *final(self), e),
    {
        self.last_event = Some(e);
        match e {
            ExplorationEvent::Encounter => {
                self.enemy = Some(EncounterEnemy::spawn(&self.config));
                self.phase = GamePhase::Fighting;
            },
            ExplorationEvent::Pool => {
                self.player.heal(POOL_HEAL_AMOUNT);
            },
            ExplorationEvent::Chest => {
                self.player.gain_coins(CHEST_COIN_REWARD);
            },
            ExplorationEvent::Shop => {
                self.phase = GamePhase::Shop;
            },
            ExplorationEvent::Altar => {
                self.player.gain_score(ALTAR_SCORE_BONUS);
            },
        }
    }

    /// One exploration step: roll an event from the seeded source and apply
    /// it. The roll is opaque, so the contract promises that some event of
    /// the five-entry table was applied — every game rule holds whatever the
    /// source yields. At most one phase transition happens.
    pub fn explore_step(&mut self) -> (e: ExplorationEvent)
        requires
            old(self).wf(),
            old(self).phase == GamePhase::Exploring,
        ensures
            final(self).wf(),
            (exists|roll: u8|
                EVENT_ROLL_MIN <= roll <= EVENT_ROLL_MAX && e == spec_event_of_roll(roll)),
            spec_event_applied(
                GameStateMachine { dispatcher: final(self).dispatcher, ..*old(self) },
                *final(self),
                e,
            ),
    {
        let e = self.dispatcher.next_event();
        self.apply_event(e);
        e
    }

    /// The description the host shows for the latest exploration event, or
    /// an idle line when none happened yet. This is the only display text
    /// the core supplies.
    pub fn last_event_description(&self) -> (s: &'static str)
        ensures
            (self.last_event is None) ==> s@ == "All is quiet."@,
            self.last_event == Some(ExplorationEvent::Encounter) ==> s@
                == "An enemy blocks the path!"@,
            self.last_event == Some(ExplorationEvent::Pool) ==> s@
                == "A restful pool soothes your wounds."@,
            self.last_event == Some(ExplorationEvent::Chest) ==> s@
                == "You find a chest of coins."@,
            self.last_event == Some(ExplorationEvent::Shop) ==> s@
                == "A wandering merchant waves you over."@,
            self.last_event == Some(ExplorationEvent::Altar) ==> s@
                == "An ancient altar hums with power."@,
    {
        match self.last_event {
            None => "All is quiet.",
            Some(e) => event_description(e),
        }
    }
}

/// Victory pays out exactly at the machine level: a handled attack whose
/// blow defeats the enemy moves the game back to exploring, discards the
/// enemy, and adds precisely the enemy's coin drop to the coins and the
/// enemy's fixed, non-negative score reward to the score — the exact sums
/// wherever they fit in `u32`, saturating only at that boundary.
pub proof fn lemma_victory_transition(
    pre: GameStateMachine,
    post: GameStateMachine,
    r: Result<SignalOutcome, GameError>,
)
    requires
        pre.wf(),
        pre.phase == GamePhase::Fighting,
        pre.enemy->Some_0.health <= pre.player.damage,
        spec_fight_round_handled(pre, post, CombatAction::Attack, r),
    ensures
        post.phase == GamePhase::Exploring,
        (post.enemy is None),
        post.player.coins == sat_add(pre.player.coins, pre.enemy->Some_0.coins_drop),
        post.player.score == sat_add(pre.player.score, pre.enemy->Some_0.spec_score_reward()),
        pre.player.coins + pre.enemy->Some_0.coins_drop <= u32::MAX ==> post.player.coins
            == pre.player.coins + pre.enemy->Some_0.coins_drop,
        pre.player.score + pre.enemy->Some_0.spec_score_reward() <= u32::MAX ==> post.player.score
            == pre.player.score + pre.enemy->Some_0.spec_score_reward(),
        post.player.score >= pre.player.score,
        post.player.health == pre.player.health,
{
    crate::combat::lemma_victory_reward(
        pre.player,
        pre.enemy->Some_0,
        pre.config.cheats_enabled,
        CombatAction::Attack,
    );
}

} // verus!
