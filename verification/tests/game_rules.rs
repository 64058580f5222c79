//! Behavioral tests for the game core: difficulty cycling, combat rounds,
//! the shop economy, exploration events, and the phase transitions of the
//! state machine.

use rpg_core::{
    CombatAction, CombatOutcome, EncounterEnemy, EventDispatcher, ExplorationEvent, GameError,
    GamePhase, GameStateMachine, PlayerProfile, Signal, SignalOutcome, ShopItem,
};

fn machine_in_phase(phase: GamePhase) -> GameStateMachine {
    let mut m = GameStateMachine::new(1);
    if phase == GamePhase::MainMenu {
        return m;
    }
    let r = m.handle_signal(Signal::StartGame);
    assert_eq!(r, Ok(SignalOutcome::Handled));
    match phase {
        GamePhase::Exploring => (),
        GamePhase::Fighting => m.apply_event(ExplorationEvent::Encounter),
        GamePhase::Shop => m.apply_event(ExplorationEvent::Shop),
        GamePhase::GameOver => {
            m.apply_event(ExplorationEvent::Encounter);
            m.player.health = 1;
            let r = m.handle_signal(Signal::Attack);
            assert_eq!(r, Ok(SignalOutcome::Handled));
            assert_eq!(m.phase, GamePhase::GameOver);
        }
        GamePhase::MainMenu => unreachable!(),
    }
    m
}

#[test]
fn change_difficulty_cycles() {
    let mut m = GameStateMachine::new(3);
    assert_eq!(m.config.difficulty, 0);
    assert_eq!(m.config.difficulty_multiplier_percent, 100);
    m.handle_signal(Signal::ChangeDifficulty).unwrap();
    assert_eq!(m.config.difficulty, 1);
    assert_eq!(m.config.difficulty_multiplier_percent, 150);
    m.handle_signal(Signal::ChangeDifficulty).unwrap();
    assert_eq!(m.config.difficulty, 2);
    assert_eq!(m.config.difficulty_multiplier_percent, 200);
    m.handle_signal(Signal::ChangeDifficulty).unwrap();
    assert_eq!(m.config.difficulty, 0);
    assert_eq!(m.config.difficulty_multiplier_percent, 100);
    assert_eq!(m.phase, GamePhase::MainMenu);
}

#[test]
fn attack_sequence_is_deterministic() {
    // Player damage 10 against enemy health 25: 25 -> 15 -> 5 -> dead on the
    // third strike, with no retaliation after the killing blow.
    let mut m = machine_in_phase(GamePhase::Fighting);
    let enemy = m.enemy.as_ref().expect("an enemy exists while fighting");
    assert_eq!(enemy.health, 25);
    assert_eq!(enemy.damage, 5);
    assert_eq!(enemy.coins_drop, 10);
    assert_eq!(m.player.damage, 10);

    m.handle_signal(Signal::Attack).unwrap();
    assert_eq!(m.enemy.as_ref().unwrap().health, 15);
    assert_eq!(m.player.health, 95);

    m.handle_signal(Signal::Attack).unwrap();
    assert_eq!(m.enemy.as_ref().unwrap().health, 5);
    assert_eq!(m.player.health, 90);

    m.handle_signal(Signal::Attack).unwrap();
    assert_eq!(m.player.health, 90, "no retaliation after the killing blow");
    assert!(m.enemy.is_none(), "the enemy is discarded on victory");
    assert_eq!(m.phase, GamePhase::Exploring);
}

#[test]
fn victory_pays_exactly_the_coin_drop_and_a_fixed_score() {
    let mut m = machine_in_phase(GamePhase::Fighting);
    let coins_before = m.player.coins;
    let score_before = m.player.score;
    let drop = m.enemy.as_ref().unwrap().coins_drop;
    let reward = m.enemy.as_ref().unwrap().max_health;
    for _ in 0..3 {
        m.handle_signal(Signal::Attack).unwrap();
    }
    assert_eq!(m.phase, GamePhase::Exploring);
    assert_eq!(m.player.coins, coins_before + drop);
    assert_eq!(m.player.score, score_before + reward);
}

#[test]
fn combat_health_stays_within_bounds() {
    let mut m = machine_in_phase(GamePhase::Fighting);
    let actions = [
        Signal::Attack,
        Signal::UsePotion,
        Signal::Attack,
        Signal::UsePotion,
        Signal::UsePotion,
        Signal::Attack,
    ];
    for s in actions {
        m.handle_signal(s).unwrap();
        assert!(m.player.health <= m.player.max_health);
        assert!(m.player.max_health >= 1);
        if let Some(e) = m.enemy.as_ref() {
            assert!(e.health <= e.max_health);
            assert!(e.max_health >= 1);
        }
        if m.phase != GamePhase::Fighting {
            break;
        }
    }
}

#[test]
fn use_potion_heals_and_clamps() {
    let mut p = PlayerProfile::new();
    p.health = 50;
    p.use_potion();
    assert_eq!(p.health, 75);
    p.health = 90;
    p.use_potion();
    assert_eq!(p.health, 100, "healing clamps at max_health");
}

#[test]
fn potion_in_combat_consumes_a_charge_and_enemy_retaliates() {
    let mut m = machine_in_phase(GamePhase::Fighting);
    m.player.health = 50;
    let charges = m.player.potion_charges;
    m.handle_signal(Signal::UsePotion).unwrap();
    // Healed by 25, then the enemy's retaliation for 5.
    assert_eq!(m.player.health, 70);
    assert_eq!(m.player.potion_charges, charges - 1);
    assert_eq!(m.phase, GamePhase::Fighting);
}

#[test]
fn potion_without_charges_changes_nothing() {
    let mut m = machine_in_phase(GamePhase::Fighting);
    m.player.potion_charges = 0;
    m.player.health = 50;
    m.handle_signal(Signal::UsePotion).unwrap();
    assert_eq!(m.player.health, 50);
    assert_eq!(m.player.potion_charges, 0);
    assert_eq!(m.phase, GamePhase::Fighting);
}

#[test]
fn flee_returns_to_exploring_without_reward() {
    let mut m = machine_in_phase(GamePhase::Fighting);
    let coins = m.player.coins;
    let score = m.player.score;
    let health = m.player.health;
    let r = m.handle_signal(Signal::Flee);
    assert_eq!(r, Ok(SignalOutcome::Handled));
    assert_eq!(m.phase, GamePhase::Exploring);
    assert!(m.enemy.is_none(), "the enemy is discarded on flight");
    assert_eq!(m.player.coins, coins);
    assert_eq!(m.player.score, score);
    assert_eq!(m.player.health, health);
}

#[test]
fn defeat_ends_the_run_only_without_cheats() {
    // Without cheats: a downed player means game over.
    let mut m = machine_in_phase(GamePhase::Fighting);
    m.player.health = 1;
    m.handle_signal(Signal::Attack).unwrap();
    assert_eq!(m.phase, GamePhase::GameOver);
    assert_eq!(m.player.health, 0);
    assert!(m.enemy.is_none());

    // With cheats: the player is revived and the fight goes on.
    let mut m = machine_in_phase(GamePhase::Fighting);
    m.config.cheats_enabled = true;
    m.player.health = 1;
    m.handle_signal(Signal::Attack).unwrap();
    assert_eq!(m.phase, GamePhase::Fighting);
    assert_eq!(m.player.health, m.player.max_health);
}

#[test]
fn purchase_with_too_few_coins_is_denied_and_free() {
    let mut m = machine_in_phase(GamePhase::Shop);
    m.player.coins = 50;
    // The health upgrade costs 60 at difficulty 0.
    let r = m.handle_signal(Signal::Purchase(ShopItem::HealthUpgrade));
    assert_eq!(r, Err(GameError::InsufficientFunds));
    assert_eq!(m.player.coins, 50);
    assert_eq!(m.player.max_health, 100);
    assert_eq!(m.phase, GamePhase::Shop);
}

#[test]
fn purchases_deduct_the_price_and_apply_one_stat() {
    let mut m = machine_in_phase(GamePhase::Shop);
    m.player.coins = 200;

    m.handle_signal(Signal::Purchase(ShopItem::HealthUpgrade)).unwrap();
    assert_eq!(m.player.coins, 140, "the health upgrade costs 60 at difficulty 0");
    assert_eq!(m.player.max_health, 110);
    assert_eq!(m.player.health, 100, "current health is unchanged");

    m.handle_signal(Signal::Purchase(ShopItem::PotionSizeUpgrade)).unwrap();
    assert_eq!(m.player.coins, 100, "the potion-size upgrade costs 40 at difficulty 0");
    assert_eq!(m.player.potion_size, 30);

    m.handle_signal(Signal::Purchase(ShopItem::DamageUpgrade)).unwrap();
    assert_eq!(m.player.coins, 20, "the damage upgrade costs 80 at difficulty 0");
    assert_eq!(m.player.damage, 15);

    m.handle_signal(Signal::Purchase(ShopItem::BuyPotionCharge)).unwrap();
    assert_eq!(m.player.coins, 0, "one potion charge costs 20 at difficulty 0");
    assert_eq!(m.player.potion_charges, 4);
}

#[test]
fn leaving_the_shop_returns_to_exploring() {
    let mut m = machine_in_phase(GamePhase::Shop);
    let r = m.handle_signal(Signal::LeaveShop);
    assert_eq!(r, Ok(SignalOutcome::Handled));
    assert_eq!(m.phase, GamePhase::Exploring);
}

#[test]
fn enemy_stats_scale_with_difficulty() {
    let mut m = GameStateMachine::new(9);
    m.handle_signal(Signal::ChangeDifficulty).unwrap();
    m.handle_signal(Signal::ChangeDifficulty).unwrap();
    assert_eq!(m.config.difficulty, 2);
    m.handle_signal(Signal::StartGame).unwrap();
    m.apply_event(ExplorationEvent::Encounter);
    let e = m.enemy.as_ref().unwrap();
    assert_eq!(e.health, 50, "base 25 scaled by 200 percent");
    assert_eq!(e.max_health, 50);
    assert_eq!(e.damage, 10, "base 5 scaled by 200 percent");
    assert_eq!(e.coins_drop, 20, "base 10 scaled by 200 percent");
}

#[test]
fn prices_scale_with_difficulty() {
    let mut m = GameStateMachine::new(9);
    m.handle_signal(Signal::ChangeDifficulty).unwrap();
    assert_eq!(m.config.difficulty, 1);
    m.handle_signal(Signal::StartGame).unwrap();
    m.apply_event(ExplorationEvent::Shop);
    m.player.coins = 200;
    m.handle_signal(Signal::Purchase(ShopItem::HealthUpgrade)).unwrap();
    assert_eq!(m.player.coins, 110, "the health upgrade costs 90 at difficulty 1");
}

#[test]
fn flavor_events_apply_their_fixed_effects() {
    let mut m = machine_in_phase(GamePhase::Exploring);
    m.player.health = 40;
    m.apply_event(ExplorationEvent::Pool);
    assert_eq!(m.player.health, 45, "a pool restores 5 health");
    assert_eq!(m.phase, GamePhase::Exploring);
    assert_eq!(m.last_event, Some(ExplorationEvent::Pool));

    m.apply_event(ExplorationEvent::Chest);
    assert_eq!(m.player.coins, 10, "a chest grants 10 coins");
    assert_eq!(m.phase, GamePhase::Exploring);

    m.apply_event(ExplorationEvent::Altar);
    assert_eq!(m.player.score, 5, "an altar grants 5 score");
    assert_eq!(m.phase, GamePhase::Exploring);

    m.player.health = 98;
    m.apply_event(ExplorationEvent::Pool);
    assert_eq!(m.player.health, 100, "pool healing clamps at max_health");
}

#[test]
fn encounter_event_enters_a_fight() {
    let mut m = machine_in_phase(GamePhase::Exploring);
    m.apply_event(ExplorationEvent::Encounter);
    assert_eq!(m.phase, GamePhase::Fighting);
    assert!(m.enemy.is_some());
    assert_eq!(m.last_event, Some(ExplorationEvent::Encounter));
}

#[test]
fn acknowledging_game_over_resets_the_player() {
    let mut m = machine_in_phase(GamePhase::GameOver);
    m.config.cheats_enabled = false;
    let difficulty = m.config.difficulty;
    let r = m.handle_signal(Signal::Acknowledge);
    assert_eq!(r, Ok(SignalOutcome::Handled));
    assert_eq!(m.phase, GamePhase::MainMenu);
    assert_eq!(m.player.name, "Hero");
    assert_eq!(m.player.health, 100);
    assert_eq!(m.player.max_health, 100);
    assert_eq!(m.player.damage, 10);
    assert_eq!(m.player.potion_size, 25);
    assert_eq!(m.player.coins, 0);
    assert_eq!(m.player.score, 0);
    assert!(m.enemy.is_none());
    assert_eq!(m.config.difficulty, difficulty, "the difficulty setting persists");
}

#[test]
fn unrecognized_signals_are_ignored() {
    let mut m = machine_in_phase(GamePhase::Exploring);
    let coins = m.player.coins;
    for s in [Signal::Attack, Signal::Acknowledge, Signal::LeaveShop, Signal::ExitGame] {
        let r = m.handle_signal(s);
        assert_eq!(r, Err(GameError::InvalidSignal));
        assert_eq!(m.phase, GamePhase::Exploring);
        assert_eq!(m.player.coins, coins);
    }

    let mut m = machine_in_phase(GamePhase::MainMenu);
    let r = m.handle_signal(Signal::Flee);
    assert_eq!(r, Err(GameError::InvalidSignal));
    assert_eq!(m.phase, GamePhase::MainMenu);
}

#[test]
fn exit_game_is_handed_to_the_host() {
    let mut m = machine_in_phase(GamePhase::MainMenu);
    let r = m.handle_signal(Signal::ExitGame);
    assert_eq!(r, Ok(SignalOutcome::ExitRequested));
    assert_eq!(m.phase, GamePhase::MainMenu, "the core keeps its state");
}

#[test]
fn seeded_dispatchers_repeat_the_same_roll_sequence() {
    let mut a = EventDispatcher::new(42);
    let mut b = EventDispatcher::new(42);
    let rolls_a: Vec<u8> = (0..64).map(|_| a.next_roll()).collect();
    let rolls_b: Vec<u8> = (0..64).map(|_| b.next_roll()).collect();
    assert_eq!(rolls_a, rolls_b, "a fixed seed fixes the outcome sequence");
    assert!(rolls_a.iter().all(|&r| (1..=5).contains(&r)));
    assert!(
        rolls_a.iter().any(|&r| r != rolls_a[0]),
        "the source does not return one constant outcome"
    );
}

#[test]
fn seeded_sessions_replay_identically() {
    let mut a = GameStateMachine::new(7);
    let mut b = GameStateMachine::new(7);
    a.handle_signal(Signal::StartGame).unwrap();
    b.handle_signal(Signal::StartGame).unwrap();
    for _ in 0..16 {
        if a.phase != GamePhase::Exploring {
            break;
        }
        let ea = a.explore_step();
        let eb = b.explore_step();
        assert_eq!(ea, eb, "the same seed yields the same event sequence");
        assert_eq!(a.phase, b.phase);
        assert_eq!(a.player.coins, b.player.coins);
        assert_eq!(a.player.score, b.player.score);
    }
}

#[test]
fn explore_step_rolls_only_table_events() {
    let mut m = machine_in_phase(GamePhase::Exploring);
    for _ in 0..32 {
        if m.phase != GamePhase::Exploring {
            break;
        }
        let e = m.explore_step();
        assert!(matches!(
            e,
            ExplorationEvent::Encounter
                | ExplorationEvent::Pool
                | ExplorationEvent::Chest
                | ExplorationEvent::Shop
                | ExplorationEvent::Altar
        ));
        assert_eq!(m.last_event, Some(e));
        assert!(matches!(
            m.phase,
            GamePhase::Exploring | GamePhase::Fighting | GamePhase::Shop
        ));
    }
}

#[test]
fn resolve_round_works_on_bare_profiles() {
    let mut p = PlayerProfile::new();
    let mut e = EncounterEnemy {
        name: String::from("Goblin"),
        health: 5,
        max_health: 25,
        damage: 5,
        coins_drop: 10,
    };
    let outcome = rpg_core::resolve_round(&mut p, &mut e, false, CombatAction::Attack);
    assert_eq!(outcome, CombatOutcome::Victory);
    assert_eq!(e.health, 0);
    assert_eq!(p.coins, 10);
    assert_eq!(p.score, 25);
}

#[test]
fn event_descriptions_are_supplied() {
    let mut m = machine_in_phase(GamePhase::Exploring);
    assert_eq!(m.last_event_description(), "All is quiet.");
    m.apply_event(ExplorationEvent::Chest);
    assert_eq!(m.last_event_description(), "You find a chest of coins.");
}
