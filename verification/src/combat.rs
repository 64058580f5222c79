//! Turn-based combat: each round the player acts (attack, drink a potion, or
//! flee) and, unless the fight already ended, the enemy retaliates. The round
//! order is always player-action-then-retaliation, with no simultaneous
//! resolution, so combat is deterministic and replayable given the actions
//! and the starting stats. All health arithmetic is clamped to
//! `0 ..= max_health`.

use vstd::prelude::*;
use crate::enemy::EncounterEnemy;
use crate::player::{PlayerProfile, sat_add, sat_sub};

verus! {

/// What the player does in one combat round.
#[derive(Clone, Copy, PartialEq, Eq, Structural, Debug)]
pub enum CombatAction {
    /// Strike the enemy; on a kill the fight ends in victory with no
    /// retaliation, otherwise the enemy strikes back.
    Attack,
    /// Drink a potion (needs a charge); the enemy still retaliates.
    UsePotion,
    /// End the fight at once, with no reward and no retaliation.
    Flee,
}

/// How a combat round left the fight.
#[derive(Clone, Copy, PartialEq, Eq, Structural, Debug)]
pub enum CombatOutcome {
    /// The fight goes on.
    Continue,
    /// The enemy is dead; the player collected the reward.
    Victory,
    /// The player is down and cheats are off; the run is over.
    Defeat,
    /// The player fled; the fight is over with no reward.
    Fled,
}

/// The enemy's counterstrike: the player takes the enemy's damage, clamped
/// at 0 health. A downed player means defeat, unless cheats are on, in which
/// case the player is revived to full health and the fight goes on.
pub open spec fn spec_retaliate(p: PlayerProfile, e: EncounterEnemy, cheats: bool) -> (
    PlayerProfile,
    EncounterEnemy,
    CombatOutcome,
) {
    let hurt = PlayerProfile { health: sat_sub(p.health, e.damage), ..p };
    if hurt.health == 0 {
        if cheats {
            (PlayerProfile { health: p.max_health, ..p }, e, CombatOutcome::Continue)
        } else {
            (hurt, e, CombatOutcome::Defeat)
        }
    } else {
        (hurt, e, CombatOutcome::Continue)
    }
}

/// An attack round: the enemy takes the player's damage, clamped at 0
/// health. A dead enemy means victory — the player gains exactly the enemy's
/// coin drop and a score reward fixed by the enemy, and there is no
/// retaliation after the killing blow. Otherwise the enemy retaliates.
pub open spec fn spec_attack(p: PlayerProfile, e: EncounterEnemy, cheats: bool) -> (
    PlayerProfile,
    EncounterEnemy,
    CombatOutcome,
) {
    let struck = EncounterEnemy { health: sat_sub(e.health, p.damage), ..e };
    if struck.health == 0 {
        let rewarded = PlayerProfile {
            coins: sat_add(p.coins, e.coins_drop),
            score: sat_add(p.score, e.spec_score_reward()),
            ..p
        };
        (rewarded, struck, CombatOutcome::Victory)
    } else {
        spec_retaliate(p, struck, cheats)
    }
}

/// A potion round: with no charge left nothing happens at all (the attempt
/// is rejected and costs no turn). With a charge, one charge is consumed,
/// health is restored by `potion_size` clamped at `max_health`, and the
/// enemy retaliates as usual.
pub open spec fn spec_use_potion(p: PlayerProfile, e: EncounterEnemy, cheats: bool) -> (
    PlayerProfile,
    EncounterEnemy,
    CombatOutcome,
) {
    if p.potion_charges == 0 {
        (p, e, CombatOutcome::Continue)
    } else {
        let healed = PlayerProfile {
            potion_charges: (p.potion_charges - 1) as u32,
            health: p.spec_health_after_potion(),
            ..p
        };
        spec_retaliate(healed, e, cheats)
    }
}

/// One full combat round under `cheats`: the player's action, then the
/// retaliation where one is due. Fleeing changes no stat and ends the fight.
pub open spec fn spec_round(p: PlayerProfile, e: EncounterEnemy, cheats: bool, a: CombatAction) -> (
    PlayerProfile,
    EncounterEnemy,
    CombatOutcome,
) {
    match a {
        CombatAction::Attack => spec_attack(p, e, cheats),
        CombatAction::UsePotion => spec_use_potion(p, e, cheats),
        CombatAction::Flee => (p, e, CombatOutcome::Fled),
    }
}

/// Resolve one combat round. The result is exactly `spec_round` of the
/// inputs: combat is a pure function of the action and the starting stats.
pub fn resolve_round(
    player: &mut PlayerProfile,
    enemy: &mut EncounterEnemy,
    cheats: bool,
    action: CombatAction,
) -> (outcome: CombatOutcome)
    requires
        old(player).wf(),
        old(enemy).wf(),
    ensures
        final(player).wf(),
        final(enemy).wf(),
        *final(player) == spec_round(*old(player), *old(enemy), cheats, action).0,
        *final(enemy) == spec_round(*old(player), *old(enemy), cheats, action).1,
        outcome == spec_round(*old(player), *old(enemy), cheats, action).2,
{
    match action {
        CombatAction::Attack => {
            let strike = player.damage;
            enemy.take_damage(strike);
            if enemy.health == 0 {
                let coins = enemy.coins_drop;
                let reward = enemy.score_reward();
                player.gain_coins(coins);
                player.gain_score(reward);
                CombatOutcome::Victory
            } else {
                retaliate(player, enemy, cheats)
            }
        },
        CombatAction::UsePotion => {
            if player.potion_charges == 0 {
                CombatOutcome::Continue
            } else {
                player.potion_charges = player.potion_charges - 1;
                player.use_potion();
                retaliate(player, enemy, cheats)
            }
        },
        CombatAction::Flee => CombatOutcome::Fled,
    }
}

/// The enemy's counterstrike, as `spec_retaliate` states it.
fn retaliate(player: &mut PlayerProfile, enemy: &EncounterEnemy, cheats: bool) -> (outcome:
    CombatOutcome)
    requires
        old(player).wf(),
        enemy.wf(),
    ensures
        final(player).wf(),
        *final(player) == spec_retaliate(*old(player), *enemy, cheats).0,
        outcome == spec_retaliate(*old(player), *enemy, cheats).2,
{
    let hit = enemy.damage;
    player.take_damage(hit);
    if player.health == 0 {
        if cheats {
            let ceiling = player.max_health;
            player.health = ceiling;
            CombatOutcome::Continue
        } else {
            CombatOutcome::Defeat
        }
    } else {
        CombatOutcome::Continue
    }
}

/// The state a whole sequence of rounds leads to: rounds are applied in
/// order until one ends the fight; actions after the end fall away. The
/// third component reports how the fight stands after the sequence.
pub open spec fn spec_run_rounds(
    p: PlayerProfile,
    e: EncounterEnemy,
    cheats: bool,
    actions: Seq<CombatAction>,
) -> (PlayerProfile, EncounterEnemy, CombatOutcome)
    decreases actions.len(),
{
    if actions.len() == 0 {
        (p, e, CombatOutcome::Continue)
    } else {
        let step = spec_round(p, e, cheats, actions[0]);
        if step.2 != CombatOutcome::Continue {
            step
        } else {
            spec_run_rounds(step.0, step.1, cheats, actions.drop_first())
        }
    }
}

/// One round keeps both combatants within their health bounds: after it,
/// `0 <= health <= max_health` holds of player and enemy alike, and neither
/// health ceiling moved.
pub proof fn lemma_round_preserves_bounds(
    p: PlayerProfile,
    e: EncounterEnemy,
    cheats: bool,
    a: CombatAction,
)
    requires
        p.wf(),
        e.wf(),
    ensures
        spec_round(p, e, cheats, a).0.wf(),
        spec_round(p, e, cheats, a).1.wf(),
        spec_round(p, e, cheats, a).0.max_health == p.max_health,
        spec_round(p, e, cheats, a).1.max_health == e.max_health,
{
}

/// Every combat sequence keeps both combatants within their health bounds:
/// whatever actions are taken, `0 <= health <= max_health` holds of player
/// and enemy after every round.
pub proof fn lemma_rounds_preserve_bounds(
    p: PlayerProfile,
    e: EncounterEnemy,
    cheats: bool,
    actions: Seq<CombatAction>,
)
    requires
        p.wf(),
        e.wf(),
    ensures
        spec_run_rounds(p, e, cheats, actions).0.wf(),
        spec_run_rounds(p, e, cheats, actions).1.wf(),
    decreases actions.len(),
{
    if actions.len() > 0 {
        let step = spec_round(p, e, cheats, actions[0]);
        lemma_round_preserves_bounds(p, e, cheats, actions[0]);
        if step.2 == CombatOutcome::Continue {
            lemma_rounds_preserve_bounds(step.0, step.1, cheats, actions.drop_first());
        }
    }
}

/// Victory pays out exactly: the winning round adds precisely the enemy's
/// coin drop to the coins and the enemy's fixed, non-negative score reward
/// to the score, and touches no other player stat. The additions saturate
/// only at the `u32` boundary: wherever the sum fits, the increment is the
/// exact sum.
pub proof fn lemma_victory_reward(
    p: PlayerProfile,
    e: EncounterEnemy,
    cheats: bool,
    a: CombatAction,
)
    requires
        p.wf(),
        e.wf(),
        spec_round(p, e, cheats, a).2 == CombatOutcome::Victory,
    ensures
        spec_round(p, e, cheats, a).0.coins == sat_add(p.coins, e.coins_drop),
        spec_round(p, e, cheats, a).0.score == sat_add(p.score, e.spec_score_reward()),
        p.coins + e.coins_drop <= u32::MAX ==> spec_round(p, e, cheats, a).0.coins == p.coins
            + e.coins_drop,
        p.score + e.spec_score_reward() <= u32::MAX ==> spec_round(p, e, cheats, a).0.score
            == p.score + e.spec_score_reward(),
        spec_round(p, e, cheats, a).0.score >= p.score,
        spec_round(p, e, cheats, a).0 == (PlayerProfile {
            coins: spec_round(p, e, cheats, a).0.coins,
            score: spec_round(p, e, cheats, a).0.score,
            ..p
        }),
{
}

/// Fleeing is free: the round ends the fight and changes no stat of either
/// side.
pub proof fn lemma_flee_changes_nothing(p: PlayerProfile, e: EncounterEnemy, cheats: bool)
    ensures
        spec_round(p, e, cheats, CombatAction::Flee) == (p, e, CombatOutcome::Fled),
{
}

/// Defeat comes only with the player down and cheats off: a round ends in
/// defeat exactly when it leaves the player at 0 health while
/// `cheats == false`.
pub proof fn lemma_defeat_needs_downed_player(
    p: PlayerProfile,
    e: EncounterEnemy,
    cheats: bool,
    a: CombatAction,
)
    requires
        p.wf(),
        e.wf(),
    ensures
        spec_round(p, e, cheats, a).2 == CombatOutcome::Defeat ==> !cheats && spec_round(
            p,
            e,
            cheats,
            a,
        ).0.health == 0,
{
}

} // verus!
