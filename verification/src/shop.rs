//! The shop: spends coins for stat upgrades or potion charges while the game
//! is in the shop phase. Prices scale directly with the difficulty
//! multiplier, so harder settings make upgrades dearer; the amounts and base
//! prices are fixed, documented policy values.

use vstd::prelude::*;
use crate::config::GameConfig;
use crate::error::GameError;
use crate::player::{PlayerProfile, sat_add};
use crate::scale::{spec_scaled, scaled_by_percent};

verus! {

/// Base price of a health-ceiling upgrade, before difficulty scaling.
pub const HEALTH_UPGRADE_BASE_PRICE: u32 = 60;

/// Base price of a damage upgrade, before difficulty scaling.
pub const DAMAGE_UPGRADE_BASE_PRICE: u32 = 80;

/// Base price of a potion-size upgrade, before difficulty scaling.
pub const POTION_SIZE_UPGRADE_BASE_PRICE: u32 = 40;

/// Base price of one potion charge, before difficulty scaling.
pub const POTION_CHARGE_BASE_PRICE: u32 = 20;

/// Health-ceiling points one upgrade grants.
pub const HEALTH_UPGRADE_AMOUNT: u32 = 10;

/// Attack-power points one upgrade grants.
pub const DAMAGE_UPGRADE_AMOUNT: u32 = 5;

/// Potion-size points one upgrade grants.
pub const POTION_SIZE_UPGRADE_AMOUNT: u32 = 5;

/// What the shop sells.
#[derive(Clone, Copy, PartialEq, Eq, Structural, Debug)]
pub enum ShopItem {
    /// Raises the player's health ceiling; current health is unchanged.
    HealthUpgrade,
    /// Raises the player's base attack power.
    DamageUpgrade,
    /// Raises the health restored per potion use.
    PotionSizeUpgrade,
    /// Adds one potion charge to the player's inventory.
    BuyPotionCharge,
}

/// The price of an item before difficulty scaling.
pub open spec fn spec_base_price(item: ShopItem) -> u32 {
    match item {
        ShopItem::HealthUpgrade => HEALTH_UPGRADE_BASE_PRICE,
        ShopItem::DamageUpgrade => DAMAGE_UPGRADE_BASE_PRICE,
        ShopItem::PotionSizeUpgrade => POTION_SIZE_UPGRADE_BASE_PRICE,
        ShopItem::BuyPotionCharge => POTION_CHARGE_BASE_PRICE,
    }
}

/// The price of an item under difficulty multiplier `percent`: the base
/// price scaled directly by the multiplier.
pub open spec fn spec_price(item: ShopItem, percent: u32) -> u32 {
    spec_scaled(spec_base_price(item), percent)
}

/// The profile after a paid purchase of `item` at `price`: the price is
/// deducted and exactly one stat is incremented (saturating). No partial
/// purchases exist.
pub open spec fn spec_purchase_applied(p: PlayerProfile, item: ShopItem, price: u32) -> PlayerProfile {
    let paid = PlayerProfile { coins: (p.coins - price) as u32, ..p };
    match item {
        ShopItem::HealthUpgrade => PlayerProfile {
            max_health: sat_add(paid.max_health, HEALTH_UPGRADE_AMOUNT),
            ..paid
        },
        ShopItem::DamageUpgrade => PlayerProfile {
            damage: sat_add(paid.damage, DAMAGE_UPGRADE_AMOUNT),
            ..paid
        },
        ShopItem::PotionSizeUpgrade => PlayerProfile {
            potion_size: sat_add(paid.potion_size, POTION_SIZE_UPGRADE_AMOUNT),
            ..paid
        },
        ShopItem::BuyPotionCharge => PlayerProfile {
            potion_charges: sat_add(paid.potion_charges, 1),
            ..paid
        },
    }
}

/// Executable price lookup under the current configuration.
pub fn price(item: ShopItem, config: &GameConfig) -> (r: u32)
    requires
        config.wf(),
    ensures
        r == spec_price(item, config.difficulty_multiplier_percent),
{
    let base = match item {
        ShopItem::HealthUpgrade => HEALTH_UPGRADE_BASE_PRICE,
        ShopItem::DamageUpgrade => DAMAGE_UPGRADE_BASE_PRICE,
        ShopItem::PotionSizeUpgrade => POTION_SIZE_UPGRADE_BASE_PRICE,
        ShopItem::BuyPotionCharge => POTION_CHARGE_BASE_PRICE,
    };
    let percent = config.difficulty_multiplier_percent;
    assert(base * percent <= u32::MAX) by (nonlinear_arith)
        requires
            base <= 80,
            percent <= 200,
    ;
    scaled_by_percent(base, percent)
}

/// Buy `item` for the player. Succeeds exactly when the player can afford
/// the difficulty-scaled price: the price is deducted and the stat applied.
/// Otherwise `InsufficientFunds` is reported and nothing changes.
pub fn purchase(player: &mut PlayerProfile, config: &GameConfig, item: ShopItem) -> (r: Result<
    (),
    GameError,
>)
    requires
        old(player).wf(),
        config.wf(),
    ensures
        final(player).wf(),
        ({
            let cost = spec_price(item, config.difficulty_multiplier_percent);
            if old(player).coins >= cost {
                &&& r is Ok
                &&& *final(player) == spec_purchase_applied(*old(player), item, cost)
            } else {
                &&& r == Result::<(), GameError>::Err(GameError::InsufficientFunds)
                &&& *final(player) == *old(player)
            }
        }),
{
    let cost = price(item, config);
    if player.coins < cost {
        return Err(GameError::InsufficientFunds);
    }
    player.coins = player.coins - cost;
    match item {
        ShopItem::HealthUpgrade => {
            self::raise_max_health(player);
        },
        ShopItem::DamageUpgrade => {
            player.damage = player.damage.saturating_add(DAMAGE_UPGRADE_AMOUNT);
        },
        ShopItem::PotionSizeUpgrade => {
            player.potion_size = player.potion_size.saturating_add(POTION_SIZE_UPGRADE_AMOUNT);
        },
        ShopItem::BuyPotionCharge => {
            player.potion_charges = player.potion_charges.saturating_add(1);
        },
    }
    Ok(())
}

/// Raise the player's health ceiling by one upgrade step; current health is
/// unchanged and stays within the (now larger) ceiling.
fn raise_max_health(player: &mut PlayerProfile)
    requires
        old(player).wf(),
    ensures
        final(player).wf(),
        *final(player) == (PlayerProfile {
            max_health: sat_add(old(player).max_health, HEALTH_UPGRADE_AMOUNT),
            ..*old(player)
        }),
{
    player.max_health = player.max_health.saturating_add(HEALTH_UPGRADE_AMOUNT);
}

} // verus!
