//! The item effect resolver: a pure mapping from an item kind to a
//! player-state mutation, and the drop decision an enemy kill makes.

use vstd::prelude::*;
use crate::player::{Player, MIN_SHOOT_INTERVAL_MS};

verus! {

/// Chance, out of 100, that a killed enemy drops an item.
pub const ITEM_DROP_CHANCE: i64 = 30;

/// Half-extent of an item's pickup box, in milli-pixels.
pub const ITEM_HALF_EXTENT: i64 = 10_000;

#[derive(Clone, Copy, PartialEq, Eq, Structural, Debug)]
pub enum ItemType {
    RapidFire,
    PiercingShot,
    Heal,
}

/// The player after picking up an item:
/// - rapid fire halves the shoot interval (stacking multiplicatively,
///   floored at one millisecond so the cadence stays positive);
/// - a piercing shot sets the piercing flag;
/// - a heal restores one hit point, clamped to the maximum.
pub open spec fn item_applied(p: Player, item: ItemType) -> Player {
    match item {
        ItemType::RapidFire => Player {
            shoot_interval_ms: if p.shoot_interval_ms / 2 >= MIN_SHOOT_INTERVAL_MS {
                (p.shoot_interval_ms / 2) as u64
            } else {
                MIN_SHOOT_INTERVAL_MS
            },
            ..p
        },
        ItemType::PiercingShot => Player { piercing: true, ..p },
        ItemType::Heal => Player {
            hp: if p.hp + 1 <= p.max_hp {
                (p.hp + 1) as i32
            } else {
                p.max_hp
            },
            ..p
        },
    }
}

/// Mutates the player state as the picked-up item dictates.
pub fn apply_item_effect(player: &mut Player, item: ItemType)
    requires
        old(player).wf(),
    ensures
        final(player).wf(),
        *final(player) == item_applied(*old(player), item),
{
    match item {
        ItemType::RapidFire => {
            let halved: u64 = player.shoot_interval_ms / 2;
            player.shoot_interval_ms = if halved >= MIN_SHOOT_INTERVAL_MS {
                halved
            } else {
                MIN_SHOOT_INTERVAL_MS
            };
        },
        ItemType::PiercingShot => {
            player.piercing = true;
        },
        ItemType::Heal => {
            if player.hp + 1 <= player.max_hp {
                player.hp = player.hp + 1;
            } else {
                player.hp = player.max_hp;
            }
        },
    }
}

/// The item kind a uniform draw in `[0, 3)` selects.
pub open spec fn item_from_draw(kind_draw: int) -> ItemType {
    if kind_draw == 0 {
        ItemType::RapidFire
    } else if kind_draw == 1 {
        ItemType::PiercingShot
    } else {
        ItemType::Heal
    }
}

/// Decides the drop an enemy kill yields: a drop happens exactly when
/// the chance draw falls under the drop chance, and the kind draw then
/// selects the kind uniformly.
pub fn roll_item_drop(chance_draw: i64, kind_draw: i64) -> (r: Option<ItemType>)
    requires
        0 <= chance_draw < 100,
        0 <= kind_draw < 3,
    ensures
        r is Some <==> chance_draw < ITEM_DROP_CHANCE,
        chance_draw < ITEM_DROP_CHANCE ==> r == Some(item_from_draw(kind_draw as int)),
{
    if chance_draw < ITEM_DROP_CHANCE {
        if kind_draw == 0 {
            Some(ItemType::RapidFire)
        } else if kind_draw == 1 {
            Some(ItemType::PiercingShot)
        } else {
            Some(ItemType::Heal)
        }
    } else {
        None
    }
}

} // verus!
