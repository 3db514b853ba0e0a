//! The pickup resolver: item boxes arm a boost, coins add to the count; each
//! zone is consumed by its first contact.
use vstd::prelude::*;
use crate::kart::Kart;
use crate::race::PlayerStats;
use crate::zones::{CollisionEvent, Pickup, ZoneRegistry, pickups};

verus! {

/// Resolves the vehicle's contacts with item boxes in a frame's events: each
/// live item box touched is removed, and if any was, an item boost is armed.
/// Returns the entities removed, for the host to despawn.
pub fn handle_item_collision(
    kart: &mut Kart,
    zones: &mut ZoneRegistry,
    vehicle: u64,
    events: &Vec<CollisionEvent>,
) -> (taken: Vec<u64>)
    requires
        old(kart).wf(),
        old(zones).wf(),
    ensures
        final(kart).wf(),
        final(zones).wf(),
        final(zones).checkpoints() == old(zones).checkpoints(),
        (final(zones)@, taken@) == pickups(old(zones)@, vehicle, events@, Pickup::Item),
        *final(kart) == (if taken@.len() > 0 { old(kart).item_boost_spec() } else { *old(kart) }),
{
    let taken = zones.take_pickups(vehicle, events, Pickup::Item);
    if taken.len() > 0 {
        kart.arm_item_boost();
    }
    taken
}

/// Resolves the vehicle's contacts with coins in a frame's events: each live
/// coin touched is removed and counted once. Returns the entities removed.
pub fn handle_coin_collision(
    stats: &mut PlayerStats,
    zones: &mut ZoneRegistry,
    vehicle: u64,
    events: &Vec<CollisionEvent>,
) -> (taken: Vec<u64>)
    requires
        old(zones).wf(),
    ensures
        final(zones).wf(),
        final(zones).checkpoints() == old(zones).checkpoints(),
        (final(zones)@, taken@) == pickups(old(zones)@, vehicle, events@, Pickup::Coin),
        *final(stats) == old(stats).with_coins(taken@.len()),
{
    let taken = zones.take_pickups(vehicle, events, Pickup::Coin);
    stats.coin_count = stats.coin_count.saturating_add(taken.len());
    taken
}

} // verus!
