use kart_race::race::{handle_checkpoint_collision, PlayerStats};
use kart_race::zones::{Checkpoint, CollisionEvent, ZoneKind, ZoneRegistry};

const VEHICLE: u64 = 1;

fn track(n: u64) -> ZoneRegistry {
    let mut zones = ZoneRegistry::new();
    for i in 0..n {
        assert!(zones.add_checkpoint(100 + i));
    }
    zones
}

fn touch(stats: &mut PlayerStats, zones: &ZoneRegistry, order: &[u64]) {
    for &i in order {
        let events = vec![CollisionEvent::Started(VEHICLE, 100 + i)];
        handle_checkpoint_collision(stats, zones, VEHICLE, &events);
    }
}

#[test]
fn new_stats() {
    let s = PlayerStats::new();
    assert_eq!(s.current_lap, 1);
    assert_eq!(s.last_checkpoint, -1);
    assert_eq!(s.coin_count, 0);
}

#[test]
fn checkpoints_get_consecutive_indices() {
    let zones = track(4);
    assert_eq!(zones.checkpoint_count(), 4);
    for i in 0..4usize {
        assert_eq!(zones.get(i).kind, ZoneKind::Checkpoint(Checkpoint { index: i }));
        assert!(zones.get(i).alive);
    }
}

#[test]
fn full_loop_counts_one_lap() {
    let zones = track(4);
    let mut stats = PlayerStats::new();
    touch(&mut stats, &zones, &[0, 1, 2, 3]);
    assert_eq!(stats.current_lap, 1);
    assert_eq!(stats.last_checkpoint, 3);
    touch(&mut stats, &zones, &[0]);
    assert_eq!(stats.current_lap, 2);
    assert_eq!(stats.last_checkpoint, 0);
}

#[test]
fn lap_needs_last_checkpoint_before_zero() {
    let zones = track(4);
    let mut stats = PlayerStats::new();
    touch(&mut stats, &zones, &[0, 2, 0]);
    assert_eq!(stats.current_lap, 1);
    assert_eq!(stats.last_checkpoint, 0);
}

#[test]
fn lap_counted_without_intermediate_checkpoints() {
    let zones = track(4);
    let mut stats = PlayerStats::new();
    touch(&mut stats, &zones, &[0, 3, 0]);
    assert_eq!(stats.current_lap, 2);
    let zones = track(3);
    let mut stats = PlayerStats::new();
    touch(&mut stats, &zones, &[0, 2, 0]);
    assert_eq!(stats.current_lap, 2);
}

#[test]
fn out_of_order_touch_is_recorded() {
    let zones = track(4);
    let mut stats = PlayerStats::new();
    touch(&mut stats, &zones, &[2, 1, 1]);
    assert_eq!(stats.last_checkpoint, 1);
    assert_eq!(stats.current_lap, 1);
}

#[test]
fn events_in_one_batch_apply_in_order() {
    let zones = track(4);
    let mut stats = PlayerStats::new();
    let events = vec![
        CollisionEvent::Started(103, VEHICLE),
        CollisionEvent::Started(VEHICLE, 100),
        CollisionEvent::Stopped(VEHICLE, 101),
        CollisionEvent::Started(7, 102),
        CollisionEvent::Started(VEHICLE, 999),
    ];
    handle_checkpoint_collision(&mut stats, &zones, VEHICLE, &events);
    assert_eq!(stats.current_lap, 2);
    assert_eq!(stats.last_checkpoint, 0);
}

#[test]
fn duplicate_entity_is_refused() {
    let mut zones = track(2);
    assert!(!zones.add_checkpoint(100));
    assert!(!zones.add_coin(101));
    assert!(!zones.add_item_box(100));
    assert_eq!(zones.checkpoint_count(), 2);
    assert_eq!(zones.len(), 2);
    assert_eq!(zones.find(101), Some(1));
    assert_eq!(zones.find(5), None);
}
