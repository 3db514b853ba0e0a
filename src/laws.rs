//! Properties that relate several steps of the controller and of the pickup
//! resolver.
use vstd::prelude::*;
use crate::geom::{Rotation, Vec3i};
use crate::race::PlayerStats;
use crate::zones::{CollisionEvent, Pickup, Zone, alive_count, lookup, pickup_target, pickups, touched, unique_entities};
use crate::kart::{
    Body, Controls, FrameInput, Kart, on_safe_band, BOOST_MAX_SPEED, DRIFT_BOOST_DURATION,
    DRIFT_BOOST_THRESHOLD,
};

verus! {

/// The state after `dts.len()` input phases with the same buttons held.
pub open spec fn inputs_spec(k: Kart, c: Controls, dts: Seq<u32>) -> Kart
    decreases dts.len(),
{
    if dts.len() == 0 {
        k
    } else {
        inputs_spec(k, c, dts.drop_last()).input_spec(c, dts.last())
    }
}

/// Releasing the jump button during a drift, for any elapsed times and any
/// number of frames, arms a boost exactly when the drift power exceeded the
/// threshold: below it the boost flag and timer are left as they were.
pub proof fn lemma_drift_release(k: Kart, c: Controls, dts: Seq<u32>)
    requires
        k.wf(),
        !c.jump,
        k.drift_dir != 0,
        dts.len() > 0,
    ensures
        inputs_spec(k, c, dts).drift_dir == 0,
        inputs_spec(k, c, dts).drift_power == 0,
        k.drift_power > DRIFT_BOOST_THRESHOLD ==> inputs_spec(k, c, dts).is_boosting
            && inputs_spec(k, c, dts).boost_timer == DRIFT_BOOST_DURATION,
        k.drift_power <= DRIFT_BOOST_THRESHOLD ==> inputs_spec(k, c, dts).is_boosting == k.is_boosting
            && inputs_spec(k, c, dts).boost_timer == k.boost_timer,
    decreases dts.len(),
{
    if dts.len() > 1 {
        lemma_drift_release(k, c, dts.drop_last());
    } else {
        assert(inputs_spec(k, c, dts.drop_last()) == k);
    }
}

proof fn lemma_input_wf(k: Kart, c: Controls, dt: u32)
    requires
        k.wf(),
    ensures
        k.input_spec(c, dt).wf(),
{
    let max_speed = if k.is_boosting { BOOST_MAX_SPEED } else { crate::kart::BASE_MAX_SPEED };
    let a = crate::kart::axis(c.up, c.down);
    assert(-BOOST_MAX_SPEED <= a * max_speed <= BOOST_MAX_SPEED) by (nonlinear_arith)
        requires -1 <= a <= 1, 0 <= max_speed <= BOOST_MAX_SPEED;
}

/// Every frame keeps the kart well formed; in particular the boost flag is
/// set exactly while boost time remains, at the start of every frame.
pub proof fn lemma_frames_keep_boost_consistent(k: Kart, frames: Seq<FrameInput>)
    requires
        k.wf(),
    ensures
        k.frames_spec(frames).wf(),
        k.frames_spec(frames).is_boosting <==> k.frames_spec(frames).boost_timer > 0,
    decreases frames.len(),
{
    if frames.len() > 0 {
        lemma_frames_keep_boost_consistent(k, frames.drop_last());
        let f = frames.last();
        lemma_input_wf(k.frames_spec(frames.drop_last()), f.controls, f.dt);
    }
}

/// However many frames pass with the body off the drivable band, the safe
/// pose stays what it was.
pub proof fn lemma_safe_pose_kept_off_band(k: Kart, frames: Seq<FrameInput>)
    requires
        forall|i: int| 0 <= i < frames.len() ==> !on_safe_band(#[trigger] frames[i].position.y as int),
    ensures
        k.frames_spec(frames).last_safe_pos == k.last_safe_pos,
        k.frames_spec(frames).last_safe_rot == k.last_safe_rot,
    decreases frames.len(),
{
    if frames.len() > 0 {
        assert(!on_safe_band(frames[frames.len() - 1].position.y as int));
        lemma_safe_pose_kept_off_band(k, frames.drop_last());
    }
}

/// Recovery puts the body at the safe pose, lifted, at rest, and doing it
/// again changes nothing.
pub proof fn lemma_recovery_idempotent(k: Kart, body: Body, pressed: bool, pressed_again: bool)
    requires
        k.wf(),
        Kart::needs_reset(body, pressed),
    ensures
        k.reset_spec(body, pressed).position == (Vec3i {
            x: k.last_safe_pos.x,
            y: (k.last_safe_pos.y + crate::kart::RESET_LIFT) as i64,
            z: k.last_safe_pos.z,
        }),
        k.reset_spec(body, pressed).rotation == k.last_safe_rot,
        k.reset_spec(body, pressed).linvel == Vec3i::zero_spec(),
        k.reset_spec(body, pressed).angvel == Vec3i::zero_spec(),
        k.reset_spec(k.reset_spec(body, pressed), pressed_again) == k.reset_spec(body, pressed),
{
}

/// Entity `e` carried a live zone of kind `p` in `s`, tombstoned in `z`.
pub open spec fn was_taken(s: Seq<Zone>, z: Seq<Zone>, e: u64, p: Pickup) -> bool {
    match lookup(s, e) {
        Some(j) => s[j].alive && s[j].kind.is_pickup(p) && !z[j].alive,
        None => false,
    }
}

proof fn lemma_lookup_kept(s: Seq<Zone>, t: Seq<Zone>, e: u64)
    requires
        unique_entities(s),
        s.len() == t.len(),
        forall|i: int| 0 <= i < s.len() ==> s[i].entity == t[i].entity,
    ensures
        lookup(t, e) == lookup(s, e),
{
    if exists|i: int| 0 <= i < s.len() && s[i].entity == e {
        let a = choose|i: int| 0 <= i < s.len() && s[i].entity == e;
        assert(t[a].entity == e);
        let b = choose|i: int| 0 <= i < t.len() && t[i].entity == e;
        assert(s[b].entity == e);
        if a < b {
            assert(s[a].entity != s[b].entity);
        } else if b < a {
            assert(s[b].entity != s[a].entity);
        }
    } else {
        assert forall|i: int| 0 <= i < t.len() implies t[i].entity != e by {
            assert(s[i].entity == t[i].entity);
        }
    }
}

proof fn lemma_lookup_found(s: Seq<Zone>, e: u64)
    ensures
        lookup(s, e) matches Some(i) ==> 0 <= i < s.len() && s[i].entity == e,
{
}

proof fn lemma_alive_count_tombstone(s: Seq<Zone>, i: int, p: Pickup)
    requires
        0 <= i < s.len(),
        s[i].alive,
        s[i].kind.is_pickup(p),
    ensures
        alive_count(s.update(i, Zone { alive: false, ..s[i] }), p) + 1 == alive_count(s, p),
    decreases s.len(),
{
    let t = s.update(i, Zone { alive: false, ..s[i] });
    if i == s.len() - 1 {
        assert(t.drop_last() =~= s.drop_last());
    } else {
        assert(t.drop_last() =~= s.drop_last().update(i, Zone { alive: false, ..s[i] }));
        lemma_alive_count_tombstone(s.drop_last(), i, p);
    }
}

/// Each zone is taken at most once, whatever the events: the entities taken
/// are distinct, each was a live zone of the kind and is now tombstoned, no
/// more are taken than there are events, and the live zones of the kind
/// drop by exactly the number taken. Nothing else about a zone changes.
pub proof fn lemma_pickups_at_most_once(s: Seq<Zone>, vehicle: u64, events: Seq<CollisionEvent>, p: Pickup)
    requires
        unique_entities(s),
    ensures
        pickups(s, vehicle, events, p).0.len() == s.len(),
        unique_entities(pickups(s, vehicle, events, p).0),
        forall|i: int|
            0 <= i < s.len() ==> {
                let z = #[trigger] pickups(s, vehicle, events, p).0[i];
                &&& z.entity == s[i].entity
                &&& z.kind == s[i].kind
                &&& (z.alive ==> s[i].alive)
            },
        pickups(s, vehicle, events, p).1.no_duplicates(),
        pickups(s, vehicle, events, p).1.len() <= events.len(),
        alive_count(pickups(s, vehicle, events, p).0, p) + pickups(s, vehicle, events, p).1.len()
            == alive_count(s, p),
        forall|m: int|
            0 <= m < pickups(s, vehicle, events, p).1.len() ==> was_taken(
                s,
                pickups(s, vehicle, events, p).0,
                #[trigger] pickups(s, vehicle, events, p).1[m],
                p,
            ),
    decreases events.len(),
{
    if events.len() > 0 {
        lemma_pickups_at_most_once(s, vehicle, events.drop_last(), p);
        let (z0, t0) = pickups(s, vehicle, events.drop_last(), p);
        match pickup_target(z0, vehicle, events.last(), p) {
            Some(i) => {
                let e2 = touched(events.last(), vehicle)->Some_0;
                lemma_lookup_found(z0, e2);
                let e = z0[i].entity;
                assert(e == e2);
                let z = z0.update(i, Zone { alive: false, ..z0[i] });
                let t = t0.push(e);
                assert(pickups(s, vehicle, events, p) == (z, t));
                lemma_lookup_kept(s, z0, e);
                lemma_lookup_found(s, e);
                lemma_alive_count_tombstone(z0, i, p);
                assert forall|m: int| 0 <= m < t0.len() implies t0[m] != e by {
                    assert(was_taken(s, z0, t0[m], p));
                }
                assert forall|a: int, b: int| 0 <= a < b < t.len() implies t[a] != t[b] by {
                    if b < t0.len() {
                        assert(t0[a] != t0[b]);
                    } else {
                        assert(t0[a] != e);
                    }
                }
                assert forall|m: int| 0 <= m < t.len() implies was_taken(s, z, #[trigger] t[m], p) by {
                    if m < t0.len() {
                        assert(was_taken(s, z0, t0[m], p));
                    }
                }
                assert forall|a: int, b: int| 0 <= a < b < z.len() implies z[a].entity != z[b].entity by {
                    assert(z0[a].entity != z0[b].entity);
                }
            },
            None => {},
        }
    }
}

/// Coins are counted one by one, once each: the count grows by exactly the
/// number of live coins that the events removed, never by a coin already
/// gone, while the count stays below `usize::MAX`.
pub proof fn lemma_coins_counted_once(stats: PlayerStats, s: Seq<Zone>, vehicle: u64, events: Seq<CollisionEvent>)
    requires
        unique_entities(s),
        stats.coin_count + events.len() <= usize::MAX,
    ensures
        stats.with_coins(pickups(s, vehicle, events, Pickup::Coin).1.len()).coin_count
            == stats.coin_count + alive_count(s, Pickup::Coin)
            - alive_count(pickups(s, vehicle, events, Pickup::Coin).0, Pickup::Coin),
        pickups(s, vehicle, events, Pickup::Coin).1.no_duplicates(),
{
    lemma_pickups_at_most_once(s, vehicle, events, Pickup::Coin);
}

} // verus!
