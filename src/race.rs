//! Race progress: laps counted from checkpoint contacts, and the coin count.
use vstd::prelude::*;
use crate::zones::{CollisionEvent, Zone, ZoneKind, ZoneRegistry, lookup, touched, touched_exec};

verus! {

/// Progress of one kart in the race.
#[derive(Clone, Copy, Debug, PartialEq, Eq, Structural)]
pub struct PlayerStats {
    /// The lap being driven, from 1.
    pub current_lap: usize,
    /// Index of the checkpoint touched last, `-1` before the first.
    pub last_checkpoint: i32,
    pub coin_count: usize,
}

/// `n + 1`, held at `usize::MAX`.
pub open spec fn sat_inc(n: usize) -> usize {
    if n < usize::MAX { (n + 1) as usize } else { n }
}

/// Index of the checkpoint that `ev` makes the vehicle touch.
pub open spec fn checkpoint_hit(s: Seq<Zone>, vehicle: u64, ev: CollisionEvent) -> Option<usize> {
    match touched(ev, vehicle) {
        Some(e) => match lookup(s, e) {
            Some(i) => match s[i].kind {
                ZoneKind::Checkpoint(c) => Some(c.index),
                _ => None,
            },
            None => None,
        },
        None => None,
    }
}

impl PlayerStats {
    /// The state at spawn: first lap, no checkpoint touched, no coin.
    pub fn new() -> (r: PlayerStats)
        ensures
            r == (PlayerStats { current_lap: 1, last_checkpoint: -1i32, coin_count: 0 }),
    {
        PlayerStats { current_lap: 1, last_checkpoint: -1, coin_count: 0 }
    }

    /// The lap counter has started and the last checkpoint is the sentinel
    /// or an index of the loop of `count` checkpoints.
    pub open spec fn wf(&self, count: nat) -> bool {
        &&& self.current_lap >= 1
        &&& -1 <= self.last_checkpoint < count
    }

    /// The state after touching checkpoint `index` of a loop of `count`: a lap
    /// is completed exactly when checkpoint 0 follows the last checkpoint of the
    /// loop; the touched index is recorded whatever the order.
    pub open spec fn on_checkpoint(self, index: usize, count: nat) -> PlayerStats {
        PlayerStats {
            current_lap: if index == 0 && self.last_checkpoint == count - 1 {
                sat_inc(self.current_lap)
            } else {
                self.current_lap
            },
            last_checkpoint: index as i32,
            ..self
        }
    }

    /// The state after the checkpoint contacts among `events`, in order.
    pub open spec fn after_checkpoints(
        self,
        s: Seq<Zone>,
        count: nat,
        vehicle: u64,
        events: Seq<CollisionEvent>,
    ) -> PlayerStats
        decreases events.len(),
    {
        if events.len() == 0 {
            self
        } else {
            let st = self.after_checkpoints(s, count, vehicle, events.drop_last());
            match checkpoint_hit(s, vehicle, events.last()) {
                Some(index) => st.on_checkpoint(index, count),
                None => st,
            }
        }
    }

    /// Adds the coins just taken to the count, held at `usize::MAX`.
    pub open spec fn with_coins(self, n: nat) -> PlayerStats {
        PlayerStats {
            coin_count: if self.coin_count + n <= usize::MAX {
                (self.coin_count + n) as usize
            } else {
                usize::MAX
            },
            ..self
        }
    }
}

/// Applies one touch of checkpoint `index` of a loop of `count`.
pub fn touch_checkpoint(stats: &mut PlayerStats, index: usize, count: usize)
    requires
        index < count <= i32::MAX,
    ensures
        *final(stats) == old(stats).on_checkpoint(index, count as nat),
{
    if index == 0 && stats.last_checkpoint as i64 == count as i64 - 1 {
        stats.current_lap = stats.current_lap.saturating_add(1);
    }
    stats.last_checkpoint = index as i32;
}

/// Race progress tracker: applies, in order, every contact of `vehicle` with a
/// checkpoint among a frame's events. Other events are skipped.
pub fn handle_checkpoint_collision(
    stats: &mut PlayerStats,
    zones: &ZoneRegistry,
    vehicle: u64,
    events: &Vec<CollisionEvent>,
)
    requires
        zones.wf(),
    ensures
        *final(stats) == old(stats).after_checkpoints(zones@, zones.checkpoints(), vehicle, events@),
        old(stats).wf(zones.checkpoints()) ==> final(stats).wf(zones.checkpoints()),
{
    let count = zones.checkpoint_count();
    let mut k: usize = 0;
    while k < events.len()
        invariant
            zones.wf(),
            count == zones.checkpoints(),
            k <= events@.len(),
            *stats == old(stats).after_checkpoints(zones@, zones.checkpoints(), vehicle, events@.take(k as int)),
            old(stats).wf(zones.checkpoints()) ==> stats.wf(zones.checkpoints()),
        decreases events@.len() - k,
    {
        assert(events@.take(k as int + 1).drop_last() == events@.take(k as int));
        assert(events@.take(k as int + 1).last() == events@[k as int]);
        let ev = events[k];
        match touched_exec(&ev, vehicle) {
            Some(e) => {
                match zones.find(e) {
                    Some(j) => {
                        let z = zones.get(j);
                        match z.kind {
                            ZoneKind::Checkpoint(c) => {
                                assert(zones@[j as int].kind is Checkpoint);
                                touch_checkpoint(stats, c.index, count);
                            },
                            _ => {},
                        }
                    },
                    None => {},
                }
            },
            None => {},
        }
        k = k + 1;
    }
    assert(events@.take(events@.len() as int) == events@);
}

} // verus!
