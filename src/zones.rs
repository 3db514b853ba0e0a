//! The zone registry: trigger volumes placed at track load, looked up by the
//! entity that the physics engine names in a collision, and tombstoned when a
//! pickup consumes them.
use vstd::prelude::*;

verus! {

/// A checkpoint of the race loop; `index` is its place in track order.
#[derive(Clone, Copy, Debug, PartialEq, Eq, Structural)]
pub struct Checkpoint {
    pub index: usize,
}

/// An item box: taking it arms a boost.
#[derive(Clone, Copy, Debug, PartialEq, Eq, Structural)]
pub struct ItemBox;

/// A coin: taking it adds one to the coin count.
#[derive(Clone, Copy, Debug, PartialEq, Eq, Structural)]
pub struct Coin;

#[derive(Clone, Copy, Debug, PartialEq, Eq, Structural)]
pub enum ZoneKind {
    Checkpoint(Checkpoint),
    ItemBox(ItemBox),
    Coin(Coin),
}

/// The kinds of zone that a contact consumes.
#[derive(Clone, Copy, Debug, PartialEq, Eq, Structural)]
pub enum Pickup {
    Item,
    Coin,
}

/// A trigger volume and the engine entity that carries it. A zone that is
/// no longer `alive` has been taken and can never be hit again.
#[derive(Clone, Copy, Debug, PartialEq, Eq, Structural)]
pub struct Zone {
    pub entity: u64,
    pub kind: ZoneKind,
    pub alive: bool,
}

/// A contact reported by the physics engine between two entities.
#[derive(Clone, Copy, Debug, PartialEq, Eq, Structural)]
pub enum CollisionEvent {
    Started(u64, u64),
    Stopped(u64, u64),
}

impl ZoneKind {
    pub open spec fn is_pickup(self, p: Pickup) -> bool {
        match p {
            Pickup::Item => self is ItemBox,
            Pickup::Coin => self is Coin,
        }
    }

    pub fn is_pickup_exec(&self, p: Pickup) -> (r: bool)
        ensures
            r == self.is_pickup(p),
    {
        match p {
            Pickup::Item => matches!(self, ZoneKind::ItemBox(_)),
            Pickup::Coin => matches!(self, ZoneKind::Coin(_)),
        }
    }
}

/// The other entity of a started contact that involves `vehicle`.
pub open spec fn touched(ev: CollisionEvent, vehicle: u64) -> Option<u64> {
    match ev {
        CollisionEvent::Started(a, b) => if a == vehicle {
            Some(b)
        } else if b == vehicle {
            Some(a)
        } else {
            None
        },
        CollisionEvent::Stopped(_, _) => None,
    }
}

/// The other entity of a started contact that involves `vehicle`.
pub fn touched_exec(ev: &CollisionEvent, vehicle: u64) -> (r: Option<u64>)
    ensures
        r == touched(*ev, vehicle),
{
    match ev {
        CollisionEvent::Started(a, b) => {
            if *a == vehicle {
                Some(*b)
            } else if *b == vehicle {
                Some(*a)
            } else {
                None
            }
        },
        CollisionEvent::Stopped(_, _) => None,
    }
}

/// No two zones share an entity.
pub open spec fn unique_entities(s: Seq<Zone>) -> bool {
    forall|i: int, j: int| 0 <= i < j < s.len() ==> s[i].entity != s[j].entity
}

/// The position of the zone carried by `e`, if any.
pub open spec fn lookup(s: Seq<Zone>, e: u64) -> Option<int> {
    if exists|i: int| 0 <= i < s.len() && s[i].entity == e {
        Some(choose|i: int| 0 <= i < s.len() && s[i].entity == e)
    } else {
        None
    }
}

/// The position of the live zone of kind `p` that `ev` makes the vehicle touch.
pub open spec fn pickup_target(s: Seq<Zone>, vehicle: u64, ev: CollisionEvent, p: Pickup) -> Option<int> {
    match touched(ev, vehicle) {
        Some(e) => match lookup(s, e) {
            Some(i) => if s[i].alive && s[i].kind.is_pickup(p) {
                Some(i)
            } else {
                None
            },
            None => None,
        },
        None => None,
    }
}

/// Zones and taken entities after resolving `events` in order: each contact
/// of the vehicle with a live zone of kind `p` tombstones that zone and
/// records its entity; every other event is skipped.
pub open spec fn pickups(s: Seq<Zone>, vehicle: u64, events: Seq<CollisionEvent>, p: Pickup) -> (Seq<Zone>, Seq<u64>)
    decreases events.len(),
{
    if events.len() == 0 {
        (s, Seq::empty())
    } else {
        let (z, taken) = pickups(s, vehicle, events.drop_last(), p);
        match pickup_target(z, vehicle, events.last(), p) {
            Some(i) => (z.update(i, Zone { alive: false, ..z[i] }), taken.push(z[i].entity)),
            None => (z, taken),
        }
    }
}

/// Number of live zones of kind `p`.
pub open spec fn alive_count(s: Seq<Zone>, p: Pickup) -> nat
    decreases s.len(),
{
    if s.len() == 0 {
        0
    } else {
        alive_count(s.drop_last(), p) + if s.last().alive && s.last().kind.is_pickup(p) {
            1nat
        } else {
            0nat
        }
    }
}

/// A tombstone keeps entities distinct.
proof fn lemma_entities_kept(s: Seq<Zone>, t: Seq<Zone>)
    requires
        unique_entities(s),
        s.len() == t.len(),
        forall|i: int| 0 <= i < s.len() ==> s[i].entity == t[i].entity,
    ensures
        unique_entities(t),
{
    assert forall|i: int, j: int| 0 <= i < j < t.len() implies t[i].entity != t[j].entity by {
        assert(s[i].entity != s[j].entity);
    }
}

/// All zones of the track, with the number of checkpoints in the loop.
pub struct ZoneRegistry {
    zones: Vec<Zone>,
    checkpoint_count: usize,
}

impl ZoneRegistry {
    pub closed spec fn view(&self) -> Seq<Zone> {
        self.zones@
    }

    /// Number of checkpoints in the loop; their indices are `0..checkpoints()`.
    pub closed spec fn checkpoints(&self) -> nat {
        self.checkpoint_count as nat
    }

    /// Entities are distinct; checkpoints are never taken and their indices
    /// lie below the count, which fits an `i32`.
    pub open spec fn wf(&self) -> bool {
        &&& unique_entities(self@)
        &&& self.checkpoints() <= i32::MAX
        &&& forall|i: int|
            0 <= i < self@.len() && (#[trigger] self@[i]).kind is Checkpoint ==> {
                &&& self@[i].alive
                &&& self@[i].kind->Checkpoint_0.index < self.checkpoints()
            }
    }

    /// An empty track.
    pub fn new() -> (r: ZoneRegistry)
        ensures
            r.wf(),
            r@ == Seq::<Zone>::empty(),
            r.checkpoints() == 0,
    {
        ZoneRegistry { zones: Vec::new(), checkpoint_count: 0 }
    }

    pub fn checkpoint_count(&self) -> (r: usize)
        ensures
            r == self.checkpoints(),
    {
        self.checkpoint_count
    }

    pub fn len(&self) -> (r: usize)
        ensures
            r == self@.len(),
    {
        self.zones.len()
    }

    /// The zone at position `i`.
    pub fn get(&self, i: usize) -> (r: Zone)
        requires
            i < self@.len(),
        ensures
            r == self@[i as int],
    {
        self.zones[i]
    }

    /// The position of the zone carried by `entity`, if any.
    pub fn find(&self, entity: u64) -> (r: Option<usize>)
        requires
            self.wf(),
        ensures
            r matches Some(i) ==> lookup(self@, entity) == Some(i as int) && i < self@.len(),
            r is None ==> lookup(self@, entity) is None,
    {
        let mut k: usize = 0;
        while k < self.zones.len()
            invariant
                self.wf(),
                k <= self@.len(),
                forall|j: int| 0 <= j < k ==> self@[j].entity != entity,
            decreases self@.len() - k,
        {
            if self.zones[k].entity == entity {
                proof {
                    assert(self@[k as int].entity == entity);
                    assert(exists|i: int| 0 <= i < self@.len() && self@[i].entity == entity);
                    let c = choose|i: int| 0 <= i < self@.len() && self@[i].entity == entity;
                    assert(self@[c].entity == entity);
                    if c < k as int {
                        assert(self@[c].entity != self@[k as int].entity);
                    } else if c > k as int {
                        assert(self@[k as int].entity != self@[c].entity);
                    }
                }
                return Some(k);
            }
            k = k + 1;
        }
        None
    }

    /// Adds a zone of `kind` carried by `entity`; refused when `entity`
    /// already carries a zone.
    fn push_zone(&mut self, entity: u64, kind: ZoneKind) -> (added: bool)
        requires
            old(self).wf(),
            kind is Checkpoint ==> kind->Checkpoint_0.index < old(self).checkpoints(),
        ensures
            final(self).wf(),
            final(self).checkpoints() == old(self).checkpoints(),
            added == (lookup(old(self)@, entity) is None),
            added ==> final(self)@ == old(self)@.push(Zone { entity, kind, alive: true }),
            !added ==> final(self)@ == old(self)@,
    {
        if self.find(entity).is_some() {
            return false;
        }
        self.zones.push(Zone { entity, kind, alive: true });
        proof {
            assert forall|i: int| 0 <= i < old(self)@.len() implies self@[i].entity != entity by {
                if self@[i].entity == entity {
                    assert(exists|j: int| 0 <= j < old(self)@.len() && old(self)@[j].entity == entity);
                }
            }
        }
        true
    }

    /// Adds the next checkpoint of the loop, carried by `entity`. Refused,
    /// with nothing changed, when `entity` already carries a zone or the loop
    /// has `i32::MAX` checkpoints.
    pub fn add_checkpoint(&mut self, entity: u64) -> (added: bool)
        requires
            old(self).wf(),
        ensures
            final(self).wf(),
            added == (lookup(old(self)@, entity) is None && old(self).checkpoints() < i32::MAX),
            added ==> final(self)@ == old(self)@.push(
                Zone {
                    entity,
                    kind: ZoneKind::Checkpoint(Checkpoint { index: old(self).checkpoints() as usize }),
                    alive: true,
                },
            ),
            added ==> final(self).checkpoints() == old(self).checkpoints() + 1,
            !added ==> final(self)@ == old(self)@ && final(self).checkpoints() == old(self).checkpoints(),
    {
        if self.checkpoint_count >= i32::MAX as usize {
            return false;
        }
        let index = self.checkpoint_count;
        self.checkpoint_count = self.checkpoint_count + 1;
        let added = self.push_zone(entity, ZoneKind::Checkpoint(Checkpoint { index }));
        if !added {
            self.checkpoint_count = index;
        }
        added
    }

    /// Adds an item box carried by `entity`; refused when `entity` already
    /// carries a zone.
    pub fn add_item_box(&mut self, entity: u64) -> (added: bool)
        requires
            old(self).wf(),
        ensures
            final(self).wf(),
            final(self).checkpoints() == old(self).checkpoints(),
            added == (lookup(old(self)@, entity) is None),
            added ==> final(self)@ == old(self)@.push(
                Zone { entity, kind: ZoneKind::ItemBox(ItemBox), alive: true },
            ),
            !added ==> final(self)@ == old(self)@,
    {
        self.push_zone(entity, ZoneKind::ItemBox(ItemBox))
    }

    /// Adds a coin carried by `entity`; refused when `entity` already carries
    /// a zone.
    pub fn add_coin(&mut self, entity: u64) -> (added: bool)
        requires
            old(self).wf(),
        ensures
            final(self).wf(),
            final(self).checkpoints() == old(self).checkpoints(),
            added == (lookup(old(self)@, entity) is None),
            added ==> final(self)@ == old(self)@.push(Zone { entity, kind: ZoneKind::Coin(Coin), alive: true }),
            !added ==> final(self)@ == old(self)@,
    {
        self.push_zone(entity, ZoneKind::Coin(Coin))
    }

    /// Resolves a frame's contacts of `vehicle` with zones of kind `kind`, in
    /// order: each live zone touched is tombstoned and its entity returned,
    /// once, however many events name it.
    pub fn take_pickups(&mut self, vehicle: u64, events: &Vec<CollisionEvent>, kind: Pickup) -> (taken: Vec<u64>)
        requires
            old(self).wf(),
        ensures
            final(self).wf(),
            final(self).checkpoints() == old(self).checkpoints(),
            (final(self)@, taken@) == pickups(old(self)@, vehicle, events@, kind),
    {
        let mut taken: Vec<u64> = Vec::new();
        let mut k: usize = 0;
        while k < events.len()
            invariant
                self.wf(),
                self.checkpoints() == old(self).checkpoints(),
                k <= events@.len(),
                (self@, taken@) == pickups(old(self)@, vehicle, events@.take(k as int), kind),
            decreases events@.len() - k,
        {
            let ghost before = self@;
            assert(events@.take(k as int + 1).drop_last() == events@.take(k as int));
            assert(events@.take(k as int + 1).last() == events@[k as int]);
            let ev = events[k];
            match touched_exec(&ev, vehicle) {
                Some(e) => {
                    match self.find(e) {
                        Some(j) => {
                            let z = self.zones[j];
                            if z.alive && z.kind.is_pickup_exec(kind) {
                                self.zones[j].alive = false;
                                taken.push(e);
                                proof {
                                    assert(self@ == before.update(j as int, Zone { alive: false, ..before[j as int] }));
                                    lemma_entities_kept(before, self@);
                                    assert(before[j as int].entity == e);
                                }
                            }
                        },
                        None => {},
                    }
                },
                None => {},
            }
            k = k + 1;
        }
        assert(events@.take(events@.len() as int) == events@);
        taken
    }
}

} // verus!
