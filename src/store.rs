use std::collections::BTreeMap;
use vstd::prelude::*;

use crate::hub::{BroadcastHub, Subscription};
use crate::state::{fresh_record, ids_match, map_view, SensorData, SensorStateMap, SensorView};
use crate::timestamp::{now_utc, refreshed, Timestamp};

verus! {

broadcast use vstd::laws_cmp::group_laws_cmp, vstd::std_specs::btree::group_btree_axioms;

/// How many snapshots each subscriber of a store's hub can hold unread.
pub const HUB_CAPACITY: usize = 32;

/// The store as the process starts: sensors 0, 1 and 2, all off, stamped `now`.
pub open spec fn initial_store(now: int) -> Map<u64, SensorView> {
    map![
        0u64 => fresh_record(0, false, now),
        1u64 => fresh_record(1, false, now),
        2u64 => fresh_record(2, false, now),
    ]
}

/// Setting the state of `id` at `now`: an existing record takes the state and
/// a refreshed time; an absent one is created with the default name.
pub open spec fn set_state_spec(m: Map<u64, SensorView>, id: u64, state: bool, now: int) -> Map<
    u64,
    SensorView,
> {
    if m.contains_key(id) {
        m.insert(
            id,
            SensorView { state, last_update: refreshed(m[id].last_update, now), ..m[id] },
        )
    } else {
        m.insert(id, fresh_record(id, state, now))
    }
}

/// Renaming `id` at `now`: an existing record takes the name and a refreshed
/// time; with no such record nothing changes.
pub open spec fn rename_spec(m: Map<u64, SensorView>, id: u64, name: Seq<char>, now: int) -> Map<
    u64,
    SensorView,
> {
    if m.contains_key(id) {
        m.insert(
            id,
            SensorView { name, last_update: refreshed(m[id].last_update, now), ..m[id] },
        )
    } else {
        m
    }
}

/// Deleting `id`: the record goes if it is there.
pub open spec fn delete_spec(m: Map<u64, SensorView>, id: u64) -> Map<u64, SensorView> {
    m.remove(id)
}

/// A mutation of the store, as data.
pub enum Mutation {
    SetState { id: u64, state: bool },
    Rename { id: u64, name: String },
    Delete { id: u64 },
}

/// The content of a [`Mutation`].
pub enum MutationView {
    SetState { id: u64, state: bool },
    Rename { id: u64, name: Seq<char> },
    Delete { id: u64 },
}

impl View for Mutation {
    type V = MutationView;

    open spec fn view(&self) -> MutationView {
        match self {
            Mutation::SetState { id, state } => MutationView::SetState { id: *id, state: *state },
            Mutation::Rename { id, name } => MutationView::Rename { id: *id, name: name@ },
            Mutation::Delete { id } => MutationView::Delete { id: *id },
        }
    }
}

/// The store after one mutation performed at `now`.
pub open spec fn apply_spec(m: Map<u64, SensorView>, op: MutationView, now: int) -> Map<
    u64,
    SensorView,
> {
    match op {
        MutationView::SetState { id, state } => set_state_spec(m, id, state, now),
        MutationView::Rename { id, name } => rename_spec(m, id, name, now),
        MutationView::Delete { id } => delete_spec(m, id),
    }
}

/// The sensor records, keyed and ordered by id; every record sits under its
/// own id.
pub struct SensorStore {
    sensors: SensorStateMap,
}

impl View for SensorStore {
    type V = Map<u64, SensorView>;

    closed spec fn view(&self) -> Map<u64, SensorView> {
        map_view(self.sensors@)
    }
}

impl SensorStore {
    #[verifier::type_invariant]
    spec fn inv(&self) -> bool {
        ids_match(map_view(self.sensors@))
    }

    /// The store as the process starts, stamped `now`.
    pub fn initial(now: Timestamp) -> (r: SensorStore)
        ensures
            r@ == initial_store(now@),
    {
        let mut m: SensorStateMap = BTreeMap::new();
        m.insert(0, SensorData::new_at(0, false, now));
        m.insert(1, SensorData::new_at(1, false, now));
        m.insert(2, SensorData::new_at(2, false, now));
        assert(map_view(m@) =~= initial_store(now@));
        SensorStore { sensors: m }
    }

    /// A copy of all records.
    pub fn get(&self) -> (snapshot: SensorStateMap)
        ensures
            map_view(snapshot@) == self@,
            ids_match(self@),
    {
        proof {
            use_type_invariant(self);
        }
        self.sensors.clone()
    }

    /// Takes the map out, leaving an empty one, which keeps the invariant.
    fn take(&mut self) -> (m: SensorStateMap)
        ensures
            map_view(m@) == old(self)@,
            ids_match(map_view(m@)),
    {
        proof {
            use_type_invariant(&*self);
        }
        let mut m: SensorStateMap = BTreeMap::new();
        std::mem::swap(&mut m, &mut self.sensors);
        m
    }

    /// Sets the state of `id` at `now`, creating the record if absent.
    pub fn set_state(&mut self, id: u64, state: bool, now: Timestamp)
        ensures
            final(self)@ == set_state_spec(old(self)@, id, state, now@),
            ids_match(old(self)@),
            ids_match(final(self)@),
    {
        let mut m = self.take();
        let ghost before = map_view(m@);
        match m.remove(&id) {
            Some(mut d) => {
                d.update_state_at(state, now);
                m.insert(id, d);
            },
            None => {
                m.insert(id, SensorData::new_at(id, state, now));
            },
        }
        assert(map_view(m@) =~= set_state_spec(before, id, state, now@));
        self.sensors = m;
    }

    /// Renames `id` at `now` if it exists; otherwise nothing changes.
    pub fn rename(&mut self, id: u64, name: String, now: Timestamp)
        ensures
            final(self)@ == rename_spec(old(self)@, id, name@, now@),
            ids_match(old(self)@),
            ids_match(final(self)@),
    {
        let mut m = self.take();
        let ghost before = map_view(m@);
        match m.remove(&id) {
            Some(mut d) => {
                d.rename_at(name, now);
                m.insert(id, d);
            },
            None => {},
        }
        assert(map_view(m@) =~= rename_spec(before, id, name@, now@));
        self.sensors = m;
    }

    /// Removes `id` if present.
    pub fn delete(&mut self, id: u64)
        ensures
            final(self)@ == delete_spec(old(self)@, id),
            ids_match(old(self)@),
            ids_match(final(self)@),
    {
        let mut m = self.take();
        let ghost before = map_view(m@);
        m.remove(&id);
        assert(map_view(m@) =~= delete_spec(before, id));
        self.sensors = m;
    }
}

/// The authoritative sensor store together with the hub on which every
/// change is published. Each mutation hands exactly one snapshot to the hub:
/// the whole store as it is right after the change.
pub struct AppState {
    tx: BroadcastHub,
    sensor_state: SensorStore,
}

impl View for AppState {
    type V = Map<u64, SensorView>;

    closed spec fn view(&self) -> Map<u64, SensorView> {
        self.sensor_state@
    }
}

impl AppState {
    /// Every snapshot handed to the hub so far, oldest first.
    pub closed spec fn published(&self) -> Seq<Map<u64, SensorView>> {
        self.tx.published()
    }

    /// The buffer size each subscriber of the hub has.
    pub closed spec fn hub_capacity(&self) -> nat {
        self.tx.capacity()
    }

    /// The store as the process starts, stamped with the current time, and a
    /// hub with no subscriber yet.
    pub fn new() -> (r: AppState)
        ensures
            exists|t: int| r@ == initial_store(t),
            r.published() == Seq::<Map<u64, SensorView>>::empty(),
            r.hub_capacity() == HUB_CAPACITY,
    {
        AppState::new_at(now_utc())
    }

    /// The store as the process starts, stamped `now`, and a hub with no
    /// subscriber yet.
    pub fn new_at(now: Timestamp) -> (r: AppState)
        ensures
            r@ == initial_store(now@),
            r.published() == Seq::<Map<u64, SensorView>>::empty(),
            r.hub_capacity() == HUB_CAPACITY,
    {
        AppState { tx: BroadcastHub::new(HUB_CAPACITY), sensor_state: SensorStore::initial(now) }
    }

    /// A copy of the whole store. Nothing is published.
    pub fn get(&self) -> (snapshot: SensorStateMap)
        ensures
            map_view(snapshot@) == self@,
            ids_match(map_view(snapshot@)),
    {
        self.sensor_state.get()
    }

    /// A subscriber to the changes published from now on.
    pub fn subscribe(&self) -> (r: Subscription) {
        self.tx.subscribe()
    }

    /// Publishes the current store and returns the same snapshot.
    fn publish_current(&mut self) -> (snapshot: SensorStateMap)
        ensures
            final(self)@ == old(self)@,
            map_view(snapshot@) == old(self)@,
            final(self).published() == old(self).published().push(old(self)@),
            final(self).hub_capacity() == old(self).hub_capacity(),
    {
        self.tx.publish(self.sensor_state.get());
        self.sensor_state.get()
    }

    /// Sets the state of `id` at `now`, creating the sensor if absent, then
    /// publishes the resulting store, which it also returns.
    pub fn set_state_at(&mut self, id: u64, state: bool, now: Timestamp) -> (snapshot:
        SensorStateMap)
        ensures
            final(self)@ == set_state_spec(old(self)@, id, state, now@),
            ids_match(old(self)@),
            ids_match(final(self)@),
            map_view(snapshot@) == final(self)@,
            final(self).published() == old(self).published().push(final(self)@),
            final(self).hub_capacity() == old(self).hub_capacity(),
    {
        self.sensor_state.set_state(id, state, now);
        self.publish_current()
    }

    /// Renames `id` at `now` if it exists (otherwise the store is left as it
    /// is), then publishes the resulting store, which it also returns. A
    /// rename of an absent sensor thus republishes the unchanged store.
    pub fn rename_at(&mut self, id: u64, name: String, now: Timestamp) -> (snapshot:
        SensorStateMap)
        ensures
            final(self)@ == rename_spec(old(self)@, id, name@, now@),
            ids_match(old(self)@),
            ids_match(final(self)@),
            map_view(snapshot@) == final(self)@,
            final(self).published() == old(self).published().push(final(self)@),
            final(self).hub_capacity() == old(self).hub_capacity(),
    {
        self.sensor_state.rename(id, name, now);
        self.publish_current()
    }

    /// Performs `op` at `now` as the operation of its kind does, then
    /// publishes the resulting store, which it also returns.
    pub fn apply_at(&mut self, op: &Mutation, now: Timestamp) -> (snapshot: SensorStateMap)
        ensures
            final(self)@ == apply_spec(old(self)@, op@, now@),
            ids_match(old(self)@),
            ids_match(final(self)@),
            map_view(snapshot@) == final(self)@,
            final(self).published() == old(self).published().push(final(self)@),
            final(self).hub_capacity() == old(self).hub_capacity(),
    {
        match op {
            Mutation::SetState { id, state } => self.set_state_at(*id, *state, now),
            Mutation::Rename { id, name } => self.rename_at(*id, name.clone(), now),
            Mutation::Delete { id } => self.delete(*id),
        }
    }

    /// Removes `id` if present, then publishes the resulting store, which it
    /// also returns; deleting an absent sensor republishes the unchanged
    /// store.
    pub fn delete(&mut self, id: u64) -> (snapshot: SensorStateMap)
        ensures
            final(self)@ == delete_spec(old(self)@, id),
            ids_match(old(self)@),
            ids_match(final(self)@),
            map_view(snapshot@) == final(self)@,
            final(self).published() == old(self).published().push(final(self)@),
            final(self).hub_capacity() == old(self).hub_capacity(),
    {
        self.sensor_state.delete(id);
        self.publish_current()
    }
}

} // verus!
