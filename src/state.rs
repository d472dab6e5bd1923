use std::collections::BTreeMap;
use vstd::prelude::*;

use crate::timestamp::{now_utc, refreshed, Timestamp};

verus! {

/// One sensor: a stable id, a display name, an on/off state and the instant
/// of its last change.
#[derive(Clone, Debug, PartialEq)]
pub struct SensorData {
    pub id: u64,
    pub name: String,
    pub state: bool,
    pub last_update: Timestamp,
}

/// The mathematical content of a [`SensorData`].
pub struct SensorView {
    pub id: u64,
    pub name: Seq<char>,
    pub state: bool,
    pub last_update: int,
}

impl View for SensorData {
    type V = SensorView;

    open spec fn view(&self) -> SensorView {
        SensorView { id: self.id, name: self.name@, state: self.state, last_update: self.last_update@ }
    }
}

/// The store's contents, ordered by id.
pub type SensorStateMap = BTreeMap<u64, SensorData>;

/// What a store map holds, record by record.
pub open spec fn map_view(m: Map<u64, SensorData>) -> Map<u64, SensorView> {
    m.map_values(|d: SensorData| d@)
}

/// Every record sits under its own id.
pub open spec fn ids_match(m: Map<u64, SensorView>) -> bool {
    forall|k: u64| #[trigger] m.contains_key(k) ==> m[k].id == k
}

/// The decimal digits of `n`, most significant first, without leading zeros.
pub open spec fn decimal(n: nat) -> Seq<char>
    decreases n,
{
    let d = seq!['0', '1', '2', '3', '4', '5', '6', '7', '8', '9'][(n % 10) as int];
    if n < 10 {
        seq![d]
    } else {
        decimal(n / 10).push(d)
    }
}

/// The name a sensor gets when it comes into existence: "Sensor <id>".
pub open spec fn default_name(id: u64) -> Seq<char> {
    seq!['S', 'e', 'n', 's', 'o', 'r', ' '] + decimal(id as nat)
}

/// A fresh record with the default name.
pub open spec fn fresh_record(id: u64, state: bool, now: int) -> SensorView {
    SensorView { id, name: default_name(id), state, last_update: now }
}

/// Relies on std's `ToString` for `u64`, through its `Display`, which writes
/// the number in decimal without sign or leading zeros.
#[verifier::external_body]
fn decimal_string(n: u64) -> (r: String)
    ensures
        r@ == decimal(n as nat),
{
    n.to_string()
}

/// The default name of sensor `id`.
fn default_name_string(id: u64) -> (r: String)
    ensures
        r@ == default_name(id),
{
    let digits = decimal_string(id);
    proof {
        reveal_strlit("Sensor ");
    }
    let prefix = "Sensor ".to_owned();
    let r = prefix.concat(digits.as_str());
    assert(r@ =~= default_name(id));
    r
}

impl SensorData {
    /// A new record under `id` with the default name, stamped with the
    /// current time.
    pub fn new(id: u64, state: bool) -> (r: SensorData)
        ensures
            r.id == id,
            r.name@ == default_name(id),
            r.state == state,
    {
        SensorData::new_at(id, state, now_utc())
    }

    /// A new record under `id` with the default name, stamped `now`.
    pub fn new_at(id: u64, state: bool, now: Timestamp) -> (r: SensorData)
        ensures
            r@ == fresh_record(id, state, now@),
    {
        SensorData { id, name: default_name_string(id), state, last_update: now }
    }

    /// Sets the state and refreshes the time of last change from the clock.
    pub fn update_state(&mut self, state: bool)
        ensures
            final(self).id == old(self).id,
            final(self).name@ == old(self).name@,
            final(self).state == state,
            final(self).last_update@ >= old(self).last_update@,
    {
        self.update_state_at(state, now_utc());
    }

    /// Sets the state and refreshes the time of last change to `now`, never
    /// moving it back.
    pub fn update_state_at(&mut self, state: bool, now: Timestamp)
        ensures
            final(self)@ == (SensorView {
                state,
                last_update: refreshed(old(self).last_update@, now@),
                ..old(self)@
            }),
    {
        self.state = state;
        self.last_update = self.last_update.refreshed_at(now);
    }

    /// Sets the name and refreshes the time of last change to `now`, never
    /// moving it back.
    pub fn rename_at(&mut self, name: String, now: Timestamp)
        ensures
            final(self)@ == (SensorView {
                name: name@,
                last_update: refreshed(old(self).last_update@, now@),
                ..old(self)@
            }),
    {
        self.name = name;
        self.last_update = self.last_update.refreshed_at(now);
    }
}

} // verus!
