use vstd::prelude::*;

use crate::session::{session_wf, step_spec, SessionEvent, SessionView};
use crate::state::{default_name, ids_match, SensorView};
use crate::store::{apply_spec, delete_spec, initial_store, rename_spec, set_state_spec, MutationView};

verus! {

/// The store after performing `ops` one after the other, each at its time.
pub open spec fn replay(m: Map<u64, SensorView>, ops: Seq<(MutationView, int)>) -> Map<
    u64,
    SensorView,
>
    decreases ops.len(),
{
    if ops.len() == 0 {
        m
    } else {
        apply_spec(replay(m, ops.drop_last()), ops.last().0, ops.last().1)
    }
}

/// What a subscriber holds after the deliveries it has seen: the last full
/// snapshot, whatever came before it.
pub open spec fn reconstructed(received: Seq<Map<u64, SensorView>>) -> Option<
    Map<u64, SensorView>,
> {
    if received.len() == 0 {
        None
    } else {
        Some(received.last())
    }
}

/// Replaying two runs of mutations back to back is replaying their
/// concatenation.
pub proof fn lemma_replay_concat(
    m: Map<u64, SensorView>,
    a: Seq<(MutationView, int)>,
    b: Seq<(MutationView, int)>,
)
    ensures
        replay(m, a + b) == replay(replay(m, a), b),
    decreases b.len(),
{
    if b.len() == 0 {
        assert(a + b =~= a);
    } else {
        lemma_replay_concat(m, a, b.drop_last());
        assert((a + b).drop_last() =~= a + b.drop_last());
    }
}

/// A run of calls in which each call takes the store from one state to the
/// next as its mutation says ends in the state that replaying the same
/// mutations in the same order gives: no mutation is lost or counted twice.
pub proof fn lemma_calls_replay(
    ops: Seq<(MutationView, int)>,
    states: Seq<Map<u64, SensorView>>,
)
    requires
        states.len() == ops.len() + 1,
        forall|i: int|
            0 <= i < ops.len() ==> #[trigger] states[i + 1] == apply_spec(
                states[i],
                ops[i].0,
                ops[i].1,
            ),
    ensures
        states.last() == replay(states[0], ops),
    decreases ops.len(),
{
    if ops.len() > 0 {
        let n = ops.len() - 1;
        lemma_calls_replay(ops.drop_last(), states.drop_last());
        assert(states[n + 1] == apply_spec(states[n], ops[n].0, ops[n].1));
    }
}

/// A change of state or name never moves any record's time of last change
/// back, and keeps every record that was there.
pub proof fn lemma_last_update_monotone(m: Map<u64, SensorView>, op: MutationView, now: int)
    requires
        !(op is Delete),
    ensures
        forall|k: u64|
            #[trigger] m.contains_key(k) ==> apply_spec(m, op, now).contains_key(k)
                && apply_spec(m, op, now)[k].last_update >= m[k].last_update,
{
}

/// Every mutation keeps each record under its own id, as the initial store
/// has it.
pub proof fn lemma_ids_match_kept(m: Map<u64, SensorView>, op: MutationView, now: int)
    requires
        ids_match(m),
    ensures
        ids_match(apply_spec(m, op, now)),
{
}

/// The store the process starts with has each record under its own id.
pub proof fn lemma_initial_ids_match(now: int)
    ensures
        ids_match(initial_store(now)),
{
}

/// Setting the state of an absent id creates one record with that state and
/// a non-empty default name; setting it again updates that record in place
/// and adds none.
pub proof fn lemma_set_state_upserts(
    m: Map<u64, SensorView>,
    id: u64,
    first: bool,
    t1: int,
    second: bool,
    t2: int,
)
    requires
        !m.contains_key(id),
    ensures
        ({
            let m1 = set_state_spec(m, id, first, t1);
            let m2 = set_state_spec(m1, id, second, t2);
            &&& m1.dom() == m.dom().insert(id)
            &&& m1[id].state == first
            &&& m1[id].name == default_name(id)
            &&& m1[id].name.len() > 0
            &&& m2.dom() == m1.dom()
            &&& m2[id].state == second
            &&& m2[id].name == m1[id].name
            &&& m2[id].id == id
        }),
{
    let m1 = set_state_spec(m, id, first, t1);
    assert(m1.dom() =~= m.dom().insert(id));
    assert(set_state_spec(m1, id, second, t2).dom() =~= m1.dom());
}

/// Renaming or deleting an absent id leaves the store as it is.
pub proof fn lemma_absent_id_unchanged(m: Map<u64, SensorView>, id: u64, name: Seq<char>, now: int)
    requires
        !m.contains_key(id),
    ensures
        rename_spec(m, id, name, now) == m,
        delete_spec(m, id) == m,
{
    assert(m.remove(id) =~= m);
}

/// A subscriber that joined after any number of earlier publishes, and has
/// seen any of them, holds exactly the store as it stands right after a
/// mutation once it is delivered the snapshot that mutation handed to the hub
/// (each mutation appends the resulting store to the publication log).
pub proof fn lemma_late_subscriber_catches_up(
    seen: Seq<Map<u64, SensorView>>,
    log_before: Seq<Map<u64, SensorView>>,
    log_after: Seq<Map<u64, SensorView>>,
    store_after: Map<u64, SensorView>,
)
    requires
        log_after == log_before.push(store_after),
    ensures
        reconstructed(seen.push(log_after.last())) == Some(store_after),
{
}

/// Over a run of calls each of which appends the resulting store to the
/// publication log, the log gains exactly those stores, one per call, in
/// the order of the calls: no consumer is handed an older generation after
/// a newer one.
pub proof fn lemma_calls_publish_in_order(
    states: Seq<Map<u64, SensorView>>,
    logs: Seq<Seq<Map<u64, SensorView>>>,
)
    requires
        states.len() >= 1,
        logs.len() == states.len(),
        forall|i: int| 0 <= i < states.len() - 1 ==> #[trigger] logs[i + 1] == logs[i].push(states[i + 1]),
    ensures
        logs.last() == logs[0] + states.drop_first(),
    decreases states.len(),
{
    if states.len() == 1 {
        assert(logs[0] + states.drop_first() =~= logs[0]);
    } else {
        let n = states.len() - 1;
        lemma_calls_publish_in_order(states.drop_last(), logs.drop_last());
        assert(logs[n] == logs[n - 1].push(states[n]));
        assert(states.drop_last().drop_first().push(states[n]) =~= states.drop_first());
        assert(logs[0] + states.drop_first() =~= (logs[0] + states.drop_last().drop_first()).push(states[n]));
    }
}

/// Setting the state of an id that is present, in a store where every record
/// sits under its own id, updates that record in place: no record is added,
/// the record keeps its id and name and takes the new state.
pub proof fn lemma_set_state_in_place(m: Map<u64, SensorView>, id: u64, state: bool, now: int)
    requires
        ids_match(m),
        m.contains_key(id),
    ensures
        ({
            let r = set_state_spec(m, id, state, now);
            &&& r.dom() == m.dom()
            &&& r[id].id == id
            &&& r[id].name == m[id].name
            &&& r[id].state == state
            &&& forall|k: u64| k != id && #[trigger] m.contains_key(k) ==> r[k] == m[k]
        }),
{
    assert(set_state_spec(m, id, state, now).dom() =~= m.dom());
}

/// A session's step keeps the pumps that run in line with its phase, so a
/// closed session never leaves a pump behind.
pub proof fn lemma_step_keeps_session_wf(v: SessionView, ev: SessionEvent)
    requires
        session_wf(v),
    ensures
        session_wf(step_spec(v, ev).0),
{
}

} // verus!
