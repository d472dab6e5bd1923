use vstd::prelude::*;

use crate::state::{ids_match, map_view, SensorStateMap};
use crate::store::{delete_spec, rename_spec, set_state_spec, AppState};
use crate::timestamp::now_utc;

verus! {

/// The whole store, for a client that seeds its view before following the
/// live stream.
pub fn get_sensors(app_state: &AppState) -> (snapshot: SensorStateMap)
    ensures
        map_view(snapshot@) == app_state@,
        ids_match(map_view(snapshot@)),
{
    app_state.get()
}

/// Sets the state of `sensor_id`, creating the sensor if absent, stamped with
/// the current time, and publishes the resulting store.
pub fn set_sensor_state(app_state: &mut AppState, sensor_id: u64, sensor_state: bool)
    ensures
        exists|t: int| final(app_state)@ == set_state_spec(old(app_state)@, sensor_id, sensor_state, t),
        ids_match(old(app_state)@),
        ids_match(final(app_state)@),
        final(app_state).published() == old(app_state).published().push(final(app_state)@),
        final(app_state).hub_capacity() == old(app_state).hub_capacity(),
{
    let now = now_utc();
    app_state.set_state_at(sensor_id, sensor_state, now);
}

/// Renames `id` if it exists, stamped with the current time, and publishes
/// the resulting store; renaming an absent sensor changes nothing but still
/// republishes the store.
pub fn update_sensor_name(app_state: &mut AppState, id: u64, name: String)
    ensures
        exists|t: int| final(app_state)@ == rename_spec(old(app_state)@, id, name@, t),
        ids_match(old(app_state)@),
        ids_match(final(app_state)@),
        final(app_state).published() == old(app_state).published().push(final(app_state)@),
        final(app_state).hub_capacity() == old(app_state).hub_capacity(),
{
    let now = now_utc();
    app_state.rename_at(id, name, now);
}

/// Removes `id` if present and publishes the resulting store; deleting an
/// absent sensor republishes the unchanged store.
pub fn delete_sensor(app_state: &mut AppState, id: u64)
    ensures
        final(app_state)@ == delete_spec(old(app_state)@, id),
        ids_match(old(app_state)@),
        ids_match(final(app_state)@),
        final(app_state).published() == old(app_state).published().push(final(app_state)@),
        final(app_state).hub_capacity() == old(app_state).hub_capacity(),
{
    app_state.delete(id);
}

} // verus!
