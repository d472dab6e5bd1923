use shutter::hub::Delivery;
use shutter::ops::{delete_sensor, get_sensors, set_sensor_state, update_sensor_name};
use shutter::state::{SensorData, SensorStateMap};
use shutter::store::{AppState, Mutation};
use shutter::timestamp::Timestamp;

fn at(n: i128) -> Timestamp {
    Timestamp::from_unix_nanos(n)
}

fn record(id: u64, name: &str, state: bool, t: i128) -> SensorData {
    SensorData { id, name: name.to_string(), state, last_update: at(t) }
}

fn two_sensor_store() -> AppState {
    let mut app = AppState::new_at(at(100));
    app.delete(2);
    app
}

#[test]
fn initial_store_holds_three_sensors_off() {
    let app = AppState::new_at(at(100));
    let snap = app.get();
    let expected: SensorStateMap = SensorStateMap::from([
        (0, record(0, "Sensor 0", false, 100)),
        (1, record(1, "Sensor 1", false, 100)),
        (2, record(2, "Sensor 2", false, 100)),
    ]);
    assert_eq!(snap, expected);
}

#[test]
fn initial_store_from_clock_has_default_names() {
    let app = AppState::new();
    let snap = get_sensors(&app);
    let names: Vec<&str> = snap.values().map(|d| d.name.as_str()).collect();
    assert_eq!(names, vec!["Sensor 0", "Sensor 1", "Sensor 2"]);
    assert!(snap.values().all(|d| !d.state));
    assert_eq!(snap[&0].last_update, snap[&2].last_update);
}

#[test]
fn set_state_on_existing_sensor_is_published_to_all_subscribers() {
    let mut app = two_sensor_store();
    let mut first = app.subscribe();
    let mut second = app.subscribe();
    let before = app.get();
    let snap = app.set_state_at(1, true, at(250));
    assert_eq!(snap.len(), 2);
    assert_eq!(snap[&1], record(1, "Sensor 1", true, 250));
    assert!(snap[&1].last_update.unix_nanos > before[&1].last_update.unix_nanos);
    assert_eq!(snap[&0], before[&0]);
    assert_eq!(app.get(), snap);
    for sub in [&mut first, &mut second] {
        match sub.try_next() {
            Delivery::Snapshot(s) => assert_eq!(s, snap),
            _ => panic!("subscriber missed the publish"),
        }
        assert!(matches!(sub.try_next(), Delivery::Empty));
    }
}

#[test]
fn set_state_on_absent_id_creates_default_record_then_updates_in_place() {
    let mut app = two_sensor_store();
    let snap = app.set_state_at(7, true, at(300));
    assert_eq!(snap.len(), 3);
    assert_eq!(snap[&7], record(7, "Sensor 7", true, 300));
    let snap = app.set_state_at(7, false, at(400));
    assert_eq!(snap.len(), 3);
    assert_eq!(snap[&7], record(7, "Sensor 7", false, 400));
}

#[test]
fn default_names_are_decimal() {
    assert_eq!(SensorData::new_at(0, false, at(0)).name, "Sensor 0");
    assert_eq!(SensorData::new_at(1234567, true, at(0)).name, "Sensor 1234567");
    assert_eq!(SensorData::new_at(u64::MAX, true, at(0)).name, "Sensor 18446744073709551615");
    let d = SensorData::new(42, true);
    assert_eq!(d.id, 42);
    assert_eq!(d.name, "Sensor 42");
    assert!(d.state);
}

#[test]
fn rename_of_absent_id_leaves_store_and_republishes_it() {
    let mut app = two_sensor_store();
    let mut sub = app.subscribe();
    let before = app.get();
    let snap = app.rename_at(5, "Garage Door".to_string(), at(500));
    assert_eq!(snap, before);
    assert_eq!(app.get(), before);
    match sub.try_next() {
        Delivery::Snapshot(s) => assert_eq!(s, before),
        _ => panic!("expected the unchanged store to be republished"),
    }
}

#[test]
fn rename_of_existing_id_sets_name_and_time() {
    let mut app = two_sensor_store();
    let snap = app.rename_at(0, "Garage Door".to_string(), at(500));
    assert_eq!(snap[&0], record(0, "Garage Door", false, 500));
    assert_eq!(snap[&1], record(1, "Sensor 1", false, 100));
}

#[test]
fn delete_of_absent_id_leaves_store() {
    let mut app = two_sensor_store();
    let before = app.get();
    assert_eq!(app.delete(9), before);
    let snap = app.delete(0);
    assert_eq!(snap.keys().copied().collect::<Vec<u64>>(), vec![1]);
    assert_eq!(app.delete(0), snap);
}

#[test]
fn last_update_never_goes_back() {
    let mut app = AppState::new_at(at(1_000));
    let snap = app.set_state_at(0, true, at(10));
    assert_eq!(snap[&0].last_update, at(1_000));
    assert!(snap[&0].state);
    let snap = app.rename_at(1, "Porch".to_string(), at(-5));
    assert_eq!(snap[&1].last_update, at(1_000));
    assert_eq!(snap[&1].name, "Porch");
    let snap = app.set_state_at(1, true, at(2_000));
    assert_eq!(snap[&1].last_update, at(2_000));
}

#[test]
fn refreshed_at_takes_the_later_instant() {
    assert_eq!(at(5).refreshed_at(at(9)), at(9));
    assert_eq!(at(9).refreshed_at(at(5)), at(9));
    assert_eq!(at(-3).refreshed_at(at(-3)), at(-3));
}

#[test]
fn sequence_of_mutations_equals_one_by_one_replay() {
    let ops = vec![
        (Mutation::SetState { id: 4, state: true }, at(200)),
        (Mutation::Rename { id: 4, name: "Attic".to_string() }, at(150)),
        (Mutation::Delete { id: 0 }, at(300)),
        (Mutation::Rename { id: 0, name: "Gone".to_string() }, at(400)),
        (Mutation::SetState { id: 1, state: true }, at(500)),
    ];
    let mut batch = AppState::new_at(at(100));
    for (op, t) in &ops {
        batch.apply_at(op, *t);
    }
    let mut single = AppState::new_at(at(100));
    single.set_state_at(4, true, at(200));
    single.rename_at(4, "Attic".to_string(), at(150));
    single.delete(0);
    single.rename_at(0, "Gone".to_string(), at(400));
    single.set_state_at(1, true, at(500));
    assert_eq!(batch.get(), single.get());
    let expected: SensorStateMap = SensorStateMap::from([
        (1, record(1, "Sensor 1", true, 500)),
        (2, record(2, "Sensor 2", false, 100)),
        (4, record(4, "Attic", true, 200)),
    ]);
    assert_eq!(batch.get(), expected);
}

#[test]
fn late_subscriber_catches_up_on_next_publish() {
    let mut app = AppState::new_at(at(100));
    let mut early = app.subscribe();
    app.set_state_at(0, true, at(110));
    app.set_state_at(2, true, at(120));
    let mut late = app.subscribe();
    assert!(matches!(late.try_next(), Delivery::Empty));
    app.rename_at(1, "Hall".to_string(), at(130));
    let now = app.get();
    match late.try_next() {
        Delivery::Snapshot(s) => assert_eq!(s, now),
        _ => panic!("late subscriber missed the publish"),
    }
    let mut last = None;
    while let Delivery::Snapshot(s) = early.try_next() {
        last = Some(s);
    }
    assert_eq!(last, Some(now));
}

#[test]
fn clock_operations_mutate_and_publish() {
    let mut app = AppState::new();
    let mut sub = app.subscribe();
    let before = get_sensors(&app);
    set_sensor_state(&mut app, 1, true);
    update_sensor_name(&mut app, 1, "Front Door".to_string());
    set_sensor_state(&mut app, 9, true);
    delete_sensor(&mut app, 0);
    let snap = get_sensors(&app);
    assert_eq!(snap.keys().copied().collect::<Vec<u64>>(), vec![1, 2, 9]);
    assert_eq!(snap[&1].name, "Front Door");
    assert!(snap[&1].state);
    assert!(snap[&1].last_update.unix_nanos >= before[&1].last_update.unix_nanos);
    assert_eq!(snap[&9].name, "Sensor 9");
    let mut count = 0;
    let mut last = None;
    while let Delivery::Snapshot(s) = sub.try_next() {
        count += 1;
        last = Some(s);
    }
    assert_eq!(count, 4);
    assert_eq!(last, Some(snap));
}

#[test]
fn store_hub_buffers_thirty_two_snapshots_per_subscriber() {
    let mut app = AppState::new_at(at(0));
    let mut full = app.subscribe();
    let mut over = app.subscribe();
    for n in 1..=32 {
        app.set_state_at(0, n % 2 == 1, at(n));
    }
    let mut count = 0;
    while let Delivery::Snapshot(_) = full.try_next() {
        count += 1;
    }
    assert_eq!(count, 32);
    let last = app.set_state_at(1, true, at(33));
    assert!(matches!(over.try_next(), Delivery::Lagged(1)));
    let mut latest = None;
    while let Delivery::Snapshot(s) = over.try_next() {
        latest = Some(s);
    }
    assert_eq!(latest, Some(last));
}
