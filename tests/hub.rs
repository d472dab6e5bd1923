use shutter::hub::{BroadcastHub, Delivery};
use shutter::state::{SensorData, SensorStateMap};
use shutter::timestamp::Timestamp;

fn snapshot(n: u64) -> SensorStateMap {
    SensorStateMap::from([(n, SensorData::new_at(n, true, Timestamp::from_unix_nanos(n as i128)))])
}

#[test]
fn publish_without_subscribers_reaches_none() {
    let mut hub = BroadcastHub::new(4);
    assert_eq!(hub.publish(snapshot(1)), 0);
}

#[test]
fn publish_reaches_every_current_subscriber_in_order() {
    let mut hub = BroadcastHub::new(4);
    let mut a = hub.subscribe();
    let mut b = hub.subscribe();
    assert_eq!(hub.publish(snapshot(1)), 2);
    assert_eq!(hub.publish(snapshot(2)), 2);
    for sub in [&mut a, &mut b] {
        for n in [1, 2] {
            match sub.try_next() {
                Delivery::Snapshot(s) => assert_eq!(s, snapshot(n)),
                _ => panic!("missing snapshot"),
            }
        }
        assert!(matches!(sub.try_next(), Delivery::Empty));
    }
}

#[test]
fn subscriber_sees_nothing_published_before_it_joined() {
    let mut hub = BroadcastHub::new(4);
    let _keep = hub.subscribe();
    hub.publish(snapshot(1));
    let mut late = hub.subscribe();
    assert!(matches!(late.try_next(), Delivery::Empty));
    hub.publish(snapshot(2));
    match late.try_next() {
        Delivery::Snapshot(s) => assert_eq!(s, snapshot(2)),
        _ => panic!("missing snapshot"),
    }
}

#[test]
fn slow_subscriber_is_told_it_lagged_then_resumes() {
    let mut hub = BroadcastHub::new(2);
    let mut sub = hub.subscribe();
    for n in 1..=5 {
        hub.publish(snapshot(n));
    }
    assert!(matches!(sub.try_next(), Delivery::Lagged(3)));
    match sub.try_next() {
        Delivery::Snapshot(s) => assert_eq!(s, snapshot(4)),
        _ => panic!("expected the oldest retained snapshot"),
    }
}

#[test]
fn dropped_hub_closes_subscriptions() {
    let hub = BroadcastHub::new(2);
    let mut sub = hub.subscribe();
    drop(hub);
    assert!(matches!(sub.try_next(), Delivery::Closed));
}

#[test]
fn dropped_subscriber_does_not_block_publisher() {
    let mut hub = BroadcastHub::new(2);
    let gone = hub.subscribe();
    let mut stays = hub.subscribe();
    drop(gone);
    assert_eq!(hub.publish(snapshot(1)), 1);
    assert!(matches!(stays.try_next(), Delivery::Snapshot(_)));
}
