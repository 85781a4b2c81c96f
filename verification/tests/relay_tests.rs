use relay::Action;
use relay::Pump;
use relay::Registry;
use relay::SocketEvent;
use relay::route::Route;
use relay::route::route;
use relay::subscribe;

/// Simulates the runtime's delivery loop: appends each sent text to the inbox
/// of its target handle, skipping handles whose send fails. A failed send
/// does not stop the loop, mirroring the best-effort broadcast contract.
fn deliver(actions: &[Action], inboxes: &mut Vec<(u64, Vec<String>)>, failing: &[u64]) {
    for action in actions {
        if let Action::SendText { handle, text } = action {
            if failing.contains(handle) {
                continue;
            }
            for (h, inbox) in inboxes.iter_mut() {
                if h == handle {
                    inbox.push(text.clone());
                }
            }
        }
    }
}

fn close_codes(actions: &[Action]) -> Vec<(u64, u16)> {
    let mut codes = Vec::new();
    for action in actions {
        if let Action::CloseSocket { handle, code } = action {
            codes.push((*handle, *code));
        }
    }
    codes
}

#[test]
fn register_increments_count() {
    let mut reg = Registry::new();
    assert_eq!(reg.connection_count(), 0);
    assert!(reg.insert(1, 10));
    assert_eq!(reg.connection_count(), 1);
    assert!(reg.insert(2, 20));
    assert_eq!(reg.connection_count(), 2);
    assert!(reg.contains_id(1));
    assert!(reg.contains_id(2));
}

#[test]
fn duplicate_register_rejected() {
    let mut reg = Registry::new();
    assert!(reg.insert(1, 10));
    assert!(!reg.insert(1, 99));
    assert_eq!(reg.connection_count(), 1);
}

#[test]
fn remove_decrements_and_leaves_others() {
    let mut reg = Registry::new();
    assert!(reg.insert(1, 10));
    assert!(reg.insert(2, 20));
    assert!(reg.insert(3, 30));
    assert_eq!(reg.remove(2), Some(20));
    assert_eq!(reg.connection_count(), 2);
    assert!(reg.contains_id(1));
    assert!(!reg.contains_id(2));
    assert!(reg.contains_id(3));
    let plan = reg.broadcast(&"ping".to_string());
    assert_eq!(
        plan,
        vec![
            Action::SendText { handle: 10, text: "ping".to_string() },
            Action::SendText { handle: 30, text: "ping".to_string() },
        ]
    );
}

#[test]
fn remove_absent_is_noop() {
    let mut reg = Registry::new();
    assert!(reg.insert(1, 10));
    assert_eq!(reg.remove(42), None);
    assert_eq!(reg.connection_count(), 1);
    assert!(reg.contains_id(1));
}

#[test]
fn broadcast_with_no_subscribers_is_noop() {
    let reg = Registry::new();
    let plan = reg.broadcast(&"anyone there?".to_string());
    assert!(plan.is_empty());
    assert_eq!(reg.connection_count(), 0);
}

#[test]
fn broadcast_reaches_every_subscriber_in_order() {
    let mut reg = Registry::new();
    assert!(reg.insert(1, 10));
    assert!(reg.insert(2, 20));
    let mut inboxes = vec![(10u64, Vec::new()), (20u64, Vec::new())];
    deliver(&reg.broadcast(&"a".to_string()), &mut inboxes, &[]);
    deliver(&reg.broadcast(&"b".to_string()), &mut inboxes, &[]);
    assert_eq!(inboxes[0].1, vec!["a".to_string(), "b".to_string()]);
    assert_eq!(inboxes[1].1, vec!["a".to_string(), "b".to_string()]);
}

#[test]
fn send_failure_does_not_stop_the_broadcast() {
    let mut reg = Registry::new();
    assert!(reg.insert(1, 10));
    assert!(reg.insert(2, 20));
    assert!(reg.insert(3, 30));
    let plan = reg.broadcast(&"m".to_string());
    assert_eq!(plan.len(), 3);
    let mut inboxes = vec![(10u64, Vec::new()), (20u64, Vec::new()), (30u64, Vec::new())];
    deliver(&plan, &mut inboxes, &[20]);
    assert_eq!(inboxes[0].1, vec!["m".to_string()]);
    assert!(inboxes[1].1.is_empty());
    assert_eq!(inboxes[2].1, vec!["m".to_string()]);
}

#[test]
fn publisher_close_evicts_all_with_going_away() {
    let mut reg = Registry::new();
    assert!(reg.insert(1, 10));
    assert!(reg.insert(2, 20));
    let mut pump = Pump::new();
    assert!(pump.is_running());
    let actions = pump.on_event(&mut reg, SocketEvent::Close);
    assert_eq!(close_codes(&actions), vec![(10, 1001), (20, 1001)]);
    assert_eq!(reg.connection_count(), 0);
    assert!(!pump.is_running());
}

#[test]
fn malformed_event_is_ignored() {
    let mut reg = Registry::new();
    assert!(reg.insert(1, 10));
    let mut pump = Pump::new();
    let actions = pump.on_event(&mut reg, SocketEvent::Message { text: None });
    assert!(actions.is_empty());
    assert_eq!(reg.connection_count(), 1);
    assert!(pump.is_running());
}

#[test]
fn terminated_pump_ignores_events() {
    let mut reg = Registry::new();
    let mut pump = Pump::new();
    pump.on_event(&mut reg, SocketEvent::Close);
    assert!(!pump.is_running());
    assert!(reg.insert(1, 10));
    let actions = pump.on_event(&mut reg, SocketEvent::Message { text: Some("x".to_string()) });
    assert!(actions.is_empty());
    assert_eq!(reg.connection_count(), 1);
}

#[test]
fn stream_end_terminates_but_leaves_registry() {
    let mut reg = Registry::new();
    assert!(reg.insert(1, 10));
    let mut pump = Pump::new();
    pump.on_stream_end();
    assert!(!pump.is_running());
    assert_eq!(reg.connection_count(), 1);
}

#[test]
fn hello_then_close_reaches_both_subscribers() {
    let mut reg = Registry::new();
    assert!(reg.insert(1, 10));
    assert!(reg.insert(2, 20));
    let mut pump = Pump::new();
    let mut inboxes = vec![(10u64, Vec::new()), (20u64, Vec::new())];
    let actions = pump.on_event(&mut reg, SocketEvent::Message { text: Some("hello".to_string()) });
    deliver(&actions, &mut inboxes, &[]);
    assert_eq!(inboxes[0].1, vec!["hello".to_string()]);
    assert_eq!(inboxes[1].1, vec!["hello".to_string()]);
    let closes = pump.on_event(&mut reg, SocketEvent::Close);
    assert_eq!(close_codes(&closes), vec![(10, 1001), (20, 1001)]);
    assert_eq!(reg.connection_count(), 0);
}

#[test]
fn late_subscriber_sees_only_later_messages() {
    let mut reg = Registry::new();
    let mut pump = Pump::new();
    let mut inboxes = vec![(10u64, Vec::new()), (20u64, Vec::new())];
    assert!(reg.insert(1, 10));
    let first = pump.on_event(&mut reg, SocketEvent::Message { text: Some("a".to_string()) });
    deliver(&first, &mut inboxes, &[]);
    assert_eq!(reg.remove(1), Some(10));
    assert!(reg.insert(2, 20));
    let second = pump.on_event(&mut reg, SocketEvent::Message { text: Some("b".to_string()) });
    deliver(&second, &mut inboxes, &[]);
    assert_eq!(inboxes[0].1, vec!["a".to_string()]);
    assert_eq!(inboxes[1].1, vec!["b".to_string()]);
}

#[test]
fn routes_dispatch_by_path() {
    assert_eq!(route(&"/subscriber".to_string()), Route::Subscribe);
    assert_eq!(route(&"/publisher".to_string()), Route::Publish);
    assert_eq!(route(&"/".to_string()), Route::NotFound);
    assert_eq!(route(&"/subscribers".to_string()), Route::NotFound);
    assert_eq!(route(&"".to_string()), Route::NotFound);
}

#[test]
fn subscribe_registers_fresh_random_ids() {
    let mut reg = Registry::new();
    let first = subscribe(&mut reg, 10).expect("fresh id should register");
    let second = subscribe(&mut reg, 20).expect("fresh id should register");
    assert_eq!(reg.connection_count(), 2);
    assert!(reg.contains_id(first));
    assert!(reg.contains_id(second));
    assert_ne!(first, second);
    assert_eq!(reg.remove(first), Some(10));
    assert_eq!(reg.remove(second), Some(20));
}
