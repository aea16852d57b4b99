use redis_to_websocket::registry::Registry;
use redis_to_websocket::relay::{apply_pass, failed_indices, relay_step, RelayAction, RelayEvent};

fn contents(reg: &Registry<u64>) -> Vec<u64> {
    let mut out = Vec::new();
    for i in 0..reg.len() {
        out.push(*reg.connection(i));
    }
    out
}

/// One broadcast pass simulated against per-connection delivery logs:
/// connection `id` refuses every write once `dead[id]` is set; a
/// successful write appends the payload to `logs[id]`.
fn broadcast(reg: &mut Registry<u64>, payload: &str, dead: &[bool], logs: &mut [Vec<String>]) {
    let mut outcomes: Vec<bool> = Vec::new();
    for i in 0..reg.len() {
        let id = *reg.connection(i) as usize;
        if dead[id] {
            outcomes.push(false);
        } else {
            logs[id].push(payload.to_string());
            outcomes.push(true);
        }
    }
    apply_pass(reg, &outcomes);
}

#[test]
fn failed_indices_are_exactly_the_false_outcomes() {
    let failed = failed_indices(&vec![true, false, true, false, false]);
    assert_eq!(failed, vec![1, 3, 4]);
}

#[test]
fn failed_indices_of_no_outcomes_is_empty() {
    let failed = failed_indices(&Vec::new());
    assert!(failed.is_empty());
}

#[test]
fn flawless_pass_keeps_every_connection() {
    let mut reg = Registry::new();
    reg.insert(1u64);
    reg.insert(2u64);
    apply_pass(&mut reg, &vec![true, true]);
    assert_eq!(contents(&reg), vec![1, 2]);
}

#[test]
fn failed_write_removes_only_that_connection() {
    let mut reg = Registry::new();
    reg.insert(1u64);
    reg.insert(2u64);
    reg.insert(3u64);
    apply_pass(&mut reg, &vec![true, false, true]);
    assert_eq!(contents(&reg), vec![1, 3]);
}

#[test]
fn every_connection_receives_all_messages_in_order() {
    // Two registered connections, no failures: both observe every
    // payload, in bus-arrival order.
    let mut reg = Registry::new();
    reg.insert(0u64);
    reg.insert(1u64);
    let dead = [false, false];
    let mut logs = [Vec::new(), Vec::new()];
    broadcast(&mut reg, "a", &dead, &mut logs);
    broadcast(&mut reg, "b", &dead, &mut logs);
    assert_eq!(logs[0], vec!["a".to_string(), "b".to_string()]);
    assert_eq!(logs[1], vec!["a".to_string(), "b".to_string()]);
    assert_eq!(contents(&reg), vec![0, 1]);
}

#[test]
fn dead_connection_gets_nothing_and_late_one_only_the_rest() {
    // C1 is registered and its socket is closed: the broadcast of "a"
    // fails for it, C2 connects, "b" is broadcast. C1 receives
    // nothing, C2 receives only "b".
    let mut reg = Registry::new();
    reg.insert(0u64); // C1
    let dead = [true, false];
    let mut logs = [Vec::new(), Vec::new()];
    broadcast(&mut reg, "a", &dead, &mut logs);
    assert_eq!(reg.len(), 0);
    reg.insert(1u64); // C2
    broadcast(&mut reg, "b", &dead, &mut logs);
    assert!(logs[0].is_empty());
    assert_eq!(logs[1], vec!["b".to_string()]);
}

#[test]
fn connection_accepted_between_passes_joins_later_passes_only() {
    let mut reg = Registry::new();
    reg.insert(0u64);
    reg.insert(1u64);
    let dead = [false, false, false];
    let mut logs = [Vec::new(), Vec::new(), Vec::new()];
    broadcast(&mut reg, "a", &dead, &mut logs);
    reg.insert(2u64);
    assert_eq!(contents(&reg), vec![0, 1, 2]);
    broadcast(&mut reg, "b", &dead, &mut logs);
    assert_eq!(logs[2], vec!["b".to_string()]);
    assert_eq!(logs[0], vec!["a".to_string(), "b".to_string()]);
    assert_eq!(contents(&reg), vec![0, 1, 2]);
}

#[test]
fn relay_broadcasts_exactly_the_payload_in_hand() {
    assert_eq!(
        relay_step(RelayEvent::Received("a".to_string())),
        RelayAction::Broadcast("a".to_string())
    );
    assert_eq!(relay_step(RelayEvent::ReceiveFailed), RelayAction::Skip);
    assert_eq!(relay_step(RelayEvent::PayloadFailed), RelayAction::Skip);
    assert_eq!(relay_step(RelayEvent::LockFailed), RelayAction::Skip);
}
