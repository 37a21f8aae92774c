use declarative_discord_rich_presence::{Payload, SupervisorState, SyncError, SyncPhase, TickAction};

fn payload(state: &str, details: &str) -> Payload {
    Payload::new(Some(state.to_string()), Some(details.to_string()))
}

#[test]
fn initial_state_is_disabled_and_disconnected() {
    let s = SupervisorState::new();
    assert!(!s.is_enabled());
    assert!(!s.is_connected());
    assert_eq!(s.desired_payload(), None);
}

#[test]
fn last_switch_call_wins() {
    let mut s = SupervisorState::new();
    s.enable();
    assert!(s.is_enabled());
    s.enable();
    assert!(s.is_enabled());
    s.disable();
    assert!(!s.is_enabled());
    s.disable();
    assert!(!s.is_enabled());
    s.enable();
    s.disable();
    s.enable();
    assert!(s.is_enabled());
}

#[test]
fn switch_calls_touch_nothing_else() {
    let mut s = SupervisorState::new();
    let _ = s.set_activity_request(payload("here", "now"));
    let _ = s.note_connect_result(true);
    s.enable();
    s.disable();
    assert!(s.is_connected());
    assert_eq!(s.desired_payload(), Some(payload("here", "now")));
}

#[test]
fn tick_is_idle_while_disabled_and_disconnected() {
    let s = SupervisorState::new();
    assert_eq!(s.tick_action(), TickAction::Idle);
}

#[test]
fn tick_connects_while_enabled_and_disconnected() {
    let mut s = SupervisorState::new();
    s.enable();
    assert_eq!(s.tick_action(), TickAction::Connect);
}

#[test]
fn tick_is_idle_while_enabled_and_connected() {
    let mut s = SupervisorState::new();
    s.enable();
    let _ = s.note_connect_result(true);
    assert_eq!(s.tick_action(), TickAction::Idle);
}

#[test]
fn tick_closes_while_disabled_but_connected() {
    let mut s = SupervisorState::new();
    s.enable();
    let _ = s.note_connect_result(true);
    s.disable();
    assert_eq!(s.tick_action(), TickAction::CloseConnection);
    s.note_closed();
    assert!(!s.is_connected());
    assert_eq!(s.tick_action(), TickAction::Idle);
}

#[test]
fn failed_connects_change_nothing_and_first_success_pushes() {
    let mut s = SupervisorState::new();
    s.enable();
    let _ = s.set_activity_request(payload("queued", "while down"));
    for _ in 0..4 {
        assert_eq!(s.tick_action(), TickAction::Connect);
        assert_eq!(s.note_connect_result(false), None);
        assert!(!s.is_connected());
    }
    assert_eq!(s.tick_action(), TickAction::Connect);
    let pushed = s.note_connect_result(true);
    assert!(s.is_connected());
    assert_eq!(pushed, Some(payload("queued", "while down")));
}

#[test]
fn connect_without_desired_payload_pushes_nothing() {
    let mut s = SupervisorState::new();
    s.enable();
    assert_eq!(s.note_connect_result(true), None);
    assert!(s.is_connected());
}

#[test]
fn set_while_disconnected_succeeds_and_applies_on_connect() {
    let mut s = SupervisorState::new();
    s.enable();
    let sync_needed = s.set_activity_request(payload("hello", "world"));
    assert!(!sync_needed);
    assert_eq!(s.desired_payload(), Some(payload("hello", "world")));
    let pushed = s.note_connect_result(true);
    assert_eq!(pushed, Some(payload("hello", "world")));
}

#[test]
fn set_overwrites_never_merges() {
    let mut s = SupervisorState::new();
    let _ = s.set_activity_request(payload("first", "one"));
    let _ = s.set_activity_request(payload("second", "two"));
    assert_eq!(s.desired_payload(), Some(payload("second", "two")));
}

#[test]
fn clear_right_after_set_leaves_nothing_to_apply() {
    let mut s = SupervisorState::new();
    s.enable();
    let _ = s.set_activity_request(payload("stale", "soon"));
    let sync_needed = s.clear_activity_request();
    assert!(!sync_needed);
    assert_eq!(s.desired_payload(), None);
    let pushed = s.note_connect_result(true);
    assert_eq!(pushed, None);
}

#[test]
fn set_while_connected_asks_for_synchronous_push() {
    let mut s = SupervisorState::new();
    s.enable();
    let _ = s.note_connect_result(true);
    assert!(s.set_activity_request(payload("live", "push")));
    assert!(s.clear_activity_request());
}

#[test]
fn sync_first_attempt_success_finishes_ok() {
    let mut s = SupervisorState::new();
    let _ = s.note_connect_result(true);
    let next = s.sync_step(SyncPhase::FirstAttempt, true);
    assert_eq!(next, SyncPhase::Finished(Ok(())));
    assert!(s.is_connected());
}

#[test]
fn sync_push_and_reconnect_failure_is_reconnect_error() {
    let mut s = SupervisorState::new();
    let _ = s.note_connect_result(true);
    let next = s.sync_step(SyncPhase::FirstAttempt, false);
    assert_eq!(next, SyncPhase::Reconnecting);
    let next = s.sync_step(next, false);
    assert_eq!(next, SyncPhase::Finished(Err(SyncError::Reconnect)));
    assert!(!s.is_connected());
}

#[test]
fn sync_reconnect_and_retry_success_finishes_ok() {
    let mut s = SupervisorState::new();
    let _ = s.note_connect_result(true);
    let next = s.sync_step(SyncPhase::FirstAttempt, false);
    let next = s.sync_step(next, true);
    assert_eq!(next, SyncPhase::Retrying);
    assert!(s.is_connected());
    let next = s.sync_step(next, true);
    assert_eq!(next, SyncPhase::Finished(Ok(())));
}

#[test]
fn sync_retry_failure_is_apply_error() {
    let mut s = SupervisorState::new();
    let _ = s.note_connect_result(true);
    let next = s.sync_step(SyncPhase::FirstAttempt, false);
    let next = s.sync_step(next, true);
    let next = s.sync_step(next, false);
    assert_eq!(next, SyncPhase::Finished(Err(SyncError::Apply)));
}

#[test]
fn sync_finished_phase_is_absorbing() {
    let mut s = SupervisorState::new();
    let done = SyncPhase::Finished(Err(SyncError::Apply));
    assert_eq!(s.sync_step(done, true), done);
    assert_eq!(s.sync_step(done, false), done);
}

#[test]
fn payload_clone_preserves_both_lines() {
    let p = Payload::new(Some("state line".to_string()), None);
    let q = p.clone();
    assert_eq!(p, q);
    assert_eq!(q.state.as_deref(), Some("state line"));
    assert_eq!(q.details, None);
}
