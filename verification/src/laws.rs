//! The supervisor's guarantees, stated and proved over the spec-level
//! transitions that the executable methods are specified by.

use vstd::prelude::*;

use crate::payload::PayloadView;
use crate::supervisor::{
    spec_clear_request, spec_connect_push, spec_disable, spec_enable, spec_set_request,
    spec_sync_step, spec_tick_action, StateView, SyncError, SyncPhase, TickAction,
};

verus! {

/// The state after a sequence of `enable` (`true`) and `disable`
/// (`false`) calls, applied oldest first.
pub open spec fn apply_switch_calls(s: StateView, calls: Seq<bool>) -> StateView
    decreases calls.len(),
{
    if calls.len() == 0 {
        s
    } else {
        let prev = apply_switch_calls(s, calls.drop_last());
        if calls.last() {
            spec_enable(prev)
        } else {
            spec_disable(prev)
        }
    }
}

/// Law: after any non-empty sequence of `enable`/`disable` calls the
/// enabled flag equals the value set by the most recent call, and
/// neither the desired payload nor the connection view is touched.
pub proof fn lemma_last_switch_call_wins(s: StateView, calls: Seq<bool>)
    requires
        calls.len() > 0,
    ensures
        apply_switch_calls(s, calls).enabled == calls.last(),
        apply_switch_calls(s, calls).desired_payload == s.desired_payload,
        apply_switch_calls(s, calls).connected == s.connected,
    decreases calls.len(),
{
    if calls.len() > 1 {
        lemma_last_switch_call_wins(s, calls.drop_last());
    } else {
        assert(calls.drop_last().len() == 0);
        assert(apply_switch_calls(s, calls.drop_last()) == s);
    }
}

/// Law: repeating `enable` or repeating `disable` is a no-op.
pub proof fn lemma_switches_idempotent(s: StateView)
    ensures
        spec_enable(spec_enable(s)) == spec_enable(s),
        spec_disable(spec_disable(s)) == spec_disable(s),
{
}

/// Law: after `set_activity` and then `clear_activity` with no tick in
/// between, no tick ever applies the overwritten payload — only the
/// latest desired payload (here: none) is eligible, whatever a connect
/// attempt's outcome.
pub proof fn lemma_clear_overrides_set(s: StateView, p: PayloadView, ok: bool)
    ensures
        spec_clear_request(spec_set_request(s, p)).desired_payload is None,
        spec_connect_push(spec_clear_request(spec_set_request(s, p)), ok) is None,
{
}

/// Law: while disabled, a tick never attempts to connect; it closes a
/// live connection at once and otherwise does nothing.
pub proof fn lemma_disabled_never_connects(s: StateView)
    requires
        !s.enabled,
    ensures
        spec_tick_action(s) != TickAction::Connect,
        s.connected ==> spec_tick_action(s) == TickAction::CloseConnection,
        !s.connected ==> spec_tick_action(s) == TickAction::Idle,
{
}

/// The state after `n` failed connect attempts, each observed through
/// `note_connect_result(false)`.
pub open spec fn apply_failed_connects(s: StateView, n: nat) -> StateView
    decreases n,
{
    if n == 0 {
        s
    } else {
        let prev = apply_failed_connects(s, (n - 1) as nat);
        StateView { connected: false, ..prev }
    }
}

/// Law: while enabled and disconnected, failed connect attempts change
/// nothing — every following tick still attempts to connect — and the
/// first successful attempt both establishes the connection and pushes
/// the desired payload, exactly as it stood, at once.
pub proof fn lemma_connects_on_first_success(s: StateView, n: nat)
    requires
        s.enabled,
        !s.connected,
    ensures
        apply_failed_connects(s, n) == s,
        spec_tick_action(apply_failed_connects(s, n)) == TickAction::Connect,
        spec_connect_push(apply_failed_connects(s, n), true) == s.desired_payload,
    decreases n,
{
    if n > 0 {
        lemma_connects_on_first_success(s, (n - 1) as nat);
    }
}

/// Law: `set_activity` while disconnected asks for no synchronous push
/// (the request succeeds at once), stores the payload, and a later
/// successful connect applies exactly that payload without further
/// caller action.
pub proof fn lemma_offline_set_applies_on_connect(s: StateView, p: PayloadView)
    requires
        !s.connected,
    ensures
        // the request leaves the state disconnected, so it owes no
        // synchronous push and returns success at once
        spec_set_request(s, p).connected == false,
        spec_set_request(s, p).desired_payload == Some(p),
        spec_connect_push(spec_set_request(s, p), true) == Some(p),
{
}

/// Law: the synchronous retry policy settles every request as the
/// specification demands — a successful first attempt succeeds at
/// once; a failed attempt followed by a failed reconnect surfaces a
/// reconnect error; a failed attempt whose reconnect succeeds is
/// retried once, and that retry's outcome is the caller's result.
pub proof fn lemma_sync_outcomes(first_ok: bool, reconnect_ok: bool, retry_ok: bool)
    ensures
        first_ok ==> spec_sync_step(SyncPhase::FirstAttempt, first_ok) == SyncPhase::Finished(
            Ok(()),
        ),
        (!first_ok && !reconnect_ok) ==> spec_sync_step(
            spec_sync_step(SyncPhase::FirstAttempt, first_ok),
            reconnect_ok,
        ) == SyncPhase::Finished(Err(SyncError::Reconnect)),
        (!first_ok && reconnect_ok) ==> spec_sync_step(
            spec_sync_step(spec_sync_step(SyncPhase::FirstAttempt, first_ok), reconnect_ok),
            retry_ok,
        ) == SyncPhase::Finished(
            if retry_ok {
                Ok(())
            } else {
                Err(SyncError::Apply)
            },
        ),
{
}

} // verus!
