//! The supervisor's state record and every decision it makes.
//!
//! The record holds the desired connectivity flag, the most recent
//! desired payload, and the supervisor's view of whether the connection
//! is live.  All methods are pure state transitions: the caller outside
//! this crate keeps the record under one lock, performs each connection
//! action a method asks for, and reports the outcome back through the
//! `note_*` and `sync_step` methods.

use vstd::prelude::*;

use crate::payload::{Payload, PayloadView};

verus! {

/// The shared supervisor state record.
pub struct SupervisorState {
    enabled: bool,
    desired_payload: Option<Payload>,
    connected: bool,
}

/// The mathematical value of a [`SupervisorState`].
pub struct StateView {
    /// Desired connectivity: while `true` the reconciliation loop keeps
    /// the connection up; while `false` it keeps it closed.
    pub enabled: bool,
    /// The most recent payload the caller asked to display, or `None`
    /// after a clear (or before any request).
    pub desired_payload: Option<PayloadView>,
    /// The supervisor's view of whether the connection is live.
    pub connected: bool,
}

impl View for SupervisorState {
    type V = StateView;

    closed spec fn view(&self) -> StateView {
        StateView {
            enabled: self.enabled,
            desired_payload: self.desired_payload.deep_view(),
            connected: self.connected,
        }
    }
}

/// The state every supervisor starts from: disabled, no payload, not connected.
pub open spec fn spec_initial_state() -> StateView {
    StateView { enabled: false, desired_payload: None, connected: false }
}

/// What `enable` does to the state: it sets the flag and nothing else.
pub open spec fn spec_enable(s: StateView) -> StateView {
    StateView { enabled: true, ..s }
}

/// What `disable` does to the state: it clears the flag and nothing else.
pub open spec fn spec_disable(s: StateView) -> StateView {
    StateView { enabled: false, ..s }
}

/// The connection action one reconciliation tick asks for.
#[derive(Clone, Copy, Debug, PartialEq, Eq)]
pub enum TickAction {
    /// Close the live connection.
    CloseConnection,
    /// Attempt to connect.
    Connect,
    /// Nothing to do this tick.
    Idle,
}

/// The action a tick asks for, as a function of the current state:
/// close while disabled but connected, connect while enabled but
/// disconnected, and nothing otherwise.
pub open spec fn spec_tick_action(s: StateView) -> TickAction {
    if s.enabled {
        if s.connected {
            TickAction::Idle
        } else {
            TickAction::Connect
        }
    } else {
        if s.connected {
            TickAction::CloseConnection
        } else {
            TickAction::Idle
        }
    }
}

/// The payload the loop pushes right after a connect attempt: the
/// desired payload when the attempt succeeded and one is set, nothing
/// otherwise.
pub open spec fn spec_connect_push(s: StateView, ok: bool) -> Option<PayloadView> {
    if ok {
        s.desired_payload
    } else {
        None
    }
}

/// The error a synchronous `set`/`clear` request surfaces to its caller.
#[derive(Clone, Copy, Debug, PartialEq, Eq)]
pub enum SyncError {
    /// The push failed and the one reconnect attempt failed too.
    Reconnect,
    /// The push failed, the reconnect succeeded, and the retried push
    /// failed again.
    Apply,
}

/// Where a synchronous request stands while its caller talks to the
/// peer.  The caller starts at [`SyncPhase::FirstAttempt`], performs
/// the operation each phase asks for (push or clear for the attempt
/// phases, reconnect for [`SyncPhase::Reconnecting`]) and feeds the
/// outcome to [`SupervisorState::sync_step`] until the phase is
/// [`SyncPhase::Finished`].
#[derive(Clone, Copy, Debug, PartialEq, Eq)]
pub enum SyncPhase {
    /// Perform the requested operation once.
    FirstAttempt,
    /// The first attempt failed: perform one reconnect.
    Reconnecting,
    /// The reconnect succeeded: retry the operation once.
    Retrying,
    /// The request is settled with this result.
    Finished(Result<(), SyncError>),
}

/// The synchronous retry policy: one attempt, on failure one reconnect,
/// on reconnect success one retry — and nothing more.
pub open spec fn spec_sync_step(phase: SyncPhase, ok: bool) -> SyncPhase {
    match phase {
        SyncPhase::FirstAttempt => if ok {
            SyncPhase::Finished(Ok(()))
        } else {
            SyncPhase::Reconnecting
        },
        SyncPhase::Reconnecting => if ok {
            SyncPhase::Retrying
        } else {
            SyncPhase::Finished(Err(SyncError::Reconnect))
        },
        SyncPhase::Retrying => if ok {
            SyncPhase::Finished(Ok(()))
        } else {
            SyncPhase::Finished(Err(SyncError::Apply))
        },
        SyncPhase::Finished(r) => SyncPhase::Finished(r),
    }
}

/// What a `set_activity` request does to the state: it overwrites the
/// desired payload — never merges — and touches nothing else.
pub open spec fn spec_set_request(s: StateView, p: PayloadView) -> StateView {
    StateView { desired_payload: Some(p), ..s }
}

/// What a `clear_activity` request does to the state: it drops the
/// desired payload and touches nothing else.
pub open spec fn spec_clear_request(s: StateView) -> StateView {
    StateView { desired_payload: None, ..s }
}

impl SupervisorState {
    /// Creates the initial state record.
    pub fn new() -> (s: SupervisorState)
        ensures
            s@ == spec_initial_state(),
    {
        SupervisorState { enabled: false, desired_payload: None, connected: false }
    }

    /// Asks the supervisor to keep the connection up.  Idempotent: a
    /// repeated call changes nothing.
    pub fn enable(&mut self)
        ensures
            final(self)@ == spec_enable(old(self)@),
    {
        if self.enabled {
            return ;
        }
        self.enabled = true;
    }

    /// Asks the supervisor to keep the connection closed.  Idempotent.
    pub fn disable(&mut self)
        ensures
            final(self)@ == spec_disable(old(self)@),
    {
        if !self.enabled {
            return ;
        }
        self.enabled = false;
    }

    /// The desired connectivity flag.
    pub fn is_enabled(&self) -> (b: bool)
        ensures
            b == self@.enabled,
    {
        self.enabled
    }

    /// The supervisor's view of whether the connection is live.
    pub fn is_connected(&self) -> (b: bool)
        ensures
            b == self@.connected,
    {
        self.connected
    }

    /// Decides what one reconciliation tick must do, from the current
    /// snapshot alone.  The state is not changed: the caller performs
    /// the action and reports the outcome through [`Self::note_closed`]
    /// or [`Self::note_connect_result`].
    pub fn tick_action(&self) -> (a: TickAction)
        ensures
            a == spec_tick_action(self@),
    {
        if self.enabled {
            if self.connected {
                TickAction::Idle
            } else {
                TickAction::Connect
            }
        } else {
            if self.connected {
                TickAction::CloseConnection
            } else {
                TickAction::Idle
            }
        }
    }

    /// Records that the connection was closed.  The desired payload and
    /// the enabled flag are untouched.
    pub fn note_closed(&mut self)
        ensures
            final(self)@ == (StateView { connected: false, ..old(self)@ }),
    {
        self.connected = false;
    }

    /// Records the outcome of a connect attempt and returns the payload
    /// the caller must now push, if any: after a successful connect the
    /// desired payload, if one is set, is applied at once; after a
    /// failure nothing happens until the next tick.
    pub fn note_connect_result(&mut self, ok: bool) -> (to_push: Option<Payload>)
        ensures
            final(self)@ == (StateView { connected: ok, ..old(self)@ }),
            to_push.deep_view() == spec_connect_push(old(self)@, ok),
    {
        self.connected = ok;
        if ok {
            self.desired_payload()
        } else {
            None
        }
    }

    /// Records `payload` as the new desired payload, whatever the
    /// connection state, so it survives a future (re)connect.  Returns
    /// whether the caller must now push it synchronously: only while
    /// connected; otherwise the request succeeds at once and the loop
    /// applies the payload when it next connects.
    pub fn set_activity_request(&mut self, payload: Payload) -> (sync_needed: bool)
        ensures
            final(self)@ == spec_set_request(old(self)@, payload@),
            sync_needed == old(self)@.connected,
    {
        self.desired_payload = Some(payload);
        self.connected
    }

    /// Drops the desired payload, whatever the connection state.
    /// Returns whether the caller must now clear the peer's status
    /// synchronously: only while connected.
    pub fn clear_activity_request(&mut self) -> (sync_needed: bool)
        ensures
            final(self)@ == spec_clear_request(old(self)@),
            sync_needed == old(self)@.connected,
    {
        self.desired_payload = None;
        self.connected
    }

    /// Advances a synchronous request by one reported outcome, per the
    /// retry policy [`spec_sync_step`].  Only a reconnect outcome
    /// changes the state: the connection is then live exactly when the
    /// reconnect succeeded.
    pub fn sync_step(&mut self, phase: SyncPhase, ok: bool) -> (next: SyncPhase)
        ensures
            next == spec_sync_step(phase, ok),
            final(self)@ == (StateView {
                connected: if phase is Reconnecting { ok } else { old(self)@.connected },
                ..old(self)@
            }),
    {
        match phase {
            SyncPhase::FirstAttempt => if ok {
                SyncPhase::Finished(Ok(()))
            } else {
                SyncPhase::Reconnecting
            },
            SyncPhase::Reconnecting => {
                self.connected = ok;
                if ok {
                    SyncPhase::Retrying
                } else {
                    SyncPhase::Finished(Err(SyncError::Reconnect))
                }
            },
            SyncPhase::Retrying => if ok {
                SyncPhase::Finished(Ok(()))
            } else {
                SyncPhase::Finished(Err(SyncError::Apply))
            },
            SyncPhase::Finished(r) => SyncPhase::Finished(r),
        }
    }

    /// A copy of the most recent desired payload, if any.
    pub fn desired_payload(&self) -> (p: Option<Payload>)
        ensures
            p.deep_view() == self@.desired_payload,
    {
        match &self.desired_payload {
            Some(q) => Some(q.clone()),
            None => None,
        }
    }
}

} // verus!
