//! A declarative supervisor for a local rich-presence IPC connection.
//!
//! Callers state what they want — whether the connection should be up
//! (`enable` / `disable`) and which status payload the peer should show
//! (`set_activity_request` / `clear_activity_request`) — and a periodic
//! reconciliation loop drives the real connection toward that desired
//! state.  This crate holds the verified core: the shared state record
//! and every decision the supervisor makes.  The loop itself, the lock
//! around the state and the IPC client that performs the connect, close
//! and status calls live outside the crate; they perform each action the
//! core asks for and report the outcome back.

pub mod laws;
pub mod payload;
pub mod supervisor;

pub use payload::{Payload, PayloadView};
pub use supervisor::{StateView, SupervisorState, SyncError, SyncPhase, TickAction};
