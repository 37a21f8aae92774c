//! The status payload a caller asks the supervisor to display.
//!
//! The supervisor never inspects a payload: it records the most recent
//! one and hands it out when the connection comes up.  The fields are
//! the plain values the peer's wire format is built from; converting to
//! that format is the IPC client's business, outside this crate.

use vstd::prelude::*;

verus! {

/// A status payload: the optional state and details lines shown on the peer.
#[derive(Debug, PartialEq, Eq)]
pub struct Payload {
    /// The user's current status line.
    pub state: Option<String>,
    /// The second, more detailed line.
    pub details: Option<String>,
}

/// The mathematical value of a [`Payload`]: each line as a sequence of
/// characters, or `None` where the line is absent.
pub struct PayloadView {
    /// View of [`Payload::state`].
    pub state: Option<Seq<char>>,
    /// View of [`Payload::details`].
    pub details: Option<Seq<char>>,
}

impl View for Payload {
    type V = PayloadView;

    open spec fn view(&self) -> PayloadView {
        PayloadView { state: self.state.deep_view(), details: self.details.deep_view() }
    }
}

impl DeepView for Payload {
    type V = PayloadView;

    open spec fn deep_view(&self) -> PayloadView {
        self.view()
    }
}

impl Payload {
    /// Builds a payload from its two optional lines.
    pub fn new(state: Option<String>, details: Option<String>) -> (p: Payload)
        ensures
            p@.state == state.deep_view(),
            p@.details == details.deep_view(),
    {
        Payload { state, details }
    }
}

fn clone_line(line: &Option<String>) -> (r: Option<String>)
    ensures
        r.deep_view() == line.deep_view(),
{
    match line {
        Some(s) => Some(s.clone()),
        None => None,
    }
}

impl Clone for Payload {
    fn clone(&self) -> (r: Self)
        ensures
            r@ == self@,
    {
        Payload { state: clone_line(&self.state), details: clone_line(&self.details) }
    }
}

} // verus!
