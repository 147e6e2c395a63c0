//! What the engines ask their host to do, and how a cycle ends.

use vstd::prelude::*;

verus! {

/// How a synchronisation cycle ended.
#[derive(Clone, Copy, Debug, PartialEq, Eq, Structural)]
pub enum CycleEnd {
    /// The cycle ran to its end; the session stays valid.
    Completed,
    /// The session is no longer usable: log in again.
    Reauthenticate,
    /// A server answer could not be decoded: the process must stop.
    Fatal,
}

/// One request from an engine to its host. Every wait is an explicit
/// suspension: the host sleeps `delay_secs` seconds before acting.
#[derive(Clone, Debug, PartialEq, Eq)]
pub enum Action {
    /// An authenticated GET.
    Get { url: String, delay_secs: u64 },
    /// An authenticated POST without body.
    Post { url: String, delay_secs: u64 },
    /// Report whether a file exists at `path`.
    Probe { path: String },
    /// Stream the body of an authenticated GET of `url` into `path`.
    Download { url: String, path: String },
    /// The cycle is over.
    Finish { end: CycleEnd, delay_secs: u64 },
}

/// An action with its text as character sequences.
pub enum ActionView {
    Get { url: Seq<char>, delay_secs: u64 },
    Post { url: Seq<char>, delay_secs: u64 },
    Probe { path: Seq<char> },
    Download { url: Seq<char>, path: Seq<char> },
    Finish { end: CycleEnd, delay_secs: u64 },
}

impl View for Action {
    type V = ActionView;

    open spec fn view(&self) -> ActionView {
        match self {
            Action::Get { url, delay_secs } => ActionView::Get { url: url@, delay_secs: *delay_secs },
            Action::Post { url, delay_secs } => ActionView::Post {
                url: url@,
                delay_secs: *delay_secs,
            },
            Action::Probe { path } => ActionView::Probe { path: path@ },
            Action::Download { url, path } => ActionView::Download { url: url@, path: path@ },
            Action::Finish { end, delay_secs } => ActionView::Finish {
                end: *end,
                delay_secs: *delay_secs,
            },
        }
    }
}

} // verus!
