use crate::nm::{object_path, path_event, PathEventView};
use vstd::prelude::*;

verus! {

/// A change of NetworkManager's primary connection.
pub enum PrimaryConnectionEvent {
    Connected(String),
    Disconnected,
}

impl View for PrimaryConnectionEvent {
    type V = PathEventView;

    open spec fn view(&self) -> PathEventView {
        match self {
            PrimaryConnectionEvent::Connected(path) => PathEventView::Connected(path@),
            PrimaryConnectionEvent::Disconnected => PathEventView::Disconnected,
        }
    }
}

impl PrimaryConnectionEvent {
    /// The event for a reported primary connection path: the null path `/` means that there is
    /// no primary connection.
    pub fn from(path: &str) -> (e: Self)
        ensures
            e@ == path_event(path@),
    {
        match object_path(path) {
            Some(path) => Self::Connected(path),
            None => Self::Disconnected,
        }
    }
}

} // verus!
