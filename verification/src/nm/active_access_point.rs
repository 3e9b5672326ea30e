use crate::nm::{object_path, path_event, PathEventView};
use vstd::prelude::*;

verus! {

/// A change of the access point that the wireless device is associated with.
#[derive(Debug)]
pub enum ActiveAccessPointEvent {
    Connected(String),
    Disconnected,
}

impl View for ActiveAccessPointEvent {
    type V = PathEventView;

    open spec fn view(&self) -> PathEventView {
        match self {
            ActiveAccessPointEvent::Connected(path) => PathEventView::Connected(path@),
            ActiveAccessPointEvent::Disconnected => PathEventView::Disconnected,
        }
    }
}

impl ActiveAccessPointEvent {
    /// The event for a reported active access point path: the null path `/` means that there is
    /// no active access point.
    pub fn from(path: &str) -> (e: Self)
        ensures
            e@ == path_event(path@),
    {
        match object_path(path) {
            Some(path) => Self::Connected(path),
            None => Self::Disconnected,
        }
    }
}

} // verus!
