use crate::nm::{object_path, path_event, PathEventView};
use vstd::prelude::*;

verus! {

/// A change of the first device of the primary connection.
#[derive(Debug)]
pub enum PrimaryDeviceEvent {
    Connected(String),
    Disconnected,
}

impl View for PrimaryDeviceEvent {
    type V = PathEventView;

    open spec fn view(&self) -> PathEventView {
        match self {
            PrimaryDeviceEvent::Connected(path) => PathEventView::Connected(path@),
            PrimaryDeviceEvent::Disconnected => PathEventView::Disconnected,
        }
    }
}

impl PrimaryDeviceEvent {
    /// The event for a reported primary device path: the null path `/` means that there is
    /// no primary device.
    pub fn from(path: &str) -> (e: Self)
        ensures
            e@ == path_event(path@),
    {
        match object_path(path) {
            Some(path) => Self::Connected(path),
            None => Self::Disconnected,
        }
    }
}

} // verus!
