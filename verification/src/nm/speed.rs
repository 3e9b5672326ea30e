use crate::event::{Event, EventView};
use vstd::prelude::*;

verus! {

/// The last counter reading of one direction, if any since the last reset.
#[derive(Debug)]
pub enum OneWaySpeed {
    Unset,
    Last(u64),
}

impl View for OneWaySpeed {
    type V = Option<u64>;

    open spec fn view(&self) -> Option<u64> {
        match self {
            OneWaySpeed::Unset => None,
            OneWaySpeed::Last(prev) => Some(*prev),
        }
    }
}

/// The speed reported for a counter reading `current` after the reading `prev`: nothing is known
/// for the first reading, and a counter that went backwards reports zero.
pub open spec fn one_way_delta(prev: Option<u64>, current: u64) -> u64 {
    match prev {
        None => 0,
        Some(p) => if current >= p {
            (current - p) as u64
        } else {
            0
        },
    }
}

impl OneWaySpeed {
    /// Records the reading `current` and returns the growth of the counter since the previous
    /// reading.
    pub fn update(&mut self, current: u64) -> (d: u64)
        ensures
            final(self)@ == Some(current),
            d == one_way_delta(old(self)@, current),
    {
        match self {
            OneWaySpeed::Unset => {
                *self = OneWaySpeed::Last(current);
                0
            },
            OneWaySpeed::Last(prev) => {
                let d = current.saturating_sub(*prev);
                *self = OneWaySpeed::Last(current);
                d
            },
        }
    }
}

/// Turns the transmitted and received byte counters of a device into speeds.
pub struct Speed {
    // transmitted
    tx: OneWaySpeed,
    // received
    rx: OneWaySpeed,
}

/// The last readings of a [`Speed`]: transmitted, then received.
pub struct SpeedView {
    pub tx: Option<u64>,
    pub rx: Option<u64>,
}

impl View for Speed {
    type V = SpeedView;

    closed spec fn view(&self) -> SpeedView {
        SpeedView { tx: self.tx@, rx: self.rx@ }
    }
}

impl Speed {
    /// A speed meter with no readings.
    pub fn new() -> (s: Self)
        ensures
            s@ == (SpeedView { tx: None, rx: None }),
    {
        Self { tx: OneWaySpeed::Unset, rx: OneWaySpeed::Unset }
    }

    /// Forgets both readings.
    pub fn reset(&mut self)
        ensures
            final(self)@ == (SpeedView { tx: None, rx: None }),
    {
        self.tx = OneWaySpeed::Unset;
        self.rx = OneWaySpeed::Unset;
    }

    /// Records a reading of the transmitted-bytes counter and reports the upload speed.
    pub fn update_tx(&mut self, tx: u64) -> (e: Event)
        ensures
            final(self)@ == (SpeedView { tx: Some(tx), rx: old(self)@.rx }),
            e@ == (EventView::UploadSpeed { bytes_per_sec: one_way_delta(old(self)@.tx, tx) }),
    {
        let d = self.tx.update(tx);
        Event::UploadSpeed { bytes_per_sec: d }
    }

    /// Records a reading of the received-bytes counter and reports the download speed.
    pub fn update_rx(&mut self, rx: u64) -> (e: Event)
        ensures
            final(self)@ == (SpeedView { tx: old(self)@.tx, rx: Some(rx) }),
            e@ == (EventView::DownloadSpeed { bytes_per_sec: one_way_delta(old(self)@.rx, rx) }),
    {
        let d = self.rx.update(rx);
        Event::DownloadSpeed { bytes_per_sec: d }
    }
}


/// The speed of a reading is how much the counter grew since the previous reading, and zero for
/// the first reading or when the counter went backwards.
pub proof fn lemma_one_way_delta_is_growth(prev: Option<u64>, current: u64)
    ensures
        prev is None ==> one_way_delta(prev, current) == 0,
        prev matches Some(p) ==> (current >= p ==> one_way_delta(prev, current) == current - p),
        prev matches Some(p) ==> (current < p ==> one_way_delta(prev, current) == 0),
{
}

} // verus!
