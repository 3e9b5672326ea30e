use crate::event::{spec_serialize, Event, EventView};
use crate::nm::event_views;
use vstd::prelude::*;

verus! {

/// The SSID/strength event that is current after `es`, starting from `prev`: the last one in
/// `es`, or `prev` when there is none.
pub open spec fn last_ssid_event(es: Seq<EventView>, prev: Option<EventView>) -> Option<EventView>
    decreases es.len(),
{
    if es.len() == 0 {
        prev
    } else if es.last() is SsidAndStrength {
        Some(es.last())
    } else {
        last_ssid_event(es.drop_last(), prev)
    }
}

/// What the service keeps between polls: the last SSID/strength event it broadcast, which a
/// newly connected client receives first.
pub struct ServiceState {
    last_ssid_and_strength_event: Option<Event>,
}

impl View for ServiceState {
    type V = Option<EventView>;

    closed spec fn view(&self) -> Option<EventView> {
        match self.last_ssid_and_strength_event {
            Some(e) => Some(e@),
            None => None,
        }
    }
}

impl ServiceState {
    /// Nothing broadcast yet.
    pub fn new() -> (s: Self)
        ensures
            s@ is None,
    {
        Self { last_ssid_and_strength_event: None }
    }

    /// The frames to broadcast for `events`, in order; the last SSID/strength event among them
    /// is remembered.
    pub fn on_events(&mut self, events: Vec<Event>) -> (frames: Vec<[u8; 32]>)
        ensures
            frames@.len() == events@.len(),
            forall|i: int| 0 <= i < events@.len() ==> #[trigger] frames@[i]@ == spec_serialize(events@[i]@),
            final(self)@ == last_ssid_event(event_views(events@), old(self)@),
    {
        let mut events = events;
        let ghost es = event_views(events@);
        let mut frames: Vec<[u8; 32]> = Vec::new();
        let mut last: Option<usize> = None;
        let mut i: usize = 0;
        while i < events.len()
            invariant
                es == event_views(events@),
                i <= events@.len(),
                frames@.len() == i,
                forall|k: int| 0 <= k < i ==> #[trigger] frames@[k]@ == spec_serialize(events@[k]@),
                match last {
                    Some(k) => k < i && events@[k as int]@ is SsidAndStrength && Some(es[k as int]) == last_ssid_event(es.take(i as int), old(self)@),
                    None => last_ssid_event(es.take(i as int), old(self)@) == old(self)@,
                },
            decreases events@.len() - i,
        {
            let frame = events[i].serialize();
            frames.push(frame);
            assert(es.take(i + 1).drop_last() =~= es.take(i as int));
            assert(es.take(i + 1).last() == es[i as int]);
            if matches!(events[i], Event::SsidAndStrength { .. }) {
                last = Some(i);
            }
            i = i + 1;
        }
        assert(es.take(i as int) =~= es);
        if let Some(k) = last {
            let e = events.swap_remove(k);
            self.last_ssid_and_strength_event = Some(e);
        }
        frames
    }

    /// The frame that a newly connected client receives first: the last SSID/strength event,
    /// if one was broadcast.
    pub fn on_client_connected(&self) -> (frame: Option<Vec<u8>>)
        ensures
            match self@ {
                None => frame is None,
                Some(e) => frame matches Some(f) && f@ == spec_serialize(e),
            },
    {
        match &self.last_ssid_and_strength_event {
            Some(e) => {
                let frame = e.serialize();
                Some(vstd::slice::slice_to_vec(frame.as_slice()))
            },
            None => None,
        }
    }
}


/// The event replayed to a new client is the last SSID/strength event among those broadcast:
/// the one at `i` when no later event is an SSID/strength event.
pub proof fn lemma_replay_is_last_ssid_event(es: Seq<EventView>, prev: Option<EventView>, i: int)
    requires
        0 <= i < es.len(),
        es[i] is SsidAndStrength,
        forall|k: int| i < k < es.len() ==> !(es[k] is SsidAndStrength),
    ensures
        last_ssid_event(es, prev) == Some(es[i]),
    decreases es.len(),
{
    if i < es.len() - 1 {
        assert(!(es.last() is SsidAndStrength));
        lemma_replay_is_last_ssid_event(es.drop_last(), prev, i);
    }
}

/// Broadcasting events with no SSID/strength event among them keeps the event replayed to new
/// clients.
pub proof fn lemma_replay_kept_without_ssid_events(es: Seq<EventView>, prev: Option<EventView>)
    requires
        forall|k: int| 0 <= k < es.len() ==> !(es[k] is SsidAndStrength),
    ensures
        last_ssid_event(es, prev) == prev,
    decreases es.len(),
{
    if es.len() > 0 {
        lemma_replay_kept_without_ssid_events(es.drop_last(), prev);
    }
}

} // verus!
