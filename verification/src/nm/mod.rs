pub mod active_access_point;
pub mod active_connection_type;
pub mod event;
pub mod primary_connection;
pub mod primary_device;
pub mod speed;
pub mod ssid_and_strength;
pub mod tx_rx;
pub mod wireless_connection;

use crate::event::{Event, EventView};
use crate::nm::active_access_point::ActiveAccessPointEvent;
use crate::nm::active_connection_type::is_wireless_type;
use crate::nm::primary_connection::PrimaryConnectionEvent;
use crate::nm::primary_device::PrimaryDeviceEvent;
use crate::nm::speed::{one_way_delta, Speed, SpeedView};
use crate::nm::ssid_and_strength::{SsidAndStrengthEvent, SsidAndStrengthEventView};
use crate::nm::tx_rx::TxRxEvent;
use crate::nm::wireless_connection::{
    WirelessConnection, WirelessConnectionEvent, WirelessConnectionView, WirelessState,
};
use crate::text::chars_of;
use vstd::prelude::*;

verus! {

/// NetworkManager's null object path `/`, which it reports when there is no such object.
pub open spec fn is_null_path(path: Seq<char>) -> bool {
    path == seq!['/']
}

/// What a reported object path means: an object at that path, or none at all.
pub enum PathEventView {
    Connected(Seq<char>),
    Disconnected,
}

/// The meaning of a reported object path.
pub open spec fn path_event(path: Seq<char>) -> PathEventView {
    if is_null_path(path) {
        PathEventView::Disconnected
    } else {
        PathEventView::Connected(path)
    }
}

/// The object path that was reported, or `None` for the null path.
pub fn object_path(path: &str) -> (r: Option<String>)
    ensures
        r is None <==> is_null_path(path@),
        r matches Some(p) ==> p@ == path@,
{
    let chars = chars_of(path);
    if chars.len() == 1 && chars[0] == '/' {
        assert(chars@ =~= seq!['/']);
        None
    } else {
        Some(path.to_string())
    }
}

/// A NetworkManager property that the daemon follows once it knows which object to ask.
#[derive(Debug, Clone, Copy, PartialEq, Eq, Structural)]
pub enum Watch {
    ActiveConnectionType,
    PrimaryDevice,
    ActiveAccessPoint,
    TxRx,
    SsidAndStrength,
}

/// What the daemon asks of D-Bus after a decision: follow the primary connection, start
/// following a property of the object at `path`, or stop following it.
#[derive(Debug)]
pub enum Command {
    WatchPrimaryConnection,
    Start { watch: Watch, path: String },
    Stop { watch: Watch },
}

/// The mathematical value of a [`Command`].
pub enum CommandView {
    WatchPrimaryConnection,
    Start { watch: Watch, path: Seq<char> },
    Stop { watch: Watch },
}

impl View for Command {
    type V = CommandView;

    open spec fn view(&self) -> CommandView {
        match self {
            Command::WatchPrimaryConnection => CommandView::WatchPrimaryConnection,
            Command::Start { watch, path } => CommandView::Start { watch: *watch, path: path@ },
            Command::Stop { watch } => CommandView::Stop { watch: *watch },
        }
    }
}

/// The values of a list of commands.
pub open spec fn command_views(cs: Seq<Command>) -> Seq<CommandView> {
    cs.map_values(|c: Command| c@)
}


/// The values of a list of events.
pub open spec fn event_views(es: Seq<Event>) -> Seq<EventView> {
    es.map_values(|e: Event| e@)
}

/// The last SSID and strength that were heard.
pub struct SsidMemory {
    pub ssid: Option<Seq<char>>,
    pub strength: Option<u8>,
}

/// One SSID/strength message: a reading that differs from what was heard before replaces it,
/// and when anything changed and both values are known, the pair is reported.
pub open spec fn ssid_step(m: SsidMemory, e: SsidAndStrengthEventView) -> (SsidMemory, Option<
    EventView,
>) {
    let ssid_diff = e.ssid is Some && m.ssid != e.ssid;
    let strength_diff = e.strength is Some && m.strength != e.strength;
    let next = SsidMemory {
        ssid: if ssid_diff {
            e.ssid
        } else {
            m.ssid
        },
        strength: if strength_diff {
            e.strength
        } else {
            m.strength
        },
    };
    let out = if (ssid_diff || strength_diff) && next.ssid is Some && next.strength is Some {
        Some(EventView::SsidAndStrength { ssid: next.ssid->0, strength: next.strength->0 })
    } else {
        None
    };
    (next, out)
}

/// One counter message: each counter that arrived is recorded and its speed reported, upload
/// first.
pub open spec fn tx_rx_step(s: SpeedView, e: TxRxEvent) -> (SpeedView, Seq<EventView>) {
    let up: Seq<EventView> = match e.tx {
        Some(tx) => seq![EventView::UploadSpeed { bytes_per_sec: one_way_delta(s.tx, tx) }],
        None => Seq::empty(),
    };
    let down: Seq<EventView> = match e.rx {
        Some(rx) => seq![EventView::DownloadSpeed { bytes_per_sec: one_way_delta(s.rx, rx) }],
        None => Seq::empty(),
    };
    let next = SpeedView {
        tx: match e.tx {
            Some(tx) => Some(tx),
            None => s.tx,
        },
        rx: match e.rx {
            Some(rx) => Some(rx),
            None => s.rx,
        },
    };
    (next, up + down)
}

/// The decisions of the network monitor: which NetworkManager objects to follow as the primary
/// connection, its device and its access point change, and which events to report.
pub struct NM {
    wireless_connection: WirelessConnection,
    speed: Speed,
    last_ssid: Option<String>,
    last_strength: Option<u8>,
}

/// The mathematical value of an [`NM`].
pub struct NMView {
    pub wireless: WirelessConnectionView,
    pub speed: SpeedView,
    pub memory: SsidMemory,
}

impl View for NM {
    type V = NMView;

    closed spec fn view(&self) -> NMView {
        NMView {
            wireless: self.wireless_connection@,
            speed: self.speed@,
            memory: SsidMemory {
                ssid: match self.last_ssid {
                    Some(s) => Some(s@),
                    None => None,
                },
                strength: self.last_strength,
            },
        }
    }
}

impl NM {
    /// A monitor that knows nothing yet; it starts by following the primary connection.
    pub fn new(commands: &mut Vec<Command>) -> (nm: Self)
        ensures
            nm@.wireless == (WirelessConnectionView {
                state: WirelessState::Disconnected,
                path: None,
            }),
            nm@.speed == (SpeedView { tx: None, rx: None }),
            nm@.memory == (SsidMemory { ssid: None, strength: None }),
            command_views(final(commands)@) == command_views(old(commands)@).push(
                CommandView::WatchPrimaryConnection,
            ),
    {
        let this = Self {
            wireless_connection: WirelessConnection::new(),
            speed: Speed::new(),
            last_ssid: None,
            last_strength: None,
        };
        this.init(commands);
        this
    }

    fn init(&self, commands: &mut Vec<Command>)
        ensures
            command_views(final(commands)@) == command_views(old(commands)@).push(
                CommandView::WatchPrimaryConnection,
            ),
    {
        self.wireless_connection.start(commands);
    }

    /// The primary connection changed. Returns whether the change settled the wireless
    /// connection (then the message is fully handled).
    pub fn on_primary_connection_event(
        &mut self,
        e: PrimaryConnectionEvent,
        commands: &mut Vec<Command>,
    ) -> (handled: bool)
        ensures
            final(self)@.speed == old(self)@.speed,
            final(self)@.memory == old(self)@.memory,
            match e@ {
                PathEventView::Connected(path) => {
                    &&& final(self)@.wireless == (WirelessConnectionView {
                        state: WirelessState::ConnectedAndHavePath,
                        path: Some(path),
                    })
                    &&& command_views(final(commands)@) == command_views(old(commands)@).push(
                        CommandView::Start { watch: Watch::ActiveConnectionType, path },
                    )
                    &&& !handled
                },
                PathEventView::Disconnected => {
                    &&& final(self)@.wireless == (WirelessConnectionView {
                        state: WirelessState::Disconnected,
                        path: None,
                    })
                    &&& command_views(final(commands)@) == command_views(old(commands)@).push(
                        CommandView::Stop { watch: Watch::ActiveConnectionType },
                    ).push(CommandView::Stop { watch: Watch::PrimaryDevice })
                    &&& handled
                },
            },
    {
        match self.wireless_connection.on_primary_connection_event(e, commands) {
            Some(w) => {
                self.on_wireless_connection_event(w, commands);
                true
            },
            None => false,
        }
    }

    /// The type of the primary connection arrived. Returns whether it settled the wireless
    /// connection; it does unless no connection is followed.
    pub fn on_active_connection_type(&mut self, type_: &str, commands: &mut Vec<Command>) -> (
        handled: bool)
        ensures
            final(self)@.speed == old(self)@.speed,
            final(self)@.memory == old(self)@.memory,
            match old(self)@.wireless.path {
                None => {
                    &&& final(self)@.wireless == old(self)@.wireless
                    &&& final(commands)@ == old(commands)@
                    &&& !handled
                },
                Some(path) => {
                    &&& handled
                    &&& final(self)@.wireless.path == Some(path)
                    &&& if is_wireless_type(type_@) {
                        &&& final(self)@.wireless.state
                            == WirelessState::ConnectedAndHavePathAndType
                        &&& command_views(final(commands)@) == command_views(old(commands)@).push(
                            CommandView::Start { watch: Watch::PrimaryDevice, path },
                        )
                    } else {
                        &&& final(self)@.wireless.state == WirelessState::Disconnected
                        &&& command_views(final(commands)@) == command_views(old(commands)@).push(
                            CommandView::Stop { watch: Watch::PrimaryDevice },
                        )
                    }
                },
            },
    {
        match self.wireless_connection.on_active_connection_type(type_) {
            Some(w) => {
                self.on_wireless_connection_event(w, commands);
                true
            },
            None => false,
        }
    }

    /// A wireless primary connection is followed to its device; losing it stops that.
    pub fn on_wireless_connection_event(
        &self,
        e: WirelessConnectionEvent,
        commands: &mut Vec<Command>,
    )
        ensures
            command_views(final(commands)@) == command_views(old(commands)@).push(
                match e@ {
                    PathEventView::Connected(path) => CommandView::Start {
                        watch: Watch::PrimaryDevice,
                        path,
                    },
                    PathEventView::Disconnected => CommandView::Stop { watch: Watch::PrimaryDevice },
                },
            ),
    {
        let ghost ev = e@;
        match e {
            WirelessConnectionEvent::Connected(path) => {
                commands.push(Command::Start { watch: Watch::PrimaryDevice, path });
            },
            WirelessConnectionEvent::Disconnected => {
                commands.push(Command::Stop { watch: Watch::PrimaryDevice });
            },
        }
        assert(command_views(commands@) =~= command_views(old(commands)@).push(
            match ev {
                PathEventView::Connected(path) => CommandView::Start {
                    watch: Watch::PrimaryDevice,
                    path,
                },
                PathEventView::Disconnected => CommandView::Stop { watch: Watch::PrimaryDevice },
            },
        ));
    }

    /// A new primary device is followed to its access point and its byte counters; losing it
    /// stops both. Either way the speed meter starts over.
    pub fn on_primary_device_event(&mut self, e: PrimaryDeviceEvent, commands: &mut Vec<Command>)
        ensures
            final(self)@.wireless == old(self)@.wireless,
            final(self)@.memory == old(self)@.memory,
            final(self)@.speed == (SpeedView { tx: None, rx: None }),
            command_views(final(commands)@) == match e@ {
                PathEventView::Connected(path) => command_views(old(commands)@).push(
                    CommandView::Start { watch: Watch::ActiveAccessPoint, path },
                ).push(CommandView::Start { watch: Watch::TxRx, path }),
                PathEventView::Disconnected => command_views(old(commands)@).push(
                    CommandView::Stop { watch: Watch::ActiveAccessPoint },
                ).push(CommandView::Stop { watch: Watch::TxRx }),
            },
    {
        let ghost ev = e@;
        match e {
            PrimaryDeviceEvent::Connected(path) => {
                commands.push(Command::Start { watch: Watch::ActiveAccessPoint, path: path.clone() });
                self.speed.reset();
                commands.push(Command::Start { watch: Watch::TxRx, path });
            },
            PrimaryDeviceEvent::Disconnected => {
                commands.push(Command::Stop { watch: Watch::ActiveAccessPoint });
                self.speed.reset();
                commands.push(Command::Stop { watch: Watch::TxRx });
            },
        }
        assert(command_views(commands@) =~= match ev {
            PathEventView::Connected(path) => command_views(old(commands)@).push(
                CommandView::Start { watch: Watch::ActiveAccessPoint, path },
            ).push(CommandView::Start { watch: Watch::TxRx, path }),
            PathEventView::Disconnected => command_views(old(commands)@).push(
                CommandView::Stop { watch: Watch::ActiveAccessPoint },
            ).push(CommandView::Stop { watch: Watch::TxRx }),
        });
    }

    /// A new access point is followed for its SSID and strength; losing it stops that.
    pub fn on_active_access_point_event(
        &self,
        e: ActiveAccessPointEvent,
        commands: &mut Vec<Command>,
    )
        ensures
            command_views(final(commands)@) == command_views(old(commands)@).push(
                match e@ {
                    PathEventView::Connected(path) => CommandView::Start {
                        watch: Watch::SsidAndStrength,
                        path,
                    },
                    PathEventView::Disconnected => CommandView::Stop {
                        watch: Watch::SsidAndStrength,
                    },
                },
            ),
    {
        let ghost ev = e@;
        match e {
            ActiveAccessPointEvent::Connected(path) => {
                commands.push(Command::Start { watch: Watch::SsidAndStrength, path });
            },
            ActiveAccessPointEvent::Disconnected => {
                commands.push(Command::Stop { watch: Watch::SsidAndStrength });
            },
        }
        assert(command_views(commands@) =~= command_views(old(commands)@).push(
            match ev {
                PathEventView::Connected(path) => CommandView::Start {
                    watch: Watch::SsidAndStrength,
                    path,
                },
                PathEventView::Disconnected => CommandView::Stop { watch: Watch::SsidAndStrength },
            },
        ));
    }

    /// New byte counters arrived: their speeds are reported (see [`tx_rx_step`]).
    pub fn on_tx_rx_event(&mut self, e: TxRxEvent, events: &mut Vec<Event>)
        ensures
            final(self)@.wireless == old(self)@.wireless,
            final(self)@.memory == old(self)@.memory,
            final(self)@.speed == tx_rx_step(old(self)@.speed, e).0,
            event_views(final(events)@) == event_views(old(events)@) + tx_rx_step(
                old(self)@.speed,
                e,
            ).1,
    {
        if let Some(tx) = e.tx {
            let event = self.speed.update_tx(tx);
            events.push(event);
        }
        let ghost mid = events@;
        assert(event_views(mid) =~= event_views(old(events)@) + match e.tx {
            Some(tx) => seq![
                EventView::UploadSpeed { bytes_per_sec: one_way_delta(old(self)@.speed.tx, tx) },
            ],
            None => Seq::<EventView>::empty(),
        });
        if let Some(rx) = e.rx {
            let event = self.speed.update_rx(rx);
            events.push(event);
        }
        assert(event_views(events@) =~= event_views(old(events)@) + tx_rx_step(
            old(self)@.speed,
            e,
        ).1);
    }

    /// A new SSID or strength arrived: see [`ssid_step`] for what is remembered and reported.
    pub fn on_ssid_and_strength_event(&mut self, e: SsidAndStrengthEvent, events: &mut Vec<Event>)
        ensures
            final(self)@.wireless == old(self)@.wireless,
            final(self)@.speed == old(self)@.speed,
            final(self)@.memory == ssid_step(old(self)@.memory, e@).0,
            event_views(final(events)@) == event_views(old(events)@) + match ssid_step(
                old(self)@.memory,
                e@,
            ).1 {
                Some(v) => seq![v],
                None => Seq::empty(),
            },
    {
        let ghost ev = e@;
        let mut got_diff = false;

        if let Some(ssid) = e.ssid {
            let differs = match &self.last_ssid {
                Some(last) => !(*last == ssid),
                None => true,
            };
            if differs {
                self.last_ssid = Some(ssid);
                got_diff = true;
            }
        }

        if let Some(strength) = e.strength {
            let differs = match self.last_strength {
                Some(last) => last != strength,
                None => true,
            };
            if differs {
                self.last_strength = Some(strength);
                got_diff = true;
            }
        }

        assert(self@.memory == ssid_step(old(self)@.memory, ev).0);
        if got_diff {
            if let Some(ssid) = &self.last_ssid {
                if let Some(strength) = self.last_strength {
                    events.push(Event::SsidAndStrength { ssid: ssid.clone(), strength });
                }
            }
        }
        assert(event_views(events@) =~= event_views(old(events)@) + match ssid_step(
            old(self)@.memory,
            ev,
        ).1 {
            Some(v) => seq![v],
            None => Seq::empty(),
        });
    }
}

/// Hearing the same SSID and strength again reports nothing.
pub proof fn lemma_ssid_repeat_is_silent(m: SsidMemory, e: SsidAndStrengthEventView)
    ensures
        ssid_step(ssid_step(m, e).0, e).1 is None,
        ssid_step(ssid_step(m, e).0, e).0 == ssid_step(m, e).0,
{
}

/// A reported SSID/strength pair is what is remembered afterwards, and it differs from the pair
/// remembered before.
pub proof fn lemma_ssid_report_is_a_change(m: SsidMemory, e: SsidAndStrengthEventView)
    ensures
        ssid_step(m, e).1 matches Some(EventView::SsidAndStrength { ssid, strength }) ==> {
            &&& ssid_step(m, e).0 == (SsidMemory { ssid: Some(ssid), strength: Some(strength) })
            &&& (m.ssid, m.strength) != (Some(ssid), Some(strength))
        },
{
}

/// After the speed meter starts over, the first counters report a speed of zero.
pub proof fn lemma_first_speeds_are_zero(e: TxRxEvent)
    ensures
        forall|i: int|
            0 <= i < tx_rx_step(SpeedView { tx: None, rx: None }, e).1.len() ==> match #[trigger] tx_rx_step(
                SpeedView { tx: None, rx: None },
                e,
            ).1[i] {
                EventView::UploadSpeed { bytes_per_sec } => bytes_per_sec == 0,
                EventView::DownloadSpeed { bytes_per_sec } => bytes_per_sec == 0,
                _ => false,
            },
{
}

/// Two consecutive readings `a` and `b` of the transmitted-bytes counter report how much it grew
/// in between (zero when it went backwards).
pub proof fn lemma_speed_is_counter_growth(
    s: SpeedView,
    first: TxRxEvent,
    second: TxRxEvent,
    a: u64,
    b: u64,
)
    requires
        first.tx == Some(a),
        second.tx == Some(b),
    ensures
        tx_rx_step(tx_rx_step(s, first).0, second).1[0] == (EventView::UploadSpeed {
            bytes_per_sec: if b >= a {
                (b - a) as u64
            } else {
                0
            },
        }),
{
}


/// A message that brings an SSID different from the remembered one is reported, with that SSID
/// and the strength it brings or else the remembered one, whenever a strength is known; the new
/// SSID is remembered either way.
pub proof fn lemma_ssid_change_is_reported(m: SsidMemory, e: SsidAndStrengthEventView, s: Seq<char>)
    requires
        e.ssid == Some(s),
        m.ssid != Some(s),
    ensures
        ssid_step(m, e).0.ssid == Some(s),
        ssid_step(m, e).0.strength == (if e.strength is Some {
            e.strength
        } else {
            m.strength
        }),
        (e.strength is Some || m.strength is Some) ==> ssid_step(m, e).1 == Some(
            EventView::SsidAndStrength {
                ssid: s,
                strength: if e.strength is Some {
                    e.strength->0
                } else {
                    m.strength->0
                },
            },
        ),
        (e.strength is None && m.strength is None) ==> ssid_step(m, e).1 is None,
{
}

/// A message that brings a strength different from the remembered one is reported, with that
/// strength and the SSID it brings or else the remembered one, whenever an SSID is known.
pub proof fn lemma_strength_change_is_reported(
    m: SsidMemory,
    e: SsidAndStrengthEventView,
    t: u8,
)
    requires
        e.strength == Some(t),
        m.strength != Some(t),
    ensures
        ssid_step(m, e).0.strength == Some(t),
        (e.ssid is Some || m.ssid is Some) ==> ssid_step(m, e).1 == Some(
            EventView::SsidAndStrength {
                ssid: if e.ssid is Some {
                    e.ssid->0
                } else {
                    m.ssid->0
                },
                strength: t,
            },
        ),
{
}

/// A message that changes nothing (each value it brings equals the remembered one) reports
/// nothing and leaves the memory as it was.
pub proof fn lemma_no_change_no_report(m: SsidMemory, e: SsidAndStrengthEventView)
    requires
        e.ssid is Some ==> e.ssid == m.ssid,
        e.strength is Some ==> e.strength == m.strength,
    ensures
        ssid_step(m, e).1 is None,
        ssid_step(m, e).0 == m,
{
}

/// The speeds reported for one counter message: an upload speed exactly when it brings the
/// transmitted counter, then a download speed exactly when it brings the received counter; each
/// is the growth of its own counter since that counter's previous reading (zero when there was
/// none or it went backwards), whatever the other counter does; the readings are remembered.
pub proof fn lemma_speeds_are_counter_growth(s: SpeedView, e: TxRxEvent)
    ensures
        tx_rx_step(s, e).1.len() == (if e.tx is Some {
            1int
        } else {
            0
        }) + (if e.rx is Some {
            1int
        } else {
            0
        }),
        e.tx matches Some(t) ==> tx_rx_step(s, e).1[0] == (EventView::UploadSpeed {
            bytes_per_sec: match s.tx {
                Some(p) => if t >= p {
                    (t - p) as u64
                } else {
                    0
                },
                None => 0,
            },
        }),
        e.rx matches Some(r) ==> tx_rx_step(s, e).1.last() == (EventView::DownloadSpeed {
            bytes_per_sec: match s.rx {
                Some(p) => if r >= p {
                    (r - p) as u64
                } else {
                    0
                },
                None => 0,
            },
        }),
        tx_rx_step(s, e).0.tx == (if e.tx is Some {
            e.tx
        } else {
            s.tx
        }),
        tx_rx_step(s, e).0.rx == (if e.rx is Some {
            e.rx
        } else {
            s.rx
        }),
{
}

} // verus!
