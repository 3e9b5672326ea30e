use crate::nm::active_connection_type::{is_wireless, is_wireless_type};
use crate::nm::primary_connection::PrimaryConnectionEvent;
use crate::nm::{command_views, Command, CommandView, PathEventView, Watch};
use vstd::prelude::*;

verus! {

/// How far the primary connection is known.
#[derive(Debug, Clone, Copy, PartialEq, Eq, Structural)]
pub enum WirelessState {
    Disconnected,
    ConnectedAndHavePath,
    ConnectedAndHavePathAndType,
}

/// Follows the primary connection and tells when it is a wireless one.
pub struct WirelessConnection {
    state: WirelessState,
    active_connection_path: Option<String>,
}

/// The mathematical value of a [`WirelessConnection`]: its state, and the path of the primary
/// connection whose type is being followed.
pub struct WirelessConnectionView {
    pub state: WirelessState,
    pub path: Option<Seq<char>>,
}

impl View for WirelessConnection {
    type V = WirelessConnectionView;

    closed spec fn view(&self) -> WirelessConnectionView {
        WirelessConnectionView {
            state: self.state,
            path: match self.active_connection_path {
                Some(p) => Some(p@),
                None => None,
            },
        }
    }
}

/// Whether the primary connection is a wireless one (with the path of that connection).
#[derive(Debug)]
pub enum WirelessConnectionEvent {
    Connected(String),
    Disconnected,
}

impl View for WirelessConnectionEvent {
    type V = PathEventView;

    open spec fn view(&self) -> PathEventView {
        match self {
            WirelessConnectionEvent::Connected(path) => PathEventView::Connected(path@),
            WirelessConnectionEvent::Disconnected => PathEventView::Disconnected,
        }
    }
}

impl WirelessConnection {
    /// Nothing known yet.
    pub fn new() -> (w: Self)
        ensures
            w@ == (WirelessConnectionView { state: WirelessState::Disconnected, path: None }),
    {
        Self { state: WirelessState::Disconnected, active_connection_path: None }
    }

    /// Starts following the primary connection.
    pub fn start(&self, commands: &mut Vec<Command>)
        ensures
            command_views(final(commands)@) == command_views(old(commands)@).push(
                CommandView::WatchPrimaryConnection,
            ),
    {
        commands.push(Command::WatchPrimaryConnection);
        assert(command_views(commands@) =~= command_views(old(commands)@).push(
            CommandView::WatchPrimaryConnection,
        ));
    }

    /// A new primary connection starts following its type; losing it stops that and reports
    /// that there is no wireless connection.
    pub fn on_primary_connection_event(
        &mut self,
        e: PrimaryConnectionEvent,
        commands: &mut Vec<Command>,
    ) -> (r: Option<WirelessConnectionEvent>)
        ensures
            match e@ {
                PathEventView::Connected(path) => {
                    &&& final(self)@ == (WirelessConnectionView {
                        state: WirelessState::ConnectedAndHavePath,
                        path: Some(path),
                    })
                    &&& command_views(final(commands)@) == command_views(old(commands)@).push(
                        CommandView::Start { watch: Watch::ActiveConnectionType, path },
                    )
                    &&& r is None
                },
                PathEventView::Disconnected => {
                    &&& final(self)@ == (WirelessConnectionView {
                        state: WirelessState::Disconnected,
                        path: None,
                    })
                    &&& command_views(final(commands)@) == command_views(old(commands)@).push(
                        CommandView::Stop { watch: Watch::ActiveConnectionType },
                    )
                    &&& r matches Some(w) && w@ == PathEventView::Disconnected
                },
            },
    {
        match e {
            PrimaryConnectionEvent::Connected(path) => {
                commands.push(Command::Start { watch: Watch::ActiveConnectionType, path: path.clone() });
                self.active_connection_path = Some(path);
                self.state = WirelessState::ConnectedAndHavePath;
                assert(command_views(commands@) =~= command_views(old(commands)@).push(
                    CommandView::Start { watch: Watch::ActiveConnectionType, path: path@ },
                ));
                None
            },
            PrimaryConnectionEvent::Disconnected => {
                commands.push(Command::Stop { watch: Watch::ActiveConnectionType });
                self.active_connection_path = None;
                self.state = WirelessState::Disconnected;
                assert(command_views(commands@) =~= command_views(old(commands)@).push(
                    CommandView::Stop { watch: Watch::ActiveConnectionType },
                ));
                Some(WirelessConnectionEvent::Disconnected)
            },
        }
    }

    /// The type of the primary connection arrived: a wireless one is reported as connected with
    /// its path, any other as no wireless connection. Without a followed connection nothing
    /// happens.
    pub fn on_active_connection_type(&mut self, type_: &str) -> (r: Option<WirelessConnectionEvent>)
        ensures
            match old(self)@.path {
                None => final(self)@ == old(self)@ && r is None,
                Some(path) => if is_wireless_type(type_@) {
                    &&& final(self)@ == (WirelessConnectionView {
                        state: WirelessState::ConnectedAndHavePathAndType,
                        path: Some(path),
                    })
                    &&& r matches Some(w) && w@ == PathEventView::Connected(path)
                } else {
                    &&& final(self)@ == (WirelessConnectionView {
                        state: WirelessState::Disconnected,
                        path: Some(path),
                    })
                    &&& r matches Some(w) && w@ == PathEventView::Disconnected
                },
            },
    {
        let is_wireless = is_wireless(type_);
        match &self.active_connection_path {
            None => None,
            Some(path) => {
                let path = path.clone();
                Some(self.on_active_connection_type_received(is_wireless, path))
            },
        }
    }

    fn on_active_connection_type_received(&mut self, is_wireless: bool, path: String) -> (r:
        WirelessConnectionEvent)
        ensures
            final(self)@.path == old(self)@.path,
            is_wireless ==> final(self)@.state == WirelessState::ConnectedAndHavePathAndType
                && r@ == PathEventView::Connected(path@),
            !is_wireless ==> final(self)@.state == WirelessState::Disconnected && r@
                == PathEventView::Disconnected,
    {
        if is_wireless {
            self.state = WirelessState::ConnectedAndHavePathAndType;
            WirelessConnectionEvent::Connected(path)
        } else {
            self.state = WirelessState::Disconnected;
            WirelessConnectionEvent::Disconnected
        }
    }
}

} // verus!
