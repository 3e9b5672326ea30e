use nm_mon::nm::active_access_point::ActiveAccessPointEvent;
use nm_mon::nm::active_connection_type::is_wireless;
use nm_mon::nm::primary_connection::PrimaryConnectionEvent;
use nm_mon::nm::primary_device::PrimaryDeviceEvent;
use nm_mon::nm::speed::{OneWaySpeed, Speed};
use nm_mon::nm::ssid_and_strength::{ssid_from_bytes, SsidAndStrengthEvent};
use nm_mon::nm::tx_rx::TxRxEvent;
use nm_mon::nm::wireless_connection::{WirelessConnection, WirelessConnectionEvent};
use nm_mon::nm::{object_path, Command, Watch, NM};
use nm_mon::Event;

fn start_path(c: &Command) -> Option<(Watch, String)> {
    match c {
        Command::Start { watch, path } => Some((*watch, path.clone())),
        _ => None,
    }
}

fn stop_watch(c: &Command) -> Option<Watch> {
    match c {
        Command::Stop { watch } => Some(*watch),
        _ => None,
    }
}

#[test]
fn one_way_speed_first_reading_is_zero() {
    let mut s = OneWaySpeed::Unset;
    assert_eq!(s.update(1_000), 0);
    assert_eq!(s.update(1_500), 500);
    assert_eq!(s.update(1_200), 0);
    assert_eq!(s.update(1_300), 100);
}

#[test]
fn speed_reports_counter_growth_per_direction() {
    let mut speed = Speed::new();
    assert_eq!(speed.update_tx(10), Event::UploadSpeed { bytes_per_sec: 0 });
    assert_eq!(speed.update_rx(100), Event::DownloadSpeed { bytes_per_sec: 0 });
    assert_eq!(speed.update_tx(25), Event::UploadSpeed { bytes_per_sec: 15 });
    assert_eq!(speed.update_rx(160), Event::DownloadSpeed { bytes_per_sec: 60 });
    speed.reset();
    assert_eq!(speed.update_tx(1_000), Event::UploadSpeed { bytes_per_sec: 0 });
}

#[test]
fn null_path_means_disconnected() {
    assert!(matches!(PrimaryConnectionEvent::from("/"), PrimaryConnectionEvent::Disconnected));
    assert!(matches!(PrimaryDeviceEvent::from("/"), PrimaryDeviceEvent::Disconnected));
    assert!(matches!(ActiveAccessPointEvent::from("/"), ActiveAccessPointEvent::Disconnected));
    assert_eq!(object_path("/"), None);
}

#[test]
fn other_paths_are_connected() {
    let p = "/org/freedesktop/NetworkManager/ActiveConnection/3";
    match PrimaryConnectionEvent::from(p) {
        PrimaryConnectionEvent::Connected(path) => assert_eq!(path, p),
        PrimaryConnectionEvent::Disconnected => panic!("expected a connection"),
    }
    match PrimaryDeviceEvent::from("/d") {
        PrimaryDeviceEvent::Connected(path) => assert_eq!(path, "/d"),
        PrimaryDeviceEvent::Disconnected => panic!("expected a device"),
    }
    match ActiveAccessPointEvent::from("//") {
        ActiveAccessPointEvent::Connected(path) => assert_eq!(path, "//"),
        ActiveAccessPointEvent::Disconnected => panic!("expected an access point"),
    }
    assert_eq!(object_path(""), Some(String::new()));
}

#[test]
fn wireless_type_detection() {
    assert!(is_wireless("802-11-wireless"));
    assert!(is_wireless("wireless"));
    assert!(!is_wireless("802-3-ethernet"));
    assert!(!is_wireless("wirelesS"));
    assert!(!is_wireless(""));
}

#[test]
fn wireless_connection_follows_type() {
    let mut commands = vec![];
    let mut wc = WirelessConnection::new();
    wc.start(&mut commands);
    assert!(matches!(commands[0], Command::WatchPrimaryConnection));

    assert!(wc.on_active_connection_type("802-11-wireless").is_none());

    let r = wc.on_primary_connection_event(PrimaryConnectionEvent::Connected("/ac/1".into()), &mut commands);
    assert!(r.is_none());
    assert_eq!(start_path(&commands[1]), Some((Watch::ActiveConnectionType, "/ac/1".to_string())));

    match wc.on_active_connection_type("802-11-wireless") {
        Some(WirelessConnectionEvent::Connected(p)) => assert_eq!(p, "/ac/1"),
        other => panic!("unexpected {other:?}"),
    }
    assert!(matches!(
        wc.on_active_connection_type("802-3-ethernet"),
        Some(WirelessConnectionEvent::Disconnected)
    ));

    let r = wc.on_primary_connection_event(PrimaryConnectionEvent::Disconnected, &mut commands);
    assert!(matches!(r, Some(WirelessConnectionEvent::Disconnected)));
    assert_eq!(stop_watch(&commands[2]), Some(Watch::ActiveConnectionType));
    assert!(wc.on_active_connection_type("802-11-wireless").is_none());
}

#[test]
fn nm_follows_the_chain_of_objects() {
    let mut commands = vec![];
    let mut nm = NM::new(&mut commands);
    assert_eq!(commands.len(), 1);
    assert!(matches!(commands[0], Command::WatchPrimaryConnection));

    let handled = nm.on_primary_connection_event(PrimaryConnectionEvent::from("/ac/7"), &mut commands);
    assert!(!handled);
    assert_eq!(start_path(&commands[1]), Some((Watch::ActiveConnectionType, "/ac/7".to_string())));

    let handled = nm.on_active_connection_type("802-11-wireless", &mut commands);
    assert!(handled);
    assert_eq!(start_path(&commands[2]), Some((Watch::PrimaryDevice, "/ac/7".to_string())));

    nm.on_primary_device_event(PrimaryDeviceEvent::from("/dev/2"), &mut commands);
    assert_eq!(start_path(&commands[3]), Some((Watch::ActiveAccessPoint, "/dev/2".to_string())));
    assert_eq!(start_path(&commands[4]), Some((Watch::TxRx, "/dev/2".to_string())));

    nm.on_active_access_point_event(ActiveAccessPointEvent::from("/ap/5"), &mut commands);
    assert_eq!(start_path(&commands[5]), Some((Watch::SsidAndStrength, "/ap/5".to_string())));

    nm.on_active_access_point_event(ActiveAccessPointEvent::from("/"), &mut commands);
    assert_eq!(stop_watch(&commands[6]), Some(Watch::SsidAndStrength));

    nm.on_primary_device_event(PrimaryDeviceEvent::from("/"), &mut commands);
    assert_eq!(stop_watch(&commands[7]), Some(Watch::ActiveAccessPoint));
    assert_eq!(stop_watch(&commands[8]), Some(Watch::TxRx));

    let handled = nm.on_primary_connection_event(PrimaryConnectionEvent::from("/"), &mut commands);
    assert!(handled);
    assert_eq!(stop_watch(&commands[9]), Some(Watch::ActiveConnectionType));
    assert_eq!(stop_watch(&commands[10]), Some(Watch::PrimaryDevice));
    assert_eq!(commands.len(), 11);
}

#[test]
fn nm_ethernet_stops_the_device() {
    let mut commands = vec![];
    let mut nm = NM::new(&mut commands);
    nm.on_primary_connection_event(PrimaryConnectionEvent::from("/ac/1"), &mut commands);
    assert!(nm.on_active_connection_type("802-3-ethernet", &mut commands));
    assert_eq!(stop_watch(&commands[2]), Some(Watch::PrimaryDevice));
}

#[test]
fn nm_type_without_connection_is_not_handled() {
    let mut commands = vec![];
    let mut nm = NM::new(&mut commands);
    assert!(!nm.on_active_connection_type("802-11-wireless", &mut commands));
    assert_eq!(commands.len(), 1);
}

#[test]
fn nm_speeds_start_over_after_device_change() {
    let mut commands = vec![];
    let mut events = vec![];
    let mut nm = NM::new(&mut commands);
    nm.on_tx_rx_event(TxRxEvent { tx: Some(100), rx: Some(1_000) }, &mut events);
    nm.on_tx_rx_event(TxRxEvent { tx: Some(150), rx: None }, &mut events);
    nm.on_tx_rx_event(TxRxEvent { tx: None, rx: Some(1_300) }, &mut events);
    assert_eq!(
        events,
        vec![
            Event::UploadSpeed { bytes_per_sec: 0 },
            Event::DownloadSpeed { bytes_per_sec: 0 },
            Event::UploadSpeed { bytes_per_sec: 50 },
            Event::DownloadSpeed { bytes_per_sec: 300 },
        ]
    );
    nm.on_primary_device_event(PrimaryDeviceEvent::from("/dev/9"), &mut commands);
    events.clear();
    nm.on_tx_rx_event(TxRxEvent { tx: Some(5_000), rx: Some(9_000) }, &mut events);
    assert_eq!(
        events,
        vec![
            Event::UploadSpeed { bytes_per_sec: 0 },
            Event::DownloadSpeed { bytes_per_sec: 0 },
        ]
    );
}

#[test]
fn nm_reports_ssid_and_strength_only_on_change() {
    let mut commands = vec![];
    let mut events = vec![];
    let mut nm = NM::new(&mut commands);
    nm.on_ssid_and_strength_event(
        SsidAndStrengthEvent { ssid: Some("home".into()), strength: None },
        &mut events,
    );
    assert!(events.is_empty());
    nm.on_ssid_and_strength_event(
        SsidAndStrengthEvent { ssid: None, strength: Some(70) },
        &mut events,
    );
    assert_eq!(events, vec![Event::SsidAndStrength { ssid: "home".into(), strength: 70 }]);
    nm.on_ssid_and_strength_event(
        SsidAndStrengthEvent { ssid: Some("home".into()), strength: Some(70) },
        &mut events,
    );
    assert_eq!(events.len(), 1);
    nm.on_ssid_and_strength_event(
        SsidAndStrengthEvent { ssid: None, strength: Some(55) },
        &mut events,
    );
    assert_eq!(events[1], Event::SsidAndStrength { ssid: "home".into(), strength: 55 });
    nm.on_ssid_and_strength_event(
        SsidAndStrengthEvent { ssid: Some("work".into()), strength: Some(55) },
        &mut events,
    );
    assert_eq!(events[2], Event::SsidAndStrength { ssid: "work".into(), strength: 55 });
    assert_eq!(events.len(), 3);
}

#[test]
fn tx_rx_event_needs_a_reading() {
    assert!(TxRxEvent::from_readings(None, None).is_none());
    let e = TxRxEvent::from_readings(Some(3), None).unwrap();
    assert_eq!((e.tx, e.rx), (Some(3), None));
    let e = TxRxEvent::from_readings(None, Some(4)).unwrap();
    assert_eq!((e.tx, e.rx), (None, Some(4)));
}

#[test]
fn ssid_bytes_are_decoded_as_utf8() {
    assert_eq!(ssid_from_bytes("café".as_bytes()), Some("café".to_string()));
    assert_eq!(ssid_from_bytes(&[0xff, 0x41]), None);
    let e = SsidAndStrengthEvent::from_readings(Some(b"net"), Some(9)).unwrap();
    assert_eq!(e.ssid.as_deref(), Some("net"));
    assert_eq!(e.strength, Some(9));
    assert!(SsidAndStrengthEvent::from_readings(Some(&[0xc3]), None).is_none());
    assert!(SsidAndStrengthEvent::from_readings(None, None).is_none());
    let e = SsidAndStrengthEvent::from_readings(Some(&[0xc3]), Some(1)).unwrap();
    assert_eq!(e.ssid, None);
}
