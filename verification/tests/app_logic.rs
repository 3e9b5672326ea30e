use nm_mon::args::{Args, ArgsError, RunMode};
use nm_mon::dbus_address::system_bus_path;
use nm_mon::dbus_queue::DBusQueue;
use nm_mon::nm::tx_rx::Configure;
use nm_mon::service::ServiceState;
use nm_mon::Event;

fn strings(args: &[&str]) -> Vec<String> {
    args.iter().map(|s| s.to_string()).collect()
}

#[test]
fn args_pick_the_mode() {
    assert_eq!(Args::parse(strings(&["--systemd"])).unwrap().mode, RunMode::Systemd);
    assert_eq!(Args::parse(strings(&["--dev"])).unwrap().mode, RunMode::Dev);
    assert_eq!(Args::parse(strings(&["--dev", "--systemd"])).unwrap().mode, RunMode::Systemd);
}

#[test]
fn args_refuse_unknown_argument() {
    match Args::parse(strings(&["--dev", "--verbose", "x"])) {
        Err(ArgsError::UnknownArgument(a)) => assert_eq!(a, "--verbose"),
        other => panic!("unexpected {other:?}"),
    }
}

#[test]
fn args_require_a_mode() {
    assert!(matches!(Args::parse(vec![]), Err(ArgsError::MissingMode)));
}

#[test]
fn system_bus_path_from_environment() {
    assert_eq!(
        system_bus_path(None).unwrap(),
        "/var/run/dbus/system_bus_socket"
    );
    assert_eq!(
        system_bus_path(Some("unix:path=/run/dbus/system_bus_socket")).unwrap(),
        "/run/dbus/system_bus_socket"
    );
    assert_eq!(system_bus_path(Some("unix:path=a=b")).unwrap(), "a=b");
    assert!(system_bus_path(Some("/run/dbus/socket")).is_err());
}

#[test]
fn queue_numbers_messages_in_order() {
    let mut q = DBusQueue::new();
    let m1 = [b'l', 1, 0, 1, 0, 0, 0, 0, 9, 9, 9, 9, 7];
    let m2 = [b'l', 2, 0, 1, 0, 0, 0, 0, 0, 0, 0, 0];
    assert_eq!(q.push_raw(&m1), 1);
    assert_eq!(q.push_raw(&m2), 2);
    assert_eq!(q.push_raw(&[1, 2, 3]), 3);
    assert_eq!(q.peek().unwrap(), &[b'l', 1, 0, 1, 0, 0, 0, 0, 1, 0, 0, 0, 7]);
    q.pop();
    assert_eq!(q.peek().unwrap(), &[b'l', 2, 0, 1, 0, 0, 0, 0, 2, 0, 0, 0]);
    q.pop();
    assert!(q.peek().is_none());
    q.pop();
    assert!(q.peek().is_none());
    assert_eq!(q.push_raw(&m2), 4);
}

#[test]
fn configure_queues_a_set_property_message() {
    let mut q = DBusQueue::new();
    Configure::send("/org/freedesktop/NetworkManager/Devices/3", &mut q).unwrap();
    let m = q.peek().unwrap().to_vec();
    assert_eq!(m[0], b'l');
    assert_eq!(&m[8..12], &[1, 0, 0, 0]);
    assert!(m.len() > 64);
    let text = String::from_utf8_lossy(&m);
    assert!(text.contains("RefreshRateMs"));
    assert!(text.contains("/org/freedesktop/NetworkManager/Devices/3"));
}

#[test]
fn service_remembers_last_ssid_event() {
    let mut s = ServiceState::new();
    assert!(s.on_client_connected().is_none());
    let frames = s.on_events(vec![
        Event::UploadSpeed { bytes_per_sec: 5 },
        Event::SsidAndStrength { ssid: "a".into(), strength: 1 },
        Event::SsidAndStrength { ssid: "b".into(), strength: 2 },
        Event::DownloadSpeed { bytes_per_sec: 6 },
    ]);
    assert_eq!(frames.len(), 4);
    assert_eq!(frames[0], Event::UploadSpeed { bytes_per_sec: 5 }.serialize());
    assert_eq!(frames[3], Event::DownloadSpeed { bytes_per_sec: 6 }.serialize());
    let greeting = s.on_client_connected().unwrap();
    assert_eq!(
        Event::deserialize(greeting.try_into().unwrap()),
        Event::SsidAndStrength { ssid: "b".into(), strength: 2 }
    );
    s.on_events(vec![Event::UploadSpeed { bytes_per_sec: 1 }]);
    assert_eq!(
        Event::deserialize(s.on_client_connected().unwrap().try_into().unwrap()),
        Event::SsidAndStrength { ssid: "b".into(), strength: 2 }
    );
}
