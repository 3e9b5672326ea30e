use nm_mon::Event;

#[test]
fn test_upload_speed() {
    let e = Event::UploadSpeed {
        bytes_per_sec: 0x0123456789ABCDEF,
    };
    assert_eq!(Event::deserialize(e.serialize()), e);
}

#[test]
fn test_download_speed() {
    let e = Event::DownloadSpeed {
        bytes_per_sec: 0x0123456789ABCDEF,
    };
    assert_eq!(Event::deserialize(e.serialize()), e);
}

#[test]
fn test_ssid_and_strength() {
    let e = Event::SsidAndStrength {
        ssid: String::from("foo"),
        strength: 42,
    };
    assert_eq!(Event::deserialize(e.serialize()), e);
}

#[test]
fn test_ssid_and_strength_truncated() {
    assert_eq!('ᔘ'.len_utf8(), 3);

    let full = Event::SsidAndStrength {
        ssid: "ᔘ".repeat(8),
        strength: 10,
    };
    let truncated = Event::SsidAndStrength {
        ssid: "ᔘ".repeat(6),
        strength: 10,
    };
    assert_eq!(Event::deserialize(full.serialize()), truncated);
}

#[test]
fn upload_speed_frame_layout() {
    let e = Event::UploadSpeed {
        bytes_per_sec: 0x0123456789ABCDEF,
    };
    let mut expected = [0u8; 32];
    expected[0] = 1;
    expected[8..16].copy_from_slice(&[0x01, 0x23, 0x45, 0x67, 0x89, 0xAB, 0xCD, 0xEF]);
    assert_eq!(e.serialize(), expected);
    assert_eq!(Event::SERIALIZED_LENGTH, 32);
}

#[test]
fn download_speed_frame_layout() {
    let e = Event::DownloadSpeed { bytes_per_sec: 258 };
    let mut expected = [0u8; 32];
    expected[0] = 2;
    expected[14] = 1;
    expected[15] = 2;
    assert_eq!(e.serialize(), expected);
}

#[test]
fn ssid_frame_layout() {
    let e = Event::SsidAndStrength {
        ssid: String::from("héllo"),
        strength: 77,
    };
    let out = e.serialize();
    assert_eq!(out[0], 3);
    assert_eq!(out[1], 77);
    assert_eq!(&out[2..4], &[0, 0]);
    assert_eq!(&out[4..8], &[0, 0, 0, 6]);
    assert_eq!(&out[8..14], "héllo".as_bytes());
    assert!(out[14..].iter().all(|b| *b == 0));
}

#[test]
fn ssid_of_nineteen_bytes_is_kept_whole() {
    let ssid = "a".repeat(19);
    let e = Event::SsidAndStrength {
        ssid: ssid.clone(),
        strength: 1,
    };
    assert_eq!(Event::deserialize(e.serialize()), e);
}

#[test]
fn ssid_of_twenty_bytes_loses_last_char() {
    let e = Event::SsidAndStrength {
        ssid: "b".repeat(20),
        strength: 2,
    };
    let expected = Event::SsidAndStrength {
        ssid: "b".repeat(19),
        strength: 2,
    };
    assert_eq!(Event::deserialize(e.serialize()), expected);
}

#[test]
fn ssid_truncation_stops_at_first_char_that_does_not_fit() {
    // 18 ASCII bytes, then a 4-byte char that would reach 22, then an ASCII char.
    let ssid = format!("{}{}{}", "x".repeat(18), '😀', "y");
    let e = Event::SsidAndStrength { ssid, strength: 3 };
    let out = e.serialize();
    assert_eq!(&out[4..8], &[0, 0, 0, 18]);
    assert_eq!(
        Event::deserialize(out),
        Event::SsidAndStrength {
            ssid: "x".repeat(18),
            strength: 3
        }
    );
}

#[test]
fn empty_ssid_round_trips() {
    let e = Event::SsidAndStrength {
        ssid: String::new(),
        strength: 0,
    };
    assert_eq!(Event::deserialize(e.serialize()), e);
}

#[test]
fn deserialize_reads_hand_made_ssid_frame() {
    let mut buf = [0u8; 32];
    buf[0] = 3;
    buf[1] = 99;
    buf[7] = 2;
    buf[8] = b'o';
    buf[9] = b'k';
    assert_eq!(
        Event::deserialize(buf),
        Event::SsidAndStrength {
            ssid: String::from("ok"),
            strength: 99
        }
    );
}

#[test]
fn max_speed_round_trips() {
    let e = Event::UploadSpeed {
        bytes_per_sec: u64::MAX,
    };
    assert_eq!(Event::deserialize(e.serialize()), e);
}
