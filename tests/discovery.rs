use tplink::discovery::{
    ascii_prefix_len, classify, discovery_request, is_dimmer_model, reply_payload,
    DATAGRAM_BUFFER_LEN, DISCOVERY_PORT, DISCOVERY_REQUEST, RECEIVE_TIMEOUT_MS,
};
use tplink::types::{select_sysinfo, ShapeMatches};
use tplink::{
    decrypt, encrypt, DeviceData, DiscoveryAction, DiscoveryEvent, DiscoverySession, GetSysInfo,
    TPLinkDiscoveryData, TPLinkSmartLightData, TPLinkSmartPowerStripData,
};

fn plug(alias: &str, model: &str, ip: Option<&str>) -> TPLinkDiscoveryData {
    TPLinkDiscoveryData {
        alias: alias.to_string(),
        model: model.to_string(),
        relay_state: 1,
        ip: ip.map(|s| s.to_string()),
    }
}

fn reply(source: &str, info: Option<GetSysInfo>) -> DiscoveryEvent {
    DiscoveryEvent::Reply { source: source.to_string(), sysinfo: info }
}

#[test]
fn request_is_enciphered_sysinfo_query() {
    assert_eq!(DISCOVERY_REQUEST, "{\"system\":{\"get_sysinfo\":{}}}");
    let r = discovery_request();
    assert_eq!(
        r,
        vec![
            0xd0, 0xf2, 0x81, 0xf8, 0x8b, 0xff, 0x9a, 0xf7, 0xd5, 0xef, 0x94, 0xb6, 0xd1, 0xb4,
            0xc0, 0x9f, 0xec, 0x95, 0xe6, 0x8f, 0xe1, 0x87, 0xe8, 0xca, 0xf0, 0x8b, 0xf6, 0x8b,
            0xf6
        ]
    );
    assert_eq!(decrypt(&r), DISCOVERY_REQUEST.as_bytes().to_vec());
    assert_eq!(DISCOVERY_PORT, 9999);
    assert_eq!(RECEIVE_TIMEOUT_MS, 2500);
    assert_eq!(DATAGRAM_BUFFER_LEN, 2048);
}

#[test]
fn es20m_is_a_dimmer() {
    let d = classify(
        GetSysInfo::TPLinkDiscoveryData(plug("Hall", "ES20M(US)", None)),
        "192.168.1.20".to_string(),
    );
    assert_eq!(d, Some(DeviceData::SmartDimmer(plug("Hall", "ES20M(US)", Some("192.168.1.20")))));
}

#[test]
fn ks230_is_a_dimmer() {
    assert!(is_dimmer_model(&"KS230(US)".to_string()));
    let d = classify(
        GetSysInfo::TPLinkDiscoveryData(plug("Stairs", "KS230(US)", None)),
        "10.0.0.9".to_string(),
    );
    assert!(matches!(d, Some(DeviceData::SmartDimmer(_))));
}

#[test]
fn other_models_are_plugs() {
    for model in ["HS105(US)", "ES20M(UK)", "es20m(us)", "", "HS220(US)"] {
        assert!(!is_dimmer_model(&model.to_string()));
        let d = classify(
            GetSysInfo::TPLinkDiscoveryData(plug("Lamp", model, None)),
            "10.0.0.2".to_string(),
        );
        assert_eq!(d, Some(DeviceData::SmartPlug(plug("Lamp", model, Some("10.0.0.2")))));
    }
}

#[test]
fn source_address_replaces_reported_one() {
    let d = classify(
        GetSysInfo::TPLinkDiscoveryData(plug("Fan", "HS103(US)", Some("1.2.3.4"))),
        "192.168.0.7".to_string(),
    );
    assert_eq!(d, Some(DeviceData::SmartPlug(plug("Fan", "HS103(US)", Some("192.168.0.7")))));
}

#[test]
fn lights_and_strips_keep_their_category() {
    let light = TPLinkSmartLightData {
        alias: "Bulb".to_string(),
        model: "KL130(US)".to_string(),
        light_state: serde_json::Value::Null,
        ip: None,
    };
    let d = classify(GetSysInfo::TPLinkSmartLightData(light), "10.0.0.3".to_string());
    assert_eq!(
        d,
        Some(DeviceData::SmartLight(TPLinkSmartLightData {
            alias: "Bulb".to_string(),
            model: "KL130(US)".to_string(),
            light_state: serde_json::Value::Null,
            ip: Some("10.0.0.3".to_string()),
        }))
    );

    let strip = TPLinkSmartPowerStripData {
        alias: "Strip".to_string(),
        model: "HS300(US)".to_string(),
        child_num: 6,
        ip: None,
    };
    let d = classify(GetSysInfo::TPLinkSmartPowerStripData(strip), "10.0.0.4".to_string());
    assert_eq!(
        d,
        Some(DeviceData::SmartPowerStrip(TPLinkSmartPowerStripData {
            alias: "Strip".to_string(),
            model: "HS300(US)".to_string(),
            child_num: 6,
            ip: Some("10.0.0.4".to_string()),
        }))
    );
}

#[test]
fn empty_and_unknown_replies_give_no_record() {
    assert_eq!(classify(GetSysInfo::Empty, "10.0.0.5".to_string()), None);
    let raw = serde_json::Value::String("odd".to_string());
    assert_eq!(classify(GetSysInfo::CatchAll(raw), "10.0.0.6".to_string()), None);
}

#[test]
fn garbled_reply_is_skipped() {
    let mut session = DiscoverySession::new();
    let a = session.handle(reply(
        "10.0.0.1",
        Some(GetSysInfo::TPLinkDiscoveryData(plug("One", "HS105(US)", None))),
    ));
    let b = session.handle(reply("10.0.0.2", None));
    let c = session.handle(reply(
        "10.0.0.3",
        Some(GetSysInfo::TPLinkDiscoveryData(plug("Three", "ES20M(US)", None))),
    ));
    let end = session.handle(DiscoveryEvent::TimedOut);
    assert_eq!(
        [a, b, c, end],
        [
            DiscoveryAction::Receive,
            DiscoveryAction::Receive,
            DiscoveryAction::Receive,
            DiscoveryAction::Finish
        ]
    );
    assert_eq!(
        session.into_devices(),
        vec![
            DeviceData::SmartPlug(plug("One", "HS105(US)", Some("10.0.0.1"))),
            DeviceData::SmartDimmer(plug("Three", "ES20M(US)", Some("10.0.0.3"))),
        ]
    );
}

#[test]
fn no_replies_give_empty_list() {
    let mut session = DiscoverySession::new();
    assert_eq!(session.handle(DiscoveryEvent::TimedOut), DiscoveryAction::Finish);
    assert!(session.into_devices().is_empty());
}

#[test]
fn receive_error_keeps_collected_records() {
    let mut session = DiscoverySession::new();
    session.handle(reply("10.0.0.8", Some(GetSysInfo::TPLinkDiscoveryData(plug("P", "HS100(US)", None)))));
    session.handle(reply("10.0.0.9", Some(GetSysInfo::Empty)));
    assert_eq!(session.handle(DiscoveryEvent::ReceiveFailed), DiscoveryAction::Finish);
    assert_eq!(session.devices.len(), 1);
}

#[test]
fn same_device_twice_is_kept_twice() {
    let mut session = DiscoverySession::new();
    for _ in 0..2 {
        session.handle(reply("10.0.0.8", Some(GetSysInfo::TPLinkDiscoveryData(plug("P", "HS100(US)", None)))));
    }
    assert_eq!(session.devices.len(), 2);
}

#[test]
fn reply_payload_deciphers_received_bytes_only() {
    let message = b"{\"system\":{\"get_sysinfo\":{\"alias\":\"x\"}}}";
    let mut buf = vec![0u8; DATAGRAM_BUFFER_LEN];
    let sent = encrypt(message);
    buf[..sent.len()].copy_from_slice(&sent);
    assert_eq!(reply_payload(&buf, sent.len()), message.to_vec());
    assert!(reply_payload(&buf, 0).is_empty());
}

#[test]
fn ascii_prefix_stops_at_first_high_byte() {
    assert_eq!(ascii_prefix_len(b"{\"sys\x80tem"), 5);
    assert_eq!(ascii_prefix_len(b"plain"), 5);
    assert_eq!(ascii_prefix_len(&[]), 0);
    assert_eq!(ascii_prefix_len(&[0xff, 0x41]), 0);
}

fn light(alias: &str) -> TPLinkSmartLightData {
    TPLinkSmartLightData {
        alias: alias.to_string(),
        model: "KL130(US)".to_string(),
        light_state: serde_json::Value::Bool(true),
        ip: None,
    }
}

fn strip(alias: &str) -> TPLinkSmartPowerStripData {
    TPLinkSmartPowerStripData {
        alias: alias.to_string(),
        model: "HS300(US)".to_string(),
        child_num: 6,
        ip: None,
    }
}

#[test]
fn plug_shape_wins_over_later_shapes() {
    let m = ShapeMatches {
        plug_or_dimmer: Some(plug("A", "HS105(US)", None)),
        light: Some(light("A")),
        power_strip: Some(strip("A")),
        empty: false,
    };
    assert_eq!(
        select_sysinfo(m, serde_json::Value::Null),
        GetSysInfo::TPLinkDiscoveryData(plug("A", "HS105(US)", None))
    );
}

#[test]
fn light_shape_wins_over_strip_shape() {
    let m = ShapeMatches { plug_or_dimmer: None, light: Some(light("B")), power_strip: Some(strip("B")), empty: false };
    assert_eq!(select_sysinfo(m, serde_json::Value::Null), GetSysInfo::TPLinkSmartLightData(light("B")));
}

#[test]
fn strip_shape_alone() {
    let m = ShapeMatches { plug_or_dimmer: None, light: None, power_strip: Some(strip("C")), empty: true };
    assert_eq!(select_sysinfo(m, serde_json::Value::Null), GetSysInfo::TPLinkSmartPowerStripData(strip("C")));
}

#[test]
fn empty_document_is_empty() {
    let m = ShapeMatches { plug_or_dimmer: None, light: None, power_strip: None, empty: true };
    assert_eq!(select_sysinfo(m, serde_json::Value::Null), GetSysInfo::Empty);
}

#[test]
fn unknown_shape_is_kept_whole() {
    let raw: serde_json::Value = serde_json::from_str("{\"alias\":\"x\",\"err_code\":-1}").unwrap();
    let m = ShapeMatches { plug_or_dimmer: None, light: None, power_strip: None, empty: false };
    assert_eq!(select_sysinfo(m, raw.clone()), GetSysInfo::CatchAll(raw));
}
