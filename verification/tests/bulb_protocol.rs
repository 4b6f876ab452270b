use onair::bulb::{
    announced_bulb, discovery_targets, find_bulb, get_pilot_outcome, get_pilot_request,
    local_broadcast_targets, normalize_mac, note_reply, probe_outcome, registration_request,
    set_pilot_color_request, set_pilot_off_request, set_pilot_outcome, take_reception, time_left,
    BulbError, BulbState, DiscoveredBulb, Interface, Listening, Reception, ReplyNote, WizResponse,
    WizResult,
};
use onair::json::Json;
use onair::models::Rgb;
use onair::net::Ipv4;

fn ip(a: u8, b: u8, c: u8, d: u8) -> Ipv4 {
    Ipv4 { a, b, c, d }
}

fn object(members: Vec<(&str, Json)>) -> Json {
    Json::Object(members.into_iter().map(|(k, v)| (k.to_string(), v)).collect())
}

fn text(s: &str) -> Json {
    Json::Text(s.to_string())
}

fn reply(value: Json, as_text: &str) -> WizResponse {
    WizResponse { error: None, result: Some(WizResult { value, text: as_text.to_string() }) }
}

#[test]
fn normalize_mac_strips_separators_and_lowercases() {
    assert_eq!(normalize_mac("A8:BB:50:A4:F9:4D"), "a8bb50a4f94d");
    assert_eq!(normalize_mac("a8bb50a4f94d"), "a8bb50a4f94d");
    assert_eq!(normalize_mac("A8-BB-50-A4-F9-4D"), "a8bb50a4f94d");
}

#[test]
fn normalizing_keeps_ascii_only() {
    assert_eq!(normalize_mac(" É1_z "), "1z");
    assert_eq!(normalize_mac(""), "");
}

#[test]
fn requests_are_json() {
    assert_eq!(
        set_pilot_color_request(Rgb::new(255, 0, 7), 100),
        r#"{"method":"setPilot","params":{"state":true,"r":255,"g":0,"b":7,"dimming":100}}"#
    );
    assert_eq!(
        set_pilot_off_request(),
        r#"{"method":"setPilot","params":{"state":false}}"#
    );
    assert_eq!(get_pilot_request(), r#"{"method":"getPilot","params":{}}"#);
    assert_eq!(
        registration_request(),
        r#"{"method":"registration","params":{"phoneMac":"AAAAAAAAAAAA","register":false,"phoneIp":"0.0.0.0"}}"#
    );
}

#[test]
fn requests_parse_as_json() {
    for request in [
        set_pilot_color_request(Rgb::new(1, 2, 3), 42),
        set_pilot_off_request(),
        get_pilot_request(),
        registration_request(),
    ] {
        let value: serde_json::Value = serde_json::from_str(&request).unwrap();
        assert!(value.get("method").unwrap().is_string());
        assert!(value.get("params").unwrap().is_object());
    }
}

#[test]
fn dimming_is_brought_into_range() {
    let dark = set_pilot_color_request(Rgb::new(0, 0, 0), 9);
    assert!(dark.ends_with(r#""dimming":10}}"#));
    let bright = set_pilot_color_request(Rgb::new(0, 0, 0), 101);
    assert!(bright.ends_with(r#""dimming":100}}"#));
    let kept = set_pilot_color_request(Rgb::new(0, 0, 0), 10);
    assert!(kept.ends_with(r#""dimming":10}}"#));
}

#[test]
fn errors_in_words() {
    assert_eq!(BulbError::Io("gone".to_string()).message(), "io error: gone");
    assert_eq!(BulbError::Json("bad".to_string()).message(), "json error: bad");
    assert_eq!(BulbError::Timeout.message(), "timeout waiting for bulb response");
    assert_eq!(
        BulbError::InvalidResponse("odd".to_string()).message(),
        "invalid response: odd"
    );
}

#[test]
fn set_pilot_replies() {
    assert!(set_pilot_outcome(reply(object(vec![("success", Json::Bool(true))]), "")).is_ok());
    // Anything but an explicit false is fine.
    assert!(set_pilot_outcome(reply(object(vec![]), "{}")).is_ok());
    assert!(set_pilot_outcome(reply(Json::Array, "[]")).is_ok());
    let failed = set_pilot_outcome(reply(
        object(vec![("success", Json::Bool(false))]),
        r#"{"success":false}"#,
    ));
    assert_eq!(
        failed.unwrap_err().message(),
        r#"invalid response: setPilot success=false: {"success":false}"#
    );
}

#[test]
fn replies_without_result() {
    let refused = WizResponse { error: Some(r#"{"code":-32601}"#.to_string()), result: None };
    assert_eq!(
        set_pilot_outcome(refused).unwrap_err().message(),
        r#"invalid response: bulb error: {"code":-32601}"#
    );
    let empty = WizResponse { error: None, result: None };
    assert_eq!(
        get_pilot_outcome(empty).unwrap_err().message(),
        "invalid response: missing 'result' field"
    );
}

#[test]
fn an_error_beats_a_result() {
    let both = WizResponse {
        error: Some("7".to_string()),
        result: Some(WizResult { value: Json::Null, text: "null".to_string() }),
    };
    assert_eq!(
        get_pilot_outcome(both).unwrap_err().message(),
        "invalid response: bulb error: 7"
    );
}

#[test]
fn get_pilot_reads_all_fields() {
    let value = object(vec![
        ("state", Json::Bool(true)),
        ("r", Json::Unsigned(12)),
        ("g", Json::Unsigned(300)),
        ("b", Json::Negative(-1)),
        ("dimming", Json::Unsigned(250)),
        ("temp", Json::Unsigned(0x1_0000_0007)),
        ("rssi", Json::Negative(-61)),
        ("sceneId", Json::Unsigned(4)),
    ]);
    assert_eq!(
        get_pilot_outcome(reply(value, "")).unwrap(),
        BulbState { state: true, r: 12, g: 255, b: 0, dimming: 100, temp: 7, rssi: -61, scene_id: 4 }
    );
}

#[test]
fn get_pilot_truncates_signal_strength() {
    let value = object(vec![
        ("state", Json::Bool(false)),
        ("rssi", Json::Unsigned(0x1_8000_0000)),
    ]);
    assert_eq!(get_pilot_outcome(reply(value, "")).unwrap().rssi, i32::MIN);
    let value = object(vec![("state", Json::Bool(false)), ("rssi", Json::Negative(i64::MIN + 5))]);
    assert_eq!(get_pilot_outcome(reply(value, "")).unwrap().rssi, 5);
    let value = object(vec![("state", Json::Bool(false)), ("rssi", Json::Unsigned(u64::MAX))]);
    assert_eq!(get_pilot_outcome(reply(value, "")).unwrap().rssi, 0);
}

#[test]
fn get_pilot_needs_the_state() {
    let value = object(vec![("r", Json::Unsigned(12))]);
    assert_eq!(
        get_pilot_outcome(reply(value, "")).unwrap_err().message(),
        "invalid response: missing 'state' field"
    );
}

#[test]
fn broadcast_targets_are_distinct() {
    let lan = Some(ip(192, 168, 1, 255));
    let ifs = vec![
        Interface { loopback: true, broadcast: Some(ip(127, 255, 255, 255)) },
        Interface { loopback: false, broadcast: lan },
        Interface { loopback: false, broadcast: None },
        Interface { loopback: false, broadcast: lan },
        Interface { loopback: false, broadcast: Some(ip(10, 0, 0, 255)) },
    ];
    assert_eq!(
        local_broadcast_targets(&ifs),
        vec![ip(192, 168, 1, 255), ip(10, 0, 0, 255)]
    );
    assert_eq!(
        discovery_targets(&ifs),
        vec![ip(255, 255, 255, 255), ip(192, 168, 1, 255), ip(10, 0, 0, 255)]
    );
}

#[test]
fn discovery_keeps_the_first_reply() {
    let mut found: Vec<DiscoveredBulb> = Vec::new();
    let here = ip(10, 0, 0, 7);
    let there = ip(10, 0, 0, 8);
    let first = Some(object(vec![
        ("mac", text("A8:BB:50:A4:F9:4D")),
        ("moduleName", text("ESP15_SHRGB1W_01I")),
    ]));
    let again = Some(object(vec![("mac", text("a8bb50a4f94d"))]));
    assert_eq!(note_reply(&mut found, here, &None), ReplyNote::NoResult);
    assert_eq!(note_reply(&mut found, here, &Some(object(vec![]))), ReplyNote::NoMac);
    assert_eq!(note_reply(&mut found, here, &first), ReplyNote::Added);
    assert_eq!(note_reply(&mut found, there, &again), ReplyNote::Repeated);
    assert_eq!(found.len(), 1);
    assert_eq!(found[0].mac, "a8bb50a4f94d");
    assert_eq!(found[0].ip, here);
    assert_eq!(found[0].module.as_deref(), Some("ESP15_SHRGB1W_01I"));
}

#[test]
fn discovery_listens_until_its_window_elapses() {
    let mut found: Vec<DiscoveredBulb> = Vec::new();
    let reply = || Reception::Reply(ip(10, 0, 0, 7), Some(object(vec![("mac", text("aa"))])));
    for (reception, note) in [
        (Reception::OtherAddress, None),
        (Reception::Unparsable, None),
        (Reception::Reply(ip(10, 0, 0, 9), None), Some(ReplyNote::NoResult)),
        (reply(), Some(ReplyNote::Added)),
        (reply(), Some(ReplyNote::Repeated)),
    ] {
        match take_reception(&mut found, reception) {
            Listening::Again(n) => assert_eq!(n, note),
            other => panic!("{:?}", other),
        }
    }
    assert!(matches!(take_reception(&mut found, Reception::Elapsed), Listening::Finished));
    match take_reception(&mut found, Reception::Failed("torn".to_string())) {
        Listening::Broken(e) => assert_eq!(e.message(), "io error: torn"),
        other => panic!("{:?}", other),
    }
    assert_eq!(found.len(), 1);
    assert_eq!(time_left(10, 4), Some(6));
    assert_eq!(time_left(10, 10), None);
    assert_eq!(time_left(10, 11), None);
}

#[test]
fn bulbs_are_found_in_any_case() {
    let bulbs = vec![
        DiscoveredBulb { mac: "aa".to_string(), ip: ip(1, 0, 0, 1), module: None },
        DiscoveredBulb { mac: "bb".to_string(), ip: ip(1, 0, 0, 2), module: None },
    ];
    assert_eq!(find_bulb(&bulbs, "BB").unwrap().ip, ip(1, 0, 0, 2));
    assert!(find_bulb(&bulbs, "b").is_none());
    assert!(find_bulb(&bulbs, "b:b").is_none());
}

#[test]
fn probes_need_a_mac() {
    let here = ip(10, 0, 0, 7);
    let bulb = probe_outcome(here, reply(object(vec![("mac", text("AABB"))]), "")).unwrap();
    assert_eq!((bulb.mac.as_str(), bulb.ip), ("aabb", here));
    assert_eq!(
        probe_outcome(here, reply(object(vec![]), "{}")).unwrap_err().message(),
        "invalid response: missing 'mac' field"
    );
    assert!(announced_bulb(here, &Json::Null).is_none());
}

#[test]
fn addresses_round_trip() {
    for (a, s) in [
        (ip(0, 0, 0, 0), "0.0.0.0"),
        (ip(192, 168, 1, 20), "192.168.1.20"),
        (ip(255, 255, 255, 255), "255.255.255.255"),
    ] {
        assert_eq!(a.to_text(), s);
        assert_eq!(Ipv4::parse(s), Some(a));
    }
    for s in ["", "1.2.3", "1.2.3.4.5", "1.2.3.256", "01.2.3.4", "+1.2.3.4", " 1.2.3.4", "1..2.3"] {
        assert_eq!(Ipv4::parse(s), None);
    }
}

#[test]
fn json_members() {
    let v = object(vec![
        ("n", Json::Unsigned(u64::MAX)),
        ("m", Json::Negative(-5)),
        ("s", text("x")),
        ("b", Json::Bool(true)),
        ("f", Json::Float),
    ]);
    assert_eq!(v.get_u64("n"), Some(u64::MAX));
    assert_eq!(v.get_i64("n"), None);
    assert_eq!(v.get_i64("m"), Some(-5));
    assert_eq!(v.get_u64("m"), None);
    assert_eq!(v.get_text("s"), Some("x"));
    assert_eq!(v.get_bool("b"), Some(true));
    assert_eq!(v.get_u64("f"), None);
    assert!(v.get("missing").is_none());
    assert!(Json::Null.get("n").is_none());
    assert!(v.is_object());
    assert!(!Json::Array.is_object());
}
