use moonsock::fast_ws_stuff::{address_from_parts, socket_address, UrlParts};
use moonsock::messages::same_heater;
use moonsock::request::{create_user_request, homed_axes_query, login_request, z_tilt_query};
use moonsock::text::{join_strings, keys_ascending, keys_distinct, push_decimal, push_decimal_i32, text_is_before};
use moonsock::utils::single_element_array::{one_element, sole_element, NotSingleElement};
use moonsock::{
    Float32, Float64, GcodeMove, HeaterNames, JsonRpcVersion, MoonMethod, MoonParam,
    MoonRequest, MoonResponse, MoonResultData, NetworkData, NotificationMethod,
    NotificationParam, PrinterObject, PrinterObjectStatus, TempStoreData, TemperatureStore,
    Toolhead, ZTilt,
};
use moonsock::jsonrpc::{JsonRpcError, JsonText};

fn temps(values: &[u32]) -> TempStoreData {
    TempStoreData::Temp { temperatures: values.iter().map(|b| Float32 { bits: *b }).collect() }
}

#[test]
fn decimal_text() {
    let mut s = String::from("n=");
    push_decimal(&mut s, 0);
    assert_eq!(s, "n=0");
    let mut s = String::new();
    push_decimal(&mut s, 18446744073709551615);
    assert_eq!(s, "18446744073709551615");
    let mut s = String::new();
    push_decimal_i32(&mut s, i32::MIN);
    assert_eq!(s, "-2147483648");
    let mut s = String::new();
    push_decimal_i32(&mut s, 42);
    assert_eq!(s, "42");
}

#[test]
fn joining() {
    let parts = vec!["a".to_string(), "b".to_string(), "c".to_string()];
    assert_eq!(join_strings(&parts, ", "), "a, b, c");
    assert_eq!(join_strings(&vec!["solo".to_string()], ", "), "solo");
    assert_eq!(join_strings(&vec![], ", "), "");
}

#[test]
fn requests() {
    let r = MoonRequest::with_id(MoonMethod::ServerInfo, None, 42);
    assert_eq!(r.jsonrpc, JsonRpcVersion::V2);
    assert_eq!(r.method, MoonMethod::ServerInfo);
    assert!(r.params.is_none());
    assert_eq!(r.id, 42);

    let g = MoonRequest::gcode("G28".to_string());
    assert_eq!(g.method, MoonMethod::GcodeScript);
    assert!(matches!(g.params, Some(MoonParam::GcodeScript { ref script }) if script == "G28"));

    let h = homed_axes_query();
    assert_eq!(h.method, MoonMethod::PrinterObjectsQuery);
    match h.params {
        Some(MoonParam::PrinterObjectsQuery { objects: PrinterObject::Toolhead(Some(fields)) }) => {
            assert_eq!(fields, vec!["homed_axes".to_string()])
        }
        other => panic!("unexpected {:?}", other),
    }

    let z = z_tilt_query();
    assert!(matches!(
        z.params,
        Some(MoonParam::PrinterObjectsQuery { objects: PrinterObject::ZTilt(None) })
    ));

    let u = create_user_request("ann".to_string(), "pw".to_string());
    assert_eq!(u.method, MoonMethod::AccessPostUser);
    assert!(matches!(u.params,
        Some(MoonParam::AccessPostUserParams { ref username, ref password })
            if username == "ann" && password == "pw"));

    let l = login_request("ann".to_string(), "pw".to_string());
    assert_eq!(l.method, MoonMethod::AccessLogin);
    assert!(matches!(l.params,
        Some(MoonParam::AccessLoginParams { ref username, ref password, ref source })
            if username == "ann" && password == "pw" && source == "moonraker"));
}

#[test]
fn response_ids() {
    let mut r = MoonResponse::from_result(MoonResultData::NoResult);
    assert_eq!(r.id(), Some(0));
    r.set_id(77);
    assert_eq!(r.id(), Some(77));
    assert!(r.method().is_none() && r.params().is_none());

    let mut e = MoonResponse::from_error(JsonRpcError { code: 1, message: "m".to_string(), data: None });
    assert_eq!(e.id(), None);
    e.set_id(5);
    assert_eq!(e.id(), Some(5));

    let mut n = MoonResponse::Notification {
        jsonrpc: JsonRpcVersion::V2,
        method: NotificationMethod::NotifyGcodeResponse,
        params: Some(NotificationParam::Other(JsonText { text: "[\"ok\"]".to_string() })),
    };
    n.set_id(9);
    assert_eq!(n.id(), None);
    assert_eq!(n.method(), Some(&NotificationMethod::NotifyGcodeResponse));
    assert_eq!(
        n.params(),
        Some(&NotificationParam::Other(JsonText { text: "[\"ok\"]".to_string() }))
    );
}

#[test]
fn response_defaults() {
    assert_eq!(
        MoonResponse::default(),
        MoonResponse::MoonResult { jsonrpc: JsonRpcVersion::V2, result: MoonResultData::NoResult, id: 0 }
    );
    assert_eq!(MoonResultData::default(), MoonResultData::NoResult);
    assert_eq!(JsonRpcVersion::default(), JsonRpcVersion::V2);
}

#[test]
fn printer_object_defaults() {
    let s = PrinterObjectStatus::default();
    assert!(s.gcode_move.is_none() && s.toolhead.is_none() && s.z_tilt.is_none());
    assert!(s.print_stats.is_none() && s.display_status.is_none());
    assert_eq!(Toolhead::default().homed_axes, None);
    assert_eq!(GcodeMove::default().speed, None);
    assert_eq!(ZTilt::default(), ZTilt { applied: false });
    let n = NetworkData::default();
    assert_eq!((n.rx_bytes, n.tx_bytes, n.rx_drop), (0, 0, None));
    assert_eq!(n.bandwidth, Float64 { bits: 0.0f64.to_bits() });
}

#[test]
fn heater_names() {
    assert!(same_heater(&HeaterNames::Extruder, &HeaterNames::Extruder));
    assert!(!same_heater(&HeaterNames::Extruder, &HeaterNames::Extruder1));
    assert!(same_heater(&HeaterNames::NameStr("chamber".into()), &HeaterNames::NameStr("chamber".into())));
    assert!(!same_heater(&HeaterNames::NameStr("a".into()), &HeaterNames::NameStr("b".into())));
    assert!(!same_heater(&HeaterNames::NameStr("heater_bed".into()), &HeaterNames::HeaterBed));
}

#[test]
fn temperature_store_replaces_by_name() {
    let mut store = TemperatureStore::new();
    assert!(store.items.is_empty());
    store.add_to_hashmap(HeaterNames::Extruder, temps(&[1]));
    store.add_to_hashmap(HeaterNames::HeaterBed, temps(&[2]));
    store.add_to_hashmap(HeaterNames::Extruder, temps(&[3, 4]));
    store.add_to_hashmap(HeaterNames::NameStr("chamber".into()), temps(&[5]));
    assert_eq!(store.items.len(), 3);
    assert_eq!(store.items[0], (HeaterNames::Extruder, temps(&[3, 4])));
    assert_eq!(store.items[1], (HeaterNames::HeaterBed, temps(&[2])));
    assert_eq!(store.items[2], (HeaterNames::NameStr("chamber".into()), temps(&[5])));
}

#[test]
fn single_element_arrays() {
    assert_eq!(sole_element(vec![7]), Ok(7));
    assert_eq!(sole_element(Vec::<u8>::new()), Err(NotSingleElement));
    assert_eq!(sole_element(vec![1, 2]), Err(NotSingleElement));
    assert_eq!(one_element("x"), vec!["x"]);
    assert_eq!(sole_element(one_element(String::from("back"))), Ok(String::from("back")));
}

#[test]
fn socket_addresses() {
    assert_eq!(socket_address("voron.local", 7125), Some("voron.local:7125".to_string()));
    // The default port of `ws` is not kept by the parser and comes back from the scheme.
    assert_eq!(socket_address("printer", 80), Some("printer:80".to_string()));
    // An IP address is no domain.
    assert_eq!(socket_address("192.168.1.2", 7125), None);
    // Not a URL at all.
    assert_eq!(socket_address("bad host", 7125), None);
}

#[test]
fn addresses_from_parts() {
    let parts = |scheme: &str, domain: Option<&str>, port: Option<u16>| UrlParts {
        scheme: scheme.to_string(),
        domain: domain.map(|d| d.to_string()),
        port,
    };
    assert_eq!(address_from_parts(&parts("ws", Some("h"), Some(9))), Some("h:9".to_string()));
    assert_eq!(address_from_parts(&parts("ws", Some("h"), None)), Some("h:80".to_string()));
    assert_eq!(address_from_parts(&parts("wss", Some("h"), None)), Some("h:443".to_string()));
    assert_eq!(address_from_parts(&parts("http", Some("h"), None)), None);
    assert_eq!(address_from_parts(&parts("ws", None, Some(9))), None);
}

#[test]
fn connect_targets() {
    assert_eq!(
        moonsock::fast_ws_stuff::connect_target("ws://voron.local:7125/websocket"),
        Some("ws://voron.local:7125/websocket".to_string())
    );
    // The parser writes the URL back in its normal form.
    assert_eq!(
        moonsock::fast_ws_stuff::connect_target("WS://Voron.Local:80/websocket"),
        Some("ws://voron.local/websocket".to_string())
    );
    assert_eq!(moonsock::fast_ws_stuff::connect_target("not a url"), None);
}

#[test]
fn string_order_and_key_checks() {
    assert!(text_is_before("a", "b"));
    assert!(text_is_before("ab", "abc"));
    assert!(!text_is_before("abc", "ab"));
    assert!(!text_is_before("a", "a"));
    assert!(text_is_before("Z", "a"));
    assert!(text_is_before("cpu", "cpu0"));
    let v = |ks: &[&str]| ks.iter().map(|k| (k.to_string(), 0u8)).collect::<Vec<_>>();
    assert!(keys_ascending(&v(&["cpu", "cpu0", "cpu1"])));
    assert!(!keys_ascending(&v(&["cpu1", "cpu0"])));
    assert!(!keys_ascending(&v(&["a", "a"])));
    assert!(keys_distinct(&v(&["b", "a"])));
    assert!(!keys_distinct(&v(&["b", "a", "b"])));
    let help = moonsock::GcodeHelp {
        handlers: vec![
            ("PID_CALIBRATE".to_string(), moonsock::HelpText("Run PID calibration test".to_string())),
            ("QUERY_ADC".to_string(), moonsock::HelpText("Report the last value of an analog pin".to_string())),
        ],
    };
    assert!(help.well_formed());
    let failed = moonsock::RollOverResponse {
        rolled_over: vec![],
        failed: vec![("moonraker".to_string(), "x".to_string()), ("moonraker".to_string(), "y".to_string())],
    };
    assert!(!failed.well_formed());
}
