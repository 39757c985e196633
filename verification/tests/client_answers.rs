use moonsock::client::{
    answer_is_yes, axes_homed, connection_printer_info_of, contains_text, expect_ok, homed_axes_of, is_ready,
    listen_outcome, printer_info_of, route_moon_response, server_info_of, websocket_url,
    z_tilt_applied_of, ClientError, MoonRouted, DEFAULT_MOONRAKER_PORT,
};
use moonsock::client::trim;
use moonsock::jsonrpc::JsonRpcError;
use moonsock::pending::PendingRequests;
use moonsock::{
    Float64, JsonRpcVersion, MoonErrorContent, MoonOk, MoonResponse, MoonResultData,
    NotificationMethod, PrinterInfoResponse, PrinterObjectStatus, PrinterObjectsQueryResponse,
    PrinterState, ServerInfo, Toolhead, ZTilt,
};

fn server_info(state: PrinterState) -> ServerInfo {
    ServerInfo {
        klippy_connected: true,
        klippy_state: state,
        components: vec!["database".to_string(), "file_manager".to_string()],
        failed_components: vec![],
        registered_directories: vec!["config".to_string(), "gcodes".to_string()],
        warnings: vec!["warning1".to_string(), "warning2".to_string()],
        websocket_count: 2,
        moonraker_version: "v0.7.1-105-ge4f103c".to_string(),
        api_version: vec![1, 0, 0],
        api_version_string: "1.0.0".to_string(),
    }
}

fn printer_info() -> PrinterInfoResponse {
    PrinterInfoResponse {
        state: PrinterState::Ready,
        state_message: "Printer is ready".to_string(),
        hostname: "voron".to_string(),
        klipper_path: "/home/pi/klipper".to_string(),
        python_path: "/home/pi/klippy-env/bin/python".to_string(),
        process_id: 275124,
        user_id: 1000,
        group_id: 1000,
        log_file: "/tmp/klippy.log".to_string(),
        config_file: "/home/pi/printer.cfg".to_string(),
        software_version: "v0.9.1-302-g900c7396".to_string(),
        cpu_info: "4 core ARMv7 Processor rev 4 (v7l)".to_string(),
    }
}

fn result(data: MoonResultData, id: u32) -> MoonResponse {
    MoonResponse::MoonResult { jsonrpc: JsonRpcVersion::V2, result: data, id }
}

fn moon_error(id: Option<u32>) -> MoonResponse {
    MoonResponse::MoonError {
        jsonrpc: JsonRpcVersion::V2,
        error: JsonRpcError { code: 400, message: "bad".to_string(), data: None },
        id,
    }
}

fn notification() -> MoonResponse {
    MoonResponse::Notification {
        jsonrpc: JsonRpcVersion::V2,
        method: NotificationMethod::NotifyKlippyReady,
        params: None,
    }
}

fn query(toolhead: Option<Toolhead>, z_tilt: Option<ZTilt>) -> MoonResponse {
    let mut status = PrinterObjectStatus::default();
    status.toolhead = toolhead;
    status.z_tilt = z_tilt;
    result(
        MoonResultData::PrinterObjectsQueryResponse(PrinterObjectsQueryResponse {
            eventtime: Float64 { bits: 0 },
            status,
        }),
        345,
    )
}

fn toolhead(axes: Option<&str>) -> Toolhead {
    let mut t = Toolhead::default();
    t.homed_axes = axes.map(|a| a.to_string());
    t
}

#[test]
fn ok_answers() {
    assert_eq!(expect_ok(result(MoonResultData::Acknowledged(MoonOk::Acknowledged), 1)), Ok(()));
    match expect_ok(moon_error(Some(1))) {
        Err(ClientError::Moon(e)) => assert_eq!(e.code, 400),
        other => panic!("unexpected {:?}", other),
    }
    match expect_ok(result(MoonResultData::NoResult, 1)) {
        Err(ClientError::NotOk(r)) => assert_eq!(r, result(MoonResultData::NoResult, 1)),
        other => panic!("unexpected {:?}", other),
    }
}

#[test]
fn server_info_answers() {
    let info = server_info(PrinterState::Ready);
    assert_eq!(server_info_of(result(MoonResultData::ServerInfo(info.clone()), 354)), Ok(info));
    match server_info_of(result(MoonResultData::NoResult, 1)) {
        Err(ClientError::UnexpectedResult(MoonResultData::NoResult)) => {}
        other => panic!("unexpected {:?}", other),
    }
    match server_info_of(notification()) {
        Err(ClientError::UnexpectedResponse(r)) => assert_eq!(r, notification()),
        other => panic!("unexpected {:?}", other),
    }
}

#[test]
fn printer_info_answers() {
    assert_eq!(
        printer_info_of(result(MoonResultData::PrinterInfoResponse(printer_info()), 2)),
        Ok(printer_info())
    );
    assert_eq!(
        printer_info_of(result(MoonResultData::Acknowledged(MoonOk::Acknowledged), 2)),
        Err(ClientError::OkInsteadOfPrinterInfo)
    );
    assert_eq!(printer_info_of(result(MoonResultData::NoResult, 2)), Err(ClientError::NoPrinterInfo));
    assert_eq!(printer_info_of(notification()), Err(ClientError::NoPrinterInfo));
    match printer_info_of(moon_error(None)) {
        Err(ClientError::Moon(e)) => assert_eq!(e.message, "bad"),
        other => panic!("unexpected {:?}", other),
    }
}

#[test]
fn homed_axes_answers() {
    assert_eq!(homed_axes_of(query(Some(toolhead(Some("xyz"))), None)), Ok("xyz".to_string()));
    assert_eq!(homed_axes_of(query(Some(toolhead(None)), None)), Err(ClientError::MissingHomedAxes));
    assert_eq!(homed_axes_of(query(None, None)), Err(ClientError::MissingToolhead));
    assert_eq!(homed_axes_of(moon_error(Some(3))), Err(ClientError::NotAnObjectsQueryResult));
    assert_eq!(
        homed_axes_of(result(MoonResultData::NoResult, 3)),
        Err(ClientError::NotAnObjectsQueryResult)
    );
}

#[test]
fn z_tilt_answers() {
    assert_eq!(z_tilt_applied_of(query(None, Some(ZTilt { applied: true }))), Ok(true));
    assert_eq!(z_tilt_applied_of(query(None, Some(ZTilt::default()))), Ok(false));
    assert_eq!(z_tilt_applied_of(query(None, None)), Err(ClientError::MissingZTilt));
    assert_eq!(z_tilt_applied_of(result(MoonResultData::NoResult, 1)), Err(ClientError::UnexpectedFormat));
    assert_eq!(z_tilt_applied_of(notification()), Err(ClientError::UnexpectedType));
}

#[test]
fn readiness_of_server_info() {
    assert!(is_ready(&server_info(PrinterState::Ready)));
    assert!(!is_ready(&server_info(PrinterState::Standby)));
    assert!(!is_ready(&server_info(PrinterState::Error)));
}

#[test]
fn websocket_urls() {
    assert_eq!(DEFAULT_MOONRAKER_PORT, 7125);
    assert_eq!(websocket_url("voron.local", None), "ws://voron.local:7125/websocket");
    assert_eq!(websocket_url("10.0.0.2", Some(80)), "ws://10.0.0.2:80/websocket");
    assert_eq!(websocket_url("h", Some(0)), "ws://h:0/websocket");
    assert_eq!(websocket_url("h", Some(65535)), "ws://h:65535/websocket");
}

#[test]
fn text_search() {
    assert!(contains_text("abcxyzdef", "xyz"));
    assert!(contains_text("xyz", "xyz"));
    assert!(contains_text("abc", ""));
    assert!(!contains_text("xy", "xyz"));
    assert!(!contains_text("xzy", "xyz"));
}

#[test]
fn homed_axes_include_xyz() {
    assert!(axes_homed("xyz"));
    assert!(axes_homed("XYZ"));
    assert!(axes_homed("axYZb"));
    assert!(!axes_homed("xy"));
    assert!(!axes_homed("zyx"));
    assert!(!axes_homed(""));
}

#[test]
fn yes_answers() {
    assert!(answer_is_yes("y"));
    assert!(answer_is_yes("  Y \n"));
    assert!(!answer_is_yes("yes"));
    assert!(!answer_is_yes("n"));
    assert!(!answer_is_yes(""));
}

#[test]
fn listen_outcomes() {
    assert_eq!(listen_outcome(notification()), Ok(notification()));
    assert_eq!(listen_outcome(result(MoonResultData::NoResult, 4)), Ok(result(MoonResultData::NoResult, 4)));
    match listen_outcome(moon_error(Some(4))) {
        Err(e) => assert_eq!(e.code, 400),
        other => panic!("unexpected {:?}", other),
    }
}

#[test]
fn plain_connection_routing() {
    let mut p = PendingRequests::new();
    p.register(10);
    match route_moon_response(&mut p, result(MoonResultData::NoResult, 10)) {
        MoonRouted::Deliver { id, response } => {
            assert_eq!(id, 10);
            assert_eq!(response, result(MoonResultData::NoResult, 10));
        }
        other => panic!("unexpected {:?}", other),
    }
    assert!(!p.is_pending(10));
    match route_moon_response(&mut p, result(MoonResultData::NoResult, 10)) {
        MoonRouted::Forward(r) => assert_eq!(r, result(MoonResultData::NoResult, 10)),
        other => panic!("unexpected {:?}", other),
    }
    p.register(11);
    match route_moon_response(&mut p, moon_error(Some(11))) {
        MoonRouted::Deliver { id, .. } => assert_eq!(id, 11),
        other => panic!("unexpected {:?}", other),
    }
    p.register(12);
    match route_moon_response(&mut p, moon_error(None)) {
        MoonRouted::Drop => {}
        other => panic!("unexpected {:?}", other),
    }
    match route_moon_response(&mut p, notification()) {
        MoonRouted::Drop => {}
        other => panic!("unexpected {:?}", other),
    }
    assert!(p.is_pending(12));
}

#[test]
fn moon_error_content_describes_itself() {
    let e = MoonErrorContent { code: 404, message: "Not Found".to_string() };
    assert_eq!(e.describe(), "404: Not Found");
}

#[test]
fn client_error_texts() {
    assert_eq!(
        ClientError::OkInsteadOfPrinterInfo.describe(),
        "Received an ok() response from the server, but was expecting "
    );
    assert_eq!(
        ClientError::NoPrinterInfo.describe(),
        "Error in `MoonrakerClient::get_printer_info`: did not receive a MoonMSG::MoonResult response, but should have. This is a bug."
    );
    assert_eq!(
        ClientError::NotAnObjectsQueryResult.describe(),
        "Error: Printer did not return expected response"
    );
    assert_eq!(
        ClientError::MissingToolhead.describe(),
        "Error: Could not find the `toolhead` field in response from printer"
    );
    assert_eq!(
        ClientError::MissingHomedAxes.describe(),
        "Error: Could not find `homed_axes` in response from printer"
    );
    assert_eq!(ClientError::MissingZTilt.describe(), "Error: 'z_tilt' object not found in response");
    assert_eq!(
        ClientError::UnexpectedFormat.describe(),
        "Error: Unexpected response format from Moonraker"
    );
    assert_eq!(ClientError::UnexpectedType.describe(), "Error: Unexpected response type from Moonraker");
    assert_eq!(ClientError::Transport("closed".to_string()).describe(), "closed");
    assert_eq!(
        ClientError::Moon(JsonRpcError { code: -1, message: "m".to_string(), data: None }).describe(),
        "-1: m"
    );
    assert_eq!(
        ClientError::NotOk(result(MoonResultData::NoResult, 1)).describe(),
        "Expected an Ok response got: "
    );
    assert_eq!(
        ClientError::ConnectionOkInsteadOfPrinterInfo.describe(),
        "Recived an ok() response from the server, but was expecting "
    );
}

#[test]
fn connection_printer_info_answers() {
    assert_eq!(
        connection_printer_info_of(result(MoonResultData::PrinterInfoResponse(printer_info()), 2)),
        Ok(printer_info())
    );
    assert_eq!(
        connection_printer_info_of(result(MoonResultData::Acknowledged(MoonOk::Acknowledged), 2)),
        Err(ClientError::ConnectionOkInsteadOfPrinterInfo)
    );
    assert_eq!(connection_printer_info_of(notification()), Err(ClientError::ConnectionNoPrinterInfo));
    assert_eq!(
        connection_printer_info_of(result(MoonResultData::NoResult, 2)),
        Err(ClientError::ConnectionNoPrinterInfo)
    );
}

#[test]
fn trimming() {
    assert_eq!(trim("  y \n"), "y");
    assert_eq!(trim("\t\u{3000}a b\u{2028}"), "a b");
    assert_eq!(trim(" \n "), "");
    assert_eq!(trim(""), "");
    assert_eq!(trim("x"), "x");
    for s in ["  Y ", "\u{85}z\u{a0}", "a\u{200b}"] {
        assert_eq!(trim(s), s.trim());
    }
}
