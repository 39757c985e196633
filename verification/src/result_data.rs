//! The result of a request, whichever method it answers.
use vstd::prelude::*;

use crate::{ConnectionIdResponse, EndstopStatus, GcodeHelp, GcodeStore, MachineProcStats, PrinterInfoResponse, PrinterObjectsListResponse, PrinterObjectsQueryResponse, RollOverResponse, ServerConfig, ServerInfo, SystemInfo, TemperatureStore, WebsocketIdResponse};

verus! {

/// The `"ok"` result.
#[derive(Debug, Clone, Copy, PartialEq, Eq, Structural)]
pub enum MoonOk {
    Acknowledged,
}

/// The result of `access.login`.
#[derive(Debug, Clone, PartialEq)]
pub struct AuthenticationResponse {
    pub username: String,
    pub token: String,
    pub refresh_token: String,
    pub action: String,
    pub source: String,
}

/// The result of a request.
#[derive(Debug, Clone, PartialEq)]
pub enum MoonResultData {
    Acknowledged(MoonOk),
    TemperatureStore(TemperatureStore),
    PrinterInfoResponse(PrinterInfoResponse),
    PrinterObjectsListResponse(PrinterObjectsListResponse),
    PrinterObjectsQueryResponse(PrinterObjectsQueryResponse),
    ServerInfo(ServerInfo),
    ServerConfig(ServerConfig),
    GcodeStore(GcodeStore),
    RollOverResponse(RollOverResponse),
    ConnectionIdResponse(ConnectionIdResponse),
    WebsocketIdResponse(WebsocketIdResponse),
    EndstopStatus(EndstopStatus),
    GcodeHelp(GcodeHelp),
    SystemInfo {
        system_info: SystemInfo,
    },
    MachineProcStats(MachineProcStats),
    AuthenticationResponse(AuthenticationResponse),
    NoResult,
}

} // verus!
