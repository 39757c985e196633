//! A client library for Moonraker, the API server of the Klipper 3D-printer firmware:
//! the JSON-RPC messages exchanged over its websocket, the routing of responses to the
//! requests that wait for them, and the decisions of a client about the printer.
use vstd::prelude::*;

pub mod text;
pub mod jsonrpc;
pub mod pending;
pub mod messages;
pub mod moon_method;
pub mod moon_param;
pub mod request;
pub mod server;
pub mod printer;
pub mod machine;
pub mod notify;
pub mod result_data;
pub mod moon_response;
pub mod client;
pub mod readiness;
pub mod fast_ws_stuff;
pub mod utils;

pub use messages::{PrinterState, PrinterInfoResponse, GcodeType, GcodeStore, TempStoreData, HeaterNames, TemperatureStore};
pub use moon_method::{MoonMethod, NotificationMethod};
pub use moon_param::{PrinterObject, SystemdSevice, Event, MoonParam};
pub use request::{MoonRequest};
pub use server::{ServerInfo, Server, FileManager, Machine, JobQueue, Authorization, Mqtt, Config, Orig, File, ServerConfig, RollOverResponse, WebsocketIdResponse, ConnectionIdResponse};
pub use printer::{PrinterObjectsListResponse, HelpText, GcodeHelp, EndstopState, EndstopStatus, GcodeMove, Toolhead, Configfile, Extruder, HeaterBed, Fan, IdleTimeout, VirtualSdcard, PrintStatsInfo, PrintStats, DisplayStatus, ZTilt, PrinterObjectStatus, PrinterObjectsQueryResponse};
pub use machine::{CpuInfo, SdInfo, DistributionVersionParts, Distribution, ServiceState, Virtualization, PythonVersion, NetworkAddress, NetworkInterface, CanbusInterface, SystemInfo, MachineSystemInfoResponse, MoonrakerStats, CpuThrottledState, NetworkData, MachineProcStats};
pub use notify::{AnnouncementEntry, AnnouncementUpdateParam, EntryId, FilelistAction, FilelistItem, FilelistChangedParam, JobObject, HistoryChangedParam, NetworkDetails, NotifyProcStatUpdateParam, ActiveSpoolSetParams, SpoolmanStatusChangedParams, Webcam, WebcamsChangedParams, NotificationParam};
pub use result_data::{MoonOk, AuthenticationResponse, MoonResultData};
pub use moon_response::{MoonErrorContent, MoonResponse};
pub use jsonrpc::{JsonRpcError, JsonRpcErrorResponse, JsonRpcNotification, JsonRpcRequest, JsonRpcResponse, JsonRpcSuccessResponse, JsonText};

verus! {

/// The JSON-RPC protocol version spoken with Moonraker.
#[derive(Debug, Clone, Copy, PartialEq, Eq, Structural)]
pub enum JsonRpcVersion {
    V2,
}

impl Default for JsonRpcVersion {
    fn default() -> (v: Self)
        ensures
            v == JsonRpcVersion::V2,
    {
        JsonRpcVersion::V2
    }
}

/// A binary64 floating-point number, held by its bit pattern. The library
/// carries such numbers from the wire and back without looking at them.
#[derive(Debug, Clone, Copy, PartialEq, Eq, Structural)]
pub struct Float64 {
    pub bits: u64,
}

/// A binary32 floating-point number, held by its bit pattern. The library
/// carries such numbers from the wire and back without looking at them.
#[derive(Debug, Clone, Copy, PartialEq, Eq, Structural)]
pub struct Float32 {
    pub bits: u32,
}

} // verus!
