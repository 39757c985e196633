//! The results of the `server.*` methods.
use vstd::prelude::*;

use crate::text::{distinct_keys, keys_distinct};
use crate::{JsonText, PrinterState};

verus! {

/// The result of `server.info`.
#[derive(Debug, Clone, PartialEq)]
pub struct ServerInfo {
    pub klippy_connected: bool,
    pub klippy_state: PrinterState,
    pub components: Vec<String>,
    pub failed_components: Vec<String>,
    pub registered_directories: Vec<String>,
    pub warnings: Vec<String>,
    pub websocket_count: u32,
    pub moonraker_version: String,
    pub api_version: Vec<u32>,
    pub api_version_string: String,
}

/// The `[server]` section of the configuration.
#[derive(Debug, Clone, PartialEq)]
pub struct Server {
    pub host: String,
    pub port: u16,
    pub ssl_port: u16,
    pub enable_debug_logging: bool,
    pub enable_asyncio_debug: bool,
    pub klippy_uds_address: String,
    pub max_upload_size: u32,
    pub ssl_certificate_path: Option<String>,
    pub ssl_key_path: Option<String>,
}

/// The `[file_manager]` section of the configuration.
#[derive(Debug, Clone, PartialEq)]
pub struct FileManager {
    pub enable_object_processing: bool,
    pub queue_gcode_uploads: bool,
    pub config_path: String,
    pub log_path: String,
}

/// The `[machine]` section of the configuration.
#[derive(Debug, Clone, PartialEq)]
pub struct Machine {
    pub provider: String,
}

/// The `[job_queue]` section of the configuration.
#[derive(Debug, Clone, PartialEq)]
pub struct JobQueue {
    pub load_on_startup: bool,
    pub automatic_transition: bool,
    pub job_transition_delay: u32,
    pub job_transition_gcode: String,
}

/// The `[authorization]` section of the configuration.
#[derive(Debug, Clone, PartialEq)]
pub struct Authorization {
    pub login_timeout: u32,
    pub force_logins: bool,
    pub cors_domains: Vec<String>,
    pub trusted_clients: Vec<String>,
}

/// The `[mqtt]` section of the configuration.
#[derive(Debug, Clone, PartialEq)]
pub struct Mqtt {
    pub address: String,
    pub port: u16,
    pub username: String,
    pub password_file: Option<String>,
    pub password: String,
    pub mqtt_protocol: String,
    pub instance_name: String,
    pub default_qos: u8,
    pub status_objects: JsonText,
    pub api_qos: u8,
    pub enable_moonraker_api: bool,
}

/// The parsed configuration, by section.
#[derive(Debug, Clone, PartialEq)]
pub struct Config {
    pub server: Server,
    pub dbus_manager: JsonText,
    pub database: JsonText,
    pub file_manager: FileManager,
    pub klippy_apis: JsonText,
    pub machine: Machine,
    pub shell_command: JsonText,
    pub data_store: JsonText,
    pub proc_stats: JsonText,
    pub job_state: JsonText,
    pub job_queue: JobQueue,
    pub http_client: JsonText,
    pub announcements: JsonText,
    pub authorization: Authorization,
    pub zeroconf: JsonText,
    pub octoprint_compat: JsonText,
    pub history: JsonText,
    pub secrets: JsonText,
    pub mqtt: Mqtt,
    pub template: JsonText,
}

/// The configuration as written, by section.
#[derive(Debug, Clone, PartialEq)]
pub struct Orig {
    pub default: JsonText,
    pub server: JsonText,
    pub file_manager: JsonText,
    pub machine: Machine,
    pub announcements: JsonText,
    pub job_queue: JsonText,
    pub authorization: JsonText,
    pub zeroconf: JsonText,
    pub octoprint_compat: JsonText,
    pub history: JsonText,
    pub secrets: JsonText,
    pub mqtt: JsonText,
}

/// A configuration file and the sections it holds.
#[derive(Debug, Clone, PartialEq)]
pub struct File {
    pub filename: String,
    pub sections: Vec<String>,
}

/// The result of `server.config`.
#[derive(Debug, Clone, PartialEq)]
pub struct ServerConfig {
    pub config: Config,
    pub orig: Orig,
    pub files: Vec<File>,
}

/// The result of `server.logs.rollover`.
#[derive(Debug, Clone, PartialEq)]
pub struct RollOverResponse {
    pub rolled_over: Vec<String>,
    /// For each log that failed, why.
    pub failed: Vec<(String, String)>,
}

/// The result of `server.websocket.id`.
#[derive(Debug, Clone, PartialEq)]
pub struct WebsocketIdResponse {
    pub websocket_id: u32,
}

/// The result of `server.connection.identify`.
#[derive(Debug, Clone, PartialEq)]
pub struct ConnectionIdResponse {
    pub connection_id: u32,
}


impl RollOverResponse {
    /// Each log that failed is listed once.
    pub open spec fn wf(self) -> bool {
        distinct_keys(self.failed@)
    }

    /// Whether the value is well formed, as `wf` says.
    pub fn well_formed(&self) -> (b: bool)
        ensures
            b == self.wf(),
    {
        keys_distinct(&self.failed)
    }
}

} // verus!
