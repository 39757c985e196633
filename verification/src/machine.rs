//! The results of the `machine.*` methods.
use vstd::prelude::*;

use crate::text::{ascending_keys, keys_ascending};
use crate::{Float64, JsonText};

verus! {

/// Information on the host's CPU.
#[derive(Debug, Clone, PartialEq)]
pub struct CpuInfo {
    pub cpu_count: u32,
    pub bits: String,
    pub processor: String,
    pub cpu_desc: String,
    pub serial_number: String,
    pub hardware_desc: String,
    pub model: String,
    pub total_memory: u64,
    pub memory_units: String,
}

/// Information on the host's SD card.
#[derive(Debug, Clone, PartialEq)]
pub struct SdInfo {
    pub manufacturer_id: String,
    pub manufacturer: String,
    pub oem_id: String,
    pub product_name: String,
    pub product_revision: String,
    pub serial_number: String,
    pub manufacturer_date: String,
    pub capacity: String,
    pub total_bytes: u64,
}

/// The parts of a distribution version.
#[derive(Debug, Clone, PartialEq)]
pub struct DistributionVersionParts {
    pub major: String,
    pub minor: String,
    pub build_number: String,
}

/// The host's operating system distribution.
#[derive(Debug, Clone, PartialEq)]
pub struct Distribution {
    pub name: String,
    pub id: String,
    pub version: String,
    pub version_parts: DistributionVersionParts,
    pub like: String,
    pub codename: String,
}

/// The state of a system service.
#[derive(Debug, Clone, PartialEq)]
pub struct ServiceState {
    pub active_state: String,
    pub sub_state: String,
}

/// The host's virtualization.
#[derive(Debug, Clone, PartialEq)]
pub struct Virtualization {
    pub virt_type: String,
    pub virt_identifier: String,
}

/// The Python version that runs Moonraker.
#[derive(Debug, Clone, PartialEq)]
pub struct PythonVersion {
    pub version: Vec<JsonText>,
    pub version_string: String,
}

/// An address of a network interface.
#[derive(Debug, Clone, PartialEq)]
pub struct NetworkAddress {
    pub family: String,
    pub address: String,
    pub is_link_local: bool,
}

/// A network interface of the host.
#[derive(Debug, Clone, PartialEq)]
pub struct NetworkInterface {
    pub mac_address: String,
    pub ip_addresses: Vec<NetworkAddress>,
}

/// A CAN bus interface of the host.
#[derive(Debug, Clone, PartialEq)]
pub struct CanbusInterface {
    pub tx_queue_len: u32,
    pub bitrate: u32,
    pub driver: String,
}

/// The result of `machine.system_info`.
#[derive(Debug, Clone, PartialEq)]
pub struct SystemInfo {
    pub cpu_info: CpuInfo,
    pub sd_info: Option<SdInfo>,
    pub distribution: Distribution,
    pub available_services: Vec<String>,
    pub instance_ids: Vec<(String, String)>,
    pub service_state: Vec<(String, ServiceState)>,
    pub virtualization: Virtualization,
    pub python: PythonVersion,
    pub network: Vec<(String, NetworkInterface)>,
    pub canbus: Vec<(String, CanbusInterface)>,
}

/// The result of `machine.system_info`, wrapped.
#[derive(Debug, Clone, PartialEq)]
pub struct MachineSystemInfoResponse {
    pub system_info: SystemInfo,
}

/// A sample of Moonraker's own resource use.
#[derive(Debug, Clone, PartialEq)]
pub struct MoonrakerStats {
    pub time: Float64,
    pub cpu_usage: Float64,
    pub memory: u64,
    pub mem_units: String,
}

/// The CPU throttling state.
#[derive(Debug, Clone, PartialEq)]
pub struct CpuThrottledState {
    pub bits: u64,
    pub flags: Vec<String>,
}

/// Traffic on a network interface.
#[derive(Debug, Clone, PartialEq)]
pub struct NetworkData {
    pub rx_bytes: u64,
    pub tx_bytes: u64,
    pub rx_packets: Option<u64>,
    pub tx_packets: Option<u64>,
    pub rx_errs: Option<u64>,
    pub tx_errs: Option<u64>,
    pub rx_drop: Option<u64>,
    pub tx_drop: Option<u64>,
    pub bandwidth: Float64,
}

impl Default for NetworkData {
    /// No traffic counted, nothing else known, and a bandwidth of 0.0.
    fn default() -> (d: Self)
        ensures
            d == (NetworkData {
                rx_bytes: 0,
                tx_bytes: 0,
                rx_packets: None,
                tx_packets: None,
                rx_errs: None,
                tx_errs: None,
                rx_drop: None,
                tx_drop: None,
                bandwidth: Float64 { bits: 0 },
            }),
    {
        NetworkData {
            rx_bytes: 0,
            tx_bytes: 0,
            rx_packets: None,
            tx_packets: None,
            rx_errs: None,
            tx_errs: None,
            rx_drop: None,
            tx_drop: None,
            bandwidth: Float64 { bits: 0 },
        }
    }
}

/// The result of `machine.proc_stats`.
#[derive(Debug, Clone, PartialEq)]
pub struct MachineProcStats {
    pub moonraker_stats: Vec<MoonrakerStats>,
    pub throttled_state: CpuThrottledState,
    pub cpu_temp: Option<Float64>,
    pub network: Vec<(String, NetworkData)>,
    pub system_cpu_usage: Vec<(String, Float64)>,
    pub system_uptime: Option<Float64>,
    pub websocket_connections: u64,
}


impl SystemInfo {
    /// Each map of the information lists its keys once, in increasing order.
    pub open spec fn wf(self) -> bool {
        &&& ascending_keys(self.instance_ids@)
        &&& ascending_keys(self.service_state@)
        &&& ascending_keys(self.network@)
        &&& ascending_keys(self.canbus@)
    }

    /// Whether the value is well formed, as `wf` says.
    pub fn well_formed(&self) -> (b: bool)
        ensures
            b == self.wf(),
    {
        keys_ascending(&self.instance_ids) && keys_ascending(&self.service_state) && keys_ascending(&self.network) && keys_ascending(&self.canbus)
    }
}

impl MachineProcStats {
    /// Each map of the statistics lists its keys once, in increasing order.
    pub open spec fn wf(self) -> bool {
        &&& ascending_keys(self.network@)
        &&& ascending_keys(self.system_cpu_usage@)
    }

    /// Whether the value is well formed, as `wf` says.
    pub fn well_formed(&self) -> (b: bool)
        ensures
            b == self.wf(),
    {
        keys_ascending(&self.network) && keys_ascending(&self.system_cpu_usage)
    }
}

} // verus!
