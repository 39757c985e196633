//! The results of the `printer.*` methods and the printer objects.
use vstd::prelude::*;

use crate::text::{ascending_keys, keys_ascending};
use crate::{Float64, JsonText};

verus! {

/// The result of `printer.objects.list`.
#[derive(Debug, Clone, PartialEq)]
pub struct PrinterObjectsListResponse {
    /// The names of the printer objects.
    pub objects: Vec<String>,
}

/// The help text of a G-code command.
#[derive(Debug, Clone, PartialEq)]
pub struct HelpText(pub String);

/// The result of `printer.gcode.help`: a help text per command.
#[derive(Debug, Clone, PartialEq)]
pub struct GcodeHelp {
    /// Each command once, in increasing order, with its help text.
    pub handlers: Vec<(String, HelpText)>,
}

/// The state of an endstop.
#[derive(Debug, Clone, Copy, PartialEq, Eq, Structural)]
pub enum EndstopState {
    Open,
    Triggered,
}

/// The result of `printer.query_endstops.status`.
#[derive(Debug, Clone, PartialEq)]
pub struct EndstopStatus {
    pub x: EndstopState,
    pub y: EndstopState,
    pub z: EndstopState,
}

/// The `gcode_move` printer object.
#[derive(Debug, Clone, PartialEq)]
pub struct GcodeMove {
    pub absolute_coordinates: Option<bool>,
    pub absolute_extrude: Option<bool>,
    pub extrude_factor: Option<Float64>,
    pub gcode_position: Option<Vec<Float64>>,
    pub homing_origin: Option<Vec<Float64>>,
    pub position: Option<Vec<Float64>>,
    pub speed: Option<Float64>,
    pub speed_factor: Option<Float64>,
}

impl Default for GcodeMove {
    fn default() -> (d: Self)
        ensures
            d == (GcodeMove { absolute_coordinates: None, absolute_extrude: None, extrude_factor: None, gcode_position: None, homing_origin: None, position: None, speed: None, speed_factor: None }),
    {
        GcodeMove { absolute_coordinates: None, absolute_extrude: None, extrude_factor: None, gcode_position: None, homing_origin: None, position: None, speed: None, speed_factor: None }
    }
}

/// The `toolhead` printer object.
#[derive(Debug, Clone, PartialEq)]
pub struct Toolhead {
    pub homed_axes: Option<String>,
    pub print_time: Option<Float64>,
    pub estimated_print_time: Option<Float64>,
    pub extruder: Option<String>,
    pub position: Option<Vec<Float64>>,
    pub max_velocity: Option<Float64>,
    pub max_accel: Option<Float64>,
    pub max_accel_to_decel: Option<Float64>,
    pub square_corner_velocity: Option<Float64>,
    pub status: Option<String>,
}

impl Default for Toolhead {
    fn default() -> (d: Self)
        ensures
            d == (Toolhead { homed_axes: None, print_time: None, estimated_print_time: None, extruder: None, position: None, max_velocity: None, max_accel: None, max_accel_to_decel: None, square_corner_velocity: None, status: None }),
    {
        Toolhead { homed_axes: None, print_time: None, estimated_print_time: None, extruder: None, position: None, max_velocity: None, max_accel: None, max_accel_to_decel: None, square_corner_velocity: None, status: None }
    }
}

/// The `configfile` printer object.
#[derive(Debug, Clone, PartialEq)]
pub struct Configfile {
    pub config: Option<JsonText>,
    pub settings: Option<JsonText>,
    pub save_config_pending: Option<bool>,
}

impl Default for Configfile {
    fn default() -> (d: Self)
        ensures
            d == (Configfile { config: None, settings: None, save_config_pending: None }),
    {
        Configfile { config: None, settings: None, save_config_pending: None }
    }
}

/// The `extruder` printer object.
#[derive(Debug, Clone, PartialEq)]
pub struct Extruder {
    pub temperature: Option<Float64>,
    pub target: Option<Float64>,
    pub power: Option<Float64>,
    pub pressure_advance: Option<Float64>,
    pub smooth_time: Option<Float64>,
}

impl Default for Extruder {
    fn default() -> (d: Self)
        ensures
            d == (Extruder { temperature: None, target: None, power: None, pressure_advance: None, smooth_time: None }),
    {
        Extruder { temperature: None, target: None, power: None, pressure_advance: None, smooth_time: None }
    }
}

/// The `heater_bed` printer object.
#[derive(Debug, Clone, PartialEq)]
pub struct HeaterBed {
    pub temperature: Option<Float64>,
    pub target: Option<Float64>,
    pub power: Option<Float64>,
}

impl Default for HeaterBed {
    fn default() -> (d: Self)
        ensures
            d == (HeaterBed { temperature: None, target: None, power: None }),
    {
        HeaterBed { temperature: None, target: None, power: None }
    }
}

/// The `fan` printer object.
#[derive(Debug, Clone, PartialEq)]
pub struct Fan {
    pub speed: Option<Float64>,
    pub rpm: Option<u32>,
}

impl Default for Fan {
    fn default() -> (d: Self)
        ensures
            d == (Fan { speed: None, rpm: None }),
    {
        Fan { speed: None, rpm: None }
    }
}

/// The `idle_timeout` printer object.
#[derive(Debug, Clone, PartialEq)]
pub struct IdleTimeout {
    pub state: Option<String>,
    pub printing_time: Option<Float64>,
}

impl Default for IdleTimeout {
    fn default() -> (d: Self)
        ensures
            d == (IdleTimeout { state: None, printing_time: None }),
    {
        IdleTimeout { state: None, printing_time: None }
    }
}

/// The `virtual_sdcard` printer object.
#[derive(Debug, Clone, PartialEq)]
pub struct VirtualSdcard {
    pub progress: Option<Float64>,
    pub is_active: Option<bool>,
    pub file_position: Option<u64>,
}

impl Default for VirtualSdcard {
    fn default() -> (d: Self)
        ensures
            d == (VirtualSdcard { progress: None, is_active: None, file_position: None }),
    {
        VirtualSdcard { progress: None, is_active: None, file_position: None }
    }
}

/// The layer information of `print_stats`.
#[derive(Debug, Clone, PartialEq)]
pub struct PrintStatsInfo {
    pub total_layer: Option<u32>,
    pub current_layer: Option<u32>,
}

impl Default for PrintStatsInfo {
    fn default() -> (d: Self)
        ensures
            d == (PrintStatsInfo { total_layer: None, current_layer: None }),
    {
        PrintStatsInfo { total_layer: None, current_layer: None }
    }
}

/// The `print_stats` printer object.
#[derive(Debug, Clone, PartialEq)]
pub struct PrintStats {
    pub filename: Option<String>,
    pub total_duration: Option<Float64>,
    pub print_duration: Option<Float64>,
    pub filament_used: Option<Float64>,
    pub state: Option<String>,
    pub message: Option<String>,
    pub info: Option<PrintStatsInfo>,
}

impl Default for PrintStats {
    fn default() -> (d: Self)
        ensures
            d == (PrintStats { filename: None, total_duration: None, print_duration: None, filament_used: None, state: None, message: None, info: None }),
    {
        PrintStats { filename: None, total_duration: None, print_duration: None, filament_used: None, state: None, message: None, info: None }
    }
}

/// The `display_status` printer object.
#[derive(Debug, Clone, PartialEq)]
pub struct DisplayStatus {
    pub message: Option<String>,
    pub progress: Option<Float64>,
}

impl Default for DisplayStatus {
    fn default() -> (d: Self)
        ensures
            d == (DisplayStatus { message: None, progress: None }),
    {
        DisplayStatus { message: None, progress: None }
    }
}

/// The `z_tilt` printer object.
#[derive(Debug, Clone, PartialEq)]
pub struct ZTilt {
    pub applied: bool,
}

impl Default for ZTilt {
    fn default() -> (d: Self)
        ensures
            d == (ZTilt { applied: false }),
    {
        ZTilt { applied: false }
    }
}

/// The status of the printer objects asked for.
#[derive(Debug, Clone, PartialEq)]
pub struct PrinterObjectStatus {
    pub gcode_move: Option<GcodeMove>,
    pub toolhead: Option<Toolhead>,
    pub configfile: Option<Configfile>,
    pub extruder: Option<Extruder>,
    pub heater_bed: Option<HeaterBed>,
    pub fan: Option<Fan>,
    pub idle_timeout: Option<IdleTimeout>,
    pub virtual_sdcard: Option<VirtualSdcard>,
    pub print_stats: Option<PrintStats>,
    pub display_status: Option<DisplayStatus>,
    pub z_tilt: Option<ZTilt>,
}

impl Default for PrinterObjectStatus {
    fn default() -> (d: Self)
        ensures
            d == (PrinterObjectStatus { gcode_move: None, toolhead: None, configfile: None, extruder: None, heater_bed: None, fan: None, idle_timeout: None, virtual_sdcard: None, print_stats: None, display_status: None, z_tilt: None }),
    {
        PrinterObjectStatus { gcode_move: None, toolhead: None, configfile: None, extruder: None, heater_bed: None, fan: None, idle_timeout: None, virtual_sdcard: None, print_stats: None, display_status: None, z_tilt: None }
    }
}

/// The result of `printer.objects.query`.
#[derive(Debug, Clone, PartialEq)]
pub struct PrinterObjectsQueryResponse {
    pub eventtime: Float64,
    pub status: PrinterObjectStatus,
}


impl GcodeHelp {
    /// Each command is listed once, in increasing order.
    pub open spec fn wf(self) -> bool {
        ascending_keys(self.handlers@)
    }

    /// Whether the value is well formed, as `wf` says.
    pub fn well_formed(&self) -> (b: bool)
        ensures
            b == self.wf(),
    {
        keys_ascending(&self.handlers)
    }
}

} // verus!
