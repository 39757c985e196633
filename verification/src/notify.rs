//! The parameters of the notifications Moonraker sends.
use vstd::prelude::*;

use crate::text::{ascending_keys, keys_ascending};
use crate::{CpuThrottledState, Float64, JsonText, MoonrakerStats};

verus! {

/// An announcement.
#[derive(Debug, Clone, PartialEq)]
pub struct AnnouncementEntry {
    pub entry_id: String,
    pub url: String,
    pub title: String,
    pub description: String,
    pub priority: String,
    pub date: i64,
    pub dismissed: bool,
    pub date_dismissed: Option<i64>,
    pub dismiss_wake: Option<i64>,
    pub source: String,
    pub feed: String,
}

/// The parameter of `notify_announcement_update`.
#[derive(Debug, Clone, PartialEq)]
pub struct AnnouncementUpdateParam {
    pub entries: Vec<AnnouncementEntry>,
}

/// The id of an announcement.
#[derive(Debug, Clone, PartialEq)]
pub struct EntryId {
    pub entry_id: String,
}

/// What changed in the file list.
#[derive(Debug, Clone, Copy, PartialEq, Eq, Structural)]
pub enum FilelistAction {
    CreateFile,
    CreateDir,
    DeleteFile,
    DeleteDir,
    MoveFile,
    MoveDir,
    ModifyFile,
    RootUpdate,
}

/// A file or directory of the file list.
#[derive(Debug, Clone, PartialEq)]
pub struct FilelistItem {
    pub path: String,
    pub root: String,
    pub size: Option<u64>,
    pub modified: Option<u64>,
    pub permissions: Option<String>,
}

/// The parameter of `notify_filelist_changed`.
#[derive(Debug, Clone, PartialEq)]
pub struct FilelistChangedParam {
    pub action: FilelistAction,
    pub item: FilelistItem,
    pub source_item: Option<FilelistItem>,
}

/// A job of the print history.
#[derive(Debug, Clone, PartialEq)]
pub struct JobObject {
    pub job_id: String,
    pub exists: bool,
    pub end_time: Float64,
    pub filament_used: Float64,
    pub filename: String,
    pub metadata: JsonText,
    pub print_duration: Float64,
    pub status: String,
    pub start_time: Float64,
    pub total_duration: Float64,
}

/// The parameter of `notify_history_changed`.
#[derive(Debug, Clone, PartialEq)]
pub struct HistoryChangedParam {
    /// "added" or "finished".
    pub action: String,
    pub job: JobObject,
}

/// Traffic on a network interface, as notified.
#[derive(Debug, Clone, PartialEq)]
pub struct NetworkDetails {
    pub rx_bytes: u64,
    pub tx_bytes: u64,
    pub bandwidth: Float64,
}

/// The parameter of `notify_proc_stat_update`.
#[derive(Debug, Clone, PartialEq)]
pub struct NotifyProcStatUpdateParam {
    pub moonraker_stats: MoonrakerStats,
    pub cpu_temp: Option<Float64>,
    pub network: Vec<(String, NetworkDetails)>,
    pub system_cpu_usage: Vec<(String, Float64)>,
    pub websocket_connections: u64,
}

/// The parameter of `notify_active_spool_set`.
#[derive(Debug, Clone, PartialEq)]
pub struct ActiveSpoolSetParams {
    pub spool_id: u32,
}

/// The parameter of `notify_spoolman_status_changed`.
#[derive(Debug, Clone, PartialEq)]
pub struct SpoolmanStatusChangedParams {
    pub spoolman_connected: bool,
}

/// A webcam configured in Moonraker.
#[derive(Debug, Clone, PartialEq)]
pub struct Webcam {
    pub name: String,
    pub location: String,
    pub service: String,
    pub enabled: bool,
    pub icon: String,
    pub target_fps: u32,
    pub target_fps_idle: u32,
    pub stream_url: String,
    pub snapshot_url: String,
    pub flip_horizontal: bool,
    pub flip_vertical: bool,
    pub rotation: u32,
    pub aspect_ratio: String,
    pub extra_data: JsonText,
    pub source: String,
}

/// The parameter of `notify_webcams_changed`.
#[derive(Debug, Clone, PartialEq)]
pub struct WebcamsChangedParams {
    pub webcams: Vec<Webcam>,
}

/// The parameters of a notification.
#[derive(Debug, Clone, PartialEq)]
pub enum NotificationParam {
    FilelistChanged(Vec<FilelistChangedParam>),
    AnnouncementUpdate(Vec<AnnouncementUpdateParam>),
    AnnouncementDismissed(Vec<EntryId>),
    HistoryChanged(Vec<HistoryChangedParam>),
    ProcStatUpdate(Vec<NotifyProcStatUpdateParam>),
    WebcamsChanged(Vec<WebcamsChangedParams>),
    ActiveSpoolSet(Vec<ActiveSpoolSetParams>),
    SpoolmanStatusChanged(Vec<SpoolmanStatusChangedParams>),
    CpuThrottled(Vec<CpuThrottledState>),
    GcodeResponse(Vec<String>),
    Other(JsonText),
}


impl NotifyProcStatUpdateParam {
    /// Each map of the statistics lists its keys once, in increasing order.
    pub open spec fn wf(self) -> bool {
        &&& ascending_keys(self.network@)
        &&& ascending_keys(self.system_cpu_usage@)
    }

    /// Whether the value is well formed, as `wf` says.
    pub fn well_formed(&self) -> (b: bool)
        ensures
            b == self.wf(),
    {
        keys_ascending(&self.network) && keys_ascending(&self.system_cpu_usage)
    }
}

} // verus!
