//! The methods of the Moonraker API and the notifications it sends.
use vstd::prelude::*;


verus! {

/// The methods of the Moonraker API.
#[derive(Debug, Clone, Copy, PartialEq, Eq, Structural)]
pub enum MoonMethod {
    Empty,
    ServerConnectionIdentify,
    ServerInfo,
    ServerConfig,
    ServerTemperatureStore,
    GcodeStore,
    ServerRestart,
    PrinterQueryEndstopsStatus,
    PrinterInfo,
    EmergencyStop,
    Restart,
    FirmwareRestart,
    PrinterObjectsList,
    PrinterObjectsQuery,
    PrinterObjectsSubscribe,
    GcodeScript,
    PrinterGcodeHelp,
    PrinterPrintStart,
    PrinterPrintPause,
    PrinterPrintResume,
    PrinterPrintCancel,
    MachineSystemInfo,
    MachineShutdown,
    MachineReboot,
    MachineServicesRestart,
    MachineServicesStop,
    MachineServicesStart,
    MachineProcStat,
    MachineSudo,
    MachineSudoPassword,
    ServerFilesList,
    ServerFilesMetadata,
    ServerFilesGetDirectory,
    ServerFilesPostDirectory,
    ServerFilesDeleteDirectory,
    ServerFilesMove,
    ServerFilesCopy,
    ServerFilesDeleteFile,
    ServerDatabaseList,
    ServerDatabaseGetItem,
    ServerDatabasePostItem,
    ServerDatabaseDeleteItem,
    ServerJobQueueStatus,
    ServerJobQueuePostJob,
    ServerJobQueueDeleteJob,
    ServerJobQueuePause,
    ServerJobQueueStart,
    ServerAnnouncementsList,
    ServerAnnouncementsUpdate,
    ServerAnnouncementsDismiss,
    ServerAnnouncementsFeeds,
    ServerAnnouncementsPostFeed,
    ServerAnnouncements,
    ServerWebcamsList,
    ServerWebcamsGetItem,
    ServerWebcamsDeleteItem,
    ServerWebcamsTest,
    MachineUpdateStatus,
    MachineUpdateFull,
    MachineUpdateMoonraker,
    MachineUpdateKlipper,
    MachineUpdateClient,
    MachineUpdateSystem,
    MachineUpdateRecover,
    MachineDevicePowerDevices,
    MachineDevicePowerGetDevice,
    MachineDevicePowerPostDevice,
    MachineDevicePowerStatus,
    MachineDevicePowerOn,
    MachineDevicePowerOff,
    MachineWledStrips,
    MachineWledStatus,
    MachineWledOn,
    MachineWledOff,
    MachineWledToggle,
    MachineWledGetStrip,
    ServerHistoryList,
    ServerHistoryTotals,
    ServerHistoryResetTotals,
    ServerHistoryGetJob,
    ServerHistoryDeleteJob,
    ServerMgttPublish,
    ServerMqttSubscribe,
    ServerExtensionList,
    ServerExtensionsRequest,
    ConnectionSendEvent,
    NotifyGcodeResponse,
    NotifyStatusUpdate,
    NotifyKlippyReady,
    NotifyKlippyShutdown,
    NotifyKlippyDisconnected,
    NotifyFilelistChange,
    NotifyUpdateResponse,
    NotifyUpdateRefreshed,
    NotifyCpuThrottled,
    NotifyProcStatUpdate,
    NotifyHistoryChanged,
    NotifyUserCreated,
    NotifyUserDeleted,
    NotifyServiceStateChanged,
    NotifyJobQueueChanged,
    NotifyButtonEvent,
    NotifyAnnouncementUpdate,
    NotifyAnnouncementDismissed,
    NotifyAnnouncementWake,
    NotifyAgentEvent,
    AccessLogin,
    AccessPostUser,
}

/// The notifications Moonraker sends.
#[derive(Debug, Clone, Copy, PartialEq, Eq, Structural)]
pub enum NotificationMethod {
    NotifyGcodeResponse,
    NotifyStatusUpdate,
    NotifyKlippyReady,
    NotifyKlippyShutdown,
    NotifyKlippyDisconnected,
    NotifyFilelistChanged,
    NotifyUpdateResponse,
    NotifyUpdateRefreshed,
    NotifyCpuThrottled,
    NotifyProcStatUpdate,
    NotifyHistoryChanged,
    NotifyUserCreated,
    NotifyUserDeleted,
    NotifyUserLoggedOut,
    NotifyServiceStateChanged,
    NotifyJobQueueChanged,
    NotifyButtonEvent,
    NotifyAnnouncementUpdate,
    NotifyAnnouncementDismissed,
    NotifyAnnouncementWake,
    NotifySudoAlert,
    NotifyWebcamsChanged,
    NotifyActiveSpoolSet,
    NotifySpoolmanStatusChanged,
    NotifyAgentEvent,
}

} // verus!
