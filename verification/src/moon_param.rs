//! The parameters of requests to Moonraker.
use vstd::prelude::*;

use crate::{Float32, JsonText};

verus! {

/// A printer object to query, with the fields wanted (all when `None`).
#[derive(Debug, Clone, PartialEq)]
pub enum PrinterObject {
    GcodeMove(Option<Vec<String>>),
    Toolhead(Option<Vec<String>>),
    ZTilt(Option<Vec<String>>),
}

/// A service that Moonraker can manage.
#[derive(Debug, Clone, Copy, PartialEq, Eq, Structural)]
pub enum SystemdSevice {
    Klipper,
    Moonraker,
    Nginx,
}

/// The timing of a button event.
#[derive(Debug, Clone, PartialEq)]
pub struct Event {
    pub elapsed_time: Float32,
    pub received_time: Float32,
    pub render_time: Float32,
    pub pressed: bool,
}

/// The parameters of a request.
#[derive(Debug)]
pub enum MoonParam {
    NoParams,
    TemperatureStoreParams {
        include_monitors: bool,
    },
    ServerConnectionIdentifyParams {
        client_name: String,
        version: String,
        client_type: String,
        url: String,
        access_token: Option<String>,
        api_key: Option<String>,
    },
    PrinterObjectsQuery {
        objects: PrinterObject,
    },
    PrinterObjectsSubscribe {
        objects: PrinterObject,
    },
    GcodeScript {
        script: String,
    },
    AccessPostUserParams {
        username: String,
        password: String,
    },
    AccessLoginParams {
        username: String,
        password: String,
        source: String,
    },
    Count(u64),
    Filename(String),
    Service(SystemdSevice),
    Password(String),
    Root(String),
    Name(String),
    Refresh(bool),
    Device(String),
    Uuid(u64),
    ButtonEvent {
        name: String,
        typee: String,
        event: Event,
        aux: String,
    },
    ParamVec(Vec<MoonParam>),
    Other(JsonText),
}

} // verus!
