//! A message from Moonraker.
use vstd::prelude::*;

use crate::{JsonRpcError, JsonRpcVersion, MoonResultData, NotificationMethod, NotificationParam};

verus! {

/// An error reported by Moonraker.
#[derive(Debug, Clone, PartialEq)]
pub struct MoonErrorContent {
    pub code: u32,
    pub message: String,
}

/// A message from Moonraker: a result, an error, or a notification.
#[derive(Debug, Clone, PartialEq)]
pub enum MoonResponse {
    MoonResult {
        jsonrpc: JsonRpcVersion,
        result: MoonResultData,
        id: u32,
    },
    MoonError {
        jsonrpc: JsonRpcVersion,
        error: JsonRpcError,
        id: Option<u32>,
    },
    Notification {
        jsonrpc: JsonRpcVersion,
        method: NotificationMethod,
        params: Option<NotificationParam>,
    },
}

} // verus!

verus! {

use crate::text::push_decimal;
use crate::{ServerConfig, ServerInfo};

impl MoonErrorContent {
    /// The text with which the error displays itself: `code: message`.
    pub fn describe(&self) -> (s: String)
        ensures
            s@ == crate::text::decimal(self.code as nat) + ": "@ + self.message@,
    {
        let mut s = String::new();
        push_decimal(&mut s, self.code as u64);
        s.append(": ");
        s.append(self.message.as_str());
        proof {
            reveal_strlit(": ");
        }
        s
    }
}

/// The id a message carries: that of a result, that of an error if it has one,
/// none for a notification.
pub open spec fn id_of(m: MoonResponse) -> Option<u32> {
    match m {
        MoonResponse::MoonResult { id, .. } => Some(id),
        MoonResponse::MoonError { id, .. } => id,
        MoonResponse::Notification { .. } => None,
    }
}

impl MoonResponse {
    /// The id the message carries.
    pub fn id(&self) -> (id: Option<u32>)
        ensures
            id == id_of(*self),
    {
        match self {
            MoonResponse::MoonResult { id, .. } => Some(*id),
            MoonResponse::MoonError { id, .. } => *id,
            MoonResponse::Notification { .. } => None,
        }
    }

    /// Sets the id of a result or an error; a notification has none and is left
    /// as it is.
    pub fn set_id(&mut self, new_id: u32)
        ensures
            match *old(self) {
                MoonResponse::MoonResult { jsonrpc, result, .. } => *final(self)
                    == MoonResponse::MoonResult { jsonrpc, result, id: new_id },
                MoonResponse::MoonError { jsonrpc, error, .. } => *final(self)
                    == MoonResponse::MoonError { jsonrpc, error, id: Some(new_id) },
                MoonResponse::Notification { .. } => *final(self) == *old(self),
            },
    {
        match self {
            MoonResponse::MoonResult { id, .. } => {
                *id = new_id;
            },
            MoonResponse::MoonError { id, .. } => {
                *id = Some(new_id);
            },
            MoonResponse::Notification { .. } => {},
        }
    }

    /// The method of a notification; none for a result or an error.
    pub fn method(&self) -> (m: Option<&NotificationMethod>)
        ensures
            match *self {
                MoonResponse::Notification { method, .. } => m == Some(&method),
                _ => m is None,
            },
    {
        match self {
            MoonResponse::MoonResult { .. } | MoonResponse::MoonError { .. } => None,
            MoonResponse::Notification { method, .. } => Some(method),
        }
    }

    /// The parameters of a notification; none for a result or an error.
    pub fn params(&self) -> (p: Option<&NotificationParam>)
        ensures
            match *self {
                MoonResponse::Notification { params, .. } => match params {
                    Some(q) => p == Some(&q),
                    None => p is None,
                },
                _ => p is None,
            },
    {
        match self {
            MoonResponse::MoonResult { .. } | MoonResponse::MoonError { .. } => None,
            MoonResponse::Notification { params, .. } => match params {
                Some(q) => Some(q),
                None => None,
            },
        }
    }

    /// A result with the given data and id 0.
    pub fn from_result(result: MoonResultData) -> (r: MoonResponse)
        ensures
            r == (MoonResponse::MoonResult { jsonrpc: JsonRpcVersion::V2, result, id: 0 }),
    {
        MoonResponse::MoonResult { jsonrpc: JsonRpcVersion::V2, result, id: 0 }
    }

    /// An error with the given content and no id.
    pub fn from_error(error: JsonRpcError) -> (r: MoonResponse)
        ensures
            r == (MoonResponse::MoonError { jsonrpc: JsonRpcVersion::V2, error, id: None }),
    {
        MoonResponse::MoonError { jsonrpc: JsonRpcVersion::V2, error, id: None }
    }

    /// The result that carries the server information, with id 0.
    pub fn default_server_info_result(server_info: ServerInfo) -> (r: MoonResponse)
        ensures
            r == (MoonResponse::MoonResult {
                jsonrpc: JsonRpcVersion::V2,
                result: MoonResultData::ServerInfo(server_info),
                id: 0,
            }),
    {
        MoonResponse::from_result(MoonResultData::ServerInfo(server_info))
    }

    /// The result that carries the server configuration, with id 0.
    pub fn default_server_config_result(config: ServerConfig) -> (r: MoonResponse)
        ensures
            r == (MoonResponse::MoonResult {
                jsonrpc: JsonRpcVersion::V2,
                result: MoonResultData::ServerConfig(config),
                id: 0,
            }),
    {
        MoonResponse::from_result(MoonResultData::ServerConfig(config))
    }
}

impl Default for MoonResponse {
    /// An empty result with id 0.
    fn default() -> (r: MoonResponse)
        ensures
            r == (MoonResponse::MoonResult {
                jsonrpc: JsonRpcVersion::V2,
                result: MoonResultData::NoResult,
                id: 0,
            }),
    {
        MoonResponse::from_result(MoonResultData::NoResult)
    }
}

impl Default for MoonResultData {
    /// No result.
    fn default() -> (r: MoonResultData)
        ensures
            r == MoonResultData::NoResult,
    {
        MoonResultData::NoResult
    }
}

} // verus!
