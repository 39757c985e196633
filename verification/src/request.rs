//! Requests to Moonraker.
use vstd::prelude::*;

use crate::{JsonRpcVersion, MoonMethod, MoonParam};

verus! {

/// A JSON-RPC request to Moonraker.
#[derive(Debug)]
pub struct MoonRequest {
    /// The JSON-RPC version of the request.
    pub jsonrpc: JsonRpcVersion,
    /// The method to be called.
    pub method: MoonMethod,
    /// The parameters to be passed to the method.
    pub params: Option<MoonParam>,
    /// The ID of the request.
    pub id: u32,
}

} // verus!

verus! {

use crate::{PrinterObject};

/// Draws a request id with `rand::random`, from the thread-local generator.
/// Nothing is promised of the value.
#[verifier::external_body]
fn random_id() -> (id: u32) {
    rand::random()
}

impl MoonRequest {
    /// A request with the given method, parameters and id.
    pub fn with_id(method: MoonMethod, params: Option<MoonParam>, id: u32) -> (r: MoonRequest)
        ensures
            r == (MoonRequest { jsonrpc: JsonRpcVersion::V2, method, params, id }),
    {
        MoonRequest { jsonrpc: JsonRpcVersion::V2, method, params, id }
    }

    /// A request with the given method and parameters, and a random id.
    pub fn new(method: MoonMethod, params: Option<MoonParam>) -> (r: MoonRequest)
        ensures
            r.jsonrpc == JsonRpcVersion::V2,
            r.method == method,
            r.params == params,
    {
        let id = random_id();
        MoonRequest::with_id(method, params, id)
    }

    /// A request that runs a G-code script (`printer.gcode.script`).
    pub fn gcode(gcode: String) -> (r: MoonRequest)
        ensures
            r.jsonrpc == JsonRpcVersion::V2,
            r.method == MoonMethod::GcodeScript,
            r.params == Some(MoonParam::GcodeScript { script: gcode }),
    {
        MoonRequest::new(MoonMethod::GcodeScript, Some(MoonParam::GcodeScript { script: gcode }))
    }
}

/// The request that asks for the homed axes of the toolhead.
pub open spec fn is_homed_axes_query(r: MoonRequest) -> bool {
    &&& r.jsonrpc == JsonRpcVersion::V2
    &&& r.method == MoonMethod::PrinterObjectsQuery
    &&& r.params matches Some(MoonParam::PrinterObjectsQuery { objects: PrinterObject::Toolhead(Some(fields)) })
    &&& fields@.len() == 1
    &&& fields@[0]@ == "homed_axes"@
}

/// A request that asks for the homed axes of the toolhead.
pub fn homed_axes_query() -> (r: MoonRequest)
    ensures
        is_homed_axes_query(r),
{
    let mut fields: Vec<String> = Vec::new();
    fields.push(String::from_str("homed_axes"));
    proof {
        assert(fields@[0]@ == "homed_axes"@);
    }
    MoonRequest::new(
        MoonMethod::PrinterObjectsQuery,
        Some(MoonParam::PrinterObjectsQuery { objects: PrinterObject::Toolhead(Some(fields)) }),
    )
}

/// A request that asks for the whole `z_tilt` object.
pub fn z_tilt_query() -> (r: MoonRequest)
    ensures
        r.jsonrpc == JsonRpcVersion::V2,
        r.method == MoonMethod::PrinterObjectsQuery,
        r.params == Some(MoonParam::PrinterObjectsQuery { objects: PrinterObject::ZTilt(None) }),
{
    MoonRequest::new(
        MoonMethod::PrinterObjectsQuery,
        Some(MoonParam::PrinterObjectsQuery { objects: PrinterObject::ZTilt(None) }),
    )
}

/// A request that creates a user (`access.post_user`).
pub fn create_user_request(username: String, password: String) -> (r: MoonRequest)
    ensures
        r.jsonrpc == JsonRpcVersion::V2,
        r.method == MoonMethod::AccessPostUser,
        r.params == Some(MoonParam::AccessPostUserParams { username, password }),
{
    MoonRequest::new(
        MoonMethod::AccessPostUser,
        Some(MoonParam::AccessPostUserParams { username, password }),
    )
}

/// A request that logs a user in (`access.login`), with `moonraker` as the source.
pub fn login_request(username: String, password: String) -> (r: MoonRequest)
    ensures
        r.jsonrpc == JsonRpcVersion::V2,
        r.method == MoonMethod::AccessLogin,
        r.params matches Some(MoonParam::AccessLoginParams { username: u, password: p, source })
            && u == username && p == password && source@ == "moonraker"@,
{
    let source = String::from_str("moonraker");
    MoonRequest::new(
        MoonMethod::AccessLogin,
        Some(MoonParam::AccessLoginParams { username, password, source }),
    )
}

} // verus!
