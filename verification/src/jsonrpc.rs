use vstd::prelude::*;
use vstd::string::*;

use crate::text::{decimal_i32, push_decimal_i32};
use crate::JsonRpcVersion;

verus! {

/// A JSON value carried through the library as its JSON text.
///
/// The library never looks inside such a value except where a function
/// says so.
#[derive(Debug, PartialEq, Eq)]
pub struct JsonText {
    pub text: String,
}

impl Clone for JsonText {
    fn clone(&self) -> (c: Self)
        ensures
            c == *self,
    {
        JsonText { text: self.text.clone() }
    }
}

impl View for JsonText {
    type V = Seq<char>;

    open spec fn view(&self) -> Seq<char> {
        self.text@
    }
}

/// True when the JSON text denotes a JSON string (its first character is a quote).
pub open spec fn denotes_json_string(t: Seq<char>) -> bool {
    t.len() > 0 && t[0] == '"'
}

/// A JSON-RPC request.
#[derive(Debug, Clone, PartialEq)]
pub struct JsonRpcRequest {
    pub jsonrpc: JsonRpcVersion,
    /// The method to be called: a JSON string.
    pub method: JsonText,
    /// The parameters to be passed to the method.
    pub params: Option<JsonText>,
    /// The ID of the request.
    pub id: u32,
}

/// Why a request could not be built.
#[derive(Debug, Clone, Copy, PartialEq, Eq, Structural)]
pub enum JsonRpcBuildError {
    /// The method did not serialize into a JSON string.
    MethodNotString,
}

impl JsonRpcBuildError {
    /// The text of the error.
    pub fn describe(&self) -> (s: String)
        ensures
            s@ == "Method must be type serializable into a String"@,
    {
        String::from_str("Method must be type serializable into a String")
    }
}

impl JsonRpcRequest {
    /// Builds a request from the serialized method and parameters.
    /// The method must serialize into a JSON string; the id starts at 0
    /// and is set by the client when the request is sent.
    pub fn build(method: JsonText, params: Option<JsonText>) -> (res: Result<
        JsonRpcRequest,
        JsonRpcBuildError,
    >)
        ensures
            denotes_json_string(method@) ==> res == Ok::<JsonRpcRequest, JsonRpcBuildError>(
                JsonRpcRequest { jsonrpc: JsonRpcVersion::V2, method, params, id: 0 },
            ),
            !denotes_json_string(method@) ==> res == Err::<JsonRpcRequest, JsonRpcBuildError>(
                JsonRpcBuildError::MethodNotString,
            ),
    {
        let n = method.text.as_str().unicode_len();
        if n > 0 && method.text.as_str().get_char(0) == '"' {
            Ok(JsonRpcRequest { jsonrpc: JsonRpcVersion::V2, method, params, id: 0 })
        } else {
            Err(JsonRpcBuildError::MethodNotString)
        }
    }
}

/// A JSON-RPC error object.
#[derive(Debug, PartialEq)]
pub struct JsonRpcError {
    /// The error code.
    pub code: i32,
    /// The error message.
    pub message: String,
    /// Additional error data.
    pub data: Option<JsonText>,
}

/// The human-readable text of an error: `code: message`, or, with data,
/// `code: message: message: , data: data`.
pub open spec fn error_text(code: i32, message: Seq<char>, data: Option<Seq<char>>) -> Seq<char> {
    match data {
        Some(d) => decimal_i32(code as int) + ": message: "@ + message + ": , data: "@ + d,
        None => decimal_i32(code as int) + ": "@ + message,
    }
}

impl Clone for JsonRpcError {
    fn clone(&self) -> (c: Self)
        ensures
            c == *self,
    {
        let data = match &self.data {
            Some(d) => Some(d.clone()),
            None => None,
        };
        JsonRpcError { code: self.code, message: self.message.clone(), data }
    }
}

impl JsonRpcError {
    pub open spec fn data_view(&self) -> Option<Seq<char>> {
        match self.data {
            Some(d) => Some(d@),
            None => None,
        }
    }

    /// The text with which the error displays itself.
    pub fn describe(&self) -> (s: String)
        ensures
            s@ == error_text(self.code, self.message@, self.data_view()),
    {
        let mut s = String::new();
        push_decimal_i32(&mut s, self.code);
        match &self.data {
            Some(d) => {
                s.append(": message: ");
                s.append(self.message.as_str());
                s.append(": , data: ");
                s.append(d.text.as_str());
                proof {
                    reveal_strlit(": message: ");
                    reveal_strlit(": , data: ");
                }
            },
            None => {
                s.append(": ");
                s.append(self.message.as_str());
                proof {
                    reveal_strlit(": ");
                }
            },
        }
        s
    }
}

/// A JSON-RPC error response as received.
#[derive(Debug, Clone, PartialEq)]
pub struct JsonRpcErrorResponse {
    pub jsonrpc: JsonRpcVersion,
    pub error: JsonRpcError,
    pub id: Option<u32>,
}

/// A JSON-RPC success response as received.
#[derive(Debug, Clone, PartialEq)]
pub struct JsonRpcSuccessResponse {
    pub jsonrpc: JsonRpcVersion,
    pub result: JsonText,
    pub id: u32,
}

/// A JSON-RPC 2.0 notification.
#[derive(Debug, Clone, PartialEq)]
pub struct JsonRpcNotification {
    pub jsonrpc: JsonRpcVersion,
    pub method: String,
    pub params: Option<JsonText>,
}

impl JsonRpcNotification {
    /// Builds a notification from a method name and serialized parameters.
    pub fn build(method: String, params: Option<JsonText>) -> (n: JsonRpcNotification)
        ensures
            n == (JsonRpcNotification { jsonrpc: JsonRpcVersion::V2, method, params }),
    {
        JsonRpcNotification { jsonrpc: JsonRpcVersion::V2, method, params }
    }
}

/// A response handed to whoever waits for it.
#[derive(Debug, Clone, PartialEq)]
pub enum JsonRpcResponse {
    /// A successful response.
    Result(JsonRpcSuccessResponse),
    /// An error response.
    ReturnedError(JsonRpcError),
}

/// The source of request ids: it counts up from 1 and wraps around after
/// `u32::MAX`, so that 2^32 ids in a row are all different.
#[derive(Debug)]
pub struct IdCounter {
    next: u32,
}

/// The id that follows `n`.
pub open spec fn following_id(n: u32) -> u32 {
    if n == u32::MAX {
        0
    } else {
        (n + 1) as u32
    }
}

/// The id `k` places after `start`.
pub open spec fn id_after(start: u32, k: nat) -> u32 {
    ((start + k) % 0x1_0000_0000) as u32
}

impl IdCounter {
    /// The id the counter gives next.
    pub closed spec fn next_value(&self) -> u32 {
        self.next
    }

    /// A counter whose first id is 1.
    pub fn new() -> (c: IdCounter)
        ensures
            c.next_value() == 1,
    {
        IdCounter { next: 1 }
    }

    /// Takes the next id.
    pub fn take(&mut self) -> (id: u32)
        ensures
            id == old(self).next_value(),
            final(self).next_value() == following_id(old(self).next_value()),
    {
        let id = self.next;
        self.next = self.next.wrapping_add(1);
        id
    }
}

/// Taking an id moves the counter one place on: after the id `k` places
/// after `start` comes the one `k + 1` places after it.
pub proof fn law_ids_follow_on(start: u32, k: nat)
    ensures
        following_id(id_after(start, k)) == id_after(start, k + 1),
{
}

/// The ids taken one after the other are all different until 2^32 of them
/// have been taken.
pub proof fn law_ids_distinct(start: u32, i: nat, j: nat)
    requires
        i < j < 0x1_0000_0000,
    ensures
        id_after(start, i) != id_after(start, j),
{
}

} // verus!
