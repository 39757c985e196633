//! The decisions of a Moonraker client: what an answer means for each of its
//! requests, whether the printer is ready, and how to reach the server.
use vstd::prelude::*;
use vstd::string::*;

use crate::jsonrpc::JsonRpcError;
use crate::pending::PendingRequests;
use crate::text::{decimal, push_decimal};
use crate::{
    JsonRpcVersion, MoonOk, MoonResponse, MoonResultData, PrinterInfoResponse,
    PrinterObjectsQueryResponse, PrinterState, ServerInfo,
};

verus! {

/// The port Moonraker listens on unless configured otherwise.
pub const DEFAULT_MOONRAKER_PORT: u16 = 7125;

/// Why a request of the client did not give what it asked for.
#[derive(Debug, Clone, PartialEq)]
pub enum ClientError {
    /// The websocket connection failed, with its message.
    Transport(String),
    /// Moonraker answered with an error.
    Moon(JsonRpcError),
    /// The answer to a request that expects `ok` was something else.
    NotOk(MoonResponse),
    /// The result was of another kind than the request asks for.
    UnexpectedResult(MoonResultData),
    /// The answer was not a result.
    UnexpectedResponse(MoonResponse),
    /// The printer information was asked for and the answer was `ok`.
    OkInsteadOfPrinterInfo,
    /// The printer information was asked for and the answer was something else.
    NoPrinterInfo,
    /// The answer to the homed-axes query was not a printer-object query result.
    NotAnObjectsQueryResult,
    /// The answer to the homed-axes query has no toolhead object.
    MissingToolhead,
    /// The toolhead object of the answer has no homed axes.
    MissingHomedAxes,
    /// The answer to the z-tilt query has no `z_tilt` object.
    MissingZTilt,
    /// The result of the z-tilt query was not a printer-object query result.
    UnexpectedFormat,
    /// The answer to the z-tilt query was not a result.
    UnexpectedType,
    /// The printer information was asked for on a plain connection and the answer was `ok`.
    ConnectionOkInsteadOfPrinterInfo,
    /// The printer information was asked for on a plain connection and the answer was something else.
    ConnectionNoPrinterInfo,
}

/// The text of a client error. For the three errors that carry a message or
/// a result, the text given here is followed, in the error's full text, by the
/// debug form of what they carry.
pub open spec fn client_error_text(e: ClientError) -> Seq<char> {
    match e {
        ClientError::Transport(message) => message@,
        ClientError::Moon(error) => crate::jsonrpc::error_text(error.code, error.message@, error.data_view()),
        ClientError::NotOk(_) => "Expected an Ok response got: "@,
        ClientError::UnexpectedResult(_) => "Unexpected response: "@,
        ClientError::UnexpectedResponse(_) => "Unexpected response: "@,
        ClientError::OkInsteadOfPrinterInfo => "Received an ok() response from the server, but was expecting "@,
        ClientError::NoPrinterInfo => "Error in `MoonrakerClient::get_printer_info`: did not receive a MoonMSG::MoonResult response, but should have. This is a bug."@,
        ClientError::NotAnObjectsQueryResult => "Error: Printer did not return expected response"@,
        ClientError::MissingToolhead => "Error: Could not find the `toolhead` field in response from printer"@,
        ClientError::MissingHomedAxes => "Error: Could not find `homed_axes` in response from printer"@,
        ClientError::MissingZTilt => "Error: 'z_tilt' object not found in response"@,
        ClientError::UnexpectedFormat => "Error: Unexpected response format from Moonraker"@,
        ClientError::UnexpectedType => "Error: Unexpected response type from Moonraker"@,
        ClientError::ConnectionOkInsteadOfPrinterInfo => "Recived an ok() response from the server, but was expecting "@,
        ClientError::ConnectionNoPrinterInfo => "Error in `MoonConnection::get_printer_info`: did not receive a MoonMSG::MoonResult response, but should have. This is a bug."@,
    }
}

impl ClientError {
    /// The text of the error, as `client_error_text` gives it.
    pub fn describe(&self) -> (s: String)
        ensures
            s@ == client_error_text(*self),
    {
        match self {
            ClientError::Transport(message) => message.clone(),
            ClientError::Moon(error) => error.describe(),
            ClientError::NotOk(_) => String::from_str("Expected an Ok response got: "),
            ClientError::UnexpectedResult(_) => String::from_str("Unexpected response: "),
            ClientError::UnexpectedResponse(_) => String::from_str("Unexpected response: "),
            ClientError::OkInsteadOfPrinterInfo => String::from_str("Received an ok() response from the server, but was expecting "),
            ClientError::NoPrinterInfo => String::from_str("Error in `MoonrakerClient::get_printer_info`: did not receive a MoonMSG::MoonResult response, but should have. This is a bug."),
            ClientError::NotAnObjectsQueryResult => String::from_str("Error: Printer did not return expected response"),
            ClientError::MissingToolhead => String::from_str("Error: Could not find the `toolhead` field in response from printer"),
            ClientError::MissingHomedAxes => String::from_str("Error: Could not find `homed_axes` in response from printer"),
            ClientError::MissingZTilt => String::from_str("Error: 'z_tilt' object not found in response"),
            ClientError::UnexpectedFormat => String::from_str("Error: Unexpected response format from Moonraker"),
            ClientError::UnexpectedType => String::from_str("Error: Unexpected response type from Moonraker"),
            ClientError::ConnectionOkInsteadOfPrinterInfo => String::from_str("Recived an ok() response from the server, but was expecting "),
            ClientError::ConnectionNoPrinterInfo => String::from_str("Error in `MoonConnection::get_printer_info`: did not receive a MoonMSG::MoonResult response, but should have. This is a bug."),
        }
    }
}

/// What an answer to a request that expects `ok` means.
pub open spec fn ok_outcome(res: MoonResponse) -> Result<(), ClientError> {
    match res {
        MoonResponse::MoonResult { result: MoonResultData::Acknowledged(_), .. } => Ok(()),
        MoonResponse::MoonError { error, .. } => Err(ClientError::Moon(error)),
        _ => Err(ClientError::NotOk(res)),
    }
}

/// Reads the answer to a request that expects `ok`.
pub fn expect_ok(res: MoonResponse) -> (r: Result<(), ClientError>)
    ensures
        r == ok_outcome(res),
        r is Ok <==> res matches MoonResponse::MoonResult {
            result: MoonResultData::Acknowledged(_),
            ..
        },
{
    match res {
        MoonResponse::MoonResult { result: MoonResultData::Acknowledged(_), .. } => Ok(()),
        MoonResponse::MoonError { error, .. } => Err(ClientError::Moon(error)),
        _ => Err(ClientError::NotOk(res)),
    }
}

/// What an answer to `server.info` means.
pub open spec fn server_info_outcome(res: MoonResponse) -> Result<ServerInfo, ClientError> {
    match res {
        MoonResponse::MoonResult { result, .. } => match result {
            MoonResultData::ServerInfo(info) => Ok(info),
            _ => Err(ClientError::UnexpectedResult(result)),
        },
        _ => Err(ClientError::UnexpectedResponse(res)),
    }
}

/// Reads the answer to `server.info`.
pub fn server_info_of(res: MoonResponse) -> (r: Result<ServerInfo, ClientError>)
    ensures
        r == server_info_outcome(res),
        res matches MoonResponse::MoonResult { result: MoonResultData::ServerInfo(info), .. }
            ==> r == Ok::<ServerInfo, ClientError>(info),
        r is Ok ==> res matches MoonResponse::MoonResult {
            result: MoonResultData::ServerInfo(_),
            ..
        },
{
    match res {
        MoonResponse::MoonResult { result, .. } => match result {
            MoonResultData::ServerInfo(info) => Ok(info),
            _ => Err(ClientError::UnexpectedResult(result)),
        },
        _ => Err(ClientError::UnexpectedResponse(res)),
    }
}

/// What an answer to `printer.info` means.
pub open spec fn printer_info_outcome(res: MoonResponse) -> Result<
    PrinterInfoResponse,
    ClientError,
> {
    match res {
        MoonResponse::MoonResult { result, .. } => match result {
            MoonResultData::Acknowledged(_) => Err(ClientError::OkInsteadOfPrinterInfo),
            MoonResultData::PrinterInfoResponse(info) => Ok(info),
            _ => Err(ClientError::NoPrinterInfo),
        },
        MoonResponse::MoonError { error, .. } => Err(ClientError::Moon(error)),
        _ => Err(ClientError::NoPrinterInfo),
    }
}

/// Reads the answer to `printer.info`.
pub fn printer_info_of(res: MoonResponse) -> (r: Result<PrinterInfoResponse, ClientError>)
    ensures
        r == printer_info_outcome(res),
        res matches MoonResponse::MoonResult {
            result: MoonResultData::PrinterInfoResponse(info),
            ..
        } ==> r == Ok::<PrinterInfoResponse, ClientError>(info),
        r is Ok ==> res matches MoonResponse::MoonResult {
            result: MoonResultData::PrinterInfoResponse(_),
            ..
        },
{
    match res {
        MoonResponse::MoonResult { result, .. } => match result {
            MoonResultData::Acknowledged(_) => Err(ClientError::OkInsteadOfPrinterInfo),
            MoonResultData::PrinterInfoResponse(info) => Ok(info),
            _ => Err(ClientError::NoPrinterInfo),
        },
        MoonResponse::MoonError { error, .. } => Err(ClientError::Moon(error)),
        _ => Err(ClientError::NoPrinterInfo),
    }
}

/// What an answer to `printer.info` means on a plain connection, where an
/// error answer has already been taken out by the listening request.
pub open spec fn connection_printer_info_outcome(res: MoonResponse) -> Result<
    PrinterInfoResponse,
    ClientError,
> {
    match res {
        MoonResponse::MoonResult { result, .. } => match result {
            MoonResultData::Acknowledged(_) => Err(ClientError::ConnectionOkInsteadOfPrinterInfo),
            MoonResultData::PrinterInfoResponse(info) => Ok(info),
            _ => Err(ClientError::ConnectionNoPrinterInfo),
        },
        _ => Err(ClientError::ConnectionNoPrinterInfo),
    }
}

/// Reads the answer to `printer.info` on a plain connection.
pub fn connection_printer_info_of(res: MoonResponse) -> (r: Result<PrinterInfoResponse, ClientError>)
    ensures
        r == connection_printer_info_outcome(res),
{
    match res {
        MoonResponse::MoonResult { result, .. } => match result {
            MoonResultData::Acknowledged(_) => Err(ClientError::ConnectionOkInsteadOfPrinterInfo),
            MoonResultData::PrinterInfoResponse(info) => Ok(info),
            _ => Err(ClientError::ConnectionNoPrinterInfo),
        },
        _ => Err(ClientError::ConnectionNoPrinterInfo),
    }
}

/// What an answer to the homed-axes query means.
pub open spec fn homed_axes_outcome(res: MoonResponse) -> Result<String, ClientError> {
    match res {
        MoonResponse::MoonResult {
            result: MoonResultData::PrinterObjectsQueryResponse(query),
            ..
        } => match query.status.toolhead {
            Some(toolhead) => match toolhead.homed_axes {
                Some(axes) => Ok(axes),
                None => Err(ClientError::MissingHomedAxes),
            },
            None => Err(ClientError::MissingToolhead),
        },
        _ => Err(ClientError::NotAnObjectsQueryResult),
    }
}

/// Reads the answer to the homed-axes query.
pub fn homed_axes_of(res: MoonResponse) -> (r: Result<String, ClientError>)
    ensures
        r == homed_axes_outcome(res),
        res matches MoonResponse::MoonResult {
            result: MoonResultData::PrinterObjectsQueryResponse(q),
            ..
        } ==> (q.status.toolhead matches Some(t) ==> (t.homed_axes matches Some(a) ==> r == Ok::<
            String,
            ClientError,
        >(a))),
{
    match res {
        MoonResponse::MoonResult {
            result: MoonResultData::PrinterObjectsQueryResponse(query),
            ..
        } => match query.status.toolhead {
            Some(toolhead) => match toolhead.homed_axes {
                Some(axes) => Ok(axes),
                None => Err(ClientError::MissingHomedAxes),
            },
            None => Err(ClientError::MissingToolhead),
        },
        _ => Err(ClientError::NotAnObjectsQueryResult),
    }
}

/// What an answer to the z-tilt query means.
pub open spec fn z_tilt_outcome(res: MoonResponse) -> Result<bool, ClientError> {
    match res {
        MoonResponse::MoonResult { result, .. } => match result {
            MoonResultData::PrinterObjectsQueryResponse(query) => match query.status.z_tilt {
                Some(z_tilt) => Ok(z_tilt.applied),
                None => Err(ClientError::MissingZTilt),
            },
            _ => Err(ClientError::UnexpectedFormat),
        },
        _ => Err(ClientError::UnexpectedType),
    }
}

/// Reads the answer to the z-tilt query: whether the z tilt is applied.
pub fn z_tilt_applied_of(res: MoonResponse) -> (r: Result<bool, ClientError>)
    ensures
        r == z_tilt_outcome(res),
        res matches MoonResponse::MoonResult {
            result: MoonResultData::PrinterObjectsQueryResponse(q),
            ..
        } ==> (q.status.z_tilt matches Some(z) ==> r == Ok::<bool, ClientError>(z.applied)),
{
    match res {
        MoonResponse::MoonResult { result, .. } => match result {
            MoonResultData::PrinterObjectsQueryResponse(query) => match query.status.z_tilt {
                Some(z_tilt) => Ok(z_tilt.applied),
                None => Err(ClientError::MissingZTilt),
            },
            _ => Err(ClientError::UnexpectedFormat),
        },
        _ => Err(ClientError::UnexpectedType),
    }
}

/// Whether the server reports the printer ready.
pub fn is_ready(info: &ServerInfo) -> (b: bool)
    ensures
        b == (info.klippy_state == PrinterState::Ready),
{
    info.klippy_state == PrinterState::Ready
}

/// The URL of Moonraker's websocket on a host, at the given port or the default one.
pub open spec fn websocket_url_text(hostname: Seq<char>, port: Option<u16>) -> Seq<char> {
    let p = match port {
        Some(p) => p,
        None => DEFAULT_MOONRAKER_PORT,
    };
    "ws://"@ + hostname + ":"@ + decimal(p as nat) + "/websocket"@
}

/// The URL of Moonraker's websocket on a host, at the given port or the default one.
pub fn websocket_url(hostname: &str, port: Option<u16>) -> (url: String)
    ensures
        url@ == websocket_url_text(hostname@, port),
{
    let p = match port {
        Some(p) => p,
        None => DEFAULT_MOONRAKER_PORT,
    };
    let mut url = String::new();
    url.append("ws://");
    url.append(hostname);
    url.append(":");
    push_decimal(&mut url, p as u64);
    url.append("/websocket");
    proof {
        reveal_strlit("ws://");
        reveal_strlit(":");
        reveal_strlit("/websocket");
    }
    url
}

} // verus!

verus! {

/// The text `str::to_lowercase` gives for a text: each character's lowercase
/// mapping as Unicode defines it.
pub uninterp spec fn lowercased(s: Seq<char>) -> Seq<char>;

/// Whether a character has the Unicode `White_Space` property, which is what
/// `char::is_whitespace` tests.
pub open spec fn white_space(c: char) -> bool {
    let n = c as u32;
    (0x9 <= n && n <= 0xd) || n == 0x20 || n == 0x85 || n == 0xa0 || n == 0x1680 || (0x2000 <= n
        && n <= 0x200a) || n == 0x2028 || n == 0x2029 || n == 0x202f || n == 0x205f || n == 0x3000
}

/// A text without its leading white space.
pub open spec fn trim_start(s: Seq<char>) -> Seq<char>
    decreases s.len(),
{
    if s.len() > 0 && white_space(s[0]) {
        trim_start(s.drop_first())
    } else {
        s
    }
}

/// A text without its trailing white space.
pub open spec fn trim_end(s: Seq<char>) -> Seq<char>
    decreases s.len(),
{
    if s.len() > 0 && white_space(s.last()) {
        trim_end(s.drop_last())
    } else {
        s
    }
}

/// A text without its leading and trailing white space.
pub open spec fn trimmed(s: Seq<char>) -> Seq<char> {
    trim_end(trim_start(s))
}

/// The lowercase form of an ASCII text: `A` to `Z` become `a` to `z`.
pub open spec fn ascii_lowercase(s: Seq<char>) -> Seq<char> {
    s.map_values(|c: char| if 'A' <= c && c <= 'Z' { ((c as u32) + 32) as char } else { c })
}

/// Calls `str::to_lowercase`; the result is named `lowercased` of the text.
/// On an ASCII text it is the ASCII lowercase form: Unicode maps `A` to `Z`
/// to `a` to `z` and every other ASCII character to itself.
#[verifier::external_body]
fn to_lowercase(s: &str) -> (r: String)
    ensures
        r@ == lowercased(s@),
        (forall|i: int| 0 <= i < s@.len() ==> (#[trigger] s@[i] as u32) < 0x80) ==> r@
            == ascii_lowercase(s@),
{
    s.to_lowercase()
}

/// Whether a character has the Unicode `White_Space` property.
fn is_white_space(c: char) -> (b: bool)
    ensures
        b == white_space(c),
{
    let n = c as u32;
    (0x9 <= n && n <= 0xd) || n == 0x20 || n == 0x85 || n == 0xa0 || n == 0x1680 || (0x2000 <= n
        && n <= 0x200a) || n == 0x2028 || n == 0x2029 || n == 0x202f || n == 0x205f || n == 0x3000
}

/// The text without its leading and trailing white space, as `str::trim`
/// gives it.
pub fn trim(s: &str) -> (r: &str)
    ensures
        r@ == trimmed(s@),
{
    let n = s.unicode_len();
    let mut i: usize = 0;
    assert(s@.subrange(0, n as int) =~= s@);
    while i < n
        invariant
            n == s@.len(),
            i <= n,
            trim_start(s@) == trim_start(s@.subrange(i as int, n as int)),
        ensures
            n == s@.len(),
            i <= n,
            trim_start(s@) == trim_start(s@.subrange(i as int, n as int)),
            i == n || !white_space(s@[i as int]),
        decreases n - i,
    {
        if !is_white_space(s.get_char(i)) {
            break;
        }
        proof {
            let t = s@.subrange(i as int, n as int);
            assert(t[0] == s@[i as int]);
            assert(t.drop_first() =~= s@.subrange(i + 1, n as int));
        }
        i = i + 1;
    }
    proof {
        let t = s@.subrange(i as int, n as int);
        if t.len() > 0 {
            assert(t[0] == s@[i as int]);
        }
        assert(trim_start(t) == t);
    }
    let mut j: usize = n;
    while j > i
        invariant
            n == s@.len(),
            i <= j <= n,
            trimmed(s@) == trim_end(s@.subrange(i as int, j as int)),
        ensures
            n == s@.len(),
            i <= j <= n,
            trimmed(s@) == trim_end(s@.subrange(i as int, j as int)),
            j == i || !white_space(s@[j - 1]),
        decreases j - i,
    {
        if !is_white_space(s.get_char(j - 1)) {
            break;
        }
        proof {
            let t = s@.subrange(i as int, j as int);
            assert(t.last() == s@[j - 1]);
            assert(t.drop_last() =~= s@.subrange(i as int, j - 1));
        }
        j = j - 1;
    }
    proof {
        let t = s@.subrange(i as int, j as int);
        if t.len() > 0 {
            assert(t.last() == s@[j - 1]);
        }
        assert(trim_end(t) == t);
    }
    s.substring_char(i, j)
}

/// Whether `needle` occurs in `haystack` as a run of consecutive characters.
pub open spec fn occurs_in(needle: Seq<char>, haystack: Seq<char>) -> bool {
    exists|i: int|
        0 <= i && i + needle.len() <= haystack.len() && #[trigger] haystack.subrange(
            i,
            i + needle.len(),
        ) == needle
}

/// Whether `needle` occurs in `haystack`.
pub fn contains_text(haystack: &str, needle: &str) -> (b: bool)
    ensures
        b == occurs_in(needle@, haystack@),
{
    let n = haystack.unicode_len();
    let m = needle.unicode_len();
    if m > n {
        proof {
            assert forall|i: int| 0 <= i && i + needle@.len() <= haystack@.len() implies #[trigger] haystack@.subrange(i, i + needle@.len()) != needle@ by {}
        }
        return false;
    }
    let mut i: usize = 0;
    while i <= n - m
        invariant
            n == haystack@.len(),
            m == needle@.len(),
            m <= n,
            i <= n - m + 1,
            forall|k: int|
                0 <= k < i ==> #[trigger] haystack@.subrange(k, k + needle@.len()) != needle@,
        decreases n - i,
    {
        let mut j: usize = 0;
        let mut same = true;
        while j < m
            invariant
                n == haystack@.len(),
                m == needle@.len(),
                i + m <= n,
                j <= m,
                same == (forall|l: int| 0 <= l < j ==> haystack@[i + l] == needle@[l]),
            decreases m - j,
        {
            if haystack.get_char(i + j) != needle.get_char(j) {
                same = false;
            }
            j = j + 1;
        }
        if same {
            proof {
                assert(haystack@.subrange(i as int, i + needle@.len()) =~= needle@);
            }
            return true;
        }
        proof {
            assert(haystack@.subrange(i as int, i + needle@.len()) != needle@) by {
                let l = choose|l: int| 0 <= l < m && haystack@[i + l] != needle@[l];
                assert(haystack@.subrange(i as int, i + needle@.len())[l] == haystack@[i + l]);
            }
        }
        i = i + 1;
    }
    false
}

/// Whether the homed axes reported by the toolhead include X, Y and Z: their
/// lowercase text holds `xyz`.
pub fn axes_homed(homed_axes: &str) -> (b: bool)
    ensures
        b == occurs_in("xyz"@, lowercased(homed_axes@)),
        (forall|i: int| 0 <= i < homed_axes@.len() ==> (#[trigger] homed_axes@[i] as u32) < 0x80)
            ==> b == occurs_in("xyz"@, ascii_lowercase(homed_axes@)),
{
    let lower = to_lowercase(homed_axes);
    contains_text(lower.as_str(), "xyz")
}

/// Whether an answer typed by the user is yes: trimmed and in lowercase it is `y`.
pub fn answer_is_yes(input: &str) -> (b: bool)
    ensures
        b == (lowercased(trimmed(input@)) == "y"@),
        (forall|i: int|
            0 <= i < trimmed(input@).len() ==> (#[trigger] trimmed(input@)[i] as u32) < 0x80)
            ==> b == (ascii_lowercase(trimmed(input@)) == "y"@),
{
    let lower = to_lowercase(trim(input));
    let n = lower.as_str().unicode_len();
    proof {
        reveal_strlit("y");
    }
    if n == 1 && lower.as_str().get_char(0) == 'y' {
        assert(lower@ =~= "y"@);
        true
    } else {
        false
    }
}

/// What an answer means to a request that waits for its response on a plain
/// connection: a result or a notification is the answer, an error is the failure.
pub open spec fn listen_outcome_of(res: MoonResponse) -> Result<MoonResponse, JsonRpcError> {
    match res {
        MoonResponse::MoonError { error, .. } => Err(error),
        _ => Ok(res),
    }
}

/// Reads the answer to a request that waited for its response on a plain connection.
pub fn listen_outcome(res: MoonResponse) -> (r: Result<MoonResponse, JsonRpcError>)
    ensures
        r == listen_outcome_of(res),
{
    match res {
        MoonResponse::MoonError { error, .. } => Err(error),
        _ => Ok(res),
    }
}

/// Where a message read on a plain connection goes.
#[derive(Debug)]
pub enum MoonRouted {
    /// To the request waiting under `id`, which is pending no more.
    Deliver { id: u32, response: MoonResponse },
    /// To the general reader: no one waits for it.
    Forward(MoonResponse),
    /// Nowhere: it is a notification, or an error without an id.
    Drop,
}

/// Routes a message read on a plain connection: a result, or an error with an
/// id, goes to the request pending under its id if there is one, else to the
/// general reader; anything else is dropped.
pub fn route_moon_response(pending: &mut PendingRequests, res: MoonResponse) -> (r: MoonRouted)
    ensures
        final(pending).dirty_view() == old(pending).dirty_view(),
        final(pending).has_dirty() == old(pending).has_dirty(),
        match crate::moon_response::id_of(res) {
            Some(id) if !(res is Notification) => {
                &&& final(pending).pending_view() == old(pending).pending_view().remove(id)
                &&& old(pending).pending_view().contains_key(id) ==> r == (MoonRouted::Deliver {
                    id,
                    response: res,
                })
                &&& !old(pending).pending_view().contains_key(id) ==> r == MoonRouted::Forward(
                    res,
                )
            },
            _ => r is Drop && final(pending).pending_view() == old(pending).pending_view(),
        },
{
    let id = match &res {
        MoonResponse::MoonResult { id, .. } => Some(*id),
        MoonResponse::MoonError { id: Some(id), .. } => Some(*id),
        _ => None,
    };
    match id {
        Some(id) => {
            if pending.take(id) {
                MoonRouted::Deliver { id, response: res }
            } else {
                MoonRouted::Forward(res)
            }
        },
        None => MoonRouted::Drop,
    }
}

/// An ok answer is a success whatever its id and version, and nothing else
/// is: every other answer is an error.
pub proof fn law_ok_answers(jsonrpc: JsonRpcVersion, ok: MoonOk, id: u32, res: MoonResponse)
    ensures
        ok_outcome(
            MoonResponse::MoonResult { jsonrpc, result: MoonResultData::Acknowledged(ok), id },
        ) == Ok::<(), ClientError>(()),
        ok_outcome(res) is Ok ==> res matches MoonResponse::MoonResult {
            result: MoonResultData::Acknowledged(_),
            ..
        },
{
}

/// A result that carries server information reads as exactly that
/// information, whatever its id and whatever state it reports; no other
/// answer reads as information.
pub proof fn law_server_info_answers(
    jsonrpc: JsonRpcVersion,
    info: ServerInfo,
    id: u32,
    res: MoonResponse,
    got: ServerInfo,
)
    ensures
        server_info_outcome(
            MoonResponse::MoonResult { jsonrpc, result: MoonResultData::ServerInfo(info), id },
        ) == Ok::<ServerInfo, ClientError>(info),
        server_info_outcome(res) == Ok::<ServerInfo, ClientError>(got) ==> (res matches
            MoonResponse::MoonResult { result: MoonResultData::ServerInfo(i), .. } && i == got),
{
}

/// A result that carries printer information reads as exactly that
/// information, whatever its id and whatever state it reports; no other
/// answer reads as information.
pub proof fn law_printer_info_answers(
    jsonrpc: JsonRpcVersion,
    info: PrinterInfoResponse,
    id: u32,
    res: MoonResponse,
    got: PrinterInfoResponse,
)
    ensures
        printer_info_outcome(
            MoonResponse::MoonResult {
                jsonrpc,
                result: MoonResultData::PrinterInfoResponse(info),
                id,
            },
        ) == Ok::<PrinterInfoResponse, ClientError>(info),
        printer_info_outcome(res) == Ok::<PrinterInfoResponse, ClientError>(got) ==> (res matches
            MoonResponse::MoonResult { result: MoonResultData::PrinterInfoResponse(i), .. }
            && i == got),
        connection_printer_info_outcome(
            MoonResponse::MoonResult {
                jsonrpc,
                result: MoonResultData::PrinterInfoResponse(info),
                id,
            },
        ) == Ok::<PrinterInfoResponse, ClientError>(info),
{
}

/// A query result whose toolhead reports homed axes reads as exactly those
/// axes, whatever else the result holds; an answer reads as axes only then.
pub proof fn law_homed_axes_answers(
    jsonrpc: JsonRpcVersion,
    query: PrinterObjectsQueryResponse,
    id: u32,
    res: MoonResponse,
    got: String,
)
    ensures
        query.status.toolhead matches Some(t) ==> (t.homed_axes matches Some(a) ==> homed_axes_outcome(
            MoonResponse::MoonResult {
                jsonrpc,
                result: MoonResultData::PrinterObjectsQueryResponse(query),
                id,
            },
        ) == Ok::<String, ClientError>(a)),
        homed_axes_outcome(res) == Ok::<String, ClientError>(got) ==> (res matches
            MoonResponse::MoonResult { result: MoonResultData::PrinterObjectsQueryResponse(q), .. }
            && q.status.toolhead matches Some(t) && t.homed_axes == Some(got)),
{
}

/// A query result that holds a `z_tilt` object reads as that object's
/// applied flag, whatever else the result holds (its id, its event time, the
/// other objects); an answer reads as a flag only then.
pub proof fn law_z_tilt_answers(
    jsonrpc: JsonRpcVersion,
    query: PrinterObjectsQueryResponse,
    id: u32,
    res: MoonResponse,
    got: bool,
)
    ensures
        query.status.z_tilt matches Some(z) ==> z_tilt_outcome(
            MoonResponse::MoonResult {
                jsonrpc,
                result: MoonResultData::PrinterObjectsQueryResponse(query),
                id,
            },
        ) == Ok::<bool, ClientError>(z.applied),
        z_tilt_outcome(res) == Ok::<bool, ClientError>(got) ==> (res matches
            MoonResponse::MoonResult { result: MoonResultData::PrinterObjectsQueryResponse(q), .. }
            && q.status.z_tilt matches Some(z) && z.applied == got),
{
}

} // verus!
