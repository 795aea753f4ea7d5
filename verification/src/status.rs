//! The coordination protocol: plain HTTP/1.1 over a loopback TCP port, by
//! which a launcher finds out whether the managed application already runs
//! and asks a running one to show itself.
//!
//! This module writes the two requests and reads the answer to the first.
//! Connecting, sending and receiving are the caller's work.

use vstd::prelude::*;
use vstd::slice::slice_subrange;
use vstd::string::StringSliceAdditionalSpecFns;
use crate::text::{
    ByteClass, CR, DOT, LF, SP, ZERO, append_bytes, append_decimal, begins_with, contains,
    decimal_digits, find, first_match, has_prefix, includes, is_digit, lemma_first_match_from,
};

verus! {

/// The loopback TCP port of the coordination endpoint.
pub const APP_PORT: u16 = 8765;

/// How long a connection attempt to the coordination port may take, in
/// milliseconds.
pub const CONNECT_TIMEOUT_MS: u64 = 150;

/// How long a read from the coordination port may take, in milliseconds.
pub const READ_TIMEOUT_MS: u64 = 500;

/// How many bytes of an answer are read at most.
pub const STATUS_RESPONSE_CAP: usize = 4096;

/// What a probe of the coordination port found.
#[derive(Clone, Copy, Debug, PartialEq, Eq, Structural)]
pub enum AppStatus {
    /// Nothing listens on the port.
    NotRunning,
    /// A peer listens and identifies itself as the managed application.
    Running,
    /// Something listens on the port and does not identify itself as the
    /// managed application.
    PortInUse,
}

/// The request line and the host header that both requests begin with,
/// `method_and_path` being the start of the request line up to the protocol
/// version.
pub open spec fn request_head(method_and_path: Seq<u8>, port: u16) -> Seq<u8> {
    method_and_path + " HTTP/1.1\r\nHost: 127.0.0.1:".spec_bytes() + decimal_digits(port as nat)
        + "\r\n".spec_bytes()
}

/// The status request: `GET /api/setup-status`, to be answered on a
/// connection that the peer closes.
pub open spec fn status_request_bytes(port: u16) -> Seq<u8> {
    request_head("GET /api/setup-status".spec_bytes(), port)
        + "Connection: close\r\n\r\n".spec_bytes()
}

/// The activation request: `POST /api/activate` with the activation header
/// and an empty body.
pub open spec fn activate_request_bytes(port: u16) -> Seq<u8> {
    request_head("POST /api/activate".spec_bytes(), port)
        + "X-YakuLingo-Activate: 1\r\nContent-Length: 0\r\nConnection: close\r\n\r\n".spec_bytes()
}

/// The status code of an answer whose status line is well formed: `HTTP/`,
/// a version of two digits around a point, a space, a code of three digits,
/// and then a space, the end of the line or the end of the answer.
pub open spec fn status_code(response: Seq<u8>) -> Option<int> {
    if {
        &&& has_prefix(response, "HTTP/".spec_bytes())
        &&& response.len() >= 12
        &&& is_digit(response[5])
        &&& response[6] == DOT
        &&& is_digit(response[7])
        &&& response[8] == SP
        &&& is_digit(response[9])
        &&& is_digit(response[10])
        &&& is_digit(response[11])
        &&& (response.len() == 12 || response[12] == SP || response[12] == CR || response[12]
            == LF)
    } {
        Some((response[9] - ZERO) * 100 + (response[10] - ZERO) * 10 + (response[11] - ZERO))
    } else {
        None
    }
}

/// The blank line that ends the headers of an answer.
pub open spec fn header_end() -> Seq<u8> {
    "\r\n\r\n".spec_bytes()
}

/// The body of an answer: what follows the first blank line.
pub open spec fn body_of(response: Seq<u8>) -> Option<Seq<u8>> {
    match first_match(response, header_end()) {
        None => None,
        Some(at) => Some(response.subrange(at + header_end().len(), response.len() as int)),
    }
}

/// Whether a body holds one of the markers by which the managed application
/// identifies itself: `"ready"` or `"active"`, quotes included.
pub open spec fn has_marker(body: Seq<u8>) -> bool {
    contains(body, "\"ready\"".spec_bytes()) || contains(body, "\"active\"".spec_bytes())
}

/// Whether an answer to the status request identifies the managed
/// application: its status is 200 and its body holds a marker.
pub open spec fn identifies_application(response: Seq<u8>) -> bool {
    &&& status_code(response) == Some(200int)
    &&& body_of(response) matches Some(body)
    &&& has_marker(body)
}

/// What an answer to the status request says of the peer that gave it.
pub open spec fn status_of_response(response: Seq<u8>) -> AppStatus {
    if identifies_application(response) {
        AppStatus::Running
    } else {
        AppStatus::PortInUse
    }
}

/// What a probe says: nothing runs where the connection was refused; where
/// it was accepted, the answer decides.
pub open spec fn status_of_probe(connected: bool, response: Seq<u8>) -> AppStatus {
    if connected {
        status_of_response(response)
    } else {
        AppStatus::NotRunning
    }
}

fn request_with(method_and_path: &str, port: u16, rest: &str) -> (r: Vec<u8>)
    ensures
        r@ == request_head(method_and_path.spec_bytes(), port) + rest.spec_bytes(),
{
    let mut out: Vec<u8> = Vec::new();
    append_bytes(&mut out, method_and_path.as_bytes());
    append_bytes(&mut out, " HTTP/1.1\r\nHost: 127.0.0.1:".as_bytes());
    append_decimal(&mut out, port as u64);
    append_bytes(&mut out, "\r\n".as_bytes());
    append_bytes(&mut out, rest.as_bytes());
    out
}

/// The bytes of the status request to the peer on `port`.
pub fn status_request(port: u16) -> (r: Vec<u8>)
    ensures
        r@ == status_request_bytes(port),
{
    request_with("GET /api/setup-status", port, "Connection: close\r\n\r\n")
}

/// The bytes of the activation request to the peer on `port`.
pub fn activate_request(port: u16) -> (r: Vec<u8>)
    ensures
        r@ == activate_request_bytes(port),
{
    request_with(
        "POST /api/activate",
        port,
        "X-YakuLingo-Activate: 1\r\nContent-Length: 0\r\nConnection: close\r\n\r\n",
    )
}

/// Takes in a chunk of the answer as it arrives.  The buffer keeps at most
/// `STATUS_RESPONSE_CAP` bytes and drops what goes beyond.  The result says
/// whether to read on: not after an empty chunk, which is the end of the
/// answer, and not once the buffer is full.
pub fn append_response_chunk(buffer: &mut Vec<u8>, chunk: &[u8]) -> (more: bool)
    ensures
        final(buffer)@ == old(buffer)@ + chunk@.take(
            response_room(old(buffer)@.len(), chunk@.len()) as int,
        ),
        more == (chunk@.len() > 0 && final(buffer)@.len() < STATUS_RESPONSE_CAP),
        old(buffer)@.len() <= STATUS_RESPONSE_CAP ==> final(buffer)@.len() <= STATUS_RESPONSE_CAP,
{
    let room: usize = if buffer.len() >= STATUS_RESPONSE_CAP {
        0
    } else {
        STATUS_RESPONSE_CAP - buffer.len()
    };
    let taken: usize = if chunk.len() < room {
        chunk.len()
    } else {
        room
    };
    append_bytes(buffer, slice_subrange(chunk, 0, taken));
    chunk.len() > 0 && buffer.len() < STATUS_RESPONSE_CAP
}

/// How many bytes of a chunk of `chunk` bytes a buffer of `held` bytes takes
/// in: as many as its cap leaves room for.
pub open spec fn response_room(held: nat, chunk: nat) -> nat {
    let room = if held >= STATUS_RESPONSE_CAP {
        0
    } else {
        (STATUS_RESPONSE_CAP - held) as nat
    };
    if chunk < room {
        chunk
    } else {
        room
    }
}

/// The status code of the answer `response`, if its status line is well
/// formed.
pub fn parse_status_code(response: &[u8]) -> (r: Option<u16>)
    ensures
        match r {
            Some(code) => status_code(response@) == Some(code as int),
            None => status_code(response@) is None,
        },
{
    if !begins_with(response, "HTTP/".as_bytes()) || response.len() < 12 {
        return None;
    }
    let digit = ByteClass::Digit;
    let version = digit.admits(response[5]) && response[6] == DOT && digit.admits(response[7]);
    let code = digit.admits(response[9]) && digit.admits(response[10]) && digit.admits(
        response[11],
    );
    let ended = response.len() == 12 || response[12] == SP || response[12] == CR || response[12]
        == LF;
    let well_formed = version && response[8] == SP && code && ended;
    if !well_formed {
        return None;
    }
    let hundreds: u16 = (response[9] - ZERO) as u16;
    let tens: u16 = (response[10] - ZERO) as u16;
    let ones: u16 = (response[11] - ZERO) as u16;
    Some(hundreds * 100 + tens * 10 + ones)
}

/// Whether the answer `response` has a body that holds a marker.
pub fn body_has_marker(response: &[u8]) -> (r: bool)
    ensures
        r == (body_of(response@) matches Some(body) && has_marker(body)),
{
    let sep = "\r\n\r\n".as_bytes();
    proof {
        lemma_first_match_from(response@, sep@, 0);
    }
    match find(response, sep) {
        None => false,
        Some(at) => {
            let len: usize = response.len();
            let body = slice_subrange(response, at + sep.len(), len);
            includes(body, "\"ready\"".as_bytes()) || includes(body, "\"active\"".as_bytes())
        },
    }
}

/// What the answer `response` to the status request says of the peer: it is
/// the managed application only if the status is 200 and the body holds a
/// marker; any other answer comes from a stranger that holds the port.
pub fn classify_status_response(response: &[u8]) -> (r: AppStatus)
    ensures
        r == status_of_response(response@),
        r != AppStatus::NotRunning,
        status_code(response@) != Some(200int) ==> r == AppStatus::PortInUse,
{
    match parse_status_code(response) {
        Some(200) => if body_has_marker(response) {
            AppStatus::Running
        } else {
            AppStatus::PortInUse
        },
        _ => AppStatus::PortInUse,
    }
}

/// What a probe of the coordination port says: `connected` tells whether the
/// connection was accepted, `response` is what was read of the answer.
pub fn probe_status(connected: bool, response: &[u8]) -> (r: AppStatus)
    ensures
        r == status_of_probe(connected, response@),
        r == AppStatus::NotRunning <==> !connected,
{
    if connected {
        classify_status_response(response)
    } else {
        AppStatus::NotRunning
    }
}

/// A peer is taken for the managed application only on status 200: whatever
/// else an answer holds, any other status, and any answer without a well
/// formed status line, marks the port as held by a stranger.
pub proof fn lemma_only_200_identifies(response: Seq<u8>)
    ensures
        status_of_response(response) == AppStatus::Running ==> status_code(response) == Some(
            200int,
        ),
        status_code(response) != Some(200int) ==> status_of_response(response)
            == AppStatus::PortInUse,
        status_of_response(response) != AppStatus::NotRunning,
{
}

} // verus!
