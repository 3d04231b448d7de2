//! Framing for the message-oriented transport: the whole serialized
//! payload may pass through a symmetric compression stage before
//! transmission, and the backend validates the upgrade path before it
//! accepts a message stream.  The socket itself is the caller's affair;
//! this module turns messages into ready-to-send byte frames and back.

use vstd::prelude::*;

use flate2::Compression;
use flate2::read::ZlibDecoder;
use flate2::write::ZlibEncoder;
use std::io::Read;
use std::io::Write;

use crate::codec::encode_request;
use crate::codec::encode_response;
use crate::decode::decode_request;
use crate::decode::decode_response;
use crate::protocol::Request;
use crate::protocol::Response;
use crate::protocol::req_view;
use crate::protocol::resp_view;
use crate::protocol::wf_request;
use crate::protocol::wf_response;
use crate::wire::enc_req_m;
use crate::wire::enc_resp_m;
use crate::wire::request_of_bytes;
use crate::wire::response_of_bytes;

verus! {

/// What the compressor makes of a payload.  Compression at the default
/// level is a function of the input bytes alone.
pub uninterp spec fn zlib_of(s: Seq<u8>) -> Seq<u8>;

/// Relies on flate2's `ZlibEncoder`: compressing a buffer at the default
/// level yields a byte stream determined by the buffer alone.
#[verifier::external_body]
fn zlib_compress(data: &Vec<u8>) -> (r: Vec<u8>)
    ensures
        r@ == zlib_of(data@),
{
    let mut encoder = ZlibEncoder::new(Vec::new(), Compression::default());
    encoder.write_all(data).expect("writing into a buffer cannot fail");
    encoder.finish().expect("writing into a buffer cannot fail")
}

/// Relies on flate2's `ZlibDecoder`: zlib compression is lossless, so
/// decompressing what `ZlibEncoder` produced hands the original buffer
/// back; a corrupt stream is an error, never a wrong answer.
#[verifier::external_body]
fn zlib_decompress(data: &Vec<u8>) -> (r: Option<Vec<u8>>)
    ensures
        (match r {
            Option::Some(v) => forall|p: Seq<u8>| data@ == #[trigger] zlib_of(p) ==> v@ == p,
            Option::None => forall|p: Seq<u8>| data@ != #[trigger] zlib_of(p),
        }),
{
    let mut decoder = ZlibDecoder::new(data.as_slice());
    let mut out = Vec::new();
    match decoder.read_to_end(&mut out) {
        Ok(_) => Some(out),
        Err(_) => None,
    }
}

/// The bytes a payload travels as: compressed or bare.
pub open spec fn frame_bytes(payload: Seq<u8>, compressed: bool) -> Seq<u8> {
    if compressed {
        zlib_of(payload)
    } else {
        payload
    }
}

/// Why a frame could not be turned back into a message.
#[derive(Clone, Copy, PartialEq, Eq, Structural, Debug)]
pub enum SerializationFault {
    /// The compressed stream would not inflate.
    CorruptStream,
    /// The payload was not exactly one well-formed message frame.
    MalformedFrame,
}

/// Why a round trip failed on the wire rather than in the payload.
/// The socket layer maps its own failures onto these.
#[derive(Clone, Copy, PartialEq, Eq, Structural, Debug)]
pub enum NetworkFault {
    /// The peer closed the connection.
    ConnectionClosed,
    /// The upgrade handshake was refused.
    HandshakeFailed,
    /// Reading or writing the stream failed.
    Io,
}

/// What can go wrong between queuing a request and holding its response.
#[derive(Clone, Copy, PartialEq, Eq, Structural, Debug)]
pub enum ErrorKind {
    Serialization(SerializationFault),
    Network(NetworkFault),
}

pub type Error = Box<ErrorKind>;

impl ErrorKind {
    /// A short description, for logs.
    pub fn describe(&self) -> (r: &'static str)
        ensures
            (*self matches ErrorKind::Serialization(SerializationFault::CorruptStream)) ==> r@
                == "serialization error: corrupt compressed stream"@,
            (*self matches ErrorKind::Serialization(SerializationFault::MalformedFrame)) ==> r@
                == "serialization error: malformed frame"@,
            (*self matches ErrorKind::Network(NetworkFault::ConnectionClosed)) ==> r@
                == "network error: connection closed"@,
            (*self matches ErrorKind::Network(NetworkFault::HandshakeFailed)) ==> r@
                == "network error: handshake failed"@,
            (*self matches ErrorKind::Network(NetworkFault::Io)) ==> r@
                == "network error: stream failure"@,
    {
        match self {
            ErrorKind::Serialization(SerializationFault::CorruptStream) => {
                "serialization error: corrupt compressed stream"
            },
            ErrorKind::Serialization(SerializationFault::MalformedFrame) => {
                "serialization error: malformed frame"
            },
            ErrorKind::Network(NetworkFault::ConnectionClosed) => {
                "network error: connection closed"
            },
            ErrorKind::Network(NetworkFault::HandshakeFailed) => "network error: handshake failed",
            ErrorKind::Network(NetworkFault::Io) => "network error: stream failure",
        }
    }
}

/// Encode a request and, when compression is on, compress the whole
/// serialized payload.
pub fn frame_request(req: &Request, compression: bool) -> (r: Vec<u8>)
    requires
        wf_request(*req),
    ensures
        r@ == frame_bytes(enc_req_m(req_view(*req)), compression),
{
    let payload = encode_request(req);
    if compression {
        zlib_compress(&payload)
    } else {
        payload
    }
}

/// Encode a response the same way.
pub fn frame_response(resp: &Response, compression: bool) -> (r: Vec<u8>)
    requires
        wf_response(*resp),
    ensures
        r@ == frame_bytes(enc_resp_m(resp_view(*resp)), compression),
{
    let payload = encode_response(resp);
    if compression {
        zlib_compress(&payload)
    } else {
        payload
    }
}

/// Decompress (when compression is on) and decode one request frame.
/// Any frame that `frame_request` produced comes back as the request it
/// was made from; anything else is a serialization error.
pub fn unframe_request(bytes: &Vec<u8>, compression: bool) -> (r: Result<Request, ErrorKind>)
    ensures
        (r matches Ok(m) ==> wf_request(m)),
        forall|p: Seq<u8>|
            bytes@ == #[trigger] frame_bytes(p, compression) ==> (match r {
                Ok(m) => request_of_bytes(p) == Option::Some(req_view(m)),
                Err(_) => request_of_bytes(p) is None,
            }),
{
    if compression {
        match zlib_decompress(bytes) {
            Some(payload) => match decode_request(&payload) {
                Some(m) => Ok(m),
                None => Err(ErrorKind::Serialization(SerializationFault::MalformedFrame)),
            },
            None => Err(ErrorKind::Serialization(SerializationFault::CorruptStream)),
        }
    } else {
        match decode_request(bytes) {
            Some(m) => Ok(m),
            None => Err(ErrorKind::Serialization(SerializationFault::MalformedFrame)),
        }
    }
}

/// Decompress (when compression is on) and decode one response frame.
pub fn unframe_response(bytes: &Vec<u8>, compression: bool) -> (r: Result<Response, ErrorKind>)
    ensures
        (r matches Ok(m) ==> wf_response(m)),
        forall|p: Seq<u8>|
            bytes@ == #[trigger] frame_bytes(p, compression) ==> (match r {
                Ok(m) => response_of_bytes(p) == Option::Some(resp_view(m)),
                Err(_) => response_of_bytes(p) is None,
            }),
{
    if compression {
        match zlib_decompress(bytes) {
            Some(payload) => match decode_response(&payload) {
                Some(m) => Ok(m),
                None => Err(ErrorKind::Serialization(SerializationFault::MalformedFrame)),
            },
            None => Err(ErrorKind::Serialization(SerializationFault::CorruptStream)),
        }
    } else {
        match decode_response(bytes) {
            Some(m) => Ok(m),
            None => Err(ErrorKind::Serialization(SerializationFault::MalformedFrame)),
        }
    }
}

// ---------------------------------------------------------------------------
// Upgrade-path validation
// ---------------------------------------------------------------------------

/// The one path on which the backend accepts a message stream: `/ws`.
pub open spec fn socket_path() -> Seq<u8> {
    seq![47u8, 119u8, 115u8]
}

/// The bare root path `/`.
pub open spec fn root_path() -> Seq<u8> {
    seq![47u8]
}

/// What the backend does with an incoming upgrade request.
#[derive(Clone, Copy, PartialEq, Eq, Structural, Debug)]
pub enum UpgradeDecision {
    /// The socket path: accept the stream.
    Accept,
    /// A plain request for the root: answer 400 with a JSON error body.
    BadRequest,
    /// Any other path: answer 404 with a JSON error body.
    NotFound,
}

/// Validate the upgrade path before accepting a message stream: only the
/// socket path is accepted; a plain request for the root is a bad
/// request; everything else is not found.
pub fn classify_upgrade_path(path: &Vec<u8>) -> (r: UpgradeDecision)
    ensures
        path@ == socket_path() ==> r == UpgradeDecision::Accept,
        path@ == root_path() ==> r == UpgradeDecision::BadRequest,
        (path@ != socket_path() && path@ != root_path()) ==> r == UpgradeDecision::NotFound,
{
    if path.len() == 3 && path[0] == 47u8 && path[1] == 119u8 && path[2] == 115u8 {
        proof {
            assert(path@ =~= socket_path());
        }
        UpgradeDecision::Accept
    } else if path.len() == 1 && path[0] == 47u8 {
        proof {
            assert(path@ =~= root_path());
            assert(path@ != socket_path());
        }
        UpgradeDecision::BadRequest
    } else {
        proof {
            if path@ == socket_path() {
                assert(path@.len() == 3 && path@[0] == 47u8 && path@[1] == 119u8 && path@[2]
                    == 115u8);
            }
            if path@ == root_path() {
                assert(path@.len() == 1 && path@[0] == 47u8);
            }
        }
        UpgradeDecision::NotFound
    }
}

impl UpgradeDecision {
    /// The HTTP status sent for a rejected upgrade.  An accepted upgrade
    /// continues with the handshake instead.
    pub fn rejection_status(&self) -> (r: Option<u16>)
        ensures
            *self is Accept ==> r is None,
            *self is BadRequest ==> r == Option::Some(400u16),
            *self is NotFound ==> r == Option::Some(404u16),
    {
        match self {
            UpgradeDecision::Accept => None,
            UpgradeDecision::BadRequest => Some(400),
            UpgradeDecision::NotFound => Some(404),
        }
    }

    /// The JSON error body sent with a rejection.
    pub fn rejection_body(&self) -> (r: Option<&'static str>)
        ensures
            *self is Accept ==> r is None,
            *self is BadRequest ==> (r matches Option::Some(b)
                && b@ == "{\"error\": \"Access via websocket protocol\"}"@),
            *self is NotFound ==> (r matches Option::Some(b) && b@ == "{\"error\": \"Not found\"}"@),
    {
        match self {
            UpgradeDecision::Accept => None,
            UpgradeDecision::BadRequest => Some("{\"error\": \"Access via websocket protocol\"}"),
            UpgradeDecision::NotFound => Some("{\"error\": \"Not found\"}"),
        }
    }
}

} // verus!
