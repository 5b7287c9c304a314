//! The handshake with a node's event stream: its first event must announce
//! the node's API version.
use vstd::prelude::*;

use crate::event::{EventData, EventKind};
use crate::text::str_eq;

verus! {

/// What a stream yields in place of an event when the node cannot be reached.
pub const CONNECTION_REFUSED: &'static str = "Connection refused (os error 111)";

/// Why the handshake with a node failed.
#[derive(Clone, Debug)]
pub enum HandshakeError {
    /// The stream ended before its first event.
    FirstEventEmpty,
    /// The node refused the connection.
    ConnectionRefused,
    /// The first event was some other kind of event.
    NotApiVersion,
    /// The first event could not be read; the text says why.
    Malformed(String),
}

/// The outcome of the handshake, given the first event's data text (if the
/// stream yielded one) and the result of reading that text as an event.
pub open spec fn handshake(
    first_data: Option<Seq<char>>,
    parsed: Result<EventData, String>,
) -> Result<Seq<char>, HandshakeError> {
    match first_data {
        None => Err(HandshakeError::FirstEventEmpty),
        Some(data) => match parsed {
            Ok(event) => if event.kind == EventKind::ApiVersion {
                Ok(event.payload@)
            } else {
                Err(HandshakeError::NotApiVersion)
            },
            Err(reason) => if data == CONNECTION_REFUSED@ {
                Err(HandshakeError::ConnectionRefused)
            } else {
                Err(HandshakeError::Malformed(reason))
            },
        },
    }
}

/// The node's API version (its JSON text) from the first event of its main
/// stream.
pub fn api_version_from_first_event(
    first_data: Option<&str>,
    parsed: Result<EventData, String>,
) -> (r: Result<String, HandshakeError>)
    ensures
        match handshake(
            match first_data {
                Some(d) => Some(d@),
                None => None,
            },
            parsed,
        ) {
            Ok(v) => r is Ok && r->Ok_0@ == v,
            Err(e) => r == Err::<String, HandshakeError>(e),
        },
{
    match first_data {
        None => Err(HandshakeError::FirstEventEmpty),
        Some(data) => match parsed {
            Ok(event) => match event.kind {
                EventKind::ApiVersion => Ok(event.payload),
                _ => Err(HandshakeError::NotApiVersion),
            },
            Err(reason) => {
                if str_eq(data, CONNECTION_REFUSED) {
                    Err(HandshakeError::ConnectionRefused)
                } else {
                    Err(HandshakeError::Malformed(reason))
                }
            },
        },
    }
}

} // verus!
