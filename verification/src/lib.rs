//! Core logic of the meeting transcriber desktop shell: the recording
//! session guard, audio file naming and PCM decoding, upload validation,
//! and the request/response decisions made while talking to the local
//! transcription service.

pub mod audio;
pub mod decimal;
pub mod file_upload;
pub mod sidecar;
pub mod text;

use vstd::prelude::*;

use crate::decimal::{parse_u16, parse_u16_spec};

verus! {

/// The greeting the front end shows for `name`.
pub fn greet(name: &str) -> (r: String)
    ensures
        r@ == "Hello, "@ + name@ + "! You've been greeted from Rust!"@,
{
    let mut r = String::from_str("Hello, ");
    r.append(name);
    r.append("! You've been greeted from Rust!");
    r
}

/// The port the sidecar listens on when none is configured.
pub const DEFAULT_SIDECAR_PORT: u16 = 8756;

/// The sidecar port for the configured value `configured` (the
/// `SIDECAR_PORT` setting, `None` when unset): the value when it parses as
/// a port number, and the default port otherwise.
pub open spec fn sidecar_port_spec(configured: Option<Seq<char>>) -> u16 {
    match configured {
        Some(s) => match parse_u16_spec(s) {
            Some(p) => p,
            None => DEFAULT_SIDECAR_PORT,
        },
        None => DEFAULT_SIDECAR_PORT,
    }
}

/// Chooses the sidecar port from the configured value, falling back to the default.
pub fn sidecar_port(configured: Option<&str>) -> (p: u16)
    ensures
        p == sidecar_port_spec(
            match configured {
                Some(s) => Some(s@),
                None => None,
            },
        ),
{
    match configured {
        Some(s) => match parse_u16(s) {
            Some(p) => p,
            None => DEFAULT_SIDECAR_PORT,
        },
        None => DEFAULT_SIDECAR_PORT,
    }
}

} // verus!
