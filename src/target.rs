//! The tunnel's destination, as a connector reads it from a target address.

use vstd::prelude::*;
use crate::error::HandshakeError;

verus! {

/// The host and port to ask the proxy for; `InvalidTarget` when the target
/// lacks either, so that no proxy is dialled for it.
pub fn tunnel_target<'a>(host: Option<&'a str>, port: Option<u16>) -> (r: Result<
    (&'a str, u16),
    HandshakeError,
>)
    ensures
        r == match (host, port) {
            (Some(h), Some(p)) => Ok::<(&'a str, u16), HandshakeError>((h, p)),
            _ => Err(HandshakeError::InvalidTarget),
        },
{
    match (host, port) {
        (Some(h), Some(p)) => Ok((h, p)),
        _ => Err(HandshakeError::InvalidTarget),
    }
}

} // verus!
