//! How a handshake step ends, and why one fails.

use vstd::prelude::*;
use vstd::string::StringExecFns;
use crate::response::{ParseStatus, ParseView};

verus! {

/// Where a handshake stands after a step that did not fail.
#[derive(Debug, Clone, Copy, PartialEq, Eq, Structural)]
pub enum Progress {
    /// The header block is not complete yet: read more.
    Pending,
    /// The proxy answered `200`: the stream is now a tunnel.
    Established,
}

/// Why a tunnel could not be had.
#[derive(Debug, PartialEq, Eq)]
pub enum HandshakeError {
    /// The proxy closed the stream before its header block was complete.
    EarlyEof,
    /// The reply is no HTTP response; the parser's diagnostic where it gave
    /// one, none where the reply parsed but carried no status code.
    MalformedResponse(Option<httparse::Error>),
    /// The proxy answered with a status other than `200`.
    ProxyRejected { code: u16, reason: String },
    /// The target lacks a host or a port.
    InvalidTarget,
}

/// The mathematical value of a step's result.
pub enum Verdict {
    Pending,
    Established,
    EarlyEof,
    Malformed(Option<httparse::Error>),
    Rejected { code: u16, reason: Seq<char> },
    InvalidTarget,
}

/// The verdict that a step's result stands for.
pub open spec fn verdict_of(r: Result<Progress, HandshakeError>) -> Verdict {
    match r {
        Ok(Progress::Pending) => Verdict::Pending,
        Ok(Progress::Established) => Verdict::Established,
        Err(HandshakeError::EarlyEof) => Verdict::EarlyEof,
        Err(HandshakeError::MalformedResponse(d)) => Verdict::Malformed(d),
        Err(HandshakeError::ProxyRejected { code, reason }) => Verdict::Rejected {
            code,
            reason: reason@,
        },
        Err(HandshakeError::InvalidTarget) => Verdict::InvalidTarget,
    }
}

/// The reason recorded for a rejection whose status line had none.
pub open spec fn missing_reason() -> Seq<char> {
    "no reason"@
}

/// What a parse of the bytes received so far means for the handshake.
pub open spec fn judged(p: ParseView) -> Verdict {
    match p {
        ParseView::Invalid(e) => Verdict::Malformed(Some(e)),
        ParseView::Partial => Verdict::Pending,
        ParseView::Complete { code, reason } => match code {
            Some(c) => if c == 200 {
                Verdict::Established
            } else {
                Verdict::Rejected {
                    code: c,
                    reason: match reason {
                        Some(s) => s,
                        None => missing_reason(),
                    },
                }
            },
            None => Verdict::Malformed(None),
        },
    }
}

/// Decides the step from one parse of the bytes received so far: read more
/// while the header block is partial, succeed on status `200`, fail otherwise.
pub fn judge(parsed: ParseStatus) -> (r: Result<Progress, HandshakeError>)
    ensures
        verdict_of(r) == judged(parsed@),
{
    match parsed {
        ParseStatus::Invalid(e) => Err(HandshakeError::MalformedResponse(Some(e))),
        ParseStatus::Partial => Ok(Progress::Pending),
        ParseStatus::Complete { code, reason } => match code {
            Some(c) => if c == 200 {
                Ok(Progress::Established)
            } else {
                let reason = match reason {
                    Some(s) => s,
                    None => String::from_str("no reason"),
                };
                Err(HandshakeError::ProxyRejected { code: c, reason })
            },
            None => Err(HandshakeError::MalformedResponse(None)),
        },
    }
}

} // verus!
