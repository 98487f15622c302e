//! What the proxy's reply parses to, as far as the handshake cares.

use vstd::prelude::*;

verus! {

/// The diagnostic that httparse gives for bytes that are no HTTP response.
#[verifier::external_type_specification]
#[verifier::external_body]
pub struct ExParseError(httparse::Error);

/// Room for this many headers is given to the parser; a reply with more is
/// malformed.
pub const MAX_HEADERS: usize = 16;

/// One parse of the bytes received so far.
pub enum ParseStatus {
    /// The bytes cannot start an HTTP response.
    Invalid(httparse::Error),
    /// The bytes are a correct start, but the header block has not ended yet.
    Partial,
    /// A whole header block: the status code and reason phrase it carried.
    Complete { code: Option<u16>, reason: Option<String> },
}

/// The mathematical value of a [`ParseStatus`].
pub enum ParseView {
    Invalid(httparse::Error),
    Partial,
    Complete { code: Option<u16>, reason: Option<Seq<char>> },
}

impl View for ParseStatus {
    type V = ParseView;

    open spec fn view(&self) -> ParseView {
        match self {
            ParseStatus::Invalid(e) => ParseView::Invalid(*e),
            ParseStatus::Partial => ParseView::Partial,
            ParseStatus::Complete { code, reason } => ParseView::Complete {
                code: *code,
                reason: match reason {
                    Some(s) => Some(s@),
                    None => None,
                },
            },
        }
    }
}

/// What httparse makes of `bytes` as the head of an HTTP response, given room
/// for `max_headers` headers.
pub uninterp spec fn parsed_response(bytes: Seq<u8>, max_headers: nat) -> ParseView;

/// Relies on `httparse::Response::parse`: its outcome, status code and reason
/// phrase depend on the bytes and the number of header slots alone.
#[verifier::external_body]
pub(crate) fn parse_response(bytes: &[u8], max_headers: usize) -> (r: ParseStatus)
    ensures
        r@ == parsed_response(bytes@, max_headers as nat),
{
    let mut headers = vec![httparse::EMPTY_HEADER; max_headers];
    let mut response = httparse::Response::new(&mut headers);
    match response.parse(bytes) {
        Ok(httparse::Status::Complete(_)) => ParseStatus::Complete {
            code: response.code,
            reason: response.reason.map(|s| s.to_string()),
        },
        Ok(httparse::Status::Partial) => ParseStatus::Partial,
        Err(e) => ParseStatus::Invalid(e),
    }
}

} // verus!
