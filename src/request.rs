//! The `CONNECT` request line.

use vstd::prelude::*;
use vstd::string::StringSliceAdditionalSpecFns;

verus! {

/// ASCII code of the digit `0`.
pub const DIGIT_ZERO: u8 = 48;

/// Decimal digits of `n`, most significant first, without leading zeros.
pub open spec fn decimal(n: nat) -> Seq<u8>
    decreases n,
{
    if n < 10 {
        seq![(DIGIT_ZERO + n) as u8]
    } else {
        decimal(n / 10).push((DIGIT_ZERO + n % 10) as u8)
    }
}

/// ASCII code of the colon between host and port.
pub const COLON: u8 = 58;

/// The ASCII bytes `CONNECT ` that open the request line.
pub open spec fn request_head() -> Seq<u8> {
    seq![67u8, 79, 78, 78, 69, 67, 84, 32]
}

/// The ASCII bytes ` HTTP/1.1\r\n\r\n` that close the request.
pub open spec fn request_tail() -> Seq<u8> {
    seq![32u8, 72, 84, 84, 80, 47, 49, 46, 49, 13, 10, 13, 10]
}

/// The whole request: `CONNECT <host>:<port> HTTP/1.1\r\n\r\n`, with `host`
/// as its UTF-8 bytes and `port` in decimal.
pub open spec fn connect_request_bytes(host: Seq<u8>, port: u16) -> Seq<u8> {
    request_head() + host + seq![COLON] + decimal(port as nat) + request_tail()
}

/// Appends every byte of `bytes` to `out`, in order.
pub fn push_bytes(out: &mut Vec<u8>, bytes: &[u8])
    ensures
        final(out)@ == old(out)@ + bytes@,
{
    let mut i: usize = 0;
    while i < bytes.len()
        invariant
            i <= bytes@.len(),
            out@ == old(out)@ + bytes@.subrange(0, i as int),
        decreases bytes@.len() - i,
    {
        out.push(bytes[i]);
        i = i + 1;
        assert(out@ =~= old(out)@ + bytes@.subrange(0, i as int));
    }
    assert(bytes@.subrange(0, i as int) =~= bytes@);
}

/// Builds the request that asks the proxy for a tunnel to `host:port`.
pub fn connect_request(host: &str, port: u16) -> (r: Vec<u8>)
    ensures
        r@ == connect_request_bytes(host.spec_bytes(), port),
{
    let head: [u8; 8] = [67, 79, 78, 78, 69, 67, 84, 32];
    let tail: [u8; 13] = [32, 72, 84, 84, 80, 47, 49, 46, 49, 13, 10, 13, 10];
    let mut out: Vec<u8> = Vec::new();
    push_bytes(&mut out, &head);
    push_bytes(&mut out, host.as_bytes());
    out.push(COLON);
    push_decimal(&mut out, port);
    push_bytes(&mut out, &tail);
    assert(head@ =~= request_head());
    assert(tail@ =~= request_tail());
    assert(out@ =~= connect_request_bytes(host.spec_bytes(), port));
    out
}

/// Appends the decimal digits of `n` to `out`.
pub fn push_decimal(out: &mut Vec<u8>, n: u16)
    ensures
        final(out)@ == old(out)@ + decimal(n as nat),
    decreases n,
{
    if n >= 10 {
        push_decimal(out, n / 10);
    }
    out.push(DIGIT_ZERO + (n % 10) as u8);
    assert(final(out)@ =~= old(out)@ + decimal(n as nat));
}

} // verus!
