//! The handshake as a state machine: the caller writes the request, then
//! hands over each read until a step decides.

use vstd::prelude::*;
use crate::error::{judge, judged, verdict_of, HandshakeError, Progress, Verdict};
use crate::request::push_bytes;
use crate::response::{parse_response, parsed_response, ParseStatus, ParseView, MAX_HEADERS};

verus! {

/// Room for the proxy's reply before the first growth.
pub const INITIAL_CAPACITY: usize = 64;

/// The bytes received so far, and the room that the next read may fill.
pub struct Handshake {
    received: Vec<u8>,
    capacity: usize,
}

/// The mathematical value of a [`Handshake`].
pub struct HandshakeView {
    pub received: Seq<u8>,
    pub capacity: nat,
}

impl View for Handshake {
    type V = HandshakeView;

    closed spec fn view(&self) -> HandshakeView {
        HandshakeView { received: self.received@, capacity: self.capacity as nat }
    }
}

/// What httparse makes of `bytes`, with the handshake's header slots.
pub open spec fn parse_of(bytes: Seq<u8>) -> ParseView {
    parsed_response(bytes, MAX_HEADERS as nat)
}

/// The state after a read that returned `data`. A read of nothing changes
/// nothing; otherwise the bytes are kept, and the room doubles when they fill
/// it without completing the header block.
pub open spec fn next_state(s: HandshakeView, data: Seq<u8>) -> HandshakeView {
    if data.len() == 0 {
        s
    } else {
        let received = s.received + data;
        HandshakeView {
            received,
            capacity: if parse_of(received) is Partial && received.len() >= s.capacity {
                2 * s.capacity
            } else {
                s.capacity
            },
        }
    }
}

/// The verdict of a read that returned `data`: a read of nothing means the
/// proxy closed the stream; otherwise all bytes so far are judged afresh.
pub open spec fn read_verdict(s: HandshakeView, data: Seq<u8>) -> Verdict {
    if data.len() == 0 {
        Verdict::EarlyEof
    } else {
        judged(parse_of(s.received + data))
    }
}

/// Hands the reads in `reads` to the handshake one by one, until one decides.
/// Gives the state reached and the last verdict.
pub open spec fn run(s: HandshakeView, reads: Seq<Seq<u8>>) -> (HandshakeView, Verdict)
    decreases reads.len(),
{
    if reads.len() == 0 {
        (s, Verdict::Pending)
    } else {
        let t = next_state(s, reads[0]);
        let v = read_verdict(s, reads[0]);
        if v is Pending {
            run(t, reads.drop_first())
        } else {
            (t, v)
        }
    }
}

/// Joining the first `k + 1` reads gives the first read followed by the
/// join of the next `k`.
proof fn lemma_join_first_reads(reads: Seq<Seq<u8>>, k: int)
    requires
        0 <= k < reads.len(),
    ensures
        reads.take(k + 1).flatten() == reads[0] + reads.drop_first().take(k).flatten(),
{
    assert(reads.take(k + 1).drop_first() =~= reads.drop_first().take(k));
    assert(reads.take(k + 1).first() == reads[0]);
}

/// How the reply is cut into reads does not matter: handing over non-empty
/// reads one by one ends in the verdict that one read of all their bytes
/// would give, as long as the bytes up to each earlier cut still parse as a
/// partial header block.
pub proof fn lemma_reads_may_split_anywhere(s: HandshakeView, reads: Seq<Seq<u8>>)
    requires
        reads.len() > 0,
        forall|i: int| 0 <= i < reads.len() ==> (#[trigger] reads[i]).len() > 0,
        forall|k: int|
            0 < k < reads.len() ==> parse_of(s.received + #[trigger] reads.take(k).flatten()) is Partial,
    ensures
        run(s, reads).1 == read_verdict(s, reads.flatten()),
    decreases reads.len(),
{
    let rest = reads.drop_first();
    let t = next_state(s, reads[0]);
    assert(reads.flatten() == reads[0] + rest.flatten());
    if reads.len() == 1 {
        assert(rest.flatten() =~= Seq::<u8>::empty());
        assert(reads.flatten() =~= reads[0]);
        assert(run(t, rest).1 is Pending);
    } else {
        lemma_join_first_reads(reads, 0);
        assert(reads.drop_first().take(0).flatten() =~= Seq::<u8>::empty());
        assert(reads.take(1).flatten() =~= reads[0]);
        assert(parse_of(s.received + reads.take(1).flatten()) is Partial);
        assert(read_verdict(s, reads[0]) is Pending);
        assert(t.received == s.received + reads[0]);
        assert forall|i: int| 0 <= i < rest.len() implies (#[trigger] rest[i]).len() > 0 by {
            assert(rest[i] == reads[i + 1]);
        }
        assert forall|k: int| 0 < k < rest.len() implies parse_of(
            t.received + #[trigger] rest.take(k).flatten(),
        ) is Partial by {
            lemma_join_first_reads(reads, k);
            assert(t.received + rest.take(k).flatten() =~= s.received + reads.take(k + 1).flatten());
        }
        assert(run(s, reads) == run(t, rest));
        lemma_reads_may_split_anywhere(t, rest);
        assert(rest.flatten().len() > 0) by {
            assert(rest[0].len() > 0);
            assert(rest.flatten() == rest[0] + rest.drop_first().flatten());
        }
        assert(t.received + rest.flatten() =~= s.received + reads.flatten());
    }
}

/// Growing the room never changes the outcome: two handshakes that hold the
/// same bytes reach the same verdict on the same reads, whatever room each
/// has, and keep holding the same bytes.
pub proof fn lemma_room_never_changes_verdict(s1: HandshakeView, s2: HandshakeView, reads: Seq<Seq<u8>>)
    requires
        s1.received == s2.received,
    ensures
        run(s1, reads).1 == run(s2, reads).1,
        run(s1, reads).0.received == run(s2, reads).0.received,
    decreases reads.len(),
{
    if reads.len() > 0 {
        lemma_room_never_changes_verdict(
            next_state(s1, reads[0]),
            next_state(s2, reads[0]),
            reads.drop_first(),
        );
    }
}

impl Handshake {
    /// The next read can take at least one byte. Every `Pending` step keeps
    /// this; a step that decides leaves the handshake finished.
    pub open spec fn well_formed(&self) -> bool {
        self@.received.len() < self@.capacity
    }

    /// A handshake that has received nothing yet.
    pub fn new() -> (r: Handshake)
        ensures
            r.well_formed(),
            r@ == (HandshakeView { received: Seq::empty(), capacity: INITIAL_CAPACITY as nat }),
    {
        Handshake { received: Vec::new(), capacity: INITIAL_CAPACITY }
    }

    /// How many bytes the next read may return.
    pub fn free_space(&self) -> (r: usize)
        requires
            self.well_formed(),
        ensures
            r == self@.capacity - self@.received.len(),
            r > 0,
    {
        self.capacity - self.received.len()
    }

    /// The room for the reply as it stands: bytes received plus free space.
    pub fn capacity(&self) -> (r: usize)
        ensures
            r == self@.capacity,
    {
        self.capacity
    }

    /// How many bytes of the reply have been received.
    pub fn received_len(&self) -> (r: usize)
        ensures
            r == self@.received.len(),
    {
        self.received.len()
    }

    /// Takes the bytes of one read, `data`, and decides the step. A read of
    /// nothing fails with `EarlyEof`. Otherwise all bytes received so far are
    /// parsed again: `Pending` while the header block is partial (doubling
    /// the room when it is full), `Established` on status `200`, a rejection
    /// on any other status, `MalformedResponse` when the bytes do not parse.
    pub fn receive(&mut self, data: &[u8]) -> (r: Result<Progress, HandshakeError>)
        requires
            old(self).well_formed(),
            data@.len() <= old(self)@.capacity - old(self)@.received.len(),
            old(self)@.capacity <= usize::MAX / 2,
        ensures
            r == Ok::<Progress, HandshakeError>(Progress::Pending) ==> final(self).well_formed(),
            final(self)@ == next_state(old(self)@, data@),
            verdict_of(r) == read_verdict(old(self)@, data@),
    {
        if data.len() == 0 {
            return Err(HandshakeError::EarlyEof);
        }
        push_bytes(&mut self.received, data);
        let parsed = parse_response(self.received.as_slice(), MAX_HEADERS);
        let partial = match parsed {
            ParseStatus::Partial => true,
            _ => false,
        };
        if partial && self.received.len() >= self.capacity {
            self.capacity = self.capacity * 2;
        }
        judge(parsed)
    }
}

} // verus!
