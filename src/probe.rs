//! The decisions of the probe loop. The caller owns the socket and the clock:
//! it asks for the next request, sends it, waits up to a second, and hands
//! back what happened; the loop state says what to print.

use vstd::prelude::*;

use crate::address::Destination;
use crate::packet::{build_echo_request, classify_reply, echo_request, is_echo_reply, HEADER_LEN};
use crate::text::{
    error_line, header_line, header_text, reply_line, reply_text, timeout_line,
};

verus! {

/// Time-to-live set on every outgoing request.
pub const TTL: u8 = 64;

/// Number of payload bytes in each request.
pub const PAYLOAD_LEN: usize = 26;

/// The payload of every request: the lowercase alphabet.
pub open spec fn echo_payload_spec() -> Seq<u8> {
    Seq::new(PAYLOAD_LEN as nat, |i: int| (97 + i) as u8)
}

/// Builds the payload of every request.
pub fn echo_payload() -> (r: Vec<u8>)
    ensures
        r@ == echo_payload_spec(),
{
    let mut v: Vec<u8> = Vec::new();
    let mut i: usize = 0;
    while i < PAYLOAD_LEN
        invariant
            i <= PAYLOAD_LEN,
            v@ == echo_payload_spec().subrange(0, i as int),
        decreases PAYLOAD_LEN - i,
    {
        v.push((97 + i) as u8);
        i += 1;
        assert(v@ =~= echo_payload_spec().subrange(0, i as int));
    }
    assert(v@ =~= echo_payload_spec());
    v
}

/// The sequence number after `s`: one more, wrapping from 65535 to 0.
pub open spec fn next_sequence(s: u16) -> u16 {
    if s == u16::MAX { 0 } else { (s + 1) as u16 }
}

/// The sequence number carried by the `n`-th request of a run (0 before any).
pub open spec fn sequence_after(n: nat) -> u16
    decreases n,
{
    if n == 0 { 0 } else { next_sequence(sequence_after((n - 1) as nat)) }
}

/// What happened while waiting for a reply.
pub enum ReceiveEvent {
    /// Nothing arrived within the wait.
    Timeout,
    /// A frame arrived from `source`.
    Frame { bytes: Vec<u8>, source: String },
    /// The transport reported an error.
    Failure { message: String },
}

/// A request to send, with its sequence number and TTL, and the header line
/// to print before it on the first probe.
pub struct Outgoing {
    pub frame: Vec<u8>,
    pub sequence: u16,
    pub ttl: u8,
    pub header: Option<String>,
}

/// State of a run: where to probe, the identifier of this process, the last
/// sequence number sent, and whether the header has been printed.
pub struct ProbeLoop {
    pub destination: Destination,
    pub identifier: u16,
    pub sequence: u16,
    pub header_shown: bool,
}

impl ProbeLoop {
    /// A run that has sent nothing yet.
    pub fn new(destination: Destination, identifier: u16) -> (r: ProbeLoop)
        ensures
            r.destination == destination,
            r.identifier == identifier,
            r.sequence == 0,
            !r.header_shown,
    {
        ProbeLoop { destination, identifier, sequence: 0, header_shown: false }
    }

    /// Advances the sequence number and builds the next request. On the first
    /// call only, the header line comes with it.
    pub fn next_request(&mut self) -> (r: Outgoing)
        ensures
            final(self).destination == old(self).destination,
            final(self).identifier == old(self).identifier,
            final(self).sequence == next_sequence(old(self).sequence),
            final(self).header_shown,
            r.sequence == final(self).sequence,
            r.ttl == TTL,
            r.frame@ == echo_request(old(self).identifier, r.sequence, echo_payload_spec()),
            old(self).header_shown ==> r.header is None,
            !old(self).header_shown ==> (r.header matches Some(h) && h@ == header_text(
                old(self).destination.display(),
                old(self).destination.address@,
                PAYLOAD_LEN as nat,
                (PAYLOAD_LEN + HEADER_LEN) as nat,
            )),
    {
        self.sequence = if self.sequence == u16::MAX { 0 } else { self.sequence + 1 };
        let payload = echo_payload();
        let frame = build_echo_request(self.identifier, self.sequence, payload.as_slice());
        let header = if self.header_shown {
            None
        } else {
            Some(header_line(&self.destination, PAYLOAD_LEN as u64, (PAYLOAD_LEN + HEADER_LEN) as u64))
        };
        self.header_shown = true;
        Outgoing { frame, sequence: self.sequence, ttl: TTL, header }
    }

    /// The line to print for what happened after the last request: a timeout
    /// or a transport error is always reported; an arrived frame is reported
    /// with the locally tracked sequence number and TTL when it is an Echo
    /// Reply, and silently dropped otherwise. The state is left as it is.
    pub fn report(&self, event: &ReceiveEvent) -> (r: Option<String>)
        ensures
            event is Timeout ==> (r matches Some(l) && l@ == "Request timed out."@),
            event matches ReceiveEvent::Failure { message } ==> (r matches Some(l) && l@ == "Error: "@ + message@),
            event matches ReceiveEvent::Frame { bytes, source } ==> ({
                &&& r is Some <==> is_echo_reply(bytes@)
                &&& r matches Some(l) ==> l@ == reply_text(bytes@.len(), source@, self.sequence as nat, TTL as nat)
            }),
    {
        match event {
            ReceiveEvent::Timeout => Some(timeout_line()),
            ReceiveEvent::Failure { message } => Some(error_line(message.as_str())),
            ReceiveEvent::Frame { bytes, source } => {
                match classify_reply(bytes.as_slice(), source) {
                    Some(info) => Some(reply_line(info.length as u64, info.source.as_str(), self.sequence, TTL)),
                    None => None,
                }
            },
        }
    }
}

/// Sequence numbers count the requests of a run, whatever was received in
/// between: the `n`-th request carries `n` modulo 65536, so the first 65535
/// requests carry exactly 1, 2, ..., n.
pub proof fn lemma_sequence_numbers(n: nat)
    ensures
        sequence_after(n) == n % 65536,
        n < 65536 ==> sequence_after(n) == n,
    decreases n,
{
    if n > 0 {
        lemma_sequence_numbers((n - 1) as nat);
    }
}

} // verus!
