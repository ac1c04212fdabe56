//! ICMP echo frames: building an Echo Request and classifying what comes back.

use vstd::prelude::*;

verus! {

/// ICMP type of an Echo Request.
pub const ECHO_REQUEST: u8 = 8;

/// ICMP type of an Echo Reply.
pub const ECHO_REPLY: u8 = 0;

/// Length of the ICMP echo header: type, code, checksum, identifier, sequence.
pub const HEADER_LEN: usize = 8;

/// Largest frame this library builds or checksums.
pub const MAX_FRAME_LEN: usize = 65535;

/// What `pnet::util::checksum(data, skipword)` returns: the Internet checksum
/// of `data` with the 16-bit word at index `skipword` counted as zero.
pub uninterp spec fn checksum_of(data: Seq<u8>, skipword: usize) -> u16;

/// Relies on pnet::util::checksum (pnet_packet::util::checksum): the one's
/// complement of the folded one's-complement sum of the big-endian words of
/// `data`, skipping word `skipword`. It returns 0 on empty data. Its running
/// sum is a `u32`, which cannot overflow for data of this length.
#[verifier::external_body]
fn internet_checksum(data: &[u8], skipword: usize) -> (r: u16)
    requires
        data@.len() <= MAX_FRAME_LEN,
    ensures
        r == checksum_of(data@, skipword),
        data@.len() == 0 ==> r == 0,
{
    pnet::util::checksum(data, skipword)
}

/// The high byte of a 16-bit value, as sent on the wire first.
pub open spec fn hi(v: u16) -> u8 {
    (v / 256) as u8
}

/// The low byte of a 16-bit value.
pub open spec fn lo(v: u16) -> u8 {
    (v % 256) as u8
}

/// The big-endian 16-bit value held at bytes `i` and `i + 1` of `f`.
pub open spec fn word_at(f: Seq<u8>, i: int) -> u16 {
    (f[i] as int * 256 + f[i + 1] as int) as u16
}

/// An Echo Request frame whose checksum field is still zero.
pub open spec fn unchecked_request(identifier: u16, sequence: u16, payload: Seq<u8>) -> Seq<u8> {
    seq![ECHO_REQUEST, 0u8, 0u8, 0u8, hi(identifier), lo(identifier), hi(sequence), lo(sequence)]
        + payload
}

/// `f` with its checksum field (bytes 2 and 3) set to zero.
pub open spec fn zero_checksum(f: Seq<u8>) -> Seq<u8> {
    f.update(2, 0u8).update(3, 0u8)
}

/// The Echo Request frame for `identifier`, `sequence` and `payload`: the
/// header and payload, with the checksum computed over the whole frame while
/// its checksum field is zero, then written into that field.
pub open spec fn echo_request(identifier: u16, sequence: u16, payload: Seq<u8>) -> Seq<u8> {
    let f = unchecked_request(identifier, sequence, payload);
    let c = checksum_of(f, 1);
    f.update(2, hi(c)).update(3, lo(c))
}

/// A frame is an Echo Reply when it holds at least the type, code and
/// checksum fields, and its type and code are both zero.
pub open spec fn is_echo_reply(f: Seq<u8>) -> bool {
    f.len() >= 4 && f[0] == ECHO_REPLY && f[1] == 0
}

/// Builds the Echo Request frame for `identifier`, `sequence` and `payload`,
/// with its checksum computed and in place.
pub fn build_echo_request(identifier: u16, sequence: u16, payload: &[u8]) -> (r: Vec<u8>)
    requires
        payload@.len() + HEADER_LEN <= MAX_FRAME_LEN,
    ensures
        r@ == echo_request(identifier, sequence, payload@),
        r@.len() == payload@.len() + HEADER_LEN,
{
    let mut f: Vec<u8> = Vec::new();
    f.push(ECHO_REQUEST);
    f.push(0);
    f.push(0);
    f.push(0);
    f.push((identifier / 256) as u8);
    f.push((identifier % 256) as u8);
    f.push((sequence / 256) as u8);
    f.push((sequence % 256) as u8);
    let mut i: usize = 0;
    while i < payload.len()
        invariant
            i <= payload@.len(),
            f@ == unchecked_request(identifier, sequence, payload@.subrange(0, i as int)),
        decreases payload@.len() - i,
    {
        f.push(payload[i]);
        i += 1;
        assert(payload@.subrange(0, i as int) == payload@.subrange(0, i - 1).push(payload@[i - 1]));
    }
    assert(payload@.subrange(0, payload@.len() as int) == payload@);
    let c = internet_checksum(f.as_slice(), 1);
    f.set(2, (c / 256) as u8);
    f.set(3, (c % 256) as u8);
    f
}

/// The checksum written into a built frame is the checksum of that frame with
/// its checksum field zeroed: clearing the field and computing again gives
/// back the value the frame carries.
pub proof fn lemma_checksum_round_trip(identifier: u16, sequence: u16, payload: Seq<u8>)
    ensures
        ({
            let f = echo_request(identifier, sequence, payload);
            checksum_of(zero_checksum(f), 1) == word_at(f, 2)
        }),
{
    let u = unchecked_request(identifier, sequence, payload);
    let f = echo_request(identifier, sequence, payload);
    let c = checksum_of(u, 1);
    assert(zero_checksum(f) =~= u);
    assert(word_at(f, 2) == c) by {
        assert(f[2] == hi(c) && f[3] == lo(c));
    }
}

/// A request this library builds is never taken for a reply: its own type
/// (8) differs from an Echo Reply's, so an echoed-back request is dropped.
pub proof fn lemma_request_is_not_reply(identifier: u16, sequence: u16, payload: Seq<u8>)
    ensures
        !is_echo_reply(echo_request(identifier, sequence, payload)),
{
    let f = echo_request(identifier, sequence, payload);
    assert(f[0] == unchecked_request(identifier, sequence, payload)[0]);
}

/// What is reported of an Echo Reply: its length and where it came from.
pub struct ReplyInfo {
    pub length: usize,
    pub source: String,
}

/// Classifies a received frame from `source`: `Some` exactly when it is an
/// Echo Reply (type 0, code 0). Any other frame is dropped without error.
pub fn classify_reply(frame: &[u8], source: &String) -> (r: Option<ReplyInfo>)
    ensures
        r is Some <==> is_echo_reply(frame@),
        r matches Some(info) ==> info.length == frame@.len() && info.source@ == source@,
{
    if frame.len() >= 4 && frame[0] == ECHO_REPLY && frame[1] == 0 {
        Some(ReplyInfo { length: frame.len(), source: source.clone() })
    } else {
        None
    }
}

} // verus!
