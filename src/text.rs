//! Decimal rendering of integers and the lines the tool prints.

use vstd::prelude::*;

use crate::address::Destination;

verus! {

/// The ASCII character of a decimal digit.
pub open spec fn digit_char(d: nat) -> char {
    if d == 0 { '0' }
    else if d == 1 { '1' }
    else if d == 2 { '2' }
    else if d == 3 { '3' }
    else if d == 4 { '4' }
    else if d == 5 { '5' }
    else if d == 6 { '6' }
    else if d == 7 { '7' }
    else if d == 8 { '8' }
    else { '9' }
}

/// The decimal representation of `n`, without leading zeros.
pub open spec fn decimal(n: nat) -> Seq<char>
    decreases n,
{
    if n < 10 {
        seq![digit_char(n)]
    } else {
        decimal(n / 10).push(digit_char(n % 10))
    }
}

fn digit_str(d: u64) -> (r: &'static str)
    requires
        d < 10,
    ensures
        r@ == seq![digit_char(d as nat)],
{
    if d == 0 {
        proof { reveal_strlit("0"); }
        "0"
    } else if d == 1 {
        proof { reveal_strlit("1"); }
        "1"
    } else if d == 2 {
        proof { reveal_strlit("2"); }
        "2"
    } else if d == 3 {
        proof { reveal_strlit("3"); }
        "3"
    } else if d == 4 {
        proof { reveal_strlit("4"); }
        "4"
    } else if d == 5 {
        proof { reveal_strlit("5"); }
        "5"
    } else if d == 6 {
        proof { reveal_strlit("6"); }
        "6"
    } else if d == 7 {
        proof { reveal_strlit("7"); }
        "7"
    } else if d == 8 {
        proof { reveal_strlit("8"); }
        "8"
    } else {
        proof { reveal_strlit("9"); }
        "9"
    }
}

/// Renders `n` in decimal.
pub fn decimal_text(n: u64) -> (r: String)
    ensures
        r@ == decimal(n as nat),
    decreases n,
{
    if n < 10 {
        String::from_str(digit_str(n))
    } else {
        let mut s = decimal_text(n / 10);
        s.append(digit_str(n % 10));
        s
    }
}

/// The header printed before the first probe.
pub open spec fn header_text(shown: Seq<char>, address: Seq<char>, payload_size: nat, packet_size: nat) -> Seq<char> {
    "PING "@ + shown + " ("@ + address + ") "@ + decimal(payload_size) + "("@ + decimal(packet_size)
        + ") bytes of data"@
}

/// The line reporting one Echo Reply.
pub open spec fn reply_text(length: nat, source: Seq<char>, sequence: nat, ttl: nat) -> Seq<char> {
    decimal(length) + " bytes from "@ + source + ": icmp_seq="@ + decimal(sequence) + " ttl="@
        + decimal(ttl) + " "@
}

/// `<program>: usage error: Destination address required`
pub fn usage_line(program: &str) -> (r: String)
    ensures
        r@ == program@ + ": usage error: Destination address required"@,
{
    let mut s = String::from_str(program);
    s.append(": usage error: Destination address required");
    s
}

/// `<program>: Ipv6 isn't supported at this moment.`
pub fn ipv6_notice(program: &str) -> (r: String)
    ensures
        r@ == program@ + ": Ipv6 isn't supported at this moment."@,
{
    let mut s = String::from_str(program);
    s.append(": Ipv6 isn't supported at this moment.");
    s
}

/// `<program>: <token>: Name or service not known.`
pub fn not_known_line(program: &str, token: &str) -> (r: String)
    ensures
        r@ == program@ + ": "@ + token@ + ": Name or service not known."@,
{
    let mut s = String::from_str(program);
    s.append(": ");
    s.append(token);
    s.append(": Name or service not known.");
    s
}

/// `PING <target> (<ip>) <payload-bytes>(<total-bytes>) bytes of data`, where
/// the target is the hostname when one was resolved, else the address.
pub fn header_line(dest: &Destination, payload_size: u64, packet_size: u64) -> (r: String)
    ensures
        r@ == header_text(dest.display(), dest.address@, payload_size as nat, packet_size as nat),
{
    let shown = if dest.is_hostname { dest.target.as_str() } else { dest.address.as_str() };
    let mut s = String::from_str("PING ");
    s.append(shown);
    s.append(" (");
    s.append(dest.address.as_str());
    s.append(") ");
    s.append(decimal_text(payload_size).as_str());
    s.append("(");
    s.append(decimal_text(packet_size).as_str());
    s.append(") bytes of data");
    s
}

/// `<n> bytes from <addr>: icmp_seq=<seq> ttl=<ttl> `
pub fn reply_line(length: u64, source: &str, sequence: u16, ttl: u8) -> (r: String)
    ensures
        r@ == reply_text(length as nat, source@, sequence as nat, ttl as nat),
{
    let mut s = decimal_text(length);
    s.append(" bytes from ");
    s.append(source);
    s.append(": icmp_seq=");
    s.append(decimal_text(sequence as u64).as_str());
    s.append(" ttl=");
    s.append(decimal_text(ttl as u64).as_str());
    s.append(" ");
    s
}

/// `Request timed out.`
pub fn timeout_line() -> (r: String)
    ensures
        r@ == "Request timed out."@,
{
    String::from_str("Request timed out.")
}

/// `Error: <message>`
pub fn error_line(message: &str) -> (r: String)
    ensures
        r@ == "Error: "@ + message@,
{
    let mut s = String::from_str("Error: ");
    s.append(message);
    s
}

} // verus!
