//! Turning the user's destination token into an IPv4 destination.

use vstd::prelude::*;

verus! {

/// `c` is an ASCII decimal digit.
pub open spec fn is_digit(c: char) -> bool {
    '0' <= c && c <= '9'
}

/// The value of a sequence of decimal digits.
pub open spec fn digits_value(p: Seq<char>) -> nat
    decreases p.len(),
{
    if p.len() == 0 {
        0
    } else {
        digits_value(p.drop_last()) * 10 + (p.last() as nat - '0' as nat) as nat
    }
}

/// One octet of a dotted quad: one to three digits, no leading zero, at most 255.
pub open spec fn is_octet_text(p: Seq<char>) -> bool {
    &&& 1 <= p.len() <= 3
    &&& forall|i: int| 0 <= i < p.len() ==> is_digit(#[trigger] p[i])
    &&& (p.len() > 1 ==> p[0] != '0')
    &&& digits_value(p) <= 255
}

/// `s` is a strict dotted-quad IPv4 address such as `127.0.0.1`.
pub open spec fn is_dotted_quad(s: Seq<char>) -> bool {
    exists|a: Seq<char>, b: Seq<char>, c: Seq<char>, d: Seq<char>|
        #![trigger is_octet_text(a), is_octet_text(b), is_octet_text(c), is_octet_text(d)]
        s == a + seq!['.'] + b + seq!['.'] + c + seq!['.'] + d
            && is_octet_text(a) && is_octet_text(b) && is_octet_text(c) && is_octet_text(d)
}

/// What `iptools::ipv6::validate_ip` decides of a token: whether it is an IPv6
/// address literal in any of the textual forms that crate accepts.
pub uninterp spec fn ipv6_literal(s: Seq<char>) -> bool;

/// Relies on iptools::ipv4::validate_ip, which accepts exactly the strict
/// dotted quads: four decimal octets of one to three digits, each at most 255,
/// without leading zeros, separated by dots, and nothing else.
#[verifier::external_body]
fn valid_ipv4(s: &str) -> (r: bool)
    ensures
        r == is_dotted_quad(s@),
{
    iptools::ipv4::validate_ip(s)
}

/// Relies on iptools::ipv6::validate_ip: whether the token is an IPv6 literal.
#[verifier::external_body]
fn valid_ipv6(s: &str) -> (r: bool)
    ensures
        r == ipv6_literal(s@),
{
    iptools::ipv6::validate_ip(s)
}

/// The destination of a run: the token the user gave, the IPv4 address to
/// probe in dotted-quad text, and whether the token was a hostname.
pub struct Destination {
    pub target: String,
    pub address: String,
    pub is_hostname: bool,
}

impl Destination {
    /// The text shown for the destination: the hostname when one was
    /// resolved, the address otherwise.
    pub open spec fn display(&self) -> Seq<char> {
        if self.is_hostname { self.target@ } else { self.address@ }
    }
}

/// Why a token gives no destination.
#[derive(Clone, Copy, Debug, PartialEq, Eq, Structural)]
pub enum ResolveError {
    /// The token is an IPv6 literal, which this tool does not probe.
    Ipv6Unsupported,
    /// The token is no IP literal and gives no IPv4 address when looked up.
    NameNotKnown,
}

/// The first step of resolving a token.
pub enum Resolution {
    /// The token is an IPv4 literal and is the destination as it stands.
    Literal(Destination),
    /// The token is an IPv6 literal: the run stops here.
    Unsupported,
    /// The token has to be looked up as a hostname.
    Lookup,
}

/// Sorts a token by its literal form: `None` for an IPv4 literal,
/// `Ipv6Unsupported` for an IPv6 literal, `NameNotKnown` for anything else.
pub fn check_ipv6(ip: &String) -> (r: Option<ResolveError>)
    ensures
        r is None <==> is_dotted_quad(ip@),
        r == Some(ResolveError::Ipv6Unsupported) <==> !is_dotted_quad(ip@) && ipv6_literal(ip@),
        r == Some(ResolveError::NameNotKnown) <==> !is_dotted_quad(ip@) && !ipv6_literal(ip@),
{
    if valid_ipv4(ip.as_str()) {
        None
    } else if valid_ipv6(ip.as_str()) {
        Some(ResolveError::Ipv6Unsupported)
    } else {
        Some(ResolveError::NameNotKnown)
    }
}

/// First step of resolution: an IPv4 literal is the destination unchanged
/// and not a hostname; an IPv6 literal is unsupported; anything else needs
/// a lookup.
pub fn classify_destination(token: &String) -> (r: Resolution)
    ensures
        is_dotted_quad(token@) ==> (r matches Resolution::Literal(d) && d.target@ == token@
            && d.address@ == token@ && !d.is_hostname),
        !is_dotted_quad(token@) && ipv6_literal(token@) ==> r is Unsupported,
        !is_dotted_quad(token@) && !ipv6_literal(token@) ==> r is Lookup,
{
    match check_ipv6(token) {
        None => Resolution::Literal(
            Destination { target: token.clone(), address: token.clone(), is_hostname: false },
        ),
        Some(ResolveError::Ipv6Unsupported) => Resolution::Unsupported,
        Some(ResolveError::NameNotKnown) => Resolution::Lookup,
    }
}

/// The index at which the host part of `s` ends, searching from `i`: the
/// first `:` at or after `i`, or the end of `s`.
pub open spec fn host_end(s: Seq<char>, i: int) -> int
    decreases s.len() - i,
{
    if i < 0 || i >= s.len() {
        s.len() as int
    } else if s[i] == ':' {
        i
    } else {
        host_end(s, i + 1)
    }
}

/// A socket address's text without its port: everything before the first `:`.
pub open spec fn host_part(s: Seq<char>) -> Seq<char> {
    s.subrange(0, host_end(s, 0))
}

/// The host part of the first looked-up address whose host part is an IPv4
/// literal, if any.
pub open spec fn first_ipv4(addrs: Seq<Seq<char>>) -> Option<Seq<char>>
    decreases addrs.len(),
{
    if addrs.len() == 0 {
        None
    } else if is_dotted_quad(host_part(addrs[0])) {
        Some(host_part(addrs[0]))
    } else {
        first_ipv4(addrs.drop_first())
    }
}

proof fn lemma_host_end_bounds(s: Seq<char>, i: int)
    requires
        0 <= i <= s.len(),
    ensures
        i <= host_end(s, i) <= s.len(),
    decreases s.len() - i,
{
    if i < s.len() && s[i] != ':' {
        lemma_host_end_bounds(s, i + 1);
    }
}

fn strip_port(s: &String) -> (r: String)
    ensures
        r@ == host_part(s@),
{
    let t = s.as_str();
    let n = t.unicode_len();
    let mut i: usize = 0;
    while i < n && t.get_char(i) != ':'
        invariant
            n == t@.len(),
            t@ == s@,
            0 <= i <= n,
            host_end(s@, 0) == host_end(s@, i as int),
        decreases n - i,
    {
        i += 1;
    }
    proof { lemma_host_end_bounds(s@, i as int); }
    String::from_str(t.substring_char(0, i))
}

/// Picks the destination address out of a lookup's results: the first
/// address, in the order given, whose text before the port is an IPv4 literal.
pub fn resolve_domain(addrs: &Vec<String>) -> (r: Option<String>)
    ensures
        r matches Some(a) ==> first_ipv4(addrs.deep_view()) == Some(a@),
        r is None ==> first_ipv4(addrs.deep_view()) is None,
{
    let ghost all = addrs.deep_view();
    let mut i: usize = 0;
    assert(all.subrange(0, all.len() as int) =~= all);
    while i < addrs.len()
        invariant
            i <= addrs@.len(),
            all == addrs.deep_view(),
            first_ipv4(all) == first_ipv4(all.subrange(i as int, all.len() as int)),
        decreases addrs@.len() - i,
    {
        let h = strip_port(&addrs[i]);
        let ghost rest = all.subrange(i as int, all.len() as int);
        assert(rest[0] == addrs@[i as int]@);
        if valid_ipv4(h.as_str()) {
            return Some(h);
        }
        assert(rest.drop_first() =~= all.subrange(i + 1, all.len() as int));
        i += 1;
    }
    None
}

/// Second step of resolution, for a token looked up as a hostname: the
/// destination is the first IPv4 address among the results, shown under
/// the token; without one the name is not known.
pub fn finish_lookup(token: &String, addrs: &Vec<String>) -> (r: Result<Destination, ResolveError>)
    ensures
        match first_ipv4(addrs.deep_view()) {
            Some(a) => r matches Ok(d) && d.address@ == a && d.target@ == token@ && d.is_hostname,
            None => r == Err::<Destination, ResolveError>(ResolveError::NameNotKnown),
        },
{
    match resolve_domain(addrs) {
        Some(a) => Ok(Destination { target: token.clone(), address: a, is_hostname: true }),
        None => Err(ResolveError::NameNotKnown),
    }
}

} // verus!
