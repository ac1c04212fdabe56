//! A small ICMP echo ("ping") library: destination resolution, echo request
//! construction and reply classification, and the per-probe decisions of the
//! probe loop. Sockets, DNS lookups and timing are left to the caller.

pub mod address;
pub mod packet;
pub mod parser;
pub mod probe;
pub mod text;

pub use address::{
    check_ipv6, classify_destination, finish_lookup, resolve_domain, Destination, Resolution,
    ResolveError,
};
pub use packet::{build_echo_request, classify_reply, ReplyInfo};
pub use parser::count_args;
pub use probe::{echo_payload, Outgoing, ProbeLoop, ReceiveEvent, PAYLOAD_LEN, TTL};
pub use text::{
    decimal_text, error_line, header_line, ipv6_notice, not_known_line, reply_line, timeout_line,
    usage_line,
};
