use ping::{
    classify_destination, count_args, decimal_text, error_line, ipv6_notice, not_known_line,
    reply_line, timeout_line, usage_line, Destination, ProbeLoop, ReceiveEvent, Resolution, TTL,
};

fn literal(token: &str) -> Destination {
    match classify_destination(&token.to_string()) {
        Resolution::Literal(d) => d,
        _ => panic!("not a literal"),
    }
}

fn reply_frame() -> Vec<u8> {
    let mut f = vec![0u8, 0, 0, 0, 0, 1, 0, 1];
    f.extend_from_slice(b"abcdefghijklmnopqrstuvwxyz");
    f
}

#[test]
fn decimal_rendering() {
    assert_eq!(decimal_text(0), "0");
    assert_eq!(decimal_text(7), "7");
    assert_eq!(decimal_text(10), "10");
    assert_eq!(decimal_text(65535), "65535");
    assert_eq!(decimal_text(u64::MAX), "18446744073709551615");
}

#[test]
fn loopback_run_prints_header_once_then_replies() {
    let mut p = ProbeLoop::new(literal("127.0.0.1"), 4242);
    let first = p.next_request();
    assert_eq!(first.header.as_deref(), Some("PING 127.0.0.1 (127.0.0.1) 26(34) bytes of data"));
    assert_eq!(first.sequence, 1);
    assert_eq!(first.ttl, 64);
    assert_eq!(first.frame.len(), 34);
    let ev = ReceiveEvent::Frame { bytes: reply_frame(), source: "127.0.0.1".to_string() };
    assert_eq!(p.report(&ev).as_deref(), Some("34 bytes from 127.0.0.1: icmp_seq=1 ttl=64 "));
    for k in 2u16..=5 {
        let out = p.next_request();
        assert!(out.header.is_none());
        assert_eq!(out.sequence, k);
        let line = p.report(&ev).unwrap();
        assert_eq!(line, format!("34 bytes from 127.0.0.1: icmp_seq={} ttl=64 ", k));
    }
}

#[test]
fn hostname_header_shows_name_and_address() {
    let d = Destination {
        target: "example.org".to_string(),
        address: "93.184.216.34".to_string(),
        is_hostname: true,
    };
    let mut p = ProbeLoop::new(d, 1);
    let out = p.next_request();
    assert_eq!(out.header.as_deref(), Some("PING example.org (93.184.216.34) 26(34) bytes of data"));
}

#[test]
fn sequence_counts_requests_despite_timeouts() {
    let mut p = ProbeLoop::new(literal("10.0.0.1"), 0);
    let mut seen = Vec::new();
    for i in 0..10u16 {
        let out = p.next_request();
        seen.push(out.sequence);
        let ev = if i % 3 == 0 {
            ReceiveEvent::Timeout
        } else if i % 3 == 1 {
            ReceiveEvent::Failure { message: "boom".to_string() }
        } else {
            ReceiveEvent::Frame { bytes: vec![3, 1, 0, 0], source: "10.0.0.1".to_string() }
        };
        p.report(&ev);
    }
    assert_eq!(seen, (1..=10).collect::<Vec<u16>>());
}

#[test]
fn sequence_wraps_after_65535() {
    let mut p = ProbeLoop::new(literal("10.0.0.1"), 0);
    for _ in 0..65535 {
        p.next_request();
    }
    assert_eq!(p.sequence, 65535);
    assert_eq!(p.next_request().sequence, 0);
    assert_eq!(p.next_request().sequence, 1);
}

#[test]
fn report_lines() {
    let mut p = ProbeLoop::new(literal("10.0.0.1"), 0);
    p.next_request();
    assert_eq!(p.report(&ReceiveEvent::Timeout).as_deref(), Some("Request timed out."));
    let failure = ReceiveEvent::Failure { message: "Network is unreachable".to_string() };
    assert_eq!(p.report(&failure).as_deref(), Some("Error: Network is unreachable"));
    let unreachable = ReceiveEvent::Frame { bytes: vec![3, 1, 0, 0, 0, 0, 0, 0], source: "10.0.0.1".to_string() };
    assert_eq!(p.report(&unreachable), None);
    assert_eq!(TTL, 64);
}

#[test]
fn message_lines() {
    assert_eq!(usage_line("ping"), "ping: usage error: Destination address required");
    assert_eq!(ipv6_notice("ping"), "ping: Ipv6 isn't supported at this moment.");
    assert_eq!(not_known_line("ping", "nohost"), "ping: nohost: Name or service not known.");
    assert_eq!(timeout_line(), "Request timed out.");
    assert_eq!(error_line("x"), "Error: x");
    assert_eq!(reply_line(64, "1.2.3.4", 300, 64), "64 bytes from 1.2.3.4: icmp_seq=300 ttl=64 ");
}

#[test]
fn empty_destination_is_a_usage_error() {
    let args = vec!["ping".to_string(), "".to_string()];
    assert_eq!(count_args(&args), 1);
    assert_eq!(usage_line(&args[0]), "ping: usage error: Destination address required");
}
