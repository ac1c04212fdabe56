use ping::{build_echo_request, classify_reply, echo_payload, PAYLOAD_LEN};

fn internet_sum(d: &[u8]) -> u16 {
    let mut s: u32 = 0;
    let mut i = 0;
    while i + 1 < d.len() {
        s += (d[i] as u32) << 8 | d[i + 1] as u32;
        i += 2;
    }
    if d.len() % 2 == 1 {
        s += (d[d.len() - 1] as u32) << 8;
    }
    while s >> 16 != 0 {
        s = (s >> 16) + (s & 0xffff);
    }
    !(s as u16)
}

#[test]
fn echo_request_layout_and_checksum() {
    let payload = echo_payload();
    assert_eq!(payload, b"abcdefghijklmnopqrstuvwxyz".to_vec());
    assert_eq!(PAYLOAD_LEN, 26);
    let f = build_echo_request(0x1234, 1, &payload);
    assert_eq!(f.len(), 34);
    assert_eq!(&f[0..2], &[8, 0]);
    assert_eq!(&f[4..8], &[0x12, 0x34, 0x00, 0x01]);
    assert_eq!(&f[8..], &payload[..]);
    assert_eq!(u16::from_be_bytes([f[2], f[3]]), 0x572f);
}

#[test]
fn empty_payload_checksum() {
    let f = build_echo_request(0, 0, &[]);
    assert_eq!(f, vec![8, 0, 0xf7, 0xff, 0, 0, 0, 0]);
}

#[test]
fn checksum_round_trip() {
    let payloads: Vec<Vec<u8>> = vec![vec![], vec![1], vec![0xff; 7], echo_payload(), (0..=255).collect()];
    for id in [0u16, 1, 0x1234, 0xffff] {
        for seq in [0u16, 1, 2, 300, 0xffff] {
            for p in &payloads {
                let f = build_echo_request(id, seq, p);
                let stored = u16::from_be_bytes([f[2], f[3]]);
                let mut z = f.clone();
                z[2] = 0;
                z[3] = 0;
                assert_eq!(internet_sum(&z), stored);
                assert_eq!(internet_sum(&f), 0);
            }
        }
    }
}

#[test]
fn classify_reply_only_accepts_echo_reply() {
    let src = "127.0.0.1".to_string();
    for t in 0u8..=255 {
        for c in [0u8, 1, 3, 255] {
            let frame = vec![t, c, 0, 0, 0, 1, 0, 1];
            let r = classify_reply(&frame, &src);
            assert_eq!(r.is_some(), t == 0 && c == 0, "type {} code {}", t, c);
        }
    }
    let info = classify_reply(&[0, 0, 0xff, 0xff, 0, 0, 0, 1, 9, 9], &src).unwrap();
    assert_eq!(info.length, 10);
    assert_eq!(info.source, "127.0.0.1");
}

#[test]
fn echoed_request_is_not_a_reply() {
    let f = build_echo_request(7, 1, &echo_payload());
    assert!(classify_reply(&f, &"127.0.0.1".to_string()).is_none());
}

#[test]
fn short_frame_is_not_a_reply() {
    let src = "1.1.1.1".to_string();
    assert!(classify_reply(&[], &src).is_none());
    assert!(classify_reply(&[0, 0], &src).is_none());
    assert!(classify_reply(&[0, 0, 0], &src).is_none());
    assert!(classify_reply(&[0, 0, 0, 0], &src).is_some());
}
