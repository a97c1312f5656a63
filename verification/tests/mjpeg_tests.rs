use esp32cam::mjpeg::{
    encode_part, part_header, part_separator, relay_frames, stream_content_type, Relay, RelayStep,
    BOUNDARY,
};
use esp32cam::text::{decimal_bytes, push_bytes, push_decimal, text_bytes};

#[test]
fn decimal_numerals() {
    assert_eq!(decimal_bytes(0), b"0".to_vec());
    assert_eq!(decimal_bytes(7), b"7".to_vec());
    assert_eq!(decimal_bytes(9), b"9".to_vec());
    assert_eq!(decimal_bytes(10), b"10".to_vec());
    assert_eq!(decimal_bytes(99), b"99".to_vec());
    assert_eq!(decimal_bytes(100), b"100".to_vec());
    assert_eq!(decimal_bytes(40961), b"40961".to_vec());
    assert_eq!(decimal_bytes(usize::MAX), usize::MAX.to_string().into_bytes());
}

#[test]
fn decimal_agrees_with_std_formatting() {
    let mut n = 1usize;
    for _ in 0..19 {
        for k in [n - 1, n, n + 1] {
            assert_eq!(decimal_bytes(k), format!("{}", k).into_bytes());
        }
        n *= 10;
    }
}

#[test]
fn push_helpers_append() {
    let mut out = b"len=".to_vec();
    push_decimal(&mut out, 305);
    push_bytes(&mut out, b";");
    push_bytes(&mut out, b"");
    assert_eq!(out, b"len=305;".to_vec());
    assert_eq!(text_bytes("a\r\n"), vec![97u8, 13, 10]);
}

#[test]
fn boundary_token_is_fixed() {
    assert_eq!(BOUNDARY, "123456789000000000000987654321");
}

#[test]
fn stream_content_type_carries_boundary() {
    assert_eq!(
        stream_content_type(),
        b"multipart/x-mixed-replace; boundary=123456789000000000000987654321".to_vec()
    );
}

#[test]
fn part_header_gives_exact_length() {
    assert_eq!(
        part_header(0),
        b"Content-Type: image/jpeg\r\nContent-Length: 0\r\n\r\n".to_vec()
    );
    assert_eq!(
        part_header(51234),
        b"Content-Type: image/jpeg\r\nContent-Length: 51234\r\n\r\n".to_vec()
    );
}

#[test]
fn part_separator_is_boundary_line() {
    assert_eq!(part_separator(), b"\r\n--123456789000000000000987654321\r\n".to_vec());
}

#[test]
fn encode_part_frames_the_bytes_untouched() {
    let frame = [0xffu8, 0xd8, 0x0d, 0x0a, 0x2d, 0x2d, 0x00, 0xff, 0xd9];
    let mut expected = b"Content-Type: image/jpeg\r\nContent-Length: 9\r\n\r\n".to_vec();
    expected.extend_from_slice(&frame);
    expected.extend_from_slice(b"\r\n--123456789000000000000987654321\r\n");
    assert_eq!(encode_part(&frame), expected);
}

#[test]
fn encode_part_of_empty_frame() {
    assert_eq!(
        encode_part(&[]),
        b"Content-Type: image/jpeg\r\nContent-Length: 0\r\n\r\n\r\n--123456789000000000000987654321\r\n"
            .to_vec()
    );
}

fn split_parts(body: &[u8]) -> Vec<(usize, Vec<u8>)> {
    let prefix = b"Content-Type: image/jpeg\r\nContent-Length: ";
    let separator = b"\r\n--123456789000000000000987654321\r\n";
    let mut parts = Vec::new();
    let mut at = 0;
    while at < body.len() {
        assert_eq!(&body[at..at + prefix.len()], prefix);
        at += prefix.len();
        let mut len = 0usize;
        while body[at].is_ascii_digit() {
            len = len * 10 + (body[at] - b'0') as usize;
            at += 1;
        }
        assert_eq!(&body[at..at + 4], b"\r\n\r\n");
        at += 4;
        let frame = body[at..at + len].to_vec();
        at += len;
        assert_eq!(&body[at..at + separator.len()], separator);
        at += separator.len();
        parts.push((len, frame));
    }
    parts
}

#[test]
fn relay_round_trip_three_frames_with_gaps() {
    let f1 = vec![0xffu8, 0xd8, 1, 2, 3, 0xff, 0xd9];
    let f2: Vec<u8> = (0..300u32).map(|i| (i % 251) as u8).collect();
    let f3 = vec![0xffu8, 0xd8, 0xff, 0xd9];
    let polls = vec![
        None,
        Some(f1.clone()),
        None,
        None,
        Some(f2.clone()),
        None,
        Some(f3.clone()),
        None,
    ];
    let body = relay_frames(&polls);
    let parts = split_parts(&body);
    assert_eq!(parts.len(), 3);
    assert_eq!(parts[0], (7, f1.clone()));
    assert_eq!(parts[1], (300, f2.clone()));
    assert_eq!(parts[2], (4, f3.clone()));

    let mut expected = encode_part(&f1);
    expected.extend(encode_part(&f2));
    expected.extend(encode_part(&f3));
    assert_eq!(body, expected);
}

#[test]
fn relay_of_no_frames_writes_nothing() {
    assert_eq!(relay_frames(&vec![]), Vec::<u8>::new());
    assert_eq!(relay_frames(&vec![None, None, None]), Vec::<u8>::new());
}

#[test]
fn relay_polls_again_without_frame() {
    let relay = Relay::new();
    assert!(relay.is_open());
    assert_eq!(relay.sent(), 0);
    assert_eq!(relay.polled(None), RelayStep::PollAgain);
}

#[test]
fn relay_sends_frame_between_header_and_separator() {
    let mut relay = Relay::new();
    assert_eq!(
        relay.polled(Some(1234)),
        RelayStep::Send {
            header: b"Content-Type: image/jpeg\r\nContent-Length: 1234\r\n\r\n".to_vec(),
            separator: b"\r\n--123456789000000000000987654321\r\n".to_vec(),
        }
    );
    relay.written(true);
    assert!(relay.is_open());
    assert_eq!(relay.sent(), 1);
    relay.written(true);
    assert_eq!(relay.sent(), 2);
}

#[test]
fn relay_stops_at_first_failed_write() {
    let mut relay = Relay::new();
    relay.written(true);
    relay.written(false);
    assert!(!relay.is_open());
    assert_eq!(relay.sent(), 1);
    assert_eq!(relay.polled(Some(10)), RelayStep::Stop);
    assert_eq!(relay.polled(None), RelayStep::Stop);
    relay.written(true);
    assert!(!relay.is_open());
    assert_eq!(relay.sent(), 1);
}
