use spotify_player::ipc::{
    decode_length, encode_frame, encode_length, frame_body_length, frame_length, FrameError,
    FrameReader, ReadFrameError, MAX_REQUEST_SIZE, MAX_RESPONSE_SIZE,
};

#[test]
fn oversized_frame_returns_an_error() {
    let data = vec![0; MAX_REQUEST_SIZE + 1];

    let error = encode_frame(&data, MAX_REQUEST_SIZE, "CLI request").unwrap_err();

    match error {
        FrameError::TooLarge(message) => {
            assert!(message.contains("maximum"));
            assert_eq!(message, "CLI request is 4097 bytes, but the maximum is 4096 bytes");
        }
        FrameError::TooLong => panic!("expected a size error"),
    }
}

#[test]
fn response_frame_announces_its_body() {
    let expected = vec![7; 3 * 4096 + 17];
    let frame = encode_frame(&expected, MAX_RESPONSE_SIZE, "CLI response").unwrap();
    let header = [frame[0], frame[1], frame[2], frame[3]];
    let size = frame_body_length(header, MAX_RESPONSE_SIZE, "CLI response").unwrap();
    assert_eq!(size, expected.len());
    assert_eq!(&frame[4..], &expected[..]);
}

#[test]
fn header_is_big_endian() {
    assert_eq!(encode_length(0x0102_0304), [1, 2, 3, 4]);
    assert_eq!(encode_length(5), 5u32.to_be_bytes());
    assert_eq!(decode_length([0, 0, 1, 0]), 256);
    assert_eq!(decode_length(u32::MAX.to_be_bytes()), u32::MAX);
}

#[test]
fn announced_body_over_the_limit_is_refused() {
    let header = 11u32.to_be_bytes();
    match frame_body_length(header, 10, "CLI response") {
        Err(FrameError::TooLarge(message)) => {
            assert_eq!(message, "CLI response is 11 bytes, but the maximum is 10 bytes")
        }
        _ => panic!("expected a size error"),
    }
    assert_eq!(frame_length(10, 10, "x").ok(), Some(10));
}

#[test]
fn incomplete_frame_returns_an_error() {
    let mut data = (5_u32).to_be_bytes().to_vec();
    data.extend_from_slice(b"ab");

    let mut reader = FrameReader::new(10);
    assert!(matches!(reader.feed(&data, "CLI response"), Ok(None)));
    match reader.end_of_stream("CLI response") {
        ReadFrameError::Incomplete(message) => {
            assert!(message.contains("complete CLI response body"));
            assert_eq!(message, "read complete CLI response body (5 bytes)");
        }
        other => panic!("unexpected {other:?}"),
    }
    let short = FrameReader::new(10);
    match short.end_of_stream("CLI response") {
        ReadFrameError::Incomplete(message) => assert_eq!(message, "read CLI response length"),
        other => panic!("unexpected {other:?}"),
    }
}

#[test]
fn response_can_arrive_in_many_transport_chunks() {
    let expected = vec![7; 3 * 4096 + 17];
    let frame = encode_frame(&expected, MAX_RESPONSE_SIZE, "CLI response").unwrap();
    let mut reader = FrameReader::new(MAX_RESPONSE_SIZE);
    let mut actual = None;
    for chunk in frame.chunks(37) {
        assert!(actual.is_none());
        if let Some((body, rest)) = reader.feed(chunk, "CLI response").unwrap() {
            assert!(rest.is_empty());
            actual = Some(body);
        }
    }
    assert_eq!(actual, Some(expected));
}

#[test]
fn bytes_after_a_frame_are_handed_back() {
    let mut stream = encode_frame(b"hello", 64, "test").unwrap();
    stream.extend_from_slice(b"next");
    let mut reader = FrameReader::new(64);
    let (body, rest) = reader.feed(&stream, "test").unwrap().unwrap();
    assert_eq!(body, b"hello");
    assert_eq!(rest, b"next");
    assert!(reader.received.is_empty());
}

#[test]
fn oversized_announced_frame_is_refused() {
    let mut reader = FrameReader::new(4);
    match reader.feed(&(5_u32).to_be_bytes(), "CLI request") {
        Err(ReadFrameError::TooLarge(message)) => {
            assert_eq!(message, "CLI request is 5 bytes, but the maximum is 4 bytes")
        }
        other => panic!("unexpected {other:?}"),
    }
}

#[test]
fn async_frames_support_payloads_larger_than_the_stream_buffer() {
    let expected = vec![3; 8193];
    let frame = encode_frame(&expected, MAX_RESPONSE_SIZE, "CLI response").unwrap();
    let mut reader = FrameReader::new(MAX_RESPONSE_SIZE);
    let mut actual = None;
    for chunk in frame.chunks(31) {
        if let Some((body, _)) = reader.feed(chunk, "CLI response").unwrap() {
            actual = Some(body);
        }
    }
    assert_eq!(actual, Some(expected));
}

#[test]
fn concurrent_tcp_clients_keep_responses_isolated() {
    let first = encode_frame(b"first client", 128, "test response").unwrap();
    let second = encode_frame(b"second client", 128, "test response").unwrap();
    let mut a = FrameReader::new(128);
    let mut b = FrameReader::new(128);
    let (mut got_a, mut got_b) = (None, None);
    for (x, y) in first.chunks(3).zip(second.chunks(3)) {
        if let Some((body, _)) = a.feed(x, "test response").unwrap() {
            got_a = Some(body);
        }
        if let Some((body, _)) = b.feed(y, "test response").unwrap() {
            got_b = Some(body);
        }
    }
    for y in second.chunks(3).skip(first.chunks(3).count()) {
        if let Some((body, _)) = b.feed(y, "test response").unwrap() {
            got_b = Some(body);
        }
    }
    assert_eq!(got_a.as_deref(), Some(&b"first client"[..]));
    assert_eq!(got_b.as_deref(), Some(&b"second client"[..]));
}
