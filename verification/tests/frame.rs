use layad::codec::parse_json;
use layad::frame::{encode_frame, read_frame_buffered, Frame};

/// Reads one frame out of pieces; behind them the stream ends.
fn read_frame(stream: &mut Vec<Vec<u8>>, max_bytes: usize) -> Result<Frame, String> {
    let mut buf = Vec::new();
    loop {
        let available = stream.first().cloned().unwrap_or_default();
        let step = read_frame_buffered(&available, max_bytes, &mut buf);
        if !stream.is_empty() {
            stream[0].drain(..step.taken);
            if stream[0].is_empty() {
                stream.remove(0);
            }
        }
        if let Some(found) = step.found {
            return found;
        }
    }
}

#[test]
fn read_frame_reads_one_line() {
    let mut reader = vec![b"{\"a\":1}\n{\"b\":2}\n".to_vec()];
    match read_frame(&mut reader, 1024).unwrap() {
        Frame::Line(line) => assert_eq!(line, "{\"a\":1}"),
        _ => panic!("expected a line"),
    }
    match read_frame(&mut reader, 1024).unwrap() {
        Frame::Line(line) => assert_eq!(line, "{\"b\":2}"),
        _ => panic!("expected a line"),
    }
    assert!(matches!(read_frame(&mut reader, 1024).unwrap(), Frame::Eof));
}

#[test]
fn read_frame_rejects_oversized_frames() {
    let mut reader = vec![vec![b'x'; 256]];
    match read_frame(&mut reader, 128).unwrap() {
        Frame::Oversized(bytes) => assert!(bytes > 128),
        _ => panic!("expected an oversized frame"),
    }
}

#[test]
fn any_cut_of_a_stream_reads_the_same() {
    let stream = b"{\"a\":\"\xc3\xbc\"}\r\nsecond\nrest".to_vec();
    for cut in 1..stream.len() {
        let mut pieces = vec![stream[..cut].to_vec(), stream[cut..].to_vec()];
        for expected in ["{\"a\":\"ü\"}", "second", "rest"] {
            match read_frame(&mut pieces, 12).unwrap() {
                Frame::Line(line) => assert_eq!(line, expected, "cut at {cut}"),
                other => panic!("expected a line, got {other:?}"),
            }
        }
        assert!(matches!(read_frame(&mut pieces, 12).unwrap(), Frame::Eof));
    }
    let mut single: Vec<Vec<u8>> = stream.iter().map(|b| vec![*b]).collect();
    assert!(matches!(
        read_frame(&mut single, 11).unwrap(),
        Frame::Oversized(12)
    ));
}

#[test]
fn the_limit_counts_the_line_feed() {
    let mut exact = vec![b"123\n".to_vec()];
    assert!(matches!(read_frame(&mut exact, 4).unwrap(), Frame::Line(_)));
    let mut over = vec![b"123\n".to_vec()];
    assert!(matches!(
        read_frame(&mut over, 3).unwrap(),
        Frame::Oversized(4)
    ));
}

#[test]
fn line_ends_are_stripped_once() {
    let mut reader = vec![b"a\r\r\n\r\n\n".to_vec()];
    for expected in ["a\r", "", ""] {
        match read_frame(&mut reader, 64).unwrap() {
            Frame::Line(line) => assert_eq!(line, expected),
            other => panic!("expected a line, got {other:?}"),
        }
    }
}

#[test]
fn lines_must_be_utf8() {
    let mut buf = Vec::new();
    let step = read_frame_buffered(b"ab\xff\n", 64, &mut buf);
    assert_eq!(step.taken, 4);
    assert!(buf.is_empty());
    assert_eq!(
        step.found.unwrap().unwrap_err(),
        "invalid utf-8 sequence of 1 bytes from index 2"
    );
}

#[test]
fn unfinished_lines_are_kept() {
    let mut buf = Vec::new();
    let step = read_frame_buffered(b"ab", 64, &mut buf);
    assert_eq!(step.taken, 2);
    assert!(step.found.is_none());
    assert_eq!(buf, b"ab");
    let step = read_frame_buffered(b"", 64, &mut buf);
    assert_eq!(step.taken, 0);
    assert!(matches!(step.found, Some(Ok(Frame::Line(line))) if line == "ab"));
    assert!(buf.is_empty());
}

#[test]
fn written_frames_are_read_back() {
    let json = parse_json("{\"id\":\"1\",\"params\":{\"state\":\"line\\nfeed\\r\"}}").unwrap();
    let line = encode_frame(&json).unwrap();
    assert_eq!(line.last(), Some(&b'\n'));
    assert_eq!(line.iter().filter(|b| **b == b'\n').count(), 1);
    let mut reader = vec![line.clone(), b"more".to_vec()];
    let text = match read_frame(&mut reader, line.len()).unwrap() {
        Frame::Line(text) => text,
        other => panic!("expected a line, got {other:?}"),
    };
    let again = parse_json(&text).unwrap();
    assert_eq!(encode_frame(&again).unwrap(), line);
    assert_eq!(
        again.get("params").and_then(|p| p.str_field("state")),
        Some("line\nfeed\r")
    );
}
