use whisper_background_server::frame::{detect_frame, find_first_marker, find_rightmost_marker, StreamBuffer};

#[test]
fn single_marker_splits_segment_and_remainder() {
    let mut buffer = StreamBuffer::new();
    buffer.append(b"hello\x00SOT\x00world");
    let r = buffer.detect();
    assert!(r.found);
    assert_eq!(r.audio_segment, b"hello".to_vec());
    assert_eq!(r.remaining, b"world".to_vec());
    assert_eq!(r.position, Some(5));
}

#[test]
fn rightmost_marker_wins() {
    let r = detect_frame(b"a\x00SOT\x00b\x00SOT\x00c");
    assert!(r.found);
    assert_eq!(r.audio_segment, b"a\x00SOT\x00b".to_vec());
    assert_eq!(r.remaining, b"c".to_vec());
    assert_eq!(r.position, Some(7));
    assert_eq!(find_first_marker(b"a\x00SOT\x00b\x00SOT\x00c"), Some(1));
    assert_eq!(find_rightmost_marker(b"a\x00SOT\x00b\x00SOT\x00c"), Some(7));
}

#[test]
fn marker_free_bytes_are_not_a_frame() {
    let mut buffer = StreamBuffer::new();
    buffer.append(b"\x00SOT");
    buffer.append(b"T\x00 no marker");
    let r = buffer.detect();
    assert!(!r.found);
    assert_eq!(r.position, None);
    assert!(r.audio_segment.is_empty());
    assert_eq!(buffer.extract(), None);
    assert_eq!(buffer.byte_count(), 16);
}

#[test]
fn short_buffer_is_not_a_frame() {
    let r = detect_frame(b"\x00SOT");
    assert!(!r.found);
    assert_eq!(find_first_marker(b""), None);
}

#[test]
fn marker_split_across_appends_is_found() {
    let mut buffer = StreamBuffer::new();
    buffer.append(b"abc\x00S");
    assert_eq!(buffer.extract(), None);
    buffer.append(b"OT\x00def");
    assert_eq!(buffer.extract(), Some(b"abc".to_vec()));
    assert_eq!(buffer.pending(), b"def");
    assert_eq!(buffer.byte_count(), 3);
}

#[test]
fn second_extract_without_append_is_none() {
    let mut buffer = StreamBuffer::new();
    buffer.append(b"x\x00SOT\x00y\x00SOT\x00z");
    assert_eq!(buffer.extract(), Some(b"x\x00SOT\x00y".to_vec()));
    assert_eq!(buffer.extract(), None);
    assert_eq!(buffer.pending(), b"z");
}

#[test]
fn marker_at_edges() {
    let r = detect_frame(b"\x00SOT\x00");
    assert!(r.found);
    assert!(r.audio_segment.is_empty());
    assert!(r.remaining.is_empty());
    assert_eq!(r.position, Some(0));
}
