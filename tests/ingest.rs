use whisper_background_server::audio::AudioData;
use whisper_background_server::ingest::{IngestSession, StreamAction, StreamEvent};

#[test]
fn request_audio_is_transcribed_once() {
    let mut session = IngestSession::new();
    let audio = AudioData { data: vec![1, 2, 3], timestamp: std::time::Instant::now() };
    assert_eq!(session.next_action(StreamEvent::Audio(audio)), StreamAction::Transcribe(vec![1, 2, 3]));
}

#[test]
fn legacy_chunks_are_framed() {
    let mut session = IngestSession::new();
    assert_eq!(session.next_action(StreamEvent::Chunk(b"ab\x00SO".to_vec())), StreamAction::Wait);
    assert_eq!(
        session.next_action(StreamEvent::Chunk(b"T\x00cd".to_vec())),
        StreamAction::Transcribe(b"ab".to_vec())
    );
    assert_eq!(
        session.next_action(StreamEvent::Chunk(b"\x00SOT\x00".to_vec())),
        StreamAction::Transcribe(b"cd".to_vec())
    );
}

#[test]
fn failures_and_end_of_stream() {
    let mut session = IngestSession::new();
    assert_eq!(
        session.next_action(StreamEvent::Rejected("bad json".to_string())),
        StreamAction::Skip("bad json".to_string())
    );
    assert_eq!(session.next_action(StreamEvent::Interrupted), StreamAction::Retry);
    assert_eq!(
        session.next_action(StreamEvent::ReadFailed("broken pipe".to_string())),
        StreamAction::Fail("broken pipe".to_string())
    );
    assert_eq!(session.next_action(StreamEvent::EndOfStream), StreamAction::Stop);
}
