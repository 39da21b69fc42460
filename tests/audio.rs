use whisper_background_server::audio::{AudioBuffer, AudioData, AudioProcessor};

#[test]
fn test_audio_buffer_basic() {
    let mut buffer = AudioBuffer::new();

    assert_eq!(buffer.total_bytes_received(), 0);
    assert!(!buffer.has_audio_data());

    let audio_data = AudioData {
        data: vec![1, 2, 3, 4],
        timestamp: std::time::Instant::now(),
    };

    buffer.set_audio_data(audio_data);

    assert_eq!(buffer.total_bytes_received(), 4);
    assert!(buffer.has_audio_data());
    assert_eq!(buffer.accumulated_data(), &vec![1, 2, 3, 4]);
}

#[test]
fn test_audio_buffer_take_audio_data() {
    let mut buffer = AudioBuffer::new();

    let audio_data = AudioData {
        data: vec![1, 2, 3, 4],
        timestamp: std::time::Instant::now(),
    };

    buffer.set_audio_data(audio_data);

    assert!(buffer.has_audio_data());
    assert_eq!(buffer.total_bytes_received(), 4);

    let taken_data = buffer.take_audio_data();
    assert!(taken_data.is_some());
    assert_eq!(taken_data.unwrap().data, vec![1, 2, 3, 4]);
    assert!(!buffer.has_audio_data());
    assert_eq!(buffer.total_bytes_received(), 0);
}

#[test]
fn test_audio_buffer_clear() {
    let mut buffer = AudioBuffer::new();

    let audio_data = AudioData {
        data: vec![1, 2, 3],
        timestamp: std::time::Instant::now(),
    };

    buffer.set_audio_data(audio_data);
    assert_eq!(buffer.total_bytes_received(), 3);
    assert!(buffer.has_audio_data());

    buffer.clear();
    assert_eq!(buffer.total_bytes_received(), 0);
    assert!(!buffer.has_audio_data());
}

#[test]
fn test_audio_processor_trait() {
    let mut buffer = AudioBuffer::new();

    let audio_data = AudioData {
        data: vec![1, 2, 3],
        timestamp: std::time::Instant::now(),
    };

    assert!(!buffer.is_ready());

    let result = buffer.process_audio(&audio_data);
    assert!(result.is_ok());

    assert!(buffer.is_ready());
    assert_eq!(buffer.accumulated_data(), &vec![1, 2, 3]);

    buffer.clear_data();
    assert!(!buffer.is_ready());
    assert!(buffer.accumulated_data().is_empty());
}

#[test]
fn take_from_empty_buffer_is_none() {
    let mut buffer = AudioBuffer::new();
    assert!(buffer.take_audio_data().is_none());
    assert!(buffer.audio_data().is_none());
    buffer.set_audio_data(AudioData { data: vec![9], timestamp: std::time::Instant::now() });
    assert_eq!(buffer.audio_data().map(|a| a.data.clone()), Some(vec![9]));
}
