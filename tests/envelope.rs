use whisper_background_server::envelope::{extract_audio_data, AudioDataFormat, TranscriptionRequest};

#[test]
fn test_extract_audio_data_base64() {
    let request: TranscriptionRequest<()> = TranscriptionRequest {
        audio_data: AudioDataFormat::Base64 {
            data: "SGVsbG8gV29ybGQ=".to_string(),
            _format: None,
        },
        options: None,
    };

    let result = extract_audio_data(&request).unwrap();
    assert_eq!(result, b"Hello World".to_vec());
}

#[test]
fn test_extract_audio_data_binary() {
    let request: TranscriptionRequest<()> = TranscriptionRequest {
        audio_data: AudioDataFormat::Binary {
            data: vec![72, 101, 108, 108, 111, 32, 87, 111, 114, 108, 100],
            _format: None,
        },
        options: None,
    };

    let result = extract_audio_data(&request).unwrap();
    assert_eq!(
        result,
        vec![72, 101, 108, 108, 111, 32, 87, 111, 114, 108, 100]
    );
}

#[test]
fn test_extract_audio_data_empty_binary() {
    let request: TranscriptionRequest<()> = TranscriptionRequest {
        audio_data: AudioDataFormat::Binary {
            data: vec![],
            _format: None,
        },
        options: None,
    };

    let result = extract_audio_data(&request);
    assert!(result.is_err());
    assert!(result.unwrap_err().contains("Binary audio data is empty"));
}

#[test]
fn test_extract_audio_data_invalid_base64() {
    let request: TranscriptionRequest<()> = TranscriptionRequest {
        audio_data: AudioDataFormat::Base64 {
            data: "invalid_base64!@#".to_string(),
            _format: None,
        },
        options: None,
    };

    let result = extract_audio_data(&request);
    assert!(result.is_err());
    assert!(result.unwrap_err().contains("Failed to decode base64"));
}

#[test]
fn base64_payload_decodes_to_bytes() {
    let request: TranscriptionRequest<()> = TranscriptionRequest {
        audio_data: AudioDataFormat::Base64 { data: "AQID".to_string(), _format: None },
        options: None,
    };
    assert_eq!(extract_audio_data(&request).unwrap(), vec![1, 2, 3]);
}

#[test]
fn empty_base64_payload_is_accepted() {
    let request: TranscriptionRequest<()> = TranscriptionRequest {
        audio_data: AudioDataFormat::Base64 { data: String::new(), _format: None },
        options: None,
    };
    assert_eq!(extract_audio_data(&request).unwrap(), Vec::<u8>::new());
}

#[test]
fn bad_padding_is_rejected() {
    let request: TranscriptionRequest<()> = TranscriptionRequest {
        audio_data: AudioDataFormat::Base64 { data: "AQI".to_string(), _format: None },
        options: None,
    };
    assert!(extract_audio_data(&request).is_err());
}
