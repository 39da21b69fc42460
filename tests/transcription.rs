use whisper_background_server::envelope::{extract_audio_data, AudioDataFormat, TranscriptionRequest};
use whisper_background_server::transcription::{
    assemble_transcript, is_supported_language, join_nonempty, pcm16_samples, validate_option_fields,
    JsonError, ModelInfo, TranscriptionError, ValidationError,
};

#[test]
fn test_model_info() {
    let info = ModelInfo {
        sampling_rate: 16000,
        n_text_ctx: 448,
        n_mels: 80,
        multilingual: true,
        has_encoder: true,
        has_decoder: true,
    };

    assert_eq!(info.sampling_rate, 16000);
    assert_eq!(info.n_text_ctx, 448);
    assert_eq!(info.n_mels, 80);
    assert!(info.multilingual);
    assert!(info.has_encoder);
    assert!(info.has_decoder);
}

#[test]
fn test_json_error_display() {
    let error = JsonError::InvalidJson("test error".to_string());
    assert_eq!(error.message(), "Invalid JSON: test error");

    let error = JsonError::MissingField("audio_data".to_string());
    assert_eq!(error.message(), "Missing required field: audio_data");

    let error = JsonError::InvalidFieldValue("language".to_string(), "invalid".to_string());
    assert_eq!(error.message(), "Invalid value for field 'language': invalid");

    let error = JsonError::InvalidBase64("decode error".to_string());
    assert_eq!(error.message(), "Invalid base64 encoding: decode error");

    let error = JsonError::AudioDataError("empty data".to_string());
    assert_eq!(error.message(), "Audio data error: empty data");
}

#[test]
fn test_validation_error() {
    let error = ValidationError::new("field_name", "error message");
    assert_eq!(error.field, "field_name");
    assert_eq!(error.message, "error message");
}

#[test]
fn transcription_error_messages() {
    assert_eq!(
        TranscriptionError::WhisperContextError("x".to_string()).message(),
        "Whisper context error: x"
    );
    assert_eq!(TranscriptionError::AudioDataError("y".to_string()).message(), "Audio data error: y");
    assert_eq!(
        TranscriptionError::TranscriptionFailed("z".to_string()).message(),
        "Transcription failed: z"
    );
    assert_eq!(
        TranscriptionError::ConfigurationError("w".to_string()).message(),
        "Configuration error: w"
    );
}

#[test]
fn option_checks_in_order() {
    let lang = "invalid_lang".to_string();
    let errors = validate_option_fields(Some(&lang), Some(false), Some(0), Some(0));
    let fields: Vec<&str> = errors.iter().map(|e| e.field.as_str()).collect();
    assert_eq!(fields, vec!["language", "temperature", "beam_size", "max_tokens"]);
    assert!(errors[0].message.contains("Invalid language code"));
    assert!(errors[1].message.contains("between 0.0 and 1.0"));
    assert!(errors[2].message.contains("greater than 0"));
    assert!(errors[3].message.contains("greater than 0"));

    let en = "en".to_string();
    assert!(validate_option_fields(Some(&en), Some(true), Some(5), Some(100)).is_empty());
    assert!(validate_option_fields(None, None, None, None).is_empty());
    assert!(is_supported_language("ca"));
    assert!(!is_supported_language("EN"));
}

#[test]
fn pcm16_little_endian_samples() {
    let samples = pcm16_samples(&[0x01, 0x00, 0xff, 0xff, 0x00, 0x80, 0x07]).unwrap();
    assert_eq!(samples, vec![1, -1, i16::MIN]);
    match pcm16_samples(&[]) {
        Err(TranscriptionError::AudioDataError(m)) => assert_eq!(m, "Audio data is empty"),
        _ => panic!("Expected an audio data error"),
    }
}

#[test]
fn transcript_joins_trimmed_segments() {
    let texts = vec![" Hello ".to_string(), "   ".to_string(), "world\n".to_string()];
    assert_eq!(assemble_transcript(&texts), "Hello world");
    let pieces = vec!["a".to_string(), String::new(), "b".to_string()];
    assert_eq!(join_nonempty(&pieces), "a b");
    assert_eq!(assemble_transcript(&Vec::new()), "");
}

#[test]
fn json_line_audio_is_decoded() {
    let line = r#"{"audio_data":{"data":"AQID"}}"#;
    let value: serde_json::Value = serde_json::from_str(line).unwrap();
    let data = value["audio_data"]["data"].as_str().unwrap().to_string();
    let request: TranscriptionRequest<()> = TranscriptionRequest {
        audio_data: AudioDataFormat::Base64 { data, _format: None },
        options: None,
    };
    assert_eq!(extract_audio_data(&request).unwrap(), vec![1, 2, 3]);
}

#[test]
fn test_validate_transcription_options_valid() {
    let language = "en".to_string();
    let result = validate_option_fields(Some(&language), Some(true), Some(5), Some(100));
    assert!(result.is_empty());
}

#[test]
fn test_validate_transcription_options_invalid_language() {
    let language = "invalid_lang".to_string();
    let result = validate_option_fields(Some(&language), Some(true), Some(5), None);
    assert_eq!(result.len(), 1);
    assert_eq!(result[0].field, "language");
    assert!(result[0].message.contains("Invalid language code"));
}

#[test]
fn test_validate_transcription_options_invalid_temperature() {
    let result = validate_option_fields(None, Some(false), Some(5), None);
    assert_eq!(result.len(), 1);
    assert_eq!(result[0].field, "temperature");
    assert!(result[0].message.contains("between 0.0 and 1.0"));
}

#[test]
fn test_validate_transcription_options_invalid_beam_size() {
    let result = validate_option_fields(None, Some(true), Some(0), None);
    assert_eq!(result.len(), 1);
    assert_eq!(result[0].field, "beam_size");
    assert!(result[0].message.contains("greater than 0"));
}

#[test]
fn test_validate_transcription_options_invalid_max_tokens() {
    let result = validate_option_fields(None, Some(true), Some(5), Some(0));
    assert_eq!(result.len(), 1);
    assert_eq!(result[0].field, "max_tokens");
    assert!(result[0].message.contains("greater than 0"));
}

#[test]
fn test_validate_transcription_options_multiple_errors() {
    let language = "invalid_lang".to_string();
    let result = validate_option_fields(Some(&language), Some(false), Some(0), Some(0));
    assert_eq!(result.len(), 4);
}
