use whisper_background_server::compat::{CompatibilityLayer, InputFormat, SotProcessor};
use whisper_background_server::envelope::{AudioDataFormat, TranscriptionRequest};

struct Options {
    language: Option<String>,
    include_timestamps: Option<bool>,
}

#[test]
fn test_sot_marker_detection() {
    let data_with_sot = b"audio_data\0SOT\0";
    let data_without_sot = b"audio_data";

    assert!(SotProcessor::has_sot_marker(data_with_sot));
    assert!(!SotProcessor::has_sot_marker(data_without_sot));
}

#[test]
fn test_audio_extraction_from_sot() {
    let data = b"some_audio_data\0SOT\0rest_of_data";
    let expected = b"some_audio_data";

    let result = SotProcessor::extract_audio_from_sot(data).unwrap();
    assert_eq!(result, expected);
}

#[test]
fn test_sot_to_json_conversion() {
    let audio_data = b"test_audio\0SOT\0";
    let options = Some(Options {
        language: Some("en".to_string()),
        include_timestamps: Some(true),
    });

    let request = SotProcessor::convert_sot_to_json(audio_data, options).unwrap();

    match request.audio_data {
        AudioDataFormat::Base64 { data, .. } => {
            assert!(!data.is_empty());
        }
        _ => panic!("Expected base64 format"),
    }

    let options = request.options.unwrap();
    assert_eq!(options.language, Some("en".to_string()));
    assert_eq!(options.include_timestamps, Some(true));
}

#[test]
fn test_input_format_detection() {
    let sot_data = b"audio\0SOT\0";
    let json_data = br#"{ "audio_data": { "data": "test" } }"#;
    let unknown_data = b"unknown_data";

    assert_eq!(CompatibilityLayer::detect_input_format(sot_data), InputFormat::SOT);
    assert_eq!(CompatibilityLayer::detect_input_format(json_data), InputFormat::JSON);
    assert_eq!(CompatibilityLayer::detect_input_format(unknown_data), InputFormat::Unknown);
}

#[test]
fn test_json_to_sot_like_conversion() {
    let request: TranscriptionRequest<()> = TranscriptionRequest {
        audio_data: AudioDataFormat::Base64 {
            data: "dGVzdF9hdWRpby8=".to_string(),
            _format: None,
        },
        options: None,
    };

    let result = CompatibilityLayer::convert_json_to_sot_like(&request).unwrap();
    assert!(result.windows(5).any(|window| window == b"\0SOT\0"));
}

#[test]
fn test_full_conversion_cycle() {
    let sot_data = b"test_audio_data\0SOT\0";

    let options = Some(Options {
        language: Some("en".to_string()),
        include_timestamps: Some(true),
    });

    let json_request = SotProcessor::convert_sot_to_json(sot_data, options).unwrap();

    let sot_like_data = CompatibilityLayer::convert_json_to_sot_like(&json_request).unwrap();

    assert!(sot_like_data.windows(5).any(|window| window == b"\0SOT\0"));
}

#[test]
fn conversion_round_trip_keeps_first_frame_only() {
    let data = b"first\0SOT\0second\0SOT\0third";
    let request = CompatibilityLayer::convert_sot_to_json_request(data, None::<()>).unwrap();
    match &request.audio_data {
        AudioDataFormat::Base64 { data, _format } => {
            assert_eq!(data, "Zmlyc3Q=");
            assert_eq!(_format.as_deref(), Some("wav"));
        }
        _ => panic!("Expected base64 format"),
    }
    let back = CompatibilityLayer::convert_json_to_sot_like(&request).unwrap();
    assert_eq!(back, b"first\0SOT\0".to_vec());
}

#[test]
fn conversion_without_marker_fails() {
    let result = SotProcessor::convert_sot_to_json(b"no marker here", None::<()>);
    assert!(result.is_err());
    let err = SotProcessor::extract_audio_from_sot(b"no marker here").unwrap_err();
    assert_eq!(err, "No SOT marker found in data");
}

#[test]
fn marker_inside_json_classifies_as_legacy() {
    let payload = b"{\"audio_data\":{\"data\":\"a\x00SOT\x00b\"}}";
    assert_eq!(CompatibilityLayer::detect_input_format(payload), InputFormat::SOT);
    assert_eq!(CompatibilityLayer::classify_input(b"[1,2]", true), InputFormat::JSON);
    assert_eq!(CompatibilityLayer::classify_input(b"[1,2", false), InputFormat::Unknown);
}

#[test]
fn empty_binary_envelope_gives_no_frame() {
    let request: TranscriptionRequest<()> = TranscriptionRequest {
        audio_data: AudioDataFormat::Binary { data: vec![], _format: None },
        options: None,
    };
    let err = CompatibilityLayer::convert_json_to_sot_like(&request).unwrap_err();
    assert!(err.contains("Binary audio data is empty"));
}

#[test]
fn binary_envelope_gets_one_marker() {
    let request: TranscriptionRequest<()> = TranscriptionRequest {
        audio_data: AudioDataFormat::Binary { data: vec![7, 8], _format: None },
        options: None,
    };
    let out = CompatibilityLayer::convert_json_to_sot_like(&request).unwrap();
    assert_eq!(out, vec![7, 8, 0, b'S', b'O', b'T', 0]);
}

#[test]
fn invalid_base64_envelope_fails() {
    let request: TranscriptionRequest<()> = TranscriptionRequest {
        audio_data: AudioDataFormat::Base64 { data: "@@@".to_string(), _format: None },
        options: None,
    };
    let err = CompatibilityLayer::convert_json_to_sot_like(&request).unwrap_err();
    assert!(err.starts_with("Failed to decode base64: "));
}
