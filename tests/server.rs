use whisper_background_server::environment::{validate_model_path, Config, ModelFileFacts};
use whisper_background_server::server::describe_server;

fn facts(exists: bool, is_file: bool, ext: Option<&str>, size: Option<u64>) -> ModelFileFacts {
    ModelFileFacts { exists, is_file, extension: ext.map(|e| e.to_string()), size }
}

#[test]
fn server_description() {
    let config = Config { model_path: "/m/base.bin".to_string(), threads: Some(4), cpu_only: true };
    let info = describe_server(&config, "base".to_string(), "1.0.0".to_string(), 2048);
    assert_eq!(info.provider, "whisper-rs");
    assert_eq!(info.model_name, "base");
    assert_eq!(info.version, "1.0.0");
    assert_eq!(info.attributes.file_size, 2048);
    assert_eq!(info.attributes.model_type, "whisper");
    assert!(!info.attributes.gpu_available);
    assert!(!info.attributes.gpu_enabled);
    assert_eq!(info.parameters.threads, Some(4));
    assert!(info.parameters.cpu_only);
    assert_eq!(info.parameters.audio_format, "16kHz mono PCM");
}

#[test]
fn model_file_checks() {
    assert!(validate_model_path("m.bin", &facts(true, true, Some("bin"), Some(10))).is_ok());
    assert_eq!(
        validate_model_path("m.bin", &facts(false, false, None, None)).unwrap_err(),
        "Model file does not exist: m.bin"
    );
    assert_eq!(
        validate_model_path("d", &facts(true, false, None, None)).unwrap_err(),
        "Model path is not a file: d"
    );
    assert_eq!(
        validate_model_path("m.txt", &facts(true, true, Some("txt"), Some(10))).unwrap_err(),
        "Model file must have .bin extension, got: \"txt\""
    );
    assert_eq!(
        validate_model_path("m", &facts(true, true, None, Some(10))).unwrap_err(),
        "Model file has no extension: m"
    );
    assert_eq!(
        validate_model_path("m.bin", &facts(true, true, Some("bin"), Some(0))).unwrap_err(),
        "Model file is empty: m.bin"
    );
    assert_eq!(
        validate_model_path("m.bin", &facts(true, true, Some("bin"), None)).unwrap_err(),
        "Cannot read model file metadata: m.bin"
    );
}
