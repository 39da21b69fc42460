//! The description of the loaded model that the server announces on start.
use vstd::prelude::*;
use crate::environment::Config;

verus! {

/// Information about the loaded model and the server's parameters.
#[derive(Debug, Clone)]
pub struct ServerInfo {
    /// Provider of the engine.
    pub provider: String,
    /// Model name, from the model file's name.
    pub model_name: String,
    /// Version of the server.
    pub version: String,
    /// Model attributes.
    pub attributes: ModelAttributes,
    /// Current parameters.
    pub parameters: ServerParameters,
}

/// Attributes of the loaded model.
#[derive(Debug, Clone)]
pub struct ModelAttributes {
    /// File size in bytes.
    pub file_size: u64,
    /// Model type.
    pub model_type: String,
    /// Whether GPU acceleration is available.
    pub gpu_available: bool,
    /// Whether GPU acceleration is enabled.
    pub gpu_enabled: bool,
}

/// The server's parameters.
#[derive(Debug, Clone)]
pub struct ServerParameters {
    /// Number of threads configured.
    pub threads: Option<usize>,
    /// Whether the CPU-only mode is on.
    pub cpu_only: bool,
    /// Audio format accepted.
    pub audio_format: String,
}

/// The announcement for a model of `file_size` bytes named `model_name`,
/// loaded under `config`. No GPU is reported available, so none is enabled.
pub fn describe_server(config: &Config, model_name: String, version: String, file_size: u64) -> (r:
    ServerInfo)
    ensures
        r.provider@ == "whisper-rs"@,
        r.model_name@ == model_name@,
        r.version@ == version@,
        r.attributes.file_size == file_size,
        r.attributes.model_type@ == "whisper"@,
        !r.attributes.gpu_available,
        r.attributes.gpu_enabled == (!config.cpu_only && r.attributes.gpu_available),
        r.parameters.threads == config.threads,
        r.parameters.cpu_only == config.cpu_only,
        r.parameters.audio_format@ == "16kHz mono PCM"@,
{
    let gpu_available = false;
    let gpu_enabled = !config.cpu_only && gpu_available;
    ServerInfo {
        provider: String::from_str("whisper-rs"),
        model_name,
        version,
        attributes: ModelAttributes {
            file_size,
            model_type: String::from_str("whisper"),
            gpu_available,
            gpu_enabled,
        },
        parameters: ServerParameters {
            threads: config.threads,
            cpu_only: config.cpu_only,
            audio_format: String::from_str("16kHz mono PCM"),
        },
    }
}

} // verus!
