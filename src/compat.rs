//! Classification of payloads and conversion between the legacy framed
//! protocol and the JSON request envelope.
//!
//! The converter cuts a legacy payload at its *first* marker, whereas the
//! stream buffer cuts at its *rightmost* one: a converted payload is a single
//! frame, while a stream flushes whatever frames have piled up at once.
use vstd::prelude::*;
use crate::envelope::{
    base64_decoded, base64_encoded, decode_base64, encode_base64, starts_with, AudioDataFormat,
    TranscriptionRequest,
};
use crate::frame::{find_first_marker, first_frame, has_marker, marker, MARKER_LEN};
use vstd::slice::{slice_subrange, slice_to_vec};

verus! {

/// `b` is a complete JSON text (any value), as serde_json reads one.
pub uninterp spec fn json_text(b: Seq<u8>) -> bool;

/// Relies on `serde_json::from_slice::<serde_json::Value>`: whether `data`
/// parses as one JSON value.
#[verifier::external_body]
fn parses_as_json(data: &[u8]) -> (r: bool)
    ensures
        r == json_text(data@),
{
    serde_json::from_slice::<serde_json::Value>(data).is_ok()
}

/// The wire protocol a payload is written in.
#[derive(Debug, Clone, Copy, PartialEq, Eq, Structural)]
pub enum InputFormat {
    /// Legacy framed bytes.
    SOT,
    /// A JSON request envelope.
    JSON,
    /// Neither.
    Unknown,
}

/// The protocol to convert into.
#[derive(Debug, Clone, Copy, PartialEq, Eq, Structural)]
pub enum OutputFormat {
    /// A JSON request envelope.
    Json,
    /// Legacy framed bytes.
    SotLike,
}

/// The class of a payload `s`, given whether it parses as JSON: a marker
/// anywhere wins over JSON syntax.
pub open spec fn format_of(s: Seq<u8>, parses_as_json: bool) -> InputFormat {
    if has_marker(s) {
        InputFormat::SOT
    } else if parses_as_json {
        InputFormat::JSON
    } else {
        InputFormat::Unknown
    }
}

/// The legacy bytes for an envelope's audio: the audio followed by one marker,
/// or `None` where the audio cannot be had (bad base64, empty binary data).
pub open spec fn legacy_bytes_of(audio: AudioDataFormat) -> Option<Seq<u8>> {
    match audio {
        AudioDataFormat::Base64 { data, .. } => match base64_decoded(data@) {
            Some(b) => Some(b + marker()),
            None => None,
        },
        AudioDataFormat::Binary { data, .. } => if data@.len() == 0 {
            None
        } else {
            Some(data@ + marker())
        },
    }
}

/// `r` is what the legacy-to-envelope conversion gives for `data` and
/// `options`: the first frame, base64-encoded with the hint `"wav"`, or an
/// error where `data` holds no marker.
pub open spec fn legacy_conversion<O>(
    data: Seq<u8>,
    options: Option<O>,
    r: Result<TranscriptionRequest<O>, String>,
) -> bool {
    match first_frame(data) {
        Some(audio) => r matches Ok(req) && {
            &&& req.options == options
            &&& req.audio_data matches AudioDataFormat::Base64 { data: text, _format: hint } && {
                &&& text@ == base64_encoded(audio)
                &&& base64_decoded(text@) == Some(audio)
                &&& hint matches Some(h) && h@ == "wav"@
            }
        },
        None => r matches Err(m) && m@ == "No SOT marker found in data"@,
    }
}

/// Marker detection and frame extraction for legacy payloads.
pub struct SotProcessor;

impl SotProcessor {
    /// Whether `data` holds the marker anywhere.
    pub fn has_sot_marker(data: &[u8]) -> (r: bool)
        ensures
            r == has_marker(data@),
    {
        find_first_marker(data).is_some()
    }

    /// The bytes before the first marker of `data`.
    pub fn extract_audio_from_sot(data: &[u8]) -> (r: Result<Vec<u8>, String>)
        ensures
            match first_frame(data@) {
                Some(audio) => r matches Ok(v) && v@ == audio,
                None => r matches Err(m) && m@ == "No SOT marker found in data"@,
            },
            r matches Ok(v) ==> v@.len() <= data@.len(),
    {
        match find_first_marker(data) {
            Some(p) => Ok(slice_to_vec(slice_subrange(data, 0, p))),
            None => Err(String::from_str("No SOT marker found in data")),
        }
    }

    /// Wraps the first frame of `audio_data` as a base64 envelope with the
    /// format hint `"wav"` and the given options.
    pub fn convert_sot_to_json<O>(audio_data: &[u8], options: Option<O>) -> (r: Result<
        TranscriptionRequest<O>,
        String,
    >)
        requires
            audio_data@.len() <= isize::MAX as int,
        ensures
            legacy_conversion(audio_data@, options, r),
    {
        match Self::extract_audio_from_sot(audio_data) {
            Ok(audio) => {
                let text = encode_base64(audio.as_slice());
                Ok(
                    TranscriptionRequest {
                        audio_data: AudioDataFormat::Base64 {
                            data: text,
                            _format: Some(String::from_str("wav")),
                        },
                        options,
                    },
                )
            },
            Err(e) => Err(e),
        }
    }
}

/// Bridges the two protocols during migration.
pub struct CompatibilityLayer;

impl CompatibilityLayer {
    /// The class of `data` given whether it parses as JSON.
    pub fn classify_input(data: &[u8], parses_as_json: bool) -> (r: InputFormat)
        ensures
            r == format_of(data@, parses_as_json),
    {
        if SotProcessor::has_sot_marker(data) {
            InputFormat::SOT
        } else if parses_as_json {
            InputFormat::JSON
        } else {
            InputFormat::Unknown
        }
    }

    /// The class of `data`: legacy when it holds a marker anywhere, otherwise
    /// JSON when it parses as JSON, otherwise unknown. JSON is tried only
    /// where no marker is found.
    pub fn detect_input_format(data: &[u8]) -> (r: InputFormat)
        ensures
            r == format_of(data@, json_text(data@)),
            has_marker(data@) ==> r == InputFormat::SOT,
    {
        if SotProcessor::has_sot_marker(data) {
            InputFormat::SOT
        } else {
            let parses = parses_as_json(data);
            Self::classify_input(data, parses)
        }
    }

    /// Legacy bytes to an envelope; see `SotProcessor::convert_sot_to_json`.
    pub fn convert_sot_to_json_request<O>(data: &[u8], options: Option<O>) -> (r: Result<
        TranscriptionRequest<O>,
        String,
    >)
        requires
            data@.len() <= isize::MAX as int,
        ensures
            legacy_conversion(data@, options, r),
    {
        SotProcessor::convert_sot_to_json(data, options)
    }

    /// An envelope back to legacy bytes: its audio followed by one marker.
    /// Fails on invalid base64 and on empty binary audio, so that no frame
    /// without audio is ever produced.
    pub fn convert_json_to_sot_like<O>(request: &TranscriptionRequest<O>) -> (r: Result<
        Vec<u8>,
        String,
    >)
        ensures
            match legacy_bytes_of(request.audio_data) {
                Some(b) => r matches Ok(v) && v@ == b,
                None => r is Err,
            },
            request.audio_data matches AudioDataFormat::Base64 { .. } && r is Err ==> starts_with(
                r->Err_0@,
                "Failed to decode base64: "@,
            ),
            request.audio_data matches AudioDataFormat::Binary { .. } && r is Err ==> r->Err_0@
                == "Binary audio data is empty"@,
    {
        let audio = match &request.audio_data {
            AudioDataFormat::Base64 { data, .. } => match decode_base64(data.as_str()) {
                Ok(bytes) => bytes,
                Err(e) => {
                    let m = String::from_str("Failed to decode base64: ");
                    let detail = e.to_string();
                    let m = m.concat(detail.as_str());
                    assert(m@.subrange(0, "Failed to decode base64: "@.len() as int)
                        =~= "Failed to decode base64: "@);
                    return Err(m);
                },
            },
            AudioDataFormat::Binary { data, .. } => {
                if data.len() == 0 {
                    return Err(String::from_str("Binary audio data is empty"));
                }
                data.clone()
            },
        };
        let mut out = audio;
        out.push(0u8);
        out.push(0x53u8);
        out.push(0x4fu8);
        out.push(0x54u8);
        out.push(0u8);
        assert(out@ =~= audio@ + marker());
        Ok(out)
    }
}

/// Converting legacy bytes to an envelope and back gives the audio before
/// their first marker, followed by one marker; whatever came after that
/// marker is not carried over.
pub proof fn lemma_legacy_round_trip<O>(
    data: Seq<u8>,
    options: Option<O>,
    r: Result<TranscriptionRequest<O>, String>,
)
    requires
        has_marker(data),
        legacy_conversion(data, options, r),
    ensures
        r matches Ok(req) && legacy_bytes_of(req.audio_data) == Some(
            first_frame(data)->Some_0 + marker(),
        ),
{
    let i = choose|i: int| crate::frame::marker_at(data, i);
    crate::frame::lemma_first_marker(data, i);
}

} // verus!
