//! The JSON request envelope: the audio payload of one transcription
//! request and the recovery of its raw bytes.
use vstd::prelude::*;

verus! {

/// The text that the standard base64 engine (RFC 4648 alphabet, with
/// padding) gives for `b`.
pub uninterp spec fn base64_encoded(b: Seq<u8>) -> Seq<char>;

/// The bytes that the standard base64 engine recovers from `s`, or `None`
/// where it rejects `s`.
pub uninterp spec fn base64_decoded(s: Seq<char>) -> Option<Seq<u8>>;

/// `base64::DecodeError`, held opaque: why the base64 engine rejected a text.
#[verifier::external_type_specification]
#[verifier::external_body]
pub struct ExDecodeError(base64::DecodeError);

/// Relies on `base64::Engine::encode` with `general_purpose::STANDARD`: the
/// padded standard encoding of `b`, which the same engine decodes back to `b`.
/// The engine panics only where the output length overflows `usize`.
#[verifier::external_body]
pub(crate) fn encode_base64(b: &[u8]) -> (r: String)
    requires
        b@.len() <= isize::MAX as int,
    ensures
        r@ == base64_encoded(b@),
        base64_decoded(r@) == Some(b@),
{
    base64::Engine::encode(&base64::engine::general_purpose::STANDARD, b)
}

/// Relies on `base64::Engine::decode` with `general_purpose::STANDARD`: the
/// decoded bytes, or an error for invalid symbols, length or padding.
#[verifier::external_body]
pub(crate) fn decode_base64(s: &str) -> (r: Result<Vec<u8>, base64::DecodeError>)
    ensures
        match r {
            Ok(v) => base64_decoded(s@) == Some(v@),
            Err(_) => base64_decoded(s@) is None,
        },
{
    base64::Engine::decode(&base64::engine::general_purpose::STANDARD, s)
}

/// The audio payload of a request. On the wire the variant follows from the
/// shape of `data`: a string is base64 text, an array holds the bytes.
#[allow(inconsistent_fields)]
#[derive(Debug, Clone)]
pub enum AudioDataFormat {
    /// Base64-encoded audio.
    Base64 {
        /// The base64 text.
        data: String,
        /// Format hint, such as `"wav"`.
        _format: Option<String>,
    },
    /// Raw audio bytes.
    Binary {
        /// The bytes.
        data: Vec<u8>,
        /// Format hint, such as `"wav"`.
        _format: Option<String>,
    },
}

/// One transcription request: the audio and the options that go with it.
/// The options are carried through untouched.
#[derive(Debug, Clone)]
pub struct TranscriptionRequest<O> {
    /// The audio payload.
    pub audio_data: AudioDataFormat,
    /// The transcription options, if any.
    pub options: Option<O>,
}

/// `m` begins with `prefix`.
pub open spec fn starts_with(m: Seq<char>, prefix: Seq<char>) -> bool {
    prefix.len() <= m.len() && m.subrange(0, prefix.len() as int) == prefix
}

/// The raw bytes that `audio` stands for: the decoded text of a base64
/// payload, or the bytes of a non-empty binary one.
pub open spec fn audio_bytes_of(audio: AudioDataFormat) -> Option<Seq<u8>> {
    match audio {
        AudioDataFormat::Base64 { data, .. } => base64_decoded(data@),
        AudioDataFormat::Binary { data, .. } => if data@.len() == 0 {
            None
        } else {
            Some(data@)
        },
    }
}

/// Recovers the raw audio bytes of a request.
///
/// A base64 payload is decoded (an empty result is accepted); a binary
/// payload is taken as it is, and rejected when empty.
pub fn extract_audio_data<O>(request: &TranscriptionRequest<O>) -> (r: Result<Vec<u8>, String>)
    ensures
        match audio_bytes_of(request.audio_data) {
            Some(b) => r matches Ok(v) && v@ == b,
            None => r is Err,
        },
        request.audio_data matches AudioDataFormat::Base64 { .. } && r is Err ==> starts_with(
            r->Err_0@,
            "Failed to decode base64 audio data: "@,
        ),
        request.audio_data matches AudioDataFormat::Binary { .. } && r is Err ==> r->Err_0@
            == "Binary audio data is empty"@,
{
    match &request.audio_data {
        AudioDataFormat::Base64 { data, .. } => match decode_base64(data.as_str()) {
            Ok(bytes) => Ok(bytes),
            Err(e) => {
                let prefix = String::from_str("Failed to decode base64 audio data: ");
                let detail = e.to_string();
                let m = prefix.concat(detail.as_str());
                assert(m@.subrange(0, "Failed to decode base64 audio data: "@.len() as int)
                    =~= "Failed to decode base64 audio data: "@);
                Err(m)
            },
        },
        AudioDataFormat::Binary { data, .. } => {
            if data.len() == 0 {
                Err(String::from_str("Binary audio data is empty"))
            } else {
                Ok(data.clone())
            }
        },
    }
}

} // verus!
