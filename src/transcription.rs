//! Errors and option checks around the transcription engine.
use vstd::prelude::*;

verus! {

/// Failures of the transcription engine.
#[derive(Debug, Clone)]
pub enum TranscriptionError {
    /// The engine's context could not be used.
    WhisperContextError(String),
    /// The audio could not be read.
    AudioDataError(String),
    /// The engine ran and failed.
    TranscriptionFailed(String),
    /// The engine was configured wrongly.
    ConfigurationError(String),
}

impl TranscriptionError {
    /// The message that describes this error.
    pub fn message(&self) -> (r: String)
        ensures
            r@ == match self {
                TranscriptionError::WhisperContextError(e) => "Whisper context error: "@ + e@,
                TranscriptionError::AudioDataError(e) => "Audio data error: "@ + e@,
                TranscriptionError::TranscriptionFailed(e) => "Transcription failed: "@ + e@,
                TranscriptionError::ConfigurationError(e) => "Configuration error: "@ + e@,
            },
    {
        match self {
            TranscriptionError::WhisperContextError(e) => String::from_str(
                "Whisper context error: ",
            ).concat(e.as_str()),
            TranscriptionError::AudioDataError(e) => String::from_str("Audio data error: ").concat(
                e.as_str(),
            ),
            TranscriptionError::TranscriptionFailed(e) => String::from_str(
                "Transcription failed: ",
            ).concat(e.as_str()),
            TranscriptionError::ConfigurationError(e) => String::from_str(
                "Configuration error: ",
            ).concat(e.as_str()),
        }
    }
}

/// Failures in reading a JSON request.
#[derive(Debug, Clone)]
pub enum JsonError {
    /// The text is not valid JSON.
    InvalidJson(String),
    /// A required field is missing.
    MissingField(String),
    /// A field holds an invalid value: the field, then the value.
    InvalidFieldValue(String, String),
    /// The base64 text is invalid.
    InvalidBase64(String),
    /// The audio is unusable.
    AudioDataError(String),
}

impl JsonError {
    /// The message that describes this error.
    pub fn message(&self) -> (r: String)
        ensures
            r@ == match self {
                JsonError::InvalidJson(e) => "Invalid JSON: "@ + e@,
                JsonError::MissingField(f) => "Missing required field: "@ + f@,
                JsonError::InvalidFieldValue(f, v) => "Invalid value for field '"@ + f@ + "': "@
                    + v@,
                JsonError::InvalidBase64(e) => "Invalid base64 encoding: "@ + e@,
                JsonError::AudioDataError(e) => "Audio data error: "@ + e@,
            },
    {
        match self {
            JsonError::InvalidJson(e) => String::from_str("Invalid JSON: ").concat(e.as_str()),
            JsonError::MissingField(f) => String::from_str("Missing required field: ").concat(
                f.as_str(),
            ),
            JsonError::InvalidFieldValue(f, v) => String::from_str(
                "Invalid value for field '",
            ).concat(f.as_str()).concat("': ").concat(v.as_str()),
            JsonError::InvalidBase64(e) => String::from_str("Invalid base64 encoding: ").concat(
                e.as_str(),
            ),
            JsonError::AudioDataError(e) => String::from_str("Audio data error: ").concat(
                e.as_str(),
            ),
        }
    }
}

/// A transcription option that failed its check.
#[derive(Debug, Clone)]
pub struct ValidationError {
    /// The option's name.
    pub field: String,
    /// What is wrong with it.
    pub message: String,
}

impl ValidationError {
    /// A validation error for `field` with `message`.
    pub fn new(field: &str, message: &str) -> (r: ValidationError)
        ensures
            r.field@ == field@,
            r.message@ == message@,
    {
        ValidationError { field: String::from_str(field), message: String::from_str(message) }
    }
}

/// Static facts about a loaded model.
#[derive(Debug, Clone)]
pub struct ModelInfo {
    /// Audio sampling rate.
    pub sampling_rate: i32,
    /// Text context size.
    pub n_text_ctx: i32,
    /// Number of mel frequency bins.
    pub n_mels: i32,
    /// Whether the model is multilingual.
    pub multilingual: bool,
    /// Whether the model has an encoder.
    pub has_encoder: bool,
    /// Whether the model has a decoder.
    pub has_decoder: bool,
}

/// The language codes that requests may name.
pub open spec fn supported_language(code: Seq<char>) -> bool {
    code == "en"@ || code == "auto"@ || code == "zh"@ || code == "de"@ || code == "es"@ || code
        == "ru"@ || code == "ko"@ || code == "fr"@ || code == "ja"@ || code == "pt"@ || code
        == "tr"@ || code == "pl"@ || code == "ca"@
}

/// The names of the options that fail their checks, in the order language,
/// temperature, beam size, maximum tokens. An absent option passes.
pub open spec fn failing_options(
    language: Option<Seq<char>>,
    temperature_in_range: Option<bool>,
    beam_size: Option<i32>,
    max_tokens: Option<usize>,
) -> Seq<Seq<char>> {
    (if language matches Some(l) && !supported_language(l) {
        seq!["language"@]
    } else {
        Seq::empty()
    }) + (if temperature_in_range == Some(false) {
        seq!["temperature"@]
    } else {
        Seq::empty()
    }) + (if beam_size matches Some(b) && b < 1 {
        seq!["beam_size"@]
    } else {
        Seq::empty()
    }) + (if max_tokens == Some(0usize) {
        seq!["max_tokens"@]
    } else {
        Seq::empty()
    })
}

/// Whether two texts are equal.
fn same_text(a: &str, b: &str) -> (r: bool)
    ensures
        r == (a@ == b@),
{
    String::from_str(a) == String::from_str(b)
}

/// Whether `code` is a supported language code.
pub fn is_supported_language(code: &str) -> (r: bool)
    ensures
        r == supported_language(code@),
{
    same_text(code, "en") || same_text(code, "auto") || same_text(code, "zh") || same_text(
        code,
        "de",
    ) || same_text(code, "es") || same_text(code, "ru") || same_text(code, "ko") || same_text(
        code,
        "fr",
    ) || same_text(code, "ja") || same_text(code, "pt") || same_text(code, "tr") || same_text(
        code,
        "pl",
    ) || same_text(code, "ca")
}

/// Checks the transcription options, one error for each failing option in
/// the order language, temperature, beam size, maximum tokens. The
/// temperature comes as whether it lies in `[0, 1]`.
pub fn validate_option_fields(
    language: Option<&String>,
    temperature_in_range: Option<bool>,
    beam_size: Option<i32>,
    max_tokens: Option<usize>,
) -> (r: Vec<ValidationError>)
    ensures
        r@.len() == failing_options(
            match language {
                Some(l) => Some(l@),
                None => None,
            },
            temperature_in_range,
            beam_size,
            max_tokens,
        ).len(),
        forall|i: int|
            0 <= i < r@.len() ==> #[trigger] r@[i].field@ == failing_options(
                match language {
                    Some(l) => Some(l@),
                    None => None,
                },
                temperature_in_range,
                beam_size,
                max_tokens,
            )[i],
{
    let ghost lang = match language {
        Some(l) => Some(l@),
        None => None,
    };
    let mut errors: Vec<ValidationError> = Vec::new();
    let ghost mut expected: Seq<Seq<char>> = Seq::empty();
    if let Some(l) = language {
        if !is_supported_language(l.as_str()) {
            let m = String::from_str("Invalid language code: ").concat(l.as_str()).concat(
                ". Valid codes are: [\"en\", \"auto\", \"zh\", \"de\", \"es\", \"ru\", \"ko\", \"fr\", \"ja\", \"pt\", \"tr\", \"pl\", \"ca\"]",
            );
            errors.push(ValidationError { field: String::from_str("language"), message: m });
            proof {
                expected = expected + seq!["language"@];
            }
        }
    }
    if temperature_in_range == Some(false) {
        errors.push(ValidationError::new("temperature", "Temperature must be between 0.0 and 1.0"));
        proof {
            expected = expected + seq!["temperature"@];
        }
    }
    if let Some(b) = beam_size {
        if b < 1 {
            errors.push(ValidationError::new("beam_size", "Beam size must be greater than 0"));
            proof {
                expected = expected + seq!["beam_size"@];
            }
        }
    }
    if max_tokens == Some(0usize) {
        errors.push(ValidationError::new("max_tokens", "Max tokens must be greater than 0"));
        proof {
            expected = expected + seq!["max_tokens"@];
        }
    }
    assert(expected =~= failing_options(lang, temperature_in_range, beam_size, max_tokens));
    errors
}

/// The value of the little-endian 16-bit two's complement sample `lo, hi`.
pub open spec fn pcm16_value(lo: u8, hi: u8) -> int {
    if hi < 128 {
        hi as int * 256 + lo as int
    } else {
        hi as int * 256 + lo as int - 65536
    }
}

/// Reads `audio_data` as 16-bit little-endian PCM samples; a trailing odd
/// byte is ignored. Empty audio is refused before it reaches the engine.
pub fn pcm16_samples(audio_data: &[u8]) -> (r: Result<Vec<i16>, TranscriptionError>)
    ensures
        audio_data@.len() == 0 <==> r is Err,
        r matches Err(e) ==> (e matches TranscriptionError::AudioDataError(m) && m@
            == "Audio data is empty"@),
        r matches Ok(v) ==> {
            &&& v@.len() == audio_data@.len() / 2
            &&& forall|i: int|
                0 <= i < v@.len() ==> #[trigger] v@[i] as int == pcm16_value(
                    audio_data@[2 * i],
                    audio_data@[2 * i + 1],
                )
        },
{
    if audio_data.len() == 0 {
        return Err(TranscriptionError::AudioDataError(String::from_str("Audio data is empty")));
    }
    let len: usize = audio_data.len();
    let n: usize = len / 2;
    let mut samples: Vec<i16> = Vec::new();
    let mut i: usize = 0;
    while i < n
        invariant
            len == audio_data@.len(),
            n == audio_data@.len() / 2,
            i <= n,
            samples@.len() == i,
            forall|k: int|
                0 <= k < i ==> #[trigger] samples@[k] as int == pcm16_value(
                    audio_data@[2 * k],
                    audio_data@[2 * k + 1],
                ),
        decreases n - i,
    {
        let lo = audio_data[2 * i];
        let hi = audio_data[2 * i + 1];
        let unsigned: u16 = (hi as u16) * 256 + lo as u16;
        let sample: i16 = if unsigned < 32768 {
            unsigned as i16
        } else {
            (unsigned as i32 - 65536) as i16
        };
        samples.push(sample);
        i = i + 1;
    }
    Ok(samples)
}

/// The text that `str::trim` leaves of `s`.
pub uninterp spec fn trimmed(s: Seq<char>) -> Seq<char>;

/// Relies on `str::trim`: `s` without leading and trailing whitespace.
#[verifier::external_body]
fn trim_text(s: &str) -> (r: String)
    ensures
        r@ == trimmed(s@),
{
    s.trim().to_string()
}

/// The non-empty texts of `pieces`, in order, joined by single spaces.
pub open spec fn joined_nonempty(pieces: Seq<Seq<char>>) -> Seq<char>
    decreases pieces.len(),
{
    if pieces.len() == 0 {
        Seq::empty()
    } else {
        let rest = joined_nonempty(pieces.drop_last());
        let t = pieces.last();
        if t.len() == 0 {
            rest
        } else if rest.len() == 0 {
            t
        } else {
            rest + seq![' '] + t
        }
    }
}

/// The views of a list of strings.
pub open spec fn texts_of(v: Seq<String>) -> Seq<Seq<char>> {
    v.map_values(|s: String| s@)
}

/// Joins the non-empty texts among `pieces` with single spaces.
pub fn join_nonempty(pieces: &Vec<String>) -> (r: String)
    ensures
        r@ == joined_nonempty(texts_of(pieces@)),
{
    let mut out = String::new();
    let mut i: usize = 0;
    while i < pieces.len()
        invariant
            i <= pieces@.len(),
            out@ == joined_nonempty(texts_of(pieces@.subrange(0, i as int))),
        decreases pieces@.len() - i,
    {
        let piece = &pieces[i];
        proof {
            let pre = pieces@.subrange(0, i as int + 1);
            assert(texts_of(pre).drop_last() =~= texts_of(pieces@.subrange(0, i as int)));
            assert(texts_of(pre).last() == piece@);
        }
        if piece.as_str().unicode_len() > 0 {
            if out.as_str().unicode_len() > 0 {
                out.append(" ");
                proof {
                    reveal_strlit(" ");
                }
            }
            out.append(piece.as_str());
        }
        i = i + 1;
    }
    assert(pieces@.subrange(0, pieces@.len() as int) =~= pieces@);
    out
}

/// The views of a list of strings, each trimmed.
pub open spec fn trimmed_texts(v: Seq<String>) -> Seq<Seq<char>> {
    v.map_values(|s: String| trimmed(s@))
}

/// The transcript of the engine's segment texts: each one trimmed, the
/// empty ones left out, the rest joined by single spaces.
pub fn assemble_transcript(segment_texts: &Vec<String>) -> (r: String)
    ensures
        r@ == joined_nonempty(trimmed_texts(segment_texts@)),
{
    let mut pieces: Vec<String> = Vec::new();
    let mut i: usize = 0;
    while i < segment_texts.len()
        invariant
            i <= segment_texts@.len(),
            pieces@.len() == i,
            forall|k: int| 0 <= k < i ==> #[trigger] pieces@[k]@ == trimmed(segment_texts@[k]@),
        decreases segment_texts@.len() - i,
    {
        let t = trim_text(segment_texts[i].as_str());
        pieces.push(t);
        i = i + 1;
    }
    assert(texts_of(pieces@) =~= trimmed_texts(segment_texts@));
    join_nonempty(&pieces)
}

} // verus!
