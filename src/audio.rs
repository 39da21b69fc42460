//! Holding one complete audio payload between its arrival and its
//! transcription.
use vstd::prelude::*;

verus! {

/// `std::time::Instant`, held opaque: a moment of a monotonic clock.
#[verifier::external_type_specification]
#[verifier::external_body]
pub struct ExInstant(std::time::Instant);

/// One complete audio payload as received.
#[derive(Debug)]
pub struct AudioData {
    /// The raw audio bytes.
    pub data: Vec<u8>,
    /// When the payload was received.
    pub timestamp: std::time::Instant,
}

/// A consumer of complete audio payloads.
pub trait AudioProcessor {
    /// The audio bytes held at present (empty when none).
    spec fn held_audio(&self) -> Seq<u8>;

    /// Whether a payload is held.
    spec fn holds_audio(&self) -> bool;

    /// Takes a copy of `audio_data`, replacing what was held.
    fn process_audio(&mut self, audio_data: &AudioData) -> (r: Result<(), String>)
        ensures
            r is Ok,
            final(self).holds_audio(),
            final(self).held_audio() == audio_data.data@,
    ;

    /// Whether a payload is ready to be processed.
    fn is_ready(&self) -> (r: bool)
        ensures
            r == self.holds_audio(),
    ;

    /// The audio bytes held at present.
    fn accumulated_data(&self) -> (r: &Vec<u8>)
        ensures
            r@ == self.held_audio(),
    ;

    /// Drops what is held.
    fn clear_data(&mut self)
        ensures
            !final(self).holds_audio(),
            final(self).held_audio() == Seq::<u8>::empty(),
    ;
}

/// Holds at most one complete payload and the number of its bytes.
#[derive(Debug)]
pub struct AudioBuffer {
    audio_data: Option<AudioData>,
    total_bytes_received: u64,
    /// Stays empty: what `accumulated_data` lends out when nothing is held.
    no_audio: Vec<u8>,
}

impl AudioBuffer {
    /// The byte counter equals the size of the held payload, zero when none
    /// is held.
    pub closed spec fn wf(&self) -> bool {
        &&& self.no_audio@.len() == 0
        &&& match self.audio_data {
            Some(a) => self.total_bytes_received == a.data@.len(),
            None => self.total_bytes_received == 0,
        }
    }

    /// The held payload's bytes, if any.
    pub closed spec fn held(&self) -> Option<Seq<u8>> {
        match self.audio_data {
            Some(a) => Some(a.data@),
            None => None,
        }
    }

    /// An empty buffer.
    pub fn new() -> (r: AudioBuffer)
        ensures
            r.wf(),
            r.held() is None,
    {
        AudioBuffer { audio_data: None, total_bytes_received: 0, no_audio: Vec::new() }
    }

    /// Holds `audio_data`, replacing what was held.
    pub fn set_audio_data(&mut self, audio_data: AudioData)
        ensures
            final(self).wf(),
            final(self).held() == Some(audio_data.data@),
    {
        self.total_bytes_received = audio_data.data.len() as u64;
        self.audio_data = Some(audio_data);
        self.no_audio = Vec::new();
    }

    /// The held payload, if any.
    pub fn audio_data(&self) -> (r: Option<&AudioData>)
        ensures
            match self.held() {
                Some(b) => r matches Some(a) && a.data@ == b,
                None => r is None,
            },
    {
        self.audio_data.as_ref()
    }

    /// The size of the held payload in bytes, zero when none is held.
    pub fn total_bytes_received(&self) -> (r: u64)
        requires
            self.wf(),
        ensures
            r == match self.held() {
                Some(b) => b.len(),
                None => 0,
            },
    {
        self.total_bytes_received
    }

    /// Drops the held payload.
    pub fn clear(&mut self)
        ensures
            final(self).wf(),
            final(self).held() is None,
    {
        self.audio_data = None;
        self.total_bytes_received = 0;
        self.no_audio = Vec::new();
    }

    /// Whether a payload is held.
    pub fn has_audio_data(&self) -> (r: bool)
        ensures
            r == self.held() is Some,
    {
        self.audio_data.is_some()
    }

    /// Takes the held payload out, leaving the buffer empty.
    pub fn take_audio_data(&mut self) -> (r: Option<AudioData>)
        requires
            old(self).wf(),
        ensures
            final(self).wf(),
            final(self).held() is None,
            match old(self).held() {
                Some(b) => r matches Some(a) && a.data@ == b,
                None => r is None,
            },
    {
        let taken = self.audio_data.take();
        self.total_bytes_received = 0;
        taken
    }
}

/// Through the processor view a well-formed buffer shows its held payload,
/// or no bytes at all.
pub proof fn lemma_processor_view(b: AudioBuffer)
    requires
        b.wf(),
    ensures
        b.holds_audio() == b.held() is Some,
        b.held_audio() == match b.held() {
            Some(d) => d,
            None => Seq::<u8>::empty(),
        },
{
}

impl AudioProcessor for AudioBuffer {
    closed spec fn held_audio(&self) -> Seq<u8> {
        match self.held() {
            Some(b) => b,
            None => self.no_audio@,
        }
    }

    closed spec fn holds_audio(&self) -> bool {
        self.held() is Some
    }

    fn process_audio(&mut self, audio_data: &AudioData) -> (r: Result<(), String>) {
        let copy = AudioData { data: audio_data.data.clone(), timestamp: audio_data.timestamp };
        self.set_audio_data(copy);
        Ok(())
    }

    fn is_ready(&self) -> (r: bool) {
        self.has_audio_data()
    }

    fn accumulated_data(&self) -> (r: &Vec<u8>) {
        match &self.audio_data {
            Some(a) => &a.data,
            None => &self.no_audio,
        }
    }

    fn clear_data(&mut self) {
        self.clear();
    }
}

} // verus!
