//! The decisions of the ingestion loop, one event at a time.
//!
//! The loop itself (reading, transcribing, writing results) runs outside;
//! it hands each outcome of a read to [`IngestSession::next_action`] and
//! performs the action that comes back. A bad payload is skipped without
//! ending the stream, an interrupted read is retried, any other read failure
//! ends the loop, and every accepted frame is handed to transcription exactly
//! once.
use vstd::prelude::*;
use crate::audio::{AudioBuffer, AudioData};
use crate::frame::{split_at_rightmost, StreamBuffer};

verus! {

/// The outcome of one read of the input.
#[derive(Debug)]
pub enum StreamEvent {
    /// A request line whose audio was recovered.
    Audio(AudioData),
    /// A chunk of legacy framed bytes.
    Chunk(Vec<u8>),
    /// A payload that was dropped (malformed JSON, missing audio, bad
    /// base64, empty binary audio), with the reason.
    Rejected(String),
    /// The read was interrupted and may be tried again.
    Interrupted,
    /// The read failed for good, with the reason.
    ReadFailed(String),
    /// The input ended.
    EndOfStream,
}

/// What the loop does next.
#[derive(Debug, Clone, PartialEq, Eq)]
pub enum StreamAction {
    /// Transcribe these audio bytes and emit one result for them.
    Transcribe(Vec<u8>),
    /// Report the reason and read on.
    Skip(String),
    /// Read again.
    Retry,
    /// Read on: no complete frame yet.
    Wait,
    /// End the loop normally.
    Stop,
    /// End the loop with this error.
    Fail(String),
}

/// The state kept across the events of one input stream.
#[derive(Debug)]
pub struct IngestSession {
    audio: AudioBuffer,
    frames: StreamBuffer,
}

impl IngestSession {
    /// Both buffers are well formed and no request audio is held between
    /// events.
    pub closed spec fn wf(&self) -> bool {
        &&& self.audio.wf()
        &&& self.audio.held() is None
        &&& self.frames.wf()
    }

    /// The legacy bytes not yet cut into a frame.
    pub closed spec fn pending(&self) -> Seq<u8> {
        self.frames@
    }

    /// A session with nothing pending.
    pub fn new() -> (r: IngestSession)
        ensures
            r.wf(),
            r.pending() == Seq::<u8>::empty(),
    {
        IngestSession { audio: AudioBuffer::new(), frames: StreamBuffer::new() }
    }

    /// Decides what to do with the outcome of one read.
    pub fn next_action(&mut self, event: StreamEvent) -> (r: StreamAction)
        requires
            old(self).wf(),
        ensures
            final(self).wf(),
            match event {
                StreamEvent::Audio(a) => r matches StreamAction::Transcribe(v) && v@ == a.data@
                    && final(self).pending() == old(self).pending(),
                StreamEvent::Chunk(c) => if old(self).pending().len() + c@.len() > usize::MAX {
                    r is Fail && final(self).pending() == old(self).pending()
                } else {
                    match split_at_rightmost(old(self).pending() + c@) {
                        Some((before, after)) => r matches StreamAction::Transcribe(v) && v@
                            == before && final(self).pending() == after,
                        None => r is Wait && final(self).pending() == old(self).pending() + c@,
                    }
                },
                StreamEvent::Rejected(m) => r == StreamAction::Skip(m) && final(self).pending()
                    == old(self).pending(),
                StreamEvent::Interrupted => r is Retry && final(self).pending()
                    == old(self).pending(),
                StreamEvent::ReadFailed(m) => r == StreamAction::Fail(m) && final(self).pending()
                    == old(self).pending(),
                StreamEvent::EndOfStream => r is Stop && final(self).pending()
                    == old(self).pending(),
            },
    {
        match event {
            StreamEvent::Audio(a) => {
                self.audio.set_audio_data(a);
                match self.audio.take_audio_data() {
                    Some(taken) => StreamAction::Transcribe(taken.data),
                    None => StreamAction::Wait,
                }
            },
            StreamEvent::Chunk(c) => {
                let held = self.frames.byte_count();
                if c.len() > usize::MAX - held {
                    return StreamAction::Fail(
                        String::from_str("Pending legacy bytes exceed the addressable size"),
                    );
                }
                self.frames.append(c.as_slice());
                match self.frames.extract() {
                    Some(frame) => StreamAction::Transcribe(frame),
                    None => StreamAction::Wait,
                }
            },
            StreamEvent::Rejected(m) => StreamAction::Skip(m),
            StreamEvent::Interrupted => StreamAction::Retry,
            StreamEvent::ReadFailed(m) => StreamAction::Fail(m),
            StreamEvent::EndOfStream => StreamAction::Stop,
        }
    }
}

} // verus!
