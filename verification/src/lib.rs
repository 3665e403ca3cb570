//! # wavekat-asr
//!
//! Streaming speech-to-text for voice pipelines: one small trait,
//! [`StreamingAsr`], and the vocabulary of events its backends emit.
//!
//! The crate holds everything a backend decides: which model files it needs
//! and where to look for them, how a recognizer is configured, which
//! transcript events follow from what the recognizer reports, and how a
//! download reports its progress. Every one of those decisions carries a
//! contract that is proved. The calls that reach outside the process (the
//! file system, the HuggingFace Hub, the native recognizer) are made by the
//! application around the crate, through the closures and the call/reply
//! protocol documented in [`backends::sherpa_onnx`] and [`download`].

use vstd::prelude::*;

pub mod backends;
pub mod download;
pub mod error;
pub mod outside;
pub mod text;

pub use error::AsrError;
pub use wavekat_core::AudioFrame;

verus! {

/// Which side of a two-channel call the audio (or transcript) belongs to.
///
/// The daemon tees both RTP directions through one ASR instance, so every
/// event needs to carry the channel it came from.
#[derive(Debug, Clone, Copy, PartialEq, Eq, Structural)]
pub enum Channel {
    /// Audio captured from the local mic: what the user said.
    Local,
    /// Audio received over RTP: what the remote party said.
    Remote,
}

/// A single-precision number, held by its IEEE-754 bit pattern.
///
/// The crate never computes with such a number; it stores it and hands it
/// on. `f32::from_bits` and `f32::to_bits` convert losslessly at the edge.
#[derive(Debug, Clone, Copy, PartialEq, Eq, Structural)]
pub struct F32Bits {
    pub bits: u32,
}

/// The bit pattern of `1.0`.
pub const ONE_BITS: u32 = 0x3f80_0000;

/// The sign bit alone: the bit pattern of `-0.0`.
pub const NEGATIVE_ZERO_BITS: u32 = 0x8000_0000;

impl F32Bits {
    /// Whether the number lies in `[0.0, 1.0]`. Non-negative singles are
    /// ordered as their bit patterns are, from zero up; minus zero counts as
    /// zero.
    pub open spec fn in_unit_interval(self) -> bool {
        self.bits <= ONE_BITS || self.bits == NEGATIVE_ZERO_BITS
    }
}

/// One transcript event emitted by a [`StreamingAsr`] backend.
#[derive(Debug, Clone)]
pub enum TranscriptEvent {
    /// Backend has begun receiving speech on this channel.
    ///
    /// Optional: not every backend emits this; consumers must not gate
    /// finals on having seen a `SpeechStarted` first.
    SpeechStarted { channel: Channel, ts_ms: u64 },
    /// Backend has detected end of speech on this channel.
    ///
    /// Optional, same caveat as [`SpeechStarted`](TranscriptEvent::SpeechStarted).
    SpeechEnded { channel: Channel, ts_ms: u64 },
    /// In-flight transcript that may be revised before becoming
    /// [`Final`](TranscriptEvent::Final). Render but do not persist.
    Partial {
        channel: Channel,
        /// Stream time in ms.
        ts_ms: u64,
        text: String,
    },
    /// Stable transcript for a segment. Persist this; drop any partials
    /// that share the same channel and overlapping `ts_ms..end_ms`.
    Final {
        channel: Channel,
        ts_ms: u64,
        end_ms: u64,
        text: String,
        /// Backend-reported confidence in `[0.0, 1.0]`. Backends that
        /// don't report confidence should emit `1.0`.
        confidence: F32Bits,
    },
    /// Backend hit a non-fatal error and continues. Fatal errors come
    /// back from [`StreamingAsr::push_audio`] / [`StreamingAsr::finish`]
    /// as `Err`.
    Warning(String),
}

/// What a [`TranscriptEvent`] says, with its texts as character sequences.
pub enum EventView {
    SpeechStarted { channel: Channel, ts_ms: nat },
    SpeechEnded { channel: Channel, ts_ms: nat },
    Partial { channel: Channel, ts_ms: nat, text: Seq<char> },
    Final { channel: Channel, ts_ms: nat, end_ms: nat, text: Seq<char>, confidence: F32Bits },
    Warning(Seq<char>),
}

impl View for TranscriptEvent {
    type V = EventView;

    open spec fn view(&self) -> EventView {
        match *self {
            TranscriptEvent::SpeechStarted { channel, ts_ms } => EventView::SpeechStarted {
                channel,
                ts_ms: ts_ms as nat,
            },
            TranscriptEvent::SpeechEnded { channel, ts_ms } => EventView::SpeechEnded {
                channel,
                ts_ms: ts_ms as nat,
            },
            TranscriptEvent::Partial { channel, ts_ms, text } => EventView::Partial {
                channel,
                ts_ms: ts_ms as nat,
                text: text@,
            },
            TranscriptEvent::Final { channel, ts_ms, end_ms, text, confidence } => EventView::Final {
                channel,
                ts_ms: ts_ms as nat,
                end_ms: end_ms as nat,
                text: text@,
                confidence,
            },
            TranscriptEvent::Warning(message) => EventView::Warning(message@),
        }
    }
}

/// An event says what it holds: its kind, its channel, its times, its text
/// and its confidence.
pub proof fn law_events_say_what_they_hold(event: TranscriptEvent)
    ensures
        event matches TranscriptEvent::SpeechStarted { channel, ts_ms } ==> event@ == (
        EventView::SpeechStarted { channel, ts_ms: ts_ms as nat }),
        event matches TranscriptEvent::SpeechEnded { channel, ts_ms } ==> event@ == (
        EventView::SpeechEnded { channel, ts_ms: ts_ms as nat }),
        event matches TranscriptEvent::Partial { channel, ts_ms, text } ==> event@ == (
        EventView::Partial { channel, ts_ms: ts_ms as nat, text: text@ }),
        event matches TranscriptEvent::Final { channel, ts_ms, end_ms, text, confidence }
            ==> event@ == (EventView::Final {
            channel,
            ts_ms: ts_ms as nat,
            end_ms: end_ms as nat,
            text: text@,
            confidence,
        }),
        event matches TranscriptEvent::Warning(message) ==> event@ == EventView::Warning(message@),
{
}

/// A streaming ASR session.
///
/// Implementations are expected to:
///
/// - Accept any [`AudioFrame`] sample rate; resample internally.
/// - Be `Send` so the daemon can move them between tasks.
/// - Emit [`TranscriptEvent`]s via the receiver returned at construction
///   time (see backend docs for the constructor shape).
pub trait StreamingAsr: Send {
    /// Whether the session's counters have room for one more push. They are
    /// 64 bits wide, so no real session runs out. A backend that counts
    /// nothing always has room.
    open spec fn has_room(&self) -> bool {
        true
    }

    /// Push audio into the stream.
    ///
    /// Returns synchronously; transcript events are delivered on the
    /// backend's receiver, not as a return value here.
    fn push_audio(&mut self, frame: &AudioFrame, channel: Channel) -> (result: Result<(), AsrError>)
        requires
            old(self).has_room(),
    ;

    /// Signal end-of-stream. The backend should flush any remaining
    /// audio and emit a terminal [`Final`](TranscriptEvent::Final) per
    /// channel where applicable.
    fn finish(&mut self) -> (result: Result<(), AsrError>);

    /// Reset per-channel utterance state: the next
    /// [`push_audio`](StreamingAsr::push_audio) starts a fresh utterance on
    /// `channel`.
    fn reset(&mut self, channel: Channel) -> (result: Result<(), AsrError>);
}

} // verus!
