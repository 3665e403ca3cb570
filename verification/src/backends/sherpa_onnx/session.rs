//! The transcription session: which transcript events follow from the audio
//! that was pushed and from what the recognizer reports.
//!
//! The session never touches the recognizer itself. It names the next
//! [`RecognizerCall`] to make, is told the [`RecognizerReply`], and emits
//! events in between. A push or a finish opens such an exchange; the exchange
//! is over when [`SherpaOnnxAsr::pump`] names no further call.

use std::sync::mpsc::{Receiver, Sender};
use vstd::prelude::*;
use wavekat_core::AudioFrame;

use crate::outside::{event_channel, sample_count, sample_rate, send_event};
use crate::{AsrError, Channel, EventView, F32Bits, TranscriptEvent, ONE_BITS};

verus! {

/// The one sample rate the recognizer is fed with, in Hz.
pub const SAMPLE_RATE: i32 = 16_000;

/// The same rate as audio frames report it.
pub const FRAME_RATE: u32 = 16_000;

/// A call on the recognizer, or on the stream it decodes.
#[derive(Debug, Clone, Copy, PartialEq, Eq, Structural)]
pub enum RecognizerCall {
    /// `OnlineStream::accept_waveform` with this rate and the samples of the
    /// frame that was just pushed.
    AcceptWaveform { sample_rate: i32 },
    /// `OnlineStream::input_finished`.
    InputFinished,
    /// `OnlineRecognizer::is_ready`.
    IsReady,
    /// `OnlineRecognizer::decode`.
    Decode,
    /// `OnlineRecognizer::get_result`.
    GetResult,
    /// `OnlineRecognizer::is_endpoint`.
    IsEndpoint,
    /// `OnlineRecognizer::reset`.
    Reset,
}

/// What a [`RecognizerCall`] returned.
#[derive(Debug)]
pub enum RecognizerReply {
    /// The call returned nothing.
    Done,
    /// What `is_ready` said.
    Ready(bool),
    /// The text of the hypothesis, if there was one.
    Hypothesis(Option<String>),
    /// What `is_endpoint` said.
    Endpoint(bool),
}

/// What a [`RecognizerReply`] says.
pub enum ReplyView {
    Done,
    Ready(bool),
    Hypothesis(Option<Seq<char>>),
    Endpoint(bool),
}

impl View for RecognizerReply {
    type V = ReplyView;

    open spec fn view(&self) -> ReplyView {
        match *self {
            RecognizerReply::Done => ReplyView::Done,
            RecognizerReply::Ready(ready) => ReplyView::Ready(ready),
            RecognizerReply::Hypothesis(None) => ReplyView::Hypothesis(None),
            RecognizerReply::Hypothesis(Some(text)) => ReplyView::Hypothesis(Some(text@)),
            RecognizerReply::Endpoint(endpoint) => ReplyView::Endpoint(endpoint),
        }
    }
}

impl RecognizerCall {
    /// Whether a call can return this.
    pub open spec fn answered_by(self, reply: ReplyView) -> bool {
        match self {
            RecognizerCall::IsReady => reply is Ready,
            RecognizerCall::GetResult => reply is Hypothesis,
            RecognizerCall::IsEndpoint => reply is Endpoint,
            _ => reply is Done,
        }
    }

    /// The call to make next, once a call has returned this: decode for as
    /// long as the recognizer is ready, then read its hypothesis, then ask
    /// for an endpoint, and reset the stream if there is one.
    pub open spec fn then_call(self, reply: ReplyView) -> Option<RecognizerCall> {
        match (self, reply) {
            (RecognizerCall::AcceptWaveform { .. }, _) => Some(RecognizerCall::IsReady),
            (RecognizerCall::InputFinished, _) => Some(RecognizerCall::IsReady),
            (RecognizerCall::Decode, _) => Some(RecognizerCall::IsReady),
            (RecognizerCall::IsReady, ReplyView::Ready(true)) => Some(RecognizerCall::Decode),
            (RecognizerCall::IsReady, _) => Some(RecognizerCall::GetResult),
            (RecognizerCall::GetResult, _) => Some(RecognizerCall::IsEndpoint),
            (RecognizerCall::IsEndpoint, ReplyView::Endpoint(true)) => Some(RecognizerCall::Reset),
            (RecognizerCall::IsEndpoint, _) => None,
            (RecognizerCall::Reset, _) => None,
        }
    }
}

/// Streaming ASR session backed by sherpa-onnx.
///
/// # Limitations
///
/// - Only `Channel::Local` is supported. Pushing `Channel::Remote`
///   returns [`AsrError::InvalidFrame`].
/// - Only 16 kHz frames are accepted.
pub struct SherpaOnnxAsr {
    tx: Sender<TranscriptEvent>,
    last_emitted: String,
    samples_pushed: u64,
    last_utt_start_ms: u64,
    finished: bool,
    pending: Option<RecognizerCall>,
}

/// The state of a [`SherpaOnnxAsr`].
pub struct SessionView {
    /// The channel the events go to.
    pub channel: int,
    /// Every event emitted so far, oldest first.
    pub sent: Seq<EventView>,
    /// The hypothesis of the running utterance as last emitted; empty before
    /// the first one.
    pub last_emitted: Seq<char>,
    /// Samples accepted so far.
    pub samples_pushed: nat,
    /// Where on the audio clock the running utterance began.
    pub last_utt_start_ms: nat,
    /// Whether the session was finished.
    pub finished: bool,
    /// The recognizer call the session waits for, if any.
    pub pending: Option<RecognizerCall>,
}

impl View for SherpaOnnxAsr {
    type V = SessionView;

    closed spec fn view(&self) -> SessionView {
        SessionView {
            channel: crate::outside::channel_of(self.tx),
            sent: crate::outside::sent(self.tx),
            last_emitted: self.last_emitted@,
            samples_pushed: self.samples_pushed as nat,
            last_utt_start_ms: self.last_utt_start_ms as nat,
            finished: self.finished,
            pending: self.pending,
        }
    }
}

/// Where a number of samples puts the audio clock, in whole milliseconds.
pub open spec fn clock_ms(samples: nat) -> nat {
    samples * 1000 / 16_000
}

impl SessionView {
    /// A session at its start, with this channel for its events.
    pub open spec fn started(channel: int) -> SessionView {
        SessionView {
            channel,
            sent: Seq::empty(),
            last_emitted: Seq::empty(),
            samples_pushed: 0,
            last_utt_start_ms: 0,
            finished: false,
            pending: None,
        }
    }

    /// The audio clock.
    pub open spec fn current_ms(self) -> nat {
        clock_ms(self.samples_pushed)
    }

    /// Why a push is refused, if it is: the session is over, the channel is
    /// not the local one, or the rate is not 16 kHz, in that order.
    pub open spec fn refusal(self, channel: Channel, sample_rate: u32) -> Option<
        crate::error::ErrorView,
    > {
        if self.finished {
            Some(crate::error::ErrorView::AlreadyFinished)
        } else if channel != Channel::Local {
            Some(
                crate::error::ErrorView::InvalidFrame(
                    "sherpa-onnx Phase 1 backend supports Channel::Local only"@,
                ),
            )
        } else if sample_rate != FRAME_RATE {
            Some(
                crate::error::ErrorView::InvalidFrame(
                    "sherpa-onnx Phase 1 backend requires 16 kHz audio, got "@
                        + crate::text::decimal_digits(sample_rate as nat) + " Hz"@,
                ),
            )
        } else {
            None
        }
    }

    /// An accepted push of this many samples: they count, and are to be fed
    /// to the stream.
    pub open spec fn fed(self, samples: nat) -> SessionView {
        SessionView {
            samples_pushed: self.samples_pushed + samples,
            pending: Some(RecognizerCall::AcceptWaveform { sample_rate: SAMPLE_RATE }),
            ..self
        }
    }

    /// An accepted finish: the stream is to be told that its input is over.
    pub open spec fn closing(self) -> SessionView {
        SessionView { finished: true, pending: Some(RecognizerCall::InputFinished), ..self }
    }

    /// A new hypothesis becomes a partial, unless it is empty or the one
    /// that was emitted last.
    pub open spec fn heard(self, hypothesis: Option<Seq<char>>) -> SessionView {
        match hypothesis {
            Some(text) if text.len() > 0 && text != self.last_emitted => SessionView {
                sent: self.sent.push(
                    EventView::Partial {
                        channel: Channel::Local,
                        ts_ms: self.current_ms(),
                        text,
                    },
                ),
                last_emitted: text,
                ..self
            },
            _ => self,
        }
    }

    /// The hypothesis emitted last becomes final, if there is one.
    pub open spec fn promoted(self) -> SessionView {
        if self.last_emitted.len() > 0 {
            SessionView {
                sent: self.sent.push(
                    EventView::Final {
                        channel: Channel::Local,
                        ts_ms: self.last_utt_start_ms,
                        end_ms: self.current_ms(),
                        text: self.last_emitted,
                        confidence: F32Bits { bits: ONE_BITS },
                    },
                ),
                last_emitted: Seq::empty(),
                ..self
            }
        } else {
            self
        }
    }

    /// An endpoint ends the running utterance and starts the next.
    pub open spec fn at_endpoint(self, endpoint: bool) -> SessionView {
        if endpoint {
            SessionView { last_utt_start_ms: self.current_ms(), ..self.promoted() }
        } else {
            self
        }
    }

    /// The exchange with the recognizer is over. A finished session flushes
    /// the hypothesis that no endpoint promoted, and says that speech ended.
    pub open spec fn settled(self) -> SessionView {
        if self.finished {
            let flushed = self.promoted();
            SessionView {
                sent: flushed.sent.push(
                    EventView::SpeechEnded { channel: Channel::Local, ts_ms: self.current_ms() },
                ),
                pending: None,
                ..flushed
            }
        } else {
            SessionView { pending: None, ..self }
        }
    }

    /// The state once the pending call has returned this.
    pub open spec fn answered(self, reply: ReplyView) -> SessionView
        recommends
            self.pending is Some,
            self.pending->0.answered_by(reply),
    {
        let noted = match (self.pending->0, reply) {
            (RecognizerCall::GetResult, ReplyView::Hypothesis(hypothesis)) => self.heard(
                hypothesis,
            ),
            (RecognizerCall::IsEndpoint, ReplyView::Endpoint(endpoint)) => self.at_endpoint(
                endpoint,
            ),
            _ => self,
        };
        match self.pending->0.then_call(reply) {
            Some(call) => SessionView { pending: Some(call), ..noted },
            None => noted.settled(),
        }
    }

    /// A reset forgets the running utterance and starts the next one here.
    pub open spec fn restarted(self) -> SessionView {
        SessionView {
            last_emitted: Seq::empty(),
            last_utt_start_ms: self.current_ms(),
            ..self
        }
    }
}

impl SherpaOnnxAsr {
    /// Whether the session's events go to this receiver. No call on a session
    /// changes that.
    pub open spec fn feeds(&self, rx: Receiver<TranscriptEvent>) -> bool {
        self@.channel == crate::outside::channel_read(rx)
    }

    /// A session at its start, and the receiver of its events.
    pub(crate) fn start() -> (session: (Self, Receiver<TranscriptEvent>))
        ensures
            session.0@ == SessionView::started(crate::outside::channel_read(session.1)),
            session.0.feeds(session.1),
    {
        let (tx, rx) = event_channel();
        (
            SherpaOnnxAsr {
                tx,
                last_emitted: String::new(),
                samples_pushed: 0,
                last_utt_start_ms: 0,
                finished: false,
                pending: None,
            },
            rx,
        )
    }

    /// The audio clock: how much audio the session has accepted, in whole
    /// milliseconds.
    pub fn current_ms(&self) -> (ms: u64)
        ensures
            ms == self@.current_ms(),
    {
        // 1000 / 16_000 reduces to 1 / 16.
        self.samples_pushed / 16
    }

    /// The recognizer call the session waits for, if any.
    pub fn pending(&self) -> (call: Option<RecognizerCall>)
        ensures
            call == self@.pending,
    {
        self.pending
    }

    /// Push a block of `sample_count` samples taken at `sample_rate`. On
    /// success the caller feeds the samples to the stream as the returned
    /// call says, and goes on with [`pump`](Self::pump). A refused push has
    /// no effect.
    pub fn accept_samples(
        &mut self,
        channel: Channel,
        sample_rate: u32,
        sample_count: usize,
    ) -> (result: Result<RecognizerCall, AsrError>)
        requires
            old(self)@.pending is None,
            old(self)@.refusal(channel, sample_rate) is None ==> old(self)@.samples_pushed
                + sample_count <= u64::MAX,
        ensures
            match old(self)@.refusal(channel, sample_rate) {
                Some(why) => result matches Err(error) && error@ == why && final(self)@
                    == old(self)@,
                None => result == Ok::<RecognizerCall, AsrError>(
                    RecognizerCall::AcceptWaveform { sample_rate: SAMPLE_RATE },
                ) && final(self)@ == old(self)@.fed(sample_count as nat),
            },
            forall|rx: Receiver<TranscriptEvent>| final(self).feeds(rx) == old(self).feeds(rx),
    {
        if self.finished {
            return Err(AsrError::AlreadyFinished);
        }
        if channel != Channel::Local {
            return Err(
                AsrError::InvalidFrame(
                    "sherpa-onnx Phase 1 backend supports Channel::Local only".to_string(),
                ),
            );
        }
        if sample_rate != FRAME_RATE {
            let got: String = crate::text::decimal(sample_rate);
            let mut message: String = crate::text::join(
                "sherpa-onnx Phase 1 backend requires 16 kHz audio, got ",
                got.as_str(),
            );
            message.append(" Hz");
            return Err(AsrError::InvalidFrame(message));
        }
        let call: RecognizerCall = RecognizerCall::AcceptWaveform { sample_rate: SAMPLE_RATE };
        self.samples_pushed = self.samples_pushed + sample_count as u64;
        self.pending = Some(call);
        Ok(call)
    }

    /// Push a frame of audio: [`accept_samples`](Self::accept_samples) with
    /// what the frame holds. `None`, without effect, where the sample counter
    /// cannot take an otherwise acceptable frame.
    pub fn push_audio(&mut self, frame: &AudioFrame, channel: Channel) -> (result: Option<
        Result<RecognizerCall, AsrError>,
    >)
        requires
            old(self)@.pending is None,
        ensures
            match old(self)@.refusal(channel, crate::outside::frame_rate(*frame)) {
                Some(why) => result matches Some(Err(error)) && error@ == why && final(self)@
                    == old(self)@,
                None => {
                    let samples = crate::outside::frame_sample_count(*frame) as nat;
                    if old(self)@.samples_pushed + samples <= u64::MAX {
                        result == Some(
                            Ok::<RecognizerCall, AsrError>(
                                RecognizerCall::AcceptWaveform { sample_rate: SAMPLE_RATE },
                            ),
                        ) && final(self)@ == old(self)@.fed(samples)
                    } else {
                        result is None && final(self)@ == old(self)@
                    }
                },
            },
            forall|rx: Receiver<TranscriptEvent>| final(self).feeds(rx) == old(self).feeds(rx),
    {
        let rate: u32 = sample_rate(frame);
        let count: usize = sample_count(frame);
        let acceptable: bool = !self.finished && channel == Channel::Local && rate == FRAME_RATE;
        if acceptable && count as u64 > u64::MAX - self.samples_pushed {
            return None;
        }
        Some(self.accept_samples(channel, rate, count))
    }

    /// Signal end-of-stream. On success the caller makes the returned call
    /// and goes on with [`pump`](Self::pump), which flushes at the end of the
    /// exchange. A refused finish has no effect.
    pub fn finish(&mut self) -> (result: Result<RecognizerCall, AsrError>)
        requires
            old(self)@.pending is None,
        ensures
            old(self)@.finished ==> result == Err::<RecognizerCall, AsrError>(
                AsrError::AlreadyFinished,
            ) && final(self)@ == old(self)@,
            !old(self)@.finished ==> result == Ok::<RecognizerCall, AsrError>(
                RecognizerCall::InputFinished,
            ) && final(self)@ == old(self)@.closing(),
            forall|rx: Receiver<TranscriptEvent>| final(self).feeds(rx) == old(self).feeds(rx),
    {
        if self.finished {
            return Err(AsrError::AlreadyFinished);
        }
        self.finished = true;
        self.pending = Some(RecognizerCall::InputFinished);
        Ok(RecognizerCall::InputFinished)
    }

    /// Take what the pending call returned, emit what follows from it, and
    /// name the next call, or none if the exchange is over.
    pub fn pump(&mut self, reply: RecognizerReply) -> (next: Option<RecognizerCall>)
        requires
            old(self)@.pending is Some,
            old(self)@.pending->0.answered_by(reply@),
        ensures
            final(self)@ == old(self)@.answered(reply@),
            next == final(self)@.pending,
            forall|rx: Receiver<TranscriptEvent>| final(self).feeds(rx) == old(self).feeds(rx),
    {
        match reply {
            RecognizerReply::Done => {
                match self.pending {
                    Some(RecognizerCall::Reset) => self.settle(),
                    _ => self.pending = Some(RecognizerCall::IsReady),
                }
            },
            RecognizerReply::Ready(ready) => {
                self.pending = Some(
                    if ready {
                        RecognizerCall::Decode
                    } else {
                        RecognizerCall::GetResult
                    },
                );
            },
            RecognizerReply::Hypothesis(hypothesis) => {
                self.hear(hypothesis);
                self.pending = Some(RecognizerCall::IsEndpoint);
            },
            RecognizerReply::Endpoint(endpoint) => {
                if endpoint {
                    let end_ms: u64 = self.current_ms();
                    self.promote();
                    self.last_utt_start_ms = end_ms;
                    self.pending = Some(RecognizerCall::Reset);
                } else {
                    self.settle();
                }
            },
        }
        self.pending
    }

    /// Reset the utterance state of a channel. `true` where the recognizer's
    /// stream has to be reset with it: on the local channel, the only one
    /// with a stream. Nothing changes on the other.
    pub fn reset(&mut self, channel: Channel) -> (result: Result<bool, AsrError>)
        requires
            old(self)@.pending is None,
        ensures
            result == Ok::<bool, AsrError>(channel == Channel::Local),
            channel == Channel::Local ==> final(self)@ == old(self)@.restarted(),
            channel != Channel::Local ==> final(self)@ == old(self)@,
            forall|rx: Receiver<TranscriptEvent>| final(self).feeds(rx) == old(self).feeds(rx),
    {
        if channel != Channel::Local {
            return Ok(false);
        }
        self.last_emitted = String::new();
        self.last_utt_start_ms = self.current_ms();
        Ok(true)
    }

    /// Emits a partial for a new hypothesis.
    fn hear(&mut self, hypothesis: Option<String>)
        ensures
            final(self)@ == old(self)@.heard(
                match hypothesis {
                    Some(text) => Some(text@),
                    None => None,
                },
            ),
    {
        if let Some(text) = hypothesis {
            if !text.as_str().is_empty() && text != self.last_emitted {
                let ts_ms: u64 = self.current_ms();
                // Best-effort: a consumer that is gone wants no events.
                let _taken: bool = send_event(
                    &mut self.tx,
                    TranscriptEvent::Partial {
                        channel: Channel::Local,
                        ts_ms,
                        text: text.clone(),
                    },
                );
                self.last_emitted = text;
            }
        }
    }

    /// Emits a final for the hypothesis emitted last.
    fn promote(&mut self)
        ensures
            final(self)@ == old(self)@.promoted(),
    {
        if !self.last_emitted.as_str().is_empty() {
            let end_ms: u64 = self.current_ms();
            let mut text: String = String::new();
            std::mem::swap(&mut text, &mut self.last_emitted);
            let _taken: bool = send_event(
                &mut self.tx,
                TranscriptEvent::Final {
                    channel: Channel::Local,
                    ts_ms: self.last_utt_start_ms,
                    end_ms,
                    text,
                    confidence: F32Bits { bits: ONE_BITS },
                },
            );
        }
    }

    /// Ends an exchange with the recognizer.
    fn settle(&mut self)
        ensures
            final(self)@ == old(self)@.settled(),
    {
        self.pending = None;
        if self.finished {
            self.promote();
            let ts_ms: u64 = self.current_ms();
            let _taken: bool = send_event(
                &mut self.tx,
                TranscriptEvent::SpeechEnded { channel: Channel::Local, ts_ms },
            );
        }
    }
}

impl SherpaOnnxAsr {
    /// A session shows what it holds: its channel, its history, the open
    /// hypothesis, the audio so far, the start of the utterance, and what it
    /// waits for.
    proof fn law_session_shows_what_it_holds(&self)
        ensures
            self@.channel == crate::outside::channel_of(self.tx),
            self@.sent == crate::outside::sent(self.tx),
            self@.last_emitted == self.last_emitted@,
            self@.samples_pushed == self.samples_pushed,
            self@.last_utt_start_ms == self.last_utt_start_ms,
            self@.finished == self.finished,
            self@.pending == self.pending,
    {
    }
}

/// A reply says what the recognizer returned.
pub proof fn law_replies_say_what_was_returned(reply: RecognizerReply)
    ensures
        reply is Done ==> reply@ == ReplyView::Done,
        reply matches RecognizerReply::Ready(ready) ==> reply@ == ReplyView::Ready(ready),
        reply matches RecognizerReply::Hypothesis(Some(text)) ==> reply@ == ReplyView::Hypothesis(
            Some(text@),
        ),
        reply matches RecognizerReply::Hypothesis(None) ==> reply@ == ReplyView::Hypothesis(None),
        reply matches RecognizerReply::Endpoint(endpoint) ==> reply@ == ReplyView::Endpoint(
            endpoint,
        ),
{
}

} // verus!
