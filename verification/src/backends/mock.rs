//! Mock ASR backend.
//!
//! Doesn't actually transcribe: emits a scripted sequence of
//! [`TranscriptEvent`]s, one per [`push_audio`](StreamingAsr::push_audio)
//! call. Downstream consumers wire their event plumbing and UI against a
//! real `Receiver<TranscriptEvent>` without loading a model.

use std::collections::VecDeque;
use std::sync::mpsc::{Receiver, Sender};
use vstd::prelude::*;
use wavekat_core::AudioFrame;

use crate::outside::{event_channel, send_event};
use crate::{AsrError, Channel, EventView, F32Bits, StreamingAsr, TranscriptEvent, ONE_BITS};

verus! {

/// Mock streaming ASR session.
///
/// Emits the next event of its script on each `push_audio` call. The script
/// is configurable via [`MockAsr::with_script`]; the default one is a
/// `SpeechStarted`, the partials `"hello"` and `"hello there"`, and a final.
pub struct MockAsr {
    tx: Sender<TranscriptEvent>,
    script: VecDeque<TranscriptEvent>,
    finished: bool,
    audio_pushes: u64,
}

/// The state of a [`MockAsr`]: the channel it speaks into, what it still has
/// to say, what it has said, whether it was finished, and how many pushes it
/// took.
pub struct MockView {
    pub channel: int,
    pub script: Seq<EventView>,
    pub sent: Seq<EventView>,
    pub finished: bool,
    pub audio_pushes: nat,
}

/// The events of a list, each as what it says.
pub open spec fn event_views(events: Seq<TranscriptEvent>) -> Seq<EventView> {
    events.map_values(|event: TranscriptEvent| event@)
}

/// The script of [`MockAsr::new`].
pub open spec fn default_events() -> Seq<EventView> {
    seq![
        EventView::SpeechStarted { channel: Channel::Local, ts_ms: 0 },
        EventView::Partial { channel: Channel::Local, ts_ms: 0, text: "hello"@ },
        EventView::Partial { channel: Channel::Local, ts_ms: 0, text: "hello there"@ },
        EventView::Final {
            channel: Channel::Local,
            ts_ms: 0,
            end_ms: 1500,
            text: "hello there"@,
            confidence: F32Bits { bits: ONE_BITS },
        },
    ]
}

impl MockView {
    /// A session at its start, with this channel for its events.
    pub open spec fn started(channel: int, script: Seq<EventView>) -> MockView {
        MockView { channel, script, sent: Seq::empty(), finished: false, audio_pushes: 0 }
    }

    /// The state after one accepted push.
    pub open spec fn pushed(self) -> MockView {
        if self.script.len() > 0 {
            MockView {
                script: self.script.drop_first(),
                sent: self.sent.push(self.script.first()),
                audio_pushes: self.audio_pushes + 1,
                ..self
            }
        } else {
            MockView { audio_pushes: self.audio_pushes + 1, ..self }
        }
    }

    /// The state after `n` accepted pushes.
    pub open spec fn pushed_times(self, n: nat) -> MockView
        decreases n,
    {
        if n == 0 {
            self
        } else {
            self.pushed_times((n - 1) as nat).pushed()
        }
    }

    /// The state after an accepted `finish`.
    pub open spec fn closed_down(self) -> MockView {
        MockView {
            finished: true,
            sent: self.sent.push(
                EventView::SpeechEnded { channel: Channel::Local, ts_ms: 0 },
            ),
            ..self
        }
    }
}

impl View for MockAsr {
    type V = MockView;

    closed spec fn view(&self) -> MockView {
        MockView {
            channel: crate::outside::channel_of(self.tx),
            script: event_views(self.script@),
            sent: crate::outside::sent(self.tx),
            finished: self.finished,
            audio_pushes: self.audio_pushes as nat,
        }
    }
}

impl MockAsr {
    /// Whether the session's events go to this receiver. No call on a session
    /// changes that.
    pub open spec fn feeds(&self, rx: Receiver<TranscriptEvent>) -> bool {
        self@.channel == crate::outside::channel_read(rx)
    }

    /// Build a new mock session paired with its event receiver.
    ///
    /// The default script emits a start of speech, two partials and a final
    /// on the first four `push_audio` calls.
    pub fn new() -> (session: (Self, Receiver<TranscriptEvent>))
        ensures
            session.0@ == MockView::started(
                crate::outside::channel_read(session.1),
                default_events(),
            ),
            session.0.feeds(session.1),
    {
        Self::with_script(default_script())
    }

    /// Build a mock session that will replay the given script. Each entry
    /// is emitted on the next `push_audio` call; once the script is exhausted
    /// further pushes emit nothing.
    pub fn with_script(script: Vec<TranscriptEvent>) -> (session: (
        Self,
        Receiver<TranscriptEvent>,
    ))
        ensures
            session.0@ == MockView::started(
                crate::outside::channel_read(session.1),
                event_views(script@),
            ),
            session.0.feeds(session.1),
    {
        let (tx, rx) = event_channel();
        let ghost whole = script@;
        let mut rest: Vec<TranscriptEvent> = script;
        let mut queue: VecDeque<TranscriptEvent> = VecDeque::new();
        while rest.len() > 0
            invariant
                rest@ + queue@ == whole,
            decreases rest.len(),
        {
            if let Some(event) = rest.pop() {
                queue.push_front(event);
            }
        }
        (MockAsr { tx, script: queue, finished: false, audio_pushes: 0 }, rx)
    }

    /// Total number of `push_audio` calls received. Surfaced for tests.
    pub fn audio_pushes(&self) -> (count: u64)
        ensures
            count == self@.audio_pushes,
    {
        self.audio_pushes
    }
}

impl StreamingAsr for MockAsr {
    open spec fn has_room(&self) -> bool {
        self@.audio_pushes < u64::MAX
    }

    /// Refused once the session is finished, and then without effect.
    fn push_audio(&mut self, _frame: &AudioFrame, _channel: Channel) -> (result: Result<
        (),
        AsrError,
    >)
        ensures
            old(self)@.finished ==> result == Err::<(), AsrError>(AsrError::AlreadyFinished)
                && final(self)@ == old(self)@,
            !old(self)@.finished ==> result is Ok && final(self)@ == old(self)@.pushed(),
            forall|rx: Receiver<TranscriptEvent>| final(self).feeds(rx) == old(self).feeds(rx),
    {
        if self.finished {
            return Err(AsrError::AlreadyFinished);
        }
        self.audio_pushes = self.audio_pushes + 1;
        if let Some(event) = self.script.pop_front() {
            assert(event_views(self.script@) == old(self)@.script.drop_first());
            // Best-effort: if the receiver is gone the consumer doesn't
            // care anymore. Swallow rather than fail the push path.
            let _taken: bool = send_event(&mut self.tx, event);
        }
        Ok(())
    }

    /// Refused on a session that is already finished, and then without
    /// effect.
    fn finish(&mut self) -> (result: Result<(), AsrError>)
        ensures
            old(self)@.finished ==> result == Err::<(), AsrError>(AsrError::AlreadyFinished)
                && final(self)@ == old(self)@,
            !old(self)@.finished ==> result is Ok && final(self)@ == old(self)@.closed_down(),
            forall|rx: Receiver<TranscriptEvent>| final(self).feeds(rx) == old(self).feeds(rx),
    {
        if self.finished {
            return Err(AsrError::AlreadyFinished);
        }
        self.finished = true;
        let _taken: bool = send_event(
            &mut self.tx,
            TranscriptEvent::SpeechEnded { channel: Channel::Local, ts_ms: 0 },
        );
        Ok(())
    }

    /// The script knows no utterances, so there is nothing to reset.
    fn reset(&mut self, _channel: Channel) -> (result: Result<(), AsrError>)
        ensures
            result is Ok,
            final(self)@ == old(self)@,
            forall|rx: Receiver<TranscriptEvent>| final(self).feeds(rx) == old(self).feeds(rx),
    {
        Ok(())
    }
}

/// The events of [`MockAsr::new`]'s script.
pub fn default_script() -> (script: Vec<TranscriptEvent>)
    ensures
        event_views(script@) == default_events(),
{
    vec![
        TranscriptEvent::SpeechStarted { channel: Channel::Local, ts_ms: 0 },
        TranscriptEvent::Partial { channel: Channel::Local, ts_ms: 0, text: "hello".to_string() },
        TranscriptEvent::Partial {
            channel: Channel::Local,
            ts_ms: 0,
            text: "hello there".to_string(),
        },
        TranscriptEvent::Final {
            channel: Channel::Local,
            ts_ms: 0,
            end_ms: 1500,
            text: "hello there".to_string(),
            confidence: F32Bits { bits: ONE_BITS },
        },
    ]
}

/// After `n` pushes a session has said the first `n` events of what was left
/// of its script, in order, and still holds the others; pushes beyond the
/// script's end say nothing. It has counted every one of them.
pub proof fn law_script_is_replayed_in_order(session: MockView, n: nat)
    ensures
        ({
            let after = session.pushed_times(n);
            let said: nat = if n <= session.script.len() {
                n
            } else {
                session.script.len()
            };
            &&& after.sent == session.sent + session.script.take(said as int)
            &&& after.script == session.script.skip(said as int)
            &&& after.audio_pushes == session.audio_pushes + n
            &&& after.finished == session.finished
            &&& after.channel == session.channel
        }),
    decreases n,
{
    if n > 0 {
        law_script_is_replayed_in_order(session, (n - 1) as nat);
    }
}

/// A session starts with its whole script to say, and nothing said.
pub proof fn law_mock_sessions_start_fresh(channel: int, script: Seq<EventView>)
    ensures
        ({
            let session = MockView::started(channel, script);
            &&& session.channel == channel
            &&& session.script == script
            &&& session.sent.len() == 0
            &&& !session.finished
            &&& session.audio_pushes == 0
        }),
{
}

/// A push says the next event of the script, if there is one, and takes it
/// off; it counts in any case, and nothing else changes.
pub proof fn law_push_says_the_next_event(session: MockView)
    ensures
        ({
            let after = session.pushed();
            &&& session.script.len() > 0 ==> session.script == seq![session.script[0]]
                + after.script
            &&& session.script.len() > 0 ==> after.sent == session.sent.push(session.script[0])
            &&& session.script.len() == 0 ==> after.script.len() == 0 && after.sent == session.sent
            &&& after.audio_pushes == session.audio_pushes + 1
            &&& after.finished == session.finished
            &&& after.channel == session.channel
        }),
{
}

/// Finishing says that speech ended on the local channel, and no more; what
/// is left of the script stays unsaid.
pub proof fn law_mock_finish_says_speech_ended(session: MockView)
    ensures
        ({
            let after = session.closed_down();
            &&& after.finished
            &&& after.sent == session.sent.push(
                EventView::SpeechEnded { channel: Channel::Local, ts_ms: 0 },
            )
            &&& after.script == session.script
            &&& after.audio_pushes == session.audio_pushes
            &&& after.channel == session.channel
        }),
{
}

/// A list of events says, one for one, what its events say.
pub proof fn law_lists_say_what_their_events_say(events: Seq<TranscriptEvent>)
    ensures
        event_views(events).len() == events.len(),
        forall|i: int| 0 <= i < events.len() ==> #[trigger] event_views(events)[i] == events[i]@,
{
}

/// The default script starts speech, says two partials, the second going on
/// where the first ends, and confirms the second with a final; all on the
/// local channel.
pub proof fn law_default_script_is_one_utterance()
    ensures
        ({
            let script = default_events();
            &&& script.len() == 4
            &&& script[0] == (EventView::SpeechStarted { channel: Channel::Local, ts_ms: 0 })
            &&& script[1] == (EventView::Partial {
                channel: Channel::Local,
                ts_ms: 0,
                text: "hello"@,
            })
            &&& script[2] == (EventView::Partial {
                channel: Channel::Local,
                ts_ms: 0,
                text: "hello there"@,
            })
            &&& script[3] == (EventView::Final {
                channel: Channel::Local,
                ts_ms: 0,
                end_ms: 1500,
                text: "hello there"@,
                confidence: F32Bits { bits: 0x3f80_0000 },
            })
        }),
{
}

impl MockAsr {
    /// A session shows what it holds: its channel, its history, its script,
    /// its state and its count.
    proof fn law_session_shows_what_it_holds(&self)
        ensures
            self@.channel == crate::outside::channel_of(self.tx),
            self@.sent == crate::outside::sent(self.tx),
            self@.script.len() == self.script@.len(),
            forall|i: int|
                0 <= i < self.script@.len() ==> #[trigger] self@.script[i] == self.script@[i]@,
            self@.finished == self.finished,
            self@.audio_pushes == self.audio_pushes,
    {
    }
}

} // verus!
