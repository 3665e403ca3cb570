//! What holds of every transcription session, whatever audio is pushed and
//! whatever the recognizer reports.

use vstd::prelude::*;

use super::session::{RecognizerCall, ReplyView, SessionView};
use crate::error::ErrorView;
use crate::{Channel, EventView, F32Bits, ONE_BITS};

verus! {

/// One thing that happens to a session: a call on it, accepted or refused,
/// or the return of the recognizer call it waits for.
pub enum SessionStep {
    Push { channel: Channel, sample_rate: u32, samples: nat },
    Finish,
    Reset { channel: Channel },
    Reply(ReplyView),
}

impl SessionView {
    /// Whether a step can happen now: calls come between exchanges with the
    /// recognizer, and a reply comes where one is waited for.
    pub open spec fn allows(self, step: SessionStep) -> bool {
        match step {
            SessionStep::Reply(reply) => self.pending is Some && self.pending->0.answered_by(
                reply,
            ),
            _ => self.pending is None,
        }
    }

    /// The state after a step.
    pub open spec fn after(self, step: SessionStep) -> SessionView {
        match step {
            SessionStep::Push { channel, sample_rate, samples } => if self.refusal(
                channel,
                sample_rate,
            ) is None {
                self.fed(samples)
            } else {
                self
            },
            SessionStep::Finish => if self.finished {
                self
            } else {
                self.closing()
            },
            SessionStep::Reset { channel } => if channel == Channel::Local {
                self.restarted()
            } else {
                self
            },
            SessionStep::Reply(reply) => self.answered(reply),
        }
    }
}

/// The state of a session, with this channel for its events, after these
/// steps from its start.
pub open spec fn session_after(channel: int, steps: Seq<SessionStep>) -> SessionView
    decreases steps.len(),
{
    if steps.len() == 0 {
        SessionView::started(channel)
    } else {
        session_after(channel, steps.drop_last()).after(steps.last())
    }
}

/// Whether a session can go through these steps.
pub open spec fn can_happen(channel: int, steps: Seq<SessionStep>) -> bool
    decreases steps.len(),
{
    steps.len() > 0 ==> can_happen(channel, steps.drop_last()) && session_after(channel, steps.drop_last()).allows(
        steps.last(),
    )
}

/// The moment on the audio clock at which a session emits an event.
pub open spec fn emitted_at(event: EventView) -> nat {
    match event {
        EventView::SpeechStarted { ts_ms, .. } => ts_ms,
        EventView::SpeechEnded { ts_ms, .. } => ts_ms,
        EventView::Partial { ts_ms, .. } => ts_ms,
        EventView::Final { end_ms, .. } => end_ms,
        EventView::Warning(_) => 0,
    }
}

/// What every event of a session looks like: a partial or a final that says
/// something, or the end of speech, all on the local channel; a final ends no
/// earlier than it begins, and its confidence is `1.0`.
pub open spec fn well_formed_event(event: EventView) -> bool {
    match event {
        EventView::Partial { channel, text, .. } => channel == Channel::Local && text.len() > 0,
        EventView::Final { channel, ts_ms, end_ms, text, confidence } => {
            &&& channel == Channel::Local
            &&& text.len() > 0
            &&& ts_ms <= end_ms
            &&& confidence == F32Bits { bits: ONE_BITS }
        },
        EventView::SpeechEnded { channel, .. } => channel == Channel::Local,
        EventView::SpeechStarted { .. } => false,
        EventView::Warning(_) => false,
    }
}

/// Events come in the order of the audio clock.
pub open spec fn in_clock_order(events: Seq<EventView>) -> bool {
    forall|i: int, j: int|
        0 <= i < j < events.len() ==> emitted_at(#[trigger] events[i]) <= emitted_at(
            #[trigger] events[j],
        )
}

/// No two finals overlap.
pub open spec fn finals_are_disjoint(events: Seq<EventView>) -> bool {
    forall|i: int, j: int|
        0 <= i < j < events.len() && (#[trigger] events[i]) is Final && (
        #[trigger] events[j]) is Final ==> events[i]->end_ms <= events[j]->Final_ts_ms
}

/// A final confirms, word for word, the partial emitted right before it, and
/// its span covers that partial.
pub open spec fn finals_confirm_partials(events: Seq<EventView>) -> bool {
    forall|i: int|
        0 <= i < events.len() && (#[trigger] events[i]) is Final ==> i > 0 && confirms(
            events[i],
            events[i - 1],
        )
}

/// Whether a final has the text of a partial and spans its moment.
pub open spec fn confirms(last: EventView, partial: EventView) -> bool {
    &&& partial is Partial
    &&& last is Final
    &&& last->Final_text == partial->Partial_text
    &&& last->Final_ts_ms <= partial->Partial_ts_ms <= last->end_ms
}

/// The end of speech is reported last, if at all.
pub open spec fn speech_ends_last(events: Seq<EventView>) -> bool {
    forall|i: int| 0 <= i < events.len() - 1 ==> !((#[trigger] events[i]) is SpeechEnded)
}

impl SessionView {
    /// Whether the session has been finished and has said so.
    pub open spec fn is_over(self) -> bool {
        self.finished && self.pending is None
    }

    /// The invariant of a session.
    pub open spec fn is_sound(self) -> bool {
        &&& self.last_utt_start_ms <= self.current_ms()
        &&& forall|i: int|
            0 <= i < self.sent.len() ==> well_formed_event(#[trigger] self.sent[i]) && emitted_at(
                self.sent[i],
            ) <= self.current_ms()
        &&& in_clock_order(self.sent)
        &&& finals_are_disjoint(self.sent)
        &&& finals_confirm_partials(self.sent)
        &&& speech_ends_last(self.sent)
        &&& self.is_over() <==> self.sent.len() > 0 && self.sent.last() is SpeechEnded
        &&& self.is_over() ==> self.last_emitted.len() == 0
        &&& !self.is_over() ==> forall|i: int|
            0 <= i < self.sent.len() && (#[trigger] self.sent[i]) is Final ==> self.sent[i]->end_ms
                <= self.last_utt_start_ms
        &&& self.last_emitted.len() > 0 ==> self.sent.len() > 0 && self.sent.last() is Partial
            && self.sent.last()->Partial_text == self.last_emitted && self.last_utt_start_ms
            <= self.sent.last()->Partial_ts_ms
    }
}

proof fn lemma_clock_is_monotone(a: nat, b: nat)
    requires
        a <= b,
    ensures
        super::session::clock_ms(a) <= super::session::clock_ms(b),
{
}

proof fn lemma_heard_is_sound(session: SessionView, hypothesis: Option<Seq<char>>)
    requires
        session.is_sound(),
        !session.is_over(),
    ensures
        session.heard(hypothesis).is_sound(),
{
}

proof fn lemma_promoted_is_sound(session: SessionView)
    requires
        session.is_sound(),
        !session.is_over(),
    ensures
        session.at_endpoint(true).is_sound(),
        session.settled().is_sound(),
{
}

proof fn lemma_step_is_sound(session: SessionView, step: SessionStep)
    requires
        session.is_sound(),
        session.allows(step),
    ensures
        session.after(step).is_sound(),
{
    match step {
        SessionStep::Push { channel, sample_rate, samples } => {
            lemma_clock_is_monotone(session.samples_pushed, session.samples_pushed + samples);
        },
        SessionStep::Reply(reply) => {
            match (session.pending->0, reply) {
                (RecognizerCall::GetResult, ReplyView::Hypothesis(hypothesis)) => {
                    lemma_heard_is_sound(session, hypothesis);
                },
                (RecognizerCall::IsEndpoint, ReplyView::Endpoint(endpoint)) => {
                    lemma_promoted_is_sound(session);
                },
                _ => {
                    lemma_promoted_is_sound(session);
                },
            }
        },
        _ => {},
    }
}

/// Whatever happens to a session, its events come in the order of the audio
/// clock and never lie ahead of it; finals do not overlap, and each confirms
/// the partial right before it; a confidence lies in `[0.0, 1.0]`; and the
/// end of speech is reported last, exactly when the session is over.
pub proof fn law_every_session_is_sound(channel: int, steps: Seq<SessionStep>)
    requires
        can_happen(channel, steps),
    ensures
        session_after(channel, steps).is_sound(),
        in_clock_order(session_after(channel, steps).sent),
        forall|i: int|
            0 <= i < session_after(channel, steps).sent.len() ==> emitted_at(
                #[trigger] session_after(channel, steps).sent[i],
            ) <= session_after(channel, steps).current_ms(),
        finals_are_disjoint(session_after(channel, steps).sent),
        finals_confirm_partials(session_after(channel, steps).sent),
        forall|i: int|
            0 <= i < session_after(channel, steps).sent.len() && (
            #[trigger] session_after(channel, steps).sent[i]) is Final ==> session_after(channel, 
                steps,
            ).sent[i]->confidence.in_unit_interval(),
        speech_ends_last(session_after(channel, steps).sent),
        session_after(channel, steps).is_over() <==> session_after(channel, steps).sent.len() > 0 && session_after(channel, 
            steps,
        ).sent.last() is SpeechEnded,
    decreases steps.len(),
{
    if steps.len() > 0 {
        law_every_session_is_sound(channel, steps.drop_last());
        lemma_step_is_sound(session_after(channel, steps.drop_last()), steps.last());
    }
}

/// Whether no final lies strictly between two places in a list of events.
pub open spec fn no_final_between(events: Seq<EventView>, j: int, i: int) -> bool {
    forall|m: int| j < m < i ==> !((#[trigger] events[m]) is Final)
}

/// From a place in the list on, a final spans every partial since the final
/// before it: the partials that it replaces.
pub open spec fn finals_span_partials(events: Seq<EventView>, from: int) -> bool {
    forall|j: int, i: int|
        from <= j < i < events.len() && (#[trigger] events[j]) is Partial && (
        #[trigger] events[i]) is Final && no_final_between(events, j, i)
            ==> events[i]->Final_ts_ms <= events[j]->Partial_ts_ms <= events[i]->end_ms
}

/// The partials since the last final belong to the running utterance.
spec fn partials_are_open(session: SessionView, from: int) -> bool {
    forall|j: int|
        from <= j < session.sent.len() && (#[trigger] session.sent[j]) is Partial
            && no_final_between(session.sent, j, session.sent.len() as int)
            ==> session.last_emitted.len() > 0 && session.last_utt_start_ms
            <= session.sent[j]->Partial_ts_ms
}

proof fn lemma_spans_after_push(events: Seq<EventView>, event: EventView, from: int)
    requires
        0 <= from,
        finals_span_partials(events, from),
        event is Final ==> forall|j: int|
            from <= j < events.len() && (#[trigger] events[j]) is Partial && no_final_between(
                events,
                j,
                events.len() as int,
            ) ==> event->Final_ts_ms <= events[j]->Partial_ts_ms <= event->end_ms,
    ensures
        finals_span_partials(events.push(event), from),
        forall|j: int|
            0 <= j < events.len() && #[trigger] no_final_between(
                events.push(event),
                j,
                events.push(event).len() as int,
            ) ==> no_final_between(events, j, events.len() as int) && !(event is Final),
{
    let all = events.push(event);
    assert forall|j: int, i: int|
        0 <= j < i <= events.len() && #[trigger] no_final_between(
            all,
            j,
            i,
        ) implies no_final_between(events, j, i) by {
        assert forall|m: int| j < m < i implies !((#[trigger] events[m]) is Final) by {
            assert(all[m] == events[m]);
        }
    }
    assert forall|j: int|
        0 <= j < events.len() && #[trigger] no_final_between(
            all,
            j,
            all.len() as int,
        ) implies no_final_between(events, j, events.len() as int) && !(event is Final) by {
        assert(all[events.len() as int] == event);
        assert(no_final_between(all, j, events.len() as int));
    }
}

proof fn lemma_spans_after_heard(session: SessionView, hypothesis: Option<Seq<char>>, from: int)
    requires
        0 <= from,
        session.is_sound(),
        finals_span_partials(session.sent, from),
        partials_are_open(session, from),
    ensures
        finals_span_partials(session.heard(hypothesis).sent, from),
        partials_are_open(session.heard(hypothesis), from),
{
    let next = session.heard(hypothesis);
    if next.sent.len() > session.sent.len() {
        lemma_spans_after_push(session.sent, next.sent.last(), from);
    }
}

proof fn lemma_spans_after_promoted(session: SessionView, from: int)
    requires
        0 <= from,
        session.is_sound(),
        finals_span_partials(session.sent, from),
        partials_are_open(session, from),
    ensures
        finals_span_partials(session.promoted().sent, from),
        partials_are_open(session.promoted(), from),
        partials_are_open(session.at_endpoint(true), from),
{
    let next = session.promoted();
    if next.sent.len() > session.sent.len() {
        lemma_spans_after_push(session.sent, next.sent.last(), from);
    }
}

proof fn lemma_spans_are_kept(channel: int, steps: Seq<SessionStep>, k: int)
    requires
        can_happen(channel, steps),
        0 <= k <= steps.len(),
        forall|i: int|
            k <= i < steps.len() ==> #[trigger] steps[i] != (SessionStep::Reset {
                channel: Channel::Local,
            }),
    ensures
        finals_span_partials(
            session_after(channel, steps).sent,
            session_after(channel, steps.take(k)).sent.len() as int,
        ),
        partials_are_open(session_after(channel, steps), session_after(channel, steps.take(k)).sent.len() as int),
    decreases steps.len(),
{
    let from = session_after(channel, steps.take(k)).sent.len() as int;
    if k == steps.len() {
        assert(steps.take(k) == steps);
    } else {
        let earlier = steps.drop_last();
        let session = session_after(channel, earlier);
        let step = steps.last();
        assert(earlier.take(k) == steps.take(k));
        lemma_spans_are_kept(channel, earlier, k);
        law_every_session_is_sound(channel, earlier);
        if let SessionStep::Reply(reply) = step {
            if let ReplyView::Hypothesis(hypothesis) = reply {
                lemma_spans_after_heard(session, hypothesis, from);
            }
            let ended = EventView::SpeechEnded {
                channel: Channel::Local,
                ts_ms: session.current_ms(),
            };
            lemma_spans_after_promoted(session, from);
            lemma_spans_after_push(session.promoted().sent, ended, from);
        }
    }
}

/// Unless a reset comes between them, a final spans every partial emitted
/// since the final before it, so that whoever drops the partials that overlap
/// a final drops all of its utterance's. It holds of the events that any run
/// of steps without a reset of the local channel emits.
pub proof fn law_finals_span_their_partials(channel: int, steps: Seq<SessionStep>, k: int)
    requires
        can_happen(channel, steps),
        0 <= k <= steps.len(),
        forall|i: int|
            k <= i < steps.len() ==> #[trigger] steps[i] != (SessionStep::Reset {
                channel: Channel::Local,
            }),
    ensures
        finals_span_partials(
            session_after(channel, steps).sent,
            session_after(channel, steps.take(k)).sent.len() as int,
        ),
{
    lemma_spans_are_kept(channel, steps, k);
}

/// From a place in the list on, no two partials in a row read the same.
pub open spec fn neighbouring_partials_differ(events: Seq<EventView>, from: int) -> bool {
    forall|i: int|
        from <= i < events.len() - 1 && (#[trigger] events[i]) is Partial && events[i
            + 1] is Partial ==> events[i]->Partial_text != events[i + 1]->Partial_text
}

/// Unless a reset comes between them, two partials in a row differ: a
/// hypothesis is emitted again only once it has changed. It holds of the
/// events that any run of steps without a reset of the local channel emits.
pub proof fn law_neighbouring_partials_differ(channel: int, steps: Seq<SessionStep>, k: int)
    requires
        can_happen(channel, steps),
        0 <= k <= steps.len(),
        forall|i: int|
            k <= i < steps.len() ==> #[trigger] steps[i] != (SessionStep::Reset {
                channel: Channel::Local,
            }),
    ensures
        neighbouring_partials_differ(
            session_after(channel, steps).sent,
            session_after(channel, steps.take(k)).sent.len() as int,
        ),
    decreases steps.len(),
{
    if k == steps.len() {
        assert(steps.take(k) == steps);
    } else {
        let earlier = steps.drop_last();
        assert(earlier.take(k) == steps.take(k));
        law_neighbouring_partials_differ(channel, earlier, k);
        law_every_session_is_sound(channel, earlier);
        lemma_spans_are_kept(channel, earlier, k);
    }
}

/// What holds of a session since a moment at which an utterance was
/// abandoned, when this many events had been emitted: nothing said before
/// becomes final after it.
spec fn abandoned(session: SessionView, from: int, moment: nat) -> bool {
    &&& moment <= session.last_utt_start_ms
    &&& from <= session.sent.len()
    &&& session.last_emitted.len() > 0 ==> from < session.sent.len()
    &&& finals_are_new(session.sent, from, moment)
}

/// From a place in the list on, every final begins at this moment or later,
/// and the partial it confirms, the event right before it, is from that place
/// on as well.
pub open spec fn finals_are_new(events: Seq<EventView>, from: int, moment: nat) -> bool {
    forall|i: int|
        from <= i < events.len() && (#[trigger] events[i]) is Final ==> from < i && moment
            <= events[i]->Final_ts_ms
}

/// After a reset of the local channel, whatever happens: no partial from
/// before the reset becomes final any more, and every later final begins no
/// earlier than the reset.
pub proof fn law_reset_abandons_the_utterance(channel: int, steps: Seq<SessionStep>, k: int)
    requires
        can_happen(channel, steps),
        0 <= k < steps.len(),
        steps[k] == (SessionStep::Reset { channel: Channel::Local }),
    ensures
        finals_are_new(
            session_after(channel, steps).sent,
            session_after(channel, steps.take(k)).sent.len() as int,
            session_after(channel, steps.take(k)).current_ms(),
        ),
        finals_confirm_partials(session_after(channel, steps).sent),
{
    lemma_utterance_stays_abandoned(channel, steps, k);
    law_every_session_is_sound(channel, steps);
}

proof fn lemma_utterance_stays_abandoned(channel: int, steps: Seq<SessionStep>, k: int)
    requires
        can_happen(channel, steps),
        0 <= k < steps.len(),
        steps[k] == (SessionStep::Reset { channel: Channel::Local }),
    ensures
        abandoned(
            session_after(channel, steps),
            session_after(channel, steps.take(k)).sent.len() as int,
            session_after(channel, steps.take(k)).current_ms(),
        ),
        session_after(channel, steps.take(k)).current_ms() <= session_after(
            channel,
            steps,
        ).current_ms(),
    decreases steps.len(),
{
    let earlier = steps.drop_last();
    let session = session_after(channel, earlier);
    if k == steps.len() - 1 {
    } else {
        assert(earlier.take(k) == steps.take(k));
        lemma_utterance_stays_abandoned(channel, earlier, k);
        law_every_session_is_sound(channel, earlier);
        law_emitted_events_stay(session, steps.last());
        law_clock_never_runs_backwards(session, steps.last());
    }
}

/// Events are only ever added, always to the same channel: a step leaves
/// those already emitted as they are.
pub proof fn law_emitted_events_stay(session: SessionView, step: SessionStep)
    ensures
        session.sent.len() <= session.after(step).sent.len(),
        session.after(step).sent.take(session.sent.len() as int) == session.sent,
        session.after(step).channel == session.channel,
{
}

/// A finished session refuses every further push and finish, and stays
/// finished.
pub proof fn law_finished_sessions_stay_finished(session: SessionView, step: SessionStep)
    requires
        session.finished,
    ensures
        session.after(step).finished,
        !(step is Reply) && !(step is Reset) ==> session.after(step) == session,
        step is Reset ==> session.after(step).sent == session.sent,
{
}

impl SessionView {
    /// The state once these replies have come in, one after the other.
    pub open spec fn answered_all(self, replies: Seq<ReplyView>) -> SessionView
        decreases replies.len(),
    {
        if replies.len() == 0 {
            self
        } else {
            self.answered_all(replies.drop_last()).answered(replies.last())
        }
    }
}

/// The recognizer is ready, and decodes, `n` times over.
pub open spec fn decode_rounds(n: nat) -> Seq<ReplyView>
    decreases n,
{
    if n == 0 {
        Seq::empty()
    } else {
        decode_rounds((n - 1) as nat).push(ReplyView::Ready(true)).push(ReplyView::Done)
    }
}

/// Everything the recognizer returns in one exchange: it takes the audio (or
/// the end of it), decodes `n` times, and reports a hypothesis and whether
/// an endpoint was reached; at an endpoint its stream is reset.
pub open spec fn exchange_replies(
    n: nat,
    hypothesis: Option<Seq<char>>,
    endpoint: bool,
) -> Seq<ReplyView> {
    let asked = seq![ReplyView::Done] + decode_rounds(n) + seq![
        ReplyView::Ready(false),
        ReplyView::Hypothesis(hypothesis),
        ReplyView::Endpoint(endpoint),
    ];
    if endpoint {
        asked.push(ReplyView::Done)
    } else {
        asked
    }
}

proof fn lemma_decode_rounds(session: SessionView, n: nat)
    requires
        session.pending == Some(RecognizerCall::IsReady),
    ensures
        session.answered_all(decode_rounds(n)) == session,
    decreases n,
{
    if n > 0 {
        lemma_decode_rounds(session, (n - 1) as nat);
        let asked = decode_rounds((n - 1) as nat).push(ReplyView::Ready(true));
        assert(asked.drop_last() == decode_rounds((n - 1) as nat));
        assert(decode_rounds(n).drop_last() == asked);
        assert(session.answered_all(asked) == session.answered(ReplyView::Ready(true)));
    }
}

proof fn lemma_answered_in_two_parts(session: SessionView, a: Seq<ReplyView>, b: Seq<ReplyView>)
    ensures
        session.answered_all(a + b) == session.answered_all(a).answered_all(b),
    decreases b.len(),
{
    if b.len() > 0 {
        assert((a + b).drop_last() == a + b.drop_last());
        lemma_answered_in_two_parts(session, a, b.drop_last());
    }
}

proof fn lemma_answered_once(session: SessionView, reply: ReplyView)
    ensures
        session.answered_all(seq![reply]) == session.answered(reply),
{
    reveal_with_fuel(SessionView::answered_all, 2);
}

/// However often the recognizer decodes, one exchange with it comes to the
/// same: a partial for a new hypothesis, then a final at an endpoint, and,
/// on a finished session, the flush and the end of speech. The exchange is
/// over then.
pub proof fn law_exchange(
    session: SessionView,
    n: nat,
    hypothesis: Option<Seq<char>>,
    endpoint: bool,
)
    requires
        session.pending is Some,
        session.pending->0 is AcceptWaveform || session.pending->0 is InputFinished,
    ensures
        session.answered_all(exchange_replies(n, hypothesis, endpoint)) == session.heard(
            hypothesis,
        ).at_endpoint(endpoint).settled(),
        session.answered_all(exchange_replies(n, hypothesis, endpoint)).pending is None,
{
    let first = seq![ReplyView::Done];
    let rounds = decode_rounds(n);
    let ready = seq![ReplyView::Ready(false)];
    let heard = seq![ReplyView::Hypothesis(hypothesis)];
    let ended = seq![ReplyView::Endpoint(endpoint)];
    let start = first + rounds + ready + heard + ended;
    let s1 = session.answered(ReplyView::Done);
    lemma_answered_once(session, ReplyView::Done);
    lemma_answered_in_two_parts(session, first, rounds);
    lemma_decode_rounds(s1, n);
    lemma_answered_in_two_parts(session, first + rounds, ready);
    lemma_answered_once(s1, ReplyView::Ready(false));
    let s2 = s1.answered(ReplyView::Ready(false));
    lemma_answered_in_two_parts(session, first + rounds + ready, heard);
    lemma_answered_once(s2, ReplyView::Hypothesis(hypothesis));
    let s3 = s2.answered(ReplyView::Hypothesis(hypothesis));
    lemma_answered_in_two_parts(session, first + rounds + ready + heard, ended);
    lemma_answered_once(s3, ReplyView::Endpoint(endpoint));
    let s4 = s3.answered(ReplyView::Endpoint(endpoint));
    if endpoint {
        lemma_answered_in_two_parts(session, start, seq![ReplyView::Done]);
        lemma_answered_once(s4, ReplyView::Done);
        assert(exchange_replies(n, hypothesis, endpoint) == start + seq![ReplyView::Done]);
    } else {
        assert(exchange_replies(n, hypothesis, endpoint) == start);
    }
}

/// Finishing leaves nothing unsaid: whatever the recognizer still reports,
/// the last event is the end of speech, and if a hypothesis was open, the
/// event before it is a final with that text.
pub proof fn law_finish_flushes(
    session: SessionView,
    n: nat,
    hypothesis: Option<Seq<char>>,
    endpoint: bool,
)
    requires
        !session.finished,
    ensures
        ({
            let done = session.closing().answered_all(exchange_replies(n, hypothesis, endpoint));
            let open_text = match hypothesis {
                Some(text) if text.len() > 0 => text,
                _ => session.last_emitted,
            };
            &&& done.is_over()
            &&& done.last_emitted.len() == 0
            &&& done.sent.last() == EventView::SpeechEnded {
                channel: Channel::Local,
                ts_ms: session.current_ms(),
            }
            &&& open_text.len() > 0 ==> done.sent.len() >= 2 && done.sent[done.sent.len() - 2]
                == EventView::Final {
                channel: Channel::Local,
                ts_ms: session.last_utt_start_ms,
                end_ms: session.current_ms(),
                text: open_text,
                confidence: F32Bits { bits: ONE_BITS },
            }
        }),
{
    law_exchange(session.closing(), n, hypothesis, endpoint);
}

/// After a reset the next hypothesis opens a fresh utterance, even if it
/// reads like the one before: it is emitted as a partial, and the final at
/// its endpoint begins at the moment of the reset.
pub proof fn law_reset_starts_a_fresh_utterance(
    session: SessionView,
    samples: nat,
    n: nat,
    text: Seq<char>,
)
    requires
        !session.finished,
        text.len() > 0,
    ensures
        ({
            let fed = session.restarted().fed(samples);
            let done = fed.answered_all(exchange_replies(n, Some(text), true));
            done.sent == session.sent.push(
                EventView::Partial { channel: Channel::Local, ts_ms: fed.current_ms(), text },
            ).push(
                EventView::Final {
                    channel: Channel::Local,
                    ts_ms: session.current_ms(),
                    end_ms: fed.current_ms(),
                    text,
                    confidence: F32Bits { bits: ONE_BITS },
                },
            )
        }),
{
    law_exchange(session.restarted().fed(samples), n, Some(text), true);
}

/// A hypothesis that has not changed is emitted once.
pub proof fn law_unchanged_hypothesis_is_silent(
    session: SessionView,
    hypothesis: Option<Seq<char>>,
)
    ensures
        session.heard(hypothesis).heard(hypothesis) == session.heard(hypothesis),
{
}

/// The audio clock never runs backwards.
pub proof fn law_clock_never_runs_backwards(session: SessionView, step: SessionStep)
    ensures
        session.current_ms() <= session.after(step).current_ms(),
{
    match step {
        SessionStep::Push { samples, .. } => {
            lemma_clock_is_monotone(session.samples_pushed, session.samples_pushed + samples);
        },
        _ => {},
    }
}

/// The audio clock keeps time with the audio: sixteen samples are a
/// millisecond, begun ones do not count, and a session starts at zero.
pub proof fn law_clock_keeps_time(session: SessionView, samples: nat, channel: int)
    ensures
        16 * super::session::clock_ms(samples) <= samples,
        samples < 16 * (super::session::clock_ms(samples) + 1),
        16 * session.current_ms() <= session.samples_pushed,
        session.samples_pushed < 16 * (session.current_ms() + 1),
        session.fed(16).current_ms() == session.current_ms() + 1,
        SessionView::started(channel).current_ms() == 0,
{
}

/// A session starts silent, with nothing heard, counted or asked for.
pub proof fn law_sessions_start_fresh(channel: int)
    ensures
        ({
            let session = SessionView::started(channel);
            &&& session.channel == channel
            &&& session.sent.len() == 0
            &&& session.last_emitted.len() == 0
            &&& session.samples_pushed == 0
            &&& session.last_utt_start_ms == 0
            &&& !session.finished
            &&& session.pending is None
        }),
{
}

/// A push is accepted exactly on an unfinished session, on the local channel,
/// at 16 kHz. Otherwise the first of the three that fails is the error.
pub proof fn law_pushes_are_refused_for_a_reason(
    session: SessionView,
    channel: Channel,
    sample_rate: u32,
)
    ensures
        session.refusal(channel, sample_rate) is None <==> !session.finished && channel
            == Channel::Local && sample_rate == 16_000,
        session.finished ==> session.refusal(channel, sample_rate) == Some(
            ErrorView::AlreadyFinished,
        ),
        !session.finished && channel == Channel::Remote ==> session.refusal(channel, sample_rate)
            == Some(
            ErrorView::InvalidFrame("sherpa-onnx Phase 1 backend supports Channel::Local only"@),
        ),
        !session.finished && channel == Channel::Local && sample_rate != 16_000
            ==> session.refusal(channel, sample_rate) == Some(
            ErrorView::InvalidFrame(
                "sherpa-onnx Phase 1 backend requires 16 kHz audio, got "@
                    + crate::text::decimal_digits(sample_rate as nat) + " Hz"@,
            ),
        ),
{
}

/// Every sample of an accepted push counts, and the samples go to the stream
/// at 16 kHz; nothing else changes.
pub proof fn law_accepted_samples_count(session: SessionView, samples: nat)
    ensures
        ({
            let fed = session.fed(samples);
            &&& fed.samples_pushed == session.samples_pushed + samples
            &&& fed.pending == Some(RecognizerCall::AcceptWaveform { sample_rate: 16_000 })
            &&& fed.channel == session.channel
            &&& fed.sent == session.sent
            &&& fed.last_emitted == session.last_emitted
            &&& fed.last_utt_start_ms == session.last_utt_start_ms
            &&& fed.finished == session.finished
        }),
{
}

/// Finishing tells the stream that its input is over; what was heard and said
/// so far stays as it is.
pub proof fn law_finish_ends_the_input(session: SessionView)
    ensures
        ({
            let closing = session.closing();
            &&& closing.finished
            &&& closing.pending == Some(RecognizerCall::InputFinished)
            &&& closing.channel == session.channel
            &&& closing.sent == session.sent
            &&& closing.last_emitted == session.last_emitted
            &&& closing.samples_pushed == session.samples_pushed
            &&& closing.last_utt_start_ms == session.last_utt_start_ms
        }),
{
}

/// A reset forgets what was heard and moves the start of the utterance to the
/// clock; nothing is said, and nothing else changes.
pub proof fn law_reset_forgets_the_utterance(session: SessionView)
    ensures
        ({
            let restarted = session.restarted();
            &&& restarted.last_emitted.len() == 0
            &&& 16 * restarted.last_utt_start_ms <= session.samples_pushed
            &&& session.samples_pushed < 16 * (restarted.last_utt_start_ms + 1)
            &&& restarted.channel == session.channel
            &&& restarted.sent == session.sent
            &&& restarted.samples_pushed == session.samples_pushed
            &&& restarted.finished == session.finished
            &&& restarted.pending == session.pending
        }),
{
}

/// What a recognizer call can return: a readiness, a hypothesis, an endpoint,
/// or nothing.
pub proof fn law_calls_are_answered_in_kind(reply: ReplyView, sample_rate: i32)
    ensures
        RecognizerCall::IsReady.answered_by(reply) <==> reply is Ready,
        RecognizerCall::GetResult.answered_by(reply) <==> reply is Hypothesis,
        RecognizerCall::IsEndpoint.answered_by(reply) <==> reply is Endpoint,
        (RecognizerCall::AcceptWaveform { sample_rate }).answered_by(reply) <==> reply is Done,
        RecognizerCall::InputFinished.answered_by(reply) <==> reply is Done,
        RecognizerCall::Decode.answered_by(reply) <==> reply is Done,
        RecognizerCall::Reset.answered_by(reply) <==> reply is Done,
{
}

/// Up to the hypothesis, an exchange only moves on to its next call: once the
/// stream has its input, and after every decode, the recognizer is asked
/// whether it is ready; it decodes for as long as it is, and then its
/// hypothesis is read.
pub proof fn law_recognizer_is_drained(session: SessionView, ready: bool)
    requires
        session.pending is Some,
    ensures
        ({
            let call = session.pending->0;
            call is AcceptWaveform || call is InputFinished || call is Decode ==> session.answered(
                ReplyView::Done,
            ) == SessionView { pending: Some(RecognizerCall::IsReady), ..session }
        }),
        session.pending->0 is IsReady ==> session.answered(ReplyView::Ready(ready)) == (
        SessionView {
            pending: Some(
                if ready {
                    RecognizerCall::Decode
                } else {
                    RecognizerCall::GetResult
                },
            ),
            ..session
        }),
{
}

/// Whatever is open already, and whether or not the session is finished: a
/// hypothesis that says something new is emitted, as the one event that is
/// added, a partial with its text at the clock, and it is the open hypothesis
/// from then on. Any other one changes nothing. Either way the recognizer is
/// asked for an endpoint next.
pub proof fn law_new_hypothesis_is_emitted(session: SessionView, hypothesis: Option<Seq<char>>)
    requires
        session.pending == Some(RecognizerCall::GetResult),
    ensures
        ({
            let after = session.answered(ReplyView::Hypothesis(hypothesis));
            let news = hypothesis is Some && hypothesis->0.len() > 0 && hypothesis->0
                != session.last_emitted;
            &&& news ==> after.last_emitted == hypothesis->0 && after.sent == session.sent.push(
                EventView::Partial {
                    channel: Channel::Local,
                    ts_ms: session.current_ms(),
                    text: hypothesis->0,
                },
            )
            &&& !news ==> after.last_emitted == session.last_emitted && after.sent == session.sent
            &&& after.pending == Some(RecognizerCall::IsEndpoint)
            &&& after.channel == session.channel
            &&& after.samples_pushed == session.samples_pushed
            &&& after.last_utt_start_ms == session.last_utt_start_ms
            &&& after.finished == session.finished
        }),
{
}

/// At an endpoint the open hypothesis, if there is one, is said as a final
/// from the start of the utterance to the clock, and is closed; the next
/// utterance starts at the clock, and the stream is reset.
pub proof fn law_endpoint_promotes_the_hypothesis(session: SessionView)
    requires
        session.pending == Some(RecognizerCall::IsEndpoint),
    ensures
        ({
            let after = session.answered(ReplyView::Endpoint(true));
            &&& session.last_emitted.len() > 0 ==> after.sent == session.sent.push(
                EventView::Final {
                    channel: Channel::Local,
                    ts_ms: session.last_utt_start_ms,
                    end_ms: session.current_ms(),
                    text: session.last_emitted,
                    confidence: F32Bits { bits: 0x3f80_0000 },
                },
            )
            &&& session.last_emitted.len() == 0 ==> after.sent == session.sent
            &&& after.last_emitted.len() == 0
            &&& after.last_utt_start_ms == session.current_ms()
            &&& after.pending == Some(RecognizerCall::Reset)
            &&& after.channel == session.channel
            &&& after.samples_pushed == session.samples_pushed
            &&& after.finished == session.finished
        }),
{
}

/// An exchange is over where no endpoint was reached, or once the stream has
/// been reset. On an unfinished session that is all. On a finished one the
/// open hypothesis, if there is one, is said as a final first, and then the
/// end of speech.
pub proof fn law_exchange_ends(session: SessionView, reply: ReplyView)
    requires
        session.pending == Some(RecognizerCall::IsEndpoint) && reply == ReplyView::Endpoint(false)
            || session.pending == Some(RecognizerCall::Reset) && reply == ReplyView::Done,
    ensures
        ({
            let after = session.answered(reply);
            let ended = EventView::SpeechEnded {
                channel: Channel::Local,
                ts_ms: session.current_ms(),
            };
            let last = EventView::Final {
                channel: Channel::Local,
                ts_ms: session.last_utt_start_ms,
                end_ms: session.current_ms(),
                text: session.last_emitted,
                confidence: F32Bits { bits: 0x3f80_0000 },
            };
            &&& after.pending is None
            &&& !session.finished ==> after.sent == session.sent && after.last_emitted
                == session.last_emitted
            &&& session.finished && session.last_emitted.len() == 0 ==> after.sent
                == session.sent.push(ended)
            &&& session.finished && session.last_emitted.len() > 0 ==> after.sent
                == session.sent.push(last).push(ended)
            &&& session.finished ==> after.last_emitted.len() == 0
            &&& after.channel == session.channel
            &&& after.samples_pushed == session.samples_pushed
            &&& after.last_utt_start_ms == session.last_utt_start_ms
            &&& after.finished == session.finished
        }),
{
}

/// Whether a finish is among these steps.
pub open spec fn was_finished(steps: Seq<SessionStep>) -> bool {
    exists|i: int| 0 <= i < steps.len() && (#[trigger] steps[i]) is Finish
}

/// Whether the last of these steps ends an utterance: an endpoint, or a reset
/// of the local channel.
pub open spec fn utterance_ended(steps: Seq<SessionStep>) -> bool {
    steps.last() == SessionStep::Reply(ReplyView::Endpoint(true)) || steps.last()
        == (SessionStep::Reset { channel: Channel::Local })
}

/// How many samples came in by these steps: those of every push on the local
/// channel at 16 kHz, until the finish.
pub open spec fn audio_in(steps: Seq<SessionStep>) -> nat
    decreases steps.len(),
{
    if steps.len() == 0 {
        0
    } else {
        let earlier = audio_in(steps.drop_last());
        match steps.last() {
            SessionStep::Push { channel, sample_rate, samples } => if channel == Channel::Local
                && sample_rate == 16_000 && !was_finished(steps.drop_last()) {
                earlier + samples
            } else {
                earlier
            },
            _ => earlier,
        }
    }
}

/// How many samples had come in when the running utterance began.
pub open spec fn audio_before_utterance(steps: Seq<SessionStep>) -> nat
    decreases steps.len(),
{
    if steps.len() == 0 {
        0
    } else if utterance_ended(steps) {
        audio_in(steps)
    } else {
        audio_before_utterance(steps.drop_last())
    }
}

/// The last hypothesis that said anything since the running utterance began;
/// empty before the first one.
pub open spec fn last_heard(steps: Seq<SessionStep>) -> Seq<char>
    decreases steps.len(),
{
    if steps.len() == 0 || utterance_ended(steps) {
        Seq::empty()
    } else {
        match steps.last() {
            SessionStep::Reply(ReplyView::Hypothesis(Some(text))) if text.len() > 0 => text,
            _ => last_heard(steps.drop_last()),
        }
    }
}

/// What a session knows is what came in: whether it was finished, every
/// sample of its audio, where on it the running utterance began, to the
/// millisecond, and, until it is over, the last hypothesis heard since.
pub proof fn law_session_knows_what_came_in(channel: int, steps: Seq<SessionStep>)
    requires
        can_happen(channel, steps),
    ensures
        ({
            let session = session_after(channel, steps);
            &&& session.channel == channel
            &&& session.finished == was_finished(steps)
            &&& session.samples_pushed == audio_in(steps)
            &&& 16 * session.current_ms() <= audio_in(steps)
            &&& audio_in(steps) < 16 * (session.current_ms() + 1)
            &&& 16 * session.last_utt_start_ms <= audio_before_utterance(steps)
            &&& audio_before_utterance(steps) < 16 * (session.last_utt_start_ms + 1)
            &&& !session.is_over() ==> session.last_emitted == last_heard(steps)
        }),
    decreases steps.len(),
{
    if steps.len() > 0 {
        let earlier = steps.drop_last();
        law_session_knows_what_came_in(channel, earlier);
        assert(was_finished(steps) <==> was_finished(earlier) || steps.last() is Finish) by {
            if was_finished(earlier) {
                let i = choose|i: int| 0 <= i < earlier.len() && (#[trigger] earlier[i]) is Finish;
                assert(steps[i] is Finish);
            }
            if was_finished(steps) {
                let i = choose|i: int| 0 <= i < steps.len() && (#[trigger] steps[i]) is Finish;
                assert(i < earlier.len() ==> earlier[i] is Finish);
            }
            assert(steps[steps.len() - 1] == steps.last());
        }
    }
}

/// Whatever came before, the final at an endpoint says the last hypothesis
/// heard since the utterance began, and spans the utterance.
pub proof fn law_final_says_what_was_heard_last(channel: int, steps: Seq<SessionStep>)
    requires
        can_happen(channel, steps),
        session_after(channel, steps).pending == Some(RecognizerCall::IsEndpoint),
        last_heard(steps).len() > 0,
    ensures
        ({
            let before = session_after(channel, steps);
            let after = before.answered(ReplyView::Endpoint(true));
            let last = after.sent.last();
            &&& after.sent.len() == before.sent.len() + 1
            &&& last is Final
            &&& last->Final_text == last_heard(steps)
            &&& 16 * last->Final_ts_ms <= audio_before_utterance(steps)
            &&& audio_before_utterance(steps) < 16 * (last->Final_ts_ms + 1)
            &&& 16 * last->end_ms <= audio_in(steps)
            &&& audio_in(steps) < 16 * (last->end_ms + 1)
        }),
{
    law_session_knows_what_came_in(channel, steps);
}

} // verus!
