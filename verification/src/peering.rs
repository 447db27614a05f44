//! The readiness probe: directed messages from A to B until one is delivered.
use vstd::prelude::*;
use vstd::string::{StrSliceExecFns, StringExecFns};
use vstd::utf8::encode_utf8;

use crate::mesh::{
    answers, copy_verdict, fail, failed, no_attempt, pass, passed, verdict_view, Action,
    ActionView, Event, EventView, Verdict, VerdictView, SECOND_NS,
};
use crate::outside::{show_span, span_text};
use crate::report::Outcome;

verus! {

/// The pause between two attempts, in milliseconds.
pub const PEERING_PAUSE_MS: u64 = 500;

/// What the probe waits for.
#[derive(Clone, Copy, Debug, PartialEq, Eq, Structural)]
pub enum PeeringPhase {
    Mark,
    Check,
    Send,
    Pause,
    Time,
    Render(u128),
    Over,
}

/// The probe: sends a ping every half second until one is delivered or the
/// timeout has passed.
pub struct Peering {
    b_id: String,
    timeout_secs: u64,
    last: String,
    phase: PeeringPhase,
    found: Option<Verdict>,
}

/// What a `Peering` holds.
pub struct PeeringView {
    pub b_id: Seq<char>,
    pub timeout_secs: u64,
    pub last: Seq<char>,
    pub phase: PeeringPhase,
    pub found: Option<VerdictView>,
}

impl View for Peering {
    type V = PeeringView;

    closed spec fn view(&self) -> PeeringView {
        PeeringView {
            b_id: self.b_id@,
            timeout_secs: self.timeout_secs,
            last: self.last@,
            phase: self.phase,
            found: verdict_view(self.found),
        }
    }
}

/// The detail of a probe that was delivered, with the time as it is shown.
pub open spec fn peered_text(seconds: Seq<char>) -> Seq<char> {
    "A and B peered over the mesh in "@ + seconds + "s (directed send delivered)"@
}

/// The detail of a probe that was never delivered, with the timeout as it is
/// shown.
pub open spec fn never_peered_text(span: Seq<char>, last: Seq<char>) -> Seq<char> {
    "nodes never peered: directed send A->B never succeeded within "@ + span + ": "@ + last
}

impl PeeringView {
    pub open spec fn start(b_id: Seq<char>, timeout_secs: u64) -> Self {
        PeeringView {
            b_id,
            timeout_secs,
            last: no_attempt(),
            phase: PeeringPhase::Mark,
            found: None,
        }
    }

    /// The verdict, once the probe is done.
    pub open spec fn verdict(self) -> Option<VerdictView> {
        if self.phase is Over {
            self.found
        } else {
            None
        }
    }

    /// What the probe asks for.
    pub open spec fn pending(self) -> ActionView {
        match self.phase {
            PeeringPhase::Mark => ActionView::MarkClock,
            PeeringPhase::Check => ActionView::ReadClock,
            PeeringPhase::Send => ActionView::SendMessage {
                to: self.b_id,
                topic: "ce-it/ping"@,
                payload: encode_utf8("ping"@),
            },
            PeeringPhase::Pause => ActionView::Sleep { ms: PEERING_PAUSE_MS },
            PeeringPhase::Time => ActionView::ReadClock,
            PeeringPhase::Render(ns) => ActionView::RenderSeconds { elapsed_ns: ns },
            PeeringPhase::Over => ActionView::Rest,
        }
    }

    /// The probe after an event: an attempt is made only while less than the
    /// timeout has passed, and the first one that is delivered ends it.
    pub open spec fn next(self, event: EventView) -> Self {
        match (self.phase, event) {
            (PeeringPhase::Mark, EventView::Done) => PeeringView {
                phase: PeeringPhase::Check,
                ..self
            },
            (PeeringPhase::Check, EventView::Elapsed(ns)) => if ns < self.timeout_secs
                * SECOND_NS {
                PeeringView { phase: PeeringPhase::Send, ..self }
            } else {
                PeeringView {
                    phase: PeeringPhase::Over,
                    found: Some(failed(never_peered_text(span_text(self.timeout_secs), self.last))),
                    ..self
                }
            },
            (PeeringPhase::Send, EventView::Ack(Ok(()))) => PeeringView {
                phase: PeeringPhase::Time,
                ..self
            },
            (PeeringPhase::Send, EventView::Ack(Err(e))) => PeeringView {
                phase: PeeringPhase::Pause,
                last: e,
                ..self
            },
            (PeeringPhase::Pause, EventView::Done) => PeeringView {
                phase: PeeringPhase::Check,
                ..self
            },
            (PeeringPhase::Time, EventView::Elapsed(ns)) => PeeringView {
                phase: PeeringPhase::Render(ns),
                ..self
            },
            (PeeringPhase::Render(_), EventView::Rendered(s)) => PeeringView {
                phase: PeeringPhase::Over,
                found: Some(passed(peered_text(s))),
                ..self
            },
            _ => self,
        }
    }

    /// The probe after a row of events.
    pub open spec fn run(self, events: Seq<EventView>) -> Self
        decreases events.len(),
    {
        if events.len() == 0 {
            self
        } else {
            self.run(events.drop_last()).next(events.last())
        }
    }
}

/// The detail of a probe that timed out, for a timeout that is shown as `span`.
pub fn never_peered_detail(span: &str, last: &str) -> (r: String)
    ensures
        r@ == never_peered_text(span@, last@),
{
    "nodes never peered: directed send A->B never succeeded within ".to_owned().concat(
        span,
    ).concat(": ").concat(last)
}

impl Peering {
    /// A probe that pings the node `b_id`.
    pub fn new(b_id: &str, timeout_secs: u64) -> (r: Self)
        ensures
            r@ == PeeringView::start(b_id@, timeout_secs),
    {
        Peering {
            b_id: b_id.to_owned(),
            timeout_secs,
            last: "(no attempt)".to_owned(),
            phase: PeeringPhase::Mark,
            found: None,
        }
    }

    /// What is to be done next.
    pub fn pending(&self) -> (r: Action)
        ensures
            r@ == self@.pending(),
    {
        match self.phase {
            PeeringPhase::Mark => Action::MarkClock,
            PeeringPhase::Check => Action::ReadClock,
            PeeringPhase::Send => Action::SendMessage {
                to: self.b_id.clone(),
                topic: "ce-it/ping".to_owned(),
                payload: "ping".as_bytes_vec(),
            },
            PeeringPhase::Pause => Action::Sleep { ms: PEERING_PAUSE_MS },
            PeeringPhase::Time => Action::ReadClock,
            PeeringPhase::Render(ns) => Action::RenderSeconds { elapsed_ns: ns },
            PeeringPhase::Over => Action::Rest,
        }
    }

    /// Takes in what came of the pending action. An event that does not
    /// answer it changes nothing.
    pub fn step(&mut self, event: Event)
        ensures
            final(self)@ == old(self)@.next(event@),
    {
        match (self.phase, event) {
            (PeeringPhase::Mark, Event::Done) => {
                self.phase = PeeringPhase::Check;
            },
            (PeeringPhase::Check, Event::Elapsed(ns)) => {
                if ns < self.timeout_secs as u128 * SECOND_NS {
                    self.phase = PeeringPhase::Send;
                } else {
                    let detail = never_peered_detail(
                        show_span(self.timeout_secs).as_str(),
                        self.last.as_str(),
                    );
                    self.phase = PeeringPhase::Over;
                    self.found = Some(fail(detail));
                }
            },
            (PeeringPhase::Send, Event::Ack(Ok(()))) => {
                self.phase = PeeringPhase::Time;
            },
            (PeeringPhase::Send, Event::Ack(Err(e))) => {
                self.phase = PeeringPhase::Pause;
                self.last = e;
            },
            (PeeringPhase::Pause, Event::Done) => {
                self.phase = PeeringPhase::Check;
            },
            (PeeringPhase::Time, Event::Elapsed(ns)) => {
                self.phase = PeeringPhase::Render(ns);
            },
            (PeeringPhase::Render(_), Event::Rendered(s)) => {
                let detail = "A and B peered over the mesh in ".to_owned().concat(
                    s.as_str(),
                ).concat("s (directed send delivered)");
                self.phase = PeeringPhase::Over;
                self.found = Some(pass(detail));
            },
            _ => {},
        }
    }

    /// The verdict, once the probe is done.
    pub fn verdict(&self) -> (r: Option<Verdict>)
        ensures
            verdict_view(r) == self@.verdict(),
    {
        match self.phase {
            PeeringPhase::Over => copy_verdict(&self.found),
            _ => None,
        }
    }
}

/// An event that does not answer what the probe asks for changes nothing; one
/// that does moves it on.
pub proof fn peering_heeds_answers_only(s: PeeringView, event: EventView)
    ensures
        !answers(s.pending(), event) ==> s.next(event) == s,
        answers(s.pending(), event) ==> s.next(event).phase != s.phase,
{
}

impl PeeringView {
    /// Whether an event tells that a ping was delivered.
    pub open spec fn delivers(self, event: EventView) -> bool {
        self.pending() is SendMessage && event matches EventView::Ack(Ok(_))
    }

    /// Whether an event tells, before another ping, that the timeout has passed.
    pub open spec fn expires(self, event: EventView) -> bool {
        self.phase is Check && (event matches EventView::Elapsed(ns) && ns >= self.timeout_secs
            * SECOND_NS)
    }

    /// Whether a ping was delivered in a row of events.
    pub open spec fn ever_delivered(self, events: Seq<EventView>) -> bool
        decreases events.len(),
    {
        events.len() > 0 && (self.ever_delivered(events.drop_last()) || self.run(
            events.drop_last(),
        ).delivers(events.last()))
    }

    /// Whether the timeout passed in a row of events.
    pub open spec fn ever_expired(self, events: Seq<EventView>) -> bool
        decreases events.len(),
    {
        events.len() > 0 && (self.ever_expired(events.drop_last()) || self.run(
            events.drop_last(),
        ).expires(events.last()))
    }
}

proof fn lemma_peering_run(b_id: Seq<char>, timeout_secs: u64, events: Seq<EventView>)
    ensures
        ({
            let start = PeeringView::start(b_id, timeout_secs);
            let s = start.run(events);
            &&& s.b_id == b_id && s.timeout_secs == timeout_secs
            &&& s.found is Some <==> s.phase is Over
            &&& start.ever_delivered(events) <==> (s.phase is Time || s.phase is Render || (
            s.found matches Some(v) && v.outcome == Outcome::Pass))
            &&& start.ever_expired(events) <==> (s.found matches Some(v) && v.outcome
                == Outcome::Fail)
            &&& s.found matches Some(v) ==> v.outcome != Outcome::Blocked
        }),
    decreases events.len(),
{
    if events.len() > 0 {
        lemma_peering_run(b_id, timeout_secs, events.drop_last());
    }
}

/// A probe that is done has passed exactly if a ping was delivered, and has
/// failed exactly if the timeout passed before that. It is never blocked.
pub proof fn peering_passes_iff_delivered(
    b_id: Seq<char>,
    timeout_secs: u64,
    events: Seq<EventView>,
)
    ensures
        ({
            let start = PeeringView::start(b_id, timeout_secs);
            let s = start.run(events);
            &&& s.verdict() is Some <==> s.pending() is Rest
            &&& s.verdict() matches Some(v) ==> (v.outcome == Outcome::Pass
                <==> start.ever_delivered(events)) && (v.outcome == Outcome::Fail
                <==> start.ever_expired(events)) && v.outcome != Outcome::Blocked
        }),
{
    lemma_peering_run(b_id, timeout_secs, events);
}

/// A ping is sent only right after the clock has shown less than the timeout.
pub proof fn peering_pings_within_timeout(s: PeeringView, event: EventView)
    requires
        !(s.pending() is SendMessage),
        s.next(event).pending() is SendMessage,
    ensures
        event matches EventView::Elapsed(ns) && ns < s.timeout_secs * SECOND_NS,
{
}

/// The time that a passed probe shows is the clock's reading right after the
/// delivery.
pub proof fn peering_shows_the_time_of_delivery(s: PeeringView, ns: u128, shown: Seq<char>)
    requires
        s.pending() is SendMessage,
    ensures
        ({
            let timed = s.next(EventView::Ack(Ok(()))).next(EventView::Elapsed(ns));
            &&& timed.pending() == ActionView::RenderSeconds { elapsed_ns: ns }
            &&& timed.next(EventView::Rendered(shown)).verdict() == Some(
                passed(peered_text(shown)),
            )
        }),
{
}

/// The trouble that a failed probe shows is that of its latest attempt.
pub proof fn peering_shows_the_latest_trouble(s: PeeringView, e: Seq<char>, ns: u128)
    requires
        s.pending() is SendMessage,
        ns >= s.timeout_secs * SECOND_NS,
    ensures
        s.next(EventView::Ack(Err(e))).next(EventView::Done).next(EventView::Elapsed(ns)).verdict()
            == Some(failed(never_peered_text(span_text(s.timeout_secs), e))),
{
}

impl PeeringView {
    /// The trouble of the latest ping that was not delivered in a row of events.
    pub open spec fn trouble(self, events: Seq<EventView>) -> Seq<char>
        decreases events.len(),
    {
        if events.len() == 0 {
            "(no attempt)"@
        } else if self.run(events.drop_last()).pending() is SendMessage && (
        events.last() matches EventView::Ack(Err(_))) {
            events.last()->Ack_0->Err_0
        } else {
            self.trouble(events.drop_last())
        }
    }
}

proof fn lemma_peering_trouble(b_id: Seq<char>, timeout_secs: u64, events: Seq<EventView>)
    ensures
        ({
            let start = PeeringView::start(b_id, timeout_secs);
            start.run(events).last == start.trouble(events)
        }),
    decreases events.len(),
{
    if events.len() > 0 {
        lemma_peering_trouble(b_id, timeout_secs, events.drop_last());
    }
}

/// Whatever came before, a ping goes to the node that the probe is for, on the
/// topic of pings, and the pause is half a second.
pub proof fn pings_go_to_the_node(b_id: Seq<char>, timeout_secs: u64, events: Seq<EventView>)
    ensures
        match PeeringView::start(b_id, timeout_secs).run(events).pending() {
            ActionView::SendMessage { to, topic, payload } => to == b_id && topic == "ce-it/ping"@
                && payload == encode_utf8("ping"@),
            ActionView::Sleep { ms } => ms == 500,
            _ => true,
        },
{
    lemma_peering_run(b_id, timeout_secs, events);
}

/// Whatever came before, what the clock shows decides: until a ping is delivered
/// another is sent exactly if less than the timeout has passed, and else the
/// probe has failed and tells the timeout and the latest trouble. Once one is
/// delivered, the time is what is shown.
pub proof fn clock_decides_the_probe(
    b_id: Seq<char>,
    timeout_secs: u64,
    events: Seq<EventView>,
    ns: u128,
)
    requires
        PeeringView::start(b_id, timeout_secs).run(events).pending() is ReadClock,
    ensures
        ({
            let start = PeeringView::start(b_id, timeout_secs);
            let after = start.run(events).next(EventView::Elapsed(ns));
            if start.ever_delivered(events) {
                after.pending() == (ActionView::RenderSeconds { elapsed_ns: ns })
            } else if ns < timeout_secs * 1_000_000_000 {
                after.pending() is SendMessage
            } else {
                after.verdict() matches Some(v) && v.outcome == Outcome::Fail && v.detail
                    == "nodes never peered: directed send A->B never succeeded within "@
                    + span_text(timeout_secs) + ": "@ + start.trouble(events)
            }
        }),
{
    lemma_peering_run(b_id, timeout_secs, events);
    lemma_peering_trouble(b_id, timeout_secs, events);
}

/// The probe marks the clock first. A ping that is delivered has the clock read
/// and the time shown in the verdict; one that is not is followed by a pause and
/// another look at the clock.
pub proof fn probe_goes_its_way(b_id: Seq<char>, timeout_secs: u64, s: PeeringView, text: Seq<char>)
    ensures
        PeeringView::start(b_id, timeout_secs).pending() is MarkClock,
        s.pending() is MarkClock ==> s.next(EventView::Done).pending() is ReadClock,
        s.pending() is SendMessage ==> s.next(EventView::Ack(Ok(()))).pending() is ReadClock,
        s.pending() is SendMessage ==> s.next(EventView::Ack(Err(text))).pending() is Sleep,
        s.pending() is Sleep ==> s.next(EventView::Done).pending() is ReadClock,
        s.pending() is RenderSeconds ==> (s.next(EventView::Rendered(text)).verdict() matches Some(v)
            && v.outcome == Outcome::Pass && v.detail == "A and B peered over the mesh in "@ + text
            + "s (directed send delivered)"@),
{
}

} // verus!
