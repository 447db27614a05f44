//! Pubsub: B subscribes, A publishes, the message lands in B's inbox.
use vstd::prelude::*;
use vstd::string::{StrSliceExecFns, StringExecFns};
use vstd::utf8::encode_utf8;

use crate::mesh::{
    answers, copy_verdict, fail, failed, inbox_view, no_attempt, pass, passed, verdict_view,
    Action, ActionView, Event, EventView, Message, MessageView, Verdict, VerdictView,
};
use crate::report::Outcome;
use crate::text::{
    decimal, decimal_text, first_ten, same_bytes, short_id, short_id_is_the_first_ten, shortened,
};

verus! {

/// How long the message may take to arrive, in nanoseconds.
pub const PUBSUB_LIMIT_NS: u128 = 20_000_000_000;

/// The pause after a publish that failed, in milliseconds.
pub const PUBLISH_PAUSE_MS: u64 = 500;

/// The time between a publish and the look at the inbox, in milliseconds.
pub const SETTLE_MS: u64 = 700;

/// The topic of the scenario, which bears the identity of node A.
pub open spec fn news_topic(a_id: Seq<char>) -> Seq<char> {
    "ce-it/news-"@ + shortened(a_id)
}

/// The text that is published, which bears the time.
pub open spec fn news_text(secs: u64) -> Seq<char> {
    "breaking-"@ + decimal(secs as nat)
}

/// Whether a message is on `topic` and carries `text`.
pub open spec fn carries(m: MessageView, topic: Seq<char>, text: Seq<char>) -> bool {
    m.topic == topic && m.payload == Some(encode_utf8(text))
}

/// Whether some message of an inbox is on `topic` and carries `text`.
pub open spec fn inbox_has(msgs: Seq<MessageView>, topic: Seq<char>, text: Seq<char>) -> bool {
    exists|i: int| 0 <= i < msgs.len() && carries(#[trigger] msgs[i], topic, text)
}

/// Whether some message of an inbox is on `topic` and carries `text`.
pub fn find_message(msgs: &Vec<Message>, topic: &String, text: &String) -> (r: bool)
    ensures
        r == inbox_has(inbox_view(*msgs), topic@, text@),
{
    let wanted = text.as_str().as_bytes();
    let ghost all = inbox_view(*msgs);
    let mut i: usize = 0;
    while i < msgs.len()
        invariant
            i <= msgs@.len(),
            all == inbox_view(*msgs),
            wanted@ == encode_utf8(text@),
            forall|k: int| 0 <= k < i ==> !carries(#[trigger] all[k], topic@, text@),
        decreases msgs@.len() - i,
    {
        let m = &msgs[i];
        assert(all[i as int] == m@);
        if m.topic == *topic {
            if let Some(p) = &m.payload {
                if same_bytes(p.as_slice(), wanted) {
                    assert(carries(all[i as int], topic@, text@));
                    return true;
                }
            }
        }
        i = i + 1;
    }
    false
}

/// What the scenario waits for.
#[derive(Clone, Copy, Debug, PartialEq, Eq, Structural)]
pub enum PubsubPhase {
    Subscribe,
    Time,
    Mark,
    Check,
    Publish,
    Pause,
    Settle,
    Poll,
    Over,
}

/// The scenario: after B has subscribed, A publishes and B's inbox is read
/// until the message has landed or the limit has passed.
pub struct Pubsub {
    topic: String,
    text: String,
    last: String,
    phase: PubsubPhase,
    found: Option<Verdict>,
}

/// What a `Pubsub` holds.
pub struct PubsubView {
    pub topic: Seq<char>,
    pub text: Seq<char>,
    pub last: Seq<char>,
    pub phase: PubsubPhase,
    pub found: Option<VerdictView>,
}

impl View for Pubsub {
    type V = PubsubView;

    closed spec fn view(&self) -> PubsubView {
        PubsubView {
            topic: self.topic@,
            text: self.text@,
            last: self.last@,
            phase: self.phase,
            found: verdict_view(self.found),
        }
    }
}

impl PubsubView {
    pub open spec fn start(a_id: Seq<char>) -> Self {
        PubsubView {
            topic: news_topic(a_id),
            text: Seq::empty(),
            last: no_attempt(),
            phase: PubsubPhase::Subscribe,
            found: None,
        }
    }

    /// The verdict, once the scenario is done.
    pub open spec fn verdict(self) -> Option<VerdictView> {
        if self.phase is Over {
            self.found
        } else {
            None
        }
    }

    /// What the scenario asks for.
    pub open spec fn pending(self) -> ActionView {
        match self.phase {
            PubsubPhase::Subscribe => ActionView::Subscribe { topic: self.topic },
            PubsubPhase::Time => ActionView::ReadTime,
            PubsubPhase::Mark => ActionView::MarkClock,
            PubsubPhase::Check => ActionView::ReadClock,
            PubsubPhase::Publish => ActionView::Publish {
                topic: self.topic,
                payload: encode_utf8(self.text),
            },
            PubsubPhase::Pause => ActionView::Sleep { ms: PUBLISH_PAUSE_MS },
            PubsubPhase::Settle => ActionView::Sleep { ms: SETTLE_MS },
            PubsubPhase::Poll => ActionView::ReadInbox,
            PubsubPhase::Over => ActionView::Rest,
        }
    }

    /// The scenario after an event.
    pub open spec fn next(self, event: EventView) -> Self {
        match (self.phase, event) {
            (PubsubPhase::Subscribe, EventView::Ack(Ok(()))) => PubsubView {
                phase: PubsubPhase::Time,
                ..self
            },
            (PubsubPhase::Subscribe, EventView::Ack(Err(e))) => PubsubView {
                phase: PubsubPhase::Over,
                found: Some(failed("B subscribe failed: "@ + e)),
                ..self
            },
            (PubsubPhase::Time, EventView::UnixTime(secs)) => PubsubView {
                phase: PubsubPhase::Mark,
                text: news_text(secs),
                ..self
            },
            (PubsubPhase::Mark, EventView::Done) => PubsubView {
                phase: PubsubPhase::Check,
                ..self
            },
            (PubsubPhase::Check, EventView::Elapsed(ns)) => if ns > PUBSUB_LIMIT_NS {
                PubsubView {
                    phase: PubsubPhase::Over,
                    found: Some(failed("B never received the published message: "@ + self.last)),
                    ..self
                }
            } else {
                PubsubView { phase: PubsubPhase::Publish, ..self }
            },
            (PubsubPhase::Publish, EventView::Ack(Ok(()))) => PubsubView {
                phase: PubsubPhase::Settle,
                ..self
            },
            (PubsubPhase::Publish, EventView::Ack(Err(e))) => PubsubView {
                phase: PubsubPhase::Pause,
                last: "A publish failed: "@ + e,
                ..self
            },
            (PubsubPhase::Pause, EventView::Done) => PubsubView {
                phase: PubsubPhase::Check,
                ..self
            },
            (PubsubPhase::Settle, EventView::Done) => PubsubView {
                phase: PubsubPhase::Poll,
                ..self
            },
            (PubsubPhase::Poll, EventView::Inbox(Ok(msgs))) => if inbox_has(
                msgs,
                self.topic,
                self.text,
            ) {
                PubsubView {
                    phase: PubsubPhase::Over,
                    found: Some(passed("B received A's publish on topic '"@ + self.topic + "'"@)),
                    ..self
                }
            } else {
                PubsubView {
                    phase: PubsubPhase::Check,
                    last: "message not yet in B's inbox"@,
                    ..self
                }
            },
            (PubsubPhase::Poll, EventView::Inbox(Err(e))) => PubsubView {
                phase: PubsubPhase::Check,
                last: "B inbox poll failed: "@ + e,
                ..self
            },
            _ => self,
        }
    }

    /// The scenario after a row of events.
    pub open spec fn run(self, events: Seq<EventView>) -> Self
        decreases events.len(),
    {
        if events.len() == 0 {
            self
        } else {
            self.run(events.drop_last()).next(events.last())
        }
    }
}

impl Pubsub {
    /// The scenario, on a topic that bears the identity of node A.
    pub fn new(a_id: &str) -> (r: Self)
        ensures
            r@ == PubsubView::start(a_id@),
    {
        Pubsub {
            topic: "ce-it/news-".to_owned().concat(short_id(a_id).as_str()),
            text: String::new(),
            last: "(no attempt)".to_owned(),
            phase: PubsubPhase::Subscribe,
            found: None,
        }
    }

    /// What is to be done next.
    pub fn pending(&self) -> (r: Action)
        ensures
            r@ == self@.pending(),
    {
        match self.phase {
            PubsubPhase::Subscribe => Action::Subscribe { topic: self.topic.clone() },
            PubsubPhase::Time => Action::ReadTime,
            PubsubPhase::Mark => Action::MarkClock,
            PubsubPhase::Check => Action::ReadClock,
            PubsubPhase::Publish => Action::Publish {
                topic: self.topic.clone(),
                payload: self.text.as_str().as_bytes_vec(),
            },
            PubsubPhase::Pause => Action::Sleep { ms: PUBLISH_PAUSE_MS },
            PubsubPhase::Settle => Action::Sleep { ms: SETTLE_MS },
            PubsubPhase::Poll => Action::ReadInbox,
            PubsubPhase::Over => Action::Rest,
        }
    }

    /// Takes in what came of the pending action. An event that does not
    /// answer it changes nothing.
    pub fn step(&mut self, event: Event)
        ensures
            final(self)@ == old(self)@.next(event@),
    {
        match (self.phase, event) {
            (PubsubPhase::Subscribe, Event::Ack(Ok(()))) => {
                self.phase = PubsubPhase::Time;
            },
            (PubsubPhase::Subscribe, Event::Ack(Err(e))) => {
                self.phase = PubsubPhase::Over;
                self.found = Some(fail("B subscribe failed: ".to_owned().concat(e.as_str())));
            },
            (PubsubPhase::Time, Event::UnixTime(secs)) => {
                self.phase = PubsubPhase::Mark;
                self.text = "breaking-".to_owned().concat(decimal_text(secs).as_str());
            },
            (PubsubPhase::Mark, Event::Done) => {
                self.phase = PubsubPhase::Check;
            },
            (PubsubPhase::Check, Event::Elapsed(ns)) => {
                if ns > PUBSUB_LIMIT_NS {
                    self.phase = PubsubPhase::Over;
                    self.found = Some(fail(
                        "B never received the published message: ".to_owned().concat(
                            self.last.as_str(),
                        ),
                    ));
                } else {
                    self.phase = PubsubPhase::Publish;
                }
            },
            (PubsubPhase::Publish, Event::Ack(Ok(()))) => {
                self.phase = PubsubPhase::Settle;
            },
            (PubsubPhase::Publish, Event::Ack(Err(e))) => {
                self.phase = PubsubPhase::Pause;
                self.last = "A publish failed: ".to_owned().concat(e.as_str());
            },
            (PubsubPhase::Pause, Event::Done) => {
                self.phase = PubsubPhase::Check;
            },
            (PubsubPhase::Settle, Event::Done) => {
                self.phase = PubsubPhase::Poll;
            },
            (PubsubPhase::Poll, Event::Inbox(Ok(msgs))) => {
                if find_message(&msgs, &self.topic, &self.text) {
                    self.phase = PubsubPhase::Over;
                    self.found = Some(pass(
                        "B received A's publish on topic '".to_owned().concat(
                            self.topic.as_str(),
                        ).concat("'"),
                    ));
                } else {
                    self.phase = PubsubPhase::Check;
                    self.last = "message not yet in B's inbox".to_owned();
                }
            },
            (PubsubPhase::Poll, Event::Inbox(Err(e))) => {
                self.phase = PubsubPhase::Check;
                self.last = "B inbox poll failed: ".to_owned().concat(e.as_str());
            },
            _ => {},
        }
    }

    /// The verdict, once the scenario is done.
    pub fn verdict(&self) -> (r: Option<Verdict>)
        ensures
            verdict_view(r) == self@.verdict(),
    {
        match self.phase {
            PubsubPhase::Over => copy_verdict(&self.found),
            _ => None,
        }
    }
}

/// An event that does not answer what the scenario asks for changes nothing; one
/// that does moves it on.
pub proof fn pubsub_heeds_answers_only(s: PubsubView, event: EventView)
    ensures
        !answers(s.pending(), event) ==> s.next(event) == s,
        answers(s.pending(), event) ==> s.next(event).phase != s.phase,
{
}

impl PubsubView {
    /// Whether an event shows the published message in B's inbox.
    pub open spec fn lands(self, event: EventView) -> bool {
        self.pending() is ReadInbox && (event matches EventView::Inbox(Ok(msgs)) && inbox_has(
            msgs,
            self.topic,
            self.text,
        ))
    }

    /// Whether an event tells that B could not subscribe.
    pub open spec fn refuses(self, event: EventView) -> bool {
        self.pending() is Subscribe && event matches EventView::Ack(Err(_))
    }

    /// Whether an event tells that the limit has passed.
    pub open spec fn expires(self, event: EventView) -> bool {
        self.pending() is ReadClock && (event matches EventView::Elapsed(ns) && ns
            > PUBSUB_LIMIT_NS)
    }

    /// Whether the published message landed in a row of events.
    pub open spec fn ever_landed(self, events: Seq<EventView>) -> bool
        decreases events.len(),
    {
        events.len() > 0 && (self.ever_landed(events.drop_last()) || self.run(
            events.drop_last(),
        ).lands(events.last()))
    }

    /// Whether B could not subscribe in a row of events.
    pub open spec fn ever_refused(self, events: Seq<EventView>) -> bool
        decreases events.len(),
    {
        events.len() > 0 && (self.ever_refused(events.drop_last()) || self.run(
            events.drop_last(),
        ).refuses(events.last()))
    }

    /// Whether the limit passed in a row of events.
    pub open spec fn ever_expired(self, events: Seq<EventView>) -> bool
        decreases events.len(),
    {
        events.len() > 0 && (self.ever_expired(events.drop_last()) || self.run(
            events.drop_last(),
        ).expires(events.last()))
    }

    /// Whether the text that is published has been made.
    pub open spec fn text_is_made(self) -> bool {
        !(self.phase is Subscribe) && !(self.phase is Time)
    }
}

proof fn lemma_pubsub_run(a_id: Seq<char>, events: Seq<EventView>)
    ensures
        ({
            let start = PubsubView::start(a_id);
            let s = start.run(events);
            &&& s.topic == news_topic(a_id)
            &&& s.found is Some <==> s.phase is Over
            &&& start.ever_landed(events) <==> (s.found matches Some(v) && v.outcome
                == Outcome::Pass)
            &&& (start.ever_refused(events) || start.ever_expired(events)) <==> (
            s.found matches Some(v) && v.outcome == Outcome::Fail)
            &&& s.found matches Some(v) ==> v.outcome != Outcome::Blocked
        }),
    decreases events.len(),
{
    if events.len() > 0 {
        lemma_pubsub_run(a_id, events.drop_last());
    }
}

/// A scenario that is done has passed exactly if the published message was
/// seen in B's inbox. It has failed exactly if B could not subscribe or the
/// limit passed first: never before its time.
pub proof fn pubsub_passes_iff_landed(a_id: Seq<char>, events: Seq<EventView>)
    ensures
        ({
            let start = PubsubView::start(a_id);
            let s = start.run(events);
            &&& s.verdict() is Some <==> s.pending() is Rest
            &&& s.verdict() matches Some(v) ==> (v.outcome == Outcome::Pass
                <==> start.ever_landed(events)) && (v.outcome == Outcome::Fail <==> (
            start.ever_refused(events) || start.ever_expired(events))) && v.outcome
                != Outcome::Blocked
        }),
{
    lemma_pubsub_run(a_id, events);
}

/// The topic and the text that B's inbox is searched for are the ones that A
/// publishes: once made, neither changes.
pub proof fn pubsub_seeks_what_it_publishes(s: PubsubView, events: Seq<EventView>)
    requires
        s.text_is_made(),
    ensures
        s.run(events).topic == s.topic,
        s.run(events).text == s.text,
        s.run(events).text_is_made(),
    decreases events.len(),
{
    if events.len() > 0 {
        pubsub_seeks_what_it_publishes(s, events.drop_last());
    }
}

/// A publish that arrives passes: an inbox with a message on the topic that
/// carries the published bytes ends the scenario.
pub proof fn pubsub_accepts_its_message(s: PubsubView, msgs: Seq<MessageView>, i: int)
    requires
        s.pending() is ReadInbox,
        0 <= i < msgs.len(),
        msgs[i].topic == s.topic,
        msgs[i].payload == Some(encode_utf8(s.text)),
    ensures
        s.next(EventView::Inbox(Ok(msgs))).verdict() matches Some(v) && v.outcome == Outcome::Pass,
{
    assert(carries(msgs[i], s.topic, s.text));
}

/// A publishes only right after the clock has shown no more than the limit.
pub proof fn pubsub_publishes_within_limit(s: PubsubView, event: EventView)
    requires
        !(s.pending() is Publish),
        s.next(event).pending() is Publish,
    ensures
        event matches EventView::Elapsed(ns) && ns <= PUBSUB_LIMIT_NS,
{
}

/// The trouble that shows once the limit has passed is the latest one: that of
/// the publish, where it failed, and that of the look at the inbox otherwise.
pub proof fn pubsub_shows_the_latest_trouble(
    s: PubsubView,
    e: Seq<char>,
    msgs: Seq<MessageView>,
    ns: u128,
)
    requires
        ns > PUBSUB_LIMIT_NS,
    ensures
        s.pending() is Publish ==> s.next(EventView::Ack(Err(e))).next(EventView::Done).next(
            EventView::Elapsed(ns),
        ).verdict() == Some(
            failed("B never received the published message: "@ + ("A publish failed: "@ + e)),
        ),
        s.pending() is ReadInbox ==> s.next(EventView::Inbox(Err(e))).next(
            EventView::Elapsed(ns),
        ).verdict() == Some(
            failed("B never received the published message: "@ + ("B inbox poll failed: "@ + e)),
        ),
        s.pending() is ReadInbox && !inbox_has(msgs, s.topic, s.text) ==> s.next(
            EventView::Inbox(Ok(msgs)),
        ).next(EventView::Elapsed(ns)).verdict() == Some(
            failed("B never received the published message: "@ + "message not yet in B's inbox"@),
        ),
{
}

impl PubsubView {
    /// The time that was told in a row of events, where it was.
    pub open spec fn told_time(self, events: Seq<EventView>) -> Option<u64>
        decreases events.len(),
    {
        if events.len() == 0 {
            None
        } else if self.run(events.drop_last()).pending() is ReadTime && events.last() is UnixTime {
            Some(events.last()->UnixTime_0)
        } else {
            self.told_time(events.drop_last())
        }
    }

    /// The topic and the payload of the latest publish that was taken in a row of
    /// events.
    pub open spec fn published(self, events: Seq<EventView>) -> Option<(Seq<char>, Seq<u8>)>
        decreases events.len(),
    {
        if events.len() == 0 {
            None
        } else {
            let before = self.run(events.drop_last()).pending();
            if before is Publish && (events.last() matches EventView::Ack(Ok(_))) {
                Some((before->Publish_topic, before->Publish_payload))
            } else {
                self.published(events.drop_last())
            }
        }
    }

    /// The latest trouble in a row of events: a publish that failed, an inbox
    /// that could not be read, or one without the message.
    pub open spec fn trouble(self, events: Seq<EventView>) -> Seq<char>
        decreases events.len(),
    {
        if events.len() == 0 {
            "(no attempt)"@
        } else {
            let before = self.run(events.drop_last()).pending();
            match (before, events.last()) {
                (ActionView::Publish { .. }, EventView::Ack(Err(e))) => "A publish failed: "@ + e,
                (ActionView::ReadInbox, EventView::Inbox(Err(e))) => "B inbox poll failed: "@ + e,
                (ActionView::ReadInbox, EventView::Inbox(Ok(_))) => "message not yet in B's inbox"@,
                _ => self.trouble(events.drop_last()),
            }
        }
    }
}

proof fn lemma_pubsub_history(a_id: Seq<char>, events: Seq<EventView>)
    ensures
        ({
            let start = PubsubView::start(a_id);
            let s = start.run(events);
            &&& s.topic == "ce-it/news-"@ + first_ten(a_id)
            &&& !(s.phase is Over) ==> s.last == start.trouble(events)
            &&& !(s.phase is Over) && s.text_is_made() ==> (start.told_time(events) matches Some(
                secs,
            ) && s.text == "breaking-"@ + decimal(secs as nat))
            &&& (s.phase is Settle || s.phase is Poll) ==> start.published(events) == Some(
                (s.topic, encode_utf8(s.text)),
            )
        }),
    decreases events.len(),
{
    short_id_is_the_first_ten(a_id);
    if events.len() > 0 {
        lemma_pubsub_history(a_id, events.drop_last());
    }
}

/// Whatever came before, B subscribes to the topic that A publishes on, which
/// bears the first ten characters of the identity of A, and what is published
/// bears the time that was told.
pub proof fn publish_bears_the_time(a_id: Seq<char>, events: Seq<EventView>)
    ensures
        ({
            let start = PubsubView::start(a_id);
            match start.run(events).pending() {
                ActionView::Subscribe { topic } => topic == "ce-it/news-"@ + first_ten(a_id),
                ActionView::Publish { topic, payload } => topic == "ce-it/news-"@ + first_ten(a_id)
                    && (start.told_time(events) matches Some(secs) && payload == encode_utf8(
                    "breaking-"@ + decimal(secs as nat),
                )),
                ActionView::Sleep { ms } => ms == 500 || ms == 700,
                _ => true,
            }
        }),
{
    lemma_pubsub_history(a_id, events);
}

/// Whatever came before, an inbox passes exactly if some message of it is on the
/// topic of the publish that was taken and carries the very bytes of that
/// publish. An inbox in which every message on the topic carries other bytes ends
/// nothing: the clock is read again.
pub proof fn inbox_passes_iff_it_holds_the_publish(
    a_id: Seq<char>,
    events: Seq<EventView>,
    msgs: Seq<MessageView>,
)
    requires
        PubsubView::start(a_id).run(events).pending() is ReadInbox,
    ensures
        ({
            let start = PubsubView::start(a_id);
            let after = start.run(events).next(EventView::Inbox(Ok(msgs)));
            start.published(events) matches Some((topic, payload)) && (if exists|i: int|
                #![trigger msgs[i]]
                0 <= i < msgs.len() && msgs[i].topic == topic && msgs[i].payload == Some(payload) {
                after.verdict() matches Some(v) && v.outcome == Outcome::Pass && v.detail
                    == "B received A's publish on topic '"@ + topic + "'"@
            } else {
                after.verdict() is None && after.pending() is ReadClock
            })
        }),
{
    let start = PubsubView::start(a_id);
    let s = start.run(events);
    lemma_pubsub_history(a_id, events);
    if exists|i: int|
        #![trigger msgs[i]]
        0 <= i < msgs.len() && msgs[i].topic == s.topic && msgs[i].payload == Some(
            encode_utf8(s.text),
        ) {
        let i = choose|i: int|
            #![trigger msgs[i]]
            0 <= i < msgs.len() && msgs[i].topic == s.topic && msgs[i].payload == Some(
                encode_utf8(s.text),
            );
        assert(carries(msgs[i], s.topic, s.text));
    }
}

/// Whatever came before, the clock ends the scenario exactly if it shows more than
/// twenty seconds: it has then failed, and tells the latest trouble. Else A
/// publishes.
pub proof fn clock_decides_the_pubsub(a_id: Seq<char>, events: Seq<EventView>, ns: u128)
    requires
        PubsubView::start(a_id).run(events).pending() is ReadClock,
    ensures
        ({
            let start = PubsubView::start(a_id);
            let after = start.run(events).next(EventView::Elapsed(ns));
            if ns > 20_000_000_000 {
                after.verdict() matches Some(v) && v.outcome == Outcome::Fail && v.detail
                    == "B never received the published message: "@ + start.trouble(events)
            } else {
                after.pending() is Publish
            }
        }),
{
    lemma_pubsub_history(a_id, events);
}

/// B subscribes before anything else, and the scenario ends where it cannot. Then
/// the time is told and the clock marked. A publish that was taken is left seven
/// tenths of a second before the inbox is read; one that failed is followed by
/// half a second and the clock, as is an inbox that cannot be read by the clock.
pub proof fn pubsub_goes_its_way(a_id: Seq<char>, s: PubsubView, secs: u64, e: Seq<char>)
    ensures
        PubsubView::start(a_id).pending() is Subscribe,
        s.pending() is Subscribe ==> s.next(EventView::Ack(Ok(()))).pending() is ReadTime,
        s.pending() is Subscribe ==> (s.next(EventView::Ack(Err(e))).verdict() matches Some(v)
            && v.outcome == Outcome::Fail && v.detail == "B subscribe failed: "@ + e),
        s.pending() is ReadTime ==> s.next(EventView::UnixTime(secs)).pending() is MarkClock,
        s.pending() is MarkClock ==> s.next(EventView::Done).pending() is ReadClock,
        s.pending() is Publish ==> s.next(EventView::Ack(Ok(()))).pending() == (
        ActionView::Sleep { ms: 700 }),
        s.pending() is Publish ==> s.next(EventView::Ack(Err(e))).pending() == (
        ActionView::Sleep { ms: 500 }),
        s.pending() == (ActionView::Sleep { ms: 700 }) ==> s.next(EventView::Done).pending()
            is ReadInbox,
        s.pending() == (ActionView::Sleep { ms: 500 }) ==> s.next(EventView::Done).pending()
            is ReadClock,
        s.pending() is ReadInbox ==> s.next(EventView::Inbox(Err(e))).pending() is ReadClock,
{
}

/// A message is found in an inbox exactly if some message of it is on the topic
/// and carries the bytes of the text, no more and no fewer.
pub proof fn message_is_found_iff_it_is_there(
    msgs: Seq<MessageView>,
    topic: Seq<char>,
    text: Seq<char>,
)
    ensures
        inbox_has(msgs, topic, text) <==> exists|i: int|
            #![trigger msgs[i]]
            0 <= i < msgs.len() && msgs[i].topic == topic && msgs[i].payload == Some(
                encode_utf8(text),
            ),
{
    if inbox_has(msgs, topic, text) {
        let i = choose|i: int| 0 <= i < msgs.len() && carries(#[trigger] msgs[i], topic, text);
        assert(msgs[i].topic == topic);
    }
    if exists|i: int|
        #![trigger msgs[i]]
        0 <= i < msgs.len() && msgs[i].topic == topic && msgs[i].payload == Some(
            encode_utf8(text),
        ) {
        let i = choose|i: int|
            #![trigger msgs[i]]
            0 <= i < msgs.len() && msgs[i].topic == topic && msgs[i].payload == Some(
                encode_utf8(text),
            );
        assert(carries(msgs[i], topic, text));
    }
}

} // verus!
