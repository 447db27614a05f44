//! Request/reply over the mesh: A asks, the reply loop of B echoes.
use vstd::prelude::*;
use vstd::string::{StrSliceExecFns, StringExecFns};
use vstd::utf8::encode_utf8;

use crate::mesh::{
    answers, copy_verdict, fail, failed, pass, passed, verdict_view, Action, ActionView, Event,
    EventView, MessageView, Verdict, VerdictView,
};
use crate::outside::{quote, quoted};
use crate::replier::{no_request_is_missed, replies, reply_to};
use crate::report::Outcome;
use crate::text::{
    decimal, decimal_text, encoded_text_is_readable, joined, readable, readable_text, same_bytes,
};

verus! {

/// How long the reply loop gets before the request is sent, in milliseconds.
pub const WARM_UP_MS: u64 = 300;

/// How long A waits for the reply, in milliseconds.
pub const REQUEST_TIMEOUT_MS: u64 = 15_000;

/// The topic of the request.
pub open spec fn echo_topic() -> Seq<char> {
    "ce-it/echo"@
}

/// What B puts before the bytes that it sends back.
pub open spec fn echo_prefix() -> Seq<u8> {
    encode_utf8("echo:"@)
}

/// What A sends.
pub open spec fn request_body() -> Seq<u8> {
    encode_utf8("hello-from-A"@)
}

/// The detail of a reply that is not the echo, as it is shown.
pub open spec fn mismatch_text(shown: Seq<char>) -> Seq<char> {
    "reply mismatch: got "@ + shown
}

/// What a reply amounts to: `Pass` exactly where it is the body of the request
/// behind the prefix.
pub open spec fn reply_verdict(reply: Result<Seq<u8>, Seq<char>>) -> VerdictView {
    match reply {
        Ok(bytes) => if bytes == echo_prefix() + request_body() {
            passed(
                "A->B request answered; got "@ + decimal(bytes.len()) + " bytes echoed correctly"@,
            )
        } else {
            failed(mismatch_text(quoted(readable(bytes))))
        },
        Err(e) => failed("request failed: "@ + e),
    }
}

/// What the scenario waits for.
#[derive(Clone, Copy, Debug, PartialEq, Eq, Structural)]
pub enum RequestReplyPhase {
    Start,
    WarmUp,
    Ask,
    Stop,
    Over,
}

/// The scenario: start the reply loop, ask, stop the loop, judge the reply.
pub struct RequestReply {
    b_id: String,
    phase: RequestReplyPhase,
    found: Option<Verdict>,
}

/// What a `RequestReply` holds.
pub struct RequestReplyView {
    pub b_id: Seq<char>,
    pub phase: RequestReplyPhase,
    pub found: Option<VerdictView>,
}

impl View for RequestReply {
    type V = RequestReplyView;

    closed spec fn view(&self) -> RequestReplyView {
        RequestReplyView {
            b_id: self.b_id@,
            phase: self.phase,
            found: verdict_view(self.found),
        }
    }
}

impl RequestReplyView {
    pub open spec fn start(b_id: Seq<char>) -> Self {
        RequestReplyView { b_id, phase: RequestReplyPhase::Start, found: None }
    }

    /// The verdict, once the scenario is done.
    pub open spec fn verdict(self) -> Option<VerdictView> {
        if self.phase is Over {
            self.found
        } else {
            None
        }
    }

    /// What the scenario asks for.
    pub open spec fn pending(self) -> ActionView {
        match self.phase {
            RequestReplyPhase::Start => ActionView::StartReplier {
                topic: echo_topic(),
                prefix: echo_prefix(),
            },
            RequestReplyPhase::WarmUp => ActionView::Sleep { ms: WARM_UP_MS },
            RequestReplyPhase::Ask => ActionView::Request {
                to: self.b_id,
                topic: echo_topic(),
                body: request_body(),
                timeout_ms: REQUEST_TIMEOUT_MS,
            },
            RequestReplyPhase::Stop => ActionView::StopReplier,
            RequestReplyPhase::Over => ActionView::Rest,
        }
    }

    /// The scenario after an event.
    pub open spec fn next(self, event: EventView) -> Self {
        match (self.phase, event) {
            (RequestReplyPhase::Start, EventView::Done) => RequestReplyView {
                phase: RequestReplyPhase::WarmUp,
                ..self
            },
            (RequestReplyPhase::WarmUp, EventView::Done) => RequestReplyView {
                phase: RequestReplyPhase::Ask,
                ..self
            },
            (RequestReplyPhase::Ask, EventView::Bytes(reply)) => RequestReplyView {
                phase: RequestReplyPhase::Stop,
                found: Some(reply_verdict(reply)),
                ..self
            },
            (RequestReplyPhase::Stop, EventView::Done) => RequestReplyView {
                phase: RequestReplyPhase::Over,
                ..self
            },
            _ => self,
        }
    }

    /// The scenario after a row of events.
    pub open spec fn run(self, events: Seq<EventView>) -> Self
        decreases events.len(),
    {
        if events.len() == 0 {
            self
        } else {
            self.run(events.drop_last()).next(events.last())
        }
    }
}

/// The detail of a reply that is not the echo, as it is shown.
pub fn mismatch_detail(shown: &str) -> (r: String)
    ensures
        r@ == mismatch_text(shown@),
{
    "reply mismatch: got ".to_owned().concat(shown)
}

/// Judges a reply to the request of the scenario.
pub fn judge_reply(reply: Result<Vec<u8>, String>) -> (r: Verdict)
    ensures
        reply matches Ok(bytes) ==> r@ == reply_verdict(Ok(bytes@)),
        reply matches Err(e) ==> r@ == reply_verdict(Err(e@)),
{
    match reply {
        Ok(bytes) => {
            let expected = joined("echo:".as_bytes(), "hello-from-A".as_bytes());
            if same_bytes(bytes.as_slice(), expected.as_slice()) {
                pass(
                    "A->B request answered; got ".to_owned().concat(
                        decimal_text(bytes.len() as u64).as_str(),
                    ).concat(" bytes echoed correctly"),
                )
            } else {
                let shown = readable_text(bytes.as_slice());
                fail(mismatch_detail(quote(shown.as_str()).as_str()))
            }
        },
        Err(e) => fail("request failed: ".to_owned().concat(e.as_str())),
    }
}

impl RequestReply {
    /// The scenario, with requests to the node `b_id`.
    pub fn new(b_id: &str) -> (r: Self)
        ensures
            r@ == RequestReplyView::start(b_id@),
    {
        RequestReply { b_id: b_id.to_owned(), phase: RequestReplyPhase::Start, found: None }
    }

    /// What is to be done next.
    pub fn pending(&self) -> (r: Action)
        ensures
            r@ == self@.pending(),
    {
        match self.phase {
            RequestReplyPhase::Start => Action::StartReplier {
                topic: "ce-it/echo".to_owned(),
                prefix: "echo:".as_bytes_vec(),
            },
            RequestReplyPhase::WarmUp => Action::Sleep { ms: WARM_UP_MS },
            RequestReplyPhase::Ask => Action::Request {
                to: self.b_id.clone(),
                topic: "ce-it/echo".to_owned(),
                body: "hello-from-A".as_bytes_vec(),
                timeout_ms: REQUEST_TIMEOUT_MS,
            },
            RequestReplyPhase::Stop => Action::StopReplier,
            RequestReplyPhase::Over => Action::Rest,
        }
    }

    /// Takes in what came of the pending action. An event that does not
    /// answer it changes nothing.
    pub fn step(&mut self, event: Event)
        ensures
            final(self)@ == old(self)@.next(event@),
    {
        match (self.phase, event) {
            (RequestReplyPhase::Start, Event::Done) => {
                self.phase = RequestReplyPhase::WarmUp;
            },
            (RequestReplyPhase::WarmUp, Event::Done) => {
                self.phase = RequestReplyPhase::Ask;
            },
            (RequestReplyPhase::Ask, Event::Bytes(reply)) => {
                self.phase = RequestReplyPhase::Stop;
                self.found = Some(judge_reply(reply));
            },
            (RequestReplyPhase::Stop, Event::Done) => {
                self.phase = RequestReplyPhase::Over;
            },
            _ => {},
        }
    }

    /// The verdict, once the scenario is done.
    pub fn verdict(&self) -> (r: Option<Verdict>)
        ensures
            verdict_view(r) == self@.verdict(),
    {
        match self.phase {
            RequestReplyPhase::Over => copy_verdict(&self.found),
            _ => None,
        }
    }
}

/// An event that does not answer what the scenario asks for changes nothing; one
/// that does moves it on.
pub proof fn request_reply_heeds_answers_only(s: RequestReplyView, event: EventView)
    ensures
        !answers(s.pending(), event) ==> s.next(event) == s,
        answers(s.pending(), event) ==> s.next(event).phase != s.phase,
{
}

impl RequestReplyView {
    /// Whether an event brings the echo of the request.
    pub open spec fn echoes(self, event: EventView) -> bool {
        self.pending() is Request && event == EventView::Bytes(Ok(echo_prefix() + request_body()))
    }

    /// Whether an event tells that the reply loop was stopped.
    pub open spec fn stops(self, event: EventView) -> bool {
        self.pending() is StopReplier && event is Done
    }

    /// Whether the echo came in a row of events.
    pub open spec fn ever_echoed(self, events: Seq<EventView>) -> bool
        decreases events.len(),
    {
        events.len() > 0 && (self.ever_echoed(events.drop_last()) || self.run(
            events.drop_last(),
        ).echoes(events.last()))
    }

    /// Whether the reply loop was stopped in a row of events.
    pub open spec fn ever_stopped(self, events: Seq<EventView>) -> bool
        decreases events.len(),
    {
        events.len() > 0 && (self.ever_stopped(events.drop_last()) || self.run(
            events.drop_last(),
        ).stops(events.last()))
    }
}

proof fn lemma_request_reply_run(b_id: Seq<char>, events: Seq<EventView>)
    ensures
        ({
            let start = RequestReplyView::start(b_id);
            let s = start.run(events);
            &&& s.found is Some <==> (s.phase is Stop || s.phase is Over)
            &&& start.ever_echoed(events) <==> (s.found matches Some(v) && v.outcome
                == Outcome::Pass)
            &&& start.ever_stopped(events) <==> s.phase is Over
            &&& s.found matches Some(v) ==> v.outcome != Outcome::Blocked
        }),
    decreases events.len(),
{
    if events.len() > 0 {
        lemma_request_reply_run(b_id, events.drop_last());
    }
}

/// A scenario that is done has passed exactly if the reply was the body of the
/// request behind the prefix, and has failed otherwise. By then the reply loop
/// has been stopped.
pub proof fn request_reply_passes_iff_echoed(b_id: Seq<char>, events: Seq<EventView>)
    ensures
        ({
            let start = RequestReplyView::start(b_id);
            let s = start.run(events);
            &&& s.verdict() is Some <==> s.pending() is Rest
            &&& s.verdict() is Some ==> start.ever_stopped(events)
            &&& s.verdict() matches Some(v) ==> (v.outcome == Outcome::Pass
                <==> start.ever_echoed(events)) && (v.outcome == Outcome::Fail
                <==> !start.ever_echoed(events))
        }),
{
    lemma_request_reply_run(b_id, events);
}

/// What the reply loop answers to the request of the scenario is what the
/// scenario accepts: where an inbox holds that request, a reply to its token
/// is among the replies of the loop, and it passes.
pub proof fn reply_loop_satisfies_the_scenario(msgs: Seq<MessageView>, i: int)
    requires
        0 <= i < msgs.len(),
        msgs[i].topic == echo_topic(),
        msgs[i].payload == Some(request_body()),
        msgs[i].reply_token is Some,
    ensures
        replies(msgs, echo_topic(), echo_prefix()).contains(reply_to(msgs[i], echo_prefix())),
        reply_to(msgs[i], echo_prefix()).0 == msgs[i].reply_token->0,
        reply_verdict(Ok(reply_to(msgs[i], echo_prefix()).1)).outcome == Outcome::Pass,
{
    no_request_is_missed(msgs, echo_topic(), echo_prefix(), i);
}

/// A reply that is some other text than the echo shows that text, quoted.
pub proof fn mismatch_shows_the_reply(text: Seq<char>)
    requires
        encode_utf8(text) != echo_prefix() + request_body(),
    ensures
        reply_verdict(Ok(encode_utf8(text))) == failed(mismatch_text(quoted(text))),
{
    encoded_text_is_readable(text);
}

/// Whatever came before, the request goes to the node that the scenario is for,
/// on the topic that the reply loop answers, and each of the other actions is the
/// one that belongs to the scenario.
pub proof fn request_goes_to_the_node(b_id: Seq<char>, events: Seq<EventView>)
    ensures
        match RequestReplyView::start(b_id).run(events).pending() {
            ActionView::StartReplier { topic, prefix } => topic == "ce-it/echo"@ && prefix
                == encode_utf8("echo:"@),
            ActionView::Sleep { ms } => ms == 300,
            ActionView::Request { to, topic, body, timeout_ms } => to == b_id && topic
                == "ce-it/echo"@ && body == encode_utf8("hello-from-A"@) && timeout_ms == 15_000,
            ActionView::StopReplier => true,
            ActionView::Rest => true,
            _ => false,
        },
{
    lemma_node_stays(b_id, events);
}

proof fn lemma_node_stays(b_id: Seq<char>, events: Seq<EventView>)
    ensures
        RequestReplyView::start(b_id).run(events).b_id == b_id,
    decreases events.len(),
{
    if events.len() > 0 {
        lemma_node_stays(b_id, events.drop_last());
    }
}

/// The loop is started, left a moment, and asked; then it is stopped, and only
/// then is the verdict given.
pub proof fn request_goes_its_way(
    b_id: Seq<char>,
    s: RequestReplyView,
    reply: Result<Seq<u8>, Seq<char>>,
)
    ensures
        RequestReplyView::start(b_id).pending() is StartReplier,
        s.pending() is StartReplier ==> s.next(EventView::Done).pending() is Sleep,
        s.pending() is Sleep ==> s.next(EventView::Done).pending() is Request,
        s.pending() is Request ==> s.next(EventView::Bytes(reply)).pending() is StopReplier && s.next(
            EventView::Bytes(reply),
        ).verdict() is None,
        s.pending() is StopReplier ==> s.next(EventView::Done).pending() is Rest,
{
}

/// What the reply decides: it passes exactly if it is the body of the request
/// behind what the reply loop was given as its prefix, and tells its length;
/// another reply is shown, and an error told.
pub proof fn reply_decides_the_scenario(
    starting: RequestReplyView,
    asking: RequestReplyView,
    bytes: Seq<u8>,
    e: Seq<char>,
)
    requires
        starting.pending() is StartReplier,
        asking.pending() is Request,
    ensures
        ({
            let echo = starting.pending()->prefix + asking.pending()->body;
            let replied = asking.next(EventView::Bytes(Ok(bytes))).next(EventView::Done).verdict();
            let failed = asking.next(EventView::Bytes(Err(e))).next(EventView::Done).verdict();
            &&& replied matches Some(v) && (if bytes == echo {
                v.outcome == Outcome::Pass && v.detail == "A->B request answered; got "@ + decimal(
                    bytes.len(),
                ) + " bytes echoed correctly"@
            } else {
                v.outcome == Outcome::Fail && v.detail == "reply mismatch: got "@ + quoted(
                    readable(bytes),
                )
            })
            &&& failed matches Some(v) && v.outcome == Outcome::Fail && v.detail
                == "request failed: "@ + e
        }),
{
}

/// A reply passes exactly if it is `echo:` and what A sent, whichever way it is
/// come by.
pub proof fn reply_passes_iff_it_is_the_echo(bytes: Seq<u8>, e: Seq<char>)
    ensures
        reply_verdict(Ok(bytes)).outcome == Outcome::Pass <==> bytes == encode_utf8("echo:"@)
            + encode_utf8("hello-from-A"@),
        reply_verdict(Ok(bytes)).outcome != Outcome::Blocked,
        reply_verdict(Err(e)).outcome == Outcome::Fail,
{
}

} // verus!
