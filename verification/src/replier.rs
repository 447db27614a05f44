//! The reply loop of node B: answers requests by echoing them behind a prefix.
use vstd::prelude::*;

use crate::mesh::{inbox_view, same_messages, Message, MessageView};
use crate::text::joined;

verus! {

/// The pause between two looks at the inbox, in milliseconds.
pub const REPLIER_PAUSE_MS: u64 = 100;

/// The payload of a message, or nothing where it could not be decoded.
pub open spec fn payload_or_empty(m: MessageView) -> Seq<u8> {
    match m.payload {
        Some(b) => b,
        None => Seq::empty(),
    }
}

/// Whether a message is a request on `topic`.
pub open spec fn is_request(m: MessageView, topic: Seq<char>) -> bool {
    m.topic == topic && m.reply_token is Some
}

/// The reply to a request: its token and its payload behind the prefix.
pub open spec fn reply_to(m: MessageView, prefix: Seq<u8>) -> (u64, Seq<u8>) {
    (m.reply_token->0, prefix + payload_or_empty(m))
}

/// The replies to the requests of an inbox on `topic`, in the inbox's order.
pub open spec fn replies(msgs: Seq<MessageView>, topic: Seq<char>, prefix: Seq<u8>) -> Seq<
    (u64, Seq<u8>),
> {
    msgs.filter(|m: MessageView| is_request(m, topic)).map_values(
        |m: MessageView| reply_to(m, prefix),
    )
}

/// What a queue of replies holds.
pub open spec fn queue_view(q: Vec<(u64, Vec<u8>)>) -> Seq<(u64, Seq<u8>)> {
    q@.map_values(|r: (u64, Vec<u8>)| (r.0, r.1@))
}

proof fn lemma_replies_step(
    msgs: Seq<MessageView>,
    n: int,
    topic: Seq<char>,
    prefix: Seq<u8>,
)
    requires
        0 <= n < msgs.len(),
    ensures
        replies(msgs.take(n + 1), topic, prefix) == if is_request(msgs[n], topic) {
            replies(msgs.take(n), topic, prefix).push(reply_to(msgs[n], prefix))
        } else {
            replies(msgs.take(n), topic, prefix)
        },
{
    reveal(Seq::filter);
    assert(msgs.take(n + 1).drop_last() =~= msgs.take(n));
    assert(replies(msgs.take(n + 1), topic, prefix) =~= if is_request(msgs[n], topic) {
        replies(msgs.take(n), topic, prefix).push(reply_to(msgs[n], prefix))
    } else {
        replies(msgs.take(n), topic, prefix)
    });
}

/// The replies to the requests of an inbox on `topic`, in the inbox's order.
pub fn replies_to(msgs: &Vec<Message>, topic: &String, prefix: &Vec<u8>) -> (r: Vec<
    (u64, Vec<u8>),
>)
    ensures
        queue_view(r) == replies(inbox_view(*msgs), topic@, prefix@),
{
    let mut out: Vec<(u64, Vec<u8>)> = Vec::new();
    let ghost all = inbox_view(*msgs);
    let mut i: usize = 0;
    proof {
        reveal(Seq::filter);
    }
    assert(queue_view(out) =~= replies(all.take(0), topic@, prefix@));
    while i < msgs.len()
        invariant
            i <= msgs@.len(),
            all == inbox_view(*msgs),
            queue_view(out) == replies(all.take(i as int), topic@, prefix@),
        decreases msgs@.len() - i,
    {
        let m = &msgs[i];
        proof {
            lemma_replies_step(all, i as int, topic@, prefix@);
        }
        assert(all[i as int] == m@);
        let ghost before = queue_view(out);
        if m.topic == *topic {
            if let Some(token) = m.reply_token {
                let payload = match &m.payload {
                    Some(b) => joined(prefix.as_slice(), b.as_slice()),
                    None => joined(prefix.as_slice(), Vec::new().as_slice()),
                };
                out.push((token, payload));
                assert(queue_view(out) =~= before.push((token, payload@)));
            }
        }
        i = i + 1;
    }
    assert(all.take(i as int) =~= all);
    out
}

/// What the reply loop asks for.
#[derive(Debug)]
pub enum ReplierAction {
    /// Tell whether the loop is to stop; answered by `Stop`.
    CheckStop,
    /// Read the inbox of node B; answered by `Inbox`.
    ReadInbox,
    /// Send a reply from node B; answered by `Done`, whether it was sent or not.
    Reply { token: u64, payload: Vec<u8> },
    /// Wait; answered by `Done`.
    Sleep { ms: u64 },
    /// Nothing is left to be done.
    Rest,
}

/// What a `ReplierAction` holds.
pub enum ReplierActionView {
    CheckStop,
    ReadInbox,
    Reply { token: u64, payload: Seq<u8> },
    Sleep { ms: u64 },
    Rest,
}

impl View for ReplierAction {
    type V = ReplierActionView;

    open spec fn view(&self) -> ReplierActionView {
        match *self {
            ReplierAction::CheckStop => ReplierActionView::CheckStop,
            ReplierAction::ReadInbox => ReplierActionView::ReadInbox,
            ReplierAction::Reply { token, payload } => ReplierActionView::Reply {
                token,
                payload: payload@,
            },
            ReplierAction::Sleep { ms } => ReplierActionView::Sleep { ms },
            ReplierAction::Rest => ReplierActionView::Rest,
        }
    }
}

/// What came of an action of the reply loop.
#[derive(Debug)]
pub enum ReplierEvent {
    Stop(bool),
    /// The messages of the inbox, or `None` where it could not be read.
    Inbox(Option<Vec<Message>>),
    Done,
}

/// What a `ReplierEvent` holds.
pub enum ReplierEventView {
    Stop(bool),
    Inbox(Option<Seq<MessageView>>),
    Done,
}

impl View for ReplierEvent {
    type V = ReplierEventView;

    open spec fn view(&self) -> ReplierEventView {
        match *self {
            ReplierEvent::Stop(b) => ReplierEventView::Stop(b),
            ReplierEvent::Inbox(Some(msgs)) => ReplierEventView::Inbox(Some(inbox_view(msgs))),
            ReplierEvent::Inbox(None) => ReplierEventView::Inbox(None),
            ReplierEvent::Done => ReplierEventView::Done,
        }
    }
}

/// What the loop waits for.
#[derive(Clone, Copy, Debug, PartialEq, Eq, Structural)]
pub enum ReplierPhase {
    Check,
    Read,
    Answer,
    Over,
}

/// The reply loop: looks at the inbox, answers every request in it, pauses,
/// and starts over until it is told to stop.
pub struct Replier {
    topic: String,
    prefix: Vec<u8>,
    queue: Vec<(u64, Vec<u8>)>,
    phase: ReplierPhase,
}

/// What a `Replier` holds.
pub struct ReplierView {
    pub topic: Seq<char>,
    pub prefix: Seq<u8>,
    pub queue: Seq<(u64, Seq<u8>)>,
    pub phase: ReplierPhase,
}

impl View for Replier {
    type V = ReplierView;

    closed spec fn view(&self) -> ReplierView {
        ReplierView {
            topic: self.topic@,
            prefix: self.prefix@,
            queue: queue_view(self.queue),
            phase: self.phase,
        }
    }
}

impl ReplierView {
    pub open spec fn start(topic: Seq<char>, prefix: Seq<u8>) -> Self {
        ReplierView { topic, prefix, queue: Seq::empty(), phase: ReplierPhase::Check }
    }

    /// What the loop asks for: the replies that are due come one by one, and
    /// the pause behind the last of them.
    pub open spec fn pending(self) -> ReplierActionView {
        match self.phase {
            ReplierPhase::Check => ReplierActionView::CheckStop,
            ReplierPhase::Read => ReplierActionView::ReadInbox,
            ReplierPhase::Answer => if self.queue.len() > 0 {
                ReplierActionView::Reply { token: self.queue[0].0, payload: self.queue[0].1 }
            } else {
                ReplierActionView::Sleep { ms: REPLIER_PAUSE_MS }
            },
            ReplierPhase::Over => ReplierActionView::Rest,
        }
    }

    /// The loop after an event.
    pub open spec fn next(self, event: ReplierEventView) -> Self {
        match (self.phase, event) {
            (ReplierPhase::Check, ReplierEventView::Stop(true)) => ReplierView {
                phase: ReplierPhase::Over,
                ..self
            },
            (ReplierPhase::Check, ReplierEventView::Stop(false)) => ReplierView {
                phase: ReplierPhase::Read,
                ..self
            },
            (ReplierPhase::Read, ReplierEventView::Inbox(Some(msgs))) => ReplierView {
                phase: ReplierPhase::Answer,
                queue: replies(msgs, self.topic, self.prefix),
                ..self
            },
            (ReplierPhase::Read, ReplierEventView::Inbox(None)) => ReplierView {
                phase: ReplierPhase::Answer,
                queue: Seq::empty(),
                ..self
            },
            (ReplierPhase::Answer, ReplierEventView::Done) => if self.queue.len() > 0 {
                ReplierView { queue: self.queue.drop_first(), ..self }
            } else {
                ReplierView { phase: ReplierPhase::Check, ..self }
            },
            _ => self,
        }
    }

    /// The loop after a row of `n` actions that were done.
    pub open spec fn after_done(self, n: nat) -> Self
        decreases n,
    {
        if n == 0 {
            self
        } else {
            self.after_done((n - 1) as nat).next(ReplierEventView::Done)
        }
    }
}

impl Replier {
    /// A loop that answers requests on `topic`.
    pub fn new(topic: &str, prefix: &[u8]) -> (r: Self)
        ensures
            r@ == ReplierView::start(topic@, prefix@),
    {
        let mut own: Vec<u8> = Vec::new();
        own.extend_from_slice(prefix);
        assert(own@ =~= prefix@);
        let r = Replier {
            topic: topic.to_owned(),
            prefix: own,
            queue: Vec::new(),
            phase: ReplierPhase::Check,
        };
        assert(r@.queue =~= Seq::empty());
        r
    }

    /// What is to be done next.
    pub fn pending(&self) -> (r: ReplierAction)
        ensures
            r@ == self@.pending(),
    {
        match self.phase {
            ReplierPhase::Check => ReplierAction::CheckStop,
            ReplierPhase::Read => ReplierAction::ReadInbox,
            ReplierPhase::Answer => if self.queue.len() > 0 {
                let mut payload: Vec<u8> = Vec::new();
                payload.extend_from_slice(self.queue[0].1.as_slice());
                assert(payload@ =~= self.queue@[0].1@);
                ReplierAction::Reply { token: self.queue[0].0, payload }
            } else {
                ReplierAction::Sleep { ms: REPLIER_PAUSE_MS }
            },
            ReplierPhase::Over => ReplierAction::Rest,
        }
    }

    /// Takes in what came of the pending action. An event that does not
    /// answer it changes nothing.
    pub fn step(&mut self, event: ReplierEvent)
        ensures
            final(self)@ == old(self)@.next(event@),
    {
        match (self.phase, event) {
            (ReplierPhase::Check, ReplierEvent::Stop(stop)) => {
                self.phase = if stop {
                    ReplierPhase::Over
                } else {
                    ReplierPhase::Read
                };
            },
            (ReplierPhase::Read, ReplierEvent::Inbox(Some(msgs))) => {
                self.queue = replies_to(&msgs, &self.topic, &self.prefix);
                self.phase = ReplierPhase::Answer;
            },
            (ReplierPhase::Read, ReplierEvent::Inbox(None)) => {
                self.queue = Vec::new();
                self.phase = ReplierPhase::Answer;
                assert(self@.queue =~= Seq::empty());
            },
            (ReplierPhase::Answer, ReplierEvent::Done) => {
                if self.queue.len() > 0 {
                    let _ = self.queue.remove(0);
                    assert(self@.queue =~= old(self)@.queue.drop_first());
                } else {
                    self.phase = ReplierPhase::Check;
                }
            },
            _ => {},
        }
    }
}

/// Of an inbox that holds messages, every request on the loop's topic is
/// answered once, in order, by its own payload behind the prefix, and only
/// then does the loop pause.
pub proof fn every_request_is_answered(s: ReplierView, msgs: Seq<MessageView>, k: nat)
    requires
        s.phase == ReplierPhase::Read,
        k <= replies(msgs, s.topic, s.prefix).len(),
    ensures
        ({
            let due = replies(msgs, s.topic, s.prefix);
            let now = s.next(ReplierEventView::Inbox(Some(msgs))).after_done(k);
            now.pending() == if k < due.len() {
                ReplierActionView::Reply { token: due[k as int].0, payload: due[k as int].1 }
            } else {
                ReplierActionView::Sleep { ms: REPLIER_PAUSE_MS }
            }
        }),
{
    lemma_queue_shrinks(s, msgs, k);
}

proof fn lemma_queue_shrinks(s: ReplierView, msgs: Seq<MessageView>, k: nat)
    requires
        s.phase == ReplierPhase::Read,
        k <= replies(msgs, s.topic, s.prefix).len(),
    ensures
        ({
            let now = s.next(ReplierEventView::Inbox(Some(msgs))).after_done(k);
            &&& now.phase == ReplierPhase::Answer
            &&& now.queue == replies(msgs, s.topic, s.prefix).skip(k as int)
        }),
    decreases k,
{
    let due = replies(msgs, s.topic, s.prefix);
    if k == 0 {
        assert(due.skip(0) =~= due);
    } else {
        lemma_queue_shrinks(s, msgs, (k - 1) as nat);
        assert(due.skip(k - 1).drop_first() =~= due.skip(k as int));
    }
}

/// Every reply goes to a request on the loop's topic: messages on other
/// topics, and messages that take no reply, are left alone.
pub proof fn only_requests_are_answered(
    msgs: Seq<MessageView>,
    topic: Seq<char>,
    prefix: Seq<u8>,
    k: int,
)
    requires
        0 <= k < replies(msgs, topic, prefix).len(),
    ensures
        exists|i: int|
            0 <= i < msgs.len() && is_request(#[trigger] msgs[i], topic) && replies(
                msgs,
                topic,
                prefix,
            )[k] == reply_to(msgs[i], prefix),
    decreases msgs.len(),
{
    reveal(Seq::filter);
    let n = msgs.len() - 1;
    if msgs.len() == 0 {
        assert(replies(msgs, topic, prefix).len() == 0);
    } else {
        lemma_replies_step(msgs, n, topic, prefix);
        assert(msgs.take(n + 1) =~= msgs);
        let head = msgs.take(n);
        if k < replies(head, topic, prefix).len() {
            only_requests_are_answered(head, topic, prefix, k);
            let i = choose|i: int|
                0 <= i < head.len() && is_request(#[trigger] head[i], topic) && replies(
                    head,
                    topic,
                    prefix,
                )[k] == reply_to(head[i], prefix);
            assert(msgs[i] == head[i]);
        } else {
            assert(is_request(msgs[n], topic));
        }
    }
}

/// A loop that was told to stop does nothing more.
pub proof fn stopped_loop_rests(s: ReplierView, event: ReplierEventView)
    requires
        s.phase == ReplierPhase::Over,
    ensures
        s.pending() == ReplierActionView::Rest,
        s.next(event) == s,
{
}

/// The order to stop is heeded once the replies that are due have been sent:
/// it is asked for only between two looks at the inbox.
pub proof fn stop_is_asked_between_rounds(s: ReplierView, event: ReplierEventView)
    requires
        s.phase != ReplierPhase::Over,
        s.next(event).phase == ReplierPhase::Over,
    ensures
        s.pending() == ReplierActionView::CheckStop,
        event == ReplierEventView::Stop(true),
{
}

/// No request on the loop's topic is passed over.
pub proof fn no_request_is_missed(
    msgs: Seq<MessageView>,
    topic: Seq<char>,
    prefix: Seq<u8>,
    i: int,
)
    requires
        0 <= i < msgs.len(),
        is_request(msgs[i], topic),
    ensures
        replies(msgs, topic, prefix).contains(reply_to(msgs[i], prefix)),
    decreases msgs.len(),
{
    let n = msgs.len() - 1;
    lemma_replies_step(msgs, n, topic, prefix);
    assert(msgs.take(n + 1) =~= msgs);
    let all = replies(msgs, topic, prefix);
    if i == n {
        assert(all.last() == reply_to(msgs[i], prefix));
    } else {
        let head = msgs.take(n);
        no_request_is_missed(head, topic, prefix, i);
        let k = choose|k: int|
            0 <= k < replies(head, topic, prefix).len() && replies(head, topic, prefix)[k]
                == reply_to(head[i], prefix);
        assert(all[k] == reply_to(msgs[i], prefix));
    }
}

/// A message more is one reply more, behind the others, exactly if the message
/// is on the topic and takes a reply: to its token, with its payload behind the
/// prefix, or the prefix alone where it has none. No messages, no replies.
pub proof fn message_is_answered_iff_it_asks(
    msgs: Seq<MessageView>,
    m: MessageView,
    topic: Seq<char>,
    prefix: Seq<u8>,
)
    ensures
        replies(Seq::empty(), topic, prefix).len() == 0,
        m.topic != topic || m.reply_token is None ==> replies(msgs.push(m), topic, prefix)
            == replies(msgs, topic, prefix),
        m.topic == topic ==> (m.reply_token matches Some(token) ==> replies(
            msgs.push(m),
            topic,
            prefix,
        ) == replies(msgs, topic, prefix).push(
            (
                token,
                match m.payload {
                    Some(payload) => prefix + payload,
                    None => prefix,
                },
            ),
        )),
{
    reveal(Seq::filter);
    let all = msgs.push(m);
    lemma_replies_step(all, msgs.len() as int, topic, prefix);
    assert(all.take(msgs.len() as int) =~= msgs);
    assert(all.take(msgs.len() as int + 1) =~= all);
    assert(prefix + Seq::<u8>::empty() =~= prefix);
}

/// The loop begins by asking whether it is to stop, and keeps its topic and its
/// prefix for good.
pub proof fn loop_keeps_its_topic(
    topic: Seq<char>,
    prefix: Seq<u8>,
    s: ReplierView,
    event: ReplierEventView,
)
    ensures
        ReplierView::start(topic, prefix).topic == topic,
        ReplierView::start(topic, prefix).prefix == prefix,
        ReplierView::start(topic, prefix).pending() is CheckStop,
        s.next(event).topic == s.topic,
        s.next(event).prefix == s.prefix,
{
}

/// A round: unless told to stop, the loop reads the inbox, answers, pauses for a
/// tenth of a second and asks again. An inbox that cannot be read, or asks for
/// nothing, is followed by the pause.
pub proof fn loop_goes_round(s: ReplierView, msgs: Seq<MessageView>)
    ensures
        s.pending() is CheckStop ==> s.next(ReplierEventView::Stop(false)).pending() is ReadInbox,
        s.pending() is CheckStop ==> s.next(ReplierEventView::Stop(true)).pending() is Rest,
        s.pending() is ReadInbox ==> s.next(ReplierEventView::Inbox(None)).pending() == (
        ReplierActionView::Sleep { ms: 100 }),
        s.pending() is ReadInbox && replies(msgs, s.topic, s.prefix).len() == 0 ==> s.next(
            ReplierEventView::Inbox(Some(msgs)),
        ).pending() == (ReplierActionView::Sleep { ms: 100 }),
        s.pending() is Sleep ==> s.pending() == (ReplierActionView::Sleep { ms: 100 }),
        s.pending() is Sleep ==> s.next(ReplierEventView::Done).pending() is CheckStop,
{
}

/// An event or an action of the loop stands for what it was made of, whole.
pub proof fn replier_views_are_whole(
    msgs: Vec<Message>,
    token: u64,
    payload: Vec<u8>,
    ms: u64,
    stop: bool,
    queue: Vec<(u64, Vec<u8>)>,
)
    ensures
        ReplierEvent::Stop(stop)@ == ReplierEventView::Stop(stop),
        ReplierEvent::Inbox(Some(msgs))@ matches ReplierEventView::Inbox(Some(shown))
            && same_messages(msgs@, shown),
        ReplierEvent::Inbox(None)@ == ReplierEventView::Inbox(None),
        ReplierEvent::Done@ is Done,
        ReplierAction::CheckStop@ is CheckStop,
        ReplierAction::ReadInbox@ is ReadInbox,
        (ReplierAction::Reply { token, payload })@ == (ReplierActionView::Reply {
            token,
            payload: payload@,
        }),
        (ReplierAction::Sleep { ms })@ == (ReplierActionView::Sleep { ms }),
        ReplierAction::Rest@ is Rest,
        queue_view(queue).len() == queue@.len(),
        forall|i: int|
            0 <= i < queue@.len() ==> #[trigger] queue_view(queue)[i] == (
                queue@[i].0,
                queue@[i].1@,
            ),
{
}

} // verus!
