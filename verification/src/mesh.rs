//! What a run asks of the program around it, and the answers it takes in.
use vstd::prelude::*;

use crate::report::Outcome;

verus! {

/// Nanoseconds in a second.
pub const SECOND_NS: u128 = 1_000_000_000;

/// What is shown as the latest trouble before anything was tried.
pub open spec fn no_attempt() -> Seq<char> {
    "(no attempt)"@
}

/// A message of an inbox.
#[derive(Debug)]
pub struct Message {
    pub topic: String,
    /// The payload, where it could be decoded.
    pub payload: Option<Vec<u8>>,
    /// The token that a reply takes, where the message is a request.
    pub reply_token: Option<u64>,
}

/// What a `Message` holds.
pub struct MessageView {
    pub topic: Seq<char>,
    pub payload: Option<Seq<u8>>,
    pub reply_token: Option<u64>,
}

/// What optional bytes hold.
pub open spec fn bytes_view(b: Option<Vec<u8>>) -> Option<Seq<u8>> {
    match b {
        Some(v) => Some(v@),
        None => None,
    }
}

/// What an optional text holds.
pub open spec fn text_view(s: Option<String>) -> Option<Seq<char>> {
    match s {
        Some(t) => Some(t@),
        None => None,
    }
}

impl View for Message {
    type V = MessageView;

    open spec fn view(&self) -> MessageView {
        MessageView {
            topic: self.topic@,
            payload: bytes_view(self.payload),
            reply_token: self.reply_token,
        }
    }
}

/// What the messages of an inbox hold, in their order.
pub open spec fn inbox_view(msgs: Vec<Message>) -> Seq<MessageView> {
    msgs@.map_values(|m: Message| m@)
}

/// The end of a scenario: how it came out, and why.
#[derive(Debug)]
pub struct Verdict {
    pub outcome: Outcome,
    pub detail: String,
}

/// What a `Verdict` holds.
pub struct VerdictView {
    pub outcome: Outcome,
    pub detail: Seq<char>,
}

impl View for Verdict {
    type V = VerdictView;

    open spec fn view(&self) -> VerdictView {
        VerdictView { outcome: self.outcome, detail: self.detail@ }
    }
}

/// What an optional verdict holds.
pub open spec fn verdict_view(v: Option<Verdict>) -> Option<VerdictView> {
    match v {
        Some(d) => Some(d@),
        None => None,
    }
}

/// The verdict `Pass` with a detail.
pub open spec fn passed(detail: Seq<char>) -> VerdictView {
    VerdictView { outcome: Outcome::Pass, detail }
}

/// The verdict `Fail` with a detail.
pub open spec fn failed(detail: Seq<char>) -> VerdictView {
    VerdictView { outcome: Outcome::Fail, detail }
}

/// The verdict `Blocked` with a detail.
pub open spec fn blocked(detail: Seq<char>) -> VerdictView {
    VerdictView { outcome: Outcome::Blocked, detail }
}

/// A copy of a verdict.
pub(crate) fn copy_verdict(v: &Option<Verdict>) -> (r: Option<Verdict>)
    ensures
        verdict_view(r) == verdict_view(*v),
{
    match v {
        Some(d) => Some(Verdict { outcome: d.outcome, detail: d.detail.clone() }),
        None => None,
    }
}

/// The verdict `Pass` with a detail.
pub(crate) fn pass(detail: String) -> (r: Verdict)
    ensures
        r@ == passed(detail@),
{
    Verdict { outcome: Outcome::Pass, detail }
}

/// The verdict `Fail` with a detail.
pub(crate) fn fail(detail: String) -> (r: Verdict)
    ensures
        r@ == failed(detail@),
{
    Verdict { outcome: Outcome::Fail, detail }
}

/// The verdict `Blocked` with a detail.
pub(crate) fn block(detail: String) -> (r: Verdict)
    ensures
        r@ == blocked(detail@),
{
    Verdict { outcome: Outcome::Blocked, detail }
}

/// A request to node A to open a tunnel.
#[derive(Debug)]
pub struct TunnelPost {
    pub url: String,
    /// The token that the request bears.
    pub token: String,
    pub node_id: String,
    pub local_port: u16,
    pub remote_port: u16,
    pub caps: Option<String>,
}

/// What a `TunnelPost` holds.
pub struct TunnelPostView {
    pub url: Seq<char>,
    pub token: Seq<char>,
    pub node_id: Seq<char>,
    pub local_port: u16,
    pub remote_port: u16,
    pub caps: Option<Seq<char>>,
}

impl View for TunnelPost {
    type V = TunnelPostView;

    open spec fn view(&self) -> TunnelPostView {
        TunnelPostView {
            url: self.url@,
            token: self.token@,
            node_id: self.node_id@,
            local_port: self.local_port,
            remote_port: self.remote_port,
            caps: text_view(self.caps),
        }
    }
}

/// How a run ends.
#[derive(Clone, Copy, Debug, PartialEq, Eq, Structural)]
pub enum Ending {
    /// Every scenario that was not blocked passed.
    Success,
    /// Some scenario failed.
    Failure,
    /// The nodes never peered, so no further scenario was run.
    NotPeered,
}

/// What is to be done next.
#[derive(Debug)]
pub enum Action {
    /// Remember the present moment; answered by `Done`.
    MarkClock,
    /// Tell how long ago the clock was marked; answered by `Elapsed`.
    ReadClock,
    /// Tell the Unix time; answered by `UnixTime`.
    ReadTime,
    /// Show a span of nanoseconds in seconds with one decimal; answered by
    /// `Rendered`.
    RenderSeconds { elapsed_ns: u128 },
    /// Wait; answered by `Done`.
    Sleep { ms: u64 },
    /// Send a directed message from node A; answered by `Ack`.
    SendMessage { to: String, topic: String, payload: Vec<u8> },
    /// Start the reply loop on node B; answered by `Done`.
    StartReplier { topic: String, prefix: Vec<u8> },
    /// Stop the reply loop and wait for its end; answered by `Done`.
    StopReplier,
    /// Send a request from node A and wait for the reply; answered by `Bytes`.
    Request { to: String, topic: String, body: Vec<u8>, timeout_ms: u64 },
    /// Subscribe node B to a topic; answered by `Ack`.
    Subscribe { topic: String },
    /// Publish from node A; answered by `Ack`.
    Publish { topic: String, payload: Vec<u8> },
    /// Read the inbox of node B; answered by `Inbox`.
    ReadInbox,
    /// Store a blob on node A; answered by `Cid`.
    PutBlob { content: Vec<u8> },
    /// Fetch a blob from node B; answered by `Bytes`.
    GetBlob { cid: String },
    /// Advertise a service on node B; answered by `Ack`.
    Advertise { service: String },
    /// Look up the providers of a service on node A; answered by `Providers`.
    FindService { service: String },
    /// Bind the listener of the echo server; answered by `Ack`.
    BindEcho,
    /// Tell the port of the echo server; answered by `Port`.
    EchoPort,
    /// Start to accept connections on the echo server; answered by `Done`.
    ServeEcho,
    /// Stop the echo server; answered by `Done`.
    StopEcho,
    /// Pick a free local port; answered by `Port`.
    FreePort,
    /// Tell the capability token that was given for tunnels; answered by `Caps`.
    ReadCaps,
    /// Post a tunnel request to node A; answered by `Posted`.
    PostTunnel(TunnelPost),
    /// Read the body of the answer to the post; answered by `Body`.
    ReadBody,
    /// Connect to the local end of the tunnel; answered by `Ack`.
    ConnectIngress { port: u16 },
    /// Write bytes to the tunnel and flush it; answered by `Ack`.
    WriteIngress { bytes: Vec<u8> },
    /// Read once from the tunnel; answered by `Bytes`, or by `TimedOut` where
    /// nothing came in time.
    ReadIngress { limit: usize, timeout_ms: u64 },
    /// Print a text; answered by `Done`.
    Print { text: String },
    /// End the run.
    Exit(Ending),
    /// Nothing is left to be done.
    Rest,
}

/// What an `Action` holds.
pub enum ActionView {
    MarkClock,
    ReadClock,
    ReadTime,
    RenderSeconds { elapsed_ns: u128 },
    Sleep { ms: u64 },
    SendMessage { to: Seq<char>, topic: Seq<char>, payload: Seq<u8> },
    StartReplier { topic: Seq<char>, prefix: Seq<u8> },
    StopReplier,
    Request { to: Seq<char>, topic: Seq<char>, body: Seq<u8>, timeout_ms: u64 },
    Subscribe { topic: Seq<char> },
    Publish { topic: Seq<char>, payload: Seq<u8> },
    ReadInbox,
    PutBlob { content: Seq<u8> },
    GetBlob { cid: Seq<char> },
    Advertise { service: Seq<char> },
    FindService { service: Seq<char> },
    BindEcho,
    EchoPort,
    ServeEcho,
    StopEcho,
    FreePort,
    ReadCaps,
    PostTunnel(TunnelPostView),
    ReadBody,
    ConnectIngress { port: u16 },
    WriteIngress { bytes: Seq<u8> },
    ReadIngress { limit: usize, timeout_ms: u64 },
    Print { text: Seq<char> },
    Exit(Ending),
    Rest,
}

impl View for Action {
    type V = ActionView;

    open spec fn view(&self) -> ActionView {
        match *self {
            Action::MarkClock => ActionView::MarkClock,
            Action::ReadClock => ActionView::ReadClock,
            Action::ReadTime => ActionView::ReadTime,
            Action::RenderSeconds { elapsed_ns } => ActionView::RenderSeconds { elapsed_ns },
            Action::Sleep { ms } => ActionView::Sleep { ms },
            Action::SendMessage { to, topic, payload } => ActionView::SendMessage {
                to: to@,
                topic: topic@,
                payload: payload@,
            },
            Action::StartReplier { topic, prefix } => ActionView::StartReplier {
                topic: topic@,
                prefix: prefix@,
            },
            Action::StopReplier => ActionView::StopReplier,
            Action::Request { to, topic, body, timeout_ms } => ActionView::Request {
                to: to@,
                topic: topic@,
                body: body@,
                timeout_ms,
            },
            Action::Subscribe { topic } => ActionView::Subscribe { topic: topic@ },
            Action::Publish { topic, payload } => ActionView::Publish {
                topic: topic@,
                payload: payload@,
            },
            Action::ReadInbox => ActionView::ReadInbox,
            Action::PutBlob { content } => ActionView::PutBlob { content: content@ },
            Action::GetBlob { cid } => ActionView::GetBlob { cid: cid@ },
            Action::Advertise { service } => ActionView::Advertise { service: service@ },
            Action::FindService { service } => ActionView::FindService { service: service@ },
            Action::BindEcho => ActionView::BindEcho,
            Action::EchoPort => ActionView::EchoPort,
            Action::ServeEcho => ActionView::ServeEcho,
            Action::StopEcho => ActionView::StopEcho,
            Action::FreePort => ActionView::FreePort,
            Action::ReadCaps => ActionView::ReadCaps,
            Action::PostTunnel(post) => ActionView::PostTunnel(post@),
            Action::ReadBody => ActionView::ReadBody,
            Action::ConnectIngress { port } => ActionView::ConnectIngress { port },
            Action::WriteIngress { bytes } => ActionView::WriteIngress { bytes: bytes@ },
            Action::ReadIngress { limit, timeout_ms } => ActionView::ReadIngress {
                limit,
                timeout_ms,
            },
            Action::Print { text } => ActionView::Print { text: text@ },
            Action::Exit(ending) => ActionView::Exit(ending),
            Action::Rest => ActionView::Rest,
        }
    }
}

/// What came of an action. An error is handed in as its text.
#[derive(Debug)]
pub enum Event {
    Done,
    Ack(Result<(), String>),
    Elapsed(u128),
    UnixTime(u64),
    Rendered(String),
    Bytes(Result<Vec<u8>, String>),
    Inbox(Result<Vec<Message>, String>),
    Cid(Result<String, String>),
    Providers(Result<Vec<String>, String>),
    Port(Result<u16, String>),
    Caps(Option<String>),
    /// The number of the HTTP status that a post was answered with.
    Posted(Result<u16, String>),
    /// The body of an answer, where it could be read.
    Body(Option<String>),
    /// The time that an action was given has run out.
    TimedOut(String),
}

/// What an `Event` holds.
pub enum EventView {
    Done,
    Ack(Result<(), Seq<char>>),
    Elapsed(u128),
    UnixTime(u64),
    Rendered(Seq<char>),
    Bytes(Result<Seq<u8>, Seq<char>>),
    Inbox(Result<Seq<MessageView>, Seq<char>>),
    Cid(Result<Seq<char>, Seq<char>>),
    Providers(Result<Seq<Seq<char>>, Seq<char>>),
    Port(Result<u16, Seq<char>>),
    Caps(Option<Seq<char>>),
    Posted(Result<u16, Seq<char>>),
    Body(Option<Seq<char>>),
    TimedOut(Seq<char>),
}

impl View for Event {
    type V = EventView;

    open spec fn view(&self) -> EventView {
        match *self {
            Event::Done => EventView::Done,
            Event::Ack(Ok(())) => EventView::Ack(Ok(())),
            Event::Ack(Err(e)) => EventView::Ack(Err(e@)),
            Event::Elapsed(ns) => EventView::Elapsed(ns),
            Event::UnixTime(secs) => EventView::UnixTime(secs),
            Event::Rendered(s) => EventView::Rendered(s@),
            Event::Bytes(Ok(b)) => EventView::Bytes(Ok(b@)),
            Event::Bytes(Err(e)) => EventView::Bytes(Err(e@)),
            Event::Inbox(Ok(msgs)) => EventView::Inbox(Ok(inbox_view(msgs))),
            Event::Inbox(Err(e)) => EventView::Inbox(Err(e@)),
            Event::Cid(Ok(c)) => EventView::Cid(Ok(c@)),
            Event::Cid(Err(e)) => EventView::Cid(Err(e@)),
            Event::Providers(Ok(p)) => EventView::Providers(Ok(p.deep_view())),
            Event::Providers(Err(e)) => EventView::Providers(Err(e@)),
            Event::Port(Ok(p)) => EventView::Port(Ok(p)),
            Event::Port(Err(e)) => EventView::Port(Err(e@)),
            Event::Caps(c) => EventView::Caps(text_view(c)),
            Event::Posted(Ok(code)) => EventView::Posted(Ok(code)),
            Event::Posted(Err(e)) => EventView::Posted(Err(e@)),
            Event::Body(b) => EventView::Body(text_view(b)),
            Event::TimedOut(e) => EventView::TimedOut(e@),
        }
    }
}

/// Whether an event answers an action. Only the numbers from 100 to 999 are
/// HTTP statuses.
pub open spec fn answers(action: ActionView, event: EventView) -> bool {
    match action {
        ActionView::MarkClock => event is Done,
        ActionView::ReadClock => event is Elapsed,
        ActionView::ReadTime => event is UnixTime,
        ActionView::RenderSeconds { .. } => event is Rendered,
        ActionView::Sleep { .. } => event is Done,
        ActionView::SendMessage { .. } => event is Ack,
        ActionView::StartReplier { .. } => event is Done,
        ActionView::StopReplier => event is Done,
        ActionView::Request { .. } => event is Bytes,
        ActionView::Subscribe { .. } => event is Ack,
        ActionView::Publish { .. } => event is Ack,
        ActionView::ReadInbox => event is Inbox,
        ActionView::PutBlob { .. } => event is Cid,
        ActionView::GetBlob { .. } => event is Bytes,
        ActionView::Advertise { .. } => event is Ack,
        ActionView::FindService { .. } => event is Providers,
        ActionView::BindEcho => event is Ack,
        ActionView::EchoPort => event is Port,
        ActionView::ServeEcho => event is Done,
        ActionView::StopEcho => event is Done,
        ActionView::FreePort => event is Port,
        ActionView::ReadCaps => event is Caps,
        ActionView::PostTunnel(_) => match event {
            EventView::Posted(Ok(code)) => 100 <= code < 1000,
            EventView::Posted(Err(_)) => true,
            _ => false,
        },
        ActionView::ReadBody => event is Body,
        ActionView::ConnectIngress { .. } => event is Ack,
        ActionView::WriteIngress { .. } => event is Ack,
        ActionView::ReadIngress { .. } => event is Bytes || event is TimedOut,
        ActionView::Print { .. } => event is Done,
        ActionView::Exit(_) => false,
        ActionView::Rest => false,
    }
}

/// Whether what messages hold is their topic, their payload and their token, one
/// for one.
pub open spec fn same_messages(msgs: Seq<Message>, shown: Seq<MessageView>) -> bool {
    &&& shown.len() == msgs.len()
    &&& forall|i: int|
        #![trigger shown[i]]
        0 <= i < msgs.len() ==> {
            &&& shown[i].topic == msgs[i].topic@
            &&& shown[i].reply_token == msgs[i].reply_token
            &&& shown[i].payload is Some <==> msgs[i].payload is Some
            &&& msgs[i].payload matches Some(p) ==> shown[i].payload == Some(p@)
        }
}

/// An event stands for what it was made of, whole.
pub proof fn events_stand_for_what_they_hold(
    text: String,
    bytes: Vec<u8>,
    msgs: Vec<Message>,
    names: Vec<String>,
    secs: u64,
    ns: u128,
    number: u16,
)
    ensures
        Event::Done@ is Done,
        Event::Ack(Ok(()))@ matches EventView::Ack(Ok(_)),
        Event::Ack(Err(text))@ == EventView::Ack(Err(text@)),
        Event::Elapsed(ns)@ == EventView::Elapsed(ns),
        Event::UnixTime(secs)@ == EventView::UnixTime(secs),
        Event::Rendered(text)@ == EventView::Rendered(text@),
        Event::Bytes(Ok(bytes))@ == EventView::Bytes(Ok(bytes@)),
        Event::Bytes(Err(text))@ == EventView::Bytes(Err(text@)),
        Event::Inbox(Ok(msgs))@ matches EventView::Inbox(Ok(shown)) && same_messages(msgs@, shown),
        Event::Inbox(Err(text))@ == EventView::Inbox(Err(text@)),
        Event::Cid(Ok(text))@ == EventView::Cid(Ok(text@)),
        Event::Cid(Err(text))@ == EventView::Cid(Err(text@)),
        Event::Providers(Ok(names))@ matches EventView::Providers(Ok(shown)) && shown.len()
            == names@.len() && forall|i: int|
            0 <= i < names@.len() ==> #[trigger] shown[i] == names@[i]@,
        Event::Providers(Err(text))@ == EventView::Providers(Err(text@)),
        Event::Port(Ok(number))@ == EventView::Port(Ok(number)),
        Event::Port(Err(text))@ == EventView::Port(Err(text@)),
        Event::Caps(Some(text))@ == EventView::Caps(Some(text@)),
        Event::Caps(None)@ == EventView::Caps(None),
        Event::Posted(Ok(number))@ == EventView::Posted(Ok(number)),
        Event::Posted(Err(text))@ == EventView::Posted(Err(text@)),
        Event::Body(Some(text))@ == EventView::Body(Some(text@)),
        Event::Body(None)@ == EventView::Body(None),
        Event::TimedOut(text)@ == EventView::TimedOut(text@),
{
}

/// An action stands for what it was made of, whole.
pub proof fn actions_stand_for_what_they_hold(
    to: String,
    topic: String,
    bytes: Vec<u8>,
    ns: u128,
    ms: u64,
    port: u16,
    limit: usize,
    ending: Ending,
    post: TunnelPost,
)
    ensures
        Action::MarkClock@ is MarkClock,
        Action::ReadClock@ is ReadClock,
        Action::ReadTime@ is ReadTime,
        (Action::RenderSeconds { elapsed_ns: ns })@ == (ActionView::RenderSeconds { elapsed_ns: ns }),
        (Action::Sleep { ms })@ == (ActionView::Sleep { ms }),
        (Action::SendMessage { to, topic, payload: bytes })@ == (ActionView::SendMessage {
            to: to@,
            topic: topic@,
            payload: bytes@,
        }),
        (Action::StartReplier { topic, prefix: bytes })@ == (ActionView::StartReplier {
            topic: topic@,
            prefix: bytes@,
        }),
        Action::StopReplier@ is StopReplier,
        (Action::Request { to, topic, body: bytes, timeout_ms: ms })@ == (ActionView::Request {
            to: to@,
            topic: topic@,
            body: bytes@,
            timeout_ms: ms,
        }),
        (Action::Subscribe { topic })@ == (ActionView::Subscribe { topic: topic@ }),
        (Action::Publish { topic, payload: bytes })@ == (ActionView::Publish {
            topic: topic@,
            payload: bytes@,
        }),
        Action::ReadInbox@ is ReadInbox,
        (Action::PutBlob { content: bytes })@ == (ActionView::PutBlob { content: bytes@ }),
        (Action::GetBlob { cid: topic })@ == (ActionView::GetBlob { cid: topic@ }),
        (Action::Advertise { service: topic })@ == (ActionView::Advertise { service: topic@ }),
        (Action::FindService { service: topic })@ == (ActionView::FindService { service: topic@ }),
        Action::BindEcho@ is BindEcho,
        Action::EchoPort@ is EchoPort,
        Action::ServeEcho@ is ServeEcho,
        Action::StopEcho@ is StopEcho,
        Action::FreePort@ is FreePort,
        Action::ReadCaps@ is ReadCaps,
        Action::PostTunnel(post)@ == ActionView::PostTunnel(post@),
        Action::ReadBody@ is ReadBody,
        (Action::ConnectIngress { port })@ == (ActionView::ConnectIngress { port }),
        (Action::WriteIngress { bytes })@ == (ActionView::WriteIngress { bytes: bytes@ }),
        (Action::ReadIngress { limit, timeout_ms: ms })@ == (ActionView::ReadIngress {
            limit,
            timeout_ms: ms,
        }),
        (Action::Print { text: topic })@ == (ActionView::Print { text: topic@ }),
        Action::Exit(ending)@ == ActionView::Exit(ending),
        Action::Rest@ is Rest,
        post@.url == post.url@,
        post@.token == post.token@,
        post@.node_id == post.node_id@,
        post@.local_port == post.local_port,
        post@.remote_port == post.remote_port,
        post@.caps is Some <==> post.caps is Some,
        post.caps matches Some(c) ==> post@.caps == Some(c@),
{
}

/// A verdict stands for its outcome and its detail, and each of the three makers
/// of verdicts gives the outcome that it is named for.
pub proof fn verdicts_stand_for_what_they_hold(v: Verdict, detail: Seq<char>)
    ensures
        v@.outcome == v.outcome,
        v@.detail == v.detail@,
        verdict_view(Some(v)) == Some(v@),
        verdict_view(None) is None,
        passed(detail).outcome == Outcome::Pass && passed(detail).detail == detail,
        failed(detail).outcome == Outcome::Fail && failed(detail).detail == detail,
        blocked(detail).outcome == Outcome::Blocked && blocked(detail).detail == detail,
{
}

} // verus!
