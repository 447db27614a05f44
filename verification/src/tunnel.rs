//! Tunnels: bytes written at A come back from an echo server behind B.
use vstd::prelude::*;
use vstd::string::{StrSliceExecFns, StringExecFns};
use vstd::utf8::{encode_utf8, encode_utf8_decode_utf8, is_ascii_chars_encode_utf8};

use crate::mesh::{
    answers, block, blocked, copy_verdict, fail, failed, no_attempt, pass, passed, text_view,
    verdict_view, Action, ActionView, Event, EventView, TunnelPost, TunnelPostView, Verdict,
    VerdictView,
};
use crate::outside::{
    insert_number, insert_text, json_fields, json_object, quote, quoted, reason_phrase,
    status_is_success, status_text, white_space, Field,
};
use crate::report::Outcome;
use crate::text::{
    decimal, decimal_text, encoded_text_is_readable, end_slashes_make_no_difference, joined,
    only_slashes_are_cut, readable, readable_text, same_bytes, trim_end_slashes,
    without_end_slashes,
};

verus! {

/// How long the local end of the tunnel may take to open, in nanoseconds.
pub const CONNECT_LIMIT_NS: u128 = 8_000_000_000;

/// The pause between two attempts to connect, in milliseconds.
pub const CONNECT_PAUSE_MS: u64 = 200;

/// How long the echo may take, in milliseconds.
pub const ECHO_TIMEOUT_MS: u64 = 8_000;

/// How many bytes are read at once.
pub const READ_LIMIT: usize = 1024;

/// What the echo server puts before the bytes that it sends back.
pub open spec fn pong_prefix() -> Seq<u8> {
    encode_utf8("pong:"@)
}

/// What is written to the tunnel.
pub open spec fn probe() -> Seq<u8> {
    encode_utf8("ping-tunnel"@)
}

/// The only bytes that count as the echo of the probe.
pub open spec fn probe_echo() -> Seq<u8> {
    encode_utf8("pong:ping-tunnel"@)
}

/// What the echo server sends for the bytes of one read.
pub open spec fn echo_of(received: Seq<u8>) -> Option<Seq<u8>> {
    if received.len() > 0 {
        Some(pong_prefix() + received)
    } else {
        None
    }
}

/// What the echo server sends for the bytes of one read: nothing where the
/// other side has closed the connection.
pub fn echo_frame(received: &[u8]) -> (r: Option<Vec<u8>>)
    ensures
        r is Some <==> echo_of(received@) is Some,
        r matches Some(bytes) ==> bytes@ == echo_of(received@)->0,
{
    if received.len() > 0 {
        Some(joined("pong:".as_bytes(), received))
    } else {
        None
    }
}

/// Whether a text holds nothing but white space.
pub open spec fn is_blank_text(s: Seq<char>) -> bool {
    forall|i: int| 0 <= i < s.len() ==> white_space(#[trigger] s[i])
}

/// The capability token that counts: one that is blank counts as none.
pub open spec fn usable_caps(caps: Option<Seq<char>>) -> Option<Seq<char>> {
    match caps {
        Some(s) => if is_blank_text(s) {
            None
        } else {
            Some(s)
        },
        None => None,
    }
}

/// Whether a text holds nothing but white space.
pub fn is_blank(s: &str) -> (r: bool)
    ensures
        r == is_blank_text(s@),
{
    let len: usize = s.unicode_len();
    let mut i: usize = 0;
    while i < len
        invariant
            len == s@.len(),
            i <= len,
            forall|k: int| 0 <= k < i ==> white_space(#[trigger] s@[k]),
        decreases len - i,
    {
        let c = s.get_char(i);
        if !c.is_whitespace() {
            assert(!white_space(s@[i as int]));
            return false;
        }
        i = i + 1;
    }
    true
}

/// The capability token that counts.
pub fn filter_caps(caps: Option<String>) -> (r: Option<String>)
    ensures
        text_view(r) == usable_caps(text_view(caps)),
{
    match caps {
        Some(s) => if is_blank(s.as_str()) {
            None
        } else {
            Some(s)
        },
        None => None,
    }
}

/// Where tunnels are asked for, below the base URL of a node.
pub open spec fn tunnel_url(base: Seq<char>) -> Seq<char> {
    without_end_slashes(base) + "/tunnel"@
}

/// The members of the JSON object that asks for a tunnel. Without a
/// capability token it has no member `caps`.
pub open spec fn request_fields(post: TunnelPostView) -> Map<Seq<char>, Field> {
    let plain = Map::<Seq<char>, Field>::empty().insert(
        "node_id"@,
        Field::Text(post.node_id),
    ).insert("local_port"@, Field::Number(post.local_port as nat)).insert(
        "remote_port"@,
        Field::Number(post.remote_port as nat),
    );
    match post.caps {
        Some(c) => plain.insert("caps"@, Field::Text(c)),
        None => plain,
    }
}

/// The JSON object that asks for a tunnel.
pub fn tunnel_request(post: &TunnelPost) -> (m: serde_json::Map<String, serde_json::Value>)
    ensures
        json_fields(m) == request_fields(post@),
{
    let mut m = json_object();
    insert_text(&mut m, "node_id", post.node_id.as_str());
    insert_number(&mut m, "local_port", post.local_port);
    insert_number(&mut m, "remote_port", post.remote_port);
    if let Some(c) = &post.caps {
        insert_text(&mut m, "caps", c.as_str());
    }
    m
}

/// The detail of a post that was refused, with the status as it is shown.
pub open spec fn refused_text(status: Seq<char>, body: Seq<char>) -> Seq<char> {
    "POST /tunnel returned "@ + status + ": "@ + body
}

/// An HTTP status as it is shown.
pub open spec fn shown_status(code: u16) -> Seq<char> {
    decimal(code as nat) + seq![' '] + reason_phrase(code)
}

/// The body of an answer, or nothing where it could not be read.
pub open spec fn body_or_empty(body: Option<Seq<char>>) -> Seq<char> {
    match body {
        Some(s) => s,
        None => Seq::empty(),
    }
}

/// The detail of a post that was refused, with the status as it is shown.
pub fn refused_detail(status: &str, body: &str) -> (r: String)
    ensures
        r@ == refused_text(status@, body@),
{
    "POST /tunnel returned ".to_owned().concat(status).concat(": ").concat(body)
}

/// What came back through the tunnel: the echo, or why it is none.
pub open spec fn echo_check(bytes: Seq<u8>) -> Result<Seq<u8>, Seq<char>> {
    if bytes.len() == 0 {
        Err("tunnel returned EOF with no data"@)
    } else if bytes != probe_echo() {
        Err(echo_mismatch_text(quoted(readable(bytes))))
    } else {
        Ok(bytes)
    }
}

/// The trouble of an echo that is not the expected one, as it is shown.
pub open spec fn echo_mismatch_text(shown: Seq<char>) -> Seq<char> {
    "tunnel echo mismatch: got "@ + shown
}

/// The detail of a drive that went through, with the echo as it is shown.
pub open spec fn flowed_text(local_port: u16, remote_port: u16, shown: Seq<char>) -> Seq<char> {
    "bytes flowed A:"@ + decimal(local_port as nat) + " -> B:"@ + decimal(remote_port as nat)
        + "; got back "@ + shown
}

/// What a drive through the tunnel amounts to. Where it came to nothing, it
/// is a failure only if a capability was given: without one, B is right to
/// refuse the bytes, and the scenario is blocked.
pub open spec fn drive_verdict(
    have_caps: bool,
    local_port: u16,
    remote_port: u16,
    result: Result<Seq<u8>, Seq<char>>,
) -> VerdictView {
    match result {
        Ok(bytes) => passed(flowed_text(local_port, remote_port, quoted(readable(bytes)))),
        Err(e) => if have_caps {
            failed("tunnel opened with a valid capability but byte round-trip failed: "@ + e)
        } else {
            blocked(
                "no tunnel capability provided (set CE_IT_TUNNEL_CAPS); B correctly gated the stream: "@
                    + e,
            )
        },
    }
}

/// What the outcome of a drive holds.
pub open spec fn result_view(r: Result<Vec<u8>, String>) -> Result<Seq<u8>, Seq<char>> {
    match r {
        Ok(b) => Ok(b@),
        Err(e) => Err(e@),
    }
}

/// The trouble of a read that nothing came for in time.
pub open spec fn timed_out_text(cause: Seq<char>) -> Seq<char> {
    "read from tunnel timed out: "@ + cause
}

/// The trouble of a read that nothing came for in time.
pub fn timed_out_detail(cause: &str) -> (r: String)
    ensures
        r@ == timed_out_text(cause@),
{
    "read from tunnel timed out: ".to_owned().concat(cause)
}

/// The trouble of an echo that is not the expected one, as it is shown.
pub fn echo_mismatch_detail(shown: &str) -> (r: String)
    ensures
        r@ == echo_mismatch_text(shown@),
{
    "tunnel echo mismatch: got ".to_owned().concat(shown)
}

/// The detail of a drive that went through, with the echo as it is shown.
pub fn flowed_detail(local_port: u16, remote_port: u16, shown: &str) -> (r: String)
    ensures
        r@ == flowed_text(local_port, remote_port, shown@),
{
    "bytes flowed A:".to_owned().concat(decimal_text(local_port as u64).as_str()).concat(
        " -> B:",
    ).concat(decimal_text(remote_port as u64).as_str()).concat("; got back ").concat(shown)
}

/// Holds what came back through the tunnel against the expected echo.
pub fn check_echo(bytes: Vec<u8>) -> (r: Result<Vec<u8>, String>)
    ensures
        result_view(r) == echo_check(bytes@),
{
    if bytes.len() == 0 {
        Err("tunnel returned EOF with no data".to_owned())
    } else if !same_bytes(bytes.as_slice(), "pong:ping-tunnel".as_bytes()) {
        let shown = readable_text(bytes.as_slice());
        Err(echo_mismatch_detail(quote(shown.as_str()).as_str()))
    } else {
        Ok(bytes)
    }
}

/// Judges a drive through the tunnel.
pub fn judge_drive(
    have_caps: bool,
    local_port: u16,
    remote_port: u16,
    result: Result<Vec<u8>, String>,
) -> (r: Verdict)
    ensures
        r@ == drive_verdict(have_caps, local_port, remote_port, result_view(result)),
{
    match result {
        Ok(bytes) => {
            let shown = readable_text(bytes.as_slice());
            pass(flowed_detail(local_port, remote_port, quote(shown.as_str()).as_str()))
        },
        Err(e) => if have_caps {
            fail(
                "tunnel opened with a valid capability but byte round-trip failed: ".to_owned().concat(
                e.as_str()),
            )
        } else {
            block(
                "no tunnel capability provided (set CE_IT_TUNNEL_CAPS); B correctly gated the stream: ".to_owned().concat(
                e.as_str()),
            )
        },
    }
}

/// What the scenario waits for.
#[derive(Clone, Copy, Debug, PartialEq, Eq, Structural)]
pub enum TunnelPhase {
    Bind,
    EchoPort,
    Serve,
    FreePort,
    Caps,
    Post,
    Body(u16),
    Mark,
    Connect,
    Check,
    Pause,
    Write,
    Read,
    Abort,
    Stop,
    Over,
}

/// The scenario: stand up an echo server behind B, open a tunnel at A, drive
/// a probe through it, stop the server and judge what came back.
pub struct Tunnel {
    base: String,
    token: String,
    b_id: String,
    remote_port: u16,
    local_port: u16,
    caps: Option<String>,
    last: String,
    phase: TunnelPhase,
    found: Option<Verdict>,
}

/// What a `Tunnel` holds.
pub struct TunnelView {
    pub base: Seq<char>,
    pub token: Seq<char>,
    pub b_id: Seq<char>,
    pub remote_port: u16,
    pub local_port: u16,
    pub caps: Option<Seq<char>>,
    pub last: Seq<char>,
    pub phase: TunnelPhase,
    pub found: Option<VerdictView>,
}

impl View for Tunnel {
    type V = TunnelView;

    closed spec fn view(&self) -> TunnelView {
        TunnelView {
            base: self.base@,
            token: self.token@,
            b_id: self.b_id@,
            remote_port: self.remote_port,
            local_port: self.local_port,
            caps: text_view(self.caps),
            last: self.last@,
            phase: self.phase,
            found: verdict_view(self.found),
        }
    }
}

impl TunnelView {
    pub open spec fn start(base: Seq<char>, token: Seq<char>, b_id: Seq<char>) -> Self {
        TunnelView {
            base,
            token,
            b_id,
            remote_port: 0,
            local_port: 0,
            caps: None,
            last: no_attempt(),
            phase: TunnelPhase::Bind,
            found: None,
        }
    }

    /// The verdict, once it is given. Where the tunnel never opened, that is
    /// before the echo server is stopped; else it is the last thing done.
    pub open spec fn verdict(self) -> Option<VerdictView> {
        if self.phase is Abort || self.phase is Over {
            self.found
        } else {
            None
        }
    }

    /// The request for the tunnel.
    pub open spec fn post(self) -> TunnelPostView {
        TunnelPostView {
            url: tunnel_url(self.base),
            token: self.token,
            node_id: self.b_id,
            local_port: self.local_port,
            remote_port: self.remote_port,
            caps: self.caps,
        }
    }

    /// What the scenario asks for.
    pub open spec fn pending(self) -> ActionView {
        match self.phase {
            TunnelPhase::Bind => ActionView::BindEcho,
            TunnelPhase::EchoPort => ActionView::EchoPort,
            TunnelPhase::Serve => ActionView::ServeEcho,
            TunnelPhase::FreePort => ActionView::FreePort,
            TunnelPhase::Caps => ActionView::ReadCaps,
            TunnelPhase::Post => ActionView::PostTunnel(self.post()),
            TunnelPhase::Body(_) => ActionView::ReadBody,
            TunnelPhase::Mark => ActionView::MarkClock,
            TunnelPhase::Connect => ActionView::ConnectIngress { port: self.local_port },
            TunnelPhase::Check => ActionView::ReadClock,
            TunnelPhase::Pause => ActionView::Sleep { ms: CONNECT_PAUSE_MS },
            TunnelPhase::Write => ActionView::WriteIngress { bytes: probe() },
            TunnelPhase::Read => ActionView::ReadIngress {
                limit: READ_LIMIT,
                timeout_ms: ECHO_TIMEOUT_MS,
            },
            TunnelPhase::Abort => ActionView::StopEcho,
            TunnelPhase::Stop => ActionView::StopEcho,
            TunnelPhase::Over => ActionView::Rest,
        }
    }

    /// The scenario with a verdict that is given at once, while the echo server
    /// is still to be stopped.
    pub open spec fn aborted(self, verdict: VerdictView) -> Self {
        TunnelView { phase: TunnelPhase::Abort, found: Some(verdict), ..self }
    }

    /// The scenario with a verdict that is given once the echo server has been
    /// stopped.
    pub open spec fn settled(self, verdict: VerdictView) -> Self {
        TunnelView { phase: TunnelPhase::Stop, found: Some(verdict), ..self }
    }

    /// The scenario with the outcome of the drive.
    pub open spec fn driven(self, result: Result<Seq<u8>, Seq<char>>) -> Self {
        self.settled(
            drive_verdict(self.caps is Some, self.local_port, self.remote_port, result),
        )
    }

    /// The scenario after an event.
    pub open spec fn next(self, event: EventView) -> Self {
        match (self.phase, event) {
            (TunnelPhase::Bind, EventView::Ack(Ok(()))) => TunnelView {
                phase: TunnelPhase::EchoPort,
                ..self
            },
            (TunnelPhase::Bind, EventView::Ack(Err(e))) => TunnelView {
                phase: TunnelPhase::Over,
                found: Some(blocked("could not bind local echo server: "@ + e)),
                ..self
            },
            (TunnelPhase::EchoPort, EventView::Port(Ok(port))) => TunnelView {
                phase: TunnelPhase::Serve,
                remote_port: port,
                ..self
            },
            (TunnelPhase::EchoPort, EventView::Port(Err(e))) => TunnelView {
                phase: TunnelPhase::Over,
                found: Some(blocked("local_addr failed: "@ + e)),
                ..self
            },
            (TunnelPhase::Serve, EventView::Done) => TunnelView {
                phase: TunnelPhase::FreePort,
                ..self
            },
            (TunnelPhase::FreePort, EventView::Port(Ok(port))) => TunnelView {
                phase: TunnelPhase::Caps,
                local_port: port,
                ..self
            },
            (TunnelPhase::FreePort, EventView::Port(Err(e))) => self.aborted(
                blocked("could not pick a free local port: "@ + e),
            ),
            (TunnelPhase::Caps, EventView::Caps(caps)) => TunnelView {
                phase: TunnelPhase::Post,
                caps: usable_caps(caps),
                ..self
            },
            (TunnelPhase::Post, EventView::Posted(Ok(code))) => if 200 <= code < 300 {
                TunnelView { phase: TunnelPhase::Mark, ..self }
            } else if 100 <= code < 1000 {
                TunnelView { phase: TunnelPhase::Body(code), ..self }
            } else {
                self
            },
            (TunnelPhase::Post, EventView::Posted(Err(e))) => self.aborted(
                blocked("POST /tunnel transport error: "@ + e),
            ),
            (TunnelPhase::Body(code), EventView::Body(body)) => self.aborted(
                blocked(refused_text(shown_status(code), body_or_empty(body))),
            ),
            (TunnelPhase::Mark, EventView::Done) => TunnelView {
                phase: TunnelPhase::Connect,
                ..self
            },
            (TunnelPhase::Connect, EventView::Ack(Ok(()))) => TunnelView {
                phase: TunnelPhase::Write,
                ..self
            },
            (TunnelPhase::Connect, EventView::Ack(Err(e))) => TunnelView {
                phase: TunnelPhase::Check,
                last: e,
                ..self
            },
            (TunnelPhase::Check, EventView::Elapsed(ns)) => if ns > CONNECT_LIMIT_NS {
                self.driven(Err("could not connect to tunnel ingress: "@ + self.last))
            } else {
                TunnelView { phase: TunnelPhase::Pause, ..self }
            },
            (TunnelPhase::Pause, EventView::Done) => TunnelView {
                phase: TunnelPhase::Connect,
                ..self
            },
            (TunnelPhase::Write, EventView::Ack(Ok(()))) => TunnelView {
                phase: TunnelPhase::Read,
                ..self
            },
            (TunnelPhase::Write, EventView::Ack(Err(e))) => self.driven(Err(e)),
            (TunnelPhase::Read, EventView::Bytes(Ok(bytes))) => self.driven(echo_check(bytes)),
            (TunnelPhase::Read, EventView::Bytes(Err(e))) => self.driven(Err(e)),
            (TunnelPhase::Read, EventView::TimedOut(cause)) => self.driven(
                Err(timed_out_text(cause)),
            ),
            (TunnelPhase::Abort, EventView::Done) => TunnelView {
                phase: TunnelPhase::Over,
                ..self
            },
            (TunnelPhase::Stop, EventView::Done) => TunnelView {
                phase: TunnelPhase::Over,
                ..self
            },
            _ => self,
        }
    }

    /// The scenario after a row of events.
    pub open spec fn run(self, events: Seq<EventView>) -> Self
        decreases events.len(),
    {
        if events.len() == 0 {
            self
        } else {
            self.run(events.drop_last()).next(events.last())
        }
    }
}

impl Tunnel {
    /// The body of an answer is waited for only behind an HTTP status.
    #[verifier::type_invariant]
    spec fn status_is_valid(self) -> bool {
        self.phase matches TunnelPhase::Body(code) ==> 100 <= code < 1000
    }

    /// The scenario, with the tunnel opened at the node that answers at `base`
    /// to who bears `token`, and led to the node `b_id`.
    pub fn new(base: &str, token: &str, b_id: &str) -> (r: Self)
        ensures
            r@ == TunnelView::start(base@, token@, b_id@),
    {
        Tunnel {
            base: base.to_owned(),
            token: token.to_owned(),
            b_id: b_id.to_owned(),
            remote_port: 0,
            local_port: 0,
            caps: None,
            last: "(no attempt)".to_owned(),
            phase: TunnelPhase::Bind,
            found: None,
        }
    }

    /// What is to be done next.
    pub fn pending(&self) -> (r: Action)
        ensures
            r@ == self@.pending(),
    {
        match self.phase {
            TunnelPhase::Bind => Action::BindEcho,
            TunnelPhase::EchoPort => Action::EchoPort,
            TunnelPhase::Serve => Action::ServeEcho,
            TunnelPhase::FreePort => Action::FreePort,
            TunnelPhase::Caps => Action::ReadCaps,
            TunnelPhase::Post => {
                let caps = match &self.caps {
                    Some(c) => Some(c.clone()),
                    None => None,
                };
                Action::PostTunnel(
                    TunnelPost {
                        url: trim_end_slashes(self.base.as_str()).concat("/tunnel"),
                        token: self.token.clone(),
                        node_id: self.b_id.clone(),
                        local_port: self.local_port,
                        remote_port: self.remote_port,
                        caps,
                    },
                )
            },
            TunnelPhase::Body(_) => Action::ReadBody,
            TunnelPhase::Mark => Action::MarkClock,
            TunnelPhase::Connect => Action::ConnectIngress { port: self.local_port },
            TunnelPhase::Check => Action::ReadClock,
            TunnelPhase::Pause => Action::Sleep { ms: CONNECT_PAUSE_MS },
            TunnelPhase::Write => Action::WriteIngress { bytes: "ping-tunnel".as_bytes_vec() },
            TunnelPhase::Read => Action::ReadIngress {
                limit: READ_LIMIT,
                timeout_ms: ECHO_TIMEOUT_MS,
            },
            TunnelPhase::Abort => Action::StopEcho,
            TunnelPhase::Stop => Action::StopEcho,
            TunnelPhase::Over => Action::Rest,
        }
    }

    fn abort(&mut self, verdict: Verdict)
        ensures
            final(self)@ == old(self)@.aborted(verdict@),
    {
        self.phase = TunnelPhase::Abort;
        self.found = Some(verdict);
    }

    fn settle(&mut self, verdict: Verdict)
        ensures
            final(self)@ == old(self)@.settled(verdict@),
    {
        self.phase = TunnelPhase::Stop;
        self.found = Some(verdict);
    }

    fn drive(&mut self, result: Result<Vec<u8>, String>)
        ensures
            final(self)@ == old(self)@.driven(result_view(result)),
    {
        let verdict = judge_drive(
            self.caps.is_some(),
            self.local_port,
            self.remote_port,
            result,
        );
        self.settle(verdict);
    }

    /// Takes in what came of the pending action. An event that does not
    /// answer it changes nothing.
    pub fn step(&mut self, event: Event)
        ensures
            final(self)@ == old(self)@.next(event@),
    {
        proof {
            use_type_invariant(&*self);
        }
        match (self.phase, event) {
            (TunnelPhase::Bind, Event::Ack(Ok(()))) => {
                self.phase = TunnelPhase::EchoPort;
            },
            (TunnelPhase::Bind, Event::Ack(Err(e))) => {
                self.phase = TunnelPhase::Over;
                self.found = Some(
                    block("could not bind local echo server: ".to_owned().concat(e.as_str())),
                );
            },
            (TunnelPhase::EchoPort, Event::Port(Ok(port))) => {
                self.phase = TunnelPhase::Serve;
                self.remote_port = port;
            },
            (TunnelPhase::EchoPort, Event::Port(Err(e))) => {
                self.phase = TunnelPhase::Over;
                self.found = Some(block("local_addr failed: ".to_owned().concat(e.as_str())));
            },
            (TunnelPhase::Serve, Event::Done) => {
                self.phase = TunnelPhase::FreePort;
            },
            (TunnelPhase::FreePort, Event::Port(Ok(port))) => {
                self.phase = TunnelPhase::Caps;
                self.local_port = port;
            },
            (TunnelPhase::FreePort, Event::Port(Err(e))) => {
                self.abort(
                    block("could not pick a free local port: ".to_owned().concat(e.as_str())),
                );
            },
            (TunnelPhase::Caps, Event::Caps(caps)) => {
                self.phase = TunnelPhase::Post;
                self.caps = filter_caps(caps);
            },
            (TunnelPhase::Post, Event::Posted(Ok(code))) => {
                if code >= 100 && code < 1000 {
                    self.phase = if status_is_success(code) {
                        TunnelPhase::Mark
                    } else {
                        TunnelPhase::Body(code)
                    };
                }
            },
            (TunnelPhase::Post, Event::Posted(Err(e))) => {
                self.abort(
                    block("POST /tunnel transport error: ".to_owned().concat(e.as_str())),
                );
            },
            (TunnelPhase::Body(code), Event::Body(body)) => {
                let text = match body {
                    Some(s) => s,
                    None => String::new(),
                };
                let status = status_text(code);
                self.abort(block(refused_detail(status.as_str(), text.as_str())));
            },
            (TunnelPhase::Mark, Event::Done) => {
                self.phase = TunnelPhase::Connect;
            },
            (TunnelPhase::Connect, Event::Ack(Ok(()))) => {
                self.phase = TunnelPhase::Write;
            },
            (TunnelPhase::Connect, Event::Ack(Err(e))) => {
                self.phase = TunnelPhase::Check;
                self.last = e;
            },
            (TunnelPhase::Check, Event::Elapsed(ns)) => {
                if ns > CONNECT_LIMIT_NS {
                    let e = "could not connect to tunnel ingress: ".to_owned().concat(
                        self.last.as_str(),
                    );
                    self.drive(Err(e));
                } else {
                    self.phase = TunnelPhase::Pause;
                }
            },
            (TunnelPhase::Pause, Event::Done) => {
                self.phase = TunnelPhase::Connect;
            },
            (TunnelPhase::Write, Event::Ack(Ok(()))) => {
                self.phase = TunnelPhase::Read;
            },
            (TunnelPhase::Write, Event::Ack(Err(e))) => {
                self.drive(Err(e));
            },
            (TunnelPhase::Read, Event::Bytes(Ok(bytes))) => {
                self.drive(check_echo(bytes));
            },
            (TunnelPhase::Read, Event::Bytes(Err(e))) => {
                self.drive(Err(e));
            },
            (TunnelPhase::Read, Event::TimedOut(cause)) => {
                self.drive(Err(timed_out_detail(cause.as_str())));
            },
            (TunnelPhase::Abort, Event::Done) => {
                self.phase = TunnelPhase::Over;
            },
            (TunnelPhase::Stop, Event::Done) => {
                self.phase = TunnelPhase::Over;
            },
            _ => {},
        }
    }

    /// The verdict, once it is given.
    pub fn verdict(&self) -> (r: Option<Verdict>)
        ensures
            verdict_view(r) == self@.verdict(),
    {
        match self.phase {
            TunnelPhase::Abort => copy_verdict(&self.found),
            TunnelPhase::Over => copy_verdict(&self.found),
            _ => None,
        }
    }

    /// Whether nothing is left to be done.
    pub fn is_done(&self) -> (r: bool)
        ensures
            r == (self@.phase is Over),
    {
        self.phase == TunnelPhase::Over
    }
}

/// An event that does not answer what the scenario asks for changes nothing; one
/// that does moves it on.
pub proof fn tunnel_heeds_answers_only(s: TunnelView, event: EventView)
    ensures
        !answers(s.pending(), event) ==> s.next(event) == s,
        answers(s.pending(), event) ==> s.next(event).phase != s.phase,
{
}

impl TunnelView {
    /// Whether an event brings the expected echo.
    pub open spec fn echoes(self, event: EventView) -> bool {
        self.pending() is ReadIngress && event == EventView::Bytes(Ok(probe_echo()))
    }

    /// Whether an event tells that bytes did not make it through the tunnel.
    pub open spec fn loses(self, event: EventView) -> bool {
        ||| self.pending() is ReadClock && (event matches EventView::Elapsed(ns) && ns
            > CONNECT_LIMIT_NS)
        ||| self.pending() is WriteIngress && event matches EventView::Ack(Err(_))
        ||| self.pending() is ReadIngress && event matches EventView::Bytes(Err(_))
        ||| self.pending() is ReadIngress && event is TimedOut
        ||| self.pending() is ReadIngress && (event matches EventView::Bytes(Ok(bytes)) && bytes
            != probe_echo())
    }

    /// Whether an event gives a capability token that counts.
    pub open spec fn enables(self, event: EventView) -> bool {
        self.pending() is ReadCaps && (event matches EventView::Caps(caps) && usable_caps(
            caps,
        ) is Some)
    }

    /// Whether the expected echo came in a row of events.
    pub open spec fn ever_echoed(self, events: Seq<EventView>) -> bool
        decreases events.len(),
    {
        events.len() > 0 && (self.ever_echoed(events.drop_last()) || self.run(
            events.drop_last(),
        ).echoes(events.last()))
    }

    /// Whether bytes were lost in the tunnel in a row of events.
    pub open spec fn ever_lost(self, events: Seq<EventView>) -> bool
        decreases events.len(),
    {
        events.len() > 0 && (self.ever_lost(events.drop_last()) || self.run(
            events.drop_last(),
        ).loses(events.last()))
    }

    /// Whether a capability token that counts was given in a row of events.
    pub open spec fn ever_enabled(self, events: Seq<EventView>) -> bool
        decreases events.len(),
    {
        events.len() > 0 && (self.ever_enabled(events.drop_last()) || self.run(
            events.drop_last(),
        ).enables(events.last()))
    }

    /// How many answers to the request for the tunnel came in a row of events.
    pub open spec fn posts(self, events: Seq<EventView>) -> nat
        decreases events.len(),
    {
        if events.len() == 0 {
            0
        } else {
            let before = self.run(events.drop_last());
            let more: nat = if before.pending() is PostTunnel && answers(
                before.pending(),
                events.last(),
            ) {
                1
            } else {
                0
            };
            self.posts(events.drop_last()) + more
        }
    }

    /// Whether the echo server runs after a row of events.
    pub open spec fn is_serving(self, events: Seq<EventView>) -> bool
        decreases events.len(),
    {
        events.len() > 0 && {
            let before = self.run(events.drop_last());
            if before.pending() is ServeEcho && events.last() is Done {
                true
            } else if before.pending() is StopEcho && events.last() is Done {
                false
            } else {
                self.is_serving(events.drop_last())
            }
        }
    }
}

pub(crate) proof fn lemma_probe_echo_is_something()
    ensures
        probe_echo().len() > 0,
{
    reveal_strlit("pong:ping-tunnel");
    is_ascii_chars_encode_utf8("pong:ping-tunnel"@);
}

proof fn lemma_tunnel_run(
    base: Seq<char>,
    token: Seq<char>,
    b_id: Seq<char>,
    events: Seq<EventView>,
)
    ensures
        ({
            let start = TunnelView::start(base, token, b_id);
            let s = start.run(events);
            &&& s.base == base && s.token == token && s.b_id == b_id
            &&& s.found matches Some(v) ==> (v.outcome == Outcome::Pass ==> v == passed(
                flowed_text(s.local_port, s.remote_port, quoted("pong:ping-tunnel"@)),
            ))
            &&& start.posts(events) <= 1
            &&& (s.phase is Bind || s.phase is EchoPort || s.phase is Serve || s.phase is FreePort
                || s.phase is Caps || s.phase is Post) ==> start.posts(events) == 0
            &&& s.found is Some <==> (s.phase is Abort || s.phase is Stop || s.phase is Over)
            &&& start.ever_echoed(events) <==> (s.found matches Some(v) && v.outcome
                == Outcome::Pass)
            &&& (start.ever_lost(events) && start.ever_enabled(events)) <==> (
            s.found matches Some(v) && v.outcome == Outcome::Fail)
            &&& start.ever_lost(events) ==> s.found is Some && !start.ever_echoed(events)
            &&& start.ever_enabled(events) <==> s.caps is Some
            &&& (s.phase is Bind || s.phase is EchoPort || s.phase is Serve || s.phase is FreePort
                || s.phase is Caps) ==> s.caps is None
            &&& start.is_serving(events) <==> !(s.phase is Bind || s.phase is EchoPort
                || s.phase is Serve || s.phase is Over)
        }),
    decreases events.len(),
{
    lemma_probe_echo_is_something();
    encoded_text_is_readable("pong:ping-tunnel"@);
    if events.len() > 0 {
        lemma_tunnel_run(base, token, b_id, events.drop_last());
    }
}

/// The scenario has passed exactly if the expected echo came back through the
/// tunnel. It has failed exactly if a capability was given and the bytes were
/// lost all the same. Everything else is blocked. It never rests without a
/// verdict.
pub proof fn tunnel_outcomes(
    base: Seq<char>,
    token: Seq<char>,
    b_id: Seq<char>,
    events: Seq<EventView>,
)
    ensures
        ({
            let start = TunnelView::start(base, token, b_id);
            let s = start.run(events);
            &&& s.pending() is Rest ==> s.verdict() is Some
            &&& s.verdict() is Some ==> s.pending() is Rest || s.pending() is StopEcho
            &&& s.verdict() matches Some(v) ==> (v.outcome == Outcome::Pass
                <==> start.ever_echoed(events)) && (v.outcome == Outcome::Fail <==> (
            start.ever_lost(events) && start.ever_enabled(events)))
        }),
{
    lemma_tunnel_run(base, token, b_id, events);
}

/// Where the tunnel never opened, the verdict is given before the echo server
/// is stopped; where bytes were driven through it, only after. Stopping the
/// server changes no verdict.
pub proof fn tunnel_verdict_and_stop(s: TunnelView, event: EventView)
    requires
        s.next(event).pending() is StopEcho,
        !(s.pending() is StopEcho),
    ensures
        s.next(event).verdict() is Some <==> s.pending() is FreePort || s.pending() is PostTunnel
            || s.pending() is ReadBody,
        s.next(event).next(EventView::Done).verdict() is Some,
        s.next(event).next(EventView::Done).pending() is Rest,
        s.next(event).verdict() matches Some(v) ==> v.outcome == Outcome::Blocked && s.next(
            event,
        ).next(EventView::Done).verdict() == Some(v),
{
}

/// Without a capability token, or with a blank one, the scenario never fails:
/// B is right to refuse the bytes.
pub proof fn tunnel_without_capability_never_fails(
    base: Seq<char>,
    token: Seq<char>,
    b_id: Seq<char>,
    events: Seq<EventView>,
)
    requires
        !TunnelView::start(base, token, b_id).ever_enabled(events),
    ensures
        TunnelView::start(base, token, b_id).run(events).verdict() matches Some(v) ==> v.outcome
            != Outcome::Fail,
{
    lemma_tunnel_run(base, token, b_id, events);
}

/// An echo server that was started has been stopped by the time nothing is left
/// to be done, whichever way it went.
pub proof fn tunnel_leaves_no_server_behind(
    base: Seq<char>,
    token: Seq<char>,
    b_id: Seq<char>,
    events: Seq<EventView>,
)
    ensures
        ({
            let start = TunnelView::start(base, token, b_id);
            start.run(events).pending() is Rest ==> !start.is_serving(events)
        }),
{
    lemma_tunnel_run(base, token, b_id, events);
}

/// What the echo server sends back for the probe is what the scenario accepts.
pub proof fn echo_server_satisfies_the_scenario()
    ensures
        echo_of(probe()) == Some(probe_echo()),
        echo_check(probe_echo()) == Ok::<Seq<u8>, Seq<char>>(probe_echo()),
{
    reveal_strlit("pong:");
    reveal_strlit("ping-tunnel");
    reveal_strlit("pong:ping-tunnel");
    assert("pong:ping-tunnel"@ =~= "pong:"@ + "ping-tunnel"@);
    is_ascii_chars_encode_utf8("pong:"@);
    is_ascii_chars_encode_utf8("ping-tunnel"@);
    is_ascii_chars_encode_utf8("pong:ping-tunnel"@);
    assert(pong_prefix() + probe() =~= probe_echo());
}

/// The request for a tunnel holds what was asked for under each key, a
/// capability token only if one was given, and nothing else.
pub proof fn tunnel_request_holds_its_fields(post: TunnelPostView)
    ensures
        ({
            let m = request_fields(post);
            &&& m["node_id"@] == Field::Text(post.node_id)
            &&& m["local_port"@] == Field::Number(post.local_port as nat)
            &&& m["remote_port"@] == Field::Number(post.remote_port as nat)
            &&& post.caps is Some ==> m.dom()
                =~= set!["node_id"@, "local_port"@, "remote_port"@, "caps"@]
            &&& post.caps is None ==> m.dom() =~= set!["node_id"@, "local_port"@, "remote_port"@]
            &&& post.caps matches Some(c) ==> m["caps"@] == Field::Text(c)
        }),
{
    reveal_strlit("node_id");
    reveal_strlit("local_port");
    reveal_strlit("remote_port");
    reveal_strlit("caps");
    assert("node_id"@.len() != "local_port"@.len());
    assert("node_id"@.len() != "remote_port"@.len());
    assert("local_port"@.len() != "remote_port"@.len());
    assert("caps"@.len() != "node_id"@.len());
    assert("caps"@.len() != "local_port"@.len());
    assert("caps"@.len() != "remote_port"@.len());
}

/// The address that a tunnel is asked for at does not depend on how many
/// slashes the base URL ends in.
pub proof fn tunnel_url_ignores_end_slashes(base: Seq<char>, n: nat)
    ensures
        tunnel_url(base + Seq::new(n, |i: int| '/')) == tunnel_url(base),
{
    end_slashes_make_no_difference(base, n);
}

/// The capability token that was given is handed on in the request for the
/// tunnel, which bears the token of A and leads to B, from the local port that was picked to the port of
/// the echo server.
pub proof fn tunnel_hands_the_capability_on(s: TunnelView, caps: Option<Seq<char>>)
    requires
        s.pending() is ReadCaps,
    ensures
        s.next(EventView::Caps(caps)).pending() matches ActionView::PostTunnel(post) && post.caps
            == usable_caps(caps) && post.node_id == s.b_id && post.url == tunnel_url(s.base)
            && post.token == s.token && post.local_port == s.local_port && post.remote_port == s.remote_port,
{
}

/// After an attempt to connect that failed, another follows exactly if the
/// clock shows no more than the limit; else the trouble of that attempt is what
/// the drive came to.
pub proof fn tunnel_connects_within_limit(s: TunnelView, e: Seq<char>, ns: u128)
    requires
        s.pending() is ConnectIngress,
    ensures
        ({
            let timed = s.next(EventView::Ack(Err(e))).next(EventView::Elapsed(ns));
            &&& ns <= CONNECT_LIMIT_NS ==> timed.next(EventView::Done).pending() == s.pending()
            &&& ns > CONNECT_LIMIT_NS ==> timed.next(EventView::Done).verdict() == Some(
                drive_verdict(
                    s.caps is Some,
                    s.local_port,
                    s.remote_port,
                    Err("could not connect to tunnel ingress: "@ + e),
                ),
            )
        }),
{
}

/// The tunnel is asked for at most once, whatever comes of it: at the node that
/// the scenario was set up with, with its token, and with B as the other end.
pub proof fn tunnel_is_asked_for_once(
    base: Seq<char>,
    token: Seq<char>,
    b_id: Seq<char>,
    events: Seq<EventView>,
)
    ensures
        ({
            let start = TunnelView::start(base, token, b_id);
            &&& start.posts(events) <= 1
            &&& start.run(events).pending() matches ActionView::PostTunnel(post) ==> post.url
                == tunnel_url(base) && post.token == token && post.node_id == b_id
                && start.posts(events) == 0
        }),
{
    lemma_tunnel_run(base, token, b_id, events);
}

/// A scenario that passed shows the echo and the ports that it went between.
pub proof fn tunnel_pass_shows_the_echo(
    base: Seq<char>,
    token: Seq<char>,
    b_id: Seq<char>,
    events: Seq<EventView>,
)
    ensures
        ({
            let s = TunnelView::start(base, token, b_id).run(events);
            s.verdict() matches Some(v) ==> (v.outcome == Outcome::Pass ==> v.detail == flowed_text(
                s.local_port,
                s.remote_port,
                quoted("pong:ping-tunnel"@),
            ))
        }),
{
    lemma_tunnel_run(base, token, b_id, events);
}

/// An answer through the tunnel that is some other text than the echo shows that
/// text, quoted.
pub proof fn echo_mismatch_shows_the_answer(text: Seq<char>)
    requires
        text.len() > 0,
        encode_utf8(text) != probe_echo(),
    ensures
        echo_check(encode_utf8(text)) == Err::<Seq<u8>, Seq<char>>(
            echo_mismatch_text(quoted(text)),
        ),
{
    encoded_text_is_readable(text);
    encode_utf8_decode_utf8(text);
}

/// Whether `stem` is what is left of `base` once the slashes that it ends in are
/// taken away.
pub open spec fn bare_of_slashes(base: Seq<char>, stem: Seq<char>) -> bool {
    &&& stem.len() <= base.len()
    &&& forall|i: int| 0 <= i < stem.len() ==> #[trigger] stem[i] == base[i]
    &&& forall|i: int| stem.len() <= i < base.len() ==> #[trigger] base[i] == '/'
    &&& stem.len() > 0 ==> stem.last() != '/'
}

/// Whether a capability token was given: one with a character in it that is not
/// white space.
pub open spec fn is_token(caps: Option<Seq<char>>) -> bool {
    caps matches Some(t) && exists|i: int| 0 <= i < t.len() && !white_space(#[trigger] t[i])
}

impl TunnelView {
    /// The port of the echo server that was told in a row of events.
    pub open spec fn told_echo_port(self, events: Seq<EventView>) -> Option<u16>
        decreases events.len(),
    {
        if events.len() == 0 {
            None
        } else if self.run(events.drop_last()).pending() is EchoPort && (
        events.last() matches EventView::Port(Ok(_))) {
            Some(events.last()->Port_0->Ok_0)
        } else {
            self.told_echo_port(events.drop_last())
        }
    }

    /// The free port that was told in a row of events.
    pub open spec fn told_free_port(self, events: Seq<EventView>) -> Option<u16>
        decreases events.len(),
    {
        if events.len() == 0 {
            None
        } else if self.run(events.drop_last()).pending() is FreePort && (
        events.last() matches EventView::Port(Ok(_))) {
            Some(events.last()->Port_0->Ok_0)
        } else {
            self.told_free_port(events.drop_last())
        }
    }

    /// The capability token that was told in a row of events, or that there is
    /// none.
    pub open spec fn told_caps(self, events: Seq<EventView>) -> Option<Option<Seq<char>>>
        decreases events.len(),
    {
        if events.len() == 0 {
            None
        } else if self.run(events.drop_last()).pending() is ReadCaps && events.last() is Caps {
            Some(events.last()->Caps_0)
        } else {
            self.told_caps(events.drop_last())
        }
    }

    /// The status that the request for the tunnel was answered with in a row of
    /// events.
    pub open spec fn told_status(self, events: Seq<EventView>) -> Option<u16>
        decreases events.len(),
    {
        if events.len() == 0 {
            None
        } else if self.run(events.drop_last()).pending() is PostTunnel && (
        events.last() matches EventView::Posted(Ok(_))) {
            Some(events.last()->Posted_0->Ok_0)
        } else {
            self.told_status(events.drop_last())
        }
    }

    /// The trouble of the latest attempt to connect that failed in a row of
    /// events.
    pub open spec fn connect_trouble(self, events: Seq<EventView>) -> Option<Seq<char>>
        decreases events.len(),
    {
        if events.len() == 0 {
            None
        } else if self.run(events.drop_last()).pending() is ConnectIngress && (
        events.last() matches EventView::Ack(Err(_))) {
            Some(events.last()->Ack_0->Err_0)
        } else {
            self.connect_trouble(events.drop_last())
        }
    }

    /// Whether a capability token was given in a row of events.
    pub open spec fn was_given_token(self, events: Seq<EventView>) -> bool {
        self.told_caps(events) matches Some(caps) && is_token(caps)
    }

    /// Whether a drive came to nothing for the reason `e`: the echo server is
    /// stopped first, and then the verdict is a failure where a capability token
    /// was given, and blocked where none was.
    pub open spec fn came_to_nothing(self, given: bool, e: Seq<char>) -> bool {
        &&& self.pending() is StopEcho
        &&& self.verdict() is None
        &&& self.next(EventView::Done).verdict() matches Some(v) && (if given {
            v.outcome == Outcome::Fail && v.detail
                == "tunnel opened with a valid capability but byte round-trip failed: "@ + e
        } else {
            v.outcome == Outcome::Blocked && v.detail
                == "no tunnel capability provided (set CE_IT_TUNNEL_CAPS); B correctly gated the stream: "@
                + e
        })
    }

    /// Whether the verdict is blocked for the reason `reason`.
    pub open spec fn is_blocked_by(self, reason: Seq<char>) -> bool {
        self.verdict() matches Some(v) && v.outcome == Outcome::Blocked && v.detail == reason
    }
}

proof fn lemma_tunnel_history(
    base: Seq<char>,
    token: Seq<char>,
    b_id: Seq<char>,
    events: Seq<EventView>,
)
    ensures
        ({
            let start = TunnelView::start(base, token, b_id);
            let s = start.run(events);
            let early = s.phase is Bind || s.phase is EchoPort;
            let unposted = early || s.phase is Serve || s.phase is FreePort;
            let ended = s.phase is Over || s.phase is Abort;
            &&& s.base == base && s.token == token && s.b_id == b_id
            &&& !early && !ended ==> start.told_echo_port(events) == Some(s.remote_port)
            &&& !unposted && !ended ==> start.told_free_port(events) == Some(s.local_port)
            &&& !unposted && !(s.phase is Caps) && !ended ==> (start.told_caps(
                events,
            ) matches Some(caps) && s.caps == if is_token(caps) {
                caps
            } else {
                None
            })
            &&& s.phase matches TunnelPhase::Body(code) ==> start.told_status(events) == Some(code)
            &&& s.phase is Check ==> start.connect_trouble(events) == Some(s.last)
        }),
    decreases events.len(),
{
    if events.len() > 0 {
        lemma_tunnel_history(base, token, b_id, events.drop_last());
        if let EventView::Caps(caps) = events.last() {
            if let Some(t) = caps {
                token_is_kept_whole(t);
            }
        }
    }
}

/// A capability token with a character in it that is not white space is kept as
/// it is, character for character, however long; all others count as none.
pub proof fn token_is_kept_whole(t: Seq<char>)
    ensures
        is_token(Some(t)) ==> usable_caps(Some(t)) == Some(t),
        !is_token(Some(t)) ==> usable_caps(Some(t)) is None,
        usable_caps(None) is None,
{
    if is_token(Some(t)) {
        let i = choose|i: int| 0 <= i < t.len() && !white_space(#[trigger] t[i]);
        assert(!is_blank_text(t));
    }
}

/// Whatever came before, the request for the tunnel goes to the base URL bare of
/// its end slashes and `/tunnel` behind it, bears the token of the node, names the
/// other node, goes from the free port to the port of the echo server, and hands
/// on the capability token that was told, character for character, or none where
/// none was told or it is all white space. What is driven through the tunnel goes
/// in at the same free port.
pub proof fn request_asks_for_what_was_told(
    base: Seq<char>,
    token: Seq<char>,
    b_id: Seq<char>,
    events: Seq<EventView>,
)
    ensures
        ({
            let start = TunnelView::start(base, token, b_id);
            match start.run(events).pending() {
                ActionView::PostTunnel(post) => {
                    &&& exists|stem: Seq<char>| #[trigger]
                        bare_of_slashes(base, stem) && post.url == stem + "/tunnel"@
                    &&& post.token == token
                    &&& post.node_id == b_id
                    &&& start.told_free_port(events) == Some(post.local_port)
                    &&& start.told_echo_port(events) == Some(post.remote_port)
                    &&& start.told_caps(events) matches Some(caps) && post.caps == if is_token(
                        caps,
                    ) {
                        caps
                    } else {
                        None
                    }
                },
                ActionView::ConnectIngress { port } => start.told_free_port(events) == Some(port),
                ActionView::WriteIngress { bytes } => bytes == encode_utf8("ping-tunnel"@),
                ActionView::ReadIngress { limit, timeout_ms } => limit == 1024 && timeout_ms
                    == 8_000,
                ActionView::Sleep { ms } => ms == 200,
                _ => true,
            }
        }),
{
    lemma_tunnel_history(base, token, b_id, events);
    only_slashes_are_cut(base);
    assert(bare_of_slashes(base, without_end_slashes(base)));
}

/// Whatever came before, the answer to the request decides: a status from 200 to
/// 299 has the tunnel driven, any other has the body read, and the scenario is
/// then blocked by the status and the body. A request that gets no answer blocks
/// the scenario too.
pub proof fn answer_decides_the_tunnel(
    base: Seq<char>,
    token: Seq<char>,
    b_id: Seq<char>,
    events: Seq<EventView>,
    code: u16,
    text: Seq<char>,
)
    ensures
        ({
            let start = TunnelView::start(base, token, b_id);
            let s = start.run(events);
            let answered = s.next(EventView::Posted(Ok(code)));
            let unanswered = s.next(EventView::Posted(Err(text)));
            &&& s.pending() is PostTunnel && 200 <= code <= 299 ==> answered.pending() is MarkClock
            &&& s.pending() is PostTunnel && (100 <= code <= 199 || 300 <= code <= 999)
                ==> answered.pending() is ReadBody
            &&& s.pending() is PostTunnel ==> unanswered.pending() is StopEcho
                && unanswered.is_blocked_by("POST /tunnel transport error: "@ + text)
            &&& s.pending() is ReadBody ==> (start.told_status(events) matches Some(status)
                && s.next(EventView::Body(Some(text))).pending() is StopEcho && s.next(
                EventView::Body(Some(text)),
            ).is_blocked_by(
                "POST /tunnel returned "@ + (decimal(status as nat) + seq![' '] + reason_phrase(
                    status,
                )) + ": "@ + text,
            ) && s.next(EventView::Body(None)).is_blocked_by(
                "POST /tunnel returned "@ + (decimal(status as nat) + seq![' '] + reason_phrase(
                    status,
                )) + ": "@,
            ))
        }),
{
    lemma_tunnel_history(base, token, b_id, events);
    let start = TunnelView::start(base, token, b_id);
    if let TunnelPhase::Body(status) = start.run(events).phase {
        let head = "POST /tunnel returned "@ + (decimal(status as nat) + seq![' ']
            + reason_phrase(status)) + ": "@;
        assert(head + Seq::<char>::empty() =~= head);
    }
}

/// Whatever came before, the clock ends the attempts to connect exactly if it
/// shows more than eight seconds: the drive has then come to nothing, and the
/// trouble of the latest attempt is told. Else there is a pause.
pub proof fn clock_decides_the_connect(
    base: Seq<char>,
    token: Seq<char>,
    b_id: Seq<char>,
    events: Seq<EventView>,
    ns: u128,
)
    requires
        TunnelView::start(base, token, b_id).run(events).pending() is ReadClock,
    ensures
        ({
            let start = TunnelView::start(base, token, b_id);
            let after = start.run(events).next(EventView::Elapsed(ns));
            if ns > 8_000_000_000 {
                start.connect_trouble(events) matches Some(e) && after.came_to_nothing(
                    start.was_given_token(events),
                    "could not connect to tunnel ingress: "@ + e,
                )
            } else {
                after.pending() is Sleep
            }
        }),
{
    lemma_tunnel_history(base, token, b_id, events);
}

/// Whatever came before, what is read decides: the drive went through exactly if
/// it is `pong:` and what was written, and the verdict tells both ports and shows
/// it. No bytes, other bytes, an error or the end of the time have the drive come
/// to nothing, as has a write that fails.
pub proof fn echo_decides_the_tunnel(
    base: Seq<char>,
    token: Seq<char>,
    b_id: Seq<char>,
    events: Seq<EventView>,
    bytes: Seq<u8>,
    e: Seq<char>,
)
    ensures
        ({
            let start = TunnelView::start(base, token, b_id);
            let s = start.run(events);
            let given = start.was_given_token(events);
            let after = s.next(EventView::Bytes(Ok(bytes)));
            &&& s.pending() is WriteIngress ==> s.next(EventView::Ack(Err(e))).came_to_nothing(
                given,
                e,
            )
            &&& s.pending() is ReadIngress ==> s.next(EventView::Bytes(Err(e))).came_to_nothing(
                given,
                e,
            )
            &&& s.pending() is ReadIngress ==> s.next(EventView::TimedOut(e)).came_to_nothing(
                given,
                "read from tunnel timed out: "@ + e,
            )
            &&& s.pending() is ReadIngress && bytes.len() == 0 ==> after.came_to_nothing(
                given,
                "tunnel returned EOF with no data"@,
            )
            &&& s.pending() is ReadIngress && bytes.len() > 0 && bytes != encode_utf8(
                "pong:ping-tunnel"@,
            ) ==> after.came_to_nothing(
                given,
                "tunnel echo mismatch: got "@ + quoted(readable(bytes)),
            )
            &&& s.pending() is ReadIngress && bytes == encode_utf8("pong:ping-tunnel"@)
                ==> after.pending() is StopEcho && after.verdict() is None && (after.next(
                EventView::Done,
            ).verdict() matches Some(v) && v.outcome == Outcome::Pass && (start.told_free_port(
                events,
            ) matches Some(local) && (start.told_echo_port(events) matches Some(remote) && v.detail
                == "bytes flowed A:"@ + decimal(local as nat) + " -> B:"@ + decimal(remote as nat)
                + "; got back "@ + quoted("pong:ping-tunnel"@))))
        }),
{
    lemma_tunnel_history(base, token, b_id, events);
    lemma_probe_echo_is_something();
    encoded_text_is_readable("pong:ping-tunnel"@);
}

/// The echo server is bound, its port told, and it is started; then a free port
/// is picked, the capability token told and the tunnel asked for. Trouble before
/// that blocks the scenario, and the server is stopped where it was started. The
/// local end is connected to, with pauses, then written to and read.
pub proof fn tunnel_goes_its_way(
    base: Seq<char>,
    token: Seq<char>,
    b_id: Seq<char>,
    s: TunnelView,
    port: u16,
    e: Seq<char>,
    caps: Option<Seq<char>>,
)
    ensures
        TunnelView::start(base, token, b_id).pending() is BindEcho,
        s.pending() is BindEcho ==> s.next(EventView::Ack(Ok(()))).pending() is EchoPort,
        s.pending() is BindEcho ==> s.next(EventView::Ack(Err(e))).pending() is Rest && s.next(
            EventView::Ack(Err(e)),
        ).is_blocked_by("could not bind local echo server: "@ + e),
        s.pending() is EchoPort ==> s.next(EventView::Port(Ok(port))).pending() is ServeEcho,
        s.pending() is EchoPort ==> s.next(EventView::Port(Err(e))).pending() is Rest && s.next(
            EventView::Port(Err(e)),
        ).is_blocked_by("local_addr failed: "@ + e),
        s.pending() is ServeEcho ==> s.next(EventView::Done).pending() is FreePort,
        s.pending() is FreePort ==> s.next(EventView::Port(Ok(port))).pending() is ReadCaps,
        s.pending() is FreePort ==> s.next(EventView::Port(Err(e))).pending() is StopEcho && s.next(
            EventView::Port(Err(e)),
        ).is_blocked_by("could not pick a free local port: "@ + e),
        s.pending() is ReadCaps ==> s.next(EventView::Caps(caps)).pending() is PostTunnel,
        s.pending() is MarkClock ==> s.next(EventView::Done).pending() is ConnectIngress,
        s.pending() is ConnectIngress ==> s.next(EventView::Ack(Ok(()))).pending() is WriteIngress,
        s.pending() is ConnectIngress ==> s.next(EventView::Ack(Err(e))).pending() is ReadClock,
        s.pending() is Sleep ==> s.next(EventView::Done).pending() is ConnectIngress,
        s.pending() is WriteIngress ==> s.next(EventView::Ack(Ok(()))).pending() is ReadIngress,
        s.pending() is StopEcho ==> s.next(EventView::Done).pending() is Rest,
{
}

/// The echo server sends back every byte that it read, behind `pong:`, and
/// nothing where it read none.
pub proof fn echo_server_sends_everything_back(received: Seq<u8>)
    ensures
        received.len() > 0 ==> (echo_of(received) matches Some(sent) && sent == encode_utf8(
            "pong:"@,
        ) + received),
        received.len() == 0 ==> echo_of(received) is None,
{
}

/// A text is blank exactly if every character of it is white space.
pub proof fn blank_is_white_space_alone(s: Seq<char>)
    ensures
        is_blank_text(s) <==> !is_token(Some(s)),
{
    token_is_kept_whole(s);
}

/// Bytes that came back pass, with the ports and the bytes told; a drive that
/// came to nothing is a failure exactly if a capability was given, and blocked
/// else, with the trouble told.
pub proof fn drive_is_judged_by_what_came_back(
    have_caps: bool,
    local_port: u16,
    remote_port: u16,
    bytes: Seq<u8>,
    e: Seq<char>,
)
    ensures
        ({
            let v = drive_verdict(have_caps, local_port, remote_port, Ok(bytes));
            v.outcome == Outcome::Pass && v.detail == "bytes flowed A:"@ + decimal(
                local_port as nat,
            ) + " -> B:"@ + decimal(remote_port as nat) + "; got back "@ + quoted(readable(bytes))
        }),
        ({
            let v = drive_verdict(true, local_port, remote_port, Err(e));
            v.outcome == Outcome::Fail && v.detail
                == "tunnel opened with a valid capability but byte round-trip failed: "@ + e
        }),
        ({
            let v = drive_verdict(false, local_port, remote_port, Err(e));
            v.outcome == Outcome::Blocked && v.detail
                == "no tunnel capability provided (set CE_IT_TUNNEL_CAPS); B correctly gated the stream: "@
                + e
        }),
{
}

/// What came back through the tunnel is taken exactly if it is `pong:` and what
/// was written, and is handed on as it is.
pub proof fn echo_is_taken_iff_it_is_the_probe(bytes: Seq<u8>)
    ensures
        echo_check(bytes) is Ok <==> bytes == encode_utf8("pong:ping-tunnel"@),
        echo_check(bytes) matches Ok(taken) ==> taken == bytes,
        bytes.len() == 0 ==> echo_check(bytes) == Err::<Seq<u8>, Seq<char>>(
            "tunnel returned EOF with no data"@,
        ),
        bytes.len() > 0 && bytes != encode_utf8("pong:ping-tunnel"@) ==> echo_check(bytes)
            == Err::<Seq<u8>, Seq<char>>(
            "tunnel echo mismatch: got "@ + quoted(readable(bytes)),
        ),
{
    lemma_probe_echo_is_something();
}

/// Nothing is left to be done of a scenario exactly if it rests, and the outcome
/// of a drive stands for what it was made of.
pub proof fn scenario_is_over_iff_it_rests(s: TunnelView, bytes: Vec<u8>, e: String)
    ensures
        s.phase is Over <==> s.pending() is Rest,
        result_view(Ok(bytes)) == Ok::<Seq<u8>, Seq<char>>(bytes@),
        result_view(Err(e)) == Err::<Seq<u8>, Seq<char>>(e@),
{
}

} // verus!
