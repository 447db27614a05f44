use ce_integration::driver::{
    abort_message, connect_failure, connected_message, identity_message, Driver,
};
use ce_integration::mesh::{Action, Ending, Event, Message};
use ce_integration::report::Outcome;

/// Two nodes that answer everything as they should.
struct Nodes {
    caps: Option<String>,
    published: Vec<Message>,
    stored: Vec<u8>,
    peer: bool,
    request_works: bool,
    status: u16,
}

impl Nodes {
    fn good(caps: Option<&str>) -> Nodes {
        Nodes {
            caps: caps.map(|c| c.to_string()),
            published: vec![],
            stored: vec![],
            peer: true,
            request_works: true,
            status: 200,
        }
    }

    fn answer(&mut self, action: Action) -> Event {
        match action {
            Action::MarkClock | Action::Sleep { .. } | Action::Print { .. } => Event::Done,
            Action::StartReplier { .. } | Action::StopReplier => Event::Done,
            Action::ServeEcho | Action::StopEcho => Event::Done,
            Action::ReadClock => Event::Elapsed(if self.peer { 0 } else { 60_000_000_000 }),
            Action::ReadTime => Event::UnixTime(77),
            Action::RenderSeconds { .. } => Event::Rendered("0.0".to_string()),
            Action::SendMessage { .. } | Action::Subscribe { .. } | Action::Advertise { .. } => {
                Event::Ack(Ok(()))
            }
            Action::Request { body, .. } => {
                if self.request_works {
                    let mut reply = b"echo:".to_vec();
                    reply.extend_from_slice(&body);
                    Event::Bytes(Ok(reply))
                } else {
                    Event::Bytes(Err("no reply".to_string()))
                }
            }
            Action::Publish { topic, payload } => {
                self.published.push(Message { topic, payload: Some(payload), reply_token: None });
                Event::Ack(Ok(()))
            }
            Action::ReadInbox => Event::Inbox(Ok(std::mem::take(&mut self.published))),
            Action::PutBlob { content } => {
                self.stored = content;
                Event::Cid(Ok("cid".to_string()))
            }
            Action::GetBlob { .. } => Event::Bytes(Ok(self.stored.clone())),
            Action::FindService { .. } => Event::Providers(Ok(vec!["node-b".to_string()])),
            Action::BindEcho | Action::ConnectIngress { .. } | Action::WriteIngress { .. } => {
                Event::Ack(Ok(()))
            }
            Action::EchoPort | Action::FreePort => Event::Port(Ok(4000)),
            Action::ReadCaps => Event::Caps(self.caps.clone()),
            Action::PostTunnel(_) => Event::Posted(Ok(self.status)),
            Action::ReadBody => Event::Body(None),
            Action::ReadIngress { .. } => Event::Bytes(Ok(if self.caps.is_some() {
                b"pong:ping-tunnel".to_vec()
            } else {
                vec![]
            })),
            Action::Exit(_) | Action::Rest => panic!("nothing to answer"),
        }
    }
}

fn driver() -> Driver {
    match Driver::new(&"node-a".to_string(), &"node-b".to_string(), "http://h:1", "ta", 45) {
        Ok(d) => d,
        Err(e) => panic!("{e}"),
    }
}

/// The run of the nodes, with what was printed. What is done to the echo server
/// and what is logged are noted in `trace`, in their order.
fn run_traced(mut nodes: Nodes, trace: &mut Vec<String>) -> (Driver, Ending, Vec<String>) {
    let mut d = driver();
    let mut printed = vec![];
    for _ in 0..1000 {
        let action = d.pending();
        if let Action::Exit(ending) = action {
            return (d, ending, printed);
        }
        if let Action::Print { text } = &action {
            printed.push(text.clone());
        }
        if let Action::StopEcho = action {
            trace.push("stop".to_string());
        }
        let event = nodes.answer(action);
        if let Some(line) = d.step(event) {
            trace.push(line.text);
        }
    }
    panic!("the run does not end")
}

fn run(nodes: Nodes) -> (Driver, Ending, Vec<String>) {
    run_traced(nodes, &mut vec![])
}

fn outcomes(d: &Driver) -> Vec<(String, Outcome)> {
    d.report().rows.iter().map(|r| (r.0.clone(), r.1)).collect()
}

#[test]
fn two_nodes_are_needed() {
    let id = "same".to_string();
    match Driver::new(&id, &id, "http://h:1", "ta", 45) {
        Ok(_) => panic!("one node is not enough"),
        Err(e) => assert_eq!(
            e,
            "node A and node B report the same NodeId — they are not two distinct nodes"
        ),
    }
}

#[test]
fn good_nodes_pass_every_scenario() {
    let (d, ending, printed) = run(Nodes::good(Some("chain")));
    assert_eq!(ending, Ending::Success);
    assert_eq!(ending.exit_code(), 0);
    let names = [
        "peering",
        "mesh request/reply",
        "pubsub",
        "blob availability",
        "discovery + tags",
        "tunnel",
    ];
    let expected: Vec<(String, Outcome)> =
        names.iter().map(|n| (n.to_string(), Outcome::Pass)).collect();
    assert_eq!(outcomes(&d), expected);
    assert_eq!(printed, vec![d.report().render()]);
}

#[test]
fn blocked_tunnel_leaves_the_exit_code_at_zero() {
    let (d, ending, _) = run(Nodes::good(None));
    assert_eq!(outcomes(&d)[5], ("tunnel".to_string(), Outcome::Blocked));
    assert_eq!(ending.exit_code(), 0);
}

#[test]
fn failed_scenario_does_not_stop_the_others() {
    let mut nodes = Nodes::good(Some("chain"));
    nodes.request_works = false;
    let (d, ending, _) = run(nodes);
    assert_eq!(outcomes(&d).len(), 6);
    assert_eq!(outcomes(&d)[1], ("mesh request/reply".to_string(), Outcome::Fail));
    assert_eq!(ending, Ending::Failure);
    assert_eq!(ending.exit_code(), 1);
}

#[test]
fn run_ends_where_the_nodes_never_peer() {
    let mut nodes = Nodes::good(Some("chain"));
    nodes.peer = false;
    let (d, ending, printed) = run(nodes);
    assert_eq!(outcomes(&d), vec![("peering".to_string(), Outcome::Fail)]);
    assert_eq!(ending, Ending::NotPeered);
    assert_eq!(ending.exit_code(), 1);
    assert_eq!(printed.len(), 1);
}

#[test]
fn unasked_events_change_nothing() {
    let mut d = driver();
    d.step(Event::UnixTime(1));
    d.step(Event::Bytes(Ok(vec![])));
    assert!(matches!(d.pending(), Action::MarkClock));
    assert!(d.report().rows.is_empty());
}

#[test]
fn every_row_is_logged_once() {
    let mut trace = vec![];
    let (d, _, _) = run_traced(Nodes::good(Some("chain")), &mut trace);
    trace.retain(|line| line != "stop");
    let expected: Vec<String> =
        d.report().rows.iter().map(|r| format!("[PASS] {}: {}", r.0, r.2)).collect();
    assert_eq!(trace, expected);
}

#[test]
fn driven_tunnel_is_recorded_after_the_server_stopped() {
    let mut trace = vec![];
    run_traced(Nodes::good(None), &mut trace);
    assert_eq!(trace.len(), 7);
    assert_eq!(trace[5], "stop");
    assert_eq!(
        trace[6],
        "[BLOCKED] tunnel: no tunnel capability provided (set CE_IT_TUNNEL_CAPS); \
         B correctly gated the stream: tunnel returned EOF with no data"
    );
}

#[test]
fn refused_tunnel_is_recorded_before_the_server_stops() {
    let mut nodes = Nodes::good(Some("chain"));
    nodes.status = 503;
    let mut trace = vec![];
    let (d, ending, _) = run_traced(nodes, &mut trace);
    assert_eq!(trace.len(), 7);
    assert_eq!(
        trace[5],
        "[BLOCKED] tunnel: POST /tunnel returned 503 Service Unavailable: "
    );
    assert_eq!(trace[6], "stop");
    assert_eq!(outcomes(&d).len(), 6);
    assert_eq!(ending, Ending::Success);
}

#[test]
fn driver_messages() {
    assert_eq!(
        connected_message("A", "http://h:1", "0123456789abcdef"),
        "connected node A at http://h:1 (id 0123456789)"
    );
    assert_eq!(identity_message("B", "node-b"), "node B id=node-b");
    assert_eq!(abort_message(), "aborting: nodes failed to peer");
    assert_eq!(connect_failure("A", "http://h:1"), "A: GET /status failed at http://h:1");
}
