use ce_integration::mesh::{Action, Event, TunnelPost, Verdict};
use ce_integration::report::Outcome;
use ce_integration::tunnel::{
    check_echo, echo_frame, echo_mismatch_detail, filter_caps, flowed_detail, is_blank,
    judge_drive, refused_detail, timed_out_detail, tunnel_request, Tunnel,
};

const SECOND: u128 = 1_000_000_000;

fn outcome(v: Option<Verdict>) -> (Outcome, String) {
    match v {
        Some(v) => (v.outcome, v.detail),
        None => panic!("no verdict yet"),
    }
}

fn text(s: &str) -> String {
    s.to_string()
}

/// A scenario that is about to post.
fn posting(caps: Option<&str>) -> Tunnel {
    let mut t = Tunnel::new("http://h:1//", "ta", "node-b");
    t.step(Event::Ack(Ok(())));
    t.step(Event::Port(Ok(4000)));
    t.step(Event::Done);
    t.step(Event::Port(Ok(5000)));
    t.step(Event::Caps(caps.map(|c| c.to_string())));
    t
}

/// A scenario that waits for the echo.
fn reading(caps: Option<&str>) -> Tunnel {
    let mut t = posting(caps);
    t.step(Event::Posted(Ok(200)));
    t.step(Event::Done);
    t.step(Event::Ack(Ok(())));
    t.step(Event::Ack(Ok(())));
    assert!(matches!(t.pending(), Action::ReadIngress { limit: 1024, timeout_ms: 8000 }));
    t
}

fn stopped(mut t: Tunnel) -> (Outcome, String) {
    assert!(matches!(t.pending(), Action::StopEcho));
    assert!(t.verdict().is_none());
    t.step(Event::Done);
    assert!(matches!(t.pending(), Action::Rest));
    outcome(t.verdict())
}

/// The verdict of a scenario that gives it before the server is stopped.
fn aborted(mut t: Tunnel) -> (Outcome, String) {
    assert!(matches!(t.pending(), Action::StopEcho));
    assert!(!t.is_done());
    let given = outcome(t.verdict());
    t.step(Event::Done);
    assert!(matches!(t.pending(), Action::Rest));
    assert!(t.is_done());
    assert_eq!(outcome(t.verdict()), given);
    given
}

#[test]
fn tunnel_goes_through_its_steps() {
    let mut t = Tunnel::new("http://h:1//", "ta", "node-b");
    assert!(matches!(t.pending(), Action::BindEcho));
    t.step(Event::Ack(Ok(())));
    assert!(matches!(t.pending(), Action::EchoPort));
    t.step(Event::Port(Ok(4000)));
    assert!(matches!(t.pending(), Action::ServeEcho));
    t.step(Event::Done);
    assert!(matches!(t.pending(), Action::FreePort));
    t.step(Event::Port(Ok(5000)));
    assert!(matches!(t.pending(), Action::ReadCaps));
    t.step(Event::Caps(Some(text("chain"))));
    match t.pending() {
        Action::PostTunnel(post) => {
            assert_eq!(post.url, "http://h:1/tunnel");
            assert_eq!(post.token, "ta");
            assert_eq!(post.node_id, "node-b");
            assert_eq!(post.local_port, 5000);
            assert_eq!(post.remote_port, 4000);
            assert_eq!(post.caps, Some(text("chain")));
        }
        other => panic!("{other:?}"),
    }
    t.step(Event::Posted(Ok(204)));
    assert!(matches!(t.pending(), Action::MarkClock));
    t.step(Event::Done);
    assert!(matches!(t.pending(), Action::ConnectIngress { port: 5000 }));
    t.step(Event::Ack(Err(text("refused"))));
    assert!(matches!(t.pending(), Action::ReadClock));
    t.step(Event::Elapsed(8 * SECOND));
    assert!(matches!(t.pending(), Action::Sleep { ms: 200 }));
    t.step(Event::Done);
    assert!(matches!(t.pending(), Action::ConnectIngress { port: 5000 }));
    t.step(Event::Ack(Ok(())));
    assert!(matches!(t.pending(), Action::WriteIngress { bytes } if bytes == b"ping-tunnel"));
}

#[test]
fn tunnel_passes_on_the_echo() {
    let mut t = reading(None);
    t.step(Event::Bytes(Ok(b"pong:ping-tunnel".to_vec())));
    assert_eq!(
        stopped(t),
        (
            Outcome::Pass,
            text("bytes flowed A:5000 -> B:4000; got back \"pong:ping-tunnel\"")
        )
    );
}

#[test]
fn tunnel_without_capability_is_blocked() {
    for caps in [None, Some(""), Some(" \t\n")] {
        let mut t = reading(caps);
        t.step(Event::Bytes(Ok(vec![])));
        assert_eq!(
            stopped(t),
            (
                Outcome::Blocked,
                text("no tunnel capability provided (set CE_IT_TUNNEL_CAPS); B correctly gated the stream: tunnel returned EOF with no data")
            )
        );
    }
}

#[test]
fn tunnel_with_capability_fails_on_loss() {
    let mut t = reading(Some("chain"));
    t.step(Event::Bytes(Ok(vec![])));
    assert_eq!(
        stopped(t),
        (
            Outcome::Fail,
            text("tunnel opened with a valid capability but byte round-trip failed: tunnel returned EOF with no data")
        )
    );
    let mut t = reading(Some("chain"));
    t.step(Event::TimedOut(text("deadline has elapsed")));
    assert_eq!(
        stopped(t),
        (
            Outcome::Fail,
            text("tunnel opened with a valid capability but byte round-trip failed: read from tunnel timed out: deadline has elapsed")
        )
    );
    let mut t = reading(Some("chain"));
    t.step(Event::Bytes(Ok(b"ping-tunnel".to_vec())));
    assert_eq!(
        stopped(t),
        (
            Outcome::Fail,
            text("tunnel opened with a valid capability but byte round-trip failed: tunnel echo mismatch: got \"ping-tunnel\"")
        )
    );
}

#[test]
fn read_error_is_handed_on() {
    let mut t = reading(Some("chain"));
    t.step(Event::Bytes(Err(text("connection reset"))));
    assert_eq!(
        stopped(t),
        (
            Outcome::Fail,
            text("tunnel opened with a valid capability but byte round-trip failed: connection reset")
        )
    );
}

#[test]
fn tunnel_gives_up_connecting() {
    let mut t = posting(Some("chain"));
    t.step(Event::Posted(Ok(200)));
    t.step(Event::Done);
    t.step(Event::Ack(Err(text("refused"))));
    t.step(Event::Elapsed(8 * SECOND + 1));
    assert_eq!(
        stopped(t),
        (
            Outcome::Fail,
            text("tunnel opened with a valid capability but byte round-trip failed: could not connect to tunnel ingress: refused")
        )
    );
}

#[test]
fn tunnel_fails_where_nothing_can_be_written() {
    let mut t = posting(Some("chain"));
    t.step(Event::Posted(Ok(200)));
    t.step(Event::Done);
    t.step(Event::Ack(Ok(())));
    t.step(Event::Ack(Err(text("broken pipe"))));
    assert_eq!(
        stopped(t),
        (
            Outcome::Fail,
            text("tunnel opened with a valid capability but byte round-trip failed: broken pipe")
        )
    );
}

#[test]
fn refused_post_is_blocked() {
    let mut t = posting(Some("chain"));
    t.step(Event::Posted(Ok(404)));
    assert!(matches!(t.pending(), Action::ReadBody));
    t.step(Event::Body(Some(text("nope"))));
    assert_eq!(
        aborted(t),
        (Outcome::Blocked, text("POST /tunnel returned 404 Not Found: nope"))
    );
    let mut t = posting(None);
    t.step(Event::Posted(Ok(599)));
    t.step(Event::Body(None));
    assert_eq!(
        aborted(t),
        (
            Outcome::Blocked,
            text("POST /tunnel returned 599 <unknown status code>: ")
        )
    );
}

#[test]
fn success_is_from_200_to_299() {
    for (code, success) in [(100, false), (199, false), (200, true), (299, true), (300, false), (999, false)] {
        let mut t = posting(None);
        t.step(Event::Posted(Ok(code)));
        assert_eq!(matches!(t.pending(), Action::MarkClock), success);
        assert_eq!(matches!(t.pending(), Action::ReadBody), !success);
    }
}

#[test]
fn number_that_is_no_status_is_no_answer() {
    for code in [0, 99, 1000, u16::MAX] {
        let mut t = posting(None);
        t.step(Event::Posted(Ok(code)));
        assert!(matches!(t.pending(), Action::PostTunnel(_)));
    }
}

#[test]
fn trouble_before_the_tunnel_is_blocked() {
    let mut t = Tunnel::new("http://h:1", "ta", "b");
    t.step(Event::Ack(Err(text("in use"))));
    assert_eq!(
        outcome(t.verdict()),
        (Outcome::Blocked, text("could not bind local echo server: in use"))
    );
    let mut t = Tunnel::new("http://h:1", "ta", "b");
    t.step(Event::Ack(Ok(())));
    t.step(Event::Port(Err(text("odd"))));
    assert_eq!(outcome(t.verdict()), (Outcome::Blocked, text("local_addr failed: odd")));
    let mut t = Tunnel::new("http://h:1", "ta", "b");
    t.step(Event::Ack(Ok(())));
    t.step(Event::Port(Ok(1)));
    t.step(Event::Done);
    t.step(Event::Port(Err(text("none left"))));
    assert_eq!(
        aborted(t),
        (Outcome::Blocked, text("could not pick a free local port: none left"))
    );
    let mut t = posting(Some("chain"));
    t.step(Event::Posted(Err(text("refused"))));
    assert_eq!(
        aborted(t),
        (Outcome::Blocked, text("POST /tunnel transport error: refused"))
    );
}

fn post(caps: Option<&str>) -> TunnelPost {
    TunnelPost {
        url: text("http://h:1/tunnel"),
        token: text("ta"),
        node_id: text("node\"b"),
        local_port: 5000,
        remote_port: 65535,
        caps: caps.map(|c| c.to_string()),
    }
}

#[test]
fn request_is_a_json_object() {
    let with = serde_json::Value::Object(tunnel_request(&post(Some("chain"))));
    assert_eq!(
        with.to_string(),
        r#"{"caps":"chain","local_port":5000,"node_id":"node\"b","remote_port":65535}"#
    );
    let without = tunnel_request(&post(None));
    assert_eq!(without.len(), 3);
    assert!(without.get("caps").is_none());
    assert_eq!(without.get("local_port").and_then(|v| v.as_u64()), Some(5000));
}

#[test]
fn blank_capability_counts_as_none() {
    assert!(is_blank(""));
    assert!(is_blank(" \t\r\n\u{a0}\u{3000}"));
    assert!(!is_blank(" x "));
    assert!(!is_blank("\u{200b}"));
    assert_eq!(filter_caps(Some(text(" x "))), Some(text(" x ")));
    assert_eq!(filter_caps(Some(text("  "))), None);
    assert_eq!(filter_caps(None), None);
    assert_eq!(filter_caps(Some(text("   "))), None);
}

#[test]
fn white_space_is_what_std_takes_for_it() {
    let listed = [
        0x9, 0xa, 0xb, 0xc, 0xd, 0x20, 0x85, 0xa0, 0x1680, 0x2000, 0x2001, 0x2002, 0x2003, 0x2004,
        0x2005, 0x2006, 0x2007, 0x2008, 0x2009, 0x200a, 0x2028, 0x2029, 0x202f, 0x205f, 0x3000,
    ];
    for c in '\0'..=char::MAX {
        let blank = is_blank(&c.to_string());
        assert_eq!(blank, listed.contains(&u32::from(c)), "{c:?}");
        assert_eq!(blank, c.to_string().trim().is_empty(), "{c:?}");
    }
}

#[test]
fn echo_server_frames_what_it_reads() {
    assert_eq!(echo_frame(b"ping-tunnel"), Some(b"pong:ping-tunnel".to_vec()));
    assert_eq!(echo_frame(b"\x00\xff"), Some(b"pong:\x00\xff".to_vec()));
    assert_eq!(echo_frame(b""), None);
}

#[test]
fn echo_of_the_probe_is_accepted() {
    let echo = echo_frame(b"ping-tunnel").unwrap();
    assert_eq!(check_echo(echo.clone()), Ok(echo));
    assert_eq!(check_echo(vec![]), Err(text("tunnel returned EOF with no data")));
    assert_eq!(
        check_echo(b"pong:\xffping".to_vec()),
        Err(text("tunnel echo mismatch: got \"pong:\u{FFFD}ping\""))
    );
}

#[test]
fn drives_are_judged() {
    assert_eq!(judge_drive(true, 1, 2, Ok(b"x".to_vec())).outcome, Outcome::Pass);
    assert_eq!(judge_drive(true, 1, 2, Err(text("e"))).outcome, Outcome::Fail);
    assert_eq!(judge_drive(false, 1, 2, Err(text("e"))).outcome, Outcome::Blocked);
}

#[test]
fn tunnel_details() {
    assert_eq!(timed_out_detail("late"), "read from tunnel timed out: late");
    assert_eq!(refused_detail("500 X", "b"), "POST /tunnel returned 500 X: b");
    assert_eq!(echo_mismatch_detail("\"y\""), "tunnel echo mismatch: got \"y\"");
    assert_eq!(flowed_detail(1, 2, "\"y\""), "bytes flowed A:1 -> B:2; got back \"y\"");
}

#[test]
fn post_hands_everything_on() {
    let mut t = Tunnel::new("http://127.0.0.1:18901//", "ta", "bb");
    t.step(Event::Ack(Ok(())));
    t.step(Event::Port(Ok(5001)));
    t.step(Event::Done);
    t.step(Event::Port(Ok(5002)));
    t.step(Event::Caps(Some(text(" cap1 "))));
    match t.pending() {
        Action::PostTunnel(post) => {
            assert_eq!(post.url, "http://127.0.0.1:18901/tunnel");
            assert_eq!(post.token, "ta");
            assert_eq!(
                serde_json::Value::Object(tunnel_request(&post)).to_string(),
                r#"{"caps":" cap1 ","local_port":5002,"node_id":"bb","remote_port":5001}"#
            );
        }
        other => panic!("{other:?}"),
    }
}
