use ce_integration::blob::{judge_fetched, Blob};
use ce_integration::discovery::{names_provider, seen_detail, Discovery};
use ce_integration::mesh::{Action, Event, Message, Verdict};
use ce_integration::peering::{never_peered_detail, Peering};
use ce_integration::pubsub::{find_message, Pubsub};
use ce_integration::replier::replies_to;
use ce_integration::report::Outcome;
use ce_integration::request_reply::{judge_reply, mismatch_detail, RequestReply};

const SECOND: u128 = 1_000_000_000;

fn outcome(v: Option<Verdict>) -> (Outcome, String) {
    match v {
        Some(v) => (v.outcome, v.detail),
        None => panic!("no verdict yet"),
    }
}

fn error(text: &str) -> Event {
    Event::Ack(Err(text.to_string()))
}

// ---- peering ----

#[test]
fn peering_pings_node_b() {
    let mut p = Peering::new("node-b", 45);
    assert!(matches!(p.pending(), Action::MarkClock));
    p.step(Event::Done);
    assert!(matches!(p.pending(), Action::ReadClock));
    p.step(Event::Elapsed(0));
    match p.pending() {
        Action::SendMessage { to, topic, payload } => {
            assert_eq!(to, "node-b");
            assert_eq!(topic, "ce-it/ping");
            assert_eq!(payload, b"ping");
        }
        other => panic!("{other:?}"),
    }
}

#[test]
fn peering_passes_on_the_first_delivery() {
    let mut p = Peering::new("b", 45);
    p.step(Event::Done);
    p.step(Event::Elapsed(0));
    p.step(error("no route"));
    assert!(matches!(p.pending(), Action::Sleep { ms: 500 }));
    p.step(Event::Done);
    p.step(Event::Elapsed(44 * SECOND));
    p.step(Event::Ack(Ok(())));
    assert!(matches!(p.pending(), Action::ReadClock));
    p.step(Event::Elapsed(46 * SECOND));
    assert!(
        matches!(p.pending(), Action::RenderSeconds { elapsed_ns } if elapsed_ns == 46 * SECOND)
    );
    assert!(p.verdict().is_none());
    p.step(Event::Rendered("46.0".to_string()));
    assert_eq!(
        outcome(p.verdict()),
        (
            Outcome::Pass,
            "A and B peered over the mesh in 46.0s (directed send delivered)".to_string()
        )
    );
    assert!(matches!(p.pending(), Action::Rest));
}

#[test]
fn peering_fails_at_the_timeout() {
    let mut p = Peering::new("b", 45);
    p.step(Event::Done);
    p.step(Event::Elapsed(0));
    p.step(error("no route"));
    p.step(Event::Done);
    p.step(Event::Elapsed(45 * SECOND));
    assert_eq!(
        outcome(p.verdict()),
        (
            Outcome::Fail,
            "nodes never peered: directed send A->B never succeeded within 45s: no route"
                .to_string()
        )
    );
}

#[test]
fn peering_without_time_makes_no_attempt() {
    let mut p = Peering::new("b", 0);
    p.step(Event::Done);
    p.step(Event::Elapsed(0));
    assert_eq!(
        outcome(p.verdict()),
        (
            Outcome::Fail,
            "nodes never peered: directed send A->B never succeeded within 0ns: (no attempt)"
                .to_string()
        )
    );
}

#[test]
fn peering_ignores_what_it_did_not_ask_for() {
    let mut p = Peering::new("b", 45);
    p.step(Event::Ack(Ok(())));
    p.step(Event::Elapsed(99 * SECOND));
    assert!(matches!(p.pending(), Action::MarkClock));
}

#[test]
fn never_peered_details() {
    assert_eq!(
        never_peered_detail("2s", "x"),
        "nodes never peered: directed send A->B never succeeded within 2s: x"
    );
}

// ---- request/reply ----

fn asked() -> RequestReply {
    let mut s = RequestReply::new("node-b");
    s.step(Event::Done);
    s.step(Event::Done);
    s
}

#[test]
fn request_reply_goes_through_its_steps() {
    let mut s = RequestReply::new("node-b");
    match s.pending() {
        Action::StartReplier { topic, prefix } => {
            assert_eq!(topic, "ce-it/echo");
            assert_eq!(prefix, b"echo:");
        }
        other => panic!("{other:?}"),
    }
    s.step(Event::Done);
    assert!(matches!(s.pending(), Action::Sleep { ms: 300 }));
    s.step(Event::Done);
    match s.pending() {
        Action::Request { to, topic, body, timeout_ms } => {
            assert_eq!(to, "node-b");
            assert_eq!(topic, "ce-it/echo");
            assert_eq!(body, b"hello-from-A");
            assert_eq!(timeout_ms, 15_000);
        }
        other => panic!("{other:?}"),
    }
    s.step(Event::Bytes(Ok(b"echo:hello-from-A".to_vec())));
    assert!(matches!(s.pending(), Action::StopReplier));
    assert!(s.verdict().is_none());
    s.step(Event::Done);
    assert_eq!(
        outcome(s.verdict()),
        (
            Outcome::Pass,
            "A->B request answered; got 17 bytes echoed correctly".to_string()
        )
    );
}

#[test]
fn request_reply_fails_on_another_reply() {
    let mut s = asked();
    s.step(Event::Bytes(Ok(b"hello-from-A\n\xff".to_vec())));
    s.step(Event::Done);
    assert_eq!(
        outcome(s.verdict()),
        (
            Outcome::Fail,
            "reply mismatch: got \"hello-from-A\\n\u{FFFD}\"".to_string()
        )
    );
}

#[test]
fn request_reply_fails_without_a_reply() {
    let mut s = asked();
    s.step(Event::Bytes(Err("timed out".to_string())));
    s.step(Event::Done);
    assert_eq!(
        outcome(s.verdict()),
        (Outcome::Fail, "request failed: timed out".to_string())
    );
}

#[test]
fn reply_loop_satisfies_the_request() {
    let request = Message {
        topic: "ce-it/echo".to_string(),
        payload: Some(b"hello-from-A".to_vec()),
        reply_token: Some(3),
    };
    let replies = replies_to(&vec![request], &"ce-it/echo".to_string(), &b"echo:".to_vec());
    assert_eq!(replies.len(), 1);
    assert_eq!(replies[0].0, 3);
    assert_eq!(judge_reply(Ok(replies[0].1.clone())).outcome, Outcome::Pass);
}

#[test]
fn mismatch_details() {
    assert_eq!(mismatch_detail("\"x\""), "reply mismatch: got \"x\"");
}

// ---- pubsub ----

fn polling() -> Pubsub {
    let mut s = Pubsub::new("aaaaaaaaaabbbb");
    s.step(Event::Ack(Ok(())));
    s.step(Event::UnixTime(1_700_000_000));
    s.step(Event::Done);
    s.step(Event::Elapsed(20 * SECOND));
    s.step(Event::Ack(Ok(())));
    s.step(Event::Done);
    s
}

fn news(topic: &str, payload: Option<&str>) -> Message {
    Message {
        topic: topic.to_string(),
        payload: payload.map(|p| p.as_bytes().to_vec()),
        reply_token: None,
    }
}

#[test]
fn pubsub_goes_through_its_steps() {
    let mut s = Pubsub::new("aaaaaaaaaabbbb");
    assert!(matches!(s.pending(), Action::Subscribe { topic } if topic == "ce-it/news-aaaaaaaaaa"));
    s.step(Event::Ack(Ok(())));
    assert!(matches!(s.pending(), Action::ReadTime));
    s.step(Event::UnixTime(1_700_000_000));
    assert!(matches!(s.pending(), Action::MarkClock));
    s.step(Event::Done);
    assert!(matches!(s.pending(), Action::ReadClock));
    s.step(Event::Elapsed(0));
    match s.pending() {
        Action::Publish { topic, payload } => {
            assert_eq!(topic, "ce-it/news-aaaaaaaaaa");
            assert_eq!(payload, b"breaking-1700000000");
        }
        other => panic!("{other:?}"),
    }
    s.step(Event::Ack(Ok(())));
    assert!(matches!(s.pending(), Action::Sleep { ms: 700 }));
    s.step(Event::Done);
    assert!(matches!(s.pending(), Action::ReadInbox));
}

#[test]
fn pubsub_passes_on_its_message() {
    let mut s = polling();
    s.step(Event::Inbox(Ok(vec![
        news("ce-it/news-aaaaaaaaaa", None),
        news("ce-it/news-aaaaaaaaaa", Some("breaking-1700000000")),
    ])));
    assert_eq!(
        outcome(s.verdict()),
        (
            Outcome::Pass,
            "B received A's publish on topic 'ce-it/news-aaaaaaaaaa'".to_string()
        )
    );
}

#[test]
fn pubsub_retries_until_the_limit() {
    let mut s = polling();
    s.step(Event::Inbox(Ok(vec![news("other", Some("breaking-1700000000"))])));
    assert!(matches!(s.pending(), Action::ReadClock));
    s.step(Event::Elapsed(20 * SECOND + 1));
    assert_eq!(
        outcome(s.verdict()),
        (
            Outcome::Fail,
            "B never received the published message: message not yet in B's inbox".to_string()
        )
    );
}

#[test]
fn pubsub_shows_the_latest_trouble() {
    let mut s = polling();
    s.step(Event::Inbox(Err("gone".to_string())));
    s.step(Event::Elapsed(0));
    s.step(error("no peers"));
    assert!(matches!(s.pending(), Action::Sleep { ms: 500 }));
    s.step(Event::Done);
    s.step(Event::Elapsed(21 * SECOND));
    assert_eq!(
        outcome(s.verdict()),
        (
            Outcome::Fail,
            "B never received the published message: A publish failed: no peers".to_string()
        )
    );
    let mut s = polling();
    s.step(Event::Inbox(Err("gone".to_string())));
    s.step(Event::Elapsed(21 * SECOND));
    assert_eq!(
        outcome(s.verdict()).1,
        "B never received the published message: B inbox poll failed: gone"
    );
}

#[test]
fn pubsub_fails_where_b_cannot_subscribe() {
    let mut s = Pubsub::new("a");
    s.step(error("denied"));
    assert_eq!(
        outcome(s.verdict()),
        (Outcome::Fail, "B subscribe failed: denied".to_string())
    );
}

#[test]
fn message_is_found_by_topic_and_payload() {
    let topic = "t".to_string();
    let text = "x".to_string();
    assert!(find_message(&vec![news("t", Some("x"))], &topic, &text));
    assert!(!find_message(&vec![news("t", Some("xx"))], &topic, &text));
    assert!(!find_message(&vec![news("u", Some("x"))], &topic, &text));
    assert!(!find_message(&vec![news("t", None)], &topic, &text));
    assert!(!find_message(&vec![], &topic, &text));
}

// ---- blob ----

fn fetching() -> Blob {
    let mut s = Blob::new("bbbbbbbbbbcccc");
    s.step(Event::UnixTime(5));
    s.step(Event::Cid(Ok("cid0123456789".to_string())));
    s.step(Event::Done);
    s.step(Event::Elapsed(25 * SECOND));
    s
}

#[test]
fn blob_goes_through_its_steps() {
    let mut s = Blob::new("bbbbbbbbbbcccc");
    assert!(matches!(s.pending(), Action::ReadTime));
    s.step(Event::UnixTime(5));
    assert!(
        matches!(s.pending(), Action::PutBlob { content } if content == b"ce-it blob payload 5 bbbbbbbbbb")
    );
    s.step(Event::Cid(Ok("cid0123456789".to_string())));
    assert!(matches!(s.pending(), Action::MarkClock));
    s.step(Event::Done);
    assert!(matches!(s.pending(), Action::ReadClock));
    s.step(Event::Elapsed(1));
    assert!(matches!(s.pending(), Action::GetBlob { cid } if cid == "cid0123456789"));
    s.step(Event::Bytes(Err("not found".to_string())));
    assert!(matches!(s.pending(), Action::Sleep { ms: 600 }));
    s.step(Event::Done);
    assert!(matches!(s.pending(), Action::ReadClock));
}

#[test]
fn blob_passes_on_the_same_bytes() {
    let mut s = fetching();
    s.step(Event::Bytes(Ok(b"ce-it blob payload 5 bbbbbbbbbb".to_vec())));
    assert_eq!(
        outcome(s.verdict()),
        (
            Outcome::Pass,
            "B fetched CID cid0123456 from A over the mesh (31 bytes, verified)".to_string()
        )
    );
}

#[test]
fn blob_fails_on_other_bytes() {
    let mut s = fetching();
    s.step(Event::Bytes(Ok(b"ce-it blob payload 5 bbbbbbbbb".to_vec())));
    assert_eq!(
        outcome(s.verdict()),
        (
            Outcome::Fail,
            "B fetched the CID but bytes did not match".to_string()
        )
    );
}

#[test]
fn blob_fails_at_the_limit() {
    let mut s = fetching();
    s.step(Event::Bytes(Err("not found".to_string())));
    s.step(Event::Done);
    s.step(Event::Elapsed(25 * SECOND + 1));
    assert_eq!(
        outcome(s.verdict()),
        (
            Outcome::Fail,
            "B could not fetch CID cid0123456 over the mesh: not found".to_string()
        )
    );
}

#[test]
fn blob_fails_where_a_cannot_store() {
    let mut s = Blob::new("b");
    s.step(Event::UnixTime(5));
    s.step(Event::Cid(Err("full".to_string())));
    assert_eq!(
        outcome(s.verdict()),
        (Outcome::Fail, "A put_blob failed: full".to_string())
    );
}

#[test]
fn fetched_bytes_are_judged() {
    assert_eq!(judge_fetched(b"x", "x", "c").outcome, Outcome::Pass);
    assert_eq!(judge_fetched(b"y", "x", "c").outcome, Outcome::Fail);
}

// ---- discovery ----

fn querying() -> Discovery {
    let mut s = Discovery::new("bbbbbbbbbbcccc");
    s.step(Event::Ack(Ok(())));
    s.step(Event::Done);
    s.step(Event::Elapsed(25 * SECOND));
    s.step(error("ignored"));
    s
}

#[test]
fn discovery_goes_through_its_steps() {
    let mut s = Discovery::new("bbbbbbbbbbcccc");
    assert!(matches!(s.pending(), Action::Advertise { service } if service == "ce-it-svc-bbbbbbbbbb"));
    s.step(Event::Ack(Ok(())));
    assert!(matches!(s.pending(), Action::MarkClock));
    s.step(Event::Done);
    assert!(matches!(s.pending(), Action::ReadClock));
    s.step(Event::Elapsed(1));
    assert!(matches!(s.pending(), Action::Advertise { service } if service == "ce-it-svc-bbbbbbbbbb"));
    s.step(Event::Ack(Ok(())));
    assert!(
        matches!(s.pending(), Action::FindService { service } if service == "ce-it-svc-bbbbbbbbbb")
    );
}

#[test]
fn discovery_passes_on_node_b() {
    let mut s = querying();
    s.step(Event::Providers(Ok(vec!["x".to_string(), "bbbbbbbbbbcccc".to_string()])));
    assert_eq!(
        outcome(s.verdict()),
        (
            Outcome::Pass,
            "A discovered B as provider of 'ce-it-svc-bbbbbbbbbb' via the DHT".to_string()
        )
    );
}

#[test]
fn discovery_shows_the_providers_seen() {
    let mut s = querying();
    s.step(Event::Providers(Ok(vec!["x".to_string(), "y\"".to_string()])));
    assert!(matches!(s.pending(), Action::Sleep { ms: 800 }));
    s.step(Event::Done);
    s.step(Event::Elapsed(25 * SECOND + 1));
    assert_eq!(
        outcome(s.verdict()),
        (
            Outcome::Fail,
            "A never found B as a provider of 'ce-it-svc-bbbbbbbbbb': providers seen: [\"x\", \"y\\\"\"]"
                .to_string()
        )
    );
}

#[test]
fn discovery_shows_the_query_error() {
    let mut s = querying();
    s.step(Event::Providers(Err("dht down".to_string())));
    s.step(Event::Done);
    s.step(Event::Elapsed(26 * SECOND));
    assert_eq!(
        outcome(s.verdict()).1,
        "A never found B as a provider of 'ce-it-svc-bbbbbbbbbb': dht down"
    );
}

#[test]
fn discovery_fails_where_b_cannot_advertise() {
    let mut s = Discovery::new("b");
    s.step(error("denied"));
    assert_eq!(
        outcome(s.verdict()),
        (Outcome::Fail, "B advertise failed: denied".to_string())
    );
}

#[test]
fn providers_are_searched() {
    let providers = vec!["x".to_string(), "y".to_string()];
    assert!(names_provider(&providers, &"y".to_string()));
    assert!(!names_provider(&providers, &"z".to_string()));
    assert!(!names_provider(&vec![], &"z".to_string()));
    assert_eq!(seen_detail("[]"), "providers seen: []");
}
