use ce_integration::mesh::Message;
use ce_integration::replier::{replies_to, Replier, ReplierAction, ReplierEvent};

fn message(topic: &str, payload: Option<&[u8]>, token: Option<u64>) -> Message {
    Message {
        topic: topic.to_string(),
        payload: payload.map(|p| p.to_vec()),
        reply_token: token,
    }
}

fn inbox() -> Vec<Message> {
    vec![
        message("ce-it/echo", Some(b"one"), Some(11)),
        message("other", Some(b"two"), Some(12)),
        message("ce-it/echo", Some(b"three"), None),
        message("ce-it/echo", None, Some(14)),
        message("ce-it/echo", Some(b"one"), Some(11)),
    ]
}

#[test]
fn requests_on_the_topic_are_answered_in_order() {
    let out = replies_to(&inbox(), &"ce-it/echo".to_string(), &b"echo:".to_vec());
    assert_eq!(
        out,
        vec![
            (11, b"echo:one".to_vec()),
            (14, b"echo:".to_vec()),
            (11, b"echo:one".to_vec()),
        ]
    );
}

#[test]
fn loop_answers_pauses_and_starts_over() {
    let mut replier = Replier::new("ce-it/echo", b"echo:");
    assert!(matches!(replier.pending(), ReplierAction::CheckStop));
    replier.step(ReplierEvent::Stop(false));
    assert!(matches!(replier.pending(), ReplierAction::ReadInbox));
    replier.step(ReplierEvent::Inbox(Some(inbox())));
    for (token, payload) in [(11, "echo:one"), (14, "echo:"), (11, "echo:one")] {
        match replier.pending() {
            ReplierAction::Reply { token: t, payload: p } => {
                assert_eq!(t, token);
                assert_eq!(p, payload.as_bytes());
            }
            other => panic!("{other:?}"),
        }
        replier.step(ReplierEvent::Done);
    }
    assert!(matches!(replier.pending(), ReplierAction::Sleep { ms: 100 }));
    replier.step(ReplierEvent::Done);
    assert!(matches!(replier.pending(), ReplierAction::CheckStop));
}

#[test]
fn unreadable_inbox_is_tried_again() {
    let mut replier = Replier::new("ce-it/echo", b"echo:");
    replier.step(ReplierEvent::Stop(false));
    replier.step(ReplierEvent::Inbox(None));
    assert!(matches!(replier.pending(), ReplierAction::Sleep { ms: 100 }));
    replier.step(ReplierEvent::Done);
    replier.step(ReplierEvent::Stop(false));
    assert!(matches!(replier.pending(), ReplierAction::ReadInbox));
}

#[test]
fn stop_ends_the_loop() {
    let mut replier = Replier::new("t", b"p");
    replier.step(ReplierEvent::Done);
    assert!(matches!(replier.pending(), ReplierAction::CheckStop));
    replier.step(ReplierEvent::Stop(true));
    assert!(matches!(replier.pending(), ReplierAction::Rest));
    replier.step(ReplierEvent::Stop(false));
    assert!(matches!(replier.pending(), ReplierAction::Rest));
}
