use chatcore::chat::Content;
use chatcore::chat_log::FakeChatLog;

fn text_of(content: &Content) -> Option<&str> {
    match content {
        Content::Original(text) | Content::Edited(text) => Some(text.0.as_str()),
        Content::Deleted => None,
    }
}

#[test]
fn slots_count_up_from_zero() {
    let mut log = FakeChatLog::new();
    for expected in 0..10usize {
        let entry = log.post("someone".to_string(), format!("message {}", expected));
        assert_eq!(entry.slot_number, expected);
    }
    assert_eq!(log.len(), 10);
    for position in 0..10usize {
        assert_eq!(log.record_at(position).slot_number, position);
    }
}

#[test]
fn history_without_slot_returns_latest_entries() {
    let mut log = FakeChatLog::new();
    for n in 0..5usize {
        log.post("author".to_string(), format!("m{}", n));
    }
    let r = log.entries(2, None);
    assert_eq!(r.len(), 2);
    assert_eq!(r[0].slot_number, 3);
    assert_eq!(r[1].slot_number, 4);
    assert_eq!(text_of(&r[0].content), Some("m3"));
    assert_eq!(text_of(&r[1].content), Some("m4"));

    let all = log.entries(50, None);
    assert_eq!(all.len(), 5);
    for (i, entry) in all.iter().enumerate() {
        assert_eq!(entry.slot_number, i);
    }
}

#[test]
fn history_with_known_slot_ends_there() {
    let mut log = FakeChatLog::new();
    for n in 0..6usize {
        log.post("author".to_string(), format!("m{}", n));
    }
    let r = log.entries(3, Some(4));
    assert_eq!(r.len(), 3);
    assert_eq!(r[0].slot_number, 2);
    assert_eq!(r[1].slot_number, 3);
    assert_eq!(r[2].slot_number, 4);

    let clamped = log.entries(10, Some(1));
    assert_eq!(clamped.len(), 2);
    assert_eq!(clamped[0].slot_number, 0);
    assert_eq!(clamped[1].slot_number, 1);
}

#[test]
fn history_with_unknown_slot_is_empty_not_a_panic() {
    let mut log = FakeChatLog::new();
    log.post("author".to_string(), "only".to_string());
    let r = log.entries(3, Some(17));
    assert!(r.is_empty());
}

#[test]
fn history_on_empty_log_is_empty() {
    let log = FakeChatLog::new();
    assert!(log.entries(10, None).is_empty());
    assert!(log.entries(10, Some(0)).is_empty());
    assert!(log.entries(0, None).is_empty());
}

#[test]
fn post_then_history_scenario() {
    let mut log = FakeChatLog::new();

    let first = log.post("alice".to_string(), "hi".to_string());
    assert_eq!(first.slot_number, 0);
    assert_eq!(first.metadata.username, "alice");
    assert_eq!(text_of(&first.content), Some("hi"));

    let second = log.post("bob".to_string(), "yo".to_string());
    assert_eq!(second.slot_number, 1);
    assert_eq!(second.metadata.username, "bob");
    assert_eq!(text_of(&second.content), Some("yo"));

    let latest = log.entries(1, None);
    assert_eq!(latest.len(), 1);
    assert_eq!(latest[0].slot_number, 1);
    assert_eq!(latest[0].metadata.username, "bob");
    assert_eq!(text_of(&latest[0].content), Some("yo"));

    let from_zero = log.entries(5, Some(0));
    assert_eq!(from_zero.len(), 1);
    assert_eq!(from_zero[0].slot_number, 0);
    assert_eq!(from_zero[0].metadata.username, "alice");
    assert_eq!(text_of(&from_zero[0].content), Some("hi"));
}

#[test]
fn deleted_content_has_no_text() {
    let entry = chatcore::chat::Entry::new_timestamped_now(7, "carol".to_string(), Content::Deleted);
    assert_eq!(entry.slot_number, 7);
    assert!(entry.text_content().is_none());

    let edited = chatcore::chat::Entry::new_timestamped_now(
        8,
        "carol".to_string(),
        Content::Edited(chatcore::chat::MessageText("fixed".to_string())),
    );
    assert_eq!(edited.text_content(), Some("fixed"));
}
