use chatcore::chat::{Content, Entry, MessageText};
use chatcore::comms::{ClientId, ClientMessage, ServerMessage};
use chatcore::message::{Message, UpdateRequest};

#[test]
fn client_messages_clone_faithfully() {
    let post = ClientMessage::Post { username: "u".to_string(), content: "c".to_string() };
    match post.clone() {
        ClientMessage::Post { username, content } => {
            assert_eq!(username, "u");
            assert_eq!(content, "c");
        }
        _ => panic!("a post clones as a post"),
    }

    let request = ClientMessage::Request { count: 3, up_to_slot_number: Some(9) };
    match request.clone() {
        ClientMessage::Request { count, up_to_slot_number } => {
            assert_eq!(count, 3);
            assert_eq!(up_to_slot_number, Some(9));
        }
        _ => panic!("a request clones as a request"),
    }
}

#[test]
fn server_messages_clone_faithfully() {
    let entry = Entry::new_timestamped_now(
        2,
        "a".to_string(),
        Content::Original(MessageText("t".to_string())),
    );
    match ServerMessage::NewEntry(entry).clone() {
        ServerMessage::NewEntry(cloned) => {
            assert_eq!(cloned.slot_number, 2);
            assert_eq!(cloned.metadata.username, "a");
            assert_eq!(cloned.text_content(), Some("t"));
        }
        _ => panic!("a new entry clones as a new entry"),
    }

    let range = ServerMessage::EntryRange(vec![
        Entry::new_timestamped_now(0, "x".to_string(), Content::Deleted),
        Entry::new_timestamped_now(1, "y".to_string(), Content::Deleted),
    ]);
    match range.clone() {
        ServerMessage::EntryRange(entries) => {
            assert_eq!(entries.len(), 2);
            assert_eq!(entries[0].slot_number, 0);
            assert_eq!(entries[1].slot_number, 1);
        }
        _ => panic!("a range clones as a range"),
    }
}

#[test]
fn plain_message_records_hold_their_fields() {
    let message = Message { content: "hello".to_string(), sequence_number: 12 };
    assert_eq!(message.content, "hello");
    assert_eq!(message.sequence_number, 12);

    let request = UpdateRequest { last_slot_number: 4 };
    assert_eq!(request.last_slot_number, 4);

    // Only the construction is observable: the identifier is opaque.
    let _id = ClientId::new_unique_per_client();
}
