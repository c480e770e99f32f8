use chatcore::chat::{Content, Entry, MessageText};
use chatcore::comms::ClientMessage;
use chatcore::tui::{
    available_text_width, clamp_message_scroll, clamp_messages_cursor, compose_post,
    delete_selection, input_box_height, input_cursor_cell, input_line_count, merge_entry_range,
    mode_indicator_text, scroll_down, scroll_to_bottom, scroll_up, selection_bounds,
    split_selection, thumb_position, yank_selection,
};
use chatcore::tui::{insert_mode_key, pane_cursor_down, pane_cursor_up, take_composed_post, Focus, InsertKey};
use chatcore::vim::{CommandBuffer, EditingContext, Mode};

fn chars(text: &str) -> Vec<char> {
    text.chars().collect()
}

fn text_of(v: &[char]) -> String {
    v.iter().collect()
}

fn entry(slot: usize, author: &str, text: &str) -> Entry {
    Entry::new_timestamped_now(
        slot,
        author.to_string(),
        Content::Original(MessageText(text.to_string())),
    )
}

#[test]
fn selection_bounds_are_ordered() {
    assert_eq!(selection_bounds(2, 7), (2, 7));
    assert_eq!(selection_bounds(7, 2), (2, 7));
    assert_eq!(selection_bounds(4, 4), (4, 4));
}

#[test]
fn split_selection_cuts_three_parts() {
    let text = chars("abcdef");
    let (before, selected, after) = split_selection(&text, 4, 1);
    assert_eq!(text_of(&before), "a");
    assert_eq!(text_of(&selected), "bcd");
    assert_eq!(text_of(&after), "ef");
}

#[test]
fn empty_or_out_of_range_selection_is_not_highlighted() {
    let text = chars("abc");
    let (before, selected, after) = split_selection(&text, 2, 2);
    assert_eq!(text_of(&before), "abc");
    assert!(selected.is_empty() && after.is_empty());

    let (before, selected, after) = split_selection(&text, 1, 9);
    assert_eq!(text_of(&before), "abc");
    assert!(selected.is_empty() && after.is_empty());
}

#[test]
fn yank_selection_copies_the_selected_range() {
    let text = chars("abcdef");
    assert_eq!(yank_selection(&text, 1, 4).map(|v| text_of(&v)), Some("bcd".to_string()));
    assert!(yank_selection(&text, 3, 3).is_none());
    assert!(yank_selection(&text, 2, 10).is_none());
}

#[test]
fn delete_selection_removes_and_repositions() {
    let mut text = chars("abcdef");
    let result = delete_selection(&mut text, 4, 1);
    let (removed, cursor) = result.expect("a proper selection is deleted");
    assert_eq!(text_of(&removed), "bcd");
    assert_eq!(cursor, 1);
    assert_eq!(text_of(&text), "aef");

    let mut untouched = chars("abc");
    assert!(delete_selection(&mut untouched, 2, 2).is_none());
    assert_eq!(text_of(&untouched), "abc");
}

#[test]
fn scrolling_saturates_at_both_ends() {
    assert_eq!(scroll_up(5, 2), 3);
    assert_eq!(scroll_up(1, 4), 0);
    assert_eq!(scroll_down(3, 10, 2), 5);
    assert_eq!(scroll_down(8, 10, 5), 9);
    assert_eq!(scroll_down(0, 0, 3), 0);
}

#[test]
fn scroll_to_bottom_lands_on_the_newest_message() {
    assert_eq!(scroll_to_bottom(4, 1), (3, 3));
    assert_eq!(scroll_to_bottom(0, 2), (2, 0));
}

#[test]
fn cursor_and_scroll_are_clamped_to_the_pane() {
    assert_eq!(clamp_messages_cursor(9, 4), 3);
    assert_eq!(clamp_messages_cursor(2, 4), 2);
    assert_eq!(clamp_messages_cursor(0, 0), 0);

    // Cursor above the window scrolls up to it.
    assert_eq!(clamp_message_scroll(5, 2, 20, 10), 2);
    // Cursor below the window scrolls down to it.
    assert_eq!(clamp_message_scroll(0, 15, 20, 10), 6);
    // Cursor inside the window keeps the clamped offset.
    assert_eq!(clamp_message_scroll(4, 6, 20, 10), 4);
    // The offset never exceeds the greatest useful one.
    assert_eq!(clamp_message_scroll(19, 12, 20, 10), 10);
}

#[test]
fn thumb_position_is_proportional() {
    assert_eq!(thumb_position(0, 8, 10), 0);
    assert_eq!(thumb_position(5, 8, 10), 4);
    assert_eq!(thumb_position(10, 8, 10), 8);
    assert_eq!(thumb_position(0, 8, 0), 0);
}

#[test]
fn input_layout_arithmetic() {
    assert_eq!(available_text_width(80), 75);
    assert_eq!(available_text_width(4), 1);
    assert_eq!(input_line_count(0, 10), 1);
    assert_eq!(input_line_count(10, 10), 1);
    assert_eq!(input_line_count(11, 10), 2);
    assert_eq!(input_box_height(1), 3);
    assert_eq!(input_box_height(4), 6);
    assert_eq!(input_cursor_cell(23, 10), (2, 3));
    assert_eq!(input_cursor_cell(5, 0), (0, 0));
}

#[test]
fn mode_indicator_shows_mode_or_pending_keys() {
    let mut buffer = CommandBuffer::default();
    assert_eq!(text_of(&mode_indicator_text(Mode::Insert, &buffer)), " I ");
    assert_eq!(text_of(&mode_indicator_text(Mode::Normal, &buffer)), " N ");
    buffer.push('d');
    assert_eq!(text_of(&mode_indicator_text(Mode::Normal, &buffer)), "d   ");
    buffer.push('i');
    assert_eq!(text_of(&mode_indicator_text(Mode::Normal, &buffer)), "di  ");
    buffer.push('w');
    assert_eq!(text_of(&mode_indicator_text(Mode::Normal, &buffer)), "di  ");
}

#[test]
fn compose_post_trims_and_keeps_the_author() {
    let message = compose_post(&chars("  hi there \t"), &"alice".to_string());
    match message {
        Some(ClientMessage::Post { username, content }) => {
            assert_eq!(username, "alice");
            assert_eq!(content, "hi there");
        }
        _ => panic!("a nonempty input composes a post"),
    }
}

#[test]
fn compose_post_of_whitespace_sends_nothing() {
    assert!(compose_post(&chars("   \t "), &"alice".to_string()).is_none());
    assert!(compose_post(&chars(""), &"alice".to_string()).is_none());
}

#[test]
fn merge_entry_range_splices_before_the_matching_slot() {
    let mut messages = vec![entry(0, "a", "zero"), entry(3, "b", "three")];
    merge_entry_range(&mut messages, vec![entry(3, "b", "three'"), entry(4, "c", "four")]);
    let slots: Vec<usize> = messages.iter().map(|e| e.slot_number).collect();
    assert_eq!(slots, vec![0, 3, 4, 3]);
}

#[test]
fn merge_entry_range_without_match_goes_to_the_front() {
    let mut messages = vec![entry(5, "a", "five")];
    merge_entry_range(&mut messages, vec![entry(1, "b", "one"), entry(2, "c", "two")]);
    let slots: Vec<usize> = messages.iter().map(|e| e.slot_number).collect();
    assert_eq!(slots, vec![1, 2, 5]);
}

#[test]
fn merge_of_an_empty_range_changes_nothing() {
    let mut messages = vec![entry(0, "a", "zero")];
    merge_entry_range(&mut messages, vec![]);
    assert_eq!(messages.len(), 1);
}

#[test]
fn insert_mode_keys_edit_the_input_line() {

    let mut ctx = EditingContext::default();
    let mut input: Vec<char> = Vec::new();

    for c in "hey".chars() {
        assert!(!insert_mode_key(&mut ctx, &mut input, InsertKey::Char(c)));
    }
    assert_eq!(text_of(&input), "hey");
    assert_eq!(ctx.cursor_pos, 3);

    assert!(!insert_mode_key(&mut ctx, &mut input, InsertKey::Backspace));
    assert_eq!(text_of(&input), "he");
    assert_eq!(ctx.cursor_pos, 2);

    assert!(!insert_mode_key(&mut ctx, &mut input, InsertKey::Left));
    assert!(!insert_mode_key(&mut ctx, &mut input, InsertKey::Char('u')));
    assert_eq!(text_of(&input), "hue");
    assert_eq!(ctx.cursor_pos, 2);

    assert!(!insert_mode_key(&mut ctx, &mut input, InsertKey::Right));
    assert_eq!(ctx.cursor_pos, 3);
    assert!(!insert_mode_key(&mut ctx, &mut input, InsertKey::Right));
    assert_eq!(ctx.cursor_pos, 3);

    assert!(insert_mode_key(&mut ctx, &mut input, InsertKey::Enter));

    assert!(!insert_mode_key(&mut ctx, &mut input, InsertKey::Escape));
    assert!(matches!(ctx.mode, Mode::Normal));
}

#[test]
fn submitting_the_input_clears_it() {

    let mut ctx = EditingContext::default();
    ctx.cursor_pos = 3;
    let mut input = chars(" ok ");
    let message = take_composed_post(&mut ctx, &mut input, &"dee".to_string());
    match message {
        Some(ClientMessage::Post { username, content }) => {
            assert_eq!(username, "dee");
            assert_eq!(content, "ok");
        }
        _ => panic!("a nonempty input composes a post"),
    }
    assert!(input.is_empty());
    assert_eq!(ctx.cursor_pos, 0);

    let mut blank = chars("  ");
    assert!(take_composed_post(&mut ctx, &mut blank, &"dee".to_string()).is_none());
    assert!(blank.is_empty());
}

#[test]
fn pane_cursor_moves_between_messages_and_input() {

    let mut ctx = EditingContext::default();
    let mut cursor: usize = 0;

    // From the input line, `k` jumps to the newest message.
    pane_cursor_up(&mut ctx, &mut cursor, 3);
    assert_eq!(ctx.focus, Focus::Messages);
    assert_eq!(cursor, 2);

    pane_cursor_up(&mut ctx, &mut cursor, 3);
    assert_eq!(cursor, 1);
    pane_cursor_up(&mut ctx, &mut cursor, 3);
    pane_cursor_up(&mut ctx, &mut cursor, 3);
    assert_eq!(cursor, 0);

    pane_cursor_down(&mut ctx, &mut cursor, 3);
    assert_eq!(cursor, 1);
    pane_cursor_down(&mut ctx, &mut cursor, 3);
    assert_eq!(cursor, 2);

    // Stepping past the last message returns focus to the input line.
    pane_cursor_down(&mut ctx, &mut cursor, 3);
    assert_eq!(ctx.focus, Focus::Input);
    assert_eq!(ctx.cursor_pos, 0);
    assert_eq!(cursor, 2);
}
