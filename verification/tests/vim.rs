use chatcore::tui::Focus;
use chatcore::vim::{
    find_next_big_word_boundary, find_next_word_boundary, find_prev_big_word_boundary,
    find_prev_word_boundary, Clipboard, Command, CommandBuffer, EditingContext, Mode, Motion,
    MultiCommand, Noun, SingleCommand,
};

fn chars(text: &str) -> Vec<char> {
    text.chars().collect()
}

fn text_of(v: &[char]) -> String {
    v.iter().collect()
}

fn input_context() -> EditingContext {
    EditingContext { mode: Mode::Normal, focus: Focus::Input, cursor_pos: 0, scroll_offset: 0 }
}

fn empty_clipboard() -> Clipboard {
    Clipboard { contents: None }
}

#[test]
fn single_commands_parse_and_consume_one_keystroke() {
    let mut buffer = CommandBuffer::default();
    assert!(buffer.is_empty());
    buffer.push('i');
    let parsed = buffer.parse();
    assert!(matches!(parsed, Some(Command::SingleCommand(SingleCommand::Insert))));
    assert!(buffer.is_empty());

    buffer.push('$');
    assert!(matches!(
        buffer.parse(),
        Some(Command::SingleCommand(SingleCommand::EndFile))
    ));
}

#[test]
fn operator_with_motion_parses_as_one_command() {
    let mut buffer = CommandBuffer::default();
    buffer.push('d');
    buffer.push('w');
    let parsed = buffer.parse();
    assert!(matches!(
        parsed,
        Some(Command::MultiCommand(MultiCommand::Delete(Noun::Motion(Motion::ForwardWord))))
    ));
    assert!(buffer.is_empty());
}

#[test]
fn inner_word_nouns_span_two_keystrokes() {
    let mut buffer = CommandBuffer::default();
    buffer.push('c');
    buffer.push('i');
    buffer.push('w');
    let parsed = buffer.parse();
    assert!(matches!(
        parsed,
        Some(Command::MultiCommand(MultiCommand::Change(Noun::InnerWord)))
    ));
    assert!(buffer.is_empty());
}

#[test]
fn replace_takes_the_next_keystroke_as_argument() {
    let mut buffer = CommandBuffer::default();
    buffer.push('r');
    buffer.push('X');
    let parsed = buffer.parse();
    assert!(matches!(
        parsed,
        Some(Command::MultiCommand(MultiCommand::Replace('X')))
    ));
}

#[test]
fn incomplete_or_unknown_input_stays_pending() {
    let mut buffer = CommandBuffer::default();
    buffer.push('d');
    assert!(buffer.parse().is_none());
    assert_eq!(buffer.as_slice(), &['d']);

    buffer.clear();
    buffer.push('q');
    assert!(buffer.parse().is_none());
    assert_eq!(buffer.as_slice(), &['q']);
}

#[test]
fn word_boundaries_on_plain_words() {
    let text = chars("hello world");
    assert_eq!(find_next_word_boundary(&text, 0), 6);
    assert_eq!(find_next_word_boundary(&text, 6), 11);
    assert_eq!(find_next_big_word_boundary(&text, 0), 6);
    assert_eq!(find_prev_word_boundary(&text, 11), 4);
    assert_eq!(find_prev_big_word_boundary(&text, 11), 4);
}

#[test]
fn word_boundaries_stop_at_punctuation() {
    let text = chars("foo,bar");
    // The comma is a separator but no whitespace, so the motion stops on it.
    assert_eq!(find_next_word_boundary(&text, 0), 3);
    // The big-word motion sees no whitespace at all.
    assert_eq!(find_next_big_word_boundary(&text, 0), 7);
}

#[test]
fn forward_motion_off_an_immediate_separator_moves_one() {
    let text = chars(",x");
    assert_eq!(find_next_word_boundary(&text, 0), 1);
}

#[test]
fn backward_motion_from_the_start_stays_put() {
    let text = chars("hello");
    assert_eq!(find_prev_word_boundary(&text, 0), 0);
    assert_eq!(find_prev_big_word_boundary(&text, 0), 0);
}

#[test]
fn delete_word_moves_text_to_clipboard() {
    let mut ctx = input_context();
    let mut text = chars("hello world");
    let mut clipboard = empty_clipboard();
    ctx.apply_command(
        &mut text,
        &mut clipboard,
        20,
        Command::MultiCommand(MultiCommand::Delete(Noun::Motion(Motion::ForwardWord))),
    );
    assert_eq!(text_of(&text), "world");
    assert_eq!(ctx.cursor_pos, 0);
    assert_eq!(text_of(clipboard.contents.as_ref().unwrap()), "hello ");
}

#[test]
fn delete_backward_word_moves_the_cursor_back() {
    let mut ctx = input_context();
    ctx.cursor_pos = 11;
    let mut text = chars("hello world");
    let mut clipboard = empty_clipboard();
    ctx.apply_command(
        &mut text,
        &mut clipboard,
        20,
        Command::MultiCommand(MultiCommand::Delete(Noun::Motion(Motion::BackwardWord))),
    );
    assert_eq!(text_of(&text), "hell");
    assert_eq!(ctx.cursor_pos, 4);
    assert_eq!(text_of(clipboard.contents.as_ref().unwrap()), "o world");
}

#[test]
fn delete_char_under_cursor_yanks_it() {
    let mut ctx = input_context();
    ctx.cursor_pos = 1;
    let mut text = chars("abc");
    let mut clipboard = empty_clipboard();
    ctx.apply_command(
        &mut text,
        &mut clipboard,
        20,
        Command::SingleCommand(SingleCommand::DeleteCharUnderCursor),
    );
    assert_eq!(text_of(&text), "ac");
    assert_eq!(text_of(clipboard.contents.as_ref().unwrap()), "b");
}

#[test]
fn paste_inserts_at_the_cursor_and_advances_it() {
    let mut ctx = input_context();
    ctx.cursor_pos = 1;
    let mut text = chars("ad");
    let mut clipboard = Clipboard { contents: Some(chars("bc")) };
    ctx.apply_command(&mut text, &mut clipboard, 20, Command::SingleCommand(SingleCommand::Paste));
    assert_eq!(text_of(&text), "abcd");
    assert_eq!(ctx.cursor_pos, 3);
}

#[test]
fn paste_with_empty_clipboard_changes_nothing() {
    let mut ctx = input_context();
    let mut text = chars("ad");
    let mut clipboard = empty_clipboard();
    ctx.apply_command(&mut text, &mut clipboard, 20, Command::SingleCommand(SingleCommand::Paste));
    assert_eq!(text_of(&text), "ad");
    assert_eq!(ctx.cursor_pos, 0);
}

#[test]
fn change_to_end_of_line_enters_insert_mode() {
    let mut ctx = input_context();
    ctx.cursor_pos = 2;
    let mut text = chars("hello");
    let mut clipboard = empty_clipboard();
    ctx.apply_command(&mut text, &mut clipboard, 20, Command::MultiCommand(MultiCommand::ChangeEOL));
    assert_eq!(text_of(&text), "he");
    assert_eq!(text_of(clipboard.contents.as_ref().unwrap()), "llo");
    assert!(matches!(ctx.mode, Mode::Insert));
}

#[test]
fn replace_swaps_one_character_in_place() {
    let mut ctx = input_context();
    ctx.cursor_pos = 1;
    let mut text = chars("cat");
    let mut clipboard = empty_clipboard();
    ctx.apply_command(
        &mut text,
        &mut clipboard,
        20,
        Command::MultiCommand(MultiCommand::Replace('u')),
    );
    assert_eq!(text_of(&text), "cut");
}

#[test]
fn yank_word_copies_without_deleting() {
    let mut ctx = input_context();
    let mut text = chars("hello world");
    let mut clipboard = empty_clipboard();
    ctx.apply_command(
        &mut text,
        &mut clipboard,
        20,
        Command::MultiCommand(MultiCommand::Yank(Noun::Motion(Motion::ForwardWord))),
    );
    assert_eq!(text_of(&text), "hello world");
    assert_eq!(text_of(clipboard.contents.as_ref().unwrap()), "hello ");
}

#[test]
fn movement_commands_respect_the_text_bounds() {
    let mut ctx = input_context();
    let mut text = chars("ab");
    let mut clipboard = empty_clipboard();

    ctx.apply_command(
        &mut text,
        &mut clipboard,
        20,
        Command::SingleCommand(SingleCommand::MoveLeft),
    );
    assert_eq!(ctx.cursor_pos, 0);

    ctx.apply_command(
        &mut text,
        &mut clipboard,
        20,
        Command::SingleCommand(SingleCommand::MoveRight),
    );
    ctx.apply_command(
        &mut text,
        &mut clipboard,
        20,
        Command::SingleCommand(SingleCommand::MoveRight),
    );
    ctx.apply_command(
        &mut text,
        &mut clipboard,
        20,
        Command::SingleCommand(SingleCommand::MoveRight),
    );
    assert_eq!(ctx.cursor_pos, 2);
}

#[test]
fn append_at_end_of_line_moves_to_the_end() {
    let mut ctx = input_context();
    let mut text = chars("abc");
    let mut clipboard = empty_clipboard();
    ctx.apply_command(
        &mut text,
        &mut clipboard,
        20,
        Command::SingleCommand(SingleCommand::AppendEOL),
    );
    assert_eq!(ctx.cursor_pos, 3);
    assert!(matches!(ctx.mode, Mode::Insert));
}

#[test]
fn editing_commands_do_nothing_while_messages_have_focus() {
    let mut ctx = input_context();
    ctx.focus = Focus::Messages;
    let mut text = chars("abc");
    let mut clipboard = empty_clipboard();
    ctx.apply_command(
        &mut text,
        &mut clipboard,
        20,
        Command::MultiCommand(MultiCommand::Replace('z')),
    );
    assert_eq!(text_of(&text), "abc");

    ctx.apply_command(&mut text, &mut clipboard, 20, Command::SingleCommand(SingleCommand::MoveUp));
    assert_eq!(ctx.scroll_offset, 0);
    ctx.scroll_offset = 5;
    ctx.apply_command(&mut text, &mut clipboard, 3, Command::SingleCommand(SingleCommand::MoveDown));
    assert_eq!(ctx.scroll_offset, 3);
}
