//! Pure state helpers for the terminal client.
//!
//! Rendering and event reading live outside; this module holds the
//! decisions they share: which pane has focus, visual-selection
//! arithmetic, scrolling and layout arithmetic, composing a post from
//! the input line, and merging a history range into the message list.

use vstd::prelude::*;

use crate::chat::Entry;
use crate::comms::ClientMessage;
use crate::text::{chars_to_string, copy_range, remove_range};
use crate::vim::{white_space, CommandBuffer, EditingContext, Mode};

verus! {

/// Which part of the terminal client is in focus.
#[derive(PartialEq, Eq, Structural, Clone, Copy, Debug)]
pub enum Focus {
    Messages,
    Input,
}

/// The selection between the visual anchor and the cursor, as an ordered
/// pair of bounds.
pub fn selection_bounds(anchor: usize, cursor: usize) -> (r: (usize, usize))
    ensures
        r.0 == if anchor <= cursor {
            anchor
        } else {
            cursor
        },
        r.1 == if anchor <= cursor {
            cursor
        } else {
            anchor
        },
{
    if anchor <= cursor {
        (anchor, cursor)
    } else {
        (cursor, anchor)
    }
}

/// Splits `text` for rendering with a highlighted selection: the parts
/// before, inside and after the selection. An empty or out-of-range
/// selection leaves the whole text unhighlighted.
pub fn split_selection(text: &Vec<char>, anchor: usize, cursor: usize) -> (r: (
    Vec<char>,
    Vec<char>,
    Vec<char>,
))
    ensures
        ({
            let start = if anchor <= cursor {
                anchor
            } else {
                cursor
            };
            let end = if anchor <= cursor {
                cursor
            } else {
                anchor
            };
            if start >= end || end > text@.len() {
                r.0@ == text@ && r.1@ == Seq::<char>::empty() && r.2@ == Seq::<char>::empty()
            } else {
                r.0@ == text@.take(start as int) && r.1@ == text@.subrange(
                    start as int,
                    end as int,
                ) && r.2@ == text@.skip(end as int)
            }
        }),
{
    let (start, end) = selection_bounds(anchor, cursor);
    if start >= end || end > text.len() {
        let whole = copy_range(text, 0, text.len());
        proof {
            assert(whole@ =~= text@);
        }
        return (whole, Vec::new(), Vec::new());
    }
    let before = copy_range(text, 0, start);
    let selected = copy_range(text, start, end);
    let after = copy_range(text, end, text.len());
    proof {
        assert(before@ =~= text@.take(start as int));
        assert(after@ =~= text@.skip(end as int));
    }
    (before, selected, after)
}

/// What yanking the visual selection puts on the clipboard: the selected
/// characters, or nothing for an empty or out-of-range selection.
pub fn yank_selection(text: &Vec<char>, anchor: usize, cursor: usize) -> (r: Option<Vec<char>>)
    ensures
        ({
            let start = if anchor <= cursor {
                anchor
            } else {
                cursor
            };
            let end = if anchor <= cursor {
                cursor
            } else {
                anchor
            };
            if start < end && end <= text@.len() {
                r matches Some(selected) && selected@ == text@.subrange(start as int, end as int)
            } else {
                r is None
            }
        }),
{
    let (start, end) = selection_bounds(anchor, cursor);
    if start < end && end <= text.len() {
        Some(copy_range(text, start, end))
    } else {
        None
    }
}

/// Deletes the visual selection from `text`: returns the removed
/// characters — bound for the clipboard — and the new cursor position.
/// An empty or out-of-range selection changes nothing.
pub fn delete_selection(text: &mut Vec<char>, anchor: usize, cursor: usize) -> (r: Option<(
    Vec<char>,
    usize,
)>)
    ensures
        ({
            let start = if anchor <= cursor {
                anchor
            } else {
                cursor
            };
            let end = if anchor <= cursor {
                cursor
            } else {
                anchor
            };
            if start < end && end <= old(text)@.len() {
                &&& r matches Some((removed, new_cursor)) && removed@ == old(text)@.subrange(
                    start as int,
                    end as int,
                ) && new_cursor == start
                &&& final(text)@ == old(text)@.take(start as int) + old(text)@.skip(end as int)
            } else {
                r is None && final(text)@ == old(text)@
            }
        }),
{
    let (start, end) = selection_bounds(anchor, cursor);
    if start < end && end <= text.len() {
        let removed = remove_range(text, start, end);
        Some((removed, start))
    } else {
        None
    }
}

/// Scrolls the message pane up by `lines`, stopping at the top.
pub fn scroll_up(offset: u16, lines: u16) -> (r: u16)
    ensures
        r == if offset >= lines {
            (offset - lines) as u16
        } else {
            0u16
        },
{
    if offset >= lines {
        offset - lines
    } else {
        0
    }
}

/// Scrolls the message pane down by `lines`, stopping at the last line.
pub fn scroll_down(offset: u16, total_lines: u16, lines: u16) -> (r: u16)
    ensures
        ({
            let cap = if total_lines > 0 {
                (total_lines - 1) as u16
            } else {
                0u16
            };
            r == if offset + lines <= cap {
                (offset + lines) as u16
            } else {
                cap
            }
        }),
{
    let cap = if total_lines > 0 {
        total_lines - 1
    } else {
        0
    };
    if offset <= cap && lines <= cap - offset {
        offset + lines
    } else {
        cap
    }
}

/// After sending a message: the cursor lands on the newest message and
/// the pane scrolls to the bottom.
pub fn scroll_to_bottom(messages_len: usize, messages_cursor: usize) -> (r: (usize, u16))
    ensures
        r.0 == if messages_len > 0 {
            (messages_len - 1) as usize
        } else {
            messages_cursor
        },
        r.1 == spec_saturate_u16(messages_len as int - 1),
{
    let cursor = if messages_len > 0 {
        messages_len - 1
    } else {
        messages_cursor
    };
    let offset = if messages_len == 0 {
        0
    } else if messages_len - 1 >= 65535 {
        65535
    } else {
        (messages_len - 1) as u16
    };
    (cursor, offset)
}

/// A nonnegative count squeezed into a `u16`.
pub open spec fn spec_saturate_u16(n: int) -> u16 {
    if n <= 0 {
        0u16
    } else if n >= 65535 {
        65535u16
    } else {
        n as u16
    }
}

/// Keeps the message cursor on an existing message.
pub fn clamp_messages_cursor(messages_cursor: usize, messages_len: usize) -> (r: usize)
    ensures
        r == if messages_cursor >= messages_len {
            if messages_len > 0 {
                (messages_len - 1) as usize
            } else {
                0usize
            }
        } else {
            messages_cursor
        },
{
    if messages_cursor >= messages_len {
        if messages_len > 0 {
            messages_len - 1
        } else {
            0
        }
    } else {
        messages_cursor
    }
}

/// Keeps the scroll offset within range and the selected message on
/// screen: at most the greatest useful offset, and adjusted until the
/// cursor's line lies inside the pane's `inner_height` rows.
pub fn clamp_message_scroll(
    scroll: u16,
    messages_cursor: usize,
    total_lines: u16,
    inner_height: u16,
) -> (r: u16)
    ensures
        ({
            let max_scroll = if total_lines >= inner_height {
                (total_lines - inner_height) as u16
            } else {
                0u16
            };
            let clamped = if scroll <= max_scroll {
                scroll
            } else {
                max_scroll
            };
            let cursor_line = spec_saturate_u16(messages_cursor as int);
            r == if cursor_line < clamped {
                cursor_line
            } else if cursor_line >= clamped + inner_height {
                (if inner_height >= 1 && cursor_line >= inner_height - 1 {
                    (cursor_line - (inner_height - 1)) as u16
                } else {
                    0u16
                })
            } else {
                clamped
            }
        }),
{
    let max_scroll = if total_lines >= inner_height {
        total_lines - inner_height
    } else {
        0
    };
    let clamped = if scroll <= max_scroll {
        scroll
    } else {
        max_scroll
    };
    let cursor_line = if messages_cursor >= 65535 {
        65535
    } else {
        messages_cursor as u16
    };
    if cursor_line < clamped {
        cursor_line
    } else if cursor_line as u32 >= clamped as u32 + inner_height as u32 {
        if inner_height >= 1 && cursor_line >= inner_height - 1 {
            cursor_line - (inner_height - 1)
        } else {
            0
        }
    } else {
        clamped
    }
}

/// Where the scrollbar thumb sits for the current scroll position.
pub fn thumb_position(scroll: u16, scrollbar_inner_height: u16, max_scroll: u16) -> (r: u16)
    requires
        scroll <= max_scroll,
    ensures
        max_scroll == 0 ==> r == 0,
        max_scroll > 0 ==> r == (scroll * scrollbar_inner_height / (max_scroll as int)) as u16,
{
    if max_scroll == 0 {
        0
    } else {
        let scroll32: u32 = scroll as u32;
        let height32: u32 = scrollbar_inner_height as u32;
        proof {
            assert(scroll32 * height32 <= 65535 * 65535) by (nonlinear_arith)
                requires
                    scroll32 <= 65535,
                    height32 <= 65535,
            ;
        }
        let wide: u32 = scroll32 * height32 / max_scroll as u32;
        proof {
            assert(scroll * scrollbar_inner_height <= max_scroll * scrollbar_inner_height)
                by (nonlinear_arith)
                requires
                    scroll <= max_scroll,
                    scrollbar_inner_height >= 0,
            ;
            assert(max_scroll * scrollbar_inner_height / (max_scroll as int)
                == scrollbar_inner_height) by (nonlinear_arith)
                requires
                    max_scroll > 0,
            ;
            assert(scroll * scrollbar_inner_height / (max_scroll as int)
                <= max_scroll * scrollbar_inner_height / (max_scroll as int)) by (nonlinear_arith)
                requires
                    max_scroll > 0,
                    scroll * scrollbar_inner_height <= max_scroll * scrollbar_inner_height,
            ;
        }
        wide as u16
    }
}

/// The width left for text in the input box once borders and the mode
/// indicator are taken out.
pub fn available_text_width(width: u16) -> (r: u16)
    ensures
        r == if width > 5 {
            (width - 5) as u16
        } else {
            1u16
        },
        r >= 1,
{
    if width > 5 {
        width - 5
    } else {
        1
    }
}

/// How many wrapped lines the input takes at the given text width.
pub fn input_line_count(input_len: usize, width: u16) -> (r: u16)
    requires
        width > 0,
    ensures
        input_len == 0 ==> r == 1,
        input_len > 0 ==> r == ((spec_saturate_u16(input_len as int) + width - 1) as int / (
        width as int)) as u16,
{
    if input_len == 0 {
        return 1;
    }
    let len16: u16 = if input_len >= 65535 {
        65535
    } else {
        input_len as u16
    };
    let wide: u32 = (len16 as u32 + width as u32 - 1) / width as u32;
    proof {
        assert((len16 + width - 1) as int / (width as int) <= 65535 + 1) by (nonlinear_arith)
            requires
                width > 0,
                len16 <= 65535,
                width <= 65535,
        ;
    }
    wide as u16
}

/// The height of the input box: the wrapped lines plus borders, at least
/// three rows.
pub fn input_box_height(line_count: u16) -> (r: u16)
    requires
        line_count <= 65533,
    ensures
        r == if line_count + 2 >= 3 {
            (line_count + 2) as int
        } else {
            3int
        },
{
    let required = line_count + 2;
    if required >= 3 {
        required
    } else {
        3
    }
}

/// The cell the cursor occupies inside the input box.
pub fn input_cursor_cell(cursor_pos: usize, width: u16) -> (r: (u16, u16))
    ensures
        width == 0 ==> r == (0u16, 0u16),
        width > 0 ==> r.0 == spec_saturate_u16(cursor_pos as int / width as int) && r.1 == (
        cursor_pos as int % width as int) as u16,
{
    if width == 0 {
        (0, 0)
    } else {
        let line = cursor_pos / width as usize;
        let column = cursor_pos % width as usize;
        let line16: u16 = if line >= 65535 {
            65535
        } else {
            line as u16
        };
        (line16, column as u16)
    }
}

/// The text of the little mode indicator beside the input box: the mode's
/// letter, or up to two pending keystrokes padded to four columns.
pub fn mode_indicator_text(mode: Mode, buffer: &CommandBuffer) -> (r: Vec<char>)
    ensures
        mode is Insert ==> r@ == seq![' ', 'I', ' '],
        mode is Normal && buffer@.len() == 0 ==> r@ == seq![' ', 'N', ' '],
        mode is Normal && buffer@.len() == 1 ==> r@ == seq![buffer@[0], ' ', ' ', ' '],
        mode is Normal && buffer@.len() >= 2 ==> r@ == seq![buffer@[0], buffer@[1], ' ', ' '],
{
    let mut indicator: Vec<char> = Vec::new();
    match mode {
        Mode::Insert => {
            indicator.push(' ');
            indicator.push('I');
            indicator.push(' ');
            proof {
                assert(indicator@ =~= seq![' ', 'I', ' ']);
            }
        },
        Mode::Normal => {
            if buffer.is_empty() {
                indicator.push(' ');
                indicator.push('N');
                indicator.push(' ');
                proof {
                    assert(indicator@ =~= seq![' ', 'N', ' ']);
                }
            } else {
                indicator.push(buffer.current());
                match buffer.peek(1) {
                    Some(second) => {
                        indicator.push(second);
                        indicator.push(' ');
                        indicator.push(' ');
                        proof {
                            assert(indicator@ =~= seq![buffer@[0], buffer@[1], ' ', ' ']);
                        }
                    },
                    None => {
                        indicator.push(' ');
                        indicator.push(' ');
                        indicator.push(' ');
                        proof {
                            assert(indicator@ =~= seq![buffer@[0], ' ', ' ', ' ']);
                        }
                    },
                }
            }
        },
    }
    indicator
}

/// The input with leading whitespace removed.
pub open spec fn spec_trim_start(s: Seq<char>) -> Seq<char>
    decreases s.len(),
{
    if s.len() > 0 && white_space(s[0]) {
        spec_trim_start(s.drop_first())
    } else {
        s
    }
}

/// The input with trailing whitespace removed.
pub open spec fn spec_trim_end(s: Seq<char>) -> Seq<char>
    decreases s.len(),
{
    if s.len() > 0 && white_space(s.last()) {
        spec_trim_end(s.drop_last())
    } else {
        s
    }
}

/// The input with surrounding whitespace removed.
pub open spec fn spec_trim(s: Seq<char>) -> Seq<char> {
    spec_trim_end(spec_trim_start(s))
}

/// Strips surrounding whitespace from the input line.
fn trim_chars(input: &Vec<char>) -> (r: Vec<char>)
    ensures
        r@ == spec_trim(input@),
{
    let mut start: usize = 0;
    proof {
        assert(input@.skip(0) =~= input@);
    }
    while start < input.len() && input[start].is_whitespace()
        invariant
            start <= input@.len(),
            spec_trim_start(input@) == spec_trim_start(input@.skip(start as int)),
        decreases input@.len() - start,
    {
        proof {
            assert(input@.skip(start as int).drop_first() =~= input@.skip(start + 1));
        }
        start = start + 1;
    }
    proof {
        if start < input@.len() {
            assert(spec_trim_start(input@.skip(start as int)) == input@.skip(start as int));
        } else {
            assert(input@.skip(start as int) =~= Seq::<char>::empty());
        }
    }
    let mut end: usize = input.len();
    while end > start && input[end - 1].is_whitespace()
        invariant
            start <= end <= input@.len(),
            spec_trim_end(input@.skip(start as int)) == spec_trim_end(
                input@.subrange(start as int, end as int),
            ),
        decreases end,
    {
        proof {
            assert(input@.subrange(start as int, end as int).drop_last() =~= input@.subrange(
                start as int,
                end - 1,
            ));
            assert(input@.subrange(start as int, end as int).last() == input@[end - 1]);
        }
        end = end - 1;
    }
    proof {
        assert(input@.skip(start as int) =~= input@.subrange(start as int, input@.len() as int));
        if end > start {
            assert(spec_trim_end(input@.subrange(start as int, end as int)) == input@.subrange(
                start as int,
                end as int,
            ));
        } else {
            assert(input@.subrange(start as int, end as int) =~= Seq::<char>::empty());
        }
    }
    copy_range(input, start, end)
}

/// Builds the post for the current input line: the trimmed text under
/// the given author, or nothing when only whitespace was typed.
pub fn compose_post(input: &Vec<char>, username: &String) -> (r: Option<ClientMessage>)
    ensures
        spec_trim(input@).len() == 0 ==> r is None,
        spec_trim(input@).len() > 0 ==> (r matches Some(message) && (message matches
            ClientMessage::Post { username: author, content } && author@ == username@ && content@
            == spec_trim(input@))),
{
    let trimmed = trim_chars(input);
    if trimmed.len() == 0 {
        None
    } else {
        let content = chars_to_string(&trimmed);
        Some(ClientMessage::Post { username: username.clone(), content })
    }
}

/// The position a history range is spliced in at: the first message
/// carrying the range's first slot, or the very front when none does.
pub open spec fn spec_find_slot(messages: Seq<Entry>, slot: usize) -> Option<int>
    decreases messages.len(),
{
    if messages.len() == 0 {
        None
    } else if messages[0].slot_number == slot {
        Some(0int)
    } else {
        match spec_find_slot(messages.drop_first(), slot) {
            Some(i) => Some(i + 1),
            None => None,
        }
    }
}

/// Where `merge_entry_range` splices a range whose first slot is `slot`.
pub open spec fn spec_insertion_point(messages: Seq<Entry>, slot: usize) -> int {
    match spec_find_slot(messages, slot) {
        Some(i) => i,
        None => 0,
    }
}

proof fn lemma_find_slot_scan(messages: Seq<Entry>, slot: usize, i: int)
    requires
        0 <= i <= messages.len(),
        forall|k: int| 0 <= k < i ==> (#[trigger] messages[k]).slot_number != slot,
    ensures
        i < messages.len() && messages[i].slot_number == slot ==> spec_find_slot(messages, slot)
            == Some(i),
        i == messages.len() ==> spec_find_slot(messages, slot) is None,
    decreases i,
{
    if i == 0 {
        if messages.len() > 0 && messages[0].slot_number == slot {
        }
    } else {
        assert(messages[0].slot_number != slot);
        assert forall|k: int| 0 <= k < i - 1 implies (#[trigger] messages.drop_first()[k]).slot_number
            != slot by {
            assert(messages.drop_first()[k] == messages[k + 1]);
        }
        lemma_find_slot_scan(messages.drop_first(), slot, i - 1);
        if i < messages.len() {
            assert(messages.drop_first()[i - 1] == messages[i]);
        }
    }
}

/// Splices a received history range into the message list, in front of
/// the message already carrying the range's first slot — or at the very
/// front when no message does. An empty range changes nothing.
pub fn merge_entry_range(messages: &mut Vec<Entry>, entries: Vec<Entry>)
    requires
        old(messages)@.len() + entries@.len() <= usize::MAX,
    ensures
        entries@.len() == 0 ==> final(messages)@ == old(messages)@,
        entries@.len() > 0 ==> ({
            let at = spec_insertion_point(old(messages)@, entries@[0].slot_number);
            final(messages)@ == old(messages)@.take(at) + entries@ + old(messages)@.skip(at)
        }),
{
    if entries.len() == 0 {
        return ;
    }
    let slot = entries[0].slot_number;
    let ghost original = messages@;
    let mut insertion_point: usize = 0;
    let mut found = false;
    let mut i: usize = 0;
    while i < messages.len() && !found
        invariant
            messages@ == original,
            i <= original.len(),
            !found ==> forall|k: int| 0 <= k < i ==> (#[trigger] original[k]).slot_number != slot,
            !found ==> insertion_point == 0,
            found ==> i < original.len() && original[i as int].slot_number == slot
                && insertion_point == i && (forall|k: int|
                0 <= k < i ==> (#[trigger] original[k]).slot_number != slot),
        decreases original.len() - i, (if found { 0int } else { 1int }),
    {
        if messages[i].slot_number == slot {
            insertion_point = i;
            found = true;
        } else {
            i = i + 1;
        }
    }
    proof {
        if found {
            lemma_find_slot_scan(original, slot, i as int);
            assert(spec_insertion_point(original, slot) == i);
        } else {
            lemma_find_slot_scan(original, slot, original.len() as int);
            assert(spec_insertion_point(original, slot) == 0);
        }
    }
    let mut remaining = entries;
    let ghost incoming = remaining@;
    let mut placed: usize = 0;
    while remaining.len() > 0
        invariant
            insertion_point + incoming.len() <= usize::MAX,
            original.len() + incoming.len() <= usize::MAX,
            insertion_point <= original.len(),
            placed + remaining@.len() == incoming.len(),
            remaining@ == incoming.skip(placed as int),
            messages@ == original.take(insertion_point as int) + incoming.take(placed as int)
                + original.skip(insertion_point as int),
        decreases remaining@.len(),
    {
        let next = remaining.remove(0);
        proof {
            assert(incoming.skip(placed as int)[0] == incoming[placed as int]);
            assert(remaining@ =~= incoming.skip(placed + 1));
        }
        assert(messages@.len() == original.len() + placed);
        messages.insert(insertion_point + placed, next);
        proof {
            assert(messages@ =~= original.take(insertion_point as int) + incoming.take(placed + 1)
                + original.skip(insertion_point as int));
        }
        placed = placed + 1;
    }
    proof {
        assert(incoming.take(incoming.len() as int) =~= incoming);
        assert(messages@ =~= original.take(insertion_point as int) + incoming + original.skip(
            insertion_point as int,
        ));
    }
}

/// A keystroke as the insert-mode editor sees it.
#[derive(PartialEq, Eq, Structural, Clone, Copy, Debug)]
pub enum InsertKey {
    Escape,
    Left,
    Right,
    Enter,
    Backspace,
    Char(char),
    Other,
}

/// Applies one insert-mode keystroke to the input line: escape returns
/// to normal mode, arrows move within the line, backspace deletes before
/// the cursor, a character is inserted at it. The result says whether
/// the keystroke asks for the input to be submitted.
pub fn insert_mode_key(ctx: &mut EditingContext, input: &mut Vec<char>, key: InsertKey) -> (submit:
    bool)
    requires
        old(ctx).cursor_pos <= old(input)@.len(),
        old(input)@.len() < usize::MAX,
    ensures
        submit == (key is Enter),
        final(ctx).cursor_pos <= final(input)@.len(),
        match key {
            InsertKey::Escape => *final(ctx) == (EditingContext { mode: Mode::Normal, ..*old(ctx) })
                && final(input)@ == old(input)@,
            InsertKey::Left => *final(ctx) == (EditingContext {
                cursor_pos: if old(ctx).cursor_pos > 0 {
                    (old(ctx).cursor_pos - 1) as usize
                } else {
                    0usize
                },
                ..*old(ctx)
            }) && final(input)@ == old(input)@,
            InsertKey::Right => *final(ctx) == (EditingContext {
                cursor_pos: if old(ctx).cursor_pos < old(input)@.len() {
                    (old(ctx).cursor_pos + 1) as usize
                } else {
                    old(ctx).cursor_pos
                },
                ..*old(ctx)
            }) && final(input)@ == old(input)@,
            InsertKey::Enter => *final(ctx) == *old(ctx) && final(input)@ == old(input)@,
            InsertKey::Backspace => {
                if old(ctx).cursor_pos > 0 {
                    *final(ctx) == (EditingContext {
                        cursor_pos: (old(ctx).cursor_pos - 1) as usize,
                        ..*old(ctx)
                    }) && final(input)@ == old(input)@.take(old(ctx).cursor_pos - 1) + old(
                        input,
                    )@.skip(old(ctx).cursor_pos as int)
                } else {
                    *final(ctx) == *old(ctx) && final(input)@ == old(input)@
                }
            },
            InsertKey::Char(typed) => *final(ctx) == (EditingContext {
                cursor_pos: (old(ctx).cursor_pos + 1) as usize,
                ..*old(ctx)
            }) && final(input)@ == old(input)@.take(old(ctx).cursor_pos as int) + seq![typed] + old(
                input,
            )@.skip(old(ctx).cursor_pos as int),
            InsertKey::Other => *final(ctx) == *old(ctx) && final(input)@ == old(input)@,
        },
{
    match key {
        InsertKey::Escape => {
            ctx.mode = Mode::Normal;
            false
        },
        InsertKey::Left => {
            if ctx.cursor_pos > 0 {
                ctx.cursor_pos = ctx.cursor_pos - 1;
            }
            false
        },
        InsertKey::Right => {
            if ctx.cursor_pos < input.len() {
                ctx.cursor_pos = ctx.cursor_pos + 1;
            }
            false
        },
        InsertKey::Enter => true,
        InsertKey::Backspace => {
            if ctx.cursor_pos > 0 {
                ctx.cursor_pos = ctx.cursor_pos - 1;
                let _removed = input.remove(ctx.cursor_pos);
                proof {
                    assert(input@ =~= old(input)@.take(old(ctx).cursor_pos - 1) + old(
                        input,
                    )@.skip(old(ctx).cursor_pos as int));
                }
            }
            false
        },
        InsertKey::Char(typed) => {
            input.insert(ctx.cursor_pos, typed);
            ctx.cursor_pos = ctx.cursor_pos + 1;
            proof {
                assert(input@ =~= old(input)@.take(old(ctx).cursor_pos as int) + seq![typed] + old(
                    input,
                )@.skip(old(ctx).cursor_pos as int));
            }
            false
        },
        InsertKey::Other => false,
    }
}

/// Composes the post for the current input line and clears the line:
/// the trimmed text under the given author, or nothing when only
/// whitespace was typed. The cursor returns to the start either way.
pub fn take_composed_post(
    ctx: &mut EditingContext,
    input: &mut Vec<char>,
    username: &String,
) -> (r: Option<ClientMessage>)
    ensures
        final(input)@ =~= Seq::<char>::empty(),
        *final(ctx) == (EditingContext { cursor_pos: 0usize, ..*old(ctx) }),
        spec_trim(old(input)@).len() == 0 ==> r is None,
        spec_trim(old(input)@).len() > 0 ==> (r matches Some(message) && (message matches
            ClientMessage::Post { username: author, content } && author@ == username@ && content@
            == spec_trim(old(input)@))),
{
    let message = compose_post(input, username);
    input.clear();
    ctx.cursor_pos = 0;
    message
}

/// Moves the message-pane cursor down one message; stepping past the
/// last message hands focus to the input line. Outside the message pane
/// nothing changes.
pub fn pane_cursor_down(ctx: &mut EditingContext, messages_cursor: &mut usize, messages_len: usize)
    requires
        *old(messages_cursor) < usize::MAX,
    ensures
        old(ctx).focus is Messages && *old(messages_cursor) + 1 < messages_len ==> *final(ctx)
            == *old(ctx) && *final(messages_cursor) == *old(messages_cursor) + 1,
        old(ctx).focus is Messages && *old(messages_cursor) + 1 >= messages_len ==> *final(ctx) == (
        EditingContext { focus: Focus::Input, cursor_pos: 0usize, ..*old(ctx) })
            && *final(messages_cursor) == *old(messages_cursor),
        old(ctx).focus is Input ==> *final(ctx) == *old(ctx) && *final(messages_cursor) == *old(
            messages_cursor,
        ),
{
    if ctx.focus == Focus::Messages {
        if *messages_cursor + 1 < messages_len {
            *messages_cursor = *messages_cursor + 1;
        } else {
            ctx.focus = Focus::Input;
            ctx.cursor_pos = 0;
        }
    }
}

/// Moves the message-pane cursor up one message; from the input line it
/// instead hands focus to the message pane, on the newest message.
pub fn pane_cursor_up(ctx: &mut EditingContext, messages_cursor: &mut usize, messages_len: usize)
    ensures
        old(ctx).focus is Messages ==> *final(ctx) == *old(ctx) && *final(messages_cursor) == (
        if *old(messages_cursor) > 0 {
            (*old(messages_cursor) - 1) as usize
        } else {
            0usize
        }),
        old(ctx).focus is Input ==> *final(ctx) == (EditingContext {
            focus: Focus::Messages,
            ..*old(ctx)
        }) && *final(messages_cursor) == (if messages_len > 0 {
            (messages_len - 1) as usize
        } else {
            *old(messages_cursor)
        }),
{
    if ctx.focus == Focus::Messages {
        if *messages_cursor > 0 {
            *messages_cursor = *messages_cursor - 1;
        }
    } else {
        if messages_len > 0 {
            *messages_cursor = messages_len - 1;
        }
        ctx.focus = Focus::Messages;
    }
}

} // verus!
