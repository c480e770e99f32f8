//! The modal editor engine of the terminal client.
//!
//! Keystrokes collect in a `CommandBuffer` until they parse as a
//! `Command`; `EditingContext::apply_command` then applies the command to
//! the text being edited. Text is handled as a vector of characters, the
//! cursor as a character index. The system clipboard is an external
//! collaborator: the editor works on a plain `Clipboard` value, and the
//! caller syncs that value with the real clipboard around each command.

use vstd::prelude::*;

use crate::text::{copy_range, insert_range, remove_range};
use crate::tui::Focus;

verus! {

/// The editor's modes.
#[derive(PartialEq, Eq, Structural, Clone, Copy, Debug)]
pub enum Mode {
    Insert,
    Normal,
}

/// Single-keystroke commands, e.g. `i`, `x`, `w`.
#[derive(PartialEq, Eq, Structural, Clone, Copy, Debug)]
pub enum SingleCommand {
    Insert,
    Append,
    InsertSOL,
    AppendEOL,
    DeleteCharUnderCursor,
    MoveLeft,
    MoveRight,
    MoveUp,
    MoveDown,
    ForwardWord,
    ForwardBigWord,
    BackwardWord,
    BackwardBigWord,
    Paste,
    StartFile,
    EndFile,
}

/// A movement over the text, e.g. `w`, `b`, `h`.
#[derive(PartialEq, Eq, Structural, Clone, Copy, Debug)]
pub enum Motion {
    Left,
    Right,
    Up,
    Down,
    ForwardWord,
    ForwardBigWord,
    BackwardWord,
    BackwardBigWord,
    StartFile,
    EndFile,
}

/// The object an operator acts on (e.g. the `w` of `dw`, the `iw` of
/// `ciw`).
#[derive(PartialEq, Eq, Structural, Clone, Copy, Debug)]
pub enum Noun {
    Motion(Motion),
    InnerWord,
    InnerBigWord,
    Word,
    BigWord,
    Sentence,
    Parentheses,
    Braces,
    Angles,
    Apostrophes,
    Quotes,
    Backtick,
}

/// An operator, possibly embedding the noun it acts on.
#[derive(PartialEq, Eq, Structural, Clone, Copy, Debug)]
pub enum MultiCommand {
    Delete(Noun),
    Change(Noun),
    ChangeEOL,
    Replace(char),
    Yank(Noun),
}

/// A parsed command: one keystroke, or operator plus object.
#[derive(PartialEq, Eq, Structural, Clone, Copy, Debug)]
pub enum Command {
    SingleCommand(SingleCommand),
    MultiCommand(MultiCommand),
}

/// The editor's view of the system clipboard: present contents, or
/// nothing when the clipboard is empty or unreadable.
pub struct Clipboard {
    pub contents: Option<Vec<char>>,
}

impl View for Clipboard {
    type V = Option<Seq<char>>;

    open spec fn view(&self) -> Option<Seq<char>> {
        match self.contents {
            Some(text) => Some(text@),
            None => None,
        }
    }
}

/// Pending keystrokes, parsed from the front.
pub struct CommandBuffer {
    chars: Vec<char>,
}

impl View for CommandBuffer {
    type V = Seq<char>;

    closed spec fn view(&self) -> Seq<char> {
        self.chars@
    }
}

impl Default for CommandBuffer {
    fn default() -> (r: Self)
        ensures
            r@ =~= Seq::<char>::empty(),
    {
        Self { chars: Vec::new() }
    }
}

/// The single-keystroke command a character means, if any.
pub open spec fn spec_single_command(c: char) -> Option<SingleCommand> {
    match c {
        'i' => Some(SingleCommand::Insert),
        'I' => Some(SingleCommand::InsertSOL),
        'a' => Some(SingleCommand::Append),
        'A' => Some(SingleCommand::AppendEOL),
        'h' => Some(SingleCommand::MoveLeft),
        'l' => Some(SingleCommand::MoveRight),
        'j' => Some(SingleCommand::MoveDown),
        'k' => Some(SingleCommand::MoveUp),
        'w' => Some(SingleCommand::ForwardWord),
        'W' => Some(SingleCommand::ForwardBigWord),
        'b' => Some(SingleCommand::BackwardWord),
        'B' => Some(SingleCommand::BackwardBigWord),
        'x' => Some(SingleCommand::DeleteCharUnderCursor),
        'p' => Some(SingleCommand::Paste),
        '0' => Some(SingleCommand::StartFile),
        '$' => Some(SingleCommand::EndFile),
        _ => None,
    }
}

/// The noun starting at the second pending character, with how many
/// characters it spans.
pub open spec fn spec_noun(s: Seq<char>) -> Option<(Noun, int)> {
    if s.len() < 2 {
        None
    } else {
        match s[1] {
            'w' => Some((Noun::Motion(Motion::ForwardWord), 1int)),
            'W' => Some((Noun::Motion(Motion::ForwardBigWord), 1int)),
            'b' => Some((Noun::Motion(Motion::BackwardWord), 1int)),
            'B' => Some((Noun::Motion(Motion::BackwardBigWord), 1int)),
            'h' => Some((Noun::Motion(Motion::Left), 1int)),
            'l' => Some((Noun::Motion(Motion::Right), 1int)),
            'j' => Some((Noun::Motion(Motion::Down), 1int)),
            'k' => Some((Noun::Motion(Motion::Up), 1int)),
            'i' => {
                if s.len() < 3 {
                    None
                } else {
                    match s[2] {
                        'w' => Some((Noun::InnerWord, 2int)),
                        'W' => Some((Noun::InnerBigWord, 2int)),
                        's' => Some((Noun::Sentence, 2int)),
                        '(' | ')' => Some((Noun::Parentheses, 2int)),
                        '[' | ']' => Some((Noun::Braces, 2int)),
                        '{' | '}' => Some((Noun::Braces, 2int)),
                        '<' | '>' => Some((Noun::Angles, 2int)),
                        '\'' => Some((Noun::Apostrophes, 2int)),
                        '"' => Some((Noun::Quotes, 2int)),
                        '`' => Some((Noun::Backtick, 2int)),
                        _ => None,
                    }
                }
            },
            _ => None,
        }
    }
}

/// The operator command at the front of the pending keystrokes, with how
/// many characters it consumes.
pub open spec fn spec_multi_command(s: Seq<char>) -> Option<(MultiCommand, int)> {
    if s.len() == 0 {
        None
    } else {
        match s[0] {
            'C' => Some((MultiCommand::ChangeEOL, 2int)),
            'r' | 'R' => {
                if s.len() >= 2 {
                    Some((MultiCommand::Replace(s[1]), 2int))
                } else {
                    None
                }
            },
            _ => {
                match spec_noun(s) {
                    None => None,
                    Some((noun, noun_len)) => {
                        match s[0] {
                            'd' => Some((MultiCommand::Delete(noun), noun_len + 1)),
                            'c' => Some((MultiCommand::Change(noun), noun_len + 1)),
                            'y' => Some((MultiCommand::Yank(Noun::Word), noun_len + 1)),
                            _ => None,
                        }
                    },
                }
            },
        }
    }
}

/// What `CommandBuffer::parse` recognises at the front of the pending
/// keystrokes, with how many characters it consumes.
pub open spec fn spec_parse(s: Seq<char>) -> Option<(Command, int)> {
    if s.len() == 0 {
        None
    } else if spec_single_command(s[0]) is Some {
        Some((Command::SingleCommand(spec_single_command(s[0])->0), 1int))
    } else {
        match spec_multi_command(s) {
            Some((multi, consumed)) => Some((Command::MultiCommand(multi), consumed)),
            None => None,
        }
    }
}

impl CommandBuffer {
    /// Whether no keystrokes are pending.
    pub fn is_empty(&self) -> (r: bool)
        ensures
            r == (self@.len() == 0),
    {
        self.chars.is_empty()
    }

    /// Appends one keystroke.
    pub fn push(&mut self, input: char)
        requires
            old(self)@.len() < usize::MAX,
        ensures
            final(self)@ == old(self)@.push(input),
    {
        self.chars.push(input);
    }

    /// Discards all pending keystrokes.
    pub fn clear(&mut self)
        ensures
            final(self)@ =~= Seq::<char>::empty(),
    {
        self.chars.clear();
    }

    /// The pending keystrokes, oldest first.
    pub fn as_slice(&self) -> (r: &[char])
        ensures
            r@ == self@,
    {
        self.chars.as_slice()
    }

    /// The oldest pending keystroke.
    pub fn current(&self) -> (r: char)
        requires
            self@.len() > 0,
        ensures
            r == self@[0],
    {
        self.chars[0]
    }

    /// The `ahead`th pending keystroke, counting from the current one.
    pub fn peek(&self, ahead: usize) -> (r: Option<char>)
        ensures
            ahead < self@.len() ==> r == Some(self@[ahead as int]),
            ahead >= self@.len() ==> r is None,
    {
        if ahead < self.chars.len() {
            Some(self.chars[ahead])
        } else {
            None
        }
    }

    /// Drops up to `count` keystrokes from the front.
    pub fn advance(&mut self, count: usize)
        ensures
            final(self)@ == old(self)@.skip(
                if count <= old(self)@.len() {
                    count as int
                } else {
                    old(self)@.len() as int
                },
            ),
    {
        let mut taken: usize = 0;
        while taken < count && self.chars.len() > 0
            invariant
                taken <= count,
                self@ == old(self)@.skip(
                    if taken <= old(self)@.len() {
                        taken as int
                    } else {
                        old(self)@.len() as int
                    },
                ),
            decreases count - taken,
        {
            let _ = self.chars.remove(0);
            proof {
                assert(self@ =~= old(self)@.skip(taken + 1 as int));
            }
            taken = taken + 1;
        }
        proof {
            if taken < count {
                assert(self@.len() == 0);
                assert(self@ =~= old(self)@.skip(old(self)@.len() as int));
            }
        }
    }

    /// Parses and consumes one command from the front of the pending
    /// keystrokes; keystrokes that parse as nothing stay pending.
    pub fn parse(&mut self) -> (r: Option<Command>)
        ensures
            match spec_parse(old(self)@) {
                None => r is None && final(self)@ == old(self)@,
                Some((command, consumed)) => r == Some(command) && final(self)@ == old(self)@.skip(
                    if consumed <= old(self)@.len() {
                        consumed
                    } else {
                        old(self)@.len() as int
                    },
                ),
            },
    {
        if self.is_empty() {
            return None;
        }
        if let Some(single_command) = self.parse_single_command() {
            self.advance(1);
            Some(Command::SingleCommand(single_command))
        } else if let Some((multi_command, length)) = self.parse_multi_command() {
            self.advance(length);
            Some(Command::MultiCommand(multi_command))
        } else {
            None
        }
    }

    /// The single-keystroke command the current keystroke means, if any.
    pub fn parse_single_command(&self) -> (r: Option<SingleCommand>)
        requires
            self@.len() > 0,
        ensures
            r == spec_single_command(self@[0]),
    {
        match self.current() {
            'i' => Some(SingleCommand::Insert),
            'I' => Some(SingleCommand::InsertSOL),
            'a' => Some(SingleCommand::Append),
            'A' => Some(SingleCommand::AppendEOL),
            'h' => Some(SingleCommand::MoveLeft),
            'l' => Some(SingleCommand::MoveRight),
            'j' => Some(SingleCommand::MoveDown),
            'k' => Some(SingleCommand::MoveUp),
            'w' => Some(SingleCommand::ForwardWord),
            'W' => Some(SingleCommand::ForwardBigWord),
            'b' => Some(SingleCommand::BackwardWord),
            'B' => Some(SingleCommand::BackwardBigWord),
            'x' => Some(SingleCommand::DeleteCharUnderCursor),
            'p' => Some(SingleCommand::Paste),
            '0' => Some(SingleCommand::StartFile),
            '$' => Some(SingleCommand::EndFile),
            _ => None,
        }
    }

    /// The operator command at the front of the pending keystrokes, with
    /// how many characters it consumes.
    pub fn parse_multi_command(&self) -> (r: Option<(MultiCommand, usize)>)
        requires
            self@.len() > 0,
        ensures
            match spec_multi_command(self@) {
                None => r is None,
                Some((multi, consumed)) => r matches Some((m, c)) && m == multi && c == consumed,
            },
    {
        match self.current() {
            // A single operator that needs no noun.
            'C' => Some((MultiCommand::ChangeEOL, 2)),
            // `r` takes the next character as the replacement, like `rX`.
            'r' | 'R' => {
                match self.peek(1) {
                    Some(replacement) => Some((MultiCommand::Replace(replacement), 2)),
                    None => None,
                }
            },
            // Operators that require a noun.
            _ => self.parse_multi_command_with_noun(),
        }
    }

    /// An operator followed by its noun, with how many characters the
    /// pair consumes.
    pub fn parse_multi_command_with_noun(&self) -> (r: Option<(MultiCommand, usize)>)
        requires
            self@.len() > 0,
        ensures
            match self@[0] {
                'd' | 'c' | 'y' => {
                    match spec_noun(self@) {
                        None => r is None,
                        Some((noun, noun_len)) => r matches Some((m, c)) && c == noun_len + 1
                            && m == (match self@[0] {
                            'd' => MultiCommand::Delete(noun),
                            'c' => MultiCommand::Change(noun),
                            _ => MultiCommand::Yank(Noun::Word),
                        }),
                    }
                },
                _ => r is None,
            },
    {
        let parsed_noun = self.peek_noun();
        let (noun, noun_length) = match parsed_noun {
            Some(pair) => pair,
            None => {
                return None;
            },
        };
        match self.current() {
            'd' => Some((MultiCommand::Delete(noun), noun_length + 1)),
            'c' => Some((MultiCommand::Change(noun), noun_length + 1)),
            'y' => Some((MultiCommand::Yank(Noun::Word), noun_length + 1)),
            _ => None,
        }
    }

    /// The noun starting at the second pending keystroke, with how many
    /// characters it spans.
    pub fn peek_noun(&self) -> (r: Option<(Noun, usize)>)
        ensures
            match spec_noun(self@) {
                None => r is None,
                Some((noun, noun_len)) => r matches Some((n, l)) && n == noun && l == noun_len,
            },
    {
        let second = match self.peek(1) {
            Some(c) => c,
            None => {
                return None;
            },
        };
        match second {
            'w' => Some((Noun::Motion(Motion::ForwardWord), 1)),
            'W' => Some((Noun::Motion(Motion::ForwardBigWord), 1)),
            'b' => Some((Noun::Motion(Motion::BackwardWord), 1)),
            'B' => Some((Noun::Motion(Motion::BackwardBigWord), 1)),
            'h' => Some((Noun::Motion(Motion::Left), 1)),
            'l' => Some((Noun::Motion(Motion::Right), 1)),
            'j' => Some((Noun::Motion(Motion::Down), 1)),
            'k' => Some((Noun::Motion(Motion::Up), 1)),
            'i' => {
                let third = match self.peek(2) {
                    Some(c) => c,
                    None => {
                        return None;
                    },
                };
                match third {
                    'w' => Some((Noun::InnerWord, 2)),
                    'W' => Some((Noun::InnerBigWord, 2)),
                    's' => Some((Noun::Sentence, 2)),
                    '(' | ')' => Some((Noun::Parentheses, 2)),
                    '[' | ']' => Some((Noun::Braces, 2)),
                    '{' | '}' => Some((Noun::Braces, 2)),
                    '<' | '>' => Some((Noun::Angles, 2)),
                    '\'' => Some((Noun::Apostrophes, 2)),
                    '"' => Some((Noun::Quotes, 2)),
                    '`' => Some((Noun::Backtick, 2)),
                    _ => None,
                }
            },
            _ => None,
        }
    }
}

/// The editor's state apart from the text itself.
#[derive(PartialEq, Eq, Structural, Clone, Copy, Debug)]
pub struct EditingContext {
    pub mode: Mode,
    pub focus: Focus,
    pub cursor_pos: usize,
    pub scroll_offset: u16,
}

impl Default for EditingContext {
    fn default() -> (r: Self)
        ensures
            r == (EditingContext {
                mode: Mode::Insert,
                focus: Focus::Input,
                cursor_pos: 0usize,
                scroll_offset: 0u16,
            }),
    {
        Self { mode: Mode::Insert, focus: Focus::Input, cursor_pos: 0, scroll_offset: 0 }
    }
}

/// The character class a word motion stops at.
#[derive(PartialEq, Eq, Structural, Clone, Copy, Debug)]
pub enum BoundaryClass {
    /// Whitespace or punctuation, the class `[\s\p{P}]`: boundaries of
    /// ordinary words.
    WordSeparator,
    /// Whitespace alone, the class `[\s]`: boundaries of big words.
    Whitespace,
}

/// The character index of the first word-separator character of a text,
/// as the separator regex finds it.
pub uninterp spec fn first_word_separator(s: Seq<char>) -> Option<int>;

/// The character index of the last word-separator character of a text,
/// as the separator regex finds it.
pub uninterp spec fn last_word_separator(s: Seq<char>) -> Option<int>;

/// The character index of the first whitespace character of a text, as
/// the whitespace regex finds it.
pub uninterp spec fn first_whitespace(s: Seq<char>) -> Option<int>;

/// The character index of the last whitespace character of a text, as
/// the whitespace regex finds it.
pub uninterp spec fn last_whitespace(s: Seq<char>) -> Option<int>;

/// Whether a character has the Unicode whitespace property.
pub uninterp spec fn white_space(c: char) -> bool;

pub assume_specification[ char::is_whitespace ](c: char) -> (r: bool)
    ensures
        r == white_space(c),
;

/// Relies on `regex::Regex::find` with the class `[\s\p{P}]`: the first
/// whitespace-or-punctuation character at or after `start`, counted from
/// `start`. A match of a one-character class lies within the text.
#[verifier::external_body]
fn find_first_word_separator(text: &Vec<char>, start: usize) -> (r: Option<usize>)
    requires
        start <= text@.len(),
    ensures
        match r {
            Some(i) => first_word_separator(text@.skip(start as int)) == Some(i as int) && i
                < text@.len() - start,
            None => first_word_separator(text@.skip(start as int)) is None,
        },
{
    let haystack: String = text[start..].iter().collect();
    let pattern = regex::Regex::new(r"[\s\p{P}]").unwrap();
    match pattern.find(&haystack) {
        Some(found) => Some(haystack[..found.start()].chars().count()),
        None => None,
    }
}

/// Relies on `regex::Regex::find_iter` with the class `[\s\p{P}]`: the
/// last whitespace-or-punctuation character before `end`, counted from
/// the start of the text.
#[verifier::external_body]
fn find_last_word_separator(text: &Vec<char>, end: usize) -> (r: Option<usize>)
    requires
        end <= text@.len(),
    ensures
        match r {
            Some(i) => last_word_separator(text@.take(end as int)) == Some(i as int) && i < end,
            None => last_word_separator(text@.take(end as int)) is None,
        },
{
    let haystack: String = text[..end].iter().collect();
    let pattern = regex::Regex::new(r"[\s\p{P}]").unwrap();
    match pattern.find_iter(&haystack).last() {
        Some(found) => Some(haystack[..found.start()].chars().count()),
        None => None,
    }
}

/// Relies on `regex::Regex::find` with the class `[\s]`: the first
/// whitespace character at or after `start`, counted from `start`.
#[verifier::external_body]
fn find_first_whitespace(text: &Vec<char>, start: usize) -> (r: Option<usize>)
    requires
        start <= text@.len(),
    ensures
        match r {
            Some(i) => first_whitespace(text@.skip(start as int)) == Some(i as int) && i
                < text@.len() - start,
            None => first_whitespace(text@.skip(start as int)) is None,
        },
{
    let haystack: String = text[start..].iter().collect();
    let pattern = regex::Regex::new(r"[\s]").unwrap();
    match pattern.find(&haystack) {
        Some(found) => Some(haystack[..found.start()].chars().count()),
        None => None,
    }
}

/// Relies on `regex::Regex::find_iter` with the class `[\s]`: the last
/// whitespace character before `end`, counted from the start of the
/// text.
#[verifier::external_body]
fn find_last_whitespace(text: &Vec<char>, end: usize) -> (r: Option<usize>)
    requires
        end <= text@.len(),
    ensures
        match r {
            Some(i) => last_whitespace(text@.take(end as int)) == Some(i as int) && i < end,
            None => last_whitespace(text@.take(end as int)) is None,
        },
{
    let haystack: String = text[..end].iter().collect();
    let pattern = regex::Regex::new(r"[\s]").unwrap();
    match pattern.find_iter(&haystack).last() {
        Some(found) => Some(haystack[..found.start()].chars().count()),
        None => None,
    }
}

/// Where a word motion from `start` lands: forward, the first separator
/// of the remainder, stepped past one whitespace character and nudged off
/// an immediate match; backward, the last separator before `start`,
/// stepped back off one whitespace character.
pub open spec fn spec_word_boundary(
    text: Seq<char>,
    start: int,
    class: BoundaryClass,
    is_forward: bool,
) -> int {
    if is_forward {
        let found = match class {
            BoundaryClass::WordSeparator => first_word_separator(text.skip(start)),
            BoundaryClass::Whitespace => first_whitespace(text.skip(start)),
        };
        match found {
            None => text.len() as int,
            Some(found_at) => {
                let stepped = if white_space(text[start + found_at]) {
                    found_at + 1
                } else {
                    found_at
                };
                start + stepped + if stepped == 0 {
                    1int
                } else {
                    0int
                }
            },
        }
    } else {
        let found = match class {
            BoundaryClass::WordSeparator => last_word_separator(text.take(start)),
            BoundaryClass::Whitespace => last_whitespace(text.take(start)),
        };
        match found {
            None => 0,
            Some(found_at) => {
                if white_space(text[found_at]) && found_at > 0 {
                    found_at - 1
                } else {
                    found_at
                }
            },
        }
    }
}

/// Where the word motion of `find_next_word_boundary` lands.
pub open spec fn spec_next_word_boundary(text: Seq<char>, start: int) -> int {
    spec_word_boundary(text, start, BoundaryClass::WordSeparator, true)
}

/// Where the word motion of `find_next_big_word_boundary` lands.
pub open spec fn spec_next_big_word_boundary(text: Seq<char>, start: int) -> int {
    spec_word_boundary(text, start, BoundaryClass::Whitespace, true)
}

/// Where the word motion of `find_prev_word_boundary` lands.
pub open spec fn spec_prev_word_boundary(text: Seq<char>, start: int) -> int {
    spec_word_boundary(text, start, BoundaryClass::WordSeparator, false)
}

/// Where the word motion of `find_prev_big_word_boundary` lands.
pub open spec fn spec_prev_big_word_boundary(text: Seq<char>, start: int) -> int {
    spec_word_boundary(text, start, BoundaryClass::Whitespace, false)
}

/// The landing point of a word motion from `start_index`.
fn word_boundary(text: &Vec<char>, start_index: usize, class: BoundaryClass, is_forward: bool) -> (r:
    usize)
    requires
        start_index <= text@.len(),
    ensures
        r == spec_word_boundary(text@, start_index as int, class, is_forward),
        is_forward ==> start_index <= r <= text@.len(),
        !is_forward ==> r <= start_index,
{
    let total = text.len();
    if is_forward {
        let found = match class {
            BoundaryClass::WordSeparator => find_first_word_separator(text, start_index),
            BoundaryClass::Whitespace => find_first_whitespace(text, start_index),
        };
        match found {
            Some(found_at) => {
                assert(found_at < total - start_index);
                let mut stepped = found_at;
                if text[start_index + stepped].is_whitespace() {
                    stepped = stepped + 1;
                }
                start_index + stepped + (if stepped == 0 {
                    1
                } else {
                    0
                })
            },
            None => text.len(),
        }
    } else {
        let found = match class {
            BoundaryClass::WordSeparator => find_last_word_separator(text, start_index),
            BoundaryClass::Whitespace => find_last_whitespace(text, start_index),
        };
        match found {
            Some(found_at) => {
                if text[found_at].is_whitespace() && found_at > 0 {
                    found_at - 1
                } else {
                    found_at
                }
            },
            None => 0,
        }
    }
}

/// The end of the word motion `w` from `start`.
pub fn find_next_word_boundary(text: &Vec<char>, start: usize) -> (r: usize)
    requires
        start <= text@.len(),
    ensures
        r == spec_next_word_boundary(text@, start as int),
        start <= r <= text@.len(),
{
    word_boundary(text, start, BoundaryClass::WordSeparator, true)
}

/// The end of the word motion `W` from `start`.
pub fn find_next_big_word_boundary(text: &Vec<char>, start: usize) -> (r: usize)
    requires
        start <= text@.len(),
    ensures
        r == spec_next_big_word_boundary(text@, start as int),
        start <= r <= text@.len(),
{
    word_boundary(text, start, BoundaryClass::Whitespace, true)
}

/// The start of the word motion `b` from `start`.
pub fn find_prev_word_boundary(text: &Vec<char>, start: usize) -> (r: usize)
    requires
        start <= text@.len(),
    ensures
        r == spec_prev_word_boundary(text@, start as int),
        r <= start,
{
    word_boundary(text, start, BoundaryClass::WordSeparator, false)
}

/// The start of the word motion `B` from `start`.
pub fn find_prev_big_word_boundary(text: &Vec<char>, start: usize) -> (r: usize)
    requires
        start <= text@.len(),
    ensures
        r == spec_prev_big_word_boundary(text@, start as int),
        r <= start,
{
    word_boundary(text, start, BoundaryClass::Whitespace, false)
}

/// How many characters the clipboard holds.
pub open spec fn spec_clip_len(clip: Option<Seq<char>>) -> int {
    match clip {
        Some(text) => text.len() as int,
        None => 0,
    }
}

/// What deleting `noun` at `cursor` does: the new cursor, text and
/// clipboard. Deleting an inner word is not implemented and left out by
/// the callers.
pub open spec fn spec_delete(cursor: int, text: Seq<char>, clip: Option<Seq<char>>, noun: Noun) -> (
    int,
    Seq<char>,
    Option<Seq<char>>,
) {
    match noun {
        Noun::Motion(Motion::ForwardWord) => {
            let end = spec_next_word_boundary(text, cursor);
            if end > cursor {
                (cursor, text.take(cursor) + text.skip(end), Some(text.subrange(cursor, end)))
            } else {
                (cursor, text, clip)
            }
        },
        Noun::Motion(Motion::BackwardWord) => {
            let start = spec_prev_word_boundary(text, cursor);
            if start < cursor {
                (start, text.take(start) + text.skip(cursor), Some(text.subrange(start, cursor)))
            } else {
                (cursor, text, clip)
            }
        },
        _ => (cursor, text, clip),
    }
}

/// What yanking `noun` at `cursor` leaves on the clipboard.
pub open spec fn spec_yank(
    cursor: int,
    text: Seq<char>,
    clip: Option<Seq<char>>,
    noun: Noun,
) -> Option<Seq<char>> {
    match noun {
        Noun::Motion(Motion::ForwardWord) => {
            let end = spec_next_word_boundary(text, cursor);
            if end > cursor {
                Some(text.subrange(cursor, end))
            } else {
                clip
            }
        },
        _ => clip,
    }
}

/// What one single-keystroke command does to the editor state.
pub open spec fn spec_apply_single(
    ctx: EditingContext,
    text: Seq<char>,
    clip: Option<Seq<char>>,
    height: u16,
    command: SingleCommand,
) -> (EditingContext, Seq<char>, Option<Seq<char>>) {
    let len = text.len() as int;
    let cursor = ctx.cursor_pos as int;
    match command {
        SingleCommand::Insert => {
            if ctx.focus is Input {
                (EditingContext { mode: Mode::Insert, ..ctx }, text, clip)
            } else {
                (ctx, text, clip)
            }
        },
        SingleCommand::Append => {
            if ctx.focus is Input {
                let moved = if cursor < len {
                    (cursor + 1) as usize
                } else {
                    ctx.cursor_pos
                };
                (EditingContext { mode: Mode::Insert, cursor_pos: moved, ..ctx }, text, clip)
            } else {
                (ctx, text, clip)
            }
        },
        SingleCommand::InsertSOL => {
            if ctx.focus is Input {
                (EditingContext { mode: Mode::Insert, cursor_pos: 0usize, ..ctx }, text, clip)
            } else {
                (ctx, text, clip)
            }
        },
        SingleCommand::AppendEOL => {
            if ctx.focus is Input {
                (EditingContext { mode: Mode::Insert, cursor_pos: len as usize, ..ctx }, text, clip)
            } else {
                (ctx, text, clip)
            }
        },
        SingleCommand::DeleteCharUnderCursor => {
            if ctx.focus is Input && cursor < len {
                (ctx, text.take(cursor) + text.skip(cursor + 1), Some(seq![text[cursor]]))
            } else {
                (ctx, text, clip)
            }
        },
        SingleCommand::Paste => {
            if ctx.focus is Input {
                match clip {
                    Some(pasted) => (
                        EditingContext { cursor_pos: (cursor + pasted.len()) as usize, ..ctx },
                        text.take(cursor) + pasted + text.skip(cursor),
                        clip,
                    ),
                    None => (ctx, text, clip),
                }
            } else {
                (ctx, text, clip)
            }
        },
        SingleCommand::MoveLeft => {
            if ctx.focus is Messages {
                (ctx, text, clip)
            } else if cursor > 0 {
                (EditingContext { cursor_pos: (cursor - 1) as usize, ..ctx }, text, clip)
            } else {
                (ctx, text, clip)
            }
        },
        SingleCommand::MoveRight => {
            if ctx.focus is Messages {
                (ctx, text, clip)
            } else if cursor < len {
                (EditingContext { cursor_pos: (cursor + 1) as usize, ..ctx }, text, clip)
            } else {
                (ctx, text, clip)
            }
        },
        SingleCommand::MoveUp => {
            if ctx.focus is Messages {
                let scrolled = if ctx.scroll_offset > 0 {
                    (ctx.scroll_offset - 1) as u16
                } else {
                    0u16
                };
                (EditingContext { scroll_offset: scrolled, ..ctx }, text, clip)
            } else {
                (ctx, text, clip)
            }
        },
        SingleCommand::MoveDown => {
            if ctx.focus is Messages {
                let scrolled = if ctx.scroll_offset < height {
                    (ctx.scroll_offset + 1) as u16
                } else {
                    height
                };
                (EditingContext { scroll_offset: scrolled, ..ctx }, text, clip)
            } else {
                (ctx, text, clip)
            }
        },
        SingleCommand::ForwardWord => {
            if ctx.focus is Input {
                (
                    EditingContext {
                        cursor_pos: spec_next_word_boundary(text, cursor) as usize,
                        ..ctx
                    },
                    text,
                    clip,
                )
            } else {
                (ctx, text, clip)
            }
        },
        SingleCommand::ForwardBigWord => {
            if ctx.focus is Input {
                (
                    EditingContext {
                        cursor_pos: spec_next_big_word_boundary(text, cursor) as usize,
                        ..ctx
                    },
                    text,
                    clip,
                )
            } else {
                (ctx, text, clip)
            }
        },
        SingleCommand::BackwardWord => {
            if ctx.focus is Input {
                (
                    EditingContext {
                        cursor_pos: spec_prev_word_boundary(text, cursor) as usize,
                        ..ctx
                    },
                    text,
                    clip,
                )
            } else {
                (ctx, text, clip)
            }
        },
        SingleCommand::BackwardBigWord => {
            if ctx.focus is Input {
                (
                    EditingContext {
                        cursor_pos: spec_prev_big_word_boundary(text, cursor) as usize,
                        ..ctx
                    },
                    text,
                    clip,
                )
            } else {
                (ctx, text, clip)
            }
        },
        SingleCommand::StartFile => {
            if ctx.focus is Messages {
                (EditingContext { scroll_offset: 0u16, ..ctx }, text, clip)
            } else {
                (EditingContext { cursor_pos: 0usize, ..ctx }, text, clip)
            }
        },
        SingleCommand::EndFile => {
            if ctx.focus is Messages {
                (EditingContext { scroll_offset: height, ..ctx }, text, clip)
            } else {
                (EditingContext { cursor_pos: len as usize, ..ctx }, text, clip)
            }
        },
    }
}

/// What one operator command does to the editor state. Operators only
/// act while the input line has focus.
pub open spec fn spec_apply_multi(
    ctx: EditingContext,
    text: Seq<char>,
    clip: Option<Seq<char>>,
    command: MultiCommand,
) -> (EditingContext, Seq<char>, Option<Seq<char>>) {
    let len = text.len() as int;
    let cursor = ctx.cursor_pos as int;
    if !(ctx.focus is Input) {
        (ctx, text, clip)
    } else {
        match command {
            MultiCommand::Delete(noun) => {
                let (cursor2, text2, clip2) = spec_delete(cursor, text, clip, noun);
                (EditingContext { cursor_pos: cursor2 as usize, ..ctx }, text2, clip2)
            },
            MultiCommand::Change(noun) => {
                let (cursor2, text2, clip2) = spec_delete(cursor, text, clip, noun);
                (
                    EditingContext { mode: Mode::Insert, cursor_pos: cursor2 as usize, ..ctx },
                    text2,
                    clip2,
                )
            },
            MultiCommand::Yank(noun) => (ctx, text, spec_yank(cursor, text, clip, noun)),
            MultiCommand::ChangeEOL => {
                if cursor < len {
                    (
                        EditingContext { mode: Mode::Insert, ..ctx },
                        text.take(cursor),
                        Some(text.skip(cursor)),
                    )
                } else {
                    (EditingContext { mode: Mode::Insert, ..ctx }, text, clip)
                }
            },
            MultiCommand::Replace(replacement) => {
                if cursor < len {
                    (ctx, text.update(cursor, replacement), clip)
                } else {
                    (ctx, text, clip)
                }
            },
        }
    }
}

/// What one command does to the editor state.
pub open spec fn spec_apply_command(
    ctx: EditingContext,
    text: Seq<char>,
    clip: Option<Seq<char>>,
    height: u16,
    command: Command,
) -> (EditingContext, Seq<char>, Option<Seq<char>>) {
    match command {
        Command::SingleCommand(single) => spec_apply_single(ctx, text, clip, height, single),
        Command::MultiCommand(multi) => spec_apply_multi(ctx, text, clip, multi),
    }
}

/// Deletes `noun` at the cursor, putting what was removed on the
/// clipboard.
fn delete_helper(cursor_pos: &mut usize, text: &mut Vec<char>, clipboard: &mut Clipboard, noun: Noun)
    requires
        *old(cursor_pos) <= old(text)@.len(),
        !(noun is InnerWord),
    ensures
        ({
            let (cursor2, text2, clip2) = spec_delete(
                *old(cursor_pos) as int,
                old(text)@,
                old(clipboard)@,
                noun,
            );
            &&& *final(cursor_pos) == cursor2
            &&& final(text)@ == text2
            &&& final(clipboard)@ == clip2
        }),
        *final(cursor_pos) <= final(text)@.len(),
{
    match noun {
        Noun::Motion(Motion::ForwardWord) => {
            let end_pos = find_next_word_boundary(text, *cursor_pos);
            if end_pos > *cursor_pos {
                let removed = remove_range(text, *cursor_pos, end_pos);
                clipboard.contents = Some(removed);
            }
        },
        Noun::Motion(Motion::BackwardWord) => {
            let start_pos = find_prev_word_boundary(text, *cursor_pos);
            if start_pos < *cursor_pos {
                let removed = remove_range(text, start_pos, *cursor_pos);
                clipboard.contents = Some(removed);
                *cursor_pos = start_pos;
            }
        },
        _ => {},
    }
}

/// Deletes `noun` at the cursor and switches to insert mode.
fn change_helper(
    mode: &mut Mode,
    cursor_pos: &mut usize,
    text: &mut Vec<char>,
    clipboard: &mut Clipboard,
    noun: Noun,
)
    requires
        *old(cursor_pos) <= old(text)@.len(),
        !(noun is InnerWord),
    ensures
        ({
            let (cursor2, text2, clip2) = spec_delete(
                *old(cursor_pos) as int,
                old(text)@,
                old(clipboard)@,
                noun,
            );
            &&& *final(cursor_pos) == cursor2
            &&& final(text)@ == text2
            &&& final(clipboard)@ == clip2
        }),
        *final(mode) == Mode::Insert,
        *final(cursor_pos) <= final(text)@.len(),
{
    delete_helper(cursor_pos, text, clipboard, noun);
    *mode = Mode::Insert;
}

/// Yanks `noun` at the cursor onto the clipboard.
fn yank_helper(cursor_pos: &mut usize, text: &Vec<char>, clipboard: &mut Clipboard, noun: Noun)
    requires
        *old(cursor_pos) <= text@.len(),
    ensures
        *final(cursor_pos) == *old(cursor_pos),
        final(clipboard)@ == spec_yank(*old(cursor_pos) as int, text@, old(clipboard)@, noun),
{
    if let Noun::Motion(Motion::ForwardWord) = noun {
        let end_pos = find_next_word_boundary(text, *cursor_pos);
        if end_pos > *cursor_pos {
            let selection = copy_range(text, *cursor_pos, end_pos);
            clipboard.contents = Some(selection);
        }
    }
}

impl EditingContext {
    /// Applies one parsed command to `text` (rendered at a window height
    /// of `height`), using `clipboard` for deleting, yanking and
    /// pasting. Deleting or changing an inner word is not implemented,
    /// so those two commands are left to the caller to reject.
    pub fn apply_command(
        &mut self,
        text: &mut Vec<char>,
        clipboard: &mut Clipboard,
        height: u16,
        command: Command,
    )
        requires
            old(self).cursor_pos <= old(text)@.len(),
            command == Command::SingleCommand(SingleCommand::Paste) && old(self).focus is Input
                ==> old(text)@.len() + spec_clip_len(old(clipboard)@) <= usize::MAX,
            old(self).focus is Input ==> !(command matches Command::MultiCommand(
                MultiCommand::Delete(Noun::InnerWord),
            )) && !(command matches Command::MultiCommand(MultiCommand::Change(Noun::InnerWord))),
        ensures
            ({
                let (ctx2, text2, clip2) = spec_apply_command(
                    *old(self),
                    old(text)@,
                    old(clipboard)@,
                    height,
                    command,
                );
                &&& *final(self) == ctx2
                &&& final(text)@ == text2
                &&& final(clipboard)@ == clip2
            }),
            final(self).cursor_pos <= final(text)@.len(),
    {
        match command {
            Command::SingleCommand(single_command) => {
                match single_command {
                    SingleCommand::Insert => {
                        if self.focus == Focus::Input {
                            self.mode = Mode::Insert;
                        }
                    },
                    SingleCommand::Append => {
                        if self.focus == Focus::Input {
                            self.mode = Mode::Insert;
                            if self.cursor_pos < text.len() {
                                self.cursor_pos = self.cursor_pos + 1;
                            }
                        }
                    },
                    SingleCommand::InsertSOL => {
                        if self.focus == Focus::Input {
                            self.mode = Mode::Insert;
                            self.cursor_pos = 0;
                        }
                    },
                    SingleCommand::AppendEOL => {
                        if self.focus == Focus::Input {
                            self.mode = Mode::Insert;
                            self.cursor_pos = text.len();
                        }
                    },
                    SingleCommand::DeleteCharUnderCursor => {
                        if self.focus == Focus::Input && self.cursor_pos < text.len() {
                            let removed_char = text.remove(self.cursor_pos);
                            let mut removed: Vec<char> = Vec::new();
                            removed.push(removed_char);
                            clipboard.contents = Some(removed);
                            proof {
                                assert(text@ =~= old(text)@.take(old(self).cursor_pos as int)
                                    + old(text)@.skip(old(self).cursor_pos + 1));
                                assert(removed@ =~= seq![
                                    old(text)@[old(self).cursor_pos as int],
                                ]);
                            }
                        }
                    },
                    SingleCommand::Paste => {
                        if self.focus == Focus::Input {
                            match &clipboard.contents {
                                Some(clip_text) => {
                                    insert_range(text, self.cursor_pos, clip_text);
                                    self.cursor_pos = self.cursor_pos + clip_text.len();
                                },
                                None => {},
                            }
                        }
                    },
                    SingleCommand::MoveLeft => {
                        if self.focus == Focus::Messages {
                            // Horizontal scrolling in the message pane is
                            // not implemented.
                        } else if self.cursor_pos > 0 {
                            self.cursor_pos = self.cursor_pos - 1;
                        }
                    },
                    SingleCommand::MoveRight => {
                        if self.focus == Focus::Messages {
                            // Not implemented either.
                        } else if self.cursor_pos < text.len() {
                            self.cursor_pos = self.cursor_pos + 1;
                        }
                    },
                    SingleCommand::MoveUp => {
                        if self.focus == Focus::Messages {
                            if self.scroll_offset > 0 {
                                self.scroll_offset = self.scroll_offset - 1;
                            }
                        }
                    },
                    SingleCommand::MoveDown => {
                        if self.focus == Focus::Messages {
                            if self.scroll_offset < height {
                                self.scroll_offset = self.scroll_offset + 1;
                            } else {
                                self.scroll_offset = height;
                            }
                        }
                    },
                    SingleCommand::ForwardWord => {
                        if self.focus == Focus::Input {
                            self.cursor_pos = find_next_word_boundary(text, self.cursor_pos);
                        }
                    },
                    SingleCommand::ForwardBigWord => {
                        if self.focus == Focus::Input {
                            self.cursor_pos = find_next_big_word_boundary(text, self.cursor_pos);
                        }
                    },
                    SingleCommand::BackwardWord => {
                        if self.focus == Focus::Input {
                            self.cursor_pos = find_prev_word_boundary(text, self.cursor_pos);
                        }
                    },
                    SingleCommand::BackwardBigWord => {
                        if self.focus == Focus::Input {
                            self.cursor_pos = find_prev_big_word_boundary(text, self.cursor_pos);
                        }
                    },
                    SingleCommand::StartFile => {
                        if self.focus == Focus::Messages {
                            self.scroll_offset = 0;
                        } else {
                            self.cursor_pos = 0;
                        }
                    },
                    SingleCommand::EndFile => {
                        if self.focus == Focus::Messages {
                            self.scroll_offset = height;
                        } else {
                            self.cursor_pos = text.len();
                        }
                    },
                }
            },
            Command::MultiCommand(multi_command) => {
                if self.focus == Focus::Input {
                    match multi_command {
                        MultiCommand::Delete(noun) => {
                            let mut cursor = self.cursor_pos;
                            delete_helper(&mut cursor, text, clipboard, noun);
                            self.cursor_pos = cursor;
                        },
                        MultiCommand::Change(noun) => {
                            let mut mode = self.mode;
                            let mut cursor = self.cursor_pos;
                            change_helper(&mut mode, &mut cursor, text, clipboard, noun);
                            self.mode = mode;
                            self.cursor_pos = cursor;
                        },
                        MultiCommand::Yank(noun) => {
                            let mut cursor = self.cursor_pos;
                            yank_helper(&mut cursor, text, clipboard, noun);
                            self.cursor_pos = cursor;
                        },
                        MultiCommand::ChangeEOL => {
                            if self.cursor_pos < text.len() {
                                let text_len = text.len();
                                let removed = remove_range(text, self.cursor_pos, text_len);
                                clipboard.contents = Some(removed);
                                proof {
                                    assert(text@ =~= old(text)@.take(old(self).cursor_pos as int));
                                    assert(removed@ =~= old(text)@.skip(
                                        old(self).cursor_pos as int,
                                    ));
                                }
                            }
                            self.mode = Mode::Insert;
                        },
                        MultiCommand::Replace(replacement) => {
                            if self.cursor_pos < text.len() {
                                text.set(self.cursor_pos, replacement);
                            }
                        },
                    }
                }
            },
        }
    }
}

} // verus!
