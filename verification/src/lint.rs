//! Identifier-lint helpers: splitting names by case convention and
//! phrasing replacement suggestions for known abbreviations.
//!
//! Walking a syntax tree and rendering diagnostics are outside work; the
//! rules themselves live here, on plain characters.

use vstd::prelude::*;

use crate::text::{chars_to_string, string_to_chars};

verus! {

/// Whether any diagnostic has been produced so far.
#[derive(PartialEq, Eq, Structural, Clone, Copy, Debug)]
pub struct EmittedStatus {
    pub warned: bool,
    pub errored: bool,
}

impl Default for EmittedStatus {
    fn default() -> (r: Self)
        ensures
            !r.warned,
            !r.errored,
    {
        EmittedStatus { warned: false, errored: false }
    }
}

/// The case convention an identifier is written in.
#[derive(PartialEq, Eq, Structural, Clone, Copy, Debug)]
pub enum Case {
    /// For value and function names.
    Snake,
    /// For type names.
    Pascal,
}

/// Whether `c` is an ASCII capital letter.
pub open spec fn spec_is_ascii_upper(c: char) -> bool {
    65 <= c as u32 <= 90
}

/// An ASCII capital letter lowered; anything else unchanged.
pub open spec fn spec_lower_char(c: char) -> char {
    if spec_is_ascii_upper(c) {
        ((c as u32 + 32) as u8) as char
    } else {
        c
    }
}

/// An ASCII small letter raised; anything else unchanged.
pub open spec fn spec_upper_char(c: char) -> char {
    if 97 <= c as u32 <= 122 {
        ((c as u32 - 32) as u8) as char
    } else {
        c
    }
}

/// A text with every ASCII capital letter lowered.
pub open spec fn spec_lower(s: Seq<char>) -> Seq<char> {
    s.map_values(|c: char| spec_lower_char(c))
}

fn is_ascii_upper(c: char) -> (r: bool)
    ensures
        r == spec_is_ascii_upper(c),
{
    let code = c as u32;
    65 <= code && code <= 90
}

fn lower_char(c: char) -> (r: char)
    ensures
        r == spec_lower_char(c),
{
    let code = c as u32;
    if 65 <= code && code <= 90 {
        ((code + 32) as u8) as char
    } else {
        c
    }
}

fn upper_char(c: char) -> (r: char)
    ensures
        r == spec_upper_char(c),
{
    let code = c as u32;
    if 97 <= code && code <= 122 {
        ((code - 32) as u8) as char
    } else {
        c
    }
}

fn lower_chars(s: &Vec<char>) -> (r: Vec<char>)
    ensures
        r@ == spec_lower(s@),
{
    let mut lowered: Vec<char> = Vec::new();
    let mut i: usize = 0;
    while i < s.len()
        invariant
            i <= s@.len(),
            lowered@ =~= spec_lower(s@.take(i as int)),
        decreases s@.len() - i,
    {
        lowered.push(lower_char(s[i]));
        proof {
            assert(lowered@ =~= spec_lower(s@.take(i + 1 as int)));
        }
        i = i + 1;
    }
    proof {
        assert(s@.take(s@.len() as int) =~= s@);
    }
    lowered
}

/// The words of a snake-case identifier, from position `i` on, with the
/// position each word starts at. A word ends at each underscore; a
/// trailing empty word is dropped.
pub open spec fn spec_split_snake_from(s: Seq<char>, last_split: int, i: int) -> Seq<(
    int,
    Seq<char>,
)>
    decreases s.len() - i,
{
    if i < 0 || i >= s.len() {
        if last_split < s.len() {
            seq![(last_split, s.subrange(last_split, s.len() as int))]
        } else {
            Seq::empty()
        }
    } else if s[i] == '_' {
        seq![(last_split, s.subrange(last_split, i))] + spec_split_snake_from(s, i + 1, i + 1)
    } else {
        spec_split_snake_from(s, last_split, i + 1)
    }
}

/// The words of a Pascal-case identifier, from position `i` on, lowered,
/// with the position each word starts at. A new word begins at each
/// capital letter after the first position.
pub open spec fn spec_split_pascal_from(s: Seq<char>, last_split: int, i: int) -> Seq<(
    int,
    Seq<char>,
)>
    decreases s.len() - i,
{
    if i < 0 || i >= s.len() {
        if last_split < s.len() {
            seq![(last_split, spec_lower(s.subrange(last_split, s.len() as int)))]
        } else {
            Seq::empty()
        }
    } else if i > 0 && spec_is_ascii_upper(s[i]) {
        seq![(last_split, spec_lower(s.subrange(last_split, i)))] + spec_split_pascal_from(
            s,
            i,
            i + 1,
        )
    } else {
        spec_split_pascal_from(s, last_split, i + 1)
    }
}

/// The words of an identifier under a case convention, each with the
/// position it starts at; Pascal-case words come out lowered.
pub open spec fn spec_split_by_case(s: Seq<char>, case: Case) -> Seq<(int, Seq<char>)> {
    match case {
        Case::Snake => spec_split_snake_from(s, 0, 0),
        Case::Pascal => spec_split_pascal_from(s, 0, 0),
    }
}

/// The view of a built word list: positions and character sequences.
pub open spec fn spec_segments_view(segments: Seq<(usize, Vec<char>)>) -> Seq<(int, Seq<char>)> {
    segments.map_values(|p: (usize, Vec<char>)| (p.0 as int, p.1@))
}

/// Splits an identifier into its words under the given case convention,
/// each with the position it starts at.
pub fn split_by_case(text: &Vec<char>, case: Case) -> (r: Vec<(usize, Vec<char>)>)
    ensures
        spec_segments_view(r@) == spec_split_by_case(text@, case),
{
    let mut result: Vec<(usize, Vec<char>)> = Vec::new();
    let mut last_split: usize = 0;
    let mut i: usize = 0;
    match case {
        Case::Snake => {
            while i < text.len()
                invariant
                    last_split <= text@.len(),
                    i <= text@.len(),
                    last_split <= i,
                    spec_split_snake_from(text@, 0, 0) =~= spec_segments_view(result@)
                        + spec_split_snake_from(text@, last_split as int, i as int),
                decreases text@.len() - i,
            {
                if text[i] == '_' {
                    let word = crate::text::copy_range(text, last_split, i);
                    result.push((last_split, word));
                    proof {
                        assert(spec_segments_view(result@) =~= spec_segments_view(
                            result@.drop_last(),
                        ) + seq![(last_split as int, text@.subrange(last_split as int, i as int))]);
                    }
                    last_split = i + 1;  // skip past the underscore
                } else {
                }
                i = i + 1;
            }
            if last_split < text.len() {
                let word = crate::text::copy_range(text, last_split, text.len());
                result.push((last_split, word));
                proof {
                    assert(spec_segments_view(result@) =~= spec_segments_view(result@.drop_last())
                        + seq![
                        (last_split as int, text@.subrange(last_split as int, text@.len() as int)),
                    ]);
                }
            }
        },
        Case::Pascal => {
            while i < text.len()
                invariant
                    last_split <= text@.len(),
                    i <= text@.len(),
                    last_split <= i,
                    spec_split_pascal_from(text@, 0, 0) =~= spec_segments_view(result@)
                        + spec_split_pascal_from(text@, last_split as int, i as int),
                decreases text@.len() - i,
            {
                if i > 0 && is_ascii_upper(text[i]) {
                    let word = crate::text::copy_range(text, last_split, i);
                    let lowered = lower_chars(&word);
                    result.push((last_split, lowered));
                    proof {
                        assert(spec_segments_view(result@) =~= spec_segments_view(
                            result@.drop_last(),
                        ) + seq![
                            (
                                last_split as int,
                                spec_lower(text@.subrange(last_split as int, i as int)),
                            ),
                        ]);
                    }
                    last_split = i;
                } else {
                }
                i = i + 1;
            }
            if last_split < text.len() {
                let word = crate::text::copy_range(text, last_split, text.len());
                let lowered = lower_chars(&word);
                result.push((last_split, lowered));
                proof {
                    assert(spec_segments_view(result@) =~= spec_segments_view(result@.drop_last())
                        + seq![
                        (
                            last_split as int,
                            spec_lower(text@.subrange(last_split as int, text@.len() as int)),
                        ),
                    ]);
                }
            }
        },
    }
    proof {
        assert(spec_segments_view(result@) =~= spec_split_by_case(text@, case));
    }
    result
}

/// The replacements suggested for a known abbreviation.
pub open spec fn spec_abbreviation(word: Seq<char>) -> Option<Seq<Seq<char>>> {
    if word == "msg"@ {
        Some(seq!["message"@])
    } else if word == "cmd"@ {
        Some(seq!["command"@])
    } else if word == "beg"@ {
        Some(seq!["begin"@, "beginning"@])
    } else if word == "jeff"@ {
        Some(seq!["rust_enjoyer"@])
    } else if word == "len"@ {
        Some(seq!["length"@])
    } else {
        None
    }
}

fn word_is(word: &Vec<char>, literal: &str) -> (r: bool)
    ensures
        r == (word@ == literal@),
{
    let word_string = chars_to_string(word);
    let literal_string = literal.to_owned();
    word_string == literal_string
}

/// The replacements suggested for `word`, or nothing when it is no known
/// abbreviation.
pub fn abbreviation_replacements(word: &Vec<char>) -> (r: Option<Vec<Vec<char>>>)
    ensures
        match spec_abbreviation(word@) {
            None => r is None,
            Some(expected) => r matches Some(suggested) && spec_replacements_view(suggested@)
                == expected,
        },
{
    if word_is(word, "msg") {
        Some(vec![string_to_chars("message")])
    } else if word_is(word, "cmd") {
        Some(vec![string_to_chars("command")])
    } else if word_is(word, "beg") {
        Some(vec![string_to_chars("begin"), string_to_chars("beginning")])
    } else if word_is(word, "jeff") {
        Some(vec![string_to_chars("rust_enjoyer")])
    } else if word_is(word, "len") {
        Some(vec![string_to_chars("length")])
    } else {
        None
    }
}

/// The view of a replacement list: its character sequences.
pub open spec fn spec_replacements_view(replacements: Seq<Vec<char>>) -> Seq<Seq<char>> {
    replacements.map_values(|r: Vec<char>| r@)
}

/// One replacement quoted in backticks; under the Pascal convention its
/// first letter is capitalised.
pub open spec fn spec_backticked(word: Seq<char>, case: Case) -> Seq<char> {
    let cased = match case {
        Case::Snake => word,
        Case::Pascal => {
            if word.len() > 0 {
                seq![spec_upper_char(word[0])] + word.drop_first()
            } else {
                word
            }
        },
    };
    seq!['`'] + cased + seq!['`']
}

/// The backticked replacements up to `upto`, joined with commas.
pub open spec fn spec_comma_joined(replacements: Seq<Seq<char>>, case: Case, upto: int) -> Seq<char>
    decreases upto,
{
    if upto <= 1 {
        if upto == 1 {
            spec_backticked(replacements[0], case)
        } else {
            Seq::empty()
        }
    } else {
        spec_comma_joined(replacements, case, upto - 1) + ", "@ + spec_backticked(
            replacements[upto - 1],
            case,
        )
    }
}

/// The suggestion phrase for a replacement list: one alternative plain,
/// two joined by "or", more with commas and a final "or".
pub open spec fn spec_phrase(replacements: Seq<Seq<char>>, case: Case) -> Seq<char> {
    if replacements.len() == 1 {
        spec_backticked(replacements[0], case)
    } else if replacements.len() == 2 {
        spec_backticked(replacements[0], case) + " or "@ + spec_backticked(replacements[1], case)
    } else {
        spec_comma_joined(replacements, case, replacements.len() - 1) + " or "@ + spec_backticked(
            replacements.last(),
            case,
        )
    }
}

fn backticked(word: &Vec<char>, case: Case) -> (r: Vec<char>)
    ensures
        r@ == spec_backticked(word@, case),
{
    let mut quoted: Vec<char> = Vec::new();
    quoted.push('`');
    let mut i: usize = 0;
    while i < word.len()
        invariant
            i <= word@.len(),
            quoted@ =~= seq!['`'] + (match case {
                Case::Snake => word@.take(i as int),
                Case::Pascal => {
                    if i > 0 {
                        seq![spec_upper_char(word@[0])] + word@.subrange(1, i as int)
                    } else {
                        Seq::empty()
                    }
                },
            }),
        decreases word@.len() - i,
    {
        match case {
            Case::Snake => {
                quoted.push(word[i]);
            },
            Case::Pascal => {
                if i == 0 {
                    quoted.push(upper_char(word[i]));
                } else {
                    quoted.push(word[i]);
                }
            },
        }
        proof {
            assert(quoted@ =~= seq!['`'] + (match case {
                Case::Snake => word@.take(i + 1 as int),
                Case::Pascal => {
                    if i + 1 > 0 {
                        seq![spec_upper_char(word@[0])] + word@.subrange(1, i + 1 as int)
                    } else {
                        Seq::<char>::empty()
                    }
                },
            }));
        }
        i = i + 1;
    }
    quoted.push('`');
    proof {
        if word@.len() > 0 {
            assert(word@.take(word@.len() as int) =~= word@);
            assert(word@.subrange(1, word@.len() as int) =~= word@.drop_first());
        } else {
            assert(word@.take(0) =~= Seq::<char>::empty());
        }
        assert(quoted@ =~= spec_backticked(word@, case));
    }
    quoted
}

fn push_str_chars(out: &mut Vec<char>, piece: &str)
    ensures
        final(out)@ == old(out)@ + piece@,
{
    let chars = string_to_chars(piece);
    let mut i: usize = 0;
    while i < chars.len()
        invariant
            i <= chars@.len(),
            chars@ == piece@,
            out@ =~= old(out)@ + piece@.take(i as int),
        decreases chars@.len() - i,
    {
        out.push(chars[i]);
        proof {
            assert(out@ =~= old(out)@ + piece@.take(i + 1 as int));
        }
        i = i + 1;
    }
    proof {
        assert(piece@.take(piece@.len() as int) =~= piece@);
        assert(out@ =~= old(out)@ + piece@);
    }
}

fn push_all(out: &mut Vec<char>, piece: &Vec<char>)
    ensures
        final(out)@ == old(out)@ + piece@,
{
    let mut i: usize = 0;
    while i < piece.len()
        invariant
            i <= piece@.len(),
            out@ =~= old(out)@ + piece@.take(i as int),
        decreases piece@.len() - i,
    {
        out.push(piece[i]);
        proof {
            assert(out@ =~= old(out)@ + piece@.take(i + 1 as int));
        }
        i = i + 1;
    }
    proof {
        assert(piece@.take(piece@.len() as int) =~= piece@);
        assert(out@ =~= old(out)@ + piece@);
    }
}

/// The suggestion phrase naming every replacement for an abbreviation,
/// cased for the identifier it will stand in.
pub fn replacement_phrase(replacements: &Vec<Vec<char>>, case: Case) -> (r: Vec<char>)
    requires
        replacements@.len() > 0,
    ensures
        r@ == spec_phrase(spec_replacements_view(replacements@), case),
{
    let ghost viewed = spec_replacements_view(replacements@);
    if replacements.len() == 1 {
        let quoted = backticked(&replacements[0], case);
        proof {
            assert(viewed[0] == replacements@[0]@);
        }
        quoted
    } else if replacements.len() == 2 {
        let mut phrase = backticked(&replacements[0], case);
        push_str_chars(&mut phrase, " or ");
        let second = backticked(&replacements[1], case);
        push_all(&mut phrase, &second);
        proof {
            assert(viewed[0] == replacements@[0]@);
            assert(viewed[1] == replacements@[1]@);
            assert(phrase@ =~= spec_phrase(viewed, case));
        }
        phrase
    } else {
        let mut phrase = backticked(&replacements[0], case);
        let mut i: usize = 1;
        while i < replacements.len() - 1
            invariant
                1 <= i <= replacements@.len() - 1,
                viewed == spec_replacements_view(replacements@),
                viewed.len() == replacements@.len(),
                phrase@ =~= spec_comma_joined(viewed, case, i as int),
            decreases replacements@.len() - i,
        {
            push_str_chars(&mut phrase, ", ");
            let next = backticked(&replacements[i], case);
            push_all(&mut phrase, &next);
            proof {
                assert(viewed[i as int] == replacements@[i as int]@);
                assert(phrase@ =~= spec_comma_joined(viewed, case, i + 1 as int));
            }
            i = i + 1;
        }
        push_str_chars(&mut phrase, " or ");
        let last = backticked(&replacements[replacements.len() - 1], case);
        push_all(&mut phrase, &last);
        proof {
            assert(viewed.last() == replacements@[replacements@.len() - 1]@);
            assert(phrase@ =~= spec_phrase(viewed, case));
        }
        phrase
    }
}

} // verus!
