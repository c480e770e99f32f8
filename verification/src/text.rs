//! Character-vector utilities shared by the editor and the lint helpers.
//!
//! The library handles text as vectors of characters; the two trusted
//! conversions at the bottom bridge to `String` at the edges.

use vstd::prelude::*;

verus! {

/// Removes `[start, end)` from `text`, returning the removed characters.
pub(crate) fn remove_range(text: &mut Vec<char>, start: usize, end: usize) -> (removed: Vec<char>)
    requires
        start <= end <= old(text)@.len(),
    ensures
        final(text)@ == old(text)@.take(start as int) + old(text)@.skip(end as int),
        removed@ == old(text)@.subrange(start as int, end as int),
{
    let mut removed: Vec<char> = Vec::new();
    let mut taken: usize = 0;
    while taken < end - start
        invariant
            taken <= end - start,
            end <= old(text)@.len(),
            removed@ == old(text)@.subrange(start as int, start + taken),
            text@ == old(text)@.take(start as int) + old(text)@.skip(start + taken),
        decreases end - start - taken,
    {
        assert(text@.len() == old(text)@.len() - taken);
        assert(text@[start as int] == old(text)@[start + taken]);
        removed.push(text.remove(start));
        proof {
            assert(text@ =~= old(text)@.take(start as int) + old(text)@.skip(start + taken + 1));
            assert(removed@ =~= old(text)@.subrange(start as int, start + taken + 1));
        }
        taken = taken + 1;
    }
    proof {
        assert(text@ =~= old(text)@.take(start as int) + old(text)@.skip(end as int));
        assert(removed@ =~= old(text)@.subrange(start as int, end as int));
    }
    removed
}

/// Copies `[start, end)` out of `text`.
pub(crate) fn copy_range(text: &Vec<char>, start: usize, end: usize) -> (copied: Vec<char>)
    requires
        start <= end <= text@.len(),
    ensures
        copied@ == text@.subrange(start as int, end as int),
{
    let mut copied: Vec<char> = Vec::new();
    let mut i: usize = start;
    while i < end
        invariant
            start <= i <= end,
            end <= text@.len(),
            copied@ == text@.subrange(start as int, i as int),
        decreases end - i,
    {
        copied.push(text[i]);
        proof {
            assert(copied@ =~= text@.subrange(start as int, i + 1 as int));
        }
        i = i + 1;
    }
    copied
}

/// Inserts all of `what` into `text` at `at`.
pub(crate) fn insert_range(text: &mut Vec<char>, at: usize, what: &Vec<char>)
    requires
        at <= old(text)@.len(),
        old(text)@.len() + what@.len() <= usize::MAX,
    ensures
        final(text)@ == old(text)@.take(at as int) + what@ + old(text)@.skip(at as int),
{
    let mut i: usize = 0;
    while i < what.len()
        invariant
            i <= what@.len(),
            at <= old(text)@.len(),
            old(text)@.len() + what@.len() <= usize::MAX,
            text@ == old(text)@.take(at as int) + what@.take(i as int) + old(text)@.skip(at as int),
        decreases what@.len() - i,
    {
        assert(text@.len() == old(text)@.len() + i);
        text.insert(at + i, what[i]);
        proof {
            assert(text@ =~= old(text)@.take(at as int) + what@.take(i + 1 as int) + old(
                text,
            )@.skip(at as int));
        }
        i = i + 1;
    }
    proof {
        assert(text@ =~= old(text)@.take(at as int) + what@ + old(text)@.skip(at as int));
    }
}

/// Relies on `Iterator::collect` for `String`: the collected string holds
/// exactly the characters of `text`, in order.
#[verifier::external_body]
pub(crate) fn chars_to_string(text: &Vec<char>) -> (r: String)
    ensures
        r@ == text@,
{
    text.iter().collect()
}

/// Relies on `str::chars` yielding the string's characters in order.
#[verifier::external_body]
pub(crate) fn string_to_chars(text: &str) -> (r: Vec<char>)
    ensures
        r@ == text@,
{
    text.chars().collect()
}

} // verus!
