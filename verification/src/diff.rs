//! Counting the changed lines of a diff.

use vstd::prelude::*;
use crate::message::CommitContext;
use crate::text::to_chars;

verus! {

/// Whether a line begins at position `i` of the text with the character
/// `mark`.  A line begins at the start of the text and after each line
/// feed.
pub open spec fn marked_line_at(s: Seq<char>, mark: char, i: int) -> bool {
    &&& 0 <= i < s.len()
    &&& s[i] == mark
    &&& i == 0 || s[i - 1] == '\n'
}

/// The number of lines that begin with `mark` among those that begin
/// before position `upto`.
pub open spec fn marked_lines_before(s: Seq<char>, mark: char, upto: int) -> nat
    decreases upto,
{
    if upto <= 0 {
        0
    } else {
        marked_lines_before(s, mark, upto - 1) + if marked_line_at(s, mark, upto - 1) {
            1nat
        } else {
            0nat
        }
    }
}

/// The number of lines of the text that begin with `mark`.
pub open spec fn marked_lines(s: Seq<char>, mark: char) -> nat {
    marked_lines_before(s, mark, s.len() as int)
}

/// Counts the lines of a diff that begin with `mark`.
pub fn count_marked_lines(diff: &str, mark: char) -> (r: usize)
    ensures
        r == marked_lines(diff@, mark),
{
    let chars = to_chars(diff);
    let mut count: usize = 0;
    let mut i: usize = 0;
    while i < chars.len()
        invariant
            i <= chars.len(),
            chars@ == diff@,
            count == marked_lines_before(diff@, mark, i as int),
            count <= i,
        decreases chars.len() - i,
    {
        if chars[i] == mark && (i == 0 || chars[i - 1] == '\n') {
            count += 1;
        }
        i += 1;
    }
    count
}

/// The number of added lines in a diff: those that begin with `+`.
pub fn added_lines(diff: &str) -> (r: usize)
    ensures
        r == marked_lines(diff@, '+'),
{
    count_marked_lines(diff, '+')
}

/// The number of removed lines in a diff: those that begin with `-`.
pub fn removed_lines(diff: &str) -> (r: usize)
    ensures
        r == marked_lines(diff@, '-'),
{
    count_marked_lines(diff, '-')
}

/// The context of a change: its branch, the number of files it touches,
/// and the added and removed lines counted in its diff.
pub fn context_for_diff(diff: &str, branch_name: Option<String>, file_count: usize) -> (r:
    CommitContext)
    ensures
        r.branch_name == branch_name,
        r.file_count == file_count,
        r.added_lines == marked_lines(diff@, '+'),
        r.removed_lines == marked_lines(diff@, '-'),
{
    CommitContext {
        branch_name,
        file_count,
        added_lines: added_lines(diff),
        removed_lines: removed_lines(diff),
    }
}

} // verus!
