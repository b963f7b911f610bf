//! The decisions behind the interactive prompts: what to do with a
//! generated message, how to show a line of a diff, and whether an
//! entered credential is usable.  Asking and showing is left to the
//! caller.

use vstd::prelude::*;
use vstd::string::*;
use crate::message::opt_text;
use crate::text::{starts_with_chars, to_chars, to_text, trim, trim_chars};

verus! {

/// What the user decided to do with a generated message.
#[derive(Debug, Clone, PartialEq, Eq)]
pub enum CommitAction {
    /// Commit with the message as generated.
    Accept,
    /// Commit with the given text instead.
    Edit(String),
    /// Generate anew.
    Regenerate,
    /// Do not commit.
    Cancel,
}

/// What follows the choice from the menu.
#[derive(Debug, Clone, PartialEq, Eq)]
pub enum NextStep {
    /// The choice settles the action.
    Decided(CommitAction),
    /// The message is to be opened in an editor first.
    OpenEditor,
}

/// How a line of a diff is shown.
#[derive(Debug, Clone, Copy, PartialEq, Eq, Structural)]
pub enum DiffLineKind {
    Added,
    Removed,
    Hunk,
    Plain,
}

/// The entries of the menu, in order.
pub fn menu_options() -> (r: Vec<&'static str>)
    ensures
        r@.len() == 4,
        r@[0]@ == "Accept and commit"@,
        r@[1]@ == "Edit message"@,
        r@[2]@ == "Regenerate with different AI"@,
        r@[3]@ == "Cancel"@,
{
    let mut r: Vec<&'static str> = Vec::new();
    r.push("Accept and commit");
    r.push("Edit message");
    r.push("Regenerate with different AI");
    r.push("Cancel");
    r
}

/// What follows the choice of the menu entry at position `selection`.
pub fn after_selection(selection: usize) -> (r: NextStep)
    ensures
        selection == 0 ==> r == NextStep::Decided(CommitAction::Accept),
        selection == 1 ==> r == NextStep::OpenEditor,
        selection == 2 ==> r == NextStep::Decided(CommitAction::Regenerate),
        selection > 2 ==> r == NextStep::Decided(CommitAction::Cancel),
{
    if selection == 0 {
        NextStep::Decided(CommitAction::Accept)
    } else if selection == 1 {
        NextStep::OpenEditor
    } else if selection == 2 {
        NextStep::Decided(CommitAction::Regenerate)
    } else {
        NextStep::Decided(CommitAction::Cancel)
    }
}

/// Whether an edited message can be committed: it must not be blank.
pub open spec fn usable_edit(edited: Option<Seq<char>>) -> bool {
    edited is Some && trim(edited->Some_0).len() > 0
}

/// The action after the editor was closed: commit with the edited text,
/// unless the edit was abandoned or the text is blank.
pub fn after_edit(edited: Option<String>) -> (r: CommitAction)
    ensures
        usable_edit(opt_text(edited)) ==> r == CommitAction::Edit(edited->Some_0),
        !usable_edit(opt_text(edited)) ==> r == CommitAction::Cancel,
{
    match edited {
        Some(content) => {
            if crate::text::is_blank(content.as_str()) {
                CommitAction::Cancel
            } else {
                CommitAction::Edit(content)
            }
        },
        None => CommitAction::Cancel,
    }
}

/// The kind of a line of a diff: added for `+` but not `+++`, removed for
/// `-` but not `---`, hunk for `@@`, plain otherwise.
pub open spec fn line_kind(line: Seq<char>) -> DiffLineKind {
    if seq!['+'].is_prefix_of(line) && !seq!['+', '+', '+'].is_prefix_of(line) {
        DiffLineKind::Added
    } else if seq!['-'].is_prefix_of(line) && !seq!['-', '-', '-'].is_prefix_of(line) {
        DiffLineKind::Removed
    } else if seq!['@', '@'].is_prefix_of(line) {
        DiffLineKind::Hunk
    } else {
        DiffLineKind::Plain
    }
}

fn repeated(c: char, n: usize) -> (r: Vec<char>)
    ensures
        r@ == Seq::new(n as nat, |i: int| c),
{
    let mut r: Vec<char> = Vec::new();
    let mut i: usize = 0;
    while i < n
        invariant
            i <= n,
            r@ == Seq::new(i as nat, |k: int| c),
        decreases n - i,
    {
        r.push(c);
        i += 1;
        assert(r@ =~= Seq::new(i as nat, |k: int| c));
    }
    r
}

/// Classifies a line of a diff for display.
pub fn classify_diff_line(line: &str) -> (r: DiffLineKind)
    ensures
        r == line_kind(line@),
{
    let chars = to_chars(line);
    let plus = repeated('+', 1);
    let plus3 = repeated('+', 3);
    let minus = repeated('-', 1);
    let minus3 = repeated('-', 3);
    let hunk = repeated('@', 2);
    assert(plus@ =~= seq!['+']);
    assert(plus3@ =~= seq!['+', '+', '+']);
    assert(minus@ =~= seq!['-']);
    assert(minus3@ =~= seq!['-', '-', '-']);
    assert(hunk@ =~= seq!['@', '@']);
    if starts_with_chars(&chars, &plus) && !starts_with_chars(&chars, &plus3) {
        DiffLineKind::Added
    } else if starts_with_chars(&chars, &minus) && !starts_with_chars(&chars, &minus3) {
        DiffLineKind::Removed
    } else if starts_with_chars(&chars, &hunk) {
        DiffLineKind::Hunk
    } else {
        DiffLineKind::Plain
    }
}

/// The number of lines that a preview of at most `max_lines` lines leaves
/// out.
pub fn hidden_lines(total_lines: usize, max_lines: usize) -> (r: usize)
    ensures
        total_lines > max_lines ==> r == total_lines - max_lines,
        total_lines <= max_lines ==> r == 0,
{
    if total_lines > max_lines {
        total_lines - max_lines
    } else {
        0
    }
}

/// The credential that the user entered, without surrounding white space;
/// `None` where nothing but white space was entered.
pub fn accept_api_key(entered: &str) -> (r: Option<String>)
    ensures
        trim(entered@).len() > 0 ==> opt_text(r) == Some(trim(entered@)),
        trim(entered@).len() == 0 ==> r is None,
{
    let trimmed = trim_chars(&to_chars(entered));
    if trimmed.len() == 0 {
        None
    } else {
        Some(to_text(&trimmed))
    }
}

} // verus!
