//! The prompt that asks the service for a commit message.
//!
//! The prompt is a fixed template around five values: the branch name, the
//! three change counts and the diff.  The diff is cut to a fixed budget of
//! characters so that the size of the request is bounded.

use vstd::prelude::*;
use vstd::string::*;
use crate::message::{opt_text, CommitContext};
use crate::text::{decimal, decimal_chars, lemma_decimal_len_usize, to_text};

verus! {

/// The number of characters of a diff that a prompt carries at most.
pub const MAX_DIFF_CHARS: usize = 3000;

/// The number of characters of the fixed template text.
pub const TEMPLATE_CHARS: usize = 594;

/// The number of digits that the three counts take at most.
pub const COUNT_CHARS: usize = 60;

/// The first `limit` characters of a text; the whole text where it is no
/// longer than that.
pub open spec fn truncated(d: Seq<char>, limit: nat) -> Seq<char> {
    if d.len() <= limit {
        d
    } else {
        d.take(limit as int)
    }
}

/// The name that the prompt shows for the branch.
pub open spec fn branch_label(branch: Option<Seq<char>>) -> Seq<char> {
    match branch {
        Some(name) => name,
        None => "unknown"@,
    }
}

/// The template text before the branch name.
pub open spec fn template_intro() -> Seq<char> {
    "You are a Git commit message generator. Based on the following git diff, generate a structured commit message.\n\nContext:\n- Branch: "@
}

/// The template text after the diff: the instructions for the reply.
pub open spec fn template_instructions() -> Seq<char> {
    "\n```\n\nGenerate a commit message following the Conventional Commits specification:\n- type: feat, fix, docs, style, refactor, test, chore, perf\n- scope: optional, the component or area affected\n- description: brief description (50 chars or less)\n- body: optional, detailed explanation\n- breaking_change: optional, if there are breaking changes\n\nRespond with a JSON object containing these fields.\n"@
}

/// The prompt for a diff and its context.
pub open spec fn prompt_text(
    diff: Seq<char>,
    branch: Option<Seq<char>>,
    file_count: nat,
    added_lines: nat,
    removed_lines: nat,
) -> Seq<char> {
    template_intro() + branch_label(branch) + "\n- Files changed: "@ + decimal(file_count)
        + "\n- Lines added: "@ + decimal(added_lines) + "\n- Lines removed: "@ + decimal(
        removed_lines,
    ) + "\n\nGit Diff:\n```\n"@ + truncated(diff, MAX_DIFF_CHARS as nat) + template_instructions()
}

/// Whether `needle` stands somewhere in `hay`, as one unbroken run.
pub open spec fn occurs_in(needle: Seq<char>, hay: Seq<char>) -> bool {
    exists|i: int|
        0 <= i && i + needle.len() <= hay.len() && #[trigger] hay.subrange(
            i,
            i + needle.len(),
        ) == needle
}

/// A text occurs in whatever is built around it.
pub proof fn lemma_occurs_between(before: Seq<char>, needle: Seq<char>, after: Seq<char>)
    ensures
        occurs_in(needle, before + needle + after),
{
    let hay = before + needle + after;
    let i = before.len() as int;
    assert(hay.subrange(i, i + needle.len()) =~= needle);
}

/// Cutting a text that was already cut to the same budget changes nothing.
pub proof fn lemma_truncated_idempotent(d: Seq<char>, limit: nat)
    ensures
        truncated(truncated(d, limit), limit) == truncated(d, limit),
        truncated(d, limit).len() <= limit,
        truncated(d, limit).is_prefix_of(d),
{
    assert(truncated(d, limit).is_prefix_of(d));
}

/// A prompt depends on no more of the diff than the budget admits: the
/// diff and its cut give the same prompt.
pub proof fn lemma_prompt_ignores_tail(
    diff: Seq<char>,
    branch: Option<Seq<char>>,
    file_count: nat,
    added_lines: nat,
    removed_lines: nat,
)
    ensures
        prompt_text(truncated(diff, MAX_DIFF_CHARS as nat), branch, file_count, added_lines, removed_lines)
            == prompt_text(diff, branch, file_count, added_lines, removed_lines),
{
    lemma_truncated_idempotent(diff, MAX_DIFF_CHARS as nat);
}

/// Every prompt shows the three counts and the branch name, or the word
/// `unknown` where no branch is known, and is no longer than the diff
/// budget, the template and the values around the diff allow.
pub proof fn lemma_prompt_shows_context(
    diff: Seq<char>,
    branch: Option<Seq<char>>,
    file_count: usize,
    added_lines: usize,
    removed_lines: usize,
)
    ensures
        ({
            let p = prompt_text(
                diff,
                branch,
                file_count as nat,
                added_lines as nat,
                removed_lines as nat,
            );
            &&& occurs_in(branch_label(branch), p)
            &&& occurs_in(decimal(file_count as nat), p)
            &&& occurs_in(decimal(added_lines as nat), p)
            &&& occurs_in(decimal(removed_lines as nat), p)
            &&& occurs_in(truncated(diff, MAX_DIFF_CHARS as nat), p)
            &&& branch is None ==> occurs_in("unknown"@, p)
            &&& p.len() == TEMPLATE_CHARS + branch_label(branch).len() + decimal(
                file_count as nat,
            ).len() + decimal(added_lines as nat).len() + decimal(removed_lines as nat).len()
                + truncated(diff, MAX_DIFF_CHARS as nat).len()
            &&& p.len() <= MAX_DIFF_CHARS + TEMPLATE_CHARS + COUNT_CHARS + branch_label(
                branch,
            ).len()
        }),
{
    let p = prompt_text(diff, branch, file_count as nat, added_lines as nat, removed_lines as nat);
    let p0 = template_intro();
    let l = branch_label(branch);
    let p1 = "\n- Files changed: "@;
    let f = decimal(file_count as nat);
    let p2 = "\n- Lines added: "@;
    let a = decimal(added_lines as nat);
    let p3 = "\n- Lines removed: "@;
    let r = decimal(removed_lines as nat);
    let p4 = "\n\nGit Diff:\n```\n"@;
    let d = truncated(diff, MAX_DIFF_CHARS as nat);
    let p5 = template_instructions();
    assert(p == p0 + l + p1 + f + p2 + a + p3 + r + p4 + d + p5);
    assert(p =~= p0 + l + (p1 + f + p2 + a + p3 + r + p4 + d + p5));
    lemma_occurs_between(p0, l, p1 + f + p2 + a + p3 + r + p4 + d + p5);
    assert(p =~= (p0 + l + p1) + f + (p2 + a + p3 + r + p4 + d + p5));
    lemma_occurs_between(p0 + l + p1, f, p2 + a + p3 + r + p4 + d + p5);
    assert(p =~= (p0 + l + p1 + f + p2) + a + (p3 + r + p4 + d + p5));
    lemma_occurs_between(p0 + l + p1 + f + p2, a, p3 + r + p4 + d + p5);
    assert(p =~= (p0 + l + p1 + f + p2 + a + p3) + r + (p4 + d + p5));
    lemma_occurs_between(p0 + l + p1 + f + p2 + a + p3, r, p4 + d + p5);
    lemma_occurs_between(p0 + l + p1 + f + p2 + a + p3 + r + p4, d, p5);
    reveal_strlit(
        "You are a Git commit message generator. Based on the following git diff, generate a structured commit message.\n\nContext:\n- Branch: ",
    );
    reveal_strlit("\n- Files changed: ");
    reveal_strlit("\n- Lines added: ");
    reveal_strlit("\n- Lines removed: ");
    reveal_strlit("\n\nGit Diff:\n```\n");
    reveal_strlit(
        "\n```\n\nGenerate a commit message following the Conventional Commits specification:\n- type: feat, fix, docs, style, refactor, test, chore, perf\n- scope: optional, the component or area affected\n- description: brief description (50 chars or less)\n- body: optional, detailed explanation\n- breaking_change: optional, if there are breaking changes\n\nRespond with a JSON object containing these fields.\n",
    );
    lemma_decimal_len_usize(file_count);
    lemma_decimal_len_usize(added_lines);
    lemma_decimal_len_usize(removed_lines);
}

/// Cuts a diff to at most `max_chars` characters.
///
/// The cut is a hard one: what lies beyond the budget is dropped from the
/// tail.  The budget counts characters, so the cut never falls inside one.
pub fn truncate_diff(diff: &str, max_chars: usize) -> (r: &str)
    ensures
        r@ == truncated(diff@, max_chars as nat),
        r@.len() <= max_chars,
        r@.is_prefix_of(diff@),
        truncated(r@, max_chars as nat) == r@,
{
    proof {
        lemma_truncated_idempotent(diff@, max_chars as nat);
    }
    if diff.unicode_len() <= max_chars {
        diff
    } else {
        diff.substring_char(0, max_chars)
    }
}

/// Builds the prompt for a diff and its context.
///
/// The prompt names the branch, or `unknown` where there is none, gives
/// the three counts in decimal, and carries the diff cut to
/// [`MAX_DIFF_CHARS`] characters.  An empty diff gives a prompt like any
/// other.
pub fn build_prompt(diff: &str, context: &CommitContext) -> (r: String)
    ensures
        r@ == prompt_text(
            diff@,
            opt_text(context.branch_name),
            context.file_count as nat,
            context.added_lines as nat,
            context.removed_lines as nat,
        ),
        occurs_in(branch_label(opt_text(context.branch_name)), r@),
        occurs_in(decimal(context.file_count as nat), r@),
        occurs_in(decimal(context.added_lines as nat), r@),
        occurs_in(decimal(context.removed_lines as nat), r@),
        r@.len() <= MAX_DIFF_CHARS + TEMPLATE_CHARS + COUNT_CHARS + branch_label(
            opt_text(context.branch_name),
        ).len(),
{
    let mut prompt = String::from_str(
        "You are a Git commit message generator. Based on the following git diff, generate a structured commit message.\n\nContext:\n- Branch: ",
    );
    match &context.branch_name {
        Some(name) => prompt.append(name.as_str()),
        None => prompt.append("unknown"),
    }
    prompt.append("\n- Files changed: ");
    prompt.append(to_text(&decimal_chars(context.file_count)).as_str());
    prompt.append("\n- Lines added: ");
    prompt.append(to_text(&decimal_chars(context.added_lines)).as_str());
    prompt.append("\n- Lines removed: ");
    prompt.append(to_text(&decimal_chars(context.removed_lines)).as_str());
    prompt.append("\n\nGit Diff:\n```\n");
    prompt.append(truncate_diff(diff, MAX_DIFF_CHARS));
    prompt.append(
        "\n```\n\nGenerate a commit message following the Conventional Commits specification:\n- type: feat, fix, docs, style, refactor, test, chore, perf\n- scope: optional, the component or area affected\n- description: brief description (50 chars or less)\n- body: optional, detailed explanation\n- breaking_change: optional, if there are breaking changes\n\nRespond with a JSON object containing these fields.\n",
    );
    proof {
        lemma_prompt_shows_context(
            diff@,
            opt_text(context.branch_name),
            context.file_count,
            context.added_lines,
            context.removed_lines,
        );
    }
    prompt
}

} // verus!
