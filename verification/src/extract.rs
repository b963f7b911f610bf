//! Recovery of a structured commit message from the free-form reply of a
//! text-generation service.
//!
//! A reply is untrusted text.  It may be a bare JSON object, an object
//! with commentary around it, or an object inside a fenced block.  The
//! extraction first settles on a candidate text, in two ordered steps,
//! then reads the candidate as JSON and checks the fields it needs.

use vstd::prelude::*;
use vstd::string::*;
use crate::json::{
    is_null,
    json_document,
    json_is_null,
    json_member,
    json_string,
    member,
    parse_json,
    string_of,
};
use crate::message::{CommitMessage, MessageModel};
use crate::text::{
    all_whitespace,
    ends_with_chars,
    is_whitespace,
    lemma_trim_bounds,
    lemma_trim_of_padded,
    slice_chars,
    starts_with_chars,
    to_chars,
    to_text,
    trim,
    trim_chars,
};

verus! {

/// Why a reply did not yield a commit message.
#[derive(Debug, Clone, Copy, PartialEq, Eq, Structural)]
pub enum ParseError {
    /// The candidate text is not JSON.
    InvalidJson,
    /// The `description` member is missing or `null`.
    MissingDescription,
    /// The `description` member is the empty string.
    EmptyDescription,
    /// The `type` member is missing or `null`.
    MissingType,
    /// A member that has to be text, where present, holds something else.
    InvalidField,
}

/// What a JSON object holds under one key, as far as a commit message
/// depends on it.
#[derive(Debug, Clone, PartialEq, Eq)]
pub enum Field {
    /// The object has no such member, or the document is no object.
    Absent,
    /// The member is `null`.
    Null,
    /// The member is a string.
    Text(String),
    /// The member is a number, a boolean, an array or an object.
    Other,
}

/// The mathematical content of a [`Field`].
pub ghost enum FieldModel {
    Absent,
    Null,
    Text(Seq<char>),
    Other,
}

impl View for Field {
    type V = FieldModel;

    open spec fn view(&self) -> FieldModel {
        match self {
            Field::Absent => FieldModel::Absent,
            Field::Null => FieldModel::Null,
            Field::Text(s) => FieldModel::Text(s@),
            Field::Other => FieldModel::Other,
        }
    }
}

impl FieldModel {
    /// The text of an optional member: present only for a string.
    pub open spec fn optional(self) -> Option<Seq<char>> {
        match self {
            FieldModel::Text(s) => Some(s),
            _ => None,
        }
    }
}

/// The three backticks that open and close a fenced block.
pub open spec fn fence() -> Seq<char> {
    seq!['`', '`', '`']
}

/// Whether a trimmed reply is one fenced block: it opens and closes with
/// a fence, and the two fences do not overlap.
pub open spec fn is_fenced(t: Seq<char>) -> bool {
    t.len() >= 6 && fence().is_prefix_of(t) && fence().is_suffix_of(t)
}

/// The characters that a language tag is made of: ASCII letters and digits.
pub open spec fn is_tag_char(c: char) -> bool {
    ('a' <= c && c <= 'z') || ('A' <= c && c <= 'Z') || ('0' <= c && c <= '9')
}

/// The text after its leading language tag, if it has one.
pub open spec fn skip_tag(s: Seq<char>) -> Seq<char>
    decreases s.len(),
{
    if s.len() > 0 && is_tag_char(s[0]) {
        skip_tag(s.drop_first())
    } else {
        s
    }
}

/// The contents of a fenced block: what stands between the fences, without
/// the language tag and without surrounding white space.
pub open spec fn fence_inner(t: Seq<char>) -> Seq<char>
    recommends
        is_fenced(t),
{
    trim(skip_tag(t.subrange(3, t.len() - 3)))
}

/// The text from its first `{` to its last `}`, both included; the text
/// itself where it has no such pair.
pub open spec fn brace_span(t: Seq<char>) -> Seq<char> {
    match (t.index_of_first('{'), t.index_of_last('}')) {
        (Some(open), Some(close)) => if open <= close {
            t.subrange(open, close + 1)
        } else {
            t
        },
        _ => t,
    }
}

/// The part of a reply that is read as JSON.
///
/// A reply that is one fenced block gives the block's contents.  Any other
/// reply gives the span from its first `{` to its last `}`.
pub open spec fn json_candidate(raw: Seq<char>) -> Seq<char> {
    let t = trim(raw);
    if is_fenced(t) {
        fence_inner(t)
    } else {
        brace_span(t)
    }
}

/// What a parsed document holds under a key.
pub open spec fn field_of(doc: serde_json::Value, key: Seq<char>) -> FieldModel {
    match json_member(doc, key) {
        None => FieldModel::Absent,
        Some(value) => if json_is_null(value) {
            FieldModel::Null
        } else {
            match json_string(value) {
                Some(text) => FieldModel::Text(text),
                None => FieldModel::Other,
            }
        },
    }
}

/// The message that five members make, or the reason why they make none.
///
/// The description is required and must not be empty.  The type is
/// required too.  Scope, body and breaking-change note are optional: a
/// missing member and `null` both stand for absence.  No member may hold
/// anything but text or `null`.
pub open spec fn message_of_fields(
    commit_type: FieldModel,
    scope: FieldModel,
    description: FieldModel,
    body: FieldModel,
    breaking_change: FieldModel,
) -> Result<MessageModel, ParseError> {
    match description {
        FieldModel::Absent | FieldModel::Null => Err(ParseError::MissingDescription),
        FieldModel::Other => Err(ParseError::InvalidField),
        FieldModel::Text(summary) => if summary.len() == 0 {
            Err(ParseError::EmptyDescription)
        } else {
            match commit_type {
                FieldModel::Absent | FieldModel::Null => Err(ParseError::MissingType),
                FieldModel::Other => Err(ParseError::InvalidField),
                FieldModel::Text(kind) => if scope is Other || body is Other
                    || breaking_change is Other {
                    Err(ParseError::InvalidField)
                } else {
                    Ok(
                        MessageModel {
                            commit_type: kind,
                            scope: scope.optional(),
                            description: summary,
                            body: body.optional(),
                            breaking_change: breaking_change.optional(),
                        },
                    )
                },
            }
        },
    }
}

/// The message that a candidate text holds.
pub open spec fn message_of_candidate(candidate: Seq<char>) -> Result<MessageModel, ParseError> {
    match json_document(candidate) {
        None => Err(ParseError::InvalidJson),
        Some(doc) => message_of_fields(
            field_of(doc, "type"@),
            field_of(doc, "scope"@),
            field_of(doc, "description"@),
            field_of(doc, "body"@),
            field_of(doc, "breaking_change"@),
        ),
    }
}

/// The message that a reply holds.
pub open spec fn message_of_reply(raw: Seq<char>) -> Result<MessageModel, ParseError> {
    message_of_candidate(json_candidate(raw))
}

/// Whether an outcome is the one that the model prescribes.
pub open spec fn outcome_is(
    r: Result<CommitMessage, ParseError>,
    expected: Result<MessageModel, ParseError>,
) -> bool {
    match r {
        Ok(m) => expected == Ok::<MessageModel, ParseError>(m@),
        Err(e) => expected == Err::<MessageModel, ParseError>(e),
    }
}

impl ParseError {
    /// The short diagnostic that goes with this error.
    pub open spec fn spec_message(self) -> Seq<char> {
        match self {
            ParseError::InvalidJson => "AI response is not valid JSON"@,
            ParseError::MissingDescription => "AI response has no description"@,
            ParseError::EmptyDescription => "AI response has an empty description"@,
            ParseError::MissingType => "AI response has no commit type"@,
            ParseError::InvalidField => "AI response has a field that is not text"@,
        }
    }

    /// A short diagnostic for display.  It never quotes the reply.
    pub fn message(&self) -> (r: String)
        ensures
            r@ == self.spec_message(),
    {
        match self {
            ParseError::InvalidJson => String::from_str("AI response is not valid JSON"),
            ParseError::MissingDescription => String::from_str("AI response has no description"),
            ParseError::EmptyDescription => String::from_str(
                "AI response has an empty description",
            ),
            ParseError::MissingType => String::from_str("AI response has no commit type"),
            ParseError::InvalidField => String::from_str(
                "AI response has a field that is not text",
            ),
        }
    }
}

fn find_first(v: &Vec<char>, c: char) -> (r: Option<usize>)
    ensures
        match r {
            Some(i) => i < v.len() && v@.index_of_first(c) == Some(i as int),
            None => v@.index_of_first(c) is None,
        },
{
    let mut i: usize = 0;
    while i < v.len()
        invariant
            i <= v.len(),
            forall|k: int| 0 <= k < i ==> v@[k] != c,
        decreases v.len() - i,
    {
        if v[i] == c {
            proof {
                v@.index_of_first_ensures(c);
                assert(v@.contains(c));
            }
            return Some(i);
        }
        i += 1;
    }
    proof {
        v@.index_of_first_ensures(c);
    }
    None
}

fn find_last(v: &Vec<char>, c: char) -> (r: Option<usize>)
    ensures
        match r {
            Some(i) => i < v.len() && v@.index_of_last(c) == Some(i as int),
            None => v@.index_of_last(c) is None,
        },
{
    let mut i: usize = v.len();
    while i > 0
        invariant
            i <= v.len(),
            forall|k: int| i <= k < v.len() ==> v@[k] != c,
        decreases i,
    {
        i -= 1;
        if v[i] == c {
            proof {
                v@.index_of_last_ensures(c);
                assert(v@.contains(c));
            }
            return Some(i);
        }
    }
    proof {
        v@.index_of_last_ensures(c);
    }
    None
}

fn char_is_tag(c: char) -> (r: bool)
    ensures
        r == is_tag_char(c),
{
    ('a' <= c && c <= 'z') || ('A' <= c && c <= 'Z') || ('0' <= c && c <= '9')
}

/// Skipping the tag removes exactly the leading run of tag characters.
pub proof fn lemma_skip_tag_skips(s: Seq<char>, a: int)
    requires
        0 <= a <= s.len(),
        forall|k: int| 0 <= k < a ==> is_tag_char(#[trigger] s[k]),
        a < s.len() ==> !is_tag_char(s[a]),
    ensures
        skip_tag(s) == s.subrange(a, s.len() as int),
    decreases a,
{
    if a == 0 {
        assert(s.subrange(0, s.len() as int) =~= s);
    } else {
        let rest = s.drop_first();
        assert forall|k: int| 0 <= k < a - 1 implies is_tag_char(#[trigger] rest[k]) by {
            assert(rest[k] == s[k + 1]);
        }
        lemma_skip_tag_skips(rest, a - 1);
        assert(rest.subrange(a - 1, rest.len() as int) =~= s.subrange(a, s.len() as int));
    }
}

fn brace_span_chars(t: &Vec<char>) -> (r: Vec<char>)
    ensures
        r@ == brace_span(t@),
{
    match (find_first(t, '{'), find_last(t, '}')) {
        (Some(open), Some(close)) => {
            if open <= close {
                slice_chars(t, open, close + 1)
            } else {
                slice_chars(t, 0, t.len())
            }
        },
        _ => {
            assert(t@.subrange(0, t@.len() as int) =~= t@);
            slice_chars(t, 0, t.len())
        },
    }
}

fn fence_inner_chars(t: &Vec<char>) -> (r: Vec<char>)
    requires
        is_fenced(t@),
    ensures
        r@ == fence_inner(t@),
{
    let inner = slice_chars(t, 3, t.len() - 3);
    let mut i: usize = 0;
    while i < inner.len() && char_is_tag(inner[i])
        invariant
            i <= inner.len(),
            forall|k: int| 0 <= k < i ==> is_tag_char(#[trigger] inner@[k]),
        decreases inner.len() - i,
    {
        i += 1;
    }
    proof {
        lemma_skip_tag_skips(inner@, i as int);
    }
    let untagged = slice_chars(&inner, i, inner.len());
    trim_chars(&untagged)
}

/// The part of a reply that is read as JSON.
pub fn extract_json_candidate(raw: &str) -> (r: String)
    ensures
        r@ == json_candidate(raw@),
{
    let chars = to_chars(raw);
    let t = trim_chars(&chars);
    let marker = to_chars("```");
    proof {
        reveal_strlit("```");
        assert(marker@ =~= fence());
    }
    let candidate = if t.len() >= 6 && starts_with_chars(&t, &marker) && ends_with_chars(
        &t,
        &marker,
    ) {
        fence_inner_chars(&t)
    } else {
        brace_span_chars(&t)
    };
    to_text(&candidate)
}

/// Reads one member of a parsed document.
fn read_field(doc: &serde_json::Value, key: &str) -> (r: Field)
    ensures
        r@ == field_of(*doc, key@),
{
    match member(doc, key) {
        None => Field::Absent,
        Some(value) => {
            if is_null(value) {
                Field::Null
            } else {
                match string_of(value) {
                    Some(text) => Field::Text(String::from_str(text)),
                    None => Field::Other,
                }
            }
        },
    }
}

fn optional_text(f: Field) -> (r: Option<String>)
    ensures
        crate::message::opt_text(r) == f@.optional(),
{
    match f {
        Field::Text(s) => Some(s),
        _ => None,
    }
}

/// Builds the message that five members make, or says why they make none.
pub fn message_from_fields(
    commit_type: Field,
    scope: Field,
    description: Field,
    body: Field,
    breaking_change: Field,
) -> (r: Result<CommitMessage, ParseError>)
    ensures
        outcome_is(
            r,
            message_of_fields(commit_type@, scope@, description@, body@, breaking_change@),
        ),
        r is Ok ==> r->Ok_0.well_formed(),
{
    let summary = match description {
        Field::Absent => { return Err(ParseError::MissingDescription); },
        Field::Null => { return Err(ParseError::MissingDescription); },
        Field::Other => { return Err(ParseError::InvalidField); },
        Field::Text(s) => s,
    };
    if summary.as_str().unicode_len() == 0 {
        return Err(ParseError::EmptyDescription);
    }
    let kind = match commit_type {
        Field::Absent => { return Err(ParseError::MissingType); },
        Field::Null => { return Err(ParseError::MissingType); },
        Field::Other => { return Err(ParseError::InvalidField); },
        Field::Text(s) => s,
    };
    if matches!(scope, Field::Other) || matches!(body, Field::Other) || matches!(
        breaking_change,
        Field::Other
    ) {
        return Err(ParseError::InvalidField);
    }
    Ok(
        CommitMessage {
            commit_type: kind,
            scope: optional_text(scope),
            description: summary,
            body: optional_text(body),
            breaking_change: optional_text(breaking_change),
        },
    )
}

/// Reads a candidate text as JSON and builds the message it holds.
pub fn parse_candidate(candidate: &str) -> (r: Result<CommitMessage, ParseError>)
    ensures
        outcome_is(r, message_of_candidate(candidate@)),
        r is Ok ==> r->Ok_0.well_formed(),
{
    match parse_json(candidate) {
        Err(_) => Err(ParseError::InvalidJson),
        Ok(doc) => {
            let commit_type = read_field(&doc, "type");
            let scope = read_field(&doc, "scope");
            let description = read_field(&doc, "description");
            let body = read_field(&doc, "body");
            let breaking_change = read_field(&doc, "breaking_change");
            message_from_fields(commit_type, scope, description, body, breaking_change)
        },
    }
}

/// Recovers the commit message from the raw reply of the service.
///
/// The reply is trimmed.  If it is one fenced block, with or without a
/// language tag, the block's contents are the candidate; otherwise the
/// candidate runs from the first `{` to the last `}`.  The candidate is
/// read as a JSON object with the members `type`, `scope`, `description`,
/// `body` and `breaking_change`; other members are ignored.
///
/// A message is returned only with a description that is not empty.  The
/// `type` member is required as well: a reply without one is rejected.
pub fn extract_message(raw_reply: &str) -> (r: Result<CommitMessage, ParseError>)
    ensures
        outcome_is(r, message_of_reply(raw_reply@)),
        r is Ok ==> r->Ok_0.well_formed(),
{
    let candidate = extract_json_candidate(raw_reply);
    parse_candidate(candidate.as_str())
}

/// Whether a text has the outline of a JSON object: it opens with `{`
/// and closes with `}`.
pub open spec fn is_object_text(json: Seq<char>) -> bool {
    json.len() >= 2 && json.first() == '{' && json.last() == '}'
}

/// Whether every character of the text may stand in a language tag.
pub open spec fn all_tag_chars(s: Seq<char>) -> bool {
    forall|i: int| 0 <= i < s.len() ==> is_tag_char(#[trigger] s[i])
}

/// A reply that is nothing but a JSON object is its own candidate.
pub proof fn lemma_candidate_of_bare_object(json: Seq<char>)
    requires
        is_object_text(json),
    ensures
        json_candidate(json) == json,
{
    let none = Seq::<char>::empty();
    lemma_trim_of_padded(none, json, none);
    assert(none + json + none =~= json);
    assert(!is_fenced(json)) by {
        if fence().is_prefix_of(json) {
            assert(json.subrange(0, 3)[0] == json[0]);
            assert(fence()[0] == '`');
        }
    }
    lemma_span_of_object(json, 0, json.len() as int);
    assert(json.subrange(0, json.len() as int) =~= json);
}

/// In a text that holds an object from `lo` to `hi`, with no `{` before
/// it and no `}` after it, the span from the first `{` to the last `}` is
/// that object.
proof fn lemma_span_of_object(t: Seq<char>, lo: int, hi: int)
    requires
        0 <= lo,
        lo + 2 <= hi <= t.len(),
        t[lo] == '{',
        t[hi - 1] == '}',
        forall|k: int| 0 <= k < lo ==> t[k] != '{',
        forall|k: int| hi <= k < t.len() ==> t[k] != '}',
    ensures
        brace_span(t) == t.subrange(lo, hi),
{
    t.index_of_first_ensures('{');
    t.index_of_last_ensures('}');
    assert(t.contains('{'));
    assert(t.contains('}'));
    let open = t.index_of_first('{').unwrap();
    let close = t.index_of_last('}').unwrap();
    assert(open == lo);
    assert(close == hi - 1);
}

/// A JSON object with commentary before and after it is the candidate of
/// the whole reply, provided that the commentary before it holds no `{`,
/// the commentary after it holds no `}`, and the reply as a whole is not
/// one fenced block.
pub proof fn lemma_candidate_of_object_in_prose(
    before: Seq<char>,
    json: Seq<char>,
    after: Seq<char>,
)
    requires
        is_object_text(json),
        !before.contains('{'),
        !after.contains('}'),
        !is_fenced(trim(before + json + after)),
    ensures
        json_candidate(before + json + after) == json,
{
    let whole = before + json + after;
    let p = before.len() as int;
    let q = p + json.len();
    let bounds = lemma_trim_bounds(whole);
    let a = bounds.0;
    let b = bounds.1;
    let t = trim(whole);
    assert(whole[p] == json[0]);
    assert(whole[q - 1] == json[json.len() - 1]);
    assert(a <= p) by {
        if p < a {
            assert(is_whitespace(whole[p]));
        }
    }
    assert(q <= b) by {
        if b < q {
            assert(is_whitespace(whole[q - 1]));
        }
    }
    assert forall|k: int| 0 <= k < p - a implies t[k] != '{' by {
        assert(t[k] == whole[k + a]);
        assert(whole[k + a] == before[k + a]);
    }
    assert forall|k: int| q - a <= k < t.len() implies t[k] != '}' by {
        assert(t[k] == whole[k + a]);
        assert(whole[k + a] == after[k + a - q]);
    }
    assert(t[p - a] == whole[p]);
    assert(t[q - a - 1] == whole[q - 1]);
    lemma_span_of_object(t, p - a, q - a);
    assert(t.subrange(p - a, q - a) =~= json);
}

/// A JSON object inside a fenced block is the candidate of the reply,
/// whether the block names a language or not, and whatever white space
/// stands around the block and around the object.
pub proof fn lemma_candidate_of_fenced_object(
    lead: Seq<char>,
    tag: Seq<char>,
    gap: Seq<char>,
    json: Seq<char>,
    end_gap: Seq<char>,
    trail: Seq<char>,
)
    requires
        is_object_text(json),
        all_tag_chars(tag),
        all_whitespace(lead),
        all_whitespace(gap),
        all_whitespace(end_gap),
        all_whitespace(trail),
    ensures
        json_candidate(lead + fence() + tag + gap + json + end_gap + fence() + trail) == json,
{
    let block = fence() + tag + gap + json + end_gap + fence();
    let whole = lead + fence() + tag + gap + json + end_gap + fence() + trail;
    assert(whole =~= lead + block + trail);
    assert(block.first() == '`');
    assert(block.last() == '`');
    lemma_trim_of_padded(lead, block, trail);
    assert(trim(whole) == block);
    assert(block.subrange(0, 3) =~= fence());
    assert(block.subrange(block.len() - 3, block.len() as int) =~= fence());
    assert(is_fenced(block));
    let inner = block.subrange(3, block.len() - 3);
    let body = gap + json + end_gap;
    assert(inner =~= tag + body);
    let n = tag.len() as int;
    assert forall|k: int| 0 <= k < n implies is_tag_char(#[trigger] inner[k]) by {
        assert(inner[k] == tag[k]);
    }
    assert(!is_tag_char(inner[n])) by {
        if gap.len() > 0 {
            assert(inner[n] == gap[0]);
            assert(is_whitespace(gap[0]));
        } else {
            assert(inner[n] == json[0]);
        }
    }
    lemma_skip_tag_skips(inner, n);
    assert(inner.subrange(n, inner.len() as int) =~= body);
    lemma_trim_of_padded(gap, json, end_gap);
}

/// The four ways of handing over one JSON object give one outcome: the
/// object alone, the object amid commentary, the object in a fenced block
/// with a language tag, and the object in a fenced block without one.
pub proof fn lemma_wrappings_agree(
    json: Seq<char>,
    before: Seq<char>,
    after: Seq<char>,
    tag: Seq<char>,
    gap: Seq<char>,
    end_gap: Seq<char>,
)
    requires
        is_object_text(json),
        !before.contains('{'),
        !after.contains('}'),
        !is_fenced(trim(before + json + after)),
        all_tag_chars(tag),
        all_whitespace(gap),
        all_whitespace(end_gap),
    ensures
        message_of_reply(json) == message_of_candidate(json),
        message_of_reply(before + json + after) == message_of_candidate(json),
        message_of_reply(fence() + tag + gap + json + end_gap + fence()) == message_of_candidate(
            json,
        ),
        message_of_reply(fence() + gap + json + end_gap + fence()) == message_of_candidate(json),
{
    let none = Seq::<char>::empty();
    lemma_candidate_of_bare_object(json);
    lemma_candidate_of_object_in_prose(before, json, after);
    lemma_candidate_of_fenced_object(none, tag, gap, json, end_gap, none);
    assert(none + fence() + tag + gap + json + end_gap + fence() + none =~= fence() + tag + gap
        + json + end_gap + fence());
    lemma_candidate_of_fenced_object(none, none, gap, json, end_gap, none);
    assert(none + fence() + none + gap + json + end_gap + fence() + none =~= fence() + gap + json
        + end_gap + fence());
}

/// No message comes without a description: where the `description` member
/// is missing, `null` or empty, the outcome is an error, whatever the
/// other members hold.  A message that does come carries the description
/// and the type as they stand in the object.
pub proof fn lemma_description_is_required(
    commit_type: FieldModel,
    scope: FieldModel,
    description: FieldModel,
    body: FieldModel,
    breaking_change: FieldModel,
)
    ensures
        ({
            let outcome = message_of_fields(commit_type, scope, description, body, breaking_change);
            &&& description is Absent || description is Null ==> outcome == Err::<
                MessageModel,
                ParseError,
            >(ParseError::MissingDescription)
            &&& description == FieldModel::Text(Seq::<char>::empty()) ==> outcome == Err::<
                MessageModel,
                ParseError,
            >(ParseError::EmptyDescription)
            &&& outcome is Ok ==> {
                &&& outcome->Ok_0.well_formed()
                &&& description == FieldModel::Text(outcome->Ok_0.description)
                &&& commit_type == FieldModel::Text(outcome->Ok_0.commit_type)
            }
        }),
{
}

/// A reply whose candidate is JSON without a usable description yields an
/// error.
pub proof fn lemma_reply_without_description_fails(raw: Seq<char>)
    requires
        json_document(json_candidate(raw)) is Some,
        ({
            let d = field_of(json_document(json_candidate(raw))->Some_0, "description"@);
            d is Absent || d is Null || d == FieldModel::Text(Seq::<char>::empty())
        }),
    ensures
        message_of_reply(raw) is Err,
        message_of_reply(raw) == Err::<MessageModel, ParseError>(ParseError::MissingDescription)
            || message_of_reply(raw) == Err::<MessageModel, ParseError>(
            ParseError::EmptyDescription,
        ),
{
}

} // verus!
