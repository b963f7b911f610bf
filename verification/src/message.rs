//! The structured commit message and its two textual renderings.

use vstd::prelude::*;
use vstd::string::*;

verus! {

/// The characters of an optional string, or `None` where it is absent.
pub open spec fn opt_text(o: Option<String>) -> Option<Seq<char>> {
    match o {
        Some(s) => Some(s@),
        None => None,
    }
}

/// What is known about the change when a message is generated for it.
#[derive(Debug, Clone)]
pub struct CommitContext {
    pub branch_name: Option<String>,
    pub file_count: usize,
    pub added_lines: usize,
    pub removed_lines: usize,
}

/// A commit message in the parts that Conventional Commits names.
#[derive(Debug, Clone, PartialEq, Eq)]
pub struct CommitMessage {
    pub commit_type: String,
    pub scope: Option<String>,
    pub description: String,
    pub body: Option<String>,
    pub breaking_change: Option<String>,
}

/// The mathematical content of a [`CommitMessage`].
pub ghost struct MessageModel {
    pub commit_type: Seq<char>,
    pub scope: Option<Seq<char>>,
    pub description: Seq<char>,
    pub body: Option<Seq<char>>,
    pub breaking_change: Option<Seq<char>>,
}

impl View for CommitMessage {
    type V = MessageModel;

    open spec fn view(&self) -> MessageModel {
        MessageModel {
            commit_type: self.commit_type@,
            scope: opt_text(self.scope),
            description: self.description@,
            body: opt_text(self.body),
            breaking_change: opt_text(self.breaking_change),
        }
    }
}

impl MessageModel {
    /// A message is well formed when it has a summary to show.
    pub open spec fn well_formed(self) -> bool {
        self.description.len() > 0
    }

    /// `(scope)`, or nothing where the message has no scope.
    pub open spec fn scope_section(self) -> Seq<char> {
        match self.scope {
            Some(scope) => "("@ + scope + ")"@,
            None => Seq::empty(),
        }
    }

    /// The first line: `type(scope): description`.
    pub open spec fn header(self) -> Seq<char> {
        self.commit_type + self.scope_section() + ": "@ + self.description
    }

    /// A blank line and the body, or nothing where the message has no body.
    pub open spec fn body_section(self) -> Seq<char> {
        match self.body {
            Some(body) => "\n\n"@ + body,
            None => Seq::empty(),
        }
    }

    /// A blank line and the breaking-change trailer, or nothing where the
    /// message notes no breaking change.
    pub open spec fn breaking_section(self) -> Seq<char> {
        match self.breaking_change {
            Some(note) => "\n\n"@ + "BREAKING CHANGE: "@ + note,
            None => Seq::empty(),
        }
    }

    /// The full Conventional Commits text.
    pub open spec fn conventional(self) -> Seq<char> {
        self.header() + self.body_section() + self.breaking_section()
    }
}

impl CommitMessage {
    /// Whether the message satisfies the invariant of a parsed message.
    pub open spec fn well_formed(&self) -> bool {
        self@.well_formed()
    }

    /// Renders the message in full: the header, then the body and the
    /// breaking-change trailer, each after a blank line and only if present.
    pub fn format_conventional(&self) -> (r: String)
        ensures
            r@ == self@.conventional(),
            self.body is None && self.breaking_change is None ==> r@ == self@.header(),
    {
        let mut message = String::new();
        message.append(self.commit_type.as_str());
        if let Some(scope) = &self.scope {
            message.append("(");
            message.append(scope.as_str());
            message.append(")");
        }
        message.append(": ");
        message.append(self.description.as_str());
        assert(message@ =~= self@.header());
        if let Some(body) = &self.body {
            message.append("\n\n");
            message.append(body.as_str());
        }
        assert(message@ =~= self@.header() + self@.body_section());
        if let Some(breaking) = &self.breaking_change {
            message.append("\n\n");
            message.append("BREAKING CHANGE: ");
            message.append(breaking.as_str());
        }
        assert(message@ =~= self@.conventional());
        assert(self.body is None && self.breaking_change is None ==> self@.conventional()
            =~= self@.header());
        message
    }

    /// Renders the one-line form: the description, unchanged.
    pub fn format_simple(&self) -> (r: String)
        ensures
            r@ == self.description@,
    {
        self.description.clone()
    }
}

/// A message without a body renders no body section, and one without a
/// breaking-change note renders no trailer: what is left is the header and
/// the sections that are present.
pub proof fn lemma_absent_sections_are_omitted(m: MessageModel)
    ensures
        m.body is None ==> m.conventional() == m.header() + m.breaking_section(),
        m.breaking_change is None ==> m.conventional() == m.header() + m.body_section(),
        m.body is None && m.breaking_change is None ==> m.conventional() == m.header(),
        m.scope is None ==> m.header() == m.commit_type + ": "@ + m.description,
{
    assert(m.body is None ==> m.conventional() =~= m.header() + m.breaking_section());
    assert(m.breaking_change is None ==> m.conventional() =~= m.header() + m.body_section());
    assert(m.body is None && m.breaking_change is None ==> m.conventional() =~= m.header());
    assert(m.scope is None ==> m.header() =~= m.commit_type + ": "@ + m.description);
}

} // verus!
