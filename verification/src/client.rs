//! The uniform entry point: one client type over both providers, made
//! from a provider name, which prepares the request for a change and
//! turns the outcome of that request into a commit message.
//!
//! The library sends nothing itself.  A caller takes the request from
//! [`AIClient::prepare_request`], sends it once, and hands the outcome to
//! [`AIClient::complete`].

use vstd::prelude::*;
use vstd::string::*;
use crate::extract::{extract_message, message_of_reply, ParseError};
use crate::message::{opt_text, CommitContext, CommitMessage, MessageModel};
use crate::prompt::{build_prompt, prompt_text};
use crate::provider::{
    anthropic_reply,
    base_url_or,
    is_anthropic_request,
    is_openai_request,
    openai_reply,
    reply_is,
    AnthropicClient,
    EndpointModel,
    OpenAIClient,
};
use crate::text::{eq_ignoring_case, matches_ignoring_case, to_chars};
use crate::transport::{
    classify_status,
    concat,
    is_success,
    status_class,
    HttpOutcome,
    HttpRequest,
    OutcomeModel,
    ProviderKind,
    TransportError,
};

verus! {

/// A client for one of the providers.
pub enum AIClient {
    OpenAI(OpenAIClient),
    Anthropic(AnthropicClient),
}

/// Why no client could be made.
#[derive(Debug, Clone, PartialEq, Eq)]
pub enum ConfigError {
    /// The provider name is none that the library knows; it is kept as given.
    UnsupportedProvider(String),
    /// No credential was given.
    MissingCredential,
}

/// Why a generation did not yield a commit message.
#[derive(Debug, Clone, Copy, PartialEq, Eq, Structural)]
pub enum GenerationError {
    /// No reply text was obtained.
    Transport(TransportError),
    /// The reply holds no commit message.
    Parse(ParseError),
}

/// The provider that a name stands for.  The case of letters is ignored.
pub open spec fn provider_of(name: Seq<char>) -> Option<ProviderKind> {
    if matches_ignoring_case(name, "openai"@) {
        Some(ProviderKind::OpenAI)
    } else if matches_ignoring_case(name, "anthropic"@) {
        Some(ProviderKind::Anthropic)
    } else {
        None
    }
}

/// The base address that a provider has by default.
pub open spec fn default_base_url(kind: ProviderKind) -> Seq<char> {
    match kind {
        ProviderKind::OpenAI => "https://api.openai.com/v1"@,
        ProviderKind::Anthropic => "https://api.anthropic.com"@,
    }
}

/// The reply text in the body of a successful answer.
pub open spec fn envelope_reply(kind: ProviderKind, body: Seq<char>) -> Result<
    Seq<char>,
    TransportError,
> {
    match kind {
        ProviderKind::OpenAI => openai_reply(body),
        ProviderKind::Anthropic => anthropic_reply(body),
    }
}

/// The reply text that the outcome of a request gives, or the failure
/// that it amounts to.
pub open spec fn reply_of(kind: ProviderKind, outcome: OutcomeModel) -> Result<
    Seq<char>,
    TransportError,
> {
    match outcome {
        OutcomeModel::TimedOut => Err(TransportError::Timeout),
        OutcomeModel::ConnectionFailed => Err(TransportError::Network),
        OutcomeModel::Response { status, body } => if is_success(status) {
            envelope_reply(kind, body)
        } else {
            Err(TransportError::Http { class: status_class(status), status })
        },
    }
}

/// The commit message that the outcome of a request gives, or the failure
/// that it amounts to.
pub open spec fn generation_of(kind: ProviderKind, outcome: OutcomeModel) -> Result<
    MessageModel,
    GenerationError,
> {
    match reply_of(kind, outcome) {
        Err(e) => Err(GenerationError::Transport(e)),
        Ok(reply) => match message_of_reply(reply) {
            Ok(message) => Ok(message),
            Err(e) => Err(GenerationError::Parse(e)),
        },
    }
}

/// The message that goes with a configuration error.
pub open spec fn config_message(error: ConfigError) -> Seq<char> {
    match error {
        ConfigError::UnsupportedProvider(name) => "Unsupported AI provider: "@ + name@,
        ConfigError::MissingCredential => "No API key provided"@,
    }
}

impl ConfigError {
    /// The message to show for this error.
    pub fn message(&self) -> (r: String)
        ensures
            r@ == config_message(*self),
    {
        match self {
            ConfigError::UnsupportedProvider(name) => concat(
                "Unsupported AI provider: ",
                name.as_str(),
            ),
            ConfigError::MissingCredential => String::from_str("No API key provided"),
        }
    }
}

impl GenerationError {
    /// The message to show for this error.  It holds nothing of what the
    /// provider sent.
    pub fn message(&self, kind: ProviderKind) -> (r: String)
        ensures
            r@ == match *self {
                GenerationError::Transport(e) => crate::transport::transport_message(e, kind),
                GenerationError::Parse(e) => e.spec_message(),
            },
    {
        match self {
            GenerationError::Transport(e) => e.message(kind),
            GenerationError::Parse(e) => e.message(),
        }
    }
}

/// The provider that a name stands for.
pub fn parse_provider(name: &str) -> (r: Option<ProviderKind>)
    ensures
        r == provider_of(name@),
{
    let chars = to_chars(name);
    if eq_ignoring_case(&chars, &to_chars("openai")) {
        Some(ProviderKind::OpenAI)
    } else if eq_ignoring_case(&chars, &to_chars("anthropic")) {
        Some(ProviderKind::Anthropic)
    } else {
        None
    }
}

/// Makes the client for a provider name.
///
/// The name is `openai` or `anthropic`, in any case of letters.  Any other
/// name is rejected at once.  Without a base address the client talks to
/// the provider's own.
pub fn create_client(
    provider: &str,
    api_key: String,
    model: String,
    base_url: Option<String>,
) -> (r: Result<AIClient, ConfigError>)
    ensures
        r is Ok <==> provider_of(provider@) is Some,
        match r {
            Ok(client) => provider_of(provider@) == Some(client.kind()) && client.endpoint() == (
            EndpointModel {
                api_key: api_key@,
                model: model@,
                base_url: base_url_or(base_url, default_base_url(client.kind())),
            }),
            Err(e) => e matches ConfigError::UnsupportedProvider(name) && name@ == provider@,
        },
{
    match parse_provider(provider) {
        Some(ProviderKind::OpenAI) => Ok(
            AIClient::OpenAI(OpenAIClient::new(api_key, model, base_url)),
        ),
        Some(ProviderKind::Anthropic) => Ok(
            AIClient::Anthropic(AnthropicClient::new(api_key, model, base_url)),
        ),
        None => Err(ConfigError::UnsupportedProvider(String::from_str(provider))),
    }
}

/// The credential to use, where one was found.
pub fn require_api_key(found: Option<String>) -> (r: Result<String, ConfigError>)
    ensures
        match r {
            Ok(key) => found == Some(key),
            Err(e) => found is None && e == ConfigError::MissingCredential,
        },
{
    match found {
        Some(key) => Ok(key),
        None => Err(ConfigError::MissingCredential),
    }
}

/// Whether an outcome is the one that the model prescribes.
pub open spec fn generation_is(
    r: Result<CommitMessage, GenerationError>,
    expected: Result<MessageModel, GenerationError>,
) -> bool {
    match r {
        Ok(m) => expected == Ok::<MessageModel, GenerationError>(m@),
        Err(e) => expected == Err::<MessageModel, GenerationError>(e),
    }
}

impl AIClient {
    /// The provider that this client talks to.
    pub open spec fn kind(&self) -> ProviderKind {
        match self {
            AIClient::OpenAI(_) => ProviderKind::OpenAI,
            AIClient::Anthropic(_) => ProviderKind::Anthropic,
        }
    }

    /// What this client holds.
    pub open spec fn endpoint(&self) -> EndpointModel {
        match self {
            AIClient::OpenAI(client) => client@,
            AIClient::Anthropic(client) => client@,
        }
    }

    /// Whether `r` is the request that this client sends for a prompt.
    pub open spec fn sends(&self, r: HttpRequest, prompt: Seq<char>) -> bool {
        match self {
            AIClient::OpenAI(client) => is_openai_request(r, client@, prompt),
            AIClient::Anthropic(client) => is_anthropic_request(r, client@, prompt),
        }
    }

    /// The provider that this client talks to.
    pub fn provider(&self) -> (r: ProviderKind)
        ensures
            r == self.kind(),
    {
        match self {
            AIClient::OpenAI(_) => ProviderKind::OpenAI,
            AIClient::Anthropic(_) => ProviderKind::Anthropic,
        }
    }

    /// The request to send for a change: the provider's request for the
    /// prompt that the diff and its context give.
    pub fn prepare_request(&self, diff: &str, context: &CommitContext) -> (r: HttpRequest)
        ensures
            self.sends(
                r,
                prompt_text(
                    diff@,
                    opt_text(context.branch_name),
                    context.file_count as nat,
                    context.added_lines as nat,
                    context.removed_lines as nat,
                ),
            ),
    {
        let prompt = build_prompt(diff, context);
        match self {
            AIClient::OpenAI(client) => client.request(prompt),
            AIClient::Anthropic(client) => client.request(prompt),
        }
    }

    /// The reply text that the outcome of the request gives.
    ///
    /// A request that timed out or could not be sent fails as such.  An
    /// answer with a status outside 200 to 299 fails with the class of
    /// that status, whatever its body says.  A successful answer gives the
    /// reply text that the provider's protocol puts in it.
    pub fn read_reply(&self, outcome: &HttpOutcome) -> (r: Result<String, TransportError>)
        ensures
            reply_is(r, reply_of(self.kind(), outcome@)),
    {
        match outcome {
            HttpOutcome::TimedOut => Err(TransportError::Timeout),
            HttpOutcome::ConnectionFailed => Err(TransportError::Network),
            HttpOutcome::Response { status, body } => {
                if 200 <= *status && *status <= 299 {
                    match self {
                        AIClient::OpenAI(_) => OpenAIClient::read_reply(body.as_str()),
                        AIClient::Anthropic(_) => AnthropicClient::read_reply(body.as_str()),
                    }
                } else {
                    Err(TransportError::Http { class: classify_status(*status), status: *status })
                }
            },
        }
    }

    /// The commit message that the outcome of the request gives: the
    /// message recovered from the reply text, or the failure of transport
    /// or of parsing that stands in its way.
    pub fn complete(&self, outcome: &HttpOutcome) -> (r: Result<CommitMessage, GenerationError>)
        ensures
            generation_is(r, generation_of(self.kind(), outcome@)),
            r is Ok ==> r->Ok_0.well_formed(),
    {
        match self.read_reply(outcome) {
            Err(e) => Err(GenerationError::Transport(e)),
            Ok(reply) => match extract_message(reply.as_str()) {
                Ok(message) => Ok(message),
                Err(e) => Err(GenerationError::Parse(e)),
            },
        }
    }
}

/// An answer that does not report success fails with the class of its
/// status: the body has no part in it.
pub proof fn lemma_failure_ignores_body(
    kind: ProviderKind,
    status: u16,
    body: Seq<char>,
    other_body: Seq<char>,
)
    requires
        !is_success(status),
    ensures
        reply_of(kind, OutcomeModel::Response { status, body }) == Err::<
            Seq<char>,
            TransportError,
        >(TransportError::Http { class: status_class(status), status }),
        reply_of(kind, OutcomeModel::Response { status, body }) == reply_of(
            kind,
            OutcomeModel::Response { status, body: other_body },
        ),
        generation_of(kind, OutcomeModel::Response { status, body }) == Err::<
            MessageModel,
            GenerationError,
        >(GenerationError::Transport(TransportError::Http { class: status_class(status), status })),
{
}

} // verus!
