//! What goes over the wire and what comes back: the request that a
//! provider is sent, the outcome of sending it, and the classification of
//! failures into a small vocabulary that is safe to show.

use vstd::prelude::*;
use vstd::string::*;

verus! {

/// The seconds allowed for establishing a connection.
pub const CONNECT_TIMEOUT_SECS: u64 = 10;

/// The seconds allowed for a request as a whole.
pub const REQUEST_TIMEOUT_SECS: u64 = 30;

/// The most tokens that a reply may take.
pub const MAX_REPLY_TOKENS: u32 = 500;

/// The sampling temperature of a request, in tenths.
pub const TEMPERATURE_TENTHS: u32 = 7;

/// The backends that the library can talk to.
#[derive(Debug, Clone, Copy, PartialEq, Eq, Structural)]
pub enum ProviderKind {
    OpenAI,
    Anthropic,
}

/// One header of a request.  A header may hold the credential, so it has
/// no `Debug` form.
#[derive(Clone, PartialEq, Eq)]
pub struct Header {
    pub name: String,
    pub value: String,
}

/// One turn of the conversation that a request carries.
#[derive(Debug, Clone, PartialEq, Eq)]
pub struct ChatMessage {
    pub role: String,
    pub content: String,
}

/// A request to a provider, in plain values: where to post, which headers
/// to set, what the body holds, and how long to wait.  Like its headers it
/// has no `Debug` form.
#[derive(Clone, PartialEq, Eq)]
pub struct HttpRequest {
    pub url: String,
    pub headers: Vec<Header>,
    pub model: String,
    pub messages: Vec<ChatMessage>,
    pub max_tokens: u32,
    /// The sampling temperature in tenths, where the body states one.
    pub temperature_tenths: Option<u32>,
    /// Whether the body asks for a reply in the shape of a JSON object.
    pub json_object_reply: bool,
    pub connect_timeout_secs: u64,
    pub timeout_secs: u64,
}

/// What became of a request.
#[derive(Debug, Clone, PartialEq, Eq)]
pub enum HttpOutcome {
    /// The provider answered.
    Response { status: u16, body: String },
    /// No answer came within the time allowed.
    TimedOut,
    /// The request could not be sent, or the answer could not be read.
    ConnectionFailed,
}

/// The mathematical content of an [`HttpOutcome`].
pub ghost enum OutcomeModel {
    Response { status: u16, body: Seq<char> },
    TimedOut,
    ConnectionFailed,
}

impl View for HttpOutcome {
    type V = OutcomeModel;

    open spec fn view(&self) -> OutcomeModel {
        match self {
            HttpOutcome::Response { status, body } => OutcomeModel::Response {
                status: *status,
                body: body@,
            },
            HttpOutcome::TimedOut => OutcomeModel::TimedOut,
            HttpOutcome::ConnectionFailed => OutcomeModel::ConnectionFailed,
        }
    }
}

/// The classes into which a failed response falls.
#[derive(Debug, Clone, Copy, PartialEq, Eq, Structural)]
pub enum HttpErrorClass {
    /// Status 401.
    AuthenticationFailed,
    /// Status 403.
    AccessForbidden,
    /// Status 429.
    RateLimited,
    /// Status 500 to 599.
    ServiceError,
    /// Any other status outside 200 to 299.
    RequestFailed,
}

/// Why no reply text was obtained from a provider.
#[derive(Debug, Clone, Copy, PartialEq, Eq, Structural)]
pub enum TransportError {
    /// No answer came within the time allowed.
    Timeout,
    /// The request could not be sent, or the answer could not be read.
    Network,
    /// The provider answered with a status outside 200 to 299.
    Http { class: HttpErrorClass, status: u16 },
    /// The answer is not JSON of the expected shape.
    Unreadable,
    /// The answer is well shaped but holds no reply text.
    NoContent,
}

/// Whether a status reports success.
pub open spec fn is_success(status: u16) -> bool {
    200 <= status <= 299
}

/// The class of a status that does not report success.
pub open spec fn status_class(status: u16) -> HttpErrorClass {
    if status == 401 {
        HttpErrorClass::AuthenticationFailed
    } else if status == 403 {
        HttpErrorClass::AccessForbidden
    } else if status == 429 {
        HttpErrorClass::RateLimited
    } else if 500 <= status <= 599 {
        HttpErrorClass::ServiceError
    } else {
        HttpErrorClass::RequestFailed
    }
}

/// The name under which a provider is shown.
pub open spec fn provider_name(kind: ProviderKind) -> Seq<char> {
    match kind {
        ProviderKind::OpenAI => "OpenAI"@,
        ProviderKind::Anthropic => "Anthropic"@,
    }
}

/// The message for a class of failed responses.  It is fixed per class and
/// provider, and holds nothing of what the provider sent.
pub open spec fn class_message(class: HttpErrorClass, kind: ProviderKind) -> Seq<char> {
    match class {
        HttpErrorClass::AuthenticationFailed => "Authentication failed. Please check your API key."@,
        HttpErrorClass::AccessForbidden => "Access forbidden. Please check your API permissions."@,
        HttpErrorClass::RateLimited => "Rate limit exceeded. Please try again later."@,
        HttpErrorClass::ServiceError => provider_name(kind)
            + " service error. Please try again later."@,
        HttpErrorClass::RequestFailed => "Request failed. Please check your configuration."@,
    }
}

/// The message for a transport failure.
pub open spec fn transport_message(error: TransportError, kind: ProviderKind) -> Seq<char> {
    match error {
        TransportError::Timeout => "Request to "@ + provider_name(kind) + " timed out"@,
        TransportError::Network => "Failed to send request to "@ + provider_name(kind),
        TransportError::Http { class, status } => class_message(class, kind),
        TransportError::Unreadable => "Failed to parse "@ + provider_name(kind) + " response"@,
        TransportError::NoContent => "No response from "@ + provider_name(kind),
    }
}

/// The text `a` followed by the text `b`.
pub fn concat(a: &str, b: &str) -> (r: String)
    ensures
        r@ == a@ + b@,
{
    let mut r = String::from_str(a);
    r.append(b);
    r
}

impl ProviderKind {
    /// The name under which the provider is shown.
    pub fn name(&self) -> (r: &'static str)
        ensures
            r@ == provider_name(*self),
    {
        match self {
            ProviderKind::OpenAI => "OpenAI",
            ProviderKind::Anthropic => "Anthropic",
        }
    }
}

/// Classifies the status of a response that does not report success.
///
/// The class depends on the status alone, never on the body.
pub fn classify_status(status: u16) -> (r: HttpErrorClass)
    ensures
        r == status_class(status),
{
    if status == 401 {
        HttpErrorClass::AuthenticationFailed
    } else if status == 403 {
        HttpErrorClass::AccessForbidden
    } else if status == 429 {
        HttpErrorClass::RateLimited
    } else if 500 <= status && status <= 599 {
        HttpErrorClass::ServiceError
    } else {
        HttpErrorClass::RequestFailed
    }
}

impl HttpErrorClass {
    /// The message to show for this class.
    pub fn message(&self, kind: ProviderKind) -> (r: String)
        ensures
            r@ == class_message(*self, kind),
    {
        match self {
            HttpErrorClass::AuthenticationFailed => String::from_str(
                "Authentication failed. Please check your API key.",
            ),
            HttpErrorClass::AccessForbidden => String::from_str(
                "Access forbidden. Please check your API permissions.",
            ),
            HttpErrorClass::RateLimited => String::from_str(
                "Rate limit exceeded. Please try again later.",
            ),
            HttpErrorClass::ServiceError => concat(
                kind.name(),
                " service error. Please try again later.",
            ),
            HttpErrorClass::RequestFailed => String::from_str(
                "Request failed. Please check your configuration.",
            ),
        }
    }
}

impl TransportError {
    /// The message to show for this failure.
    pub fn message(&self, kind: ProviderKind) -> (r: String)
        ensures
            r@ == transport_message(*self, kind),
    {
        match self {
            TransportError::Timeout => {
                let mut r = concat("Request to ", kind.name());
                r.append(" timed out");
                r
            },
            TransportError::Network => concat("Failed to send request to ", kind.name()),
            TransportError::Http { class, status } => class.message(kind),
            TransportError::Unreadable => {
                let mut r = concat("Failed to parse ", kind.name());
                r.append(" response");
                r
            },
            TransportError::NoContent => concat("No response from ", kind.name()),
        }
    }
}

/// The statuses 401, 403 and 429 and the range from 500 to 599 each have
/// a class of their own; every other status falls into the general class.
pub proof fn lemma_status_classes(status: u16)
    ensures
        status_class(401) == HttpErrorClass::AuthenticationFailed,
        status_class(403) == HttpErrorClass::AccessForbidden,
        status_class(429) == HttpErrorClass::RateLimited,
        status_class(500) == HttpErrorClass::ServiceError,
        500 <= status <= 599 ==> status_class(status) == HttpErrorClass::ServiceError,
        status != 401 && status != 403 && status != 429 && !(500 <= status <= 599)
            ==> status_class(status) == HttpErrorClass::RequestFailed,
{
}

} // verus!
