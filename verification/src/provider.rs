//! The two provider clients.  Each knows how to shape a request for its
//! backend and how to find the reply text in the backend's answer.

use vstd::prelude::*;
use vstd::string::*;
use crate::json::{
    element,
    is_null,
    json_document,
    json_element,
    json_is_null,
    json_member,
    json_string,
    member,
    parse_json,
    string_of,
};
use crate::transport::{
    concat,
    ChatMessage,
    Header,
    HttpRequest,
    TransportError,
    CONNECT_TIMEOUT_SECS,
    MAX_REPLY_TOKENS,
    REQUEST_TIMEOUT_SECS,
    TEMPERATURE_TENTHS,
};

verus! {

/// What a client holds: the credential, the model to ask, and the base
/// address of the backend.
pub ghost struct EndpointModel {
    pub api_key: Seq<char>,
    pub model: Seq<char>,
    pub base_url: Seq<char>,
}

/// A client for backends that speak the OpenAI chat-completions protocol.
pub struct OpenAIClient {
    api_key: String,
    model: String,
    base_url: String,
}

/// A client for backends that speak the Anthropic messages protocol.
pub struct AnthropicClient {
    api_key: String,
    model: String,
    base_url: String,
}

impl View for OpenAIClient {
    type V = EndpointModel;

    closed spec fn view(&self) -> EndpointModel {
        EndpointModel { api_key: self.api_key@, model: self.model@, base_url: self.base_url@ }
    }
}

impl View for AnthropicClient {
    type V = EndpointModel;

    closed spec fn view(&self) -> EndpointModel {
        EndpointModel { api_key: self.api_key@, model: self.model@, base_url: self.base_url@ }
    }
}

/// The base address to use: the one given, or the provider's own.
pub open spec fn base_url_or(given: Option<String>, default: Seq<char>) -> Seq<char> {
    match given {
        Some(url) => url@,
        None => default,
    }
}

/// Whether `r` is the request that an OpenAI-compatible backend is sent
/// for a prompt: a post to the chat-completions address with a bearer
/// token, a system turn and the prompt as the user turn, the fixed
/// temperature and token ceiling, and the wish for a JSON object.
pub open spec fn is_openai_request(r: HttpRequest, e: EndpointModel, prompt: Seq<char>) -> bool {
    &&& r.url@ == e.base_url + "/chat/completions"@
    &&& r.headers@.len() == 1
    &&& r.headers@[0].name@ == "Authorization"@
    &&& r.headers@[0].value@ == "Bearer "@ + e.api_key
    &&& r.model@ == e.model
    &&& r.messages@.len() == 2
    &&& r.messages@[0].role@ == "system"@
    &&& r.messages@[0].content@
        == "You are a helpful assistant that generates git commit messages in JSON format."@
    &&& r.messages@[1].role@ == "user"@
    &&& r.messages@[1].content@ == prompt
    &&& r.max_tokens == MAX_REPLY_TOKENS
    &&& r.temperature_tenths == Some(TEMPERATURE_TENTHS)
    &&& r.json_object_reply
    &&& r.connect_timeout_secs == CONNECT_TIMEOUT_SECS
    &&& r.timeout_secs == REQUEST_TIMEOUT_SECS
}

/// Whether `r` is the request that an Anthropic-compatible backend is sent
/// for a prompt: a post to the messages address with the key and version
/// headers, and one user turn that holds the prompt and the instruction to
/// answer with the JSON object alone.
pub open spec fn is_anthropic_request(r: HttpRequest, e: EndpointModel, prompt: Seq<char>) -> bool {
    &&& r.url@ == e.base_url + "/v1/messages"@
    &&& r.headers@.len() == 3
    &&& r.headers@[0].name@ == "x-api-key"@
    &&& r.headers@[0].value@ == e.api_key
    &&& r.headers@[1].name@ == "anthropic-version"@
    &&& r.headers@[1].value@ == "2023-06-01"@
    &&& r.headers@[2].name@ == "content-type"@
    &&& r.headers@[2].value@ == "application/json"@
    &&& r.model@ == e.model
    &&& r.messages@.len() == 1
    &&& r.messages@[0].role@ == "user"@
    &&& r.messages@[0].content@ == prompt
        + "\n\nPlease respond with only the JSON object, no other text."@
    &&& r.max_tokens == MAX_REPLY_TOKENS
    &&& r.temperature_tenths is None
    &&& !r.json_object_reply
    &&& r.connect_timeout_secs == CONNECT_TIMEOUT_SECS
    &&& r.timeout_secs == REQUEST_TIMEOUT_SECS
}

/// The text of a JSON value that has to be a string; `null` counts as no
/// content, anything else as unreadable.
pub open spec fn text_of_value(value: serde_json::Value) -> Result<Seq<char>, TransportError> {
    if json_is_null(value) {
        Err(TransportError::NoContent)
    } else {
        match json_string(value) {
            Some(text) => Ok(text),
            None => Err(TransportError::Unreadable),
        }
    }
}

/// The reply text in the answer of an OpenAI-compatible backend: the
/// content of the message of the first choice.
pub open spec fn openai_reply(body: Seq<char>) -> Result<Seq<char>, TransportError> {
    match json_document(body) {
        None => Err(TransportError::Unreadable),
        Some(doc) => match json_member(doc, "choices"@) {
            None => Err(TransportError::Unreadable),
            Some(choices) => match json_element(choices, 0) {
                None => Err(TransportError::NoContent),
                Some(first) => match json_member(first, "message"@) {
                    None => Err(TransportError::Unreadable),
                    Some(message) => match json_member(message, "content"@) {
                        None => Err(TransportError::NoContent),
                        Some(content) => text_of_value(content),
                    },
                },
            },
        },
    }
}

/// The reply text in the answer of an Anthropic-compatible backend: the
/// text of the first content block.
pub open spec fn anthropic_reply(body: Seq<char>) -> Result<Seq<char>, TransportError> {
    match json_document(body) {
        None => Err(TransportError::Unreadable),
        Some(doc) => match json_member(doc, "content"@) {
            None => Err(TransportError::Unreadable),
            Some(blocks) => match json_element(blocks, 0) {
                None => Err(TransportError::NoContent),
                Some(first) => match json_member(first, "text"@) {
                    None => Err(TransportError::Unreadable),
                    Some(text) => text_of_value(text),
                },
            },
        },
    }
}

/// Whether an outcome is the one that the model prescribes.
pub open spec fn reply_is(
    r: Result<String, TransportError>,
    expected: Result<Seq<char>, TransportError>,
) -> bool {
    match r {
        Ok(text) => expected == Ok::<Seq<char>, TransportError>(text@),
        Err(e) => expected == Err::<Seq<char>, TransportError>(e),
    }
}

fn read_text(value: &serde_json::Value) -> (r: Result<String, TransportError>)
    ensures
        reply_is(r, text_of_value(*value)),
{
    if is_null(value) {
        Err(TransportError::NoContent)
    } else {
        match string_of(value) {
            Some(text) => Ok(String::from_str(text)),
            None => Err(TransportError::Unreadable),
        }
    }
}

fn header(name: &str, value: String) -> (r: Header)
    ensures
        r.name@ == name@,
        r.value == value,
{
    Header { name: String::from_str(name), value }
}

fn turn(role: &str, content: String) -> (r: ChatMessage)
    ensures
        r.role@ == role@,
        r.content == content,
{
    ChatMessage { role: String::from_str(role), content }
}

impl OpenAIClient {
    /// A client for the given credential and model.  Without a base
    /// address of its own it talks to `https://api.openai.com/v1`.
    pub fn new(api_key: String, model: String, base_url: Option<String>) -> (r: Self)
        ensures
            r@ == (EndpointModel {
                api_key: api_key@,
                model: model@,
                base_url: base_url_or(base_url, "https://api.openai.com/v1"@),
            }),
    {
        let base_url = match base_url {
            Some(url) => url,
            None => String::from_str("https://api.openai.com/v1"),
        };
        OpenAIClient { api_key, model, base_url }
    }

    /// The request that asks the backend to answer a prompt.
    pub fn request(&self, prompt: String) -> (r: HttpRequest)
        ensures
            is_openai_request(r, self@, prompt@),
    {
        let mut headers: Vec<Header> = Vec::new();
        headers.push(header("Authorization", concat("Bearer ", self.api_key.as_str())));
        let mut messages: Vec<ChatMessage> = Vec::new();
        messages.push(
            turn(
                "system",
                String::from_str(
                    "You are a helpful assistant that generates git commit messages in JSON format.",
                ),
            ),
        );
        messages.push(turn("user", prompt));
        HttpRequest {
            url: concat(self.base_url.as_str(), "/chat/completions"),
            headers,
            model: self.model.clone(),
            messages,
            max_tokens: MAX_REPLY_TOKENS,
            temperature_tenths: Some(TEMPERATURE_TENTHS),
            json_object_reply: true,
            connect_timeout_secs: CONNECT_TIMEOUT_SECS,
            timeout_secs: REQUEST_TIMEOUT_SECS,
        }
    }

    /// Finds the reply text in the body of a successful answer.
    ///
    /// An answer without choices, or whose first choice has no content or
    /// `null` for it, holds no reply; one that is not JSON or lacks the
    /// expected members is unreadable.
    pub fn read_reply(body: &str) -> (r: Result<String, TransportError>)
        ensures
            reply_is(r, openai_reply(body@)),
    {
        let doc = match parse_json(body) {
            Ok(doc) => doc,
            Err(_) => { return Err(TransportError::Unreadable); },
        };
        let choices = match member(&doc, "choices") {
            Some(choices) => choices,
            None => { return Err(TransportError::Unreadable); },
        };
        let first = match element(choices, 0) {
            Some(first) => first,
            None => { return Err(TransportError::NoContent); },
        };
        let message = match member(first, "message") {
            Some(message) => message,
            None => { return Err(TransportError::Unreadable); },
        };
        match member(message, "content") {
            Some(content) => read_text(content),
            None => Err(TransportError::NoContent),
        }
    }
}

impl AnthropicClient {
    /// A client for the given credential and model.  Without a base
    /// address of its own it talks to `https://api.anthropic.com`.
    pub fn new(api_key: String, model: String, base_url: Option<String>) -> (r: Self)
        ensures
            r@ == (EndpointModel {
                api_key: api_key@,
                model: model@,
                base_url: base_url_or(base_url, "https://api.anthropic.com"@),
            }),
    {
        let base_url = match base_url {
            Some(url) => url,
            None => String::from_str("https://api.anthropic.com"),
        };
        AnthropicClient { api_key, model, base_url }
    }

    /// The request that asks the backend to answer a prompt.
    pub fn request(&self, prompt: String) -> (r: HttpRequest)
        ensures
            is_anthropic_request(r, self@, prompt@),
    {
        let mut headers: Vec<Header> = Vec::new();
        headers.push(header("x-api-key", self.api_key.clone()));
        headers.push(header("anthropic-version", String::from_str("2023-06-01")));
        headers.push(header("content-type", String::from_str("application/json")));
        let mut messages: Vec<ChatMessage> = Vec::new();
        messages.push(
            turn(
                "user",
                concat(
                    prompt.as_str(),
                    "\n\nPlease respond with only the JSON object, no other text.",
                ),
            ),
        );
        HttpRequest {
            url: concat(self.base_url.as_str(), "/v1/messages"),
            headers,
            model: self.model.clone(),
            messages,
            max_tokens: MAX_REPLY_TOKENS,
            temperature_tenths: None,
            json_object_reply: false,
            connect_timeout_secs: CONNECT_TIMEOUT_SECS,
            timeout_secs: REQUEST_TIMEOUT_SECS,
        }
    }

    /// Finds the reply text in the body of a successful answer.
    ///
    /// An answer without content blocks holds no reply; one that is not
    /// JSON or lacks the expected members is unreadable.
    pub fn read_reply(body: &str) -> (r: Result<String, TransportError>)
        ensures
            reply_is(r, anthropic_reply(body@)),
    {
        let doc = match parse_json(body) {
            Ok(doc) => doc,
            Err(_) => { return Err(TransportError::Unreadable); },
        };
        let blocks = match member(&doc, "content") {
            Some(blocks) => blocks,
            None => { return Err(TransportError::Unreadable); },
        };
        let first = match element(blocks, 0) {
            Some(first) => first,
            None => { return Err(TransportError::NoContent); },
        };
        match member(first, "text") {
            Some(text) => read_text(text),
            None => Err(TransportError::Unreadable),
        }
    }
}

} // verus!
