use rust_commit::client::{
    create_client, parse_provider, require_api_key, AIClient, ConfigError, GenerationError,
};
use rust_commit::extract::ParseError;
use rust_commit::message::CommitContext;
use rust_commit::prompt::build_prompt;
use rust_commit::provider::{AnthropicClient, OpenAIClient};
use rust_commit::transport::{
    classify_status, ChatMessage, Header, HttpErrorClass, HttpOutcome, HttpRequest, ProviderKind,
    TransportError,
};

fn client(provider: &str, base_url: Option<&str>) -> AIClient {
    match create_client(
        provider,
        "sk-test".to_string(),
        "model-x".to_string(),
        base_url.map(|s| s.to_string()),
    ) {
        Ok(c) => c,
        Err(e) => panic!("{}", e.message()),
    }
}

fn response(status: u16, body: &str) -> HttpOutcome {
    HttpOutcome::Response { status, body: body.to_string() }
}

fn context() -> CommitContext {
    CommitContext {
        branch_name: Some("feature/x".to_string()),
        file_count: 1,
        added_lines: 12,
        removed_lines: 3,
    }
}

#[test]
fn provider_names_ignore_case() {
    assert_eq!(parse_provider("openai"), Some(ProviderKind::OpenAI));
    assert_eq!(parse_provider("OpenAI"), Some(ProviderKind::OpenAI));
    assert_eq!(parse_provider("ANTHROPIC"), Some(ProviderKind::Anthropic));
    assert_eq!(parse_provider("anthropic"), Some(ProviderKind::Anthropic));
    assert_eq!(parse_provider("open ai"), None);
    assert_eq!(parse_provider("openai "), None);
    assert_eq!(parse_provider(""), None);
    assert_eq!(parse_provider("gemini"), None);
    assert_eq!(parse_provider("OPENA\u{49}"), Some(ProviderKind::OpenAI));
    assert_eq!(parse_provider("openaI\u{307}"), None);
}

#[test]
fn unknown_provider_is_rejected() {
    match create_client("Gemini", "k".to_string(), "m".to_string(), None) {
        Err(e) => {
            assert_eq!(e, ConfigError::UnsupportedProvider("Gemini".to_string()));
            assert_eq!(e.message(), "Unsupported AI provider: Gemini");
        }
        Ok(_) => panic!("a client was made"),
    }
}

#[test]
fn missing_credential_is_an_error() {
    assert_eq!(require_api_key(Some("k".to_string())), Ok("k".to_string()));
    assert_eq!(require_api_key(None), Err(ConfigError::MissingCredential));
    assert_eq!(ConfigError::MissingCredential.message(), "No API key provided");
}

#[test]
fn client_matches_the_name() {
    assert_eq!(client("OpenAI", None).provider(), ProviderKind::OpenAI);
    assert_eq!(client("Anthropic", None).provider(), ProviderKind::Anthropic);
}

#[test]
fn openai_request_shape() {
    let diff = "+a\n-b\n";
    let r = client("openai", None).prepare_request(diff, &context());
    assert!(
        r == HttpRequest {
            url: "https://api.openai.com/v1/chat/completions".to_string(),
            headers: vec![Header {
                name: "Authorization".to_string(),
                value: "Bearer sk-test".to_string(),
            }],
            model: "model-x".to_string(),
            messages: vec![
                ChatMessage {
                    role: "system".to_string(),
                    content: "You are a helpful assistant that generates git commit messages in JSON format.".to_string(),
                },
                ChatMessage { role: "user".to_string(), content: build_prompt(diff, &context()) },
            ],
            max_tokens: 500,
            temperature_tenths: Some(7),
            json_object_reply: true,
            connect_timeout_secs: 10,
            timeout_secs: 30,
        }
    );
}

#[test]
fn anthropic_request_shape() {
    let diff = "+a\n-b\n";
    let r = client("anthropic", None).prepare_request(diff, &context());
    assert!(
        r == HttpRequest {
            url: "https://api.anthropic.com/v1/messages".to_string(),
            headers: vec![
                Header { name: "x-api-key".to_string(), value: "sk-test".to_string() },
                Header { name: "anthropic-version".to_string(), value: "2023-06-01".to_string() },
                Header { name: "content-type".to_string(), value: "application/json".to_string() },
            ],
            model: "model-x".to_string(),
            messages: vec![ChatMessage {
                role: "user".to_string(),
                content: format!(
                    "{}\n\nPlease respond with only the JSON object, no other text.",
                    build_prompt(diff, &context())
                ),
            }],
            max_tokens: 500,
            temperature_tenths: None,
            json_object_reply: false,
            connect_timeout_secs: 10,
            timeout_secs: 30,
        }
    );
}

#[test]
fn base_url_can_be_overridden() {
    let r = client("openai", Some("http://localhost:8080/v1")).prepare_request("", &context());
    assert_eq!(r.url, "http://localhost:8080/v1/chat/completions");
    let r = client("anthropic", Some("https://proxy.example")).prepare_request("", &context());
    assert_eq!(r.url, "https://proxy.example/v1/messages");
}

#[test]
fn clients_made_directly_shape_requests_alike() {
    let a = OpenAIClient::new("k".to_string(), "m".to_string(), None).request("p".to_string());
    assert_eq!(a.url, "https://api.openai.com/v1/chat/completions");
    assert_eq!(a.messages[1].content, "p");
    let b = AnthropicClient::new("k".to_string(), "m".to_string(), None).request("p".to_string());
    assert_eq!(b.url, "https://api.anthropic.com/v1/messages");
    assert_eq!(
        b.messages[0].content,
        "p\n\nPlease respond with only the JSON object, no other text."
    );
}

#[test]
fn status_classes() {
    assert_eq!(classify_status(401), HttpErrorClass::AuthenticationFailed);
    assert_eq!(classify_status(403), HttpErrorClass::AccessForbidden);
    assert_eq!(classify_status(429), HttpErrorClass::RateLimited);
    assert_eq!(classify_status(500), HttpErrorClass::ServiceError);
    assert_eq!(classify_status(503), HttpErrorClass::ServiceError);
    assert_eq!(classify_status(599), HttpErrorClass::ServiceError);
    assert_eq!(classify_status(600), HttpErrorClass::RequestFailed);
    assert_eq!(classify_status(499), HttpErrorClass::RequestFailed);
    assert_eq!(classify_status(400), HttpErrorClass::RequestFailed);
    assert_eq!(classify_status(404), HttpErrorClass::RequestFailed);
    assert_eq!(classify_status(302), HttpErrorClass::RequestFailed);
    assert_eq!(classify_status(0), HttpErrorClass::RequestFailed);
}

#[test]
fn class_messages_are_fixed() {
    let openai = ProviderKind::OpenAI;
    assert_eq!(
        HttpErrorClass::AuthenticationFailed.message(openai),
        "Authentication failed. Please check your API key."
    );
    assert_eq!(
        HttpErrorClass::AccessForbidden.message(openai),
        "Access forbidden. Please check your API permissions."
    );
    assert_eq!(
        HttpErrorClass::RateLimited.message(openai),
        "Rate limit exceeded. Please try again later."
    );
    assert_eq!(
        HttpErrorClass::ServiceError.message(openai),
        "OpenAI service error. Please try again later."
    );
    assert_eq!(
        HttpErrorClass::ServiceError.message(ProviderKind::Anthropic),
        "Anthropic service error. Please try again later."
    );
    assert_eq!(
        HttpErrorClass::RequestFailed.message(openai),
        "Request failed. Please check your configuration."
    );
}

#[test]
fn rate_limited_response_is_classified() {
    let body = "{\"error\":{\"message\":\"quota exceeded for key sk-test\"}}";
    for name in ["openai", "anthropic"] {
        let c = client(name, None);
        let r = c.complete(&response(429, body));
        let expected = TransportError::Http { class: HttpErrorClass::RateLimited, status: 429 };
        assert_eq!(r, Err(GenerationError::Transport(expected)));
        let shown = GenerationError::Transport(expected).message(c.provider());
        assert_eq!(shown, "Rate limit exceeded. Please try again later.");
        assert!(!shown.contains("sk-test"));
    }
}

#[test]
fn failed_status_ignores_the_body() {
    let c = client("openai", None);
    let good_body = "{\"choices\":[{\"message\":{\"content\":\"{\\\"type\\\":\\\"fix\\\",\\\"description\\\":\\\"d\\\"}\"}}]}";
    for status in [401u16, 403, 429, 500, 404, 199, 300] {
        let expected = Err(TransportError::Http { class: classify_status(status), status });
        assert_eq!(c.read_reply(&response(status, good_body)), expected);
        assert_eq!(c.read_reply(&response(status, "")), expected);
        assert_eq!(c.read_reply(&response(status, "<html>oops</html>")), expected);
    }
}

#[test]
fn timeout_and_network_failures() {
    let c = client("anthropic", None);
    assert_eq!(c.read_reply(&HttpOutcome::TimedOut), Err(TransportError::Timeout));
    assert_eq!(c.read_reply(&HttpOutcome::ConnectionFailed), Err(TransportError::Network));
    assert_eq!(
        c.complete(&HttpOutcome::TimedOut),
        Err(GenerationError::Transport(TransportError::Timeout))
    );
    assert_eq!(
        TransportError::Timeout.message(ProviderKind::Anthropic),
        "Request to Anthropic timed out"
    );
    assert_eq!(
        TransportError::Network.message(ProviderKind::OpenAI),
        "Failed to send request to OpenAI"
    );
    assert_eq!(
        TransportError::Unreadable.message(ProviderKind::OpenAI),
        "Failed to parse OpenAI response"
    );
    assert_eq!(
        TransportError::NoContent.message(ProviderKind::Anthropic),
        "No response from Anthropic"
    );
}

#[test]
fn openai_reply_is_first_choice_content() {
    let body = "{\"id\":\"x\",\"choices\":[{\"index\":0,\"message\":{\"role\":\"assistant\",\"content\":\"first\"}},{\"message\":{\"content\":\"second\"}}]}";
    assert_eq!(OpenAIClient::read_reply(body), Ok("first".to_string()));
    assert_eq!(
        client("openai", None).read_reply(&response(200, body)),
        Ok("first".to_string())
    );
}

#[test]
fn openai_reply_without_content() {
    assert_eq!(
        OpenAIClient::read_reply("{\"choices\":[{\"message\":{\"content\":null}}]}"),
        Err(TransportError::NoContent)
    );
    assert_eq!(
        OpenAIClient::read_reply("{\"choices\":[{\"message\":{\"role\":\"assistant\"}}]}"),
        Err(TransportError::NoContent)
    );
    assert_eq!(
        OpenAIClient::read_reply("{\"choices\":[]}"),
        Err(TransportError::NoContent)
    );
}

#[test]
fn openai_reply_unreadable() {
    assert_eq!(OpenAIClient::read_reply("not json"), Err(TransportError::Unreadable));
    assert_eq!(OpenAIClient::read_reply("{}"), Err(TransportError::Unreadable));
    assert_eq!(
        OpenAIClient::read_reply("{\"choices\":[{\"text\":\"x\"}]}"),
        Err(TransportError::Unreadable)
    );
    assert_eq!(
        OpenAIClient::read_reply("{\"choices\":[{\"message\":{\"content\":5}}]}"),
        Err(TransportError::Unreadable)
    );
}

#[test]
fn anthropic_reply_is_first_block_text() {
    let body = "{\"content\":[{\"type\":\"text\",\"text\":\"first\"},{\"text\":\"second\"}],\"model\":\"m\"}";
    assert_eq!(AnthropicClient::read_reply(body), Ok("first".to_string()));
    assert_eq!(
        client("anthropic", None).read_reply(&response(201, body)),
        Ok("first".to_string())
    );
}

#[test]
fn anthropic_reply_failures() {
    assert_eq!(
        AnthropicClient::read_reply("{\"content\":[]}"),
        Err(TransportError::NoContent)
    );
    assert_eq!(
        AnthropicClient::read_reply("{\"content\":[{\"text\":null}]}"),
        Err(TransportError::NoContent)
    );
    assert_eq!(AnthropicClient::read_reply("{}"), Err(TransportError::Unreadable));
    assert_eq!(
        AnthropicClient::read_reply("{\"content\":[{\"type\":\"image\"}]}"),
        Err(TransportError::Unreadable)
    );
    assert_eq!(AnthropicClient::read_reply("[1"), Err(TransportError::Unreadable));
}

#[test]
fn protocols_are_not_interchangeable() {
    let openai_body = "{\"choices\":[{\"message\":{\"content\":\"x\"}}]}";
    let anthropic_body = "{\"content\":[{\"text\":\"x\"}]}";
    assert_eq!(
        client("anthropic", None).read_reply(&response(200, openai_body)),
        Err(TransportError::Unreadable)
    );
    assert_eq!(
        client("openai", None).read_reply(&response(200, anthropic_body)),
        Err(TransportError::Unreadable)
    );
}

#[test]
fn generation_from_request_to_message() {
    let c = client("anthropic", None);
    let diff = "+one\n".repeat(12) + &"-two\n".repeat(3);
    let ctx = CommitContext {
        branch_name: Some("feature/x".to_string()),
        file_count: 1,
        added_lines: rust_commit::diff::added_lines(&diff),
        removed_lines: rust_commit::diff::removed_lines(&diff),
    };
    let request = c.prepare_request(&diff, &ctx);
    assert!(request.messages[0].content.contains("- Branch: feature/x\n"));
    assert!(request.messages[0].content.contains("- Lines added: 12\n"));
    assert!(request.messages[0].content.contains("- Lines removed: 3\n"));
    let body = "{\"content\":[{\"type\":\"text\",\"text\":\"I'll help.\\n{\\\"type\\\":\\\"feat\\\",\\\"scope\\\":\\\"auth\\\",\\\"description\\\":\\\"add token refresh\\\",\\\"body\\\":null,\\\"breaking_change\\\":null}\\nDone.\"}]}";
    let m = c.complete(&response(200, body)).unwrap();
    assert_eq!(m.commit_type, "feat");
    assert_eq!(m.scope, Some("auth".to_string()));
    assert_eq!(m.description, "add token refresh");
    assert_eq!(m.body, None);
    assert_eq!(m.breaking_change, None);
    assert_eq!(m.format_conventional(), "feat(auth): add token refresh");
}

#[test]
fn generation_reports_parse_failures() {
    let c = client("openai", None);
    let body = "{\"choices\":[{\"message\":{\"content\":\"{\\\"type\\\":\\\"feat\\\"}\"}}]}";
    assert_eq!(
        c.complete(&response(200, body)),
        Err(GenerationError::Parse(ParseError::MissingDescription))
    );
    assert_eq!(
        GenerationError::Parse(ParseError::MissingDescription).message(ProviderKind::OpenAI),
        "AI response has no description"
    );
    let prose = "{\"choices\":[{\"message\":{\"content\":\"I cannot do that\"}}]}";
    assert_eq!(
        c.complete(&response(200, prose)),
        Err(GenerationError::Parse(ParseError::InvalidJson))
    );
}
