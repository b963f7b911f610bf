use rust_commit::extract::{
    extract_json_candidate, extract_message, message_from_fields, parse_candidate, Field,
    ParseError,
};
use rust_commit::message::CommitMessage;

fn text(s: &str) -> Field {
    Field::Text(s.to_string())
}

#[test]
fn reply_with_commentary_around_the_object() {
    let reply = "I'll help.\n{\"type\":\"feat\",\"scope\":\"auth\",\"description\":\"add token refresh\",\"body\":null,\"breaking_change\":null}\nDone.";
    let m = extract_message(reply).unwrap();
    assert_eq!(
        m,
        CommitMessage {
            commit_type: "feat".to_string(),
            scope: Some("auth".to_string()),
            description: "add token refresh".to_string(),
            body: None,
            breaking_change: None,
        }
    );
    assert_eq!(m.format_conventional(), "feat(auth): add token refresh");
}

#[test]
fn reply_in_fenced_block_with_language_tag() {
    let reply = "```json\n{\"type\":\"fix\",\"description\":\"null check\"}\n```";
    let m = extract_message(reply).unwrap();
    assert_eq!(
        m,
        CommitMessage {
            commit_type: "fix".to_string(),
            scope: None,
            description: "null check".to_string(),
            body: None,
            breaking_change: None,
        }
    );
}

#[test]
fn four_wrappings_give_one_message() {
    let json = "{\"type\":\"perf\",\"scope\":\"db\",\"description\":\"cache lookups\",\"body\":\"Adds an LRU.\",\"breaking_change\":\"config key renamed\"}";
    let expected = CommitMessage {
        commit_type: "perf".to_string(),
        scope: Some("db".to_string()),
        description: "cache lookups".to_string(),
        body: Some("Adds an LRU.".to_string()),
        breaking_change: Some("config key renamed".to_string()),
    };
    let raw = json.to_string();
    let prose = format!("Here is the message:\n{}\nLet me know.", json);
    let tagged = format!("```json\n{}\n```", json);
    let untagged = format!("```\n{}\n```", json);
    let padded = format!("  \n```JSON {} ```\n\t", json);
    for reply in [raw, prose, tagged, untagged, padded] {
        assert_eq!(extract_json_candidate(&reply), json);
        assert_eq!(extract_message(&reply), Ok(expected.clone()));
    }
}

#[test]
fn candidate_of_fenced_block_without_line_breaks() {
    assert_eq!(extract_json_candidate("```{\"a\":1}```"), "{\"a\":1}");
    assert_eq!(extract_json_candidate("```json{\"a\":1}```"), "{\"a\":1}");
}

#[test]
fn candidate_runs_from_first_to_last_brace() {
    assert_eq!(
        extract_json_candidate("x {\"a\":{\"b\":1}} y } z"),
        "{\"a\":{\"b\":1}} y }"
    );
}

#[test]
fn candidate_without_braces_is_the_trimmed_reply() {
    assert_eq!(extract_json_candidate("  no json here \n"), "no json here");
    assert_eq!(extract_json_candidate("} before {"), "} before {");
    assert_eq!(extract_json_candidate(""), "");
    assert_eq!(extract_json_candidate("```"), "```");
    assert_eq!(extract_json_candidate("`````"), "`````");
}

#[test]
fn candidate_of_empty_fenced_block() {
    assert_eq!(extract_json_candidate("``````"), "");
    assert_eq!(extract_json_candidate("```json\n```"), "");
}

#[test]
fn fenced_block_is_not_scanned_for_braces() {
    assert_eq!(
        extract_json_candidate("```json\nsee {\"a\":1} here\n```"),
        "see {\"a\":1} here"
    );
}

#[test]
fn missing_description_is_rejected() {
    assert_eq!(
        extract_message("{\"type\":\"feat\",\"scope\":\"auth\"}"),
        Err(ParseError::MissingDescription)
    );
    assert_eq!(
        extract_message("{\"type\":\"feat\",\"description\":null}"),
        Err(ParseError::MissingDescription)
    );
}

#[test]
fn empty_description_is_rejected() {
    assert_eq!(
        extract_message("{\"type\":\"feat\",\"description\":\"\",\"body\":\"text\"}"),
        Err(ParseError::EmptyDescription)
    );
}

#[test]
fn missing_type_is_rejected() {
    assert_eq!(
        extract_message("{\"description\":\"add token refresh\"}"),
        Err(ParseError::MissingType)
    );
    assert_eq!(
        extract_message("{\"type\":null,\"description\":\"add token refresh\"}"),
        Err(ParseError::MissingType)
    );
}

#[test]
fn empty_type_is_kept() {
    let m = extract_message("{\"type\":\"\",\"description\":\"d\"}").unwrap();
    assert_eq!(m.commit_type, "");
    assert_eq!(m.format_conventional(), ": d");
}

#[test]
fn type_outside_the_vocabulary_is_kept() {
    let m = extract_message("{\"type\":\"wip\",\"description\":\"d\"}").unwrap();
    assert_eq!(m.commit_type, "wip");
}

#[test]
fn reply_that_is_not_json_is_rejected() {
    assert_eq!(extract_message("sorry, no idea"), Err(ParseError::InvalidJson));
    assert_eq!(extract_message(""), Err(ParseError::InvalidJson));
    assert_eq!(
        extract_message("{\"type\":\"feat\",\"description\":\"d\""),
        Err(ParseError::InvalidJson)
    );
    assert_eq!(extract_message("{type: feat}"), Err(ParseError::InvalidJson));
}

#[test]
fn json_that_is_no_object_is_rejected() {
    assert_eq!(
        parse_candidate("[\"feat\", \"d\"]"),
        Err(ParseError::MissingDescription)
    );
    assert_eq!(parse_candidate("\"feat\""), Err(ParseError::MissingDescription));
    assert_eq!(parse_candidate("42"), Err(ParseError::MissingDescription));
}

#[test]
fn members_of_the_wrong_kind_are_rejected() {
    assert_eq!(
        extract_message("{\"type\":\"feat\",\"description\":5}"),
        Err(ParseError::InvalidField)
    );
    assert_eq!(
        extract_message("{\"type\":true,\"description\":\"d\"}"),
        Err(ParseError::InvalidField)
    );
    assert_eq!(
        extract_message("{\"type\":\"feat\",\"description\":\"d\",\"scope\":[\"a\"]}"),
        Err(ParseError::InvalidField)
    );
    assert_eq!(
        extract_message("{\"type\":\"feat\",\"description\":\"d\",\"body\":{\"a\":1}}"),
        Err(ParseError::InvalidField)
    );
    assert_eq!(
        extract_message("{\"type\":\"feat\",\"description\":\"d\",\"breaking_change\":false}"),
        Err(ParseError::InvalidField)
    );
}

#[test]
fn unknown_members_are_ignored() {
    let m = extract_message(
        "{\"type\":\"test\",\"description\":\"cover parser\",\"confidence\":0.9,\"files\":[\"a.rs\"]}",
    )
    .unwrap();
    assert_eq!(m.commit_type, "test");
    assert_eq!(m.description, "cover parser");
    assert_eq!(m.scope, None);
}

#[test]
fn escapes_in_strings_are_decoded() {
    let m = extract_message(
        "{\"type\":\"fix\",\"description\":\"say \\\"hi\\\"\",\"body\":\"line one\\nline two \\u00e9\"}",
    )
    .unwrap();
    assert_eq!(m.description, "say \"hi\"");
    assert_eq!(m.body, Some("line one\nline two é".to_string()));
}

#[test]
fn description_is_checked_before_the_type() {
    assert_eq!(
        message_from_fields(
            Field::Absent,
            Field::Other,
            Field::Absent,
            Field::Other,
            Field::Other
        ),
        Err(ParseError::MissingDescription)
    );
    assert_eq!(
        message_from_fields(Field::Other, Field::Null, text(""), Field::Null, Field::Null),
        Err(ParseError::EmptyDescription)
    );
    assert_eq!(
        message_from_fields(Field::Absent, Field::Other, text("d"), Field::Null, Field::Null),
        Err(ParseError::MissingType)
    );
}

#[test]
fn fields_make_a_message() {
    assert_eq!(
        message_from_fields(text("feat"), Field::Null, text("d"), text("b"), Field::Absent),
        Ok(CommitMessage {
            commit_type: "feat".to_string(),
            scope: None,
            description: "d".to_string(),
            body: Some("b".to_string()),
            breaking_change: None,
        })
    );
}

#[test]
fn parse_errors_have_short_messages() {
    assert_eq!(ParseError::InvalidJson.message(), "AI response is not valid JSON");
    assert_eq!(
        ParseError::MissingDescription.message(),
        "AI response has no description"
    );
    assert_eq!(
        ParseError::EmptyDescription.message(),
        "AI response has an empty description"
    );
    assert_eq!(ParseError::MissingType.message(), "AI response has no commit type");
    assert_eq!(
        ParseError::InvalidField.message(),
        "AI response has a field that is not text"
    );
}
