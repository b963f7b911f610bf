use rust_commit::config::{may_write_config, Config};
use rust_commit::diff::{added_lines, context_for_diff, count_marked_lines, removed_lines};
use rust_commit::ui::{
    accept_api_key, after_edit, after_selection, classify_diff_line, hidden_lines, menu_options,
    CommitAction, DiffLineKind, NextStep,
};
use rust_commit::text::{
    char_is_whitespace, decimal_chars, is_blank, to_chars, to_text, trim_chars,
};

#[test]
fn counts_lines_by_their_first_character() {
    let diff = "+++ b/file\n--- a/file\n@@ -1 +1 @@\n+new\n-old\n context + not counted\n+\n";
    assert_eq!(added_lines(diff), 3);
    assert_eq!(removed_lines(diff), 2);
    assert_eq!(count_marked_lines(diff, '@'), 1);
    assert_eq!(count_marked_lines(diff, ' '), 1);
}

#[test]
fn counts_in_edge_cases() {
    assert_eq!(added_lines(""), 0);
    assert_eq!(added_lines("+"), 1);
    assert_eq!(added_lines("++"), 1);
    assert_eq!(added_lines("\n+"), 1);
    assert_eq!(added_lines("a+\r\n+b\r\n"), 1);
    assert_eq!(removed_lines("-\n-\n-"), 3);
}

#[test]
fn counts_agree_with_line_splitting() {
    let diff = "+a\n b\n-c\n+d\r\n\n+\n-e";
    assert_eq!(added_lines(diff), diff.lines().filter(|l| l.starts_with('+')).count());
    assert_eq!(removed_lines(diff), diff.lines().filter(|l| l.starts_with('-')).count());
}

#[test]
fn default_settings() {
    let c = Config::default();
    assert_eq!(c.ai.provider, "openai");
    assert_eq!(c.ai.model, "gpt-4");
    assert_eq!(c.ai.api_key_env, "OPENAI_API_KEY");
    assert_eq!(c.ai.api_key, None);
    assert_eq!(c.ai.base_url, None);
    assert_eq!(c.commit.format, "conventional");
    assert!(!c.commit.include_emoji);
    assert_eq!(c.commit.max_diff_size, 4000);
    assert!(!c.commit.auto_stage);
}

#[test]
fn configured_key_wins_over_environment() {
    let mut c = Config::default();
    assert_eq!(c.get_api_key(None), None);
    assert_eq!(c.get_api_key(Some("env".to_string())), Some("env".to_string()));
    c.ai.api_key = Some("direct".to_string());
    assert_eq!(c.get_api_key(Some("env".to_string())), Some("direct".to_string()));
    assert_eq!(c.get_api_key(None), Some("direct".to_string()));
}

#[test]
fn menu_choices() {
    assert_eq!(
        menu_options(),
        vec!["Accept and commit", "Edit message", "Regenerate with different AI", "Cancel"]
    );
    assert_eq!(after_selection(0), NextStep::Decided(CommitAction::Accept));
    assert_eq!(after_selection(1), NextStep::OpenEditor);
    assert_eq!(after_selection(2), NextStep::Decided(CommitAction::Regenerate));
    assert_eq!(after_selection(3), NextStep::Decided(CommitAction::Cancel));
    assert_eq!(after_selection(17), NextStep::Decided(CommitAction::Cancel));
}

#[test]
fn edited_message_must_not_be_blank() {
    assert_eq!(
        after_edit(Some(" fix: x \n".to_string())),
        CommitAction::Edit(" fix: x \n".to_string())
    );
    assert_eq!(after_edit(Some(" \n\t ".to_string())), CommitAction::Cancel);
    assert_eq!(after_edit(Some(String::new())), CommitAction::Cancel);
    assert_eq!(after_edit(None), CommitAction::Cancel);
}

#[test]
fn diff_lines_by_kind() {
    assert_eq!(classify_diff_line("+added"), DiffLineKind::Added);
    assert_eq!(classify_diff_line("+"), DiffLineKind::Added);
    assert_eq!(classify_diff_line("++x"), DiffLineKind::Added);
    assert_eq!(classify_diff_line("+++ b/file"), DiffLineKind::Plain);
    assert_eq!(classify_diff_line("-removed"), DiffLineKind::Removed);
    assert_eq!(classify_diff_line("--- a/file"), DiffLineKind::Plain);
    assert_eq!(classify_diff_line("@@ -1,2 +1,3 @@"), DiffLineKind::Hunk);
    assert_eq!(classify_diff_line("@"), DiffLineKind::Plain);
    assert_eq!(classify_diff_line(" context"), DiffLineKind::Plain);
    assert_eq!(classify_diff_line(""), DiffLineKind::Plain);
}

#[test]
fn preview_leaves_out_the_rest() {
    assert_eq!(hidden_lines(45, 30), 15);
    assert_eq!(hidden_lines(30, 30), 0);
    assert_eq!(hidden_lines(3, 30), 0);
    assert_eq!(hidden_lines(0, 0), 0);
}

#[test]
fn entered_key_is_trimmed() {
    assert_eq!(accept_api_key("  sk-abc \n"), Some("sk-abc".to_string()));
    assert_eq!(accept_api_key("sk abc"), Some("sk abc".to_string()));
    assert_eq!(accept_api_key("   "), None);
    assert_eq!(accept_api_key(""), None);
}

#[test]
fn trimming_agrees_with_std() {
    for s in [
        "",
        " ",
        "a",
        " a",
        "a ",
        "\t\n a b \r\n",
        "\u{a0}x\u{3000}",
        "\u{2003}\u{85}mid dle\u{1680}\u{2028}",
        "\u{200b}zero width is kept\u{200b}",
        "\u{1c}separators are kept\u{1f}",
    ] {
        assert_eq!(to_text(&trim_chars(&to_chars(s))), s.trim());
        assert_eq!(is_blank(s), s.trim().is_empty());
    }
}

#[test]
fn whitespace_agrees_with_std() {
    for code in 0u32..0x3100 {
        if let Some(c) = char::from_u32(code) {
            assert_eq!(char_is_whitespace(c), c.is_whitespace());
        }
    }
    assert!(!char_is_whitespace('\u{feff}'));
}

#[test]
fn characters_round_trip() {
    for s in ["", "abc", "héllo", "日本語 ✓"] {
        assert_eq!(to_chars(s), s.chars().collect::<Vec<char>>());
        assert_eq!(to_text(&to_chars(s)), s);
    }
}

#[test]
fn decimal_numerals() {
    for n in [0usize, 1, 9, 10, 11, 99, 100, 101, 907, 1000, 3000, 65535, usize::MAX] {
        assert_eq!(to_text(&decimal_chars(n)), n.to_string());
    }
}

#[test]
fn existing_config_needs_force() {
    assert!(may_write_config(false, false));
    assert!(may_write_config(false, true));
    assert!(may_write_config(true, true));
    assert!(!may_write_config(true, false));
}

#[test]
fn context_counts_the_diff() {
    let diff = "+one\n".repeat(12) + &"-two\n".repeat(3);
    let c = context_for_diff(&diff, Some("feature/x".to_string()), 2);
    assert_eq!(c.branch_name, Some("feature/x".to_string()));
    assert_eq!(c.file_count, 2);
    assert_eq!(c.added_lines, 12);
    assert_eq!(c.removed_lines, 3);
}

#[test]
fn command_line_wins_over_configuration() {
    let mut c = Config::default();
    let s = c.select(None, None);
    assert_eq!(s.provider, "openai");
    assert_eq!(s.model, "gpt-4");
    assert_eq!(s.base_url, None);
    c.ai.base_url = Some("http://configured".to_string());
    let s = c.select(Some("gpt-4-turbo".to_string()), None);
    assert_eq!(s.model, "gpt-4-turbo");
    assert_eq!(s.base_url, Some("http://configured".to_string()));
    let s = c.select(None, Some("http://given".to_string()));
    assert_eq!(s.model, "gpt-4");
    assert_eq!(s.base_url, Some("http://given".to_string()));
}
