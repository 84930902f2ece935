use numbat_bot::reply::{
    failure_body, layout_sections, reply_text, success_body, wrap_monospace, Outcome,
};

fn evaluated(pretty: Option<&str>, output: &str) -> Outcome {
    Outcome::Evaluated {
        pretty: pretty.map(|p| p.to_string()),
        output: output.to_string(),
    }
}

#[test]
fn evaluated_reply_has_sections_in_order() {
    let outcome = evaluated(Some("2 m + 3 m"), "    = 5 m    [Length]");
    let r = reply_text("2m + 3m", &outcome);
    assert_eq!(r, "```\n>>> 2m + 3m\n\n2 m + 3 m\n\n    = 5 m    [Length]```");
}

#[test]
fn failed_reply_has_empty_pretty_section() {
    let outcome = Outcome::Failed {
        message: "Unknown identifier 'y'".to_string(),
    };
    let r = reply_text("y + 1", &outcome);
    assert_eq!(r, "```\n>>> y + 1\n\n\n\nError: Unknown identifier 'y'```");
}

#[test]
fn input_without_statement_has_empty_pretty_section() {
    let r = reply_text("", &evaluated(None, ""));
    assert_eq!(r, "```\n>>> \n\n\n\n```");
}

#[test]
fn definition_then_use_replies() {
    let first = reply_text("x = 5", &evaluated(Some("let x = 5"), ""));
    assert_eq!(first, "```\n>>> x = 5\n\nlet x = 5\n\n```");
    let second = reply_text("x + 1", &evaluated(Some("x + 1"), "    = 6"));
    assert_eq!(second, "```\n>>> x + 1\n\nx + 1\n\n    = 6```");
}

#[test]
fn repeated_read_only_input_gives_identical_reply() {
    let a = reply_text("1 + 1", &evaluated(Some("1 + 1"), "    = 2"));
    let b = reply_text("1 + 1", &evaluated(Some("1 + 1"), "    = 2"));
    assert_eq!(a, b);
    assert_eq!(a, "```\n>>> 1 + 1\n\n1 + 1\n\n    = 2```");
}

#[test]
fn error_message_is_not_the_input() {
    let r = reply_text("1 +", &Outcome::Failed { message: "Expected expression".to_string() });
    assert!(r.ends_with("Error: Expected expression```"));
    assert!(r.starts_with("```\n>>> 1 +\n"));
}

#[test]
fn monospace_wraps_body() {
    assert_eq!(wrap_monospace("abc"), "```\nabc```");
    assert_eq!(wrap_monospace(""), "```\n```");
}

#[test]
fn sections_are_separated_by_blank_lines() {
    assert_eq!(layout_sections("a", "b", "c"), ">>> a\n\nb\n\nc");
}

#[test]
fn success_body_with_and_without_statement() {
    assert_eq!(success_body("3", &Some("3".to_string()), "    = 3"), ">>> 3\n\n3\n\n    = 3");
    assert_eq!(success_body("3", &None, "    = 3"), ">>> 3\n\n\n\n    = 3");
}

#[test]
fn failure_body_prefixes_message() {
    assert_eq!(failure_body("é", "bad ✓"), ">>> é\n\n\n\nError: bad ✓");
}
