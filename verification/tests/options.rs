use baxe::options::{parse_options, settle_options, MAX_TARGET_LENGTH};
use baxe::schema::Options;

fn options(log_message_with: Option<&str>, hide_message: bool) -> Option<Options> {
    Some(Options { log_message_with: log_message_with.map(|target| target.to_string()), hide_message })
}

fn texts(parts: &[&str]) -> Vec<String> {
    parts.iter().map(|part| part.to_string()).collect()
}

fn verdicts(given: &[Option<&str>]) -> Vec<Option<String>> {
    given.iter().map(|verdict| verdict.map(|tokens| tokens.to_string())).collect()
}

#[test]
fn empty_text_sets_nothing() {
    assert_eq!(parse_options(""), options(None, false));
    assert_eq!(parse_options("   "), options(None, false));
    assert_eq!(parse_options(",,"), options(None, false));
}

#[test]
fn hide_message_is_read() {
    assert_eq!(parse_options("hideMessage"), options(None, true));
    assert_eq!(parse_options("  hideMessage  "), options(None, true));
    assert_eq!(parse_options("hideMessage,hideMessage"), options(None, true));
}

#[test]
fn hide_message_must_be_written_exactly() {
    assert_eq!(parse_options("HideMessage"), options(None, false));
    assert_eq!(parse_options("hideMessage=true"), options(None, false));
    assert_eq!(parse_options("hide Message"), options(None, false));
}

#[test]
fn log_target_is_kept_as_its_tokens() {
    assert_eq!(parse_options("logMessageWith=tracing::error"), options(Some("tracing :: error"), false));
    assert_eq!(parse_options(" logMessageWith=  log::warn  "), options(Some("log :: warn"), false));
    assert_eq!(parse_options("logMessageWith=println"), options(Some("println"), false));
}

#[test]
fn comment_in_a_log_target_is_no_token() {
    assert_eq!(parse_options("logMessageWith=println // loud"), options(Some("println"), false));
    assert_eq!(parse_options("logMessageWith=/* quiet */ println"), options(Some("println"), false));
}

#[test]
fn both_options_are_independent() {
    assert_eq!(
        parse_options("logMessageWith=tracing::error, hideMessage"),
        options(Some("tracing :: error"), true)
    );
    assert_eq!(
        parse_options("hideMessage,logMessageWith=tracing::error"),
        options(Some("tracing :: error"), true)
    );
}

#[test]
fn last_log_target_wins() {
    assert_eq!(
        parse_options("logMessageWith=first, logMessageWith=second"),
        options(Some("second"), false)
    );
}

#[test]
fn unknown_parts_are_passed_over() {
    assert_eq!(parse_options("verbose, hideMessage, 42"), options(None, true));
    assert_eq!(parse_options("logMessageWith = tracing::error"), options(None, false));
    assert_eq!(parse_options("logmessagewith=tracing::error"), options(None, false));
}

#[test]
fn log_target_that_is_no_expression_is_refused() {
    assert_eq!(parse_options("logMessageWith="), None);
    assert_eq!(parse_options("logMessageWith=)("), None);
    assert_eq!(parse_options("logMessageWith=let x"), None);
    assert_eq!(parse_options("logMessageWith=a b"), None);
    assert_eq!(parse_options("hideMessage, logMessageWith=\"open"), None);
}

#[test]
fn one_refused_target_refuses_the_text_even_when_a_later_one_parses() {
    assert_eq!(parse_options("logMessageWith=, logMessageWith=tracing::error"), None);
    assert_eq!(parse_options("logMessageWith=tracing::error, logMessageWith="), None);
}

#[test]
fn log_target_may_be_any_expression() {
    assert_eq!(parse_options("logMessageWith=a=b"), options(Some("a = b"), false));
    assert_eq!(parse_options("logMessageWith=1 + 2"), options(Some("1 + 2"), false));
}

#[test]
fn log_target_at_the_length_limit_is_parsed() {
    assert_eq!(MAX_TARGET_LENGTH, 128);
    let path = format!("a{}", "::a".repeat(42));
    assert_eq!(path.chars().count(), 127);
    let read = parse_options(&format!("logMessageWith={}b", path)).unwrap();
    assert_eq!(read.log_message_with, Some(format!("a{} :: ab", " :: a".repeat(41))));
}

#[test]
fn deepest_log_target_within_the_limit_is_parsed() {
    let nested = format!("{}x{}", "(".repeat(63), ")".repeat(63));
    assert_eq!(nested.chars().count(), 127);
    let read = parse_options(&format!("logMessageWith={}", nested)).unwrap();
    assert!(read.log_message_with.is_some());
    let negated = format!("{}x", "!".repeat(127));
    assert!(parse_options(&format!("logMessageWith={}", negated)).unwrap().log_message_with.is_some());
}

#[test]
fn log_target_beyond_the_length_limit_is_refused_unread() {
    let path = format!("a{}", "::a".repeat(43));
    assert_eq!(path.chars().count(), 130);
    assert_eq!(parse_options(&format!("logMessageWith={}", path)), None);
    let spaced = format!("logMessageWith=   {}   ", "a".repeat(128));
    assert!(parse_options(&spaced).is_some());
    assert_eq!(parse_options(&format!("logMessageWith={}", "a".repeat(129))), None);
}

#[test]
fn settle_takes_the_verdict_on_each_log_target() {
    let parts = texts(&["logMessageWith=a", "hideMessage", "other", "logMessageWith=b"]);
    assert_eq!(
        settle_options(&parts, &verdicts(&[Some("A"), None, None, Some("B")])),
        options(Some("B"), true)
    );
    assert_eq!(
        settle_options(&parts, &verdicts(&[Some("A"), Some("ignored"), Some("ignored"), Some("B")])),
        options(Some("B"), true)
    );
}

#[test]
fn settle_refuses_on_any_refused_log_target() {
    let parts = texts(&["logMessageWith=a", "hideMessage", "logMessageWith=b"]);
    assert_eq!(settle_options(&parts, &verdicts(&[None, None, Some("B")])), None);
    assert_eq!(settle_options(&parts, &verdicts(&[Some("A"), None, None])), None);
}

#[test]
fn settle_counts_a_missing_verdict_as_a_refusal() {
    let parts = texts(&["hideMessage", "logMessageWith=a"]);
    assert_eq!(settle_options(&parts, &verdicts(&[None])), None);
    assert_eq!(settle_options(&parts, &verdicts(&[])), None);
    assert_eq!(settle_options(&texts(&["hideMessage", "x"]), &verdicts(&[])), options(None, true));
}

#[test]
fn settle_of_no_parts_sets_nothing() {
    assert_eq!(settle_options(&texts(&[]), &verdicts(&[])), options(None, false));
    assert_eq!(settle_options(&texts(&[]), &verdicts(&[Some("A")])), options(None, false));
}
