use iamdreamingof_generator::prompts::render;
use iamdreamingof_generator::prompts::{CHAT_SYSTEM, CHAT_USER, IMAGE_ENHANCEMENT, QA_SYSTEM, QA_USER};

#[test]
fn test_render_single_var() {
    assert_eq!(
        render("Hello {{name}}!", &[("name", "world")]),
        "Hello world!"
    );
}

#[test]
fn test_render_multiple_vars() {
    assert_eq!(
        render("{{a}} and {{b}}", &[("a", "cats"), ("b", "dogs")]),
        "cats and dogs"
    );
}

#[test]
fn test_prompts_are_non_empty() {
    assert!(!CHAT_SYSTEM.is_empty());
    assert!(!CHAT_USER.is_empty());
    assert!(!IMAGE_ENHANCEMENT.is_empty());
    assert!(!QA_SYSTEM.is_empty());
    assert!(!QA_USER.is_empty());
}

#[test]
fn test_chat_user_has_words_placeholder() {
    assert!(CHAT_USER.contains("{{words}}"));
}

#[test]
fn test_image_enhancement_has_placeholders() {
    assert!(IMAGE_ENHANCEMENT.contains("{{prompt}}"));
    assert!(IMAGE_ENHANCEMENT.contains("{{words}}"));
}

#[test]
fn test_render_replaces_every_occurrence() {
    assert_eq!(render("{{x}}-{{x}}-{{x}}", &[("x", "ab")]), "ab-ab-ab");
}

#[test]
fn test_render_leaves_unknown_placeholders() {
    assert_eq!(render("{{a}} {{b}}", &[("a", "1")]), "1 {{b}}");
}

#[test]
fn test_render_without_vars_returns_template() {
    assert_eq!(render("plain {{text}}", &[]), "plain {{text}}");
}

#[test]
fn test_render_later_var_sees_earlier_value() {
    assert_eq!(
        render("{{a}}", &[("a", "{{b}}"), ("b", "done")]),
        "done"
    );
}

#[test]
fn test_render_matches_left_to_right_without_overlap() {
    assert_eq!(render("{{{a}}}", &[("a", "x")]), "{x}");
    assert_eq!(render("{{a}}{{a}", &[("a", "x")]), "x{{a}");
}

#[test]
fn test_render_handles_non_ascii_text() {
    assert_eq!(render("caf\u{e9} {{w}} \u{2603}", &[("w", "r\u{ea}ve")]), "caf\u{e9} r\u{ea}ve \u{2603}");
}
