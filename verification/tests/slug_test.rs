use scribe::domain::slug::{ensure_unique, generate, MAX_TITLE_LEN};
use std::cell::Cell;

#[test]
fn test_generate_basic() {
    assert_eq!(generate("proj-task-", "Fix Login Bug"), "proj-task-fix-login-bug");
}

#[test]
fn test_generate_strips_special_characters() {
    assert_eq!(generate("", "Hello, World! (2026)"), "hello-world-2026");
}

#[test]
fn test_generate_collapses_multiple_separators() {
    assert_eq!(generate("", "foo  --  bar"), "foo-bar");
}

#[test]
fn test_generate_truncates_long_title() {
    let long_title = "a".repeat(100);
    let slug = generate("", &long_title);
    assert!(slug.len() <= MAX_TITLE_LEN, "slug '{slug}' exceeds {MAX_TITLE_LEN} chars");
}

#[test]
fn test_generate_truncates_at_word_boundary() {
    let title = "the quick brown fox jumps over lazy dog x";
    let slug = generate("", title);
    assert!(!slug.ends_with('-'), "slug must not end with '-': {slug}");
    assert!(slug.len() <= MAX_TITLE_LEN);
}

#[test]
fn test_ensure_unique_no_collision() {
    let result = ensure_unique("my-slug", |_| false);
    assert_eq!(result.unwrap(), "my-slug");
}

#[test]
fn test_ensure_unique_with_collision_resolves() {
    let first_call = Cell::new(true);
    let result = ensure_unique("my-slug", |_| {
        if first_call.get() {
            first_call.set(false);
            true
        } else {
            false
        }
    });
    let slug = result.unwrap();
    assert!(slug.starts_with("my-slug-"), "expected suffix: {slug}");
}

#[test]
fn test_ensure_unique_exhausted_returns_error() {
    let result = ensure_unique("taken", |_| true);
    let err = result.unwrap_err();
    assert!(err.is_collision_limit());
    assert!(!err.to_string().is_empty());
}

#[test]
fn test_generate_empty_prefix() {
    assert_eq!(generate("", "hello world"), "hello-world");
}

#[test]
fn test_generate_unicode_title() {
    let slug = generate("", "Café & Résumé");
    assert!(!slug.contains(' '));
    assert!(!slug.contains('&'));
}

#[test]
fn generate_keeps_accented_letters() {
    assert_eq!(generate("", "Café & Résumé"), "café-résumé");
}

#[test]
fn generate_cuts_long_title_at_last_hyphen() {
    assert_eq!(
        generate("", "the quick brown fox jumps over lazy dog x"),
        "the-quick-brown-fox-jumps-over-lazy-dog"
    );
}

#[test]
fn generate_of_only_symbols_is_prefix() {
    assert_eq!(generate("p-", "!!!"), "p-");
}

#[test]
fn ensure_unique_suffix_has_four_characters() {
    let calls = Cell::new(0u32);
    let slug = ensure_unique("base", |_| {
        calls.set(calls.get() + 1);
        calls.get() == 1
    })
    .unwrap();
    assert_eq!(slug.len(), "base-".len() + 4);
    assert!(slug[5..].chars().all(|c| c.is_ascii_lowercase() || c.is_ascii_digit()));
}

#[test]
fn ensure_unique_exhausted_message_names_candidate() {
    let err = ensure_unique("taken", |_| true).unwrap_err();
    assert!(err.to_string().contains("taken"));
    assert!(err.to_string().contains('5'));
}
