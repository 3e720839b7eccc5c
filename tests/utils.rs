use personal_website::utils::{
    current_timestamp_ms, slugify, slugify_lowercased, timestamp_from_millis, truncate_text,
};

#[test]
fn test_slugify() {
    assert_eq!(slugify("Hello World!"), "hello-world");
    assert_eq!(slugify("Rust & Axum"), "rust-axum");
    assert_eq!(slugify("API Development 101"), "api-development-101");
}

#[test]
fn test_truncate_text() {
    assert_eq!(truncate_text("Short", 10), "Short");
    assert_eq!(truncate_text("This is a longer text", 10), "This is...");
}

#[test]
fn slug_of_lowercased_text_collapses_separators() {
    assert_eq!(slugify_lowercased("--a  b--c--"), "a-b-c");
    assert_eq!(slugify_lowercased("!!!"), "");
    assert_eq!(slugify_lowercased(""), "");
}

#[test]
fn slugify_lowercases_before_filtering() {
    assert_eq!(slugify("ÄBC Déf"), "bc-d-f");
    assert_eq!(slugify("RUST"), "rust");
}

#[test]
fn truncate_edges() {
    assert_eq!(truncate_text("abcdef", 6), "abcdef");
    assert_eq!(truncate_text("abcdefg", 6), "abc...");
    assert_eq!(truncate_text("abcdef", 2), "...");
    assert_eq!(truncate_text("", 0), "");
}

#[test]
fn timestamp_is_after_2020() {
    assert!(current_timestamp_ms() > 1_577_836_800_000);
}

#[test]
fn truncate_counts_bytes() {
    assert_eq!(truncate_text("é", 1), "...");
    assert_eq!(truncate_text("é", 2), "é");
    assert_eq!(truncate_text("héllo wörld", 8), "héll...");
}

#[test]
fn timestamps_from_millis() {
    assert_eq!(timestamp_from_millis(None), 0);
    assert_eq!(timestamp_from_millis(Some(42)), 42);
    assert_eq!(timestamp_from_millis(Some(u64::MAX as u128)), u64::MAX);
    assert_eq!(timestamp_from_millis(Some(u64::MAX as u128 + 1)), u64::MAX);
}
