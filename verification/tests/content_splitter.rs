use social_forge::staging::plan_staging;
use social_forge::content_splitter::{
    needs_splitting, platform_limit, preview_split, split_content, supports_threads,
};

#[test]
fn test_no_split_needed() {
    let content = "Short post";
    let segments = split_content(content, "x", 4);
    assert_eq!(segments.len(), 1);
    assert_eq!(segments[0].content, "Short post");
}

#[test]
fn test_split_long_content() {
    let content = "a".repeat(5000);
    let segments = split_content(&content, "x", 4);
    assert!(segments.len() > 1);
    for seg in &segments {
        assert!(seg.content.len() <= 4000);
    }
}

#[test]
fn test_bluesky_thread() {
    let content = "a".repeat(500);
    let segments = split_content(&content, "bluesky", 4);
    assert!(segments.len() > 1);
    assert!(segments[0].content.starts_with("(1/"));
}

#[test]
fn test_platform_limits() {
    assert_eq!(platform_limit("x"), 4000);
    assert_eq!(platform_limit("linkedin"), 3000);
    assert_eq!(platform_limit("bluesky"), 300);
    assert_eq!(platform_limit("threads"), 500);
}

#[test]
fn platform_limit_defaults_and_aliases() {
    assert_eq!(platform_limit("linkedin_page"), 3000);
    assert_eq!(platform_limit("facebook"), 63206);
    assert_eq!(platform_limit("telegram_user"), 4096);
    assert_eq!(platform_limit("wordpress"), 100000);
    assert_eq!(platform_limit("unknown-platform"), 10000);
    assert_eq!(platform_limit(""), 10000);
}

#[test]
fn threads_only_on_thread_platforms() {
    assert!(supports_threads("x"));
    assert!(supports_threads("bluesky"));
    assert!(supports_threads("mastodon"));
    assert!(supports_threads("threads"));
    assert!(!supports_threads("linkedin"));
    assert!(!supports_threads("X"));
}

#[test]
fn hard_cut_exact_segments() {
    // 500 bytes on bluesky: budget 290 per chunk, so 290 + 210.
    let content = "a".repeat(500);
    let segments = split_content(&content, "bluesky", 4);
    assert_eq!(segments.len(), 2);
    assert_eq!(segments[0].content, format!("(1/2)\n{}", "a".repeat(290)));
    assert_eq!(segments[1].content, format!("(2/2)\n{}", "a".repeat(210)));
    assert_eq!(segments[0].sequence, 1);
    assert_eq!(segments[1].sequence, 2);
    assert_eq!(segments[1].total, 2);
}

#[test]
fn paragraph_break_preferred_and_whitespace_dropped() {
    let first = "b".repeat(200);
    let second = "c".repeat(200);
    let content = format!("{first}\n\n   {second}");
    let segments = split_content(&content, "linkedin", 4);
    assert_eq!(segments.len(), 1);
    let segments = split_content(&content, "bluesky", 4);
    assert_eq!(segments.len(), 2);
    assert_eq!(segments[0].content, format!("(1/2)\n{first}\n\n"));
    assert_eq!(segments[1].content, format!("(2/2)\n{second}"));
}

#[test]
fn sentence_then_word_breaks() {
    // No paragraph break: the last ". " inside the budget wins.
    let content = format!("{}. {} {}", "a".repeat(100), "b".repeat(150), "c".repeat(100));
    let segments = split_content(&content, "bluesky", 4);
    assert_eq!(segments[0].content, format!("(1/2)\n{}. ", "a".repeat(100)));
    assert_eq!(segments[1].content, format!("(2/2)\n{} {}", "b".repeat(150), "c".repeat(100)));
    // Only spaces: break after the last space inside the budget.
    let content = format!("{} {} {}", "a".repeat(100), "b".repeat(150), "c".repeat(100));
    let segments = split_content(&content, "bluesky", 4);
    assert_eq!(segments[0].content, format!("(1/2)\n{} {} ", "a".repeat(100), "b".repeat(150)));
}

#[test]
fn non_thread_platform_has_no_numbering() {
    let content = "z".repeat(2500);
    let segments = split_content(&content, "pinterest", 4);
    assert_eq!(segments.len(), 5);
    for seg in &segments {
        assert_eq!(seg.content, "z".repeat(500));
        assert_eq!(seg.total, 5);
    }
}

#[test]
fn multibyte_content_within_limit() {
    let content = "é".repeat(100);
    let segments = split_content(&content, "bluesky", 4);
    assert_eq!(segments.len(), 1);
    assert_eq!(segments[0].content, content);
}

#[test]
fn multibyte_content_split_on_char_boundary() {
    // 200 two-byte chars = 400 bytes; budget 290 bytes = 145 chars.
    let content = "é".repeat(200);
    let segments = split_content(&content, "bluesky", 4);
    assert_eq!(segments.len(), 2);
    assert_eq!(segments[0].content, format!("(1/2)\n{}", "é".repeat(145)));
    assert_eq!(segments[1].content, format!("(2/2)\n{}", "é".repeat(55)));
}

#[test]
fn needs_splitting_by_bytes() {
    assert!(!needs_splitting(&"a".repeat(300), "bluesky"));
    assert!(needs_splitting(&"a".repeat(301), "bluesky"));
    assert!(needs_splitting(&"é".repeat(151), "bluesky"));
}

#[test]
fn preview_split_reports_counts_and_limits() {
    let content = "a".repeat(500);
    let preview = preview_split(&content, &["x", "bluesky", "pinterest"]);
    assert_eq!(
        preview,
        vec![
            ("x".to_string(), 1, 4000),
            ("bluesky".to_string(), 2, 300),
            ("pinterest".to_string(), 1, 500),
        ]
    );
}

#[test]
fn multibyte_text_is_cut_on_character_boundaries() {
    let odd = format!("a{}", "é".repeat(200));
    let parts = split_content(&odd, "bluesky", 4);
    assert!(parts.len() > 1);
    for p in &parts {
        assert!(p.content.len() <= 300);
    }
    let euros = "€".repeat(200);
    let parts = split_content(&euros, "bluesky", 4);
    assert_eq!(parts.len(), 3);
    let joined: String = parts.iter().map(|p| p.content.splitn(2, '\n').nth(1).unwrap()).collect();
    assert_eq!(joined, euros);
    for (i, p) in parts.iter().enumerate() {
        assert!(p.content.len() <= 300);
        assert_eq!(p.sequence, i + 1);
        assert_eq!(p.total, 3);
    }
    assert_eq!(split_content("short", "x", 4).len(), 1);
}

#[test]
fn staging_plans_warn_about_splits() {
    let plan = plan_staging(&"word ".repeat(100), "bluesky");
    assert!(plan.segments.len() > 1);
    let expected = format!("Content split into {} posts for bluesky (limit: 300 chars)", plan.segments.len());
    assert_eq!(plan.warning, Some(expected));
    let single = plan_staging("hi", "x");
    assert_eq!(single.segments.len(), 1);
    assert!(single.warning.is_none());
    assert!(plan_staging(&format!("a{}", "é".repeat(200)), "bluesky").segments.len() > 1);
}
