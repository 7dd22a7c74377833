use blog::model::{empty_string_if_none, Post, PostQuery, PostSummary};

fn post_with(content: &str) -> Post {
    Post {
        id: 7,
        title: "Hello".to_string(),
        author: "alice".to_string(),
        created_at: 1_700_000_000_000_000,
        content: content.to_string(),
    }
}

#[test]
fn summarize_keeps_short_text() {
    let s = post_with("A short post.").summarize();
    assert_eq!(s.id, 7);
    assert_eq!(s.title, "Hello");
    assert_eq!(s.author, "alice");
    assert_eq!(s.created_at, 1_700_000_000_000_000);
    assert_eq!(s.summary.as_deref(), Some("A short post."));
}

#[test]
fn summarize_keeps_text_of_exactly_one_hundred_bytes() {
    let text = "x".repeat(100);
    let s = post_with(&text).summarize();
    assert_eq!(s.summary, Some(text));
}

#[test]
fn summarize_cuts_long_text_after_one_hundred_bytes() {
    let text = format!("{}{}", "a".repeat(100), "bcdef");
    let s = post_with(&text).summarize();
    assert_eq!(s.summary, Some(format!("{}...", "a".repeat(100))));
}

#[test]
fn summarize_counts_bytes_not_characters() {
    // 51 two-byte characters: 102 bytes, cut after the 50th character.
    let text = "é".repeat(51);
    let s = post_with(&text).summarize();
    assert_eq!(s.summary, Some(format!("{}...", "é".repeat(50))));
    // 50 of them are exactly 100 bytes and stay whole.
    let whole = "é".repeat(50);
    assert_eq!(post_with(&whole).summarize().summary, Some(whole));
}

#[test]
fn from_is_summarize() {
    let text = "b".repeat(150);
    let a = post_with(&text).summarize();
    let b = PostSummary::from(post_with(&text));
    assert_eq!(a.summary, b.summary);
    assert_eq!(b.id, 7);
    assert_eq!(b.summary, Some(format!("{}...", "b".repeat(100))));
}

#[test]
fn absent_summary_shows_empty() {
    assert_eq!(empty_string_if_none(&None), "");
    assert_eq!(empty_string_if_none(&Some("sum".to_string())), "sum");
}

#[test]
fn default_query_names_nothing() {
    let q = PostQuery::default();
    assert!(q.query.is_none() && q.page.is_none() && q.limit.is_none() && q.offset.is_none());
}

#[test]
fn summaries_stay_within_one_hundred_and_three_bytes() {
    for text in ["", "short", &"z".repeat(500), &"ß".repeat(80), &format!("{}{}", "q".repeat(98), "€€€€")] {
        let post = post_with(text);
        let bytes = text.as_bytes();
        if bytes.len() > 100 && !text.is_char_boundary(100) {
            continue;
        }
        let summary = post.summarize().summary.unwrap();
        assert!(summary.len() <= 103);
        if bytes.len() > 100 {
            assert_eq!(&summary.as_bytes()[..100], &bytes[..100]);
        }
    }
}
