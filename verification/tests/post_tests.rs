use blog::db::post::{create_post, get_post_count, is_listable, list_posts, search_pattern};
use blog::handler::page::post::{can_show_index, count_pattern, post_index_page, total_pages};
use blog::handler::page::root::index;
use blog::model::{CreatePost, PostQuery, User};

fn alice() -> User {
    User { id: 3, username: "alice".to_string() }
}

#[test]
fn create_post_fills_in_defaults() {
    let row = create_post(&alice(), CreatePost { title: None, content: None, summary: None });
    assert_eq!(row.author_id, 3);
    assert_eq!(row.title, "Untitled");
    assert_eq!(row.content, "");
    assert_eq!(row.summary, "");
}

#[test]
fn create_post_summary_is_first_two_hundred_characters() {
    let content = format!("{}{}", "ü".repeat(200), "tail");
    let row = create_post(&alice(), CreatePost { title: Some("T".to_string()), content: Some(content.clone()), summary: None });
    assert_eq!(row.title, "T");
    assert_eq!(row.content, content);
    assert_eq!(row.summary, "ü".repeat(200));
    let short = create_post(&alice(), CreatePost { title: None, content: Some("short".to_string()), summary: None });
    assert_eq!(short.summary, "short");
}

#[test]
fn create_post_keeps_given_summary() {
    let row = create_post(&alice(), CreatePost { title: None, content: Some("body".to_string()), summary: Some("given".to_string()) });
    assert_eq!(row.summary, "given");
}

#[test]
fn default_listing_is_first_ten_of_everything() {
    let w = list_posts(PostQuery::default());
    assert_eq!(w.limit, 10);
    assert_eq!(w.offset, 0);
    assert_eq!(w.pattern, "%%");
    let front = index();
    assert_eq!((front.limit, front.offset, front.pattern), (10, 0, "%%".to_string()));
}

#[test]
fn listing_window_skips_offset_and_earlier_pages() {
    let q = PostQuery { query: Some("rust".to_string()), page: Some(3), limit: Some(5), offset: Some(2) };
    assert!(is_listable(&q));
    let w = list_posts(q);
    assert_eq!(w.limit, 5);
    assert_eq!(w.offset, 12);
    assert_eq!(w.pattern, "%rust%");
}

#[test]
fn next_page_starts_one_limit_later() {
    let q2 = PostQuery { query: None, page: Some(2), limit: Some(7), offset: Some(1) };
    let q3 = PostQuery { query: None, page: Some(3), limit: Some(7), offset: Some(1) };
    assert_eq!(list_posts(q3).offset, list_posts(q2).offset + 7);
}

#[test]
fn unlistable_requests_are_recognised() {
    assert!(!is_listable(&PostQuery { query: None, page: Some(0), limit: None, offset: None }));
    assert!(!is_listable(&PostQuery { query: None, page: Some(u32::MAX), limit: Some(2), offset: None }));
    assert!(is_listable(&PostQuery { query: None, page: Some(1), limit: None, offset: None }));
}

#[test]
fn search_pattern_wraps_in_percent_signs() {
    assert_eq!(search_pattern("a b"), "%a b%");
    assert_eq!(search_pattern(""), "%%");
}

#[test]
fn missing_count_is_zero() {
    assert_eq!(get_post_count(None), 0);
    assert_eq!(get_post_count(Some(42)), 42);
}

#[test]
fn total_pages_rounds_up() {
    assert_eq!(total_pages(0, 10), 0);
    assert_eq!(total_pages(10, 10), 1);
    assert_eq!(total_pages(11, 10), 2);
    assert_eq!(total_pages(1, 1), 1);
    let limited = |limit: u32| PostQuery { query: None, page: None, limit: Some(limit), offset: None };
    assert!(!can_show_index(&limited(0), 5));
    assert!(!can_show_index(&limited(1), u64::MAX));
    assert!(can_show_index(&limited(3), 5));
    assert!(can_show_index(&PostQuery::default(), 100));
}

#[test]
fn index_page_shows_request_and_page_count() {
    let q = PostQuery { query: None, page: None, limit: None, offset: None };
    let p = post_index_page(&q, 25);
    assert_eq!((p.page, p.limit, p.offset, p.total_pages), (1, 10, 0, 3));
    assert_eq!(p.search_query, "");
    let q = PostQuery { query: Some("x".to_string()), page: Some(2), limit: Some(4), offset: Some(1) };
    let p = post_index_page(&q, 9);
    assert_eq!((p.page, p.limit, p.offset, p.total_pages), (2, 4, 1, 3));
    assert_eq!(p.search_query, "x");
}

#[test]
fn index_counts_with_the_search_pattern() {
    assert_eq!(count_pattern(&PostQuery::default()), "%%");
    let q = PostQuery { query: Some("verus".to_string()), page: None, limit: None, offset: None };
    assert_eq!(count_pattern(&q), "%verus%");
}
