//! Posts: the row a new post is stored as, and the window of rows a listing
//! request asks for.

use vstd::prelude::*;
use crate::model::{CreatePost, PostQuery, User};

verus! {

/// The title of a post created without one.
pub open spec fn default_title() -> Seq<char> {
    "Untitled"@
}

/// How many characters of a post's text make its summary when none is given.
pub const SUMMARY_CHARS: usize = 200;

/// The page shown when none is asked for.
pub const DEFAULT_PAGE: u32 = 1;

/// How many posts a page holds when no limit is asked for.
pub const DEFAULT_LIMIT: u32 = 10;

/// The row a new post is stored as.
pub struct NewPost {
    pub author_id: i32,
    pub title: String,
    pub content: String,
    pub summary: String,
}

/// The first `n` characters of a text, or all of it when it is shorter.
pub open spec fn first_chars(s: Seq<char>, n: nat) -> Seq<char> {
    if s.len() <= n { s } else { s.subrange(0, n as int) }
}

/// The text of a new post: the one given, or the empty text.
pub open spec fn new_post_content(post: CreatePost) -> Seq<char> {
    match post.content {
        Some(c) => c@,
        None => Seq::<char>::empty(),
    }
}

/// The row a request to create a post becomes when `user` writes it.
pub open spec fn new_post_spec(user: User, post: CreatePost) -> (Seq<char>, Seq<char>, Seq<char>) {
    let title = match post.title {
        Some(t) => t@,
        None => default_title(),
    };
    let content = new_post_content(post);
    let summary = match post.summary {
        Some(s) => s@,
        None => first_chars(content, SUMMARY_CHARS as nat),
    };
    (title, content, summary)
}

/// The row that a request to create a post is stored as: the author is
/// `user`; a missing title becomes "Untitled", a missing text the empty
/// text, and a missing summary the first `SUMMARY_CHARS` characters of the
/// text.
pub fn create_post(user: &User, post: CreatePost) -> (res: NewPost)
    ensures
        res.author_id == user.id,
        (res.title@, res.content@, res.summary@) == new_post_spec(*user, post),
        post.title matches Some(t) ==> res.title@ == t@,
        post.title is None ==> res.title@ == "Untitled"@,
        post.content matches Some(c) ==> res.content@ == c@,
        post.content is None ==> res.content@.len() == 0,
        post.summary matches Some(s) ==> res.summary@ == s@,
        post.summary is None ==> {
            &&& res.summary@.len() == if res.content@.len() <= SUMMARY_CHARS { res.content@.len() } else { SUMMARY_CHARS as nat }
            &&& forall|i: int| 0 <= i < res.summary@.len() ==> res.summary@[i] == res.content@[i]
        },
{
    let ghost spec_post = post;
    let title = match post.title {
        Some(t) => t,
        None => String::from_str("Untitled"),
    };
    let content = match post.content {
        Some(c) => c,
        None => String::new(),
    };
    let summary = match post.summary {
        Some(s) => s,
        None => {
            let text: &str = content.as_str();
            let n = text.unicode_len();
            let end = if n <= SUMMARY_CHARS { n } else { SUMMARY_CHARS };
            let head = text.substring_char(0, end);
            proof {
                if n <= SUMMARY_CHARS {
                    assert(head@ =~= content@);
                }
            }
            String::from_str(head)
        },
    };
    NewPost { author_id: user.id, title, content, summary }
}

/// The page a listing request asks for.
pub open spec fn page_of(q: PostQuery) -> u32 {
    match q.page {
        Some(p) => p,
        None => DEFAULT_PAGE,
    }
}

/// The number of posts per page a listing request asks for.
pub open spec fn limit_of(q: PostQuery) -> u32 {
    match q.limit {
        Some(l) => l,
        None => DEFAULT_LIMIT,
    }
}

/// The number of posts a listing request skips before its first page.
pub open spec fn offset_of(q: PostQuery) -> u32 {
    match q.offset {
        Some(o) => o,
        None => 0,
    }
}

/// The search text of a listing request; the empty text matches every post.
pub open spec fn search_of(q: PostQuery) -> Seq<char> {
    match q.query {
        Some(s) => s@,
        None => Seq::<char>::empty(),
    }
}

/// The number of rows skipped before the page that a listing request asks
/// for: its offset plus all the earlier pages.
pub open spec fn skipped_rows(q: PostQuery) -> int {
    offset_of(q) + (page_of(q) - 1) * limit_of(q)
}

/// A listing request can be served: it asks for page 1 or later, and the
/// rows it skips can be counted in 32 bits.
pub open spec fn listable(q: PostQuery) -> bool {
    &&& page_of(q) >= 1
    &&& skipped_rows(q) <= u32::MAX
}

/// The pattern that matches every text holding `search`.
pub open spec fn search_pattern_of(search: Seq<char>) -> Seq<char> {
    "%"@ + search + "%"@
}

/// The rows a listing request asks for: at most `limit` posts whose title or
/// text matches `pattern`, newest first, after skipping `offset` of them.
pub struct PostWindow {
    pub limit: i64,
    pub offset: i64,
    pub pattern: String,
}

/// The pattern that matches every text holding `search`.
pub fn search_pattern(search: &str) -> (res: String)
    ensures
        res@ == search_pattern_of(search@),
{
    let mut pattern = String::from_str("%");
    pattern.append(search);
    pattern.append("%");
    pattern
}

/// Whether a listing request can be served (`listable`).
pub fn is_listable(q: &PostQuery) -> (res: bool)
    ensures
        res == listable(*q),
{
    let page: u32 = match q.page {
        Some(p) => p,
        None => DEFAULT_PAGE,
    };
    let limit: u32 = match q.limit {
        Some(l) => l,
        None => DEFAULT_LIMIT,
    };
    let offset: u32 = match q.offset {
        Some(o) => o,
        None => 0,
    };
    if page < 1 {
        return false;
    }
    let pages_before: u64 = page as u64 - 1;
    assert(pages_before * (limit as u64) <= 0xffff_ffff * 0xffff_ffff) by (nonlinear_arith)
        requires
            pages_before <= 0xffff_ffff,
            limit <= 0xffff_ffff,
    ;
    let earlier: u64 = pages_before * (limit as u64);
    earlier + offset as u64 <= u32::MAX as u64
}

/// The window of rows that a listing request asks for: `limit` rows (10 when
/// none is asked for), after skipping the offset (0 when none) and the
/// earlier pages (the first page when none is asked for), of the posts that
/// match the search text (every post when none).
pub fn list_posts(query: PostQuery) -> (res: PostWindow)
    requires
        listable(query),
    ensures
        res.limit == limit_of(query),
        res.offset == skipped_rows(query),
        res.pattern@ == search_pattern_of(search_of(query)),
{
    let page: u32 = match query.page {
        Some(p) => p,
        None => DEFAULT_PAGE,
    };
    let limit: u32 = match query.limit {
        Some(l) => l,
        None => DEFAULT_LIMIT,
    };
    let offset: u32 = match query.offset {
        Some(o) => o,
        None => 0,
    };
    proof {
        assert((page - 1) * limit <= u32::MAX) by (nonlinear_arith)
            requires
                offset + (page - 1) * limit <= u32::MAX,
                offset >= 0,
        ;
    }
    let final_offset: u32 = offset + (page - 1) * limit;
    let search: String = match query.query {
        Some(s) => s,
        None => String::new(),
    };
    let pattern = search_pattern(search.as_str());
    PostWindow { limit: limit as i64, offset: final_offset as i64, pattern }
}

/// Consecutive pages are adjacent: the page after the one a listing request
/// asks for starts exactly `limit` rows after it, so that paging through a
/// listing neither skips nor repeats a post.
pub proof fn lemma_next_page_is_adjacent(q: PostQuery, next_page: u32)
    requires
        page_of(q) >= 1,
        next_page == page_of(q) + 1,
    ensures
        skipped_rows(PostQuery { page: Some(next_page), ..q }) == skipped_rows(q) + limit_of(q),
{
    let l = limit_of(q) as int;
    let p = page_of(q) as int;
    assert((p + 1 - 1) * l == (p - 1) * l + l) by (nonlinear_arith);
}

/// A created post keeps every field the request gives: the given title, the
/// given text (none means the empty text) and the given summary, whatever
/// the other fields are. Without a summary, the summary is the start of the
/// text, as many characters of it as fit in `SUMMARY_CHARS`.
pub proof fn lemma_create_post_keeps_given_fields(user: User, post: CreatePost)
    ensures
        post.title matches Some(t) ==> new_post_spec(user, post).0 == t@,
        post.title is None ==> new_post_spec(user, post).0 == "Untitled"@,
        post.content matches Some(c) ==> new_post_spec(user, post).1 == c@,
        post.content is None ==> new_post_spec(user, post).1.len() == 0,
        post.summary matches Some(s) ==> new_post_spec(user, post).2 == s@,
        post.summary is None ==> {
            let content = new_post_spec(user, post).1;
            let summary = new_post_spec(user, post).2;
            &&& summary.len() == if content.len() <= 200 { content.len() } else { 200 }
            &&& forall|i: int| 0 <= i < summary.len() ==> summary[i] == content[i]
        },
{
}

/// The summary a post is stored with depends on the request's summary and
/// text alone: two requests that give the same summary and text get the
/// same summary, whoever writes them and whatever their titles.
pub proof fn lemma_summary_depends_on_summary_and_text(u1: User, p1: CreatePost, u2: User, p2: CreatePost)
    requires
        p1.summary == p2.summary,
        p1.content == p2.content,
    ensures
        new_post_spec(u1, p1).2 == new_post_spec(u2, p2).2,
{
}

/// The request that names nothing, and the request that names the
/// defaults, ask for the same window: the first 10 posts, skipping none.
/// Page, limit and offset left out mean page 1, limit 10 and offset 0.
pub proof fn lemma_window_defaults(q: PostQuery)
    ensures
        q.page is None && q.offset is None ==> skipped_rows(q) == 0,
        q.limit is None ==> limit_of(q) == 10,
        skipped_rows(PostQuery { page: None, ..q }) == skipped_rows(PostQuery { page: Some(1), ..q }),
        skipped_rows(PostQuery { limit: None, ..q }) == skipped_rows(PostQuery { limit: Some(10), ..q }),
        skipped_rows(PostQuery { offset: None, ..q }) == skipped_rows(PostQuery { offset: Some(0), ..q }),
        limit_of(PostQuery { limit: None, ..q }) == limit_of(PostQuery { limit: Some(10), ..q }),
{
    let p = page_of(q) as int;
    assert((p - 1) * 10 == (p - 1) * 10);
    assert((1 - 1) * limit_of(q) == 0) by (nonlinear_arith);
}

/// On the first page, the window starts exactly at the requested offset.
pub proof fn lemma_first_page_starts_at_offset(q: PostQuery, o: u32)
    requires
        q.page is None || q.page == Some(1u32),
        q.offset == Some(o),
    ensures
        skipped_rows(q) == o,
{
    assert((1 - 1) * limit_of(q) == 0) by (nonlinear_arith);
}

/// Moving the offset moves the window by as much, whatever the page and the
/// limit, given or not.
pub proof fn lemma_offset_shifts_window(q: PostQuery, o: u32, k: u32)
    requires
        o + k <= u32::MAX,
    ensures
        skipped_rows(PostQuery { offset: Some((o + k) as u32), ..q }) == skipped_rows(
            PostQuery { offset: Some(o), ..q },
        ) + k,
{
}

/// Every request for a page from 1 on, with page, limit and offset below
/// 2^15, can be served.
pub proof fn lemma_small_requests_are_listable(q: PostQuery)
    requires
        q.page matches Some(p) ==> 1 <= p < 0x8000,
        q.limit matches Some(l) ==> l < 0x8000,
        q.offset matches Some(o) ==> o < 0x8000,
    ensures
        listable(q),
{
    let p = page_of(q) as int;
    let l = limit_of(q) as int;
    assert((p - 1) * l <= 0x8000 * 0x8000) by (nonlinear_arith)
        requires
            0 <= p - 1 < 0x8000,
            0 <= l < 0x8000,
    ;
}

/// The number of posts that a count query reports: a missing count is 0.
pub fn get_post_count(total: Option<i64>) -> (res: u64)
    ensures
        res == (match total {
            Some(t) => t as u64,
            None => 0u64,
        }),
{
    match total {
        Some(t) => t as u64,
        None => 0,
    }
}

} // verus!
