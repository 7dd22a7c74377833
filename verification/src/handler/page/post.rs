//! The paged, searchable list of posts.

use vstd::prelude::*;
use crate::db::post::{
    limit_of, offset_of, page_of, search_of, search_pattern, search_pattern_of, DEFAULT_LIMIT,
    DEFAULT_PAGE,
};
use crate::model::PostQuery;

verus! {

/// The number of pages that `total` posts fill, `limit` to a page, cut to 32
/// bits as the page shows it.
pub open spec fn total_pages_of(total: u64, limit: u32) -> u32 {
    ((total + limit - 1) / (limit as int)) as u32
}

/// The count of pages can be computed: pages hold at least one post, and
/// adding the page size to the count, to round it up, does not overflow.
pub open spec fn pages_computable(total: u64, limit: u32) -> bool {
    &&& limit > 0
    &&& total + limit <= u64::MAX
}

/// The number of pages that `total` posts fill, `limit` to a page.
pub fn total_pages(total: u64, limit: u32) -> (res: u32)
    requires
        pages_computable(total, limit),
    ensures
        res == total_pages_of(total, limit),
{
    let pages: u64 = (total + limit as u64 - 1) / limit as u64;
    (#[verifier::truncate] (pages as u32))
}

/// The pages cover the matching posts, with no page to spare: when the count
/// of pages fits in 32 bits, that many pages hold every one of `total`
/// posts, and one page fewer would not.
pub proof fn lemma_pages_cover_posts(total: u64, limit: u32)
    requires
        pages_computable(total, limit),
        (total + limit - 1) / (limit as int) <= u32::MAX,
    ensures
        total_pages_of(total, limit) * limit >= total,
        total_pages_of(total, limit) * limit < total + limit,
{
    let t = total as int;
    let l = limit as int;
    let q = (t + l - 1) / l;
    assert(q * l <= t + l - 1 && t + l - 1 < q * l + l) by (nonlinear_arith)
        requires
            l > 0,
            q == (t + l - 1) / l,
    ;
    assert(total_pages_of(total, limit) == q);
}

/// The list page can be shown exactly when pages hold at least one post and
/// the count plus the page size fits in 64 bits: in particular for an empty
/// blog or a search that matches nothing, and for every count the database
/// can report (at most `i64::MAX`) with a positive page size. An empty
/// listing then has no pages.
pub proof fn lemma_list_page_shown_for_every_count(total: u64, limit: u32)
    ensures
        pages_computable(total, limit) <==> (limit > 0 && total + limit <= u64::MAX),
        limit > 0 && total <= i64::MAX ==> pages_computable(total, limit),
        limit > 0 ==> pages_computable(0, limit) && total_pages_of(0, limit) == 0,
{
    if limit > 0 {
        assert((0 + limit - 1) / (limit as int) == 0) by (nonlinear_arith)
            requires
                limit > 0,
        ;
    }
}

/// Whether the list page can be shown for a listing request when `total`
/// posts match it: its count of pages can be computed.
pub fn can_show_index(query: &PostQuery, total: u64) -> (res: bool)
    ensures
        res == pages_computable(total, limit_of(*query)),
        res <==> (limit_of(*query) > 0 && total + limit_of(*query) <= u64::MAX),
        query.limit is None && total <= i64::MAX ==> res,
{
    let limit: u32 = match query.limit {
        Some(l) => l,
        None => DEFAULT_LIMIT,
    };
    limit > 0 && total <= u64::MAX - limit as u64
}

/// The pattern the list page counts matching posts with: the request's
/// search text (the empty text when none) between percent signs.
pub fn count_pattern(query: &PostQuery) -> (res: String)
    ensures
        res@ == search_pattern_of(search_of(*query)),
{
    match &query.query {
        Some(s) => search_pattern(s.as_str()),
        None => {
            proof {
                reveal_strlit("");
            }
            search_pattern("")
        },
    }
}

/// What the list page shows besides the posts themselves.
pub struct IndexPage {
    pub page: u32,
    pub total_pages: u32,
    pub limit: u32,
    pub offset: u32,
    pub search_query: String,
}

/// What the list page shows for a listing request when `total` posts match
/// its search: the page, the limit, the offset and the search text asked
/// for (1, 10, 0 and the empty text when not asked for), and the number of
/// pages the matching posts fill.
pub fn post_index_page(query: &PostQuery, total: u64) -> (res: IndexPage)
    requires
        pages_computable(total, limit_of(*query)),
    ensures
        res.page == page_of(*query),
        res.limit == limit_of(*query),
        res.offset == offset_of(*query),
        res.search_query@ == search_of(*query),
        res.total_pages == total_pages_of(total, limit_of(*query)),
{
    let page: u32 = match query.page {
        Some(p) => p,
        None => DEFAULT_PAGE,
    };
    let limit: u32 = match query.limit {
        Some(l) => l,
        None => DEFAULT_LIMIT,
    };
    let search_query = match &query.query {
        Some(s) => s.clone(),
        None => String::new(),
    };
    let offset: u32 = match query.offset {
        Some(o) => o,
        None => 0,
    };
    let total_pages = total_pages(total, limit);
    IndexPage { page, total_pages, limit, offset, search_query }
}

} // verus!
