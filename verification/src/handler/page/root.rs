//! The front page: the newest posts.

use vstd::prelude::*;
use crate::db::post::{list_posts, search_pattern_of, PostWindow, DEFAULT_LIMIT};
use crate::model::PostQuery;

verus! {

/// The rows the front page shows: the first `DEFAULT_LIMIT` posts, newest
/// first, of every post.
pub fn index() -> (res: PostWindow)
    ensures
        res.limit == DEFAULT_LIMIT,
        res.offset == 0,
        res.pattern@ == search_pattern_of(Seq::<char>::empty()),
{
    let query = PostQuery::default();
    assert((1 - 1) * DEFAULT_LIMIT == 0);
    list_posts(query)
}

} // verus!
