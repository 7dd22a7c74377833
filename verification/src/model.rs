//! The service's records: posts, their summaries, users and sessions, and the
//! requests that create or list them.

use vstd::prelude::*;
use vstd::utf8::*;
use vstd::string::StringSliceAdditionalSpecFns;

verus! {

/// The longest summary, in bytes of UTF-8, that is shown without cutting.
pub const SUMMARY_BYTES: usize = 100;

/// A request to create a post; each field may be left out.
pub struct CreatePost {
    pub title: Option<String>,
    pub content: Option<String>,
    pub summary: Option<String>,
}

/// A stored post with its author's name.
pub struct Post {
    pub id: i32,
    pub title: String,
    pub author: String,
    /// Microseconds since the Unix epoch, in UTC.
    pub created_at: i64,
    pub content: String,
}

/// A post as it is listed: its text is replaced by a summary.
pub struct PostSummary {
    pub id: i32,
    pub title: String,
    pub author: String,
    /// Microseconds since the Unix epoch, in UTC.
    pub created_at: i64,
    pub summary: Option<String>,
}

/// A log-in or registration request.
pub struct AuthRequest {
    pub username: String,
    pub password: String,
}

/// A session: the token a client presents, and the user it stands for.
pub struct Session {
    pub id: i32,
    pub token: String,
    /// Microseconds since the Unix epoch, in UTC.
    pub expires_at: i64,
    pub user_id: i32,
}

/// A user account, without its password hash.
pub struct User {
    pub id: i32,
    pub username: String,
}

/// A session together with the user it belongs to.
pub struct SessionWithUser {
    pub session: Session,
    pub user: User,
}

/// A listing request: a search text and a page of results, all optional.
#[derive(Clone)]
pub struct PostQuery {
    pub query: Option<String>,
    pub page: Option<u32>,
    pub limit: Option<u32>,
    pub offset: Option<u32>,
}

impl Default for PostQuery {
    /// The request that names nothing: the first page of every post.
    fn default() -> (res: Self)
        ensures
            res.query is None,
            res.page is None,
            res.limit is None,
            res.offset is None,
    {
        PostQuery { query: None, page: None, limit: None, offset: None }
    }
}

/// The UTF-8 encoding of a text, as Rust stores a `String`.
pub open spec fn utf8_bytes(s: Seq<char>) -> Seq<u8> {
    encode_utf8(s)
}

/// The summary of a post's text: the text itself when its UTF-8 encoding is at
/// most `SUMMARY_BYTES` bytes long, else the text of its first
/// `SUMMARY_BYTES` bytes followed by "...".
pub open spec fn summary_of(content: Seq<char>) -> Seq<char> {
    let bytes = utf8_bytes(content);
    if bytes.len() > SUMMARY_BYTES {
        decode_utf8(bytes.subrange(0, SUMMARY_BYTES as int)) + "..."@
    } else {
        content
    }
}

/// A text can be summarised unless it must be cut inside the encoding of a
/// character.
pub open spec fn summarizable(content: Seq<char>) -> bool {
    let bytes = utf8_bytes(content);
    bytes.len() > SUMMARY_BYTES ==> is_char_boundary(bytes, SUMMARY_BYTES as int)
}

/// The encoding of two texts one after the other is the encoding of the
/// first followed by that of the second.
proof fn lemma_utf8_bytes_concat(a: Seq<char>, b: Seq<char>)
    ensures
        utf8_bytes(a + b) == utf8_bytes(a) + utf8_bytes(b),
    decreases a.len(),
{
    if a.len() == 0 {
        assert(a + b =~= b);
        assert(utf8_bytes(a) + utf8_bytes(b) =~= utf8_bytes(b));
    } else {
        assert((a + b).drop_first() =~= a.drop_first() + b);
        assert((a + b)[0] == a[0]);
        lemma_utf8_bytes_concat(a.drop_first(), b);
        assert(utf8_bytes(a + b) =~= utf8_bytes(a) + utf8_bytes(b));
    }
}

/// A text whose UTF-8 encoding is at most 100 bytes is its own summary,
/// whatever characters it holds; a longer one is summarised by a text that
/// ends with "..." and whose encoding is its first 100 bytes and the three
/// dots, 103 bytes in all.
pub proof fn lemma_summary_keeps_short_text_whole(content: Seq<char>)
    requires
        summarizable(content),
    ensures
        encode_utf8(content).len() <= 100 ==> summary_of(content) == content,
        encode_utf8(content).len() > 100 ==> {
            let summary = summary_of(content);
            &&& encode_utf8(summary).len() == 103
            &&& encode_utf8(summary).subrange(0, 100) == encode_utf8(content).subrange(0, 100)
            &&& summary.len() >= 3
            &&& summary.subrange(summary.len() - 3, summary.len() as int) == seq!['.', '.', '.']
        },
{
    let bytes = encode_utf8(content);
    if bytes.len() > 100 {
        lemma_summary_is_short(content);
        let head = bytes.subrange(0, 100);
        encode_utf8_valid_utf8(content);
        valid_utf8_split(bytes, 100);
        decode_utf8_encode_utf8(head);
        reveal_strlit("...");
        is_ascii_chars_encode_utf8("..."@);
        lemma_utf8_bytes_concat(decode_utf8(head), "..."@);
        let summary = summary_of(content);
        assert(summary.subrange(summary.len() - 3, summary.len() as int) =~= seq!['.', '.', '.']);
    }
}

/// A summary is short: its UTF-8 encoding is at most `SUMMARY_BYTES` bytes
/// and the three dots, and a cut summary starts with exactly the first
/// `SUMMARY_BYTES` bytes of the text.
pub proof fn lemma_summary_is_short(content: Seq<char>)
    requires
        summarizable(content),
    ensures
        utf8_bytes(summary_of(content)).len() <= SUMMARY_BYTES + 3,
        utf8_bytes(content).len() > SUMMARY_BYTES ==> utf8_bytes(summary_of(content)).subrange(
            0,
            SUMMARY_BYTES as int,
        ) == utf8_bytes(content).subrange(0, SUMMARY_BYTES as int),
{
    let bytes = utf8_bytes(content);
    if bytes.len() > SUMMARY_BYTES {
        let head = bytes.subrange(0, SUMMARY_BYTES as int);
        encode_utf8_valid_utf8(content);
        valid_utf8_split(bytes, SUMMARY_BYTES as int);
        decode_utf8_encode_utf8(head);
        reveal_strlit("...");
        is_ascii_chars_encode_utf8("..."@);
        lemma_utf8_bytes_concat(decode_utf8(head), "..."@);
        assert(utf8_bytes(summary_of(content)).subrange(0, SUMMARY_BYTES as int) =~= head);
    }
}

/// `entry` is the listing entry of `post`: the same id, title, author and
/// time, and the summary of its text.
pub open spec fn summarizes(post: Post, entry: PostSummary) -> bool {
    &&& entry.id == post.id
    &&& entry.title@ == post.title@
    &&& entry.author@ == post.author@
    &&& entry.created_at == post.created_at
    &&& entry.summary matches Some(s) && s@ == summary_of(post.content@)
}

impl Post {
    /// The listing entry of this post: the same id, title, author and time,
    /// and the summary of its text.
    pub fn summarize(&self) -> (res: PostSummary)
        requires
            summarizable(self.content@),
        ensures
            summarizes(*self, res),
            encode_utf8(self.content@).len() <= 100 ==> (res.summary matches Some(s) && s@ == self.content@),
    {
        let content: &str = self.content.as_str();
        let summary = if content.as_bytes().len() > SUMMARY_BYTES {
            let (head, _rest) = content.split_at(SUMMARY_BYTES);
            proof {
                // The kept head is the text of the first bytes.
                encode_utf8_decode_utf8(head@);
            }
            let mut cut = String::from_str(head);
            cut.append("...");
            cut
        } else {
            self.content.clone()
        };
        PostSummary {
            id: self.id,
            title: self.title.clone(),
            author: self.author.clone(),
            created_at: self.created_at,
            summary: Some(summary),
        }
    }
}

impl PostSummary {
    /// The listing entry of a post, as `Post::summarize` makes it.
    pub fn from(post: Post) -> (res: PostSummary)
        requires
            summarizable(post.content@),
        ensures
            summarizes(post, res),
            encode_utf8(post.content@).len() <= 100 ==> (res.summary matches Some(s) && s@ == post.content@),
    {
        post.summarize()
    }
}

/// Two listing entries of one post agree field by field: whichever of
/// `Post::summarize` and `PostSummary::from` made them, they hold the same
/// id, title, author, time and summary.
pub proof fn lemma_listing_entry_is_determined(post: Post, a: PostSummary, b: PostSummary)
    requires
        summarizes(post, a),
        summarizes(post, b),
    ensures
        a.id == b.id,
        a.title@ == b.title@,
        a.author@ == b.author@,
        a.created_at == b.created_at,
        a.summary matches Some(x) && b.summary matches Some(y) && x@ == y@,
{
}

/// The summary as it is shown: an absent summary shows as the empty text.
pub fn empty_string_if_none(value: &Option<String>) -> (res: String)
    ensures
        res@ == (match value {
            Some(s) => s@,
            None => Seq::<char>::empty(),
        }),
{
    match value {
        Some(s) => s.clone(),
        None => String::new(),
    }
}

} // verus!
