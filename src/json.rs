use vstd::prelude::*;

use crate::model::{Comment, Page, Thread};

verus! {

/// A response body as far as the decoding reads it: strings, arrays and
/// objects are kept, any other non-null value is `Other`. An object keeps its
/// members in order; a key is looked up at its first occurrence.
pub enum Json {
    Null,
    Text(String),
    Array(Vec<Json>),
    Object(Vec<(String, Json)>),
    Other,
}

/// The value of `key` among `entries` from position `i` on, `Null` if absent.
pub open spec fn lookup_from(entries: Seq<(String, Json)>, key: Seq<char>, i: int) -> Json
    decreases entries.len() - i,
{
    if i < 0 || i >= entries.len() {
        Json::Null
    } else if entries[i].0@ == key {
        entries[i].1
    } else {
        lookup_from(entries, key, i + 1)
    }
}

/// The member `key` of `v`; `Null` where `v` is no object or has no such key.
pub open spec fn get(v: Json, key: Seq<char>) -> Json {
    match v {
        Json::Object(entries) => lookup_from(entries@, key, 0),
        _ => Json::Null,
    }
}

/// The text of a string value, empty for any other value.
pub open spec fn text_of(v: Json) -> Seq<char> {
    match v {
        Json::Text(s) => s@,
        _ => seq![],
    }
}

/// The elements of an array value, none for any other value.
pub open spec fn elements_of(v: Json) -> Seq<Json> {
    match v {
        Json::Array(a) => a@,
        _ => seq![],
    }
}

/// The cursor a `nextPageToken` value gives: none for null or absent, its
/// text for a string, and empty for any other value.
pub open spec fn token_of(v: Json) -> Option<Seq<char>> {
    match v {
        Json::Null => None,
        Json::Text(s) => Some(s@),
        _ => Some(seq![]),
    }
}

/// `c` holds `etag` and the five fields of the object `snippet`.
pub open spec fn comment_decodes(c: Comment, etag: Json, snippet: Json) -> bool {
    &&& c.etag@ == text_of(etag)
    &&& c.author_display_name@ == text_of(get(snippet, "authorDisplayName"@))
    &&& c.author_channel_url@ == text_of(get(snippet, "authorChannelUrl"@))
    &&& c.text_display@ == text_of(get(snippet, "textDisplay"@))
    &&& c.published_at@ == text_of(get(snippet, "publishedAt"@))
    &&& c.updated_at@ == text_of(get(snippet, "updatedAt"@))
}

/// `r` is the reply held in `reply`: etag and fields from `reply.snippet`.
pub open spec fn reply_decodes(r: Comment, reply: Json) -> bool {
    comment_decodes(r, get(get(reply, "snippet"@), "etag"@), get(reply, "snippet"@))
}

/// `t` is the thread held in `item`: the top-level comment from
/// `snippet.topLevelComment`, the replies from `replies.comments`.
pub open spec fn thread_decodes(t: Thread, item: Json) -> bool {
    let top = get(get(item, "snippet"@), "topLevelComment"@);
    let replies = elements_of(get(get(item, "replies"@), "comments"@));
    &&& comment_decodes(t.comment, get(top, "etag"@), get(top, "snippet"@))
    &&& t.replies@.len() == replies.len()
    &&& forall|i: int| 0 <= i < replies.len() ==> reply_decodes(#[trigger] t.replies@[i], replies[i])
}

/// `p` is the page held in `body`: a thread for each element of `items` and
/// the cursor of `nextPageToken`.
pub open spec fn page_decodes(p: Page, body: Json) -> bool {
    let items = elements_of(get(body, "items"@));
    &&& p.threads@.len() == items.len()
    &&& forall|i: int| 0 <= i < items.len() ==> thread_decodes(#[trigger] p.threads@[i], items[i])
    &&& match token_of(get(body, "nextPageToken"@)) {
        None => p.next_page_token is None,
        Some(s) => p.next_page_token is Some && p.next_page_token->0@ == s,
    }
}

/// The member `key` of `v`, `None` standing for `Null`.
pub fn member<'a>(v: &'a Json, key: &str) -> (r: Option<&'a Json>)
    ensures
        get(*v, key@) == match r {
            Some(m) => *m,
            None => Json::Null,
        },
{
    match v {
        Json::Object(entries) => {
            assert(get(*v, key@) == lookup_from(entries@, key@, 0));
            let wanted = key.to_owned();
            let mut i: usize = 0;
            while i < entries.len()
                invariant
                    0 <= i <= entries@.len(),
                    wanted@ == key@,
                    get(*v, key@) == lookup_from(entries@, key@, 0),
                    lookup_from(entries@, key@, 0) == lookup_from(entries@, key@, i as int),
                decreases entries@.len() - i,
            {
                if entries[i].0 == wanted {
                    assert(lookup_from(entries@, key@, i as int) == entries@[i as int].1);
                    return Some(&entries[i].1);
                }
                i = i + 1;
            }
            None
        },
        _ => None,
    }
}

/// The member `key` of an optional value, as `member` gives it.
pub fn member_of<'a>(v: Option<&'a Json>, key: &str) -> (r: Option<&'a Json>)
    ensures
        get(
            match v {
                Some(m) => *m,
                None => Json::Null,
            },
            key@,
        ) == match r {
            Some(m) => *m,
            None => Json::Null,
        },
{
    match v {
        Some(m) => member(m, key),
        None => None,
    }
}

/// The text of a leaf field, empty where the field is missing or no string.
pub fn text_or_empty(v: Option<&Json>) -> (r: String)
    ensures
        r@ == text_of(
            match v {
                Some(m) => *m,
                None => Json::Null,
            },
        ),
{
    match v {
        Some(Json::Text(s)) => s.clone(),
        _ => String::new(),
    }
}

/// The continuation cursor of a `nextPageToken` value.
pub fn page_token(v: Option<&Json>) -> (r: Option<String>)
    ensures
        match token_of(
            match v {
                Some(m) => *m,
                None => Json::Null,
            },
        ) {
            None => r is None,
            Some(s) => r is Some && r->0@ == s,
        },
{
    match v {
        None => None,
        Some(Json::Null) => None,
        Some(Json::Text(s)) => Some(s.clone()),
        Some(_) => Some(String::new()),
    }
}

/// A comment from its `etag` and the object holding its other five fields.
fn comment_from(etag: Option<&Json>, snippet: Option<&Json>) -> (r: Comment)
    ensures
        comment_decodes(
            r,
            match etag {
                Some(m) => *m,
                None => Json::Null,
            },
            match snippet {
                Some(m) => *m,
                None => Json::Null,
            },
        ),
{
    Comment {
        etag: text_or_empty(etag),
        author_display_name: text_or_empty(member_of(snippet, "authorDisplayName")),
        author_channel_url: text_or_empty(member_of(snippet, "authorChannelUrl")),
        text_display: text_or_empty(member_of(snippet, "textDisplay")),
        published_at: text_or_empty(member_of(snippet, "publishedAt")),
        updated_at: text_or_empty(member_of(snippet, "updatedAt")),
    }
}

/// A thread from one element of a page's `items`.
pub fn thread_from_json(item: &Json) -> (r: Thread)
    ensures
        thread_decodes(r, *item),
{
    let top = member_of(member(item, "snippet"), "topLevelComment");
    let comment = comment_from(member_of(top, "etag"), member_of(top, "snippet"));
    let mut replies: Vec<Comment> = Vec::new();
    let list = member_of(member(item, "replies"), "comments");
    match list {
        Some(Json::Array(list)) => {
            let mut i: usize = 0;
            while i < list.len()
                invariant
                    0 <= i <= list@.len(),
                    replies@.len() == i,
                    forall|j: int| 0 <= j < i ==> reply_decodes(#[trigger] replies@[j], list@[j]),
                decreases list@.len() - i,
            {
                let snippet = member(&list[i], "snippet");
                replies.push(comment_from(member_of(snippet, "etag"), snippet));
                i = i + 1;
            }
        },
        _ => {},
    }
    Thread { comment, replies }
}

/// A page from a response body.
pub fn page_from_json(body: &Json) -> (r: Page)
    ensures
        page_decodes(r, *body),
{
    let mut threads: Vec<Thread> = Vec::new();
    match member(body, "items") {
        Some(Json::Array(items)) => {
            let mut i: usize = 0;
            while i < items.len()
                invariant
                    0 <= i <= items@.len(),
                    threads@.len() == i,
                    forall|j: int| 0 <= j < i ==> thread_decodes(#[trigger] threads@[j], items@[j]),
                decreases items@.len() - i,
            {
                threads.push(thread_from_json(&items[i]));
                i = i + 1;
            }
        },
        _ => {},
    }
    let next_page_token = page_token(member(body, "nextPageToken"));
    Page { threads, next_page_token }
}

} // verus!
