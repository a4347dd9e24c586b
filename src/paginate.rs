use vstd::prelude::*;

use crate::error::RunError;

verus! {

/// The comment-threads resource, with its fixed query: snippets and replies,
/// a hundred threads per page, newest first.
pub const COMMENT_THREADS_API: &'static str = "https://www.googleapis.com/youtube/v3/commentThreads?part=snippet%2Creplies&maxResults=100&order=time";

/// The serialization of the URL `base` with `params` appended to its query,
/// or `None` where `base` is no valid URL.
pub uninterp spec fn url_with_params(base: Seq<char>, params: Seq<(Seq<char>, Seq<char>)>) -> Option<
    Seq<char>,
>;

pub open spec fn pair_views(ps: Seq<(String, String)>) -> Seq<(Seq<char>, Seq<char>)> {
    ps.map_values(|p: (String, String)| (p.0@, p.1@))
}

/// Relies on url::Url::parse_with_params: it parses `base`, appends each pair
/// form-encoded to the query, and fails only where `base` does not parse; the
/// result is the URL's serialization.
#[verifier::external_body]
fn parse_with_params(base: &str, params: &Vec<(String, String)>) -> (r: Result<String, url::ParseError>)
    ensures
        r is Ok <==> url_with_params(base@, pair_views(params@)) is Some,
        r is Ok ==> url_with_params(base@, pair_views(params@)) == Some(r->Ok_0@),
{
    url::Url::parse_with_params(base, params).map(String::from)
}

/// The URL of the first page of a video's comment threads.
pub open spec fn first_page_url_spec(api_key: Seq<char>, video_id: Seq<char>) -> Option<Seq<char>> {
    url_with_params(COMMENT_THREADS_API@, seq![("key"@, api_key), ("videoId"@, video_id)])
}

/// The URL of the page that `cursor` continues to, built on the first page's URL.
pub open spec fn next_page_url_spec(url: Seq<char>, cursor: Seq<char>) -> Option<Seq<char>> {
    url_with_params(url, seq![("pageToken"@, cursor)])
}

/// `r` is the URL `expected` where there is one, and else the parse error
/// that names `base`.
pub open spec fn url_result(expected: Option<Seq<char>>, base: Seq<char>, r: Result<String, RunError>) -> bool {
    match r {
        Ok(u) => expected == Some(u@),
        Err(e) => expected is None && e is ParseUrl && e->ParseUrl_url@ == base,
    }
}

/// Builds the request URL of a video's first page.
pub fn first_page_url(api_key: &str, video_id: &str) -> (r: Result<String, RunError>)
    ensures
        url_result(first_page_url_spec(api_key@, video_id@), COMMENT_THREADS_API@, r),
{
    let params = vec![
        ("key".to_owned(), api_key.to_owned()),
        ("videoId".to_owned(), video_id.to_owned()),
    ];
    proof {
        reveal_strlit("key");
        reveal_strlit("videoId");
        assert(pair_views(params@) =~= seq![("key"@, api_key@), ("videoId"@, video_id@)]);
    }
    match parse_with_params(COMMENT_THREADS_API, &params) {
        Ok(u) => Ok(u),
        Err(source) => Err(RunError::ParseUrl { url: COMMENT_THREADS_API.to_owned(), source }),
    }
}

/// Builds the request URL of the page that `cursor` continues to: the first
/// page's `url` with the cursor as its page token.
pub fn next_page_url(url: &str, cursor: &str) -> (r: Result<String, RunError>)
    ensures
        url_result(next_page_url_spec(url@, cursor@), url@, r),
{
    let params = vec![("pageToken".to_owned(), cursor.to_owned())];
    proof {
        reveal_strlit("pageToken");
        assert(pair_views(params@) =~= seq![("pageToken"@, cursor@)]);
    }
    match parse_with_params(url, &params) {
        Ok(u) => Ok(u),
        Err(source) => Err(RunError::ParseUrl { url: url.to_owned(), source }),
    }
}

/// Equal credentials and video identifiers give equal first-page URLs, and
/// equal first-page URLs and cursors give equal follow-up URLs.
pub proof fn lemma_urls_deterministic(
    api_key: &str,
    video_id: &str,
    r1: Result<String, RunError>,
    r2: Result<String, RunError>,
    url: &str,
    cursor: &str,
    s1: Result<String, RunError>,
    s2: Result<String, RunError>,
)
    requires
        url_result(first_page_url_spec(api_key@, video_id@), COMMENT_THREADS_API@, r1),
        url_result(first_page_url_spec(api_key@, video_id@), COMMENT_THREADS_API@, r2),
        url_result(next_page_url_spec(url@, cursor@), url@, s1),
        url_result(next_page_url_spec(url@, cursor@), url@, s2),
    ensures
        r1 is Ok <==> r2 is Ok,
        r1 is Ok ==> r1->Ok_0@ == r2->Ok_0@,
        s1 is Ok <==> s2 is Ok,
        s1 is Ok ==> s1->Ok_0@ == s2->Ok_0@,
{
}

/// The request sequence of one video: the first page's URL, and the URL still
/// to be fetched, `None` once a page came without a cursor.
pub struct Paginator {
    pub url: String,
    pub pending: Option<String>,
}

impl Paginator {
    /// A paginator whose first request is the video's first page.
    pub fn new(api_key: &str, video_id: &str) -> (r: Result<Paginator, RunError>)
        ensures
            r is Ok <==> first_page_url_spec(api_key@, video_id@) is Some,
            r is Ok ==> first_page_url_spec(api_key@, video_id@) == Some(r->Ok_0.url@)
                && r->Ok_0.pending == Some(r->Ok_0.url),
            r is Err ==> r->Err_0 is ParseUrl,
    {
        match first_page_url(api_key, video_id) {
            Ok(url) => {
                let pending = Some(url.clone());
                Ok(Paginator { url, pending })
            },
            Err(e) => Err(e),
        }
    }

    /// The URL to fetch next, if any.
    pub fn next_request(&self) -> (r: Option<String>)
        ensures
            r == self.pending,
    {
        match &self.pending {
            Some(u) => Some(u.clone()),
            None => None,
        }
    }

    /// Whether the last page has been received.
    pub fn is_done(&self) -> (r: bool)
        ensures
            r == self.pending is None,
    {
        self.pending.is_none()
    }

    /// Takes in the cursor of the page just fetched: without one the video is
    /// done; with one the next request is the follow-up URL.
    pub fn receive(&mut self, cursor: &Option<String>) -> (r: Result<(), RunError>)
        ensures
            final(self).url == old(self).url,
            cursor is None ==> r is Ok && final(self).pending is None,
            cursor is Some ==> (r is Ok <==> next_page_url_spec(old(self).url@, cursor->0@) is Some),
            cursor is Some && r is Ok ==> final(self).pending is Some && next_page_url_spec(
                old(self).url@,
                cursor->0@,
            ) == Some(final(self).pending->0@),
            r is Err ==> *final(self) == *old(self) && r->Err_0 is ParseUrl,
    {
        match cursor {
            None => {
                self.pending = None;
                Ok(())
            },
            Some(c) => match next_page_url(self.url.as_str(), c.as_str()) {
                Ok(u) => {
                    self.pending = Some(u);
                    Ok(())
                },
                Err(e) => Err(e),
            },
        }
    }
}

} // verus!
