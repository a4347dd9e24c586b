use vstd::prelude::*;

verus! {

/// The six text fields of one comment, either a thread's top-level comment or
/// one of its replies. A field missing from the remote payload is empty.
#[derive(Clone, Debug, PartialEq, Eq)]
pub struct Comment {
    pub etag: String,
    pub author_display_name: String,
    pub author_channel_url: String,
    pub text_display: String,
    pub published_at: String,
    pub updated_at: String,
}

/// A top-level comment together with its replies, in the order the API gave them.
#[derive(Clone, Debug, PartialEq, Eq)]
pub struct Thread {
    pub comment: Comment,
    pub replies: Vec<Comment>,
}

/// One response of the comment-threads endpoint: its threads in order, and the
/// continuation cursor, absent on the last page of a video.
#[derive(Clone, Debug, PartialEq, Eq)]
pub struct Page {
    pub threads: Vec<Thread>,
    pub next_page_token: Option<String>,
}

/// One data row of a sheet: columns 0 to 5 hold `comment`, columns 6 to 11 hold
/// `reply`; `None` leaves those six cells blank.
#[derive(Clone, Debug, PartialEq, Eq)]
pub struct SheetRow {
    pub comment: Option<Comment>,
    pub reply: Option<Comment>,
}

/// The rows that one thread occupies. A thread without replies takes one row
/// with the reply columns blank. Otherwise each reply takes one row, and the
/// first of them also carries the top-level comment.
pub open spec fn thread_rows(t: Thread) -> Seq<SheetRow> {
    if t.replies@.len() == 0 {
        seq![SheetRow { comment: Some(t.comment), reply: None }]
    } else {
        Seq::new(
            t.replies@.len(),
            |i: int|
                SheetRow {
                    comment: if i == 0 {
                        Some(t.comment)
                    } else {
                        None
                    },
                    reply: Some(t.replies@[i]),
                },
        )
    }
}

/// The number of rows that one thread occupies.
pub open spec fn thread_row_count(t: Thread) -> nat {
    if t.replies@.len() == 0 {
        1
    } else {
        t.replies@.len()
    }
}

/// The rows of a sequence of threads, one thread after the other.
pub open spec fn rows_of_threads(ts: Seq<Thread>) -> Seq<SheetRow>
    decreases ts.len(),
{
    if ts.len() == 0 {
        seq![]
    } else {
        rows_of_threads(ts.drop_last()) + thread_rows(ts.last())
    }
}

/// The rows that one page contributes to its sheet.
pub open spec fn page_rows(p: Page) -> Seq<SheetRow> {
    rows_of_threads(p.threads@)
}

/// The rows of a sequence of pages, one page after the other.
pub open spec fn rows_of_pages(ps: Seq<Page>) -> Seq<SheetRow>
    decreases ps.len(),
{
    if ps.len() == 0 {
        seq![]
    } else {
        rows_of_pages(ps.drop_last()) + page_rows(ps.last())
    }
}

/// The number of rows of a sequence of threads, summed thread by thread.
pub open spec fn threads_row_count(ts: Seq<Thread>) -> nat
    decreases ts.len(),
{
    if ts.len() == 0 {
        0
    } else {
        threads_row_count(ts.drop_last()) + thread_row_count(ts.last())
    }
}

/// The number of rows of a sequence of pages, summed page by page.
pub open spec fn pages_row_count(ps: Seq<Page>) -> nat
    decreases ps.len(),
{
    if ps.len() == 0 {
        0
    } else {
        pages_row_count(ps.drop_last()) + page_rows(ps.last()).len()
    }
}

impl Comment {
    /// A comment whose six fields are all empty.
    pub fn empty() -> (r: Comment)
        ensures
            r.etag@.len() == 0,
            r.author_display_name@.len() == 0,
            r.author_channel_url@.len() == 0,
            r.text_display@.len() == 0,
            r.published_at@.len() == 0,
            r.updated_at@.len() == 0,
    {
        Comment {
            etag: String::new(),
            author_display_name: String::new(),
            author_channel_url: String::new(),
            text_display: String::new(),
            published_at: String::new(),
            updated_at: String::new(),
        }
    }

    /// A field-by-field copy.
    pub fn duplicate(&self) -> (r: Comment)
        ensures
            r == *self,
    {
        Comment {
            etag: self.etag.clone(),
            author_display_name: self.author_display_name.clone(),
            author_channel_url: self.author_channel_url.clone(),
            text_display: self.text_display.clone(),
            published_at: self.published_at.clone(),
            updated_at: self.updated_at.clone(),
        }
    }
}

pub proof fn lemma_thread_rows_len(t: Thread)
    ensures
        thread_rows(t).len() == thread_row_count(t),
{
}

pub proof fn lemma_rows_of_threads_len(ts: Seq<Thread>)
    ensures
        rows_of_threads(ts).len() == threads_row_count(ts),
    decreases ts.len(),
{
    if ts.len() > 0 {
        lemma_rows_of_threads_len(ts.drop_last());
        lemma_thread_rows_len(ts.last());
    }
}

pub proof fn lemma_rows_of_threads_step(ts: Seq<Thread>, i: int)
    requires
        0 <= i < ts.len(),
    ensures
        rows_of_threads(ts.take(i + 1)) == rows_of_threads(ts.take(i)) + thread_rows(ts[i]),
{
    assert(ts.take(i + 1).drop_last() =~= ts.take(i));
}

pub proof fn lemma_rows_of_pages_step(ps: Seq<Page>, i: int)
    requires
        0 <= i < ps.len(),
    ensures
        rows_of_pages(ps.take(i + 1)) == rows_of_pages(ps.take(i)) + page_rows(ps[i]),
{
    assert(ps.take(i + 1).drop_last() =~= ps.take(i));
}

/// A thread with replies takes exactly one row per reply: the first row also
/// carries the top-level comment, the later ones leave its columns blank, and
/// each row carries its reply, in order.
pub proof fn lemma_thread_with_replies(t: Thread)
    requires
        t.replies@.len() >= 1,
    ensures
        thread_rows(t).len() == t.replies@.len(),
        thread_rows(t)[0].comment == Some(t.comment),
        forall|i: int| 1 <= i < t.replies@.len() ==> (#[trigger] thread_rows(t)[i]).comment is None,
        forall|i: int| 0 <= i < t.replies@.len() ==> (#[trigger] thread_rows(t)[i]).reply == Some(t.replies@[i]),
{
}

/// A thread without replies takes exactly one row, with the reply columns blank.
pub proof fn lemma_thread_without_replies(t: Thread)
    requires
        t.replies@.len() == 0,
    ensures
        thread_rows(t).len() == 1,
        thread_rows(t)[0].comment == Some(t.comment),
        thread_rows(t)[0].reply is None,
{
}

/// Pages without threads contribute no rows: a video without comments leaves
/// its sheet with the header row alone.
pub proof fn lemma_no_comments_no_rows(ps: Seq<Page>)
    requires
        forall|i: int| 0 <= i < ps.len() ==> (#[trigger] ps[i]).threads@.len() == 0,
    ensures
        rows_of_pages(ps).len() == 0,
    decreases ps.len(),
{
    if ps.len() > 0 {
        lemma_no_comments_no_rows(ps.drop_last());
        assert(ps.last().threads@ =~= Seq::<Thread>::empty());
    }
}

/// Over a sequence of pages, the rows written number the sum of what each
/// page contributes: the cursor after the last page is one past the header
/// plus that sum, with no gap and no overlap between pages.
pub proof fn lemma_row_accounting(ps: Seq<Page>)
    ensures
        rows_of_pages(ps).len() == pages_row_count(ps),
        forall|i: int| 0 <= i < ps.len() ==> rows_of_pages(ps.take(i + 1)) == rows_of_pages(ps.take(i)) + page_rows(#[trigger] ps[i]),
    decreases ps.len(),
{
    if ps.len() > 0 {
        lemma_row_accounting(ps.drop_last());
    }
    assert forall|i: int| 0 <= i < ps.len() implies rows_of_pages(ps.take(i + 1)) == rows_of_pages(ps.take(i)) + page_rows(#[trigger] ps[i]) by {
        lemma_rows_of_pages_step(ps, i);
    }
}

} // verus!
