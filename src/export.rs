use vstd::prelude::*;

use crate::error::RunError;
use crate::model::{lemma_rows_of_pages_step, page_rows, rows_of_pages, Page, SheetRow};
use crate::paginate::{first_page_url_spec, next_page_url_spec, Paginator};
use crate::sheet::{Workbook, MAX_ROWS};

verus! {

/// Page `n - 1` is the first one without a cursor: a video whose responses
/// are `ps` is done after exactly `n` fetches.
pub open spec fn ends_after(ps: Seq<Page>, n: int) -> bool {
    1 <= n <= ps.len() && ps[n - 1].next_page_token is None && forall|j: int|
        0 <= j < n - 1 ==> #[trigger] ps[j].next_page_token is Some
}

/// Every follow-up URL of the first `n` pages can be built on `url`.
pub open spec fn follow_ups_parse(url: Seq<char>, ps: Seq<Page>, n: int) -> bool {
    forall|j: int|
        0 <= j < n - 1 ==> #[trigger] next_page_url_spec(url, ps[j].next_page_token->0@) is Some
}

/// The video `video_id`, whose requests return `ps`, can be exported: its
/// first URL parses, a page without a cursor comes, the rows up to it fit in
/// a sheet, and every follow-up URL before it parses.
pub open spec fn video_succeeds(api_key: Seq<char>, video_id: Seq<char>, ps: Seq<Page>) -> bool {
    first_page_url_spec(api_key, video_id) is Some && exists|n: int|
        ends_after(ps, n) && rows_of_pages(ps.take(n)).len() < MAX_ROWS && follow_ups_parse(
            first_page_url_spec(api_key, video_id)->0,
            ps,
            n,
        )
}

/// Exports one video into a new sheet of `workbook`. `responses[i]` is the
/// page that the video's `i`-th request returns: the first request goes to the
/// first-page URL, and each later one follows the cursor of the page before.
/// The sheet is added once the first page has arrived. The result is the
/// number of requests made. A request beyond `responses` fails as a failed
/// request does.
pub fn export_video(workbook: &mut Workbook, api_key: &str, video_id: &str, responses: &Vec<Page>) -> (r:
    Result<usize, RunError>)
    requires
        old(workbook).wf(),
    ensures
        final(workbook).wf(),
        final(workbook).sheets@.len() >= old(workbook).sheets@.len(),
        final(workbook).sheets@.take(old(workbook).sheets@.len() as int) == old(workbook).sheets@,
        r is Ok ==> ends_after(responses@, r->Ok_0 as int),
        r is Ok ==> final(workbook).sheets@.len() == old(workbook).sheets@.len() + 1
            && final(workbook).sheets@.last().name@ == video_id@
            && final(workbook).sheets@.last().rows@ == rows_of_pages(
            responses@.take(r->Ok_0 as int),
        ),
        r is Err ==> r->Err_0 is ParseUrl || r->Err_0 is GetRequest || r->Err_0 is AddXlsxWorksheet
            || r->Err_0 is WriteXlsxColumn,
        r is Err && r->Err_0 is GetRequest ==> forall|n: int| !ends_after(responses@, n),
        r is Err && r->Err_0 is AddXlsxWorksheet ==> old(workbook).has_sheet(video_id@)
            && r->Err_0->AddXlsxWorksheet_name@ == video_id@,
        first_page_url_spec(api_key@, video_id@) is None ==> r is Err && r->Err_0 is ParseUrl,
        video_succeeds(api_key@, video_id@, responses@) && !old(workbook).has_sheet(video_id@)
            ==> r is Ok,
{
    let ghost n0 = old(workbook).sheets@.len();
    let mut pager = match Paginator::new(api_key, video_id) {
        Ok(p) => p,
        Err(e) => return Err(e),
    };
    if responses.len() == 0 {
        return Err(RunError::GetRequest { message: "no response to the first request".to_owned() });
    }
    let first = &responses[0];
    match workbook.add_worksheet(video_id) {
        Ok(()) => {},
        Err(e) => {
            assert(workbook.sheets@.take(n0 as int) =~= workbook.sheets@);
            return Err(e);
        },
    }
    assert(workbook.sheets@.take(n0 as int) =~= workbook.sheets@.drop_last());
    proof {
        lemma_rows_of_pages_step(responses@, 0);
        assert(responses@.take(0) =~= Seq::<Page>::empty());
        assert(rows_of_pages(responses@.take(0)) =~= Seq::<SheetRow>::empty());
        lemma_fit_prefix(responses@, 1);
    }
    let mut row = match workbook.write_comment_rows(1, first) {
        Ok(row) => row,
        Err(e) => return Err(e),
    };
    assert(workbook.sheets@.last().rows@ =~= rows_of_pages(responses@.take(1)));
    let mut fetched: usize = 1;
    match pager.receive(&first.next_page_token) {
        Ok(()) => {},
        Err(e) => return Err(e),
    }
    while !pager.is_done()
        invariant
            1 <= fetched <= responses@.len(),
            workbook.wf(),
            workbook.sheets@.len() == n0 + 1,
            workbook.sheets@.take(n0 as int) == old(workbook).sheets@,
            workbook.sheets@.last().name@ == video_id@,
            workbook.sheets@.last().rows@ == rows_of_pages(responses@.take(fetched as int)),
            row == workbook.sheets@.last().rows@.len() + 1,
            Some(pager.url@) == first_page_url_spec(api_key@, video_id@),
            pager.pending is None <==> responses@[fetched - 1].next_page_token is None,
            forall|j: int| 0 <= j < fetched - 1 ==> #[trigger] responses@[j].next_page_token is Some,
            forall|j: int|
                0 <= j < fetched - 1 ==> #[trigger] next_page_url_spec(
                    pager.url@,
                    responses@[j].next_page_token->0@,
                ) is Some,
            pager.pending is Some ==> next_page_url_spec(
                pager.url@,
                responses@[fetched - 1].next_page_token->0@,
            ) is Some,
        decreases responses@.len() - fetched,
    {
        if fetched >= responses.len() {
            proof {
                assert forall|n: int| !ends_after(responses@, n) by {
                    if ends_after(responses@, n) && n < fetched {
                        assert(responses@[n - 1].next_page_token is Some);
                    }
                }
            }
            return Err(RunError::GetRequest { message: "no response to a follow-up request".to_owned() });
        }
        let page = &responses[fetched];
        proof {
            lemma_rows_of_pages_step(responses@, fetched as int);
            lemma_fit_prefix(responses@, fetched as int + 1);
        }
        row = match workbook.write_comment_rows(row, page) {
            Ok(row) => row,
            Err(e) => {
                assert(workbook.sheets@.take(n0 as int) =~= old(workbook).sheets@) by {
                    assert(workbook.sheets@.take(n0 as int) =~= workbook.sheets@.drop_last());
                }
                return Err(e);
            },
        };
        proof {
            assert(workbook.sheets@.take(n0 as int) =~= old(workbook).sheets@) by {
                assert(workbook.sheets@.take(n0 as int) =~= workbook.sheets@.drop_last());
            }
        }
        fetched = fetched + 1;
        match pager.receive(&page.next_page_token) {
            Ok(()) => {},
            Err(e) => return Err(e),
        }
    }
    Ok(fetched)
}

/// The rows of a prefix of pages are no more than those of a longer prefix.
pub proof fn lemma_fit_prefix(ps: Seq<Page>, i: int)
    requires
        0 <= i <= ps.len(),
    ensures
        forall|k: int|
            i <= k <= ps.len() ==> rows_of_pages(ps.take(i)).len() <= #[trigger] rows_of_pages(
                ps.take(k),
            ).len(),
    decreases ps.len() - i,
{
    if i < ps.len() {
        lemma_rows_of_pages_step(ps, i);
        lemma_fit_prefix(ps, i + 1);
    }
}

/// Pagination ends at the first page without a cursor: where page `k - 1` is
/// that page, a video's export makes exactly `k` requests and no request for
/// page `k`.
pub proof fn lemma_pagination_ends_once(ps: Seq<Page>, k: int, n: int)
    requires
        1 <= k <= ps.len(),
        ps[k - 1].next_page_token is None,
        forall|j: int| 0 <= j < k - 1 ==> #[trigger] ps[j].next_page_token is Some,
        ends_after(ps, n),
    ensures
        n == k,
{
    if n < k {
        assert(ps[n - 1].next_page_token is Some);
    } else if n > k {
        assert(ps[k - 1].next_page_token is Some);
    }
}

/// One step of a video's export, for the page just fetched: the video's sheet
/// is added with its first page, the page's rows are appended to it, and the
/// paginator takes the page's cursor.
pub fn take_page(
    workbook: &mut Workbook,
    pager: &mut Paginator,
    video_id: &str,
    page: &Page,
    first: bool,
) -> (r: Result<(), RunError>)
    requires
        old(workbook).wf(),
        !first ==> old(workbook).sheets@.len() > 0,
    ensures
        final(workbook).wf(),
        r is Err ==> r->Err_0 is AddXlsxWorksheet || r->Err_0 is WriteXlsxColumn || r->Err_0 is ParseUrl,
        first ==> (r is Err && r->Err_0 is AddXlsxWorksheet <==> old(workbook).has_sheet(video_id@)),
        r is Ok && first ==> final(workbook).sheets@.len() == old(workbook).sheets@.len() + 1
            && final(workbook).sheets@.drop_last() == old(workbook).sheets@
            && final(workbook).sheets@.last().name@ == video_id@
            && final(workbook).sheets@.last().rows@ == page_rows(*page),
        r is Ok && !first ==> final(workbook).sheets@.len() == old(workbook).sheets@.len()
            && final(workbook).sheets@.drop_last() == old(workbook).sheets@.drop_last()
            && final(workbook).sheets@.last().name == old(workbook).sheets@.last().name
            && final(workbook).sheets@.last().rows@ == old(workbook).sheets@.last().rows@ + page_rows(*page),
        r is Ok ==> final(pager).url == old(pager).url,
        r is Ok && page.next_page_token is None ==> final(pager).pending is None,
        r is Ok && page.next_page_token is Some ==> final(pager).pending is Some && next_page_url_spec(
            old(pager).url@,
            page.next_page_token->0@,
        ) == Some(final(pager).pending->0@),
        (first ==> !old(workbook).has_sheet(video_id@)) && (first ==> page_rows(*page).len() + 1 < MAX_ROWS)
            && (!first ==> old(workbook).sheets@.last().rows@.len() + page_rows(*page).len() < MAX_ROWS)
            && (page.next_page_token is Some ==> next_page_url_spec(
            old(pager).url@,
            page.next_page_token->0@,
        ) is Some) ==> r is Ok,
{
    if first {
        match workbook.add_worksheet(video_id) {
            Ok(()) => {},
            Err(e) => return Err(e),
        }
    }
    let row = workbook.next_row();
    match workbook.write_comment_rows(row, page) {
        Ok(_) => {},
        Err(e) => return Err(e),
    }
    pager.receive(&page.next_page_token)
}

} // verus!
