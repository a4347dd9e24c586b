use vstd::prelude::*;

use crate::error::RunError;
use crate::export::{ends_after, export_video, video_succeeds};
use crate::model::{rows_of_pages, Page};
use crate::sheet::{Sheet, Workbook};

verus! {

/// `s` is the finished sheet of the video `name` whose requests return `ps`.
pub open spec fn exported(s: Sheet, name: Seq<char>, ps: Seq<Page>) -> bool {
    s.name@ == name && exists|n: int| ends_after(ps, n) && s.rows@ == rows_of_pages(ps.take(n))
}

/// No two identifiers are the same.
pub open spec fn distinct(ids: Seq<String>) -> bool {
    forall|a: int, b: int| 0 <= a < b < ids.len() ==> ids[a]@ != ids[b]@
}

/// Video `i` has no responses, or none of them comes without a cursor.
pub open spec fn never_ends(responses: Seq<Vec<Page>>, i: int) -> bool {
    i >= responses.len() || forall|n: int| !ends_after(responses[i]@, n)
}

/// Every video can be exported on its own, and each has its responses.
pub open spec fn run_succeeds(api_key: Seq<char>, ids: Seq<String>, responses: Seq<Vec<Page>>) -> bool {
    responses.len() >= ids.len() && distinct(ids) && forall|i: int|
        0 <= i < ids.len() ==> #[trigger] video_succeeds(api_key, ids[i]@, responses[i]@)
}

/// The extraction command: the API credential and the videos to export, one
/// sheet per video, in order.
pub struct Command {
    pub api_key: String,
    pub video_ids: Vec<String>,
}

impl Command {
    pub fn new(api_key: String, video_ids: Vec<String>) -> (r: Command)
        ensures
            r.api_key == api_key,
            r.video_ids == video_ids,
    {
        Command { api_key, video_ids }
    }

    /// Exports every video into one workbook, `responses[i]` being the pages
    /// that the requests of video `i` return, as `export_video` takes them.
    /// The first failure stops the whole run. A video without responses fails
    /// as a failed request does.
    pub fn export_all(&self, responses: &Vec<Vec<Page>>) -> (r: Result<Workbook, RunError>)
        ensures
            r is Ok ==> r->Ok_0.wf() && r->Ok_0.sheets@.len() == self.video_ids@.len()
                && responses@.len() >= self.video_ids@.len(),
            r is Ok ==> forall|i: int|
                0 <= i < self.video_ids@.len() ==> exported(
                    #[trigger] r->Ok_0.sheets@[i],
                    self.video_ids@[i]@,
                    responses@[i]@,
                ),
            run_succeeds(self.api_key@, self.video_ids@, responses@) ==> r is Ok,
            r is Err ==> r->Err_0 is ParseUrl || r->Err_0 is GetRequest || r->Err_0 is AddXlsxWorksheet
                || r->Err_0 is WriteXlsxColumn,
            r is Err && r->Err_0 is GetRequest ==> exists|i: int|
                0 <= i < self.video_ids@.len() && #[trigger] never_ends(responses@, i),
            r is Err && r->Err_0 is AddXlsxWorksheet ==> exists|a: int, b: int|
                0 <= a < b < self.video_ids@.len() && self.video_ids@[a]@ == self.video_ids@[b]@
                    && self.video_ids@[b]@ == r->Err_0->AddXlsxWorksheet_name@,
    {
        let mut workbook = Workbook::new();
        let mut i: usize = 0;
        while i < self.video_ids.len()
            invariant
                0 <= i <= self.video_ids@.len(),
                workbook.wf(),
                workbook.sheets@.len() == i,
                i > 0 ==> responses@.len() >= i,
                run_succeeds(self.api_key@, self.video_ids@, responses@) ==> responses@.len() >= self.video_ids@.len(),
                forall|k: int|
                    0 <= k < i ==> exported(
                        #[trigger] workbook.sheets@[k],
                        self.video_ids@[k]@,
                        responses@[k]@,
                    ),
            decreases self.video_ids@.len() - i,
        {
            if i >= responses.len() {
                assert(never_ends(responses@, i as int));
                return Err(RunError::GetRequest { message: "no responses for a video".to_owned() });
            }
            let ghost before = workbook.sheets@;
            proof {
                if distinct(self.video_ids@) && workbook.has_sheet(self.video_ids@[i as int]@) {
                    let k = choose|k: int|
                        0 <= k < before.len() && #[trigger] before[k].name@ == self.video_ids@[i as int]@;
                    assert(exported(before[k], self.video_ids@[k]@, responses@[k]@));
                }
            }
            match export_video(&mut workbook, self.api_key.as_str(), self.video_ids[i].as_str(), &responses[i]) {
                Ok(n) => {
                    assert forall|k: int| 0 <= k < i + 1 implies exported(
                        #[trigger] workbook.sheets@[k],
                        self.video_ids@[k]@,
                        responses@[k]@,
                    ) by {
                        if k < i {
                            assert(workbook.sheets@[k] == workbook.sheets@.take(i as int)[k]);
                            assert(before[k] == workbook.sheets@[k]);
                        } else {
                            assert(workbook.sheets@.last() == workbook.sheets@[k]);
                            assert(ends_after(responses@[k]@, n as int));
                        }
                    }
                },
                Err(e) => {
                    proof {
                        if e is GetRequest {
                            assert(never_ends(responses@, i as int));
                        }
                        if e is AddXlsxWorksheet {
                            let k = choose|k: int|
                                0 <= k < before.len() && #[trigger] before[k].name@
                                    == self.video_ids@[i as int]@;
                            assert(exported(before[k], self.video_ids@[k]@, responses@[k]@));
                            assert(self.video_ids@[k]@ == self.video_ids@[i as int]@);
                        }
                    }
                    return Err(e);
                },
            }
            i = i + 1;
        }
        Ok(workbook)
    }
}

} // verus!
