use vstd::prelude::*;

use crate::error::RunError;
use crate::model::{
    lemma_rows_of_threads_step, page_rows, rows_of_threads, thread_rows, Page, SheetRow, Thread,
};

verus! {

/// Rows of one worksheet, the header row included.
pub const MAX_ROWS: u32 = 1048576;

/// The number of columns of every sheet.
pub const COLUMN_COUNT: usize = 12;

/// The header names, column by column.
pub open spec fn header_names() -> Seq<Seq<char>> {
    seq![
        "etag"@,
        "author_display_name"@,
        "author_channel_url"@,
        "text_display"@,
        "published_at"@,
        "updated_at"@,
        "replied_etag"@,
        "replied_author_display_name"@,
        "replied_author_channel_url"@,
        "replied_text_display"@,
        "replied_published_at"@,
        "replied_updated_at"@,
    ]
}

/// The header written in row 0 of column `col`.
pub fn column_header(col: usize) -> (r: &'static str)
    requires
        col < COLUMN_COUNT,
    ensures
        r@ == header_names()[col as int],
{
    proof {
        reveal_strlit("etag");
        reveal_strlit("author_display_name");
        reveal_strlit("author_channel_url");
        reveal_strlit("text_display");
        reveal_strlit("published_at");
        reveal_strlit("updated_at");
        reveal_strlit("replied_etag");
        reveal_strlit("replied_author_display_name");
        reveal_strlit("replied_author_channel_url");
        reveal_strlit("replied_text_display");
        reveal_strlit("replied_published_at");
        reveal_strlit("replied_updated_at");
    }
    if col == 0 {
        "etag"
    } else if col == 1 {
        "author_display_name"
    } else if col == 2 {
        "author_channel_url"
    } else if col == 3 {
        "text_display"
    } else if col == 4 {
        "published_at"
    } else if col == 5 {
        "updated_at"
    } else if col == 6 {
        "replied_etag"
    } else if col == 7 {
        "replied_author_display_name"
    } else if col == 8 {
        "replied_author_channel_url"
    } else if col == 9 {
        "replied_text_display"
    } else if col == 10 {
        "replied_published_at"
    } else {
        "replied_updated_at"
    }
}

/// One worksheet: its name and its data rows. The header is row 0, so
/// `rows[i]` is row `i + 1` and the next free row is `rows.len() + 1`.
pub struct Sheet {
    pub name: String,
    pub rows: Vec<SheetRow>,
}

pub proof fn lemma_rows_of_threads_prefix_len(ts: Seq<Thread>, i: int)
    requires
        0 <= i <= ts.len(),
    ensures
        rows_of_threads(ts.take(i)).len() <= rows_of_threads(ts).len(),
    decreases ts.len() - i,
{
    if i < ts.len() {
        lemma_rows_of_threads_step(ts, i);
        lemma_rows_of_threads_prefix_len(ts, i + 1);
    } else {
        assert(ts.take(i) =~= ts);
    }
}

impl Sheet {
    pub open spec fn wf(&self) -> bool {
        self.rows@.len() < MAX_ROWS
    }

    /// An empty sheet named `name`: only its header row.
    pub fn new(name: &str) -> (r: Sheet)
        ensures
            r.name@ == name@,
            r.rows@.len() == 0,
            r.wf(),
    {
        Sheet { name: name.to_owned(), rows: Vec::new() }
    }

    /// The next free row.
    pub fn next_row(&self) -> (r: u32)
        requires
            self.wf(),
        ensures
            r == self.rows@.len() + 1,
    {
        self.rows.len() as u32 + 1
    }

    /// Appends the rows of one thread.
    fn push_thread(&mut self, t: &Thread)
        requires
            old(self).rows@.len() + thread_rows(*t).len() < MAX_ROWS,
        ensures
            final(self).rows@ == old(self).rows@ + thread_rows(*t),
            final(self).name == old(self).name,
    {
        if t.replies.len() == 0 {
            self.rows.push(SheetRow { comment: Some(t.comment.duplicate()), reply: None });
            assert(self.rows@ =~= old(self).rows@ + thread_rows(*t));
        } else {
            let mut j: usize = 0;
            while j < t.replies.len()
                invariant
                    0 <= j <= t.replies@.len(),
                    t.replies@.len() > 0,
                    self.rows@ == old(self).rows@ + thread_rows(*t).take(j as int),
                    self.name == old(self).name,
                decreases t.replies@.len() - j,
            {
                let comment = if j == 0 {
                    Some(t.comment.duplicate())
                } else {
                    None
                };
                self.rows.push(SheetRow { comment, reply: Some(t.replies[j].duplicate()) });
                j = j + 1;
                assert(self.rows@ =~= old(self).rows@ + thread_rows(*t).take(j as int));
            }
            assert(thread_rows(*t).take(j as int) =~= thread_rows(*t));
        }
    }

    /// Writes the rows of `page` from row `start_at` on, thread after thread,
    /// and returns the row one past the last one written. A thread whose rows
    /// would run past the sheet's last row fails the write; the threads before
    /// it stay written.
    pub fn write_comment_rows(&mut self, start_at: u32, page: &Page) -> (r: Result<u32, RunError>)
        requires
            old(self).wf(),
            start_at == old(self).rows@.len() + 1,
        ensures
            final(self).wf(),
            final(self).name == old(self).name,
            r is Ok <==> old(self).rows@.len() + page_rows(*page).len() < MAX_ROWS,
            r is Ok ==> final(self).rows@ == old(self).rows@ + page_rows(*page) && r->Ok_0
                == start_at + page_rows(*page).len(),
            r is Err ==> r->Err_0 is WriteXlsxColumn && exists|k: int|
                0 <= k < page.threads@.len() && final(self).rows@ == old(self).rows@
                    + rows_of_threads(page.threads@.take(k)) && old(self).rows@.len()
                    + rows_of_threads(page.threads@.take(k + 1)).len() >= MAX_ROWS,
    {
        let mut i: usize = 0;
        while i < page.threads.len()
            invariant
                0 <= i <= page.threads@.len(),
                self.rows@ == old(self).rows@ + rows_of_threads(page.threads@.take(i as int)),
                self.rows@.len() < MAX_ROWS,
                self.name == old(self).name,
            decreases page.threads@.len() - i,
        {
            proof {
                lemma_rows_of_threads_step(page.threads@, i as int);
            }
            let t = &page.threads[i];
            let n: usize = if t.replies.len() == 0 {
                1
            } else {
                t.replies.len()
            };
            if n >= (MAX_ROWS as usize) - self.rows.len() {
                proof {
                    lemma_rows_of_threads_prefix_len(page.threads@, i as int + 1);
                    assert(page.threads@.take(page.threads@.len() as int) =~= page.threads@);
                }
                return Err(RunError::WriteXlsxColumn { message: "row beyond the last row of a sheet".to_owned() });
            }
            self.push_thread(t);
            i = i + 1;
            assert(self.rows@ =~= old(self).rows@ + rows_of_threads(page.threads@.take(i as int)));
        }
        assert(page.threads@.take(i as int) =~= page.threads@);
        Ok(self.rows.len() as u32 + 1)
    }
}

/// The workbook being built: its sheets in the order they were added, the
/// last one being the sheet of the video in progress.
pub struct Workbook {
    pub sheets: Vec<Sheet>,
}

impl Workbook {
    pub open spec fn wf(&self) -> bool {
        forall|i: int| 0 <= i < self.sheets@.len() ==> #[trigger] self.sheets@[i].wf()
    }

    pub open spec fn has_sheet(&self, name: Seq<char>) -> bool {
        exists|i: int| 0 <= i < self.sheets@.len() && #[trigger] self.sheets@[i].name@ == name
    }

    /// A workbook without sheets.
    pub fn new() -> (r: Workbook)
        ensures
            r.sheets@.len() == 0,
            r.wf(),
    {
        Workbook { sheets: Vec::new() }
    }

    /// Adds a sheet named `name` holding only its header row. Sheet names are
    /// unique within a workbook: a name already taken is refused.
    pub fn add_worksheet(&mut self, name: &str) -> (r: Result<(), RunError>)
        requires
            old(self).wf(),
        ensures
            final(self).wf(),
            r is Err <==> old(self).has_sheet(name@),
            r is Err ==> final(self).sheets@ == old(self).sheets@ && r->Err_0 is AddXlsxWorksheet
                && r->Err_0->AddXlsxWorksheet_name@ == name@,
            r is Ok ==> final(self).sheets@.len() == old(self).sheets@.len() + 1
                && final(self).sheets@.drop_last() == old(self).sheets@
                && final(self).sheets@.last().name@ == name@
                && final(self).sheets@.last().rows@.len() == 0,
    {
        let wanted = name.to_owned();
        let mut i: usize = 0;
        while i < self.sheets.len()
            invariant
                0 <= i <= self.sheets@.len(),
                self.sheets@ == old(self).sheets@,
                self.wf(),
                wanted@ == name@,
                forall|j: int| 0 <= j < i ==> #[trigger] self.sheets@[j].name@ != name@,
            decreases self.sheets@.len() - i,
        {
            if self.sheets[i].name == wanted {
                return Err(RunError::AddXlsxWorksheet { name: wanted });
            }
            i = i + 1;
        }
        self.sheets.push(Sheet::new(name));
        assert(self.sheets@.drop_last() =~= old(self).sheets@);
        Ok(())
    }

    /// The next free row of the last sheet.
    pub fn next_row(&self) -> (r: u32)
        requires
            self.wf(),
            self.sheets@.len() > 0,
        ensures
            r == self.sheets@.last().rows@.len() + 1,
    {
        self.sheets[self.sheets.len() - 1].next_row()
    }

    /// Writes the rows of `page` to the last sheet from row `start_at` on, as
    /// `Sheet::write_comment_rows` does.
    pub fn write_comment_rows(&mut self, start_at: u32, page: &Page) -> (r: Result<u32, RunError>)
        requires
            old(self).wf(),
            old(self).sheets@.len() > 0,
            start_at == old(self).sheets@.last().rows@.len() + 1,
        ensures
            final(self).wf(),
            final(self).sheets@.len() == old(self).sheets@.len(),
            final(self).sheets@.drop_last() == old(self).sheets@.drop_last(),
            final(self).sheets@.last().name == old(self).sheets@.last().name,
            r is Ok <==> old(self).sheets@.last().rows@.len() + page_rows(*page).len() < MAX_ROWS,
            r is Ok ==> final(self).sheets@.last().rows@ == old(self).sheets@.last().rows@
                + page_rows(*page) && r->Ok_0 == start_at + page_rows(*page).len(),
            r is Err ==> r->Err_0 is WriteXlsxColumn && exists|k: int|
                0 <= k < page.threads@.len() && final(self).sheets@.last().rows@ == old(
                    self,
                ).sheets@.last().rows@ + rows_of_threads(page.threads@.take(k)),
    {
        let mut sheet = self.sheets.pop().unwrap();
        let r = sheet.write_comment_rows(start_at, page);
        self.sheets.push(sheet);
        assert(self.sheets@.drop_last() =~= old(self).sheets@.drop_last());
        r
    }
}

} // verus!
