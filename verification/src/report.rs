use vstd::prelude::*;
use vstd::string::StringExecFns;
use crate::error::BenchError;
use crate::text::dec_of;
use crate::text::u64_to_dec;
use crate::text::usize_to_dec;

verus! {

/// One backend's result for one batch size: the batch size and the average
/// forward-pass latency in whole microseconds.
#[derive(Clone, Copy, PartialEq, Eq, Structural, Debug)]
pub struct BackendRow {
    pub batch_size: usize,
    pub average_us: u64,
}

/// One line of the final table: a batch size and the average latency each
/// backend reported for it.
#[derive(Clone, Copy, PartialEq, Eq, Structural, Debug)]
pub struct ResultRow {
    pub batch_size: usize,
    pub tch_average_us: u64,
    pub cdl_average_us: u64,
}

/// Two per-backend result lists agree on length and on the batch size of every
/// row, pairwise in order.
pub open spec fn rows_match(a: Seq<BackendRow>, b: Seq<BackendRow>) -> bool {
    &&& a.len() == b.len()
    &&& forall|i: int| 0 <= i < a.len() ==> a[i].batch_size == b[i].batch_size
}

/// Joins the two per-backend result lists into table rows, batch size by batch
/// size. Returns `ConfigInconsistency` exactly when the lists disagree in
/// length or in batch-size order; never a partial table.
pub fn align_rows(a: &Vec<BackendRow>, b: &Vec<BackendRow>) -> (r: Result<
    Vec<ResultRow>,
    BenchError,
>)
    ensures
        match r {
            Ok(rows) => {
                &&& rows_match(a@, b@)
                &&& rows@.len() == a@.len()
                &&& forall|i: int|
                    0 <= i < rows@.len() ==> rows@[i] == (ResultRow {
                        batch_size: a@[i].batch_size,
                        tch_average_us: a@[i].average_us,
                        cdl_average_us: b@[i].average_us,
                    })
            },
            Err(e) => !rows_match(a@, b@) && e == BenchError::ConfigInconsistency,
        },
{
    if a.len() != b.len() {
        return Err(BenchError::ConfigInconsistency);
    }
    let mut rows: Vec<ResultRow> = Vec::new();
    let mut i: usize = 0;
    while i < a.len()
        invariant
            a@.len() == b@.len(),
            i <= a@.len(),
            rows@.len() == i,
            forall|j: int| 0 <= j < i ==> a@[j].batch_size == b@[j].batch_size,
            forall|j: int|
                0 <= j < i ==> rows@[j] == (ResultRow {
                    batch_size: a@[j].batch_size,
                    tch_average_us: a@[j].average_us,
                    cdl_average_us: b@[j].average_us,
                }),
        decreases a@.len() - i,
    {
        if a[i].batch_size != b[i].batch_size {
            return Err(BenchError::ConfigInconsistency);
        }
        rows.push(
            ResultRow {
                batch_size: a[i].batch_size,
                tch_average_us: a[i].average_us,
                cdl_average_us: b[i].average_us,
            },
        );
        i = i + 1;
    }
    Ok(rows)
}

/// The literal CSV header line, without its terminating newline.
pub open spec fn header_text() -> Seq<char> {
    "batch_size,tch_\u{3bc}s_average,cdl_\u{3bc}s_average"@
}

/// One CSV data line: batch size, then the two backend averages, comma
/// separated, newline terminated.
pub open spec fn row_text(row: ResultRow) -> Seq<char> {
    dec_of(row.batch_size as nat) + ","@ + dec_of(row.tch_average_us as nat) + ","@ + dec_of(
        row.cdl_average_us as nat,
    ) + "\n"@
}

/// The data lines of the table, in row order.
pub open spec fn rows_text(rows: Seq<ResultRow>) -> Seq<char>
    decreases rows.len(),
{
    if rows.len() == 0 {
        Seq::<char>::empty()
    } else {
        rows_text(rows.drop_last()) + row_text(rows.last())
    }
}

/// The whole table: the header line, a newline, then one data line per row in
/// row order, with no trailing summary.
pub open spec fn table_text(rows: Seq<ResultRow>) -> Seq<char> {
    header_text() + "\n"@ + rows_text(rows)
}

/// The rendered table begins with exactly the header line: its first
/// characters are the header, the header holds no newline, and the character
/// right after it is the newline that ends the first line — whatever the rows.
pub proof fn lemma_table_first_line_is_header(rows: Seq<ResultRow>)
    ensures
        table_text(rows).subrange(0, header_text().len() as int) == header_text(),
        table_text(rows)[header_text().len() as int] == '\n',
        forall|i: int| 0 <= i < header_text().len() ==> header_text()[i] != '\n',
{
    assert(table_text(rows).subrange(0, header_text().len() as int) =~= header_text());
    reveal_strlit("batch_size,tch_\u{3bc}s_average,cdl_\u{3bc}s_average");
    reveal_strlit("\n");
    assert(("\n"@)[0] == '\n');
    assert(table_text(rows)[header_text().len() as int] == '\n');
    assert forall|i: int| 0 <= i < header_text().len() implies header_text()[i] != '\n' by {
        assert(header_text().len() == 40);
    }
}

/// Renders one data line.
fn render_row(row: &ResultRow) -> (s: String)
    ensures
        s@ == row_text(*row),
{
    let mut s = usize_to_dec(row.batch_size);
    s.append(",");
    let tch = u64_to_dec(row.tch_average_us);
    s.append(tch.as_str());
    s.append(",");
    let cdl = u64_to_dec(row.cdl_average_us);
    s.append(cdl.as_str());
    s.append("\n");
    proof {
        assert(s@ =~= row_text(*row));
    }
    s
}

/// Renders the full CSV table.
pub fn render_table(rows: &Vec<ResultRow>) -> (s: String)
    ensures
        s@ == table_text(rows@),
{
    let mut s = String::from_str("batch_size,tch_\u{3bc}s_average,cdl_\u{3bc}s_average");
    s.append("\n");
    proof {
        assert(rows@.take(0) =~= Seq::<ResultRow>::empty());
        assert(s@ =~= table_text(rows@.take(0)));
    }
    let mut i: usize = 0;
    while i < rows.len()
        invariant
            i <= rows@.len(),
            s@ == table_text(rows@.take(i as int)),
        decreases rows@.len() - i,
    {
        let line = render_row(&rows[i]);
        s.append(line.as_str());
        proof {
            assert(rows@.take(i as int + 1).drop_last() =~= rows@.take(i as int));
            assert(rows@.take(i as int + 1).last() == rows@[i as int]);
            assert(s@ =~= table_text(rows@.take(i as int + 1)));
        }
        i = i + 1;
    }
    proof {
        assert(rows@.take(rows@.len() as int) =~= rows@);
    }
    s
}

} // verus!
