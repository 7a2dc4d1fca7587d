//! The export writer: a header built from the first result row's column
//! names, then each row's decoded cells, as delimited records.
use vstd::prelude::*;
use crate::decode::{decode_cell, decoded, CellValue};
use crate::delimited::{delimited_record, write_record};
use crate::text::views;

verus! {

/// One row of a query result: its column names and its cells, in order.
#[derive(Debug, Clone)]
pub struct ResultRow {
    pub column_names: Vec<String>,
    pub cells: Vec<CellValue>,
}

/// Why an export stopped.
#[derive(Debug, Clone, Copy, PartialEq, Eq)]
pub enum ExportError {
    /// The cell in this column fits none of the known interpretations.
    Decode { column: usize },
    /// The csv writer could not write a record (never seen for a writer
    /// into memory).
    Encode,
}

/// Every cell decodes.
pub open spec fn all_decoded(cells: Seq<CellValue>) -> bool {
    forall|i: int| 0 <= i < cells.len() ==> #[trigger] decoded(cells[i]) is Some
}

/// The decoded texts of a row's cells.
pub open spec fn row_texts(cells: Seq<CellValue>) -> Seq<Seq<char>> {
    cells.map_values(|c: CellValue| decoded(c)->0)
}

/// The records an export of these rows writes: none for no rows, else the
/// first row's column names, then each row's decoded cells.
pub open spec fn export_records(rows: Seq<ResultRow>) -> Seq<Seq<Seq<char>>> {
    if rows.len() == 0 {
        Seq::empty()
    } else {
        seq![views(rows[0].column_names@)] + rows.map_values(|r: ResultRow| row_texts(r.cells@))
    }
}

/// The bytes of a sequence of records, one after the other.
pub open spec fn records_bytes(records: Seq<Seq<Seq<char>>>) -> Seq<u8>
    decreases records.len(),
{
    if records.len() == 0 {
        Seq::empty()
    } else {
        records_bytes(records.drop_last()) + delimited_record(records.last())
    }
}

proof fn lemma_records_bytes_push(records: Seq<Seq<Seq<char>>>, r: Seq<Seq<char>>)
    ensures
        records_bytes(records.push(r)) == records_bytes(records) + delimited_record(r),
{
    assert(records.push(r).drop_last() =~= records);
}

/// Decodes every cell of a row; fails at the first cell that fits no
/// interpretation.
pub fn decode_row(cells: &Vec<CellValue>) -> (r: Result<Vec<String>, ExportError>)
    ensures
        r is Ok <==> all_decoded(cells@),
        r matches Ok(v) ==> views(v@) == row_texts(cells@),
        r matches Err(e) ==> e matches ExportError::Decode { column } && column < cells@.len()
            && decoded(cells@[column as int]) is None && all_decoded(cells@.take(column as int)),
{
    let mut out: Vec<String> = Vec::new();
    let mut i: usize = 0;
    while i < cells.len()
        invariant
            i <= cells.len(),
            all_decoded(cells@.take(i as int)),
            views(out@) =~= row_texts(cells@.take(i as int)),
        decreases cells.len() - i,
    {
        match decode_cell(&cells[i]) {
            Some(text) => {
                let ghost before = out@;
                out.push(text);
                proof {
                    assert(views(out@) =~= views(before).push(text@));
                    assert(cells@.take(i as int + 1) =~= cells@.take(i as int).push(cells@[i as int]));
                }
            },
            None => {
                return Err(ExportError::Decode { column: i });
            },
        }
        i = i + 1;
    }
    assert(cells@.take(cells@.len() as int) =~= cells@);
    Ok(out)
}

/// Streams the rows of one query result out as delimited records.
pub struct ExportWriter {
    header_written: bool,
    rows: Ghost<Seq<ResultRow>>,
    output: Ghost<Seq<u8>>,
}

impl ExportWriter {
    /// The rows written so far.
    pub closed spec fn rows(&self) -> Seq<ResultRow> {
        self.rows@
    }

    /// The bytes handed out so far.
    pub closed spec fn output(&self) -> Seq<u8> {
        self.output@
    }

    pub closed spec fn wf(&self) -> bool {
        &&& self.header_written == (self.rows@.len() > 0)
        &&& self.output@ == records_bytes(export_records(self.rows@))
    }

    /// A writer that has written nothing.
    pub fn new() -> (w: Self)
        ensures
            w.wf(),
            w.rows() == Seq::<ResultRow>::empty(),
            w.output() == Seq::<u8>::empty(),
    {
        ExportWriter { header_written: false, rows: Ghost(Seq::empty()), output: Ghost(Seq::empty()) }
    }

    /// Writes one more row and returns the bytes to append to the sink: for
    /// the first row the header record, built from its column names, then
    /// its decoded cells; for a later row its decoded cells alone. On error
    /// nothing is written.
    pub fn write_row(&mut self, row: &ResultRow) -> (r: Result<Vec<u8>, ExportError>)
        requires
            old(self).wf(),
        ensures
            final(self).wf(),
            r is Ok ==> final(self).rows() == old(self).rows().push(*row),
            r matches Ok(b) ==> final(self).output() == old(self).output() + b@,
            r is Err ==> final(self).rows() == old(self).rows() && final(self).output() == old(
                self,
            ).output(),
            all_decoded(row.cells@) ==> r is Ok,
            !all_decoded(row.cells@) ==> (r matches Err(ExportError::Decode { .. })),
            r matches Err(ExportError::Decode { column }) ==> column < row.cells@.len()
                && decoded(row.cells@[column as int]) is None && all_decoded(
                row.cells@.take(column as int),
            ),
    {
        let texts = match decode_row(&row.cells) {
            Ok(texts) => texts,
            Err(e) => {
                return Err(e);
            },
        };
        let ghost old_rows = self.rows@;
        let ghost new_rows = old_rows.push(*row);
        let ghost old_records = export_records(old_rows);
        let mut bytes: Vec<u8> = Vec::new();
        if !self.header_written {
            match write_record(&row.column_names) {
                Ok(b) => {
                    bytes = b;
                },
                Err(_) => {
                    return Err(ExportError::Encode);
                },
            }
        }
        let line = match write_record(&texts) {
            Ok(b) => b,
            Err(_) => {
                return Err(ExportError::Encode);
            },
        };
        let ghost head = bytes@;
        let mut line = line;
        bytes.append(&mut line);
        proof {
            let t = row_texts(row.cells@);
            let mapped = |r: ResultRow| row_texts(r.cells@);
            assert(new_rows.map_values(mapped) =~= old_rows.map_values(mapped).push(t));
            if old_rows.len() == 0 {
                let h = views(row.column_names@);
                assert(export_records(new_rows) =~= seq![h].push(t));
                lemma_records_bytes_push(seq![h], t);
                lemma_records_bytes_push(Seq::empty(), h);
                assert(Seq::<Seq<Seq<char>>>::empty().push(h) =~= seq![h]);
                assert(records_bytes(Seq::empty()) =~= Seq::<u8>::empty());
                assert(bytes@ =~= Seq::<u8>::empty() + delimited_record(h) + delimited_record(t));
            } else {
                assert(new_rows[0] == old_rows[0]);
                assert(export_records(new_rows) =~= old_records.push(t));
                lemma_records_bytes_push(old_records, t);
                assert(bytes@ =~= delimited_record(t));
            }
        }
        self.header_written = true;
        self.rows = Ghost(new_rows);
        self.output = Ghost(self.output@ + bytes@);
        assert(self.output@ =~= records_bytes(export_records(new_rows)));
        Ok(bytes)
    }

    /// Whether any row has been written; false until the first row, and
    /// then no header has been written either.
    pub fn any_rows_written(&self) -> (r: bool)
        requires
            self.wf(),
        ensures
            r == (self.rows().len() > 0),
            !r ==> self.output() == Seq::<u8>::empty(),
    {
        proof {
            if !self.header_written {
                assert(export_records(self.rows@) =~= Seq::<Seq<Seq<char>>>::empty());
            }
        }
        self.header_written
    }
}

/// Exporting a query's results writes exactly these records: first a header
/// made of the first row's column names, then one record per row, in the
/// order the rows came, holding that row's decoded cells; for a result
/// without rows it writes nothing, not even a header.
pub proof fn lemma_export_output(w: &ExportWriter)
    requires
        w.wf(),
    ensures
        w.output() == records_bytes(export_records(w.rows())),
        w.rows().len() == 0 ==> w.output() == Seq::<u8>::empty(),
        w.rows().len() > 0 ==> {
            let records = export_records(w.rows());
            &&& records.len() == w.rows().len() + 1
            &&& records[0] == views(w.rows()[0].column_names@)
            &&& forall|i: int| 0 <= i < w.rows().len() ==> #[trigger] records[i + 1] == row_texts(
                w.rows()[i].cells@,
            )
        },
{
    if w.rows().len() == 0 {
        assert(export_records(w.rows()) =~= Seq::<Seq<Seq<char>>>::empty());
    }
}

} // verus!
