//! Ingestion: from a dataset to the statements that load it, what those
//! statements leave in the store, and the barrier that joins the inserts.
use vstd::prelude::*;
use crate::delimited::{delimited_table, read_records};
use crate::schema::Schema;
use crate::store::{lemma_run_concat, run_commands, Command, TableModel, command_sql};
use crate::text::{record_views, views};

verus! {

/// Why a dataset cannot be loaded.
#[derive(Debug, Clone, Copy, PartialEq, Eq)]
pub enum IngestError {
    /// The bytes are not well-formed delimited text.
    Malformed,
    /// The dataset has no header record.
    MissingHeader,
    /// Data record `row` (counted from 0, after the header) has `found`
    /// fields where the header has `expected`; a plan reports it after
    /// provisioning the table.
    FieldCount { row: usize, expected: usize, found: usize },
}

/// Drop any earlier table, then create it with the header's columns.
pub open spec fn provisioning_commands(header: Seq<Seq<char>>) -> Seq<Command> {
    seq![Command::DropTable, Command::CreateTable(header)]
}

/// One insert per data record, in the header's column order.
pub open spec fn insert_commands(header: Seq<Seq<char>>, rows: Seq<Seq<Seq<char>>>) -> Seq<Command> {
    rows.map_values(|r: Seq<Seq<char>>| Command::Insert(header, r))
}

/// Every command of one ingestion, provisioning first.
pub open spec fn ingestion_commands(header: Seq<Seq<char>>, rows: Seq<Seq<Seq<char>>>) -> Seq<Command> {
    provisioning_commands(header) + insert_commands(header, rows)
}

/// Every record has as many fields as the header.
pub open spec fn rows_match(header: Seq<Seq<char>>, rows: Seq<Seq<Seq<char>>>) -> bool {
    forall|i: int| 0 <= i < rows.len() ==> #[trigger] rows[i].len() == header.len()
}

/// The texts of a sequence of commands.
pub open spec fn command_texts(commands: Seq<Command>) -> Seq<Seq<char>> {
    commands.map_values(|c: Command| command_sql(c))
}

/// Record `row` is the first whose field count differs from the header's.
pub open spec fn first_mismatch(header: Seq<Seq<char>>, rows: Seq<Seq<Seq<char>>>, row: int) -> bool {
    &&& 0 <= row < rows.len()
    &&& rows[row].len() != header.len()
    &&& rows_match(header, rows.take(row))
}

/// The work of one ingestion: the schema, the statements that provision the
/// table (run first, in order, whatever follows), and one insert statement
/// per data record (run in any order once provisioning is done). Where a
/// record's field count differs from the header's, the dataset is refused:
/// the table is still replaced, no record is inserted, and `refused` says
/// which record it was.
#[derive(Debug)]
pub struct IngestionPlan {
    pub schema: Schema,
    pub provisioning: Vec<String>,
    pub inserts: Vec<String>,
    pub refused: Option<IngestError>,
}

impl IngestionPlan {
    /// The plan is that of `header` and `rows`.
    pub open spec fn plans(&self, header: Seq<Seq<char>>, rows: Seq<Seq<Seq<char>>>) -> bool {
        &&& self.schema@ == header
        &&& views(self.provisioning@) == command_texts(provisioning_commands(header))
        &&& (self.refused is None <==> rows_match(header, rows))
        &&& (self.refused is None ==> views(self.inserts@) == command_texts(
            insert_commands(header, rows),
        ))
        &&& (self.refused is Some ==> {
            &&& self.inserts@.len() == 0
            &&& self.refused matches Some(IngestError::FieldCount { row, expected, found })
            &&& expected == header.len()
            &&& found == rows[row as int].len()
            &&& first_mismatch(header, rows, row as int)
        })
    }
}

/// The first record whose field count is not `expected`, if any.
fn find_mismatch(expected: usize, rows: &Vec<Vec<String>>) -> (r: Option<usize>)
    ensures
        r is None <==> forall|i: int| 0 <= i < rows@.len() ==> #[trigger] rows@[i]@.len() == expected,
        r matches Some(k) ==> k < rows@.len() && rows@[k as int]@.len() != expected && forall|i: int|
            0 <= i < k ==> #[trigger] rows@[i]@.len() == expected,
{
    let mut i: usize = 0;
    while i < rows.len()
        invariant
            i <= rows.len(),
            forall|j: int| 0 <= j < i ==> #[trigger] rows@[j]@.len() == expected,
        decreases rows.len() - i,
    {
        if rows[i].len() != expected {
            return Some(i);
        }
        i = i + 1;
    }
    None
}

/// Plans the ingestion of a header record and its data records. It fails
/// only where the header is empty; a record whose field count differs from
/// the header's is reported in the plan, which then provisions the table and
/// inserts nothing.
pub fn plan_ingestion(header: &Vec<String>, rows: &Vec<Vec<String>>) -> (r: Result<IngestionPlan, IngestError>)
    ensures
        r is Err <==> header@.len() == 0,
        r is Err ==> (r matches Err(IngestError::MissingHeader)),
        r matches Ok(p) ==> p.plans(views(header@), record_views(rows@)),
{
    if header.len() == 0 {
        return Err(IngestError::MissingHeader);
    }
    let schema = Schema::from_record(header);
    let ghost h = views(header@);
    let ghost all = record_views(rows@);
    let mut provisioning: Vec<String> = Vec::new();
    provisioning.push(Schema::drop_table_statement());
    provisioning.push(schema.create_table_statement());
    assert(views(provisioning@) =~= command_texts(provisioning_commands(h)));
    let mut inserts: Vec<String> = Vec::new();
    match find_mismatch(schema.len(), rows) {
        Some(k) => {
            proof {
                assert(all[k as int] == views(rows@[k as int]@));
                assert forall|i: int| 0 <= i < all.take(k as int).len() implies #[trigger] all.take(
                    k as int,
                )[i].len() == h.len() by {
                    assert(all.take(k as int)[i] == views(rows@[i]@));
                    assert(rows@[i]@.len() == header@.len());
                }
                assert(!rows_match(h, all)) by {
                    assert(all[k as int].len() != h.len());
                }
            }
            let refused = Some(IngestError::FieldCount { row: k, expected: schema.len(), found: rows[k].len() });
            return Ok(IngestionPlan { schema, provisioning, inserts, refused });
        },
        None => {},
    }
    assert(rows_match(h, all)) by {
        assert forall|i: int| 0 <= i < all.len() implies #[trigger] all[i].len() == h.len() by {
            assert(all[i] == views(rows@[i]@));
            assert(rows@[i]@.len() == header@.len());
        }
    }
    let mut i: usize = 0;
    while i < rows.len()
        invariant
            i <= rows.len(),
            schema@ == h,
            h == views(header@),
            all == record_views(rows@),
            views(inserts@) =~= command_texts(insert_commands(h, all.take(i as int))),
        decreases rows.len() - i,
    {
        let statement = schema.insert_statement(&rows[i]);
        let ghost before = inserts@;
        inserts.push(statement);
        proof {
            assert(views(inserts@) =~= views(before).push(statement@));
            assert(all.take(i as int + 1) =~= all.take(i as int).push(all[i as int]));
        }
        i = i + 1;
    }
    assert(all.take(rows.len() as int) =~= all);
    Ok(IngestionPlan { schema, provisioning, inserts, refused: None })
}

/// Reads a dataset and plans its ingestion: `Malformed` where the csv reader
/// rejects the bytes, otherwise as `plan_ingestion` decides on the records it
/// read.
pub fn plan_dataset(bytes: &[u8]) -> (r: Result<IngestionPlan, IngestError>)
    ensures
        delimited_table(bytes@) is None <==> (r matches Err(IngestError::Malformed)),
        delimited_table(bytes@) matches Some(t) ==> {
            &&& (r is Err <==> t.0.len() == 0)
            &&& (r is Err ==> (r matches Err(IngestError::MissingHeader)))
            &&& (r matches Ok(p) ==> p.plans(t.0, t.1))
        },
{
    match read_records(bytes) {
        Ok((header, rows)) => plan_ingestion(&header, &rows),
        Err(_) => Err(IngestError::Malformed),
    }
}

/// Inserting records that match the table's columns appends them, in order.
proof fn lemma_inserts_append(header: Seq<Seq<char>>, start: Seq<Seq<Seq<char>>>, rows: Seq<Seq<Seq<char>>>)
    requires
        rows_match(header, rows),
    ensures
        run_commands(Some(TableModel { columns: header, rows: start }), insert_commands(header, rows))
            == Some(TableModel { columns: header, rows: start + rows }),
    decreases rows.len(),
{
    if rows.len() == 0 {
        assert(start + rows =~= start);
    } else {
        let rest = rows.drop_last();
        assert(rows_match(header, rest)) by {
            assert forall|i: int| 0 <= i < rest.len() implies #[trigger] rest[i].len() == header.len() by {
                assert(rest[i] == rows[i]);
            }
        }
        lemma_inserts_append(header, start, rest);
        assert(insert_commands(header, rows).drop_last() =~= insert_commands(header, rest));
        assert(rows[rows.len() - 1].len() == header.len());
        assert((start + rest).push(rows.last()) =~= start + rows);
    }
}

/// Provisioning leaves an empty table with the header's columns, whatever
/// was there before: so a refused dataset leaves no row at all, neither its
/// own nor an earlier load's.
pub proof fn lemma_provisioning(prior: Option<TableModel>, header: Seq<Seq<char>>)
    ensures
        run_commands(prior, provisioning_commands(header)) == Some(TableModel { columns: header, rows: Seq::empty() }),
{
    let p = provisioning_commands(header);
    assert(p.drop_last() =~= seq![Command::DropTable]);
    assert(p.drop_last().drop_last() =~= Seq::<Command>::empty());
    assert(run_commands(prior, p.drop_last()) == None::<TableModel>);
}

/// Whatever table was there before, ingestion leaves exactly the header's
/// columns, in order, and one row per data record.
pub proof fn lemma_ingestion_result(prior: Option<TableModel>, header: Seq<Seq<char>>, rows: Seq<Seq<Seq<char>>>)
    requires
        rows_match(header, rows),
    ensures
        run_commands(prior, ingestion_commands(header, rows)) == Some(TableModel { columns: header, rows }),
{
    lemma_run_concat(prior, provisioning_commands(header), insert_commands(header, rows));
    lemma_provisioning(prior, header);
    lemma_inserts_append(header, Seq::empty(), rows);
    assert(Seq::<Seq<Seq<char>>>::empty() + rows =~= rows);
}

/// The inserts may complete in any order: for every order in which the N
/// insert units of a dataset run after provisioning, the table ends with the
/// header's K columns, in header order, and N rows, the records in that order.
pub proof fn lemma_ingestion_loads_every_row(
    prior: Option<TableModel>,
    header: Seq<Seq<char>>,
    rows: Seq<Seq<Seq<char>>>,
    order: Seq<int>,
)
    requires
        rows_match(header, rows),
        order.len() == rows.len(),
        forall|k: int| 0 <= k < order.len() ==> 0 <= #[trigger] order[k] < rows.len(),
        forall|j: int, k: int| 0 <= j < k < order.len() ==> order[j] != order[k],
    ensures
        ({
            let table = run_commands(
                prior,
                provisioning_commands(header) + order.map_values(
                    |k: int| insert_commands(header, rows)[k],
                ),
            );
            &&& table == Some(TableModel {
                columns: header,
                rows: order.map_values(|k: int| rows[k]),
            })
            &&& table->0.columns == header
            &&& table->0.rows.len() == rows.len()
        }),
{
    let permuted = order.map_values(|k: int| rows[k]);
    assert(rows_match(header, permuted)) by {
        assert forall|i: int| 0 <= i < permuted.len() implies #[trigger] permuted[i].len()
            == header.len() by {
            assert(0 <= order[i] < rows.len());
        }
    }
    assert(order.map_values(|k: int| insert_commands(header, rows)[k]) =~= insert_commands(
        header,
        permuted,
    ));
    lemma_ingestion_result(prior, header, permuted);
}

/// Ingesting the same dataset twice leaves what ingesting it once leaves: the
/// old rows never persist beside the new, and exactly N rows remain.
pub proof fn lemma_ingestion_idempotent(prior: Option<TableModel>, header: Seq<Seq<char>>, rows: Seq<Seq<Seq<char>>>)
    requires
        rows_match(header, rows),
    ensures
        run_commands(run_commands(prior, ingestion_commands(header, rows)), ingestion_commands(header, rows))
            == run_commands(prior, ingestion_commands(header, rows)),
        run_commands(run_commands(prior, ingestion_commands(header, rows)), ingestion_commands(header, rows))->0.rows.len()
            == rows.len(),
{
    lemma_ingestion_result(prior, header, rows);
    lemma_ingestion_result(run_commands(prior, ingestion_commands(header, rows)), header, rows);
}

} // verus!
