//! A model of the destination table and of the statements the library sends
//! to the store, used to state what ingestion leaves behind.
use vstd::prelude::*;
use crate::schema::{create_sql, drop_sql, insert_sql};

verus! {

/// The destination table: its columns, in order, and its rows.
pub struct TableModel {
    pub columns: Seq<Seq<char>>,
    pub rows: Seq<Seq<Seq<char>>>,
}

/// A statement against the destination table.
pub enum Command {
    /// Drop the table if it exists.
    DropTable,
    /// Create the table with these text columns.
    CreateTable(Seq<Seq<char>>),
    /// Insert one row: the column list, then the values.
    Insert(Seq<Seq<char>>, Seq<Seq<char>>),
}

/// The text of a command.
pub open spec fn command_sql(c: Command) -> Seq<char> {
    match c {
        Command::DropTable => drop_sql(),
        Command::CreateTable(columns) => create_sql(columns),
        Command::Insert(columns, values) => insert_sql(columns, values),
    }
}

/// The destination table after one command; `None` is "no table". A command
/// the store rejects (creating over an existing table, inserting into a
/// missing one or with a column list that does not match) changes nothing.
pub open spec fn apply(table: Option<TableModel>, c: Command) -> Option<TableModel> {
    match c {
        Command::DropTable => None,
        Command::CreateTable(columns) => if table is None {
            Some(TableModel { columns, rows: Seq::empty() })
        } else {
            table
        },
        Command::Insert(columns, values) => match table {
            Some(t) => if t.columns == columns && values.len() == columns.len() {
                Some(TableModel { columns: t.columns, rows: t.rows.push(values) })
            } else {
                table
            },
            None => None,
        },
    }
}

/// The destination table after a sequence of commands, run in order.
pub open spec fn run_commands(table: Option<TableModel>, commands: Seq<Command>) -> Option<TableModel>
    decreases commands.len(),
{
    if commands.len() == 0 {
        table
    } else {
        apply(run_commands(table, commands.drop_last()), commands.last())
    }
}

/// Running two sequences one after the other is running their concatenation.
pub proof fn lemma_run_concat(table: Option<TableModel>, a: Seq<Command>, b: Seq<Command>)
    ensures
        run_commands(table, a + b) == run_commands(run_commands(table, a), b),
    decreases b.len(),
{
    if b.len() == 0 {
        assert(a + b =~= a);
    } else {
        lemma_run_concat(table, a, b.drop_last());
        assert((a + b).drop_last() =~= a + b.drop_last());
        assert((a + b).last() == b.last());
    }
}

} // verus!
