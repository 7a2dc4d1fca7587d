//! The destination table's schema and the statements that provision and fill it.
use vstd::prelude::*;
use crate::text::{join, join_with, views};

verus! {

/// `DROP TABLE IF EXISTS data`
pub open spec fn drop_sql() -> Seq<char> {
    "DROP TABLE IF EXISTS data"@
}

/// One column declaration: the name followed by its text type.
pub open spec fn column_declaration(name: Seq<char>) -> Seq<char> {
    name + " VARCHAR(256) NOT NULL"@
}

/// `CREATE TABLE data (c1 VARCHAR(256) NOT NULL, ...)`
pub open spec fn create_sql(columns: Seq<Seq<char>>) -> Seq<char> {
    "CREATE TABLE data ("@ + join(columns.map_values(|c: Seq<char>| column_declaration(c)), ", "@)
        + ")"@
}

/// A field embedded as a literal, verbatim between single quotes.
pub open spec fn quoted(field: Seq<char>) -> Seq<char> {
    "'"@ + field + "'"@
}

/// `INSERT INTO data (c1, c2) VALUES ('v1', 'v2')`
pub open spec fn insert_sql(columns: Seq<Seq<char>>, values: Seq<Seq<char>>) -> Seq<char> {
    "INSERT INTO data ("@ + join(columns, ", "@) + ") VALUES ("@ + join(
        values.map_values(|v: Seq<char>| quoted(v)),
        ", "@,
    ) + ")"@
}

/// The ordered column names of the destination table, taken from the header
/// record of a dataset.
#[derive(Debug)]
pub struct Schema {
    columns: Vec<String>,
}

impl View for Schema {
    type V = Seq<Seq<char>>;

    closed spec fn view(&self) -> Seq<Seq<char>> {
        views(self.columns@)
    }
}

impl Schema {
    /// The schema of a header record: its fields, in order, unchecked.
    pub fn from_record(record: &Vec<String>) -> (s: Schema)
        ensures
            s@ == views(record@),
    {
        Schema { columns: record.clone() }
    }

    /// The number of columns.
    pub fn len(&self) -> (n: usize)
        ensures
            n == self@.len(),
    {
        self.columns.len()
    }

    /// The column names joined by `", "`, as an insert statement lists them.
    pub fn column_names_joined_by_commas(&self) -> (r: String)
        ensures
            r@ == join(self@, ", "@),
    {
        join_with(&self.columns, ", ")
    }

    /// The statement that removes any earlier destination table.
    pub fn drop_table_statement() -> (r: String)
        ensures
            r@ == drop_sql(),
    {
        String::from_str("DROP TABLE IF EXISTS data")
    }

    /// The statement that creates the destination table, one text column per
    /// schema entry, in schema order.
    pub fn create_table_statement(&self) -> (r: String)
        ensures
            r@ == create_sql(self@),
    {
        let mut declarations: Vec<String> = Vec::new();
        let mut i: usize = 0;
        while i < self.columns.len()
            invariant
                i <= self.columns.len(),
                views(declarations@) =~= self@.take(i as int).map_values(
                    |c: Seq<char>| column_declaration(c),
                ),
            decreases self.columns.len() - i,
        {
            let mut declaration = self.columns[i].clone();
            declaration.append(" VARCHAR(256) NOT NULL");
            let ghost before = declarations@;
            declarations.push(declaration);
            proof {
                assert(views(declarations@) =~= views(before).push(declaration@));
                assert(self@.take(i as int + 1) =~= self@.take(i as int).push(self@[i as int]));
            }
            i = i + 1;
        }
        assert(self@.take(self@.len() as int) =~= self@);
        let mut r = String::from_str("CREATE TABLE data (");
        r.append(join_with(&declarations, ", ").as_str());
        r.append(")");
        r
    }

    /// The statement that inserts one row, each field a quoted literal, in
    /// schema column order.
    pub fn insert_statement(&self, record: &Vec<String>) -> (r: String)
        ensures
            r@ == insert_sql(self@, views(record@)),
    {
        let mut literals: Vec<String> = Vec::new();
        let mut i: usize = 0;
        while i < record.len()
            invariant
                i <= record.len(),
                views(literals@) =~= views(record@).take(i as int).map_values(
                    |v: Seq<char>| quoted(v),
                ),
            decreases record.len() - i,
        {
            let mut literal = String::from_str("'");
            literal.append(record[i].as_str());
            literal.append("'");
            let ghost before = literals@;
            literals.push(literal);
            proof {
                assert(views(literals@) =~= views(before).push(literal@));
                assert(views(record@).take(i as int + 1) =~= views(record@).take(i as int).push(
                    record@[i as int]@,
                ));
            }
            i = i + 1;
        }
        assert(views(record@).take(record@.len() as int) =~= views(record@));
        let mut r = String::from_str("INSERT INTO data (");
        r.append(self.column_names_joined_by_commas().as_str());
        r.append(") VALUES (");
        r.append(join_with(&literals, ", ").as_str());
        r.append(")");
        r
    }
}

} // verus!
