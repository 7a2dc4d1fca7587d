use data_sifter::barrier::CompletionBarrier;
use data_sifter::console::IO;
use data_sifter::decode::{decode_cell, CellValue, DecimalValue};
use data_sifter::export::{decode_row, ExportError, ExportWriter, ResultRow};
use data_sifter::ingest::{plan_dataset, plan_ingestion, IngestError, IngestionPlan};
use data_sifter::schema::Schema;
use data_sifter::session::{choose_target, output_path, ExportTarget, TargetError};
use data_sifter::text::{integer_text, join_with};

fn strings(items: &[&str]) -> Vec<String> {
    items.iter().map(|s| s.to_string()).collect()
}

fn text_cell(s: &str) -> CellValue {
    CellValue {
        text: Some(s.to_string()),
        int4: None,
        int8: None,
        float4: None,
        float8: None,
        decimal: None,
    }
}

fn empty_cell() -> CellValue {
    CellValue { text: None, int4: None, int8: None, float4: None, float8: None, decimal: None }
}

fn text_row(names: &[&str], cells: &[&str]) -> ResultRow {
    ResultRow { column_names: strings(names), cells: cells.iter().map(|c| text_cell(c)).collect() }
}

fn export_all(rows: &[ResultRow]) -> (Vec<u8>, bool) {
    let mut writer = ExportWriter::new();
    let mut out = Vec::new();
    for row in rows {
        out.extend(writer.write_row(row).expect("row exports"));
    }
    (out, writer.any_rows_written())
}

fn plan_of(bytes: &[u8]) -> IngestionPlan {
    plan_dataset(bytes).expect("dataset plans")
}

#[test]
fn two_rows_load_and_export_exactly() {
    let plan = plan_of(b"id,name\n1,alice\n2,bob\n");
    assert_eq!(plan.schema.len(), 2);
    assert_eq!(plan.refused, None);
    assert_eq!(
        plan.provisioning,
        strings(&[
            "DROP TABLE IF EXISTS data",
            "CREATE TABLE data (id VARCHAR(256) NOT NULL, name VARCHAR(256) NOT NULL)",
        ])
    );
    assert_eq!(
        plan.inserts,
        strings(&[
            "INSERT INTO data (id, name) VALUES ('1', 'alice')",
            "INSERT INTO data (id, name) VALUES ('2', 'bob')",
        ])
    );
    let (out, any) = export_all(&[
        text_row(&["id", "name"], &["1", "alice"]),
        text_row(&["id", "name"], &["2", "bob"]),
    ]);
    assert!(any);
    assert_eq!(String::from_utf8(out).unwrap(), "id,name\n1,alice\n2,bob\n");
}

#[test]
fn extra_field_fails_ingestion() {
    let plan = plan_of(b"a,b\n1,2,3\n");
    assert_eq!(plan.refused, Some(IngestError::FieldCount { row: 0, expected: 2, found: 3 }));
    assert!(plan.inserts.is_empty());
    assert_eq!(
        plan.provisioning,
        strings(&[
            "DROP TABLE IF EXISTS data",
            "CREATE TABLE data (a VARCHAR(256) NOT NULL, b VARCHAR(256) NOT NULL)",
        ])
    );
}

#[test]
fn short_row_after_good_rows_fails_at_that_row() {
    let plan = plan_of(b"a,b\n1,2\n3,4\n5\n6,7\n");
    assert_eq!(plan.refused, Some(IngestError::FieldCount { row: 2, expected: 2, found: 1 }));
    assert!(plan.inserts.is_empty());
    assert_eq!(plan.provisioning.len(), 2);
}

#[test]
fn empty_dataset_has_no_header() {
    assert!(matches!(plan_dataset(b""), Err(IngestError::MissingHeader)));
    assert!(matches!(plan_ingestion(&Vec::new(), &Vec::new()), Err(IngestError::MissingHeader)));
}

#[test]
fn invalid_text_is_malformed() {
    assert!(matches!(plan_dataset(b"a,b\n\xff\xfe,1\n"), Err(IngestError::Malformed)));
}

#[test]
fn header_only_dataset_plans_no_inserts() {
    let plan = plan_of(b"x,y,z\n");
    assert_eq!(plan.schema.len(), 3);
    assert!(plan.inserts.is_empty());
    assert_eq!(plan.provisioning.len(), 2);
}

#[test]
fn one_insert_per_row_and_columns_in_header_order() {
    let plan = plan_of(b"c,b,a\n1,2,3\n4,5,6\n7,8,9\n10,11,12\n");
    assert_eq!(plan.inserts.len(), 4);
    assert_eq!(plan.schema.column_names_joined_by_commas(), "c, b, a");
    assert_eq!(plan.inserts[3], "INSERT INTO data (c, b, a) VALUES ('10', '11', '12')");
}

#[test]
fn planning_twice_gives_the_same_statements() {
    let bytes = b"k,v\n1,one\n2,two\n";
    let first = plan_of(bytes);
    let second = plan_of(bytes);
    assert_eq!(first.provisioning, second.provisioning);
    assert_eq!(first.inserts, second.inserts);
    assert_eq!(first.provisioning[0], "DROP TABLE IF EXISTS data");
}

#[test]
fn quoted_fields_are_read_as_one_field() {
    let plan = plan_of(b"a,b\n\"x,y\",z\n");
    assert_eq!(plan.inserts[0], "INSERT INTO data (a, b) VALUES ('x,y', 'z')");
}

#[test]
fn schema_keeps_duplicate_names() {
    let schema = Schema::from_record(&strings(&["a", "a"]));
    assert_eq!(schema.len(), 2);
    assert_eq!(
        schema.create_table_statement(),
        "CREATE TABLE data (a VARCHAR(256) NOT NULL, a VARCHAR(256) NOT NULL)"
    );
    assert_eq!(schema.insert_statement(&strings(&["1", "2"])), "INSERT INTO data (a, a) VALUES ('1', '2')");
    assert_eq!(Schema::drop_table_statement(), "DROP TABLE IF EXISTS data");
}

#[test]
fn barrier_reports_first_failure_after_all_finish() {
    let mut barrier: CompletionBarrier<String> = CompletionBarrier::new(3);
    assert!(!barrier.is_drained());
    barrier.record(Ok(()));
    barrier.record(Err("first".to_string()));
    assert!(!barrier.is_drained());
    barrier.record(Err("second".to_string()));
    assert!(barrier.is_drained());
    assert_eq!(barrier.finish(), Err("first".to_string()));
}

#[test]
fn barrier_succeeds_when_every_unit_succeeds() {
    let mut barrier: CompletionBarrier<String> = CompletionBarrier::new(2);
    barrier.record(Ok(()));
    barrier.record(Ok(()));
    assert!(barrier.is_drained());
    assert_eq!(barrier.finish(), Ok(()));
    let empty: CompletionBarrier<String> = CompletionBarrier::new(0);
    assert!(empty.is_drained());
    assert_eq!(empty.finish(), Ok(()));
}

#[test]
fn empty_result_writes_nothing() {
    let writer = ExportWriter::new();
    assert!(!writer.any_rows_written());
    let (out, any) = export_all(&[]);
    assert!(!any);
    assert!(out.is_empty());
}

#[test]
fn header_comes_from_result_column_names() {
    let (out, _) = export_all(&[text_row(&["total"], &["3"])]);
    assert_eq!(String::from_utf8(out).unwrap(), "total\n3\n");
}

#[test]
fn export_round_trips_through_the_reader() {
    let rows = [
        text_row(&["who", "said"], &["ann", "hi, \"you\""]),
        text_row(&["who", "said"], &["bo", "line\nbreak"]),
    ];
    let (out, _) = export_all(&rows);
    let mut reader = csv::Reader::from_reader(out.as_slice());
    let header: Vec<String> = reader.headers().unwrap().iter().map(String::from).collect();
    assert_eq!(header, strings(&["who", "said"]));
    let records: Vec<Vec<String>> =
        reader.records().map(|r| r.unwrap().iter().map(String::from).collect()).collect();
    assert_eq!(records, vec![strings(&["ann", "hi, \"you\""]), strings(&["bo", "line\nbreak"])]);
}

#[test]
fn undecodable_cell_stops_the_row() {
    let row = ResultRow {
        column_names: strings(&["a", "b", "c"]),
        cells: vec![text_cell("x"), empty_cell(), text_cell("z")],
    };
    let mut writer = ExportWriter::new();
    assert_eq!(writer.write_row(&row), Err(ExportError::Decode { column: 1 }));
    assert!(!writer.any_rows_written());
    assert_eq!(decode_row(&row.cells), Err(ExportError::Decode { column: 1 }));
}

#[test]
fn decode_precedence() {
    let mut cell = empty_cell();
    cell.int4 = Some(7);
    cell.int8 = Some(8);
    assert_eq!(decode_cell(&cell), Some("7".to_string()));
    cell.text = Some("007".to_string());
    assert_eq!(decode_cell(&cell), Some("007".to_string()));
    let mut cell = empty_cell();
    cell.int8 = Some(i64::MIN);
    cell.float8 = Some("1.5".to_string());
    assert_eq!(decode_cell(&cell), Some("-9223372036854775808".to_string()));
    let mut cell = empty_cell();
    cell.float4 = Some("2.5".to_string());
    cell.float8 = Some("3.5".to_string());
    assert_eq!(decode_cell(&cell), Some("2.5".to_string()));
    let mut cell = empty_cell();
    cell.float8 = Some("3.5".to_string());
    cell.decimal = Some(DecimalValue { mantissa: 1, scale: 0 });
    assert_eq!(decode_cell(&cell), Some("3.5".to_string()));
    assert_eq!(decode_cell(&empty_cell()), None);
}

#[test]
fn decimals_render_canonically() {
    let mut cell = empty_cell();
    cell.decimal = Some(DecimalValue { mantissa: 12345, scale: 2 });
    assert_eq!(decode_cell(&cell), Some("123.45".to_string()));
    cell.decimal = Some(DecimalValue { mantissa: -5, scale: 3 });
    assert_eq!(decode_cell(&cell), Some("-0.005".to_string()));
    cell.decimal = Some(DecimalValue { mantissa: 100, scale: 2 });
    assert_eq!(decode_cell(&cell), Some("1.00".to_string()));
    cell.decimal = Some(DecimalValue { mantissa: 0, scale: 2 });
    assert_eq!(decode_cell(&cell), Some("0.00".to_string()));
    cell.decimal = Some(DecimalValue { mantissa: 0, scale: 0 });
    assert_eq!(decode_cell(&cell), Some("0".to_string()));
    cell.decimal = Some(DecimalValue { mantissa: -70, scale: 0 });
    assert_eq!(decode_cell(&cell), Some("-70".to_string()));
    cell.decimal = Some(DecimalValue { mantissa: 1, scale: 29 });
    assert_eq!(decode_cell(&cell), None);
}

#[test]
fn integers_render_in_decimal() {
    assert_eq!(integer_text(0), "0");
    assert_eq!(integer_text(7), "7");
    assert_eq!(integer_text(-42), "-42");
    assert_eq!(integer_text(1234567890), "1234567890");
    assert_eq!(integer_text(i64::MAX), "9223372036854775807");
    let mut cell = empty_cell();
    cell.int4 = Some(i32::MIN);
    assert_eq!(decode_cell(&cell), Some("-2147483648".to_string()));
}

#[test]
fn join_with_separator() {
    assert_eq!(join_with(&strings(&[]), ", "), "");
    assert_eq!(join_with(&strings(&["a"]), ", "), "a");
    assert_eq!(join_with(&strings(&["a", "b", "c"]), ", "), "a, b, c");
}

#[test]
fn existing_destination_is_refused() {
    assert_eq!(choose_target("csv", "/d/in.csv", true), Err(TargetError::DestinationExists));
    assert_eq!(
        choose_target("csv", "/d/in.csv", false),
        Ok(ExportTarget::File("/d/in.csv.data-sifter-output.csv".to_string()))
    );
    assert_eq!(output_path("x"), "x.data-sifter-output.csv");
}

#[test]
fn show_and_invalid_choices() {
    assert_eq!(choose_target("show", "/d/in.csv", true), Ok(ExportTarget::Console));
    assert_eq!(
        choose_target("print", "/d/in.csv", false),
        Err(TargetError::InvalidOption("print".to_string()))
    );
}

#[test]
fn console_prompt_and_output() {
    let mut io = IO::new();
    io.write_output("hello");
    io.prompt("Enter SQL query");
    assert_eq!(io.reply("SELECT 1\n"), "SELECT 1");
    io.prompt("again");
    assert_eq!(io.reply(""), "");
    assert_eq!(io.take_output(), "hello\nEnter SQL query\nagain\n");
    assert_eq!(io.take_output(), "");
}
