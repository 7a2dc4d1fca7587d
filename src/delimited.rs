//! Reading and writing delimited (comma-separated) text through the csv crate.
use vstd::prelude::*;
use crate::text::{record_views, views};

verus! {

#[verifier::external_type_specification]
#[verifier::external_body]
pub struct ExCsvError(csv::Error);

/// What the csv reader makes of `bytes`: the header record and the data
/// records, or `None` where the text is malformed.
pub uninterp spec fn delimited_table(bytes: Seq<u8>) -> Option<(Seq<Seq<char>>, Seq<Seq<Seq<char>>>)>;

/// The bytes with which the csv writer writes one record, line end included.
pub uninterp spec fn delimited_record(fields: Seq<Seq<char>>) -> Seq<u8>;

/// Relies on csv::ReaderBuilder with `flexible(true)`, then `Reader::headers`
/// and `Reader::records`: the first record is the header (empty on empty
/// input), the rest are data records of any length; the outcome depends on
/// the bytes alone.
#[verifier::external_body]
pub(crate) fn read_records(bytes: &[u8]) -> (r: Result<(Vec<String>, Vec<Vec<String>>), csv::Error>)
    ensures
        r is Ok <==> delimited_table(bytes@) is Some,
        r matches Ok(t) ==> delimited_table(bytes@) == Some(
            (views(t.0@), record_views(t.1@)),
        ),
{
    let mut reader = csv::ReaderBuilder::new().flexible(true).from_reader(bytes);
    let header: Vec<String> = reader.headers()?.iter().map(String::from).collect();
    let rows = reader
        .records()
        .map(|record| record.map(|record| record.iter().map(String::from).collect()))
        .collect::<Result<Vec<Vec<String>>, csv::Error>>()?;
    Ok((header, rows))
}

/// Relies on csv::Writer::write_record into a `Vec<u8>`, then
/// `Writer::into_inner`: the bytes of one record depend on its fields alone,
/// and a fresh writer into memory fails neither (errors come only from the
/// inner writer or from a field count unlike an earlier record's).
#[verifier::external_body]
pub(crate) fn write_record(fields: &Vec<String>) -> (r: Result<Vec<u8>, csv::Error>)
    ensures
        r is Ok,
        r matches Ok(b) ==> b@ == delimited_record(views(fields@)),
{
    let mut writer = csv::Writer::from_writer(Vec::new());
    writer.write_record(fields)?;
    writer.into_inner().map_err(|e| csv::Error::from(e.into_error()))
}

} // verus!
