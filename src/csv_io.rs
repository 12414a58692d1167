use vstd::prelude::*;

use crate::grid::Rows;

verus! {

/// The records, each a sequence of fields, that a CSV reader without a
/// header row finds in `bytes`; `None` where it reports an error.
pub uninterp spec fn csv_records(bytes: Seq<u8>) -> Option<Rows>;

/// The bytes that a CSV writer produces for `rows`, one record per row;
/// `None` where it reports an error.
pub uninterp spec fn csv_text(rows: Rows) -> Option<Seq<u8>>;

/// Relies on `csv::ReaderBuilder::from_reader` with `has_headers(false)` and
/// on `Reader::records`: every record of the input, first line included, in
/// order, or the first error met. The outcome depends on the bytes alone.
#[verifier::external_body]
pub(crate) fn read_records(bytes: &[u8]) -> (r: Result<Vec<Vec<String>>, String>)
    ensures
        r is Ok <==> csv_records(bytes@) is Some,
        r matches Ok(rows) ==> csv_records(bytes@) == Some(rows.deep_view()),
{
    let mut rdr = csv::ReaderBuilder::new().has_headers(false).from_reader(bytes);
    rdr.records()
        .map(|rec| rec.map(|fields| fields.iter().map(|f| f.to_string()).collect()))
        .collect::<Result<Vec<Vec<String>>, csv::Error>>()
        .map_err(|e| e.to_string())
}

/// Relies on `csv::Writer::write_record` (one call per row, in order) and
/// `Writer::into_inner`, writing into a `Vec<u8>`. The outcome depends on the
/// rows alone.
#[verifier::external_body]
pub(crate) fn write_records(rows: &Vec<Vec<String>>) -> (r: Option<Vec<u8>>)
    ensures
        r is Some <==> csv_text(rows.deep_view()) is Some,
        r matches Some(b) ==> csv_text(rows.deep_view()) == Some(b@),
{
    let mut wtr = csv::Writer::from_writer(Vec::new());
    for row in rows {
        wtr.write_record(row).ok()?;
    }
    wtr.into_inner().ok()
}

} // verus!
