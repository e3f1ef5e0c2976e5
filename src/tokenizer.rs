//! The row tokenizer: delimited text to rows of fields.
use vstd::prelude::*;

use crate::error::ImportError;
use crate::fields::rows_view;

verus! {

#[verifier::external_type_specification]
#[verifier::external_body]
pub struct ExCsvError(csv::Error);

/// The rows that the csv crate reads from `text` under standard quoting rules,
/// after the header row when `has_headers` holds, each as its fields in column
/// order; `None` when the text cannot be read as delimited rows.
pub uninterp spec fn csv_records(text: Seq<char>, has_headers: bool) -> Option<Seq<Seq<Seq<char>>>>;

/// Relies on csv::ReaderBuilder (set flexible, so rows may differ in length)
/// and csv::Reader::records: every row of `data` in order, or the reader's
/// first error. The rows depend on the text and the header flag alone.
#[verifier::external_body]
fn read_csv_rows(data: &str, has_headers: bool) -> (r: Result<Vec<Vec<String>>, csv::Error>)
    ensures
        match r {
            Ok(rows) => csv_records(data@, has_headers) == Some(rows_view(rows@)),
            Err(_) => csv_records(data@, has_headers).is_none(),
        },
{
    let mut reader = csv::ReaderBuilder::new().has_headers(has_headers).flexible(true).from_reader(
        data.as_bytes(),
    );
    reader.records().map(|rec| rec.map(|fields| fields.iter().map(|f| f.to_string()).collect())).collect()
}

/// Splits `data` into rows of fields, skipping the first row when
/// `has_headers` holds. Rows may have any number of fields; only text that
/// cannot be read as delimited rows fails, with `MalformedInput`.
pub fn tokenize(data: &str, has_headers: bool) -> (r: Result<Vec<Vec<String>>, ImportError>)
    ensures
        match r {
            Ok(rows) => csv_records(data@, has_headers) == Some(rows_view(rows@)),
            Err(e) => e == ImportError::MalformedInput && csv_records(data@, has_headers).is_none(),
        },
{
    match read_csv_rows(data, has_headers) {
        Ok(rows) => Ok(rows),
        Err(_) => Err(ImportError::MalformedInput),
    }
}

} // verus!
