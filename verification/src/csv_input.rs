//! Splitting CSV bytes into records, through the csv crate.
use vstd::prelude::*;

verus! {

/// The records a CSV byte source holds: `None` when some record cannot be
/// delimited, otherwise every record as its sequence of fields, the header
/// record included. Names the outcome of the csv crate's reader under the
/// fixed convention (comma-delimited, RFC 4180 quoting), which depends on
/// the bytes alone.
pub uninterp spec fn csv_parse(b: Seq<u8>) -> Option<Seq<Seq<Seq<char>>>>;

/// Relies on `csv::ReaderBuilder` and `csv::Reader::records`: splits the
/// bytes into comma-delimited, RFC 4180-quoted records, the first record
/// treated like any other, and fails exactly when some record cannot be
/// delimited.
#[verifier::external_body]
pub(crate) fn parse_csv_records(input: &[u8]) -> (r: Option<Vec<Vec<String>>>)
    ensures
        r.deep_view() == csv_parse(input@),
{
    let mut reader = csv::ReaderBuilder::new().has_headers(false).from_reader(input);
    let mut out: Vec<Vec<String>> = Vec::new();
    for record in reader.records() {
        match record {
            Ok(rec) => out.push(rec.iter().map(|field| field.to_string()).collect()),
            Err(_) => return None,
        }
    }
    Some(out)
}

} // verus!
