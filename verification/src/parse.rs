//! The parsing boundary: one trusted call that parses the dataset text as
//! JSON and reduces each record to the two fields the projection reads.

use vstd::prelude::*;
use crate::model::{FieldVal, RawRecord, RecordView, records_view};

verus! {

/// What a dataset text parses and decodes to: `Err(m)` with the parser's
/// message `m` when the text is not valid JSON; otherwise `Ok` with one
/// decoded record per element of the top-level array, in order (and no
/// records at all when the top-level value is not an array).
pub uninterp spec fn parsed_dataset(text: Seq<char>) -> Result<Seq<RecordView>, Seq<char>>;

/// Relies on `serde_json::from_str` and `serde_json::Value::{get, as_str,
/// as_array, as_i64}`: parsing is a function of the text alone; `get` finds
/// a key's value in an object and nothing otherwise; `as_str` and
/// `as_array` accept exactly the string and array values; `as_i64` accepts
/// exactly the numbers that are integers representable in `i64`.
#[verifier::external_body]
pub(crate) fn parse_dataset(text: &str) -> (r: Result<Vec<RawRecord>, String>)
    ensures
        (r matches Ok(ds) ==> parsed_dataset(text@) == Ok::<Seq<RecordView>, Seq<char>>(
            records_view(ds@),
        )),
        (r matches Err(m) ==> parsed_dataset(text@) == Err::<Seq<RecordView>, Seq<char>>(m@)),
{
    let doc: serde_json::Value = match serde_json::from_str(text) {
        Ok(v) => v,
        Err(e) => return Err(format!("{}", e)),
    };
    let none = Vec::new();
    let arr = doc.as_array().unwrap_or(&none);
    Ok(arr.iter().map(|u| RawRecord {
        name: u.get("name").and_then(|f| f.as_str()).map_or(FieldVal::Other, |s| FieldVal::Str(s.to_owned())),
        points: u.get("points").and_then(|f| f.as_array()).map_or(FieldVal::Other, |es| FieldVal::Arr(es.iter().map(|e| e.as_i64()).collect())),
    }).collect())
}

} // verus!
