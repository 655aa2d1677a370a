//! The lookup service: list every projected unit, and find the first record
//! whose (projected) name equals a query exactly, case-sensitively.

use vstd::prelude::*;
use crate::model::{
    RawRecord, RecordView, SimpleUnit, UnitView, proj_name, project, project_all, project_record,
    records_view, units_view,
};
use crate::parse::{parse_dataset, parsed_dataset};

verus! {

/// A record matches a query exactly when its projected name equals the
/// query, character for character: a string `name` field must equal the
/// query, and any other `name` field matches only the empty query.
pub open spec fn record_matches(r: RecordView, n: Seq<char>) -> bool {
    proj_name(r.name) == n
}

/// Position `i` holds the first match for `n`: it matches, and no earlier
/// position does.
pub open spec fn is_first_match_at(rs: Seq<RecordView>, n: Seq<char>, i: int) -> bool {
    &&& 0 <= i < rs.len()
    &&& record_matches(rs[i], n)
    &&& forall|j: int| 0 <= j < i ==> !record_matches(rs[j], n)
}

/// The projection of the first record matching `n`, if any record matches.
pub open spec fn found_unit(rs: Seq<RecordView>, n: Seq<char>) -> Option<UnitView> {
    if exists|i: int| is_first_match_at(rs, n, i) {
        Some(project_record(rs[choose|i: int| is_first_match_at(rs, n, i)]))
    } else {
        None
    }
}

/// At most one position holds the first match.
pub proof fn lemma_first_match_unique(rs: Seq<RecordView>, n: Seq<char>, i1: int, i2: int)
    requires
        is_first_match_at(rs, n, i1),
        is_first_match_at(rs, n, i2),
    ensures
        i1 == i2,
{
    if i1 < i2 {
        assert(!record_matches(rs[i1], n));
    } else if i2 < i1 {
        assert(!record_matches(rs[i2], n));
    }
}

/// Wherever some record matches, a first match exists.
pub proof fn lemma_some_match_has_first(rs: Seq<RecordView>, n: Seq<char>, k: int)
    requires
        0 <= k < rs.len(),
        record_matches(rs[k], n),
    ensures
        exists|i: int| is_first_match_at(rs, n, i),
    decreases k,
{
    if forall|j: int| 0 <= j < k ==> !record_matches(rs[j], n) {
        assert(is_first_match_at(rs, n, k));
    } else {
        let j = choose|j: int| 0 <= j < k && record_matches(rs[j], n);
        lemma_some_match_has_first(rs, n, j);
    }
}

/// A unit is found for `n` exactly when some record matches `n`; the found
/// unit is the projection of the first matching record, in dataset order.
pub proof fn lemma_found_unit_is_first_match(rs: Seq<RecordView>, n: Seq<char>)
    ensures
        (found_unit(rs, n) is Some) <==> (exists|k: int|
            0 <= k < rs.len() && record_matches(rs[k], n)),
        found_unit(rs, n) matches Some(u) ==> exists|i: int|
            is_first_match_at(rs, n, i) && u == project_record(rs[i]),
{
    if exists|k: int| 0 <= k < rs.len() && record_matches(rs[k], n) {
        let k = choose|k: int| 0 <= k < rs.len() && record_matches(rs[k], n);
        lemma_some_match_has_first(rs, n, k);
        let i = choose|i: int| is_first_match_at(rs, n, i);
        assert(is_first_match_at(rs, n, i));
    }
    if found_unit(rs, n) is Some {
        let i = choose|i: int| is_first_match_at(rs, n, i);
        assert(is_first_match_at(rs, n, i));
    }
}

/// Scan the records in order and return the projection of the first one
/// whose projected name equals `name`, if any.
pub fn find_unit(records: &Vec<RawRecord>, name: &str) -> (r: Option<SimpleUnit>)
    ensures
        (r matches Some(u) ==> found_unit(records_view(records@), name@) == Some(u@)),
        (r is None ==> found_unit(records_view(records@), name@) is None),
{
    let ghost rs = records_view(records@);
    let query: String = name.to_owned();
    let mut i: usize = 0;
    while i < records.len()
        invariant
            i <= records.len(),
            query@ == name@,
            rs == records_view(records@),
            forall|j: int| 0 <= j < i ==> !record_matches(rs[j], name@),
        decreases records.len() - i,
    {
        let u = project(&records[i]);
        if u.name.eq(&query) {
            proof {
                assert(record_matches(rs[i as int], name@));
                assert(is_first_match_at(rs, name@, i as int));
                let w = choose|w: int| is_first_match_at(rs, name@, w);
                lemma_first_match_unique(rs, name@, w, i as int);
            }
            return Some(u);
        }
        proof {
            assert(u@.name == proj_name(rs[i as int].name));
            assert(!record_matches(rs[i as int], name@));
        }
        i += 1;
    }
    proof {
        if exists|w: int| is_first_match_at(rs, name@, w) {
            let w = choose|w: int| is_first_match_at(rs, name@, w);
            assert(record_matches(rs[w], name@));
        }
    }
    None
}

/// Why a unit could not be produced for a query: the dataset text could not
/// be read as JSON (with the parser's message), or no record matched.
#[derive(Debug)]
pub enum LookupError {
    LoadFailure(String),
    NotFound,
}

/// Parse the dataset text and project every record of it, in order.
pub fn units_from_text(text: &str) -> (r: Result<Vec<SimpleUnit>, String>)
    ensures
        (r matches Err(m) ==> parsed_dataset(text@) == Err::<Seq<RecordView>, Seq<char>>(m@)),
        (r matches Ok(us) ==> (parsed_dataset(text@) matches Ok(rs) && units_view(us@)
            == project_all(rs) && us@.len() == rs.len() && (forall|i: int|
            0 <= i < rs.len() ==> us@[i]@ == project_record(rs[i])))),
        (r is Ok <==> parsed_dataset(text@) is Ok),
{
    match parse_dataset(text) {
        Err(m) => Err(m),
        Ok(records) => {
            let us = crate::model::project_dataset(&records);
            proof {
                let rs = records_view(records@);
                assert(units_view(us@).len() == us@.len());
                assert(project_all(rs).len() == rs.len());
                assert forall|i: int| 0 <= i < rs.len() implies us@[i]@ == project_record(
                    rs[i],
                ) by {
                    assert(units_view(us@)[i] == us@[i]@);
                    assert(project_all(rs)[i] == project_record(rs[i]));
                }
            }
            Ok(us)
        },
    }
}

/// Parse the dataset text and find the first record whose projected name
/// equals `name`; distinguish a text that cannot be parsed from a query
/// that matches no record.
pub fn find_unit_from_text(text: &str, name: &str) -> (r: Result<SimpleUnit, LookupError>)
    ensures
        (r matches Ok(u) ==> (parsed_dataset(text@) matches Ok(rs) && found_unit(rs, name@)
            == Some(u@))),
        (r matches Err(LookupError::LoadFailure(m)) ==> parsed_dataset(text@)
            == Err::<Seq<RecordView>, Seq<char>>(m@)),
        (r matches Err(LookupError::NotFound) ==> (parsed_dataset(text@) matches Ok(rs)
            && found_unit(rs, name@) is None)),
        (parsed_dataset(text@) matches Ok(rs) ==> (r is Ok <==> found_unit(rs, name@) is Some)),
        (parsed_dataset(text@) is Err ==> (r matches Err(e) && e is LoadFailure)),
{
    match parse_dataset(text) {
        Err(m) => Err(LookupError::LoadFailure(m)),
        Ok(records) => match find_unit(&records, name) {
            Some(u) => Ok(u),
            None => Err(LookupError::NotFound),
        },
    }
}

} // verus!
