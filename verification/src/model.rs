//! The data model: what one raw record holds in the two fields the
//! projection reads, and the simplified unit that the projection yields.

use vstd::prelude::*;

verus! {

/// What a raw record holds at one key, reduced to the shapes the
/// projection distinguishes: a JSON string, a JSON array whose elements are
/// kept as `Some(i)` when they are integers and `None` otherwise, or
/// anything else (the key is absent, or its value is of another JSON kind).
#[derive(Debug)]
pub enum FieldVal {
    Str(String),
    Arr(Vec<Option<i64>>),
    Other,
}

/// One record of the dataset, reduced to the two fields the projection reads.
#[derive(Debug)]
pub struct RawRecord {
    pub name: FieldVal,
    pub points: FieldVal,
}

/// A projected unit: the record's name (defaulted) and its integer points.
#[derive(Debug)]
pub struct SimpleUnit {
    pub name: String,
    pub points: Vec<i64>,
}

/// The mathematical value of a `FieldVal`.
pub ghost enum FieldView {
    Str(Seq<char>),
    Arr(Seq<Option<i64>>),
    Other,
}

/// The mathematical value of a `RawRecord`.
pub ghost struct RecordView {
    pub name: FieldView,
    pub points: FieldView,
}

/// The mathematical value of a `SimpleUnit`.
pub ghost struct UnitView {
    pub name: Seq<char>,
    pub points: Seq<i64>,
}

impl View for FieldVal {
    type V = FieldView;

    open spec fn view(&self) -> FieldView {
        match self {
            FieldVal::Str(s) => FieldView::Str(s@),
            FieldVal::Arr(es) => FieldView::Arr(es@),
            FieldVal::Other => FieldView::Other,
        }
    }
}

impl View for RawRecord {
    type V = RecordView;

    open spec fn view(&self) -> RecordView {
        RecordView { name: self.name@, points: self.points@ }
    }
}

impl View for SimpleUnit {
    type V = UnitView;

    open spec fn view(&self) -> UnitView {
        UnitView { name: self.name@, points: self.points@ }
    }
}

/// The mathematical values of a sequence of records.
pub open spec fn records_view(rs: Seq<RawRecord>) -> Seq<RecordView> {
    rs.map_values(|r: RawRecord| r@)
}

/// The mathematical values of a sequence of projected units.
pub open spec fn units_view(us: Seq<SimpleUnit>) -> Seq<UnitView> {
    us.map_values(|u: SimpleUnit| u@)
}

/// The projected name: the field's string when it is one, else empty.
pub open spec fn proj_name(f: FieldView) -> Seq<char> {
    match f {
        FieldView::Str(s) => s,
        _ => Seq::<char>::empty(),
    }
}

/// The integer elements of an array field, in their original order;
/// non-integer elements are dropped.
pub open spec fn kept_ints(es: Seq<Option<i64>>) -> Seq<i64>
    decreases es.len(),
{
    if es.len() == 0 {
        Seq::<i64>::empty()
    } else {
        kept_ints(es.drop_last()) + match es.last() {
            Some(i) => seq![i],
            None => Seq::<i64>::empty(),
        }
    }
}

/// The projected points: the integer elements when the field is an array,
/// else the empty sequence.
pub open spec fn proj_points(f: FieldView) -> Seq<i64> {
    match f {
        FieldView::Arr(es) => kept_ints(es),
        _ => Seq::<i64>::empty(),
    }
}

/// The projection of one record.
pub open spec fn project_record(r: RecordView) -> UnitView {
    UnitView { name: proj_name(r.name), points: proj_points(r.points) }
}

/// The projection of a whole dataset, in order.
pub open spec fn project_all(rs: Seq<RecordView>) -> Seq<UnitView> {
    rs.map_values(|r: RecordView| project_record(r))
}

/// A record whose `name` field is anything but a string projects to the
/// empty name.
pub proof fn lemma_name_defaults_when_not_string(r: RecordView)
    requires
        !(r.name is Str),
    ensures
        project_record(r).name == Seq::<char>::empty(),
{
}

/// `kept_ints` is exactly the standard filtering of an array's elements:
/// the integer elements survive, in their original order, and nothing else.
pub proof fn lemma_kept_ints_is_filter_map(es: Seq<Option<i64>>)
    ensures
        kept_ints(es) == es.filter_map(|e: Option<i64>| e),
    decreases es.len(),
{
    if es.len() > 0 {
        lemma_kept_ints_is_filter_map(es.drop_last());
        assert(kept_ints(es.drop_last()) + Seq::<i64>::empty() =~= kept_ints(es.drop_last()));
    }
}

/// A record whose `points` field is anything but an array projects to the
/// empty points sequence, and an array field projects to exactly its
/// integer elements, in their original order.
pub proof fn lemma_points_projection(r: RecordView)
    ensures
        !(r.points is Arr) ==> project_record(r).points == Seq::<i64>::empty(),
        r.points matches FieldView::Arr(es) ==> project_record(r).points == kept_ints(es)
            && project_record(r).points == es.filter_map(|e: Option<i64>| e),
{
    if r.points is Arr {
        lemma_kept_ints_is_filter_map(r.points->Arr_0);
    }
}

/// Extending an array by one element extends its kept integers by that
/// element when it is an integer, and by nothing otherwise.
pub proof fn lemma_kept_ints_step(es: Seq<Option<i64>>, i: int)
    requires
        0 <= i < es.len(),
    ensures
        es[i] matches Some(p) ==> kept_ints(es.take(i + 1)) == kept_ints(es.take(i)) + seq![p],
        es[i] is None ==> kept_ints(es.take(i + 1)) == kept_ints(es.take(i)),
{
    assert(es.take(i + 1).drop_last() =~= es.take(i));
    assert(es.take(i + 1).last() == es[i]);
    assert(kept_ints(es.take(i)) + Seq::<i64>::empty() =~= kept_ints(es.take(i)));
}

/// The projection of one record, as executable code.
pub fn project(r: &RawRecord) -> (u: SimpleUnit)
    ensures
        u@ == project_record(r@),
{
    let name: String = match &r.name {
        FieldVal::Str(s) => s.clone(),
        _ => String::new(),
    };
    let mut points: Vec<i64> = Vec::new();
    match &r.points {
        FieldVal::Arr(es) => {
            let mut i: usize = 0;
            while i < es.len()
                invariant
                    i <= es.len(),
                    points@ == kept_ints(es@.take(i as int)),
                decreases es.len() - i,
            {
                proof {
                    lemma_kept_ints_step(es@, i as int);
                }
                match es[i] {
                    Some(p) => points.push(p),
                    None => (),
                }
                i += 1;
            }
            assert(es@.take(es@.len() as int) =~= es@);
        },
        _ => (),
    }
    let u = SimpleUnit { name, points };
    assert(u@.points =~= project_record(r@).points);
    assert(u@.name =~= project_record(r@).name);
    u
}

/// The projection of every record of a dataset, in order.
pub fn project_dataset(records: &Vec<RawRecord>) -> (us: Vec<SimpleUnit>)
    ensures
        units_view(us@) == project_all(records_view(records@)),
{
    let mut us: Vec<SimpleUnit> = Vec::new();
    let mut i: usize = 0;
    while i < records.len()
        invariant
            i <= records.len(),
            us@.len() == i,
            forall|j: int| 0 <= j < i ==> us@[j]@ == project_record(records@[j]@),
        decreases records.len() - i,
    {
        us.push(project(&records[i]));
        i += 1;
    }
    proof {
        assert(units_view(us@) =~= project_all(records_view(records@)));
    }
    us
}

} // verus!

