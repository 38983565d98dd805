//! Mapping of consumption and rate records to time-series points.
//!
//! Every record maps to exactly one point; nothing is dropped or merged.
//! A consumption point is tagged with the meter kind, the meter-point
//! identifier and the meter serial; a rate point is tagged with the product
//! and tariff codes. The measured value is carried into the point's single
//! field unchanged.

use vstd::prelude::*;
use crate::MeterKind;
use crate::model::{ConsumptionRecord, NumericValue, RateRecord};

verus! {

/// One time-series point: a measurement name, a timestamp (nanoseconds
/// since the Unix epoch), indexing tags, and measured fields.
pub struct TimeSeriesPoint {
    pub measurement: String,
    pub timestamp: i64,
    pub tags: Vec<(String, String)>,
    pub fields: Vec<(String, NumericValue)>,
}

/// The mathematical value of a point.
#[verifier::ext_equal]
pub ghost struct PointView {
    pub measurement: Seq<char>,
    pub timestamp: int,
    pub tags: Seq<(Seq<char>, Seq<char>)>,
    pub fields: Seq<(Seq<char>, NumericValue)>,
}

impl View for TimeSeriesPoint {
    type V = PointView;

    open spec fn view(&self) -> PointView {
        PointView {
            measurement: self.measurement@,
            timestamp: self.timestamp as int,
            tags: self.tags@.map_values(|kv: (String, String)| (kv.0@, kv.1@)),
            fields: self.fields@.map_values(|kv: (String, NumericValue)| (kv.0@, kv.1)),
        }
    }
}

/// What identifies a point in the store: its timestamp together with its
/// tag set.
pub open spec fn point_identity(p: PointView) -> (int, Seq<(Seq<char>, Seq<char>)>) {
    (p.timestamp, p.tags)
}

/// The first value held by the field named `key`, if any.
pub open spec fn field_value(fields: Seq<(Seq<char>, NumericValue)>, key: Seq<char>) -> Option<
    NumericValue,
>
    decreases fields.len(),
{
    if fields.len() == 0 {
        None
    } else if fields[0].0 == key {
        Some(fields[0].1)
    } else {
        field_value(fields.drop_first(), key)
    }
}

/// The point a consumption record maps to.
pub open spec fn spec_map_consumption(
    measurement: Seq<char>,
    kind: MeterKind,
    mpxn: Seq<char>,
    serial: Seq<char>,
    record: ConsumptionRecord,
) -> PointView {
    PointView {
        measurement: measurement,
        timestamp: record.interval_start as int,
        tags: seq![
            ("meter_type"@, kind.spec_label()),
            ("mpxn"@, mpxn),
            ("serial"@, serial),
        ],
        fields: seq![("consumption"@, record.consumption)],
    }
}

/// The point a rate record maps to.
pub open spec fn spec_map_rate(
    measurement: Seq<char>,
    product_code: Seq<char>,
    tariff_code: Seq<char>,
    record: RateRecord,
) -> PointView {
    PointView {
        measurement: measurement,
        timestamp: record.valid_from as int,
        tags: seq![("product_code"@, product_code), ("tariff_code"@, tariff_code)],
        fields: seq![("rate"@, record.value_inc_vat)],
    }
}

/// Maps one consumption record to its point.
pub fn map_consumption(
    measurement: &str,
    kind: MeterKind,
    mpxn: &str,
    serial: &str,
    record: &ConsumptionRecord,
) -> (p: TimeSeriesPoint)
    ensures
        p@ == spec_map_consumption(measurement@, kind, mpxn@, serial@, *record),
{
    let mut tags: Vec<(String, String)> = Vec::new();
    tags.push(("meter_type".to_owned(), kind.label()));
    tags.push(("mpxn".to_owned(), mpxn.to_owned()));
    tags.push(("serial".to_owned(), serial.to_owned()));
    let mut fields: Vec<(String, NumericValue)> = Vec::new();
    fields.push(("consumption".to_owned(), record.consumption));
    let p = TimeSeriesPoint {
        measurement: measurement.to_owned(),
        timestamp: record.interval_start,
        tags,
        fields,
    };
    proof {
        assert(p@ =~~= spec_map_consumption(measurement@, kind, mpxn@, serial@, *record));
    }
    p
}

/// Maps one rate record to its point.
pub fn map_rate(
    measurement: &str,
    product_code: &str,
    tariff_code: &str,
    record: &RateRecord,
) -> (p: TimeSeriesPoint)
    ensures
        p@ == spec_map_rate(measurement@, product_code@, tariff_code@, *record),
{
    let mut tags: Vec<(String, String)> = Vec::new();
    tags.push(("product_code".to_owned(), product_code.to_owned()));
    tags.push(("tariff_code".to_owned(), tariff_code.to_owned()));
    let mut fields: Vec<(String, NumericValue)> = Vec::new();
    fields.push(("rate".to_owned(), record.value_inc_vat));
    let p = TimeSeriesPoint {
        measurement: measurement.to_owned(),
        timestamp: record.valid_from,
        tags,
        fields,
    };
    proof {
        assert(p@ =~~= spec_map_rate(measurement@, product_code@, tariff_code@, *record));
    }
    p
}

/// Maps every record of a consumption page to a point, in order: one point
/// per record, none dropped, none merged.
pub fn map_consumption_page(
    measurement: &str,
    kind: MeterKind,
    mpxn: &str,
    serial: &str,
    records: &Vec<ConsumptionRecord>,
) -> (points: Vec<TimeSeriesPoint>)
    ensures
        points@.len() == records@.len(),
        forall|i: int|
            0 <= i < records@.len() ==> points@[i]@ == spec_map_consumption(
                measurement@,
                kind,
                mpxn@,
                serial@,
                records@[i],
            ),
{
    let mut points: Vec<TimeSeriesPoint> = Vec::new();
    let mut i: usize = 0;
    while i < records.len()
        invariant
            i <= records@.len(),
            points@.len() == i,
            forall|j: int|
                0 <= j < i ==> points@[j]@ == spec_map_consumption(
                    measurement@,
                    kind,
                    mpxn@,
                    serial@,
                    records@[j],
                ),
        decreases records@.len() - i,
    {
        let p = map_consumption(measurement, kind, mpxn, serial, &records[i]);
        points.push(p);
        i = i + 1;
    }
    points
}

/// Maps every record of a rate page to a point, in order: one point per
/// record, none dropped, none merged.
pub fn map_rate_page(
    measurement: &str,
    product_code: &str,
    tariff_code: &str,
    records: &Vec<RateRecord>,
) -> (points: Vec<TimeSeriesPoint>)
    ensures
        points@.len() == records@.len(),
        forall|i: int|
            0 <= i < records@.len() ==> points@[i]@ == spec_map_rate(
                measurement@,
                product_code@,
                tariff_code@,
                records@[i],
            ),
{
    let mut points: Vec<TimeSeriesPoint> = Vec::new();
    let mut i: usize = 0;
    while i < records.len()
        invariant
            i <= records@.len(),
            points@.len() == i,
            forall|j: int|
                0 <= j < i ==> points@[j]@ == spec_map_rate(
                    measurement@,
                    product_code@,
                    tariff_code@,
                    records@[j],
                ),
        decreases records@.len() - i,
    {
        let p = map_rate(measurement, product_code, tariff_code, &records[i]);
        points.push(p);
        i = i + 1;
    }
    points
}

/// Mapping consumption records is injective on point identity: two inputs
/// that map to points with the same timestamp and tags agree on the meter
/// kind, the meter-point identifier, the serial and the interval start.
pub proof fn lemma_map_consumption_injective(
    measurement: Seq<char>,
    k1: MeterKind,
    m1: Seq<char>,
    s1: Seq<char>,
    r1: ConsumptionRecord,
    k2: MeterKind,
    m2: Seq<char>,
    s2: Seq<char>,
    r2: ConsumptionRecord,
)
    requires
        point_identity(spec_map_consumption(measurement, k1, m1, s1, r1)) == point_identity(
            spec_map_consumption(measurement, k2, m2, s2, r2),
        ),
    ensures
        k1 == k2,
        m1 == m2,
        s1 == s2,
        r1.interval_start == r2.interval_start,
{
    let t1 = spec_map_consumption(measurement, k1, m1, s1, r1).tags;
    let t2 = spec_map_consumption(measurement, k2, m2, s2, r2).tags;
    assert(t1[0] == t2[0]);
    assert(t1[1] == t2[1]);
    assert(t1[2] == t2[2]);
    crate::lemma_label_injective(k1, k2);
}

/// Round trip: the point a consumption record maps to carries the record's
/// timestamp, and looking its `consumption` field back up yields the
/// record's value exactly.
pub proof fn lemma_consumption_round_trip(
    measurement: Seq<char>,
    kind: MeterKind,
    mpxn: Seq<char>,
    serial: Seq<char>,
    record: ConsumptionRecord,
)
    ensures
        spec_map_consumption(measurement, kind, mpxn, serial, record).timestamp
            == record.interval_start,
        field_value(spec_map_consumption(measurement, kind, mpxn, serial, record).fields, "consumption"@)
            == Some(record.consumption),
{
    let fields = spec_map_consumption(measurement, kind, mpxn, serial, record).fields;
    assert(fields[0].0 == "consumption"@);
    assert(field_value(fields, "consumption"@) == Some(record.consumption));
}

/// Round trip: the point a rate record maps to carries the record's
/// timestamp, and looking its `rate` field back up yields the record's
/// value exactly.
pub proof fn lemma_rate_round_trip(
    measurement: Seq<char>,
    product_code: Seq<char>,
    tariff_code: Seq<char>,
    record: RateRecord,
)
    ensures
        spec_map_rate(measurement, product_code, tariff_code, record).timestamp
            == record.valid_from,
        field_value(spec_map_rate(measurement, product_code, tariff_code, record).fields, "rate"@)
            == Some(record.value_inc_vat),
{
    let fields = spec_map_rate(measurement, product_code, tariff_code, record).fields;
    assert(fields[0].0 == "rate"@);
    assert(field_value(fields, "rate"@) == Some(record.value_inc_vat));
}

} // verus!
