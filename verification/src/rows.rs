//! The output side of the conversion: one structured row per label
//! combination of a metric group, shaped by the metric's kind.
//!
//! Counter, gauge and untyped groups share one flat shape; histograms add a
//! nested bucket sequence plus sum and count; summaries add a nested quantile
//! sequence plus sum and count. Cumulative counts are re-exposed as signed
//! 64-bit integers (a count above the signed range wraps to a negative
//! value, which is accepted here); every floating-point field keeps the bit
//! pattern it arrived with.

use vstd::prelude::*;
use crate::metrics::{HistogramBucket, Label, LabelV, SummaryQuantile, labels_view};

verus! {

/// The three metric kinds whose rows share the flat name/type/tags/value shape.
#[derive(Clone, Copy, Debug, PartialEq, Eq, Structural)]
pub enum SimpleKind {
    Counter,
    Gauge,
    Untyped,
}

/// One output row, shaped by the kind of the group it came from.
///
/// `tags` holds one entry per label of the series' key, same names, same
/// string values, same order — no coercion is applied to label values.
#[derive(Debug, PartialEq)]
pub enum Row {
    Simple { kind: SimpleKind, name: String, tags: Vec<Label>, value_bits: u64 },
    Histogram {
        name: String,
        tags: Vec<Label>,
        buckets: Vec<HistogramBucket>,
        sum_bits: u64,
        count: i64,
    },
    Summary {
        name: String,
        tags: Vec<Label>,
        quantiles: Vec<SummaryQuantile>,
        sum_bits: u64,
        count: i64,
    },
}

/// Mathematical image of a `Row`.
pub enum RowV {
    Simple { kind: SimpleKind, name: Seq<char>, tags: Seq<LabelV>, value_bits: u64 },
    Histogram {
        name: Seq<char>,
        tags: Seq<LabelV>,
        buckets: Seq<HistogramBucket>,
        sum_bits: u64,
        count: i64,
    },
    Summary {
        name: Seq<char>,
        tags: Seq<LabelV>,
        quantiles: Seq<SummaryQuantile>,
        sum_bits: u64,
        count: i64,
    },
}

impl View for Row {
    type V = RowV;

    open spec fn view(&self) -> RowV {
        match self {
            Row::Simple { kind, name, tags, value_bits } => RowV::Simple {
                kind: *kind,
                name: name@,
                tags: labels_view(tags@),
                value_bits: *value_bits,
            },
            Row::Histogram { name, tags, buckets, sum_bits, count } => RowV::Histogram {
                name: name@,
                tags: labels_view(tags@),
                buckets: buckets@,
                sum_bits: *sum_bits,
                count: *count,
            },
            Row::Summary { name, tags, quantiles, sum_bits, count } => RowV::Summary {
                name: name@,
                tags: labels_view(tags@),
                quantiles: quantiles@,
                sum_bits: *sum_bits,
                count: *count,
            },
        }
    }
}

/// The images of a sequence of rows.
pub open spec fn rows_view(rows: Seq<Row>) -> Seq<RowV> {
    rows.map_values(|r: Row| r@)
}

/// The string that a row's `type` field carries, by kind.
pub open spec fn spec_kind_name(row: RowV) -> Seq<char> {
    match row {
        RowV::Simple { kind: SimpleKind::Counter, .. } => "Counter"@,
        RowV::Simple { kind: SimpleKind::Gauge, .. } => "Gauge"@,
        RowV::Simple { kind: SimpleKind::Untyped, .. } => "Untyped"@,
        RowV::Histogram { .. } => "Histogram"@,
        RowV::Summary { .. } => "Summary"@,
    }
}

/// The label combination a row was built from, as it appears in its `tags`.
pub open spec fn spec_row_tags(row: RowV) -> Seq<LabelV> {
    match row {
        RowV::Simple { tags, .. } => tags,
        RowV::Histogram { tags, .. } => tags,
        RowV::Summary { tags, .. } => tags,
    }
}

impl Row {
    /// The literal that fills this row's `type` field.
    pub fn kind_name(&self) -> (r: &'static str)
        ensures
            r@ == spec_kind_name(self@),
    {
        match self {
            Row::Simple { kind: SimpleKind::Counter, .. } => "Counter",
            Row::Simple { kind: SimpleKind::Gauge, .. } => "Gauge",
            Row::Simple { kind: SimpleKind::Untyped, .. } => "Untyped",
            Row::Histogram { .. } => "Histogram",
            Row::Summary { .. } => "Summary",
        }
    }
}

/// The column names of a counter, gauge or untyped row, in output order.
pub fn header() -> (r: Vec<String>)
    ensures
        r@.len() == 4,
        r@[0]@ == "name"@,
        r@[1]@ == "type"@,
        r@[2]@ == "tags"@,
        r@[3]@ == "value"@,
{
    let mut r: Vec<String> = Vec::new();
    r.push("name".to_owned());
    r.push("type".to_owned());
    r.push("tags".to_owned());
    r.push("value".to_owned());
    r
}

} // verus!
