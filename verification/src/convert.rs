//! The conversion itself: from the external parser's outcome to rows.
//!
//! The exposition text is parsed by an external collaborator that either
//! returns the metric groups or rejects the whole input with a diagnostic
//! message. This module accepts only textual host input, propagates the
//! parser's rejection verbatim, and — once groups are in hand — maps every
//! group to one row per label combination, concatenated in group order.
//! Row construction is total: an empty group yields zero rows, never an
//! error.

use vstd::prelude::*;
use crate::metrics::{
    GroupKey, GroupKind, GroupKindV, HistogramEntry, HistogramEntryV, Label, MetricGroup,
    MetricGroupV, SimpleEntry, SimpleEntryV, SummaryEntry, SummaryEntryV, groups_view,
    histogram_entries_view, labels_view, simple_entries_view, summary_entries_view,
};
use crate::rows::{Row, RowV, SimpleKind, rows_view};

verus! {

/// Why a conversion call failed; both kinds end the call with no rows.
#[derive(Debug)]
pub enum ConversionError {
    /// The host handed something other than text.
    InvalidInputType,
    /// The external parser rejected the text; its diagnostic is carried
    /// through word for word.
    ParseFailure(String),
}

/// The message a conversion error carries.
pub open spec fn spec_error_message(e: ConversionError) -> Seq<char> {
    match e {
        ConversionError::InvalidInputType => "Wrong input type"@,
        ConversionError::ParseFailure(m) => m@,
    }
}

impl ConversionError {
    /// The diagnostic text of this error, for the host to display.
    pub fn message(&self) -> (m: String)
        ensures
            m@ == spec_error_message(*self),
    {
        match self {
            ConversionError::InvalidInputType => "Wrong input type".to_owned(),
            ConversionError::ParseFailure(m) => m.clone(),
        }
    }
}

/// A host value offered as conversion input: either text, or anything else
/// (a number, a table, ...), which the conversion rejects unexamined.
pub enum InputValue {
    Text(String),
    NotText,
}

/// The row a simple (counter, gauge or untyped) entry maps to.
pub open spec fn spec_simple_row(kind: SimpleKind, name: Seq<char>, e: SimpleEntryV) -> RowV {
    RowV::Simple { kind, name, tags: e.key, value_bits: e.value_bits }
}

/// The rows of a whole counter, gauge or untyped group: one per entry,
/// in entry order.
pub open spec fn spec_simple_rows(
    kind: SimpleKind,
    name: Seq<char>,
    entries: Seq<SimpleEntryV>,
) -> Seq<RowV> {
    entries.map_values(|e: SimpleEntryV| spec_simple_row(kind, name, e))
}

/// The row a histogram entry maps to: buckets kept in order, the cumulative
/// count re-exposed as a signed 64-bit integer (wrapping above the signed
/// range).
pub open spec fn spec_histogram_row(name: Seq<char>, e: HistogramEntryV) -> RowV {
    RowV::Histogram {
        name,
        tags: e.key,
        buckets: e.buckets,
        sum_bits: e.sum_bits,
        count: e.count as i64,
    }
}

/// The rows of a whole histogram group, in entry order.
pub open spec fn spec_histogram_rows(name: Seq<char>, entries: Seq<HistogramEntryV>) -> Seq<
    RowV,
> {
    entries.map_values(|e: HistogramEntryV| spec_histogram_row(name, e))
}

/// The row a summary entry maps to: quantiles kept in order, the cumulative
/// count re-exposed as a signed 64-bit integer (wrapping above the signed
/// range).
pub open spec fn spec_summary_row(name: Seq<char>, e: SummaryEntryV) -> RowV {
    RowV::Summary {
        name,
        tags: e.key,
        quantiles: e.quantiles,
        sum_bits: e.sum_bits,
        count: e.count as i64,
    }
}

/// The rows of a whole summary group, in entry order.
pub open spec fn spec_summary_rows(name: Seq<char>, entries: Seq<SummaryEntryV>) -> Seq<RowV> {
    entries.map_values(|e: SummaryEntryV| spec_summary_row(name, e))
}

/// The rows of one metric group, shaped by its kind.
pub open spec fn spec_group_rows(g: MetricGroupV) -> Seq<RowV> {
    match g.metrics {
        GroupKindV::Counter(entries) => spec_simple_rows(SimpleKind::Counter, g.name, entries),
        GroupKindV::Gauge(entries) => spec_simple_rows(SimpleKind::Gauge, g.name, entries),
        GroupKindV::Histogram(entries) => spec_histogram_rows(g.name, entries),
        GroupKindV::Summary(entries) => spec_summary_rows(g.name, entries),
        GroupKindV::Untyped(entries) => spec_simple_rows(SimpleKind::Untyped, g.name, entries),
    }
}

/// The rows of a sequence of metric groups: each group's rows, concatenated
/// in group order.
pub open spec fn spec_rows(groups: Seq<MetricGroupV>) -> Seq<RowV>
    decreases groups.len(),
{
    if groups.len() == 0 {
        Seq::<RowV>::empty()
    } else {
        spec_group_rows(groups[0]) + spec_rows(groups.drop_first())
    }
}

/// Extending the groups by one appends exactly that group's rows.
pub proof fn lemma_spec_rows_push(groups: Seq<MetricGroupV>, g: MetricGroupV)
    ensures
        spec_rows(groups.push(g)) =~= spec_rows(groups) + spec_group_rows(g),
    decreases groups.len(),
{
    if groups.len() == 0 {
        assert(groups.push(g).drop_first() =~= Seq::<MetricGroupV>::empty());
        assert(groups =~= Seq::<MetricGroupV>::empty());
    } else {
        assert(groups.push(g).drop_first() =~= groups.drop_first().push(g));
        lemma_spec_rows_push(groups.drop_first(), g);
    }
}

/// Copies the labels of a series' key into the row's `tags`: same names,
/// same string values, same order.
pub fn get_tags(key: &GroupKey) -> (tags: Vec<Label>)
    ensures
        labels_view(tags@) == key@,
{
    let mut tags: Vec<Label> = Vec::new();
    let mut i: usize = 0;
    while i < key.labels.len()
        invariant
            i <= key.labels.len(),
            tags@.len() == i,
            forall|j: int| 0 <= j < i ==> tags@[j]@ == key.labels@[j]@,
        decreases key.labels.len() - i,
    {
        let l = &key.labels[i];
        tags.push(Label { name: l.name.clone(), value: l.value.clone() });
        i = i + 1;
    }
    assert(labels_view(tags@) =~= key@);
    tags
}

/// Converts the entries of a counter, gauge or untyped group into rows.
pub fn simple_to_values(kind: SimpleKind, entries: &Vec<SimpleEntry>, name: &String) -> (rows:
    Vec<Row>)
    ensures
        rows_view(rows@) == spec_simple_rows(kind, name@, simple_entries_view(entries@)),
{
    let mut rows: Vec<Row> = Vec::new();
    let mut i: usize = 0;
    while i < entries.len()
        invariant
            i <= entries.len(),
            rows@.len() == i,
            forall|j: int| 0 <= j < i ==> rows@[j]@ == spec_simple_row(
                kind,
                name@,
                entries@[j]@,
            ),
        decreases entries.len() - i,
    {
        let e = &entries[i];
        let tags = get_tags(&e.key);
        rows.push(
            Row::Simple { kind, name: name.clone(), tags, value_bits: e.metric.value_bits },
        );
        i = i + 1;
    }
    assert(rows_view(rows@) =~= spec_simple_rows(kind, name@, simple_entries_view(entries@)));
    rows
}

/// Converts the counters in a group into rows.
pub fn counter_to_values(entries: &Vec<SimpleEntry>, name: &String) -> (rows: Vec<Row>)
    ensures
        rows_view(rows@) == spec_simple_rows(
            SimpleKind::Counter,
            name@,
            simple_entries_view(entries@),
        ),
{
    simple_to_values(SimpleKind::Counter, entries, name)
}

/// Converts the gauges in a group into rows.
pub fn gauge_to_values(entries: &Vec<SimpleEntry>, name: &String) -> (rows: Vec<Row>)
    ensures
        rows_view(rows@) == spec_simple_rows(
            SimpleKind::Gauge,
            name@,
            simple_entries_view(entries@),
        ),
{
    simple_to_values(SimpleKind::Gauge, entries, name)
}

/// Converts the untyped samples in a group into rows.
pub fn untyped_to_values(entries: &Vec<SimpleEntry>, name: &String) -> (rows: Vec<Row>)
    ensures
        rows_view(rows@) == spec_simple_rows(
            SimpleKind::Untyped,
            name@,
            simple_entries_view(entries@),
        ),
{
    simple_to_values(SimpleKind::Untyped, entries, name)
}

/// Converts the histogram series in a group into rows.
pub fn histogram_to_values(entries: &Vec<HistogramEntry>, name: &String) -> (rows: Vec<Row>)
    ensures
        rows_view(rows@) == spec_histogram_rows(name@, histogram_entries_view(entries@)),
{
    let mut rows: Vec<Row> = Vec::new();
    let mut i: usize = 0;
    while i < entries.len()
        invariant
            i <= entries.len(),
            rows@.len() == i,
            forall|j: int| 0 <= j < i ==> rows@[j]@ == spec_histogram_row(name@, entries@[j]@),
        decreases entries.len() - i,
    {
        let e = &entries[i];
        let tags = get_tags(&e.key);
        let mut buckets = Vec::new();
        let mut k: usize = 0;
        while k < e.metric.buckets.len()
            invariant
                k <= e.metric.buckets.len(),
                buckets@ =~= e.metric.buckets@.take(k as int),
            decreases e.metric.buckets.len() - k,
        {
            buckets.push(e.metric.buckets[k]);
            k = k + 1;
        }
        assert(buckets@ =~= e.metric.buckets@);
        rows.push(
            Row::Histogram {
                name: name.clone(),
                tags,
                buckets,
                sum_bits: e.metric.sum_bits,
                count: #[verifier::truncate] (e.metric.count as i64),
            },
        );
        i = i + 1;
    }
    assert(rows_view(rows@) =~= spec_histogram_rows(name@, histogram_entries_view(entries@)));
    rows
}

/// Converts the summary series in a group into rows.
pub fn summary_to_values(entries: &Vec<SummaryEntry>, name: &String) -> (rows: Vec<Row>)
    ensures
        rows_view(rows@) == spec_summary_rows(name@, summary_entries_view(entries@)),
{
    let mut rows: Vec<Row> = Vec::new();
    let mut i: usize = 0;
    while i < entries.len()
        invariant
            i <= entries.len(),
            rows@.len() == i,
            forall|j: int| 0 <= j < i ==> rows@[j]@ == spec_summary_row(name@, entries@[j]@),
        decreases entries.len() - i,
    {
        let e = &entries[i];
        let tags = get_tags(&e.key);
        let mut quantiles = Vec::new();
        let mut k: usize = 0;
        while k < e.metric.quantiles.len()
            invariant
                k <= e.metric.quantiles.len(),
                quantiles@ =~= e.metric.quantiles@.take(k as int),
            decreases e.metric.quantiles.len() - k,
        {
            quantiles.push(e.metric.quantiles[k]);
            k = k + 1;
        }
        assert(quantiles@ =~= e.metric.quantiles@);
        rows.push(
            Row::Summary {
                name: name.clone(),
                tags,
                quantiles,
                sum_bits: e.metric.sum_bits,
                count: #[verifier::truncate] (e.metric.count as i64),
            },
        );
        i = i + 1;
    }
    assert(rows_view(rows@) =~= spec_summary_rows(name@, summary_entries_view(entries@)));
    rows
}

/// Converts every metric group into rows and concatenates them in group
/// order. Total: a group with no entries contributes no rows.
pub fn rows_from_groups(groups: &Vec<MetricGroup>) -> (rows: Vec<Row>)
    ensures
        rows_view(rows@) == spec_rows(groups_view(groups@)),
{
    let mut rows: Vec<Row> = Vec::new();
    let mut i: usize = 0;
    while i < groups.len()
        invariant
            i <= groups.len(),
            rows_view(rows@) =~= spec_rows(groups_view(groups@).take(i as int)),
        decreases groups.len() - i,
    {
        let g = &groups[i];
        let mut group_rows = match &g.metrics {
            GroupKind::Counter(entries) => counter_to_values(entries, &g.name),
            GroupKind::Gauge(entries) => gauge_to_values(entries, &g.name),
            GroupKind::Histogram(entries) => histogram_to_values(entries, &g.name),
            GroupKind::Summary(entries) => summary_to_values(entries, &g.name),
            GroupKind::Untyped(entries) => untyped_to_values(entries, &g.name),
        };
        proof {
            assert(rows_view(group_rows@) =~= spec_group_rows(groups_view(groups@)[i as int]));
            lemma_spec_rows_push(groups_view(groups@).take(i as int), groups_view(groups@)[i as int]);
            assert(groups_view(groups@).take(i as int + 1) =~= groups_view(groups@).take(
                i as int,
            ).push(groups_view(groups@)[i as int]));
        }
        let ghost old_rows = rows@;
        let ghost added = group_rows@;
        rows.append(&mut group_rows);
        proof {
            assert(rows_view(old_rows + added) =~= rows_view(old_rows) + rows_view(added));
        }
        i = i + 1;
    }
    assert(groups_view(groups@).take(groups.len() as int) =~= groups_view(groups@));
    rows
}

/// The converter: from a host input and the external parser's outcome to
/// the flat sequence of rows.
pub struct FromPrometheus;

impl FromPrometheus {
    /// Accepts only textual host input, before any parsing: text is handed
    /// back for the external parser, anything else fails with
    /// `InvalidInputType`.
    pub fn input_text(&self, input: InputValue) -> (r: Result<String, ConversionError>)
        ensures
            match input {
                InputValue::Text(s) => r matches Ok(t) && t@ == s@,
                InputValue::NotText => r matches Err(e) && e matches
                    ConversionError::InvalidInputType,
            },
    {
        match input {
            InputValue::Text(s) => Ok(s),
            InputValue::NotText => Err(ConversionError::InvalidInputType),
        }
    }

    /// Turns the external parser's outcome into rows: a rejection is passed
    /// through verbatim as `ParseFailure`, and parsed groups are mapped to
    /// one row per label combination, concatenated in group order. Once
    /// parsing has succeeded this can no longer fail.
    pub fn convert(&self, outcome: Result<Vec<MetricGroup>, String>) -> (r: Result<
        Vec<Row>,
        ConversionError,
    >)
        ensures
            match outcome {
                Ok(groups) => r matches Ok(rows) && rows_view(rows@) == spec_rows(
                    groups_view(groups@),
                ),
                Err(m) => r matches Err(e) && e matches ConversionError::ParseFailure(d) && d@
                    == m@,
            },
    {
        match outcome {
            Ok(groups) => Ok(rows_from_groups(&groups)),
            Err(m) => Err(ConversionError::ParseFailure(m)),
        }
    }
}

} // verus!
