//! The input side of the conversion: metric groups as the external
//! exposition parser hands them over, held as plain values.
//!
//! Every floating-point quantity (sample value, bucket upper bound, sum,
//! quantile rank, quantile value) is carried as the IEEE 754 double-precision
//! bit pattern of the parsed number, so no rounding or reinterpretation can
//! happen inside this crate; cumulative counts are unsigned 64-bit integers.

use vstd::prelude::*;

verus! {

/// One label of a time series: a label name and its string value.
#[derive(Debug, PartialEq, Eq)]
pub struct Label {
    pub name: String,
    pub value: String,
}

/// Mathematical image of a `Label`: both strings as character sequences.
pub struct LabelV {
    pub name: Seq<char>,
    pub value: Seq<char>,
}

impl View for Label {
    type V = LabelV;

    open spec fn view(&self) -> LabelV {
        LabelV { name: self.name@, value: self.value@ }
    }
}

/// The images of a sequence of labels, element by element.
pub open spec fn labels_view(labels: Seq<Label>) -> Seq<LabelV> {
    labels.map_values(|l: Label| l@)
}

/// The label combination that identifies one series within a metric group.
///
/// Label names are unique within a key; the order is the one in which the
/// external parser delivered the labels, and it is preserved all the way to
/// the output rows.
pub struct GroupKey {
    pub labels: Vec<Label>,
}

impl View for GroupKey {
    type V = Seq<LabelV>;

    open spec fn view(&self) -> Seq<LabelV> {
        labels_view(self.labels@)
    }
}

/// A counter, gauge or untyped sample: one floating-point value,
/// carried as its IEEE 754 bit pattern.
pub struct SimpleMetric {
    pub value_bits: u64,
}

/// One histogram bucket: the upper bound (bit pattern of the `le` boundary,
/// which may be positive infinity) and the cumulative count of observations
/// at or below it.
#[derive(Clone, Copy, Debug, PartialEq, Eq)]
pub struct HistogramBucket {
    pub upper_bound_bits: u64,
    pub count: u64,
}

/// A histogram series: its buckets in exposition order, the sum of all
/// observations, and the total observation count.
pub struct HistogramMetric {
    pub buckets: Vec<HistogramBucket>,
    pub sum_bits: u64,
    pub count: u64,
}

/// One precomputed quantile of a summary: the quantile rank (between zero
/// and one) and the reported value, both as bit patterns.
#[derive(Clone, Copy, Debug, PartialEq, Eq)]
pub struct SummaryQuantile {
    pub quantile_bits: u64,
    pub value_bits: u64,
}

/// A summary series: its quantiles in exposition order, the sum of all
/// observations, and the total observation count.
pub struct SummaryMetric {
    pub quantiles: Vec<SummaryQuantile>,
    pub sum_bits: u64,
    pub count: u64,
}

/// One series of a counter, gauge or untyped group: key and sample.
pub struct SimpleEntry {
    pub key: GroupKey,
    pub metric: SimpleMetric,
}

/// Mathematical image of a `SimpleEntry`.
pub struct SimpleEntryV {
    pub key: Seq<LabelV>,
    pub value_bits: u64,
}

impl View for SimpleEntry {
    type V = SimpleEntryV;

    open spec fn view(&self) -> SimpleEntryV {
        SimpleEntryV { key: self.key@, value_bits: self.metric.value_bits }
    }
}

/// One series of a histogram group: key and histogram payload.
pub struct HistogramEntry {
    pub key: GroupKey,
    pub metric: HistogramMetric,
}

/// Mathematical image of a `HistogramEntry`.
pub struct HistogramEntryV {
    pub key: Seq<LabelV>,
    pub buckets: Seq<HistogramBucket>,
    pub sum_bits: u64,
    pub count: u64,
}

impl View for HistogramEntry {
    type V = HistogramEntryV;

    open spec fn view(&self) -> HistogramEntryV {
        HistogramEntryV {
            key: self.key@,
            buckets: self.metric.buckets@,
            sum_bits: self.metric.sum_bits,
            count: self.metric.count,
        }
    }
}

/// One series of a summary group: key and summary payload.
pub struct SummaryEntry {
    pub key: GroupKey,
    pub metric: SummaryMetric,
}

/// Mathematical image of a `SummaryEntry`.
pub struct SummaryEntryV {
    pub key: Seq<LabelV>,
    pub quantiles: Seq<SummaryQuantile>,
    pub sum_bits: u64,
    pub count: u64,
}

impl View for SummaryEntry {
    type V = SummaryEntryV;

    open spec fn view(&self) -> SummaryEntryV {
        SummaryEntryV {
            key: self.key@,
            quantiles: self.metric.quantiles@,
            sum_bits: self.metric.sum_bits,
            count: self.metric.count,
        }
    }
}

/// The images of a sequence of simple entries.
pub open spec fn simple_entries_view(entries: Seq<SimpleEntry>) -> Seq<SimpleEntryV> {
    entries.map_values(|e: SimpleEntry| e@)
}

/// The images of a sequence of histogram entries.
pub open spec fn histogram_entries_view(entries: Seq<HistogramEntry>) -> Seq<HistogramEntryV> {
    entries.map_values(|e: HistogramEntry| e@)
}

/// The images of a sequence of summary entries.
pub open spec fn summary_entries_view(entries: Seq<SummaryEntry>) -> Seq<SummaryEntryV> {
    entries.map_values(|e: SummaryEntry| e@)
}

/// The payload of a metric group: which of the five Prometheus kinds it is,
/// and one entry per label combination, in the parser's order.
pub enum GroupKind {
    Counter(Vec<SimpleEntry>),
    Gauge(Vec<SimpleEntry>),
    Histogram(Vec<HistogramEntry>),
    Summary(Vec<SummaryEntry>),
    Untyped(Vec<SimpleEntry>),
}

/// Mathematical image of a `GroupKind`.
pub enum GroupKindV {
    Counter(Seq<SimpleEntryV>),
    Gauge(Seq<SimpleEntryV>),
    Histogram(Seq<HistogramEntryV>),
    Summary(Seq<SummaryEntryV>),
    Untyped(Seq<SimpleEntryV>),
}

impl View for GroupKind {
    type V = GroupKindV;

    open spec fn view(&self) -> GroupKindV {
        match self {
            GroupKind::Counter(entries) => GroupKindV::Counter(simple_entries_view(entries@)),
            GroupKind::Gauge(entries) => GroupKindV::Gauge(simple_entries_view(entries@)),
            GroupKind::Histogram(entries) => GroupKindV::Histogram(
                histogram_entries_view(entries@),
            ),
            GroupKind::Summary(entries) => GroupKindV::Summary(summary_entries_view(entries@)),
            GroupKind::Untyped(entries) => GroupKindV::Untyped(simple_entries_view(entries@)),
        }
    }
}

/// One metric group: the metric name and its kind-specific payload.
pub struct MetricGroup {
    pub name: String,
    pub metrics: GroupKind,
}

/// Mathematical image of a `MetricGroup`.
pub struct MetricGroupV {
    pub name: Seq<char>,
    pub metrics: GroupKindV,
}

impl View for MetricGroup {
    type V = MetricGroupV;

    open spec fn view(&self) -> MetricGroupV {
        MetricGroupV { name: self.name@, metrics: self.metrics@ }
    }
}

/// The images of a sequence of metric groups.
pub open spec fn groups_view(groups: Seq<MetricGroup>) -> Seq<MetricGroupV> {
    groups.map_values(|g: MetricGroup| g@)
}

} // verus!
