//! Laws of the conversion, stated once and proved for every input: how many
//! rows a group yields, that tags mirror the label combinations, that
//! histogram and summary payloads survive unchanged, and that nothing comes
//! out of nothing.

use vstd::prelude::*;
use crate::metrics::{GroupKindV, HistogramEntryV, LabelV, MetricGroupV, SummaryEntryV};
use crate::rows::{RowV, SimpleKind, spec_kind_name, spec_row_tags};
use crate::convert::{
    spec_group_rows, spec_histogram_row, spec_histogram_rows, spec_rows, spec_simple_row,
    spec_summary_row, spec_summary_rows,
};

verus! {

/// How many label combinations a group's payload holds.
pub open spec fn spec_entry_count(k: GroupKindV) -> nat {
    match k {
        GroupKindV::Counter(entries) => entries.len(),
        GroupKindV::Gauge(entries) => entries.len(),
        GroupKindV::Histogram(entries) => entries.len(),
        GroupKindV::Summary(entries) => entries.len(),
        GroupKindV::Untyped(entries) => entries.len(),
    }
}

/// The label combination of a payload's entry at a position.
pub open spec fn spec_entry_key(k: GroupKindV, i: int) -> Seq<LabelV> {
    match k {
        GroupKindV::Counter(entries) => entries[i].key,
        GroupKindV::Gauge(entries) => entries[i].key,
        GroupKindV::Histogram(entries) => entries[i].key,
        GroupKindV::Summary(entries) => entries[i].key,
        GroupKindV::Untyped(entries) => entries[i].key,
    }
}

/// A metric group yields exactly one row per label combination, in payload
/// order; each row's `tags` is exactly its combination, so distinct
/// combinations yield rows with distinct `tags`.
pub proof fn lemma_one_row_per_combination(g: MetricGroupV)
    ensures
        spec_group_rows(g).len() == spec_entry_count(g.metrics),
        forall|i: int|
            0 <= i < spec_entry_count(g.metrics) ==> spec_row_tags(spec_group_rows(g)[i])
                == spec_entry_key(g.metrics, i),
        forall|i: int, j: int|
            0 <= i < spec_entry_count(g.metrics) && 0 <= j < spec_entry_count(g.metrics)
                && spec_entry_key(g.metrics, i) != spec_entry_key(g.metrics, j)
                ==> spec_row_tags(spec_group_rows(g)[i]) != spec_row_tags(spec_group_rows(g)[j]),
{
}

/// How many label combinations a whole sequence of groups holds.
pub open spec fn spec_total_entry_count(groups: Seq<MetricGroupV>) -> nat
    decreases groups.len(),
{
    if groups.len() == 0 {
        0
    } else {
        spec_entry_count(groups[0].metrics) + spec_total_entry_count(groups.drop_first())
    }
}

/// Over a whole conversion, the row count is exactly the number of label
/// combinations across all groups.
pub proof fn lemma_total_row_count(groups: Seq<MetricGroupV>)
    ensures
        spec_rows(groups).len() == spec_total_entry_count(groups),
    decreases groups.len(),
{
    if groups.len() > 0 {
        lemma_one_row_per_combination(groups[0]);
        lemma_total_row_count(groups.drop_first());
    }
}

/// A parse outcome with no metric groups converts to no rows.
pub proof fn lemma_no_groups_no_rows()
    ensures
        spec_rows(Seq::<MetricGroupV>::empty()) == Seq::<RowV>::empty(),
{
}

/// A group whose payload holds no label combination contributes no rows —
/// an empty payload is not an error.
pub proof fn lemma_empty_group_no_rows(g: MetricGroupV)
    requires
        spec_entry_count(g.metrics) == 0,
    ensures
        spec_group_rows(g) == Seq::<RowV>::empty(),
{
    lemma_one_row_per_combination(g);
    assert(spec_group_rows(g) =~= Seq::<RowV>::empty());
}

/// A counter group with a single label combination yields exactly one row:
/// kind `Counter`, the group's name, that combination as `tags`, and the
/// sample's bit pattern as `value`.
pub proof fn lemma_single_counter_single_row(g: MetricGroupV)
    requires
        g.metrics matches GroupKindV::Counter(entries) && entries.len() == 1,
    ensures
        spec_group_rows(g).len() == 1,
        match g.metrics {
            GroupKindV::Counter(entries) => spec_group_rows(g)[0] == spec_simple_row(
                SimpleKind::Counter,
                g.name,
                entries[0],
            ),
            _ => false,
        },
        spec_kind_name(spec_group_rows(g)[0]) == "Counter"@,
{
}

/// Histogram rows keep the whole payload: the bucket sequence unchanged in
/// length, order and bound/count pairs, the sum bits untouched, and the
/// cumulative count as a signed 64-bit integer.
pub proof fn lemma_histogram_payload_preserved(name: Seq<char>, entries: Seq<HistogramEntryV>)
    ensures
        spec_histogram_rows(name, entries).len() == entries.len(),
        forall|i: int|
            0 <= i < entries.len() ==> spec_histogram_rows(name, entries)[i] == (RowV::Histogram {
                name,
                tags: entries[i].key,
                buckets: entries[i].buckets,
                sum_bits: entries[i].sum_bits,
                count: entries[i].count as i64,
            }),
{
    assert forall|i: int| 0 <= i < entries.len() implies spec_histogram_rows(name, entries)[i]
        == spec_histogram_row(name, entries[i]) by {}
}

/// Summary rows keep the whole payload: the quantile sequence unchanged in
/// length, order and rank/value pairs, the sum bits untouched, and the
/// cumulative count as a signed 64-bit integer.
pub proof fn lemma_summary_payload_preserved(name: Seq<char>, entries: Seq<SummaryEntryV>)
    ensures
        spec_summary_rows(name, entries).len() == entries.len(),
        forall|i: int|
            0 <= i < entries.len() ==> spec_summary_rows(name, entries)[i] == (RowV::Summary {
                name,
                tags: entries[i].key,
                quantiles: entries[i].quantiles,
                sum_bits: entries[i].sum_bits,
                count: entries[i].count as i64,
            }),
{
    assert forall|i: int| 0 <= i < entries.len() implies spec_summary_rows(name, entries)[i]
        == spec_summary_row(name, entries[i]) by {}
}

} // verus!
