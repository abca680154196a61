//! End-to-end checks of the conversion on concrete metric groups: one row
//! per label combination, kind-specific shapes, error propagation.

use nu_plugin_from_prometheus::convert::{ConversionError, FromPrometheus, InputValue};
use nu_plugin_from_prometheus::metrics::{
    GroupKey, GroupKind, HistogramBucket, HistogramEntry, HistogramMetric, Label, MetricGroup,
    SimpleEntry, SimpleMetric, SummaryEntry, SummaryMetric, SummaryQuantile,
};
use nu_plugin_from_prometheus::rows::{header, Row, SimpleKind};

fn label(name: &str, value: &str) -> Label {
    Label { name: name.to_owned(), value: value.to_owned() }
}

fn simple_entry(labels: Vec<Label>, value: f64) -> SimpleEntry {
    SimpleEntry {
        key: GroupKey { labels },
        metric: SimpleMetric { value_bits: value.to_bits() },
    }
}

#[test]
fn counter_single_label_set_yields_one_row() {
    let group = MetricGroup {
        name: "http_requests_total".to_owned(),
        metrics: GroupKind::Counter(vec![simple_entry(vec![label("method", "GET")], 100.0)]),
    };
    let rows = FromPrometheus.convert(Ok(vec![group])).unwrap();
    assert_eq!(rows.len(), 1);
    match &rows[0] {
        Row::Simple { kind, name, tags, value_bits } => {
            assert_eq!(*kind, SimpleKind::Counter);
            assert_eq!(name, "http_requests_total");
            assert_eq!(tags, &vec![label("method", "GET")]);
            assert_eq!(f64::from_bits(*value_bits), 100.0);
        }
        other => panic!("expected a simple row, got {:?}", other),
    }
    assert_eq!(rows[0].kind_name(), "Counter");
}

#[test]
fn distinct_label_sets_yield_one_row_each() {
    let entries = vec![
        simple_entry(vec![label("method", "GET")], 1.0),
        simple_entry(vec![label("method", "POST")], 2.0),
        simple_entry(vec![label("method", "GET"), label("code", "500")], 3.0),
    ];
    let group = MetricGroup {
        name: "api_calls".to_owned(),
        metrics: GroupKind::Gauge(entries),
    };
    let rows = FromPrometheus.convert(Ok(vec![group])).unwrap();
    assert_eq!(rows.len(), 3);
    let expected = vec![
        vec![label("method", "GET")],
        vec![label("method", "POST")],
        vec![label("method", "GET"), label("code", "500")],
    ];
    for (row, want) in rows.iter().zip(expected.iter()) {
        match row {
            Row::Simple { kind, name, tags, .. } => {
                assert_eq!(*kind, SimpleKind::Gauge);
                assert_eq!(name, "api_calls");
                assert_eq!(tags, want);
            }
            other => panic!("expected a simple row, got {:?}", other),
        }
    }
    assert_ne!(expected[0], expected[1]);
    assert_ne!(expected[0], expected[2]);
    assert_ne!(expected[1], expected[2]);
}

#[test]
fn histogram_row_keeps_buckets_sum_and_count() {
    let buckets = vec![
        HistogramBucket { upper_bound_bits: (0.5f64).to_bits(), count: 1 },
        HistogramBucket { upper_bound_bits: (1.0f64).to_bits(), count: 3 },
        HistogramBucket { upper_bound_bits: f64::INFINITY.to_bits(), count: 5 },
    ];
    let group = MetricGroup {
        name: "request_seconds".to_owned(),
        metrics: GroupKind::Histogram(vec![HistogramEntry {
            key: GroupKey { labels: vec![label("handler", "root")] },
            metric: HistogramMetric { buckets: buckets.clone(), sum_bits: (2.75f64).to_bits(), count: 5 },
        }]),
    };
    let rows = FromPrometheus.convert(Ok(vec![group])).unwrap();
    assert_eq!(rows.len(), 1);
    match &rows[0] {
        Row::Histogram { name, tags, buckets: out, sum_bits, count } => {
            assert_eq!(name, "request_seconds");
            assert_eq!(tags, &vec![label("handler", "root")]);
            assert_eq!(out, &buckets);
            assert!(f64::from_bits(out[2].upper_bound_bits).is_infinite());
            assert_eq!(f64::from_bits(*sum_bits), 2.75);
            assert_eq!(*count, 5i64);
        }
        other => panic!("expected a histogram row, got {:?}", other),
    }
    assert_eq!(rows[0].kind_name(), "Histogram");
}

#[test]
fn histogram_count_above_signed_range_wraps() {
    let group = MetricGroup {
        name: "huge".to_owned(),
        metrics: GroupKind::Histogram(vec![HistogramEntry {
            key: GroupKey { labels: vec![] },
            metric: HistogramMetric { buckets: vec![], sum_bits: (0.0f64).to_bits(), count: u64::MAX },
        }]),
    };
    let rows = FromPrometheus.convert(Ok(vec![group])).unwrap();
    match &rows[0] {
        Row::Histogram { count, .. } => assert_eq!(*count, -1i64),
        other => panic!("expected a histogram row, got {:?}", other),
    }
}

#[test]
fn summary_row_keeps_quantiles_sum_and_count() {
    let quantiles = vec![
        SummaryQuantile { quantile_bits: (0.5f64).to_bits(), value_bits: (0.232f64).to_bits() },
        SummaryQuantile { quantile_bits: (0.99f64).to_bits(), value_bits: (1.75f64).to_bits() },
    ];
    let group = MetricGroup {
        name: "rpc_duration".to_owned(),
        metrics: GroupKind::Summary(vec![SummaryEntry {
            key: GroupKey { labels: vec![label("service", "api")] },
            metric: SummaryMetric { quantiles: quantiles.clone(), sum_bits: (17.5f64).to_bits(), count: 42 },
        }]),
    };
    let rows = FromPrometheus.convert(Ok(vec![group])).unwrap();
    assert_eq!(rows.len(), 1);
    match &rows[0] {
        Row::Summary { name, tags, quantiles: out, sum_bits, count } => {
            assert_eq!(name, "rpc_duration");
            assert_eq!(tags, &vec![label("service", "api")]);
            assert_eq!(out, &quantiles);
            assert_eq!(f64::from_bits(*sum_bits), 17.5);
            assert_eq!(*count, 42i64);
        }
        other => panic!("expected a summary row, got {:?}", other),
    }
    assert_eq!(rows[0].kind_name(), "Summary");
}

#[test]
fn untyped_group_yields_untyped_rows() {
    let group = MetricGroup {
        name: "plain".to_owned(),
        metrics: GroupKind::Untyped(vec![simple_entry(vec![], 7.5)]),
    };
    let rows = FromPrometheus.convert(Ok(vec![group])).unwrap();
    assert_eq!(rows.len(), 1);
    assert_eq!(rows[0].kind_name(), "Untyped");
    match &rows[0] {
        Row::Simple { tags, value_bits, .. } => {
            assert!(tags.is_empty());
            assert_eq!(f64::from_bits(*value_bits), 7.5);
        }
        other => panic!("expected a simple row, got {:?}", other),
    }
}

#[test]
fn groups_concatenate_in_order() {
    let counter = MetricGroup {
        name: "first".to_owned(),
        metrics: GroupKind::Counter(vec![simple_entry(vec![], 1.0)]),
    };
    let gauge = MetricGroup {
        name: "second".to_owned(),
        metrics: GroupKind::Gauge(vec![
            simple_entry(vec![label("a", "x")], 2.0),
            simple_entry(vec![label("a", "y")], 3.0),
        ]),
    };
    let rows = FromPrometheus.convert(Ok(vec![counter, gauge])).unwrap();
    assert_eq!(rows.len(), 3);
    assert_eq!(rows[0].kind_name(), "Counter");
    assert_eq!(rows[1].kind_name(), "Gauge");
    assert_eq!(rows[2].kind_name(), "Gauge");
    match (&rows[1], &rows[2]) {
        (Row::Simple { value_bits: b1, .. }, Row::Simple { value_bits: b2, .. }) => {
            assert_eq!(f64::from_bits(*b1), 2.0);
            assert_eq!(f64::from_bits(*b2), 3.0);
        }
        other => panic!("expected two simple rows, got {:?}", other),
    }
}

#[test]
fn no_groups_yield_no_rows() {
    let rows = FromPrometheus.convert(Ok(vec![])).unwrap();
    assert!(rows.is_empty());
}

#[test]
fn empty_payload_yields_no_rows_not_an_error() {
    let group = MetricGroup {
        name: "declared_only".to_owned(),
        metrics: GroupKind::Counter(vec![]),
    };
    let rows = FromPrometheus.convert(Ok(vec![group])).unwrap();
    assert!(rows.is_empty());
}

#[test]
fn parser_rejection_becomes_parse_failure_verbatim() {
    let diagnostic = "unterminated label set at line 1".to_owned();
    let out = FromPrometheus.convert(Err(diagnostic.clone()));
    match out {
        Err(ConversionError::ParseFailure(msg)) => {
            assert_eq!(msg, diagnostic);
            assert!(!msg.is_empty());
        }
        other => panic!("expected a parse failure, got {:?}", other),
    }
}

#[test]
fn non_text_input_is_rejected_before_parsing() {
    let out = FromPrometheus.input_text(InputValue::NotText);
    match out {
        Err(e) => {
            assert!(matches!(e, ConversionError::InvalidInputType));
            assert_eq!(e.message(), "Wrong input type");
        }
        Ok(text) => panic!("expected rejection, got text {:?}", text),
    }
}

#[test]
fn text_input_is_passed_through() {
    let out = FromPrometheus.input_text(InputValue::Text("up 1\n".to_owned()));
    assert_eq!(out.unwrap(), "up 1\n");
}

#[test]
fn header_names_the_simple_columns() {
    let names: Vec<String> = vec!["name".to_owned(), "type".to_owned(), "tags".to_owned(), "value".to_owned()];
    assert_eq!(header(), names);
}

#[test]
fn parse_failure_message_method_returns_the_diagnostic() {
    let out = FromPrometheus.convert(Err("unexpected token".to_owned()));
    match out {
        Err(e) => assert_eq!(e.message(), "unexpected token"),
        Ok(rows) => panic!("expected a parse failure, got {:?}", rows),
    }
}

#[test]
fn gauge_rows_carry_the_gauge_kind_name() {
    let group = MetricGroup {
        name: "temperature".to_owned(),
        metrics: GroupKind::Gauge(vec![simple_entry(vec![label("room", "lab")], -3.25)]),
    };
    let rows = FromPrometheus.convert(Ok(vec![group])).unwrap();
    assert_eq!(rows[0].kind_name(), "Gauge");
}

#[test]
fn label_values_pass_through_without_coercion() {
    let group = MetricGroup {
        name: "odd_labels".to_owned(),
        metrics: GroupKind::Counter(vec![simple_entry(
            vec![label("code", "404"), label("note", ""), label("text", "caf\u{e9} \\\"x\\\"")],
            1.0,
        )]),
    };
    let rows = FromPrometheus.convert(Ok(vec![group])).unwrap();
    match &rows[0] {
        Row::Simple { tags, .. } => {
            assert_eq!(tags[0].value, "404");
            assert_eq!(tags[1].value, "");
            assert_eq!(tags[2].value, "caf\u{e9} \\\"x\\\"");
        }
        other => panic!("expected a simple row, got {:?}", other),
    }
}

#[test]
fn special_float_values_keep_their_bit_patterns() {
    let group = MetricGroup {
        name: "extremes".to_owned(),
        metrics: GroupKind::Gauge(vec![
            simple_entry(vec![label("v", "nan")], f64::NAN),
            simple_entry(vec![label("v", "neg_inf")], f64::NEG_INFINITY),
        ]),
    };
    let rows = FromPrometheus.convert(Ok(vec![group])).unwrap();
    match (&rows[0], &rows[1]) {
        (Row::Simple { value_bits: a, .. }, Row::Simple { value_bits: b, .. }) => {
            assert_eq!(*a, f64::NAN.to_bits());
            assert!(f64::from_bits(*b).is_infinite());
            assert!(f64::from_bits(*b) < 0.0);
        }
        other => panic!("expected two simple rows, got {:?}", other),
    }
}

#[test]
fn histogram_group_yields_one_row_per_label_set() {
    let entry = |labels: Vec<Label>| HistogramEntry {
        key: GroupKey { labels },
        metric: HistogramMetric { buckets: vec![], sum_bits: (0.0f64).to_bits(), count: 0 },
    };
    let group = MetricGroup {
        name: "latency".to_owned(),
        metrics: GroupKind::Histogram(vec![
            entry(vec![label("path", "/")]),
            entry(vec![label("path", "/api")]),
        ]),
    };
    let rows = FromPrometheus.convert(Ok(vec![group])).unwrap();
    assert_eq!(rows.len(), 2);
    assert_eq!(rows[0].kind_name(), "Histogram");
    assert_eq!(rows[1].kind_name(), "Histogram");
}
