use prometheus_wireguard_exporter::prometheus::decimal::{render_signed, render_unsigned};
use prometheus_wireguard_exporter::{
    MetricType, MetricValue, PrometheusInstance, PrometheusMetric, RenderToPrometheus,
};

#[test]
fn renders_metric_header() {
    let metric = PrometheusMetric::build()
        .with_name("wireguard_test_total")
        .with_metric_type(MetricType::Counter)
        .with_help("Test metric")
        .build();

    assert_eq!(
        metric.render(),
        "# HELP wireguard_test_total Test metric\n# TYPE wireguard_test_total counter\n"
    );
}

#[test]
fn renders_labels_value_and_timestamp() {
    let instance = PrometheusInstance::new()
        .with_label("interface", "wg0")
        .with_label("peer", "abc")
        .with_timestamp(1234)
        .with_value(42_u128);

    assert_eq!(
        instance.render(),
        "{interface=\"wg0\",peer=\"abc\"} 42 1234"
    );
}

#[test]
fn renders_value_without_labels() {
    let instance = PrometheusInstance::new().with_value(42_u128);
    assert_eq!(instance.render(), " 42");
}

#[derive(Debug)]
struct CustomRenderedInstance;

impl RenderToPrometheus for CustomRenderedInstance {
    fn render(&self) -> String {
        " 7".to_owned()
    }
}

#[test]
fn appends_any_renderable_instance() {
    let mut metric = PrometheusMetric::build()
        .with_name("wireguard_test_total")
        .with_metric_type(MetricType::Counter)
        .with_help("Test metric")
        .build();

    metric.render_and_append_instance(&CustomRenderedInstance);

    assert_eq!(
        metric.render(),
        "# HELP wireguard_test_total Test metric\n# TYPE wireguard_test_total counter\nwireguard_test_total 7\n"
    );
}

#[test]
fn displays_metric_types() {
    assert_eq!(MetricType::Counter.to_string(), "counter");
    assert_eq!(MetricType::Gauge.to_string(), "gauge");
    assert_eq!(MetricType::Histogram.to_string(), "histogram");
    assert_eq!(MetricType::Summary.to_string(), "summary");
}

#[test]
fn metric_type_as_ref_names() {
    assert_eq!(MetricType::Counter.as_ref(), "counter");
    assert_eq!(MetricType::Gauge.as_ref(), "gauge");
    assert_eq!(MetricType::Histogram.as_ref(), "histogram");
    assert_eq!(MetricType::Summary.as_ref(), "summary");
}

#[test]
fn renders_single_label_without_timestamp() {
    let instance = PrometheusInstance::new()
        .with_label("interface", "wg0")
        .with_value(7_u64);
    assert_eq!(instance.render(), "{interface=\"wg0\"} 7");
}

#[test]
fn later_timestamp_replaces_earlier() {
    let instance = PrometheusInstance::new()
        .with_timestamp(1)
        .with_timestamp(99)
        .with_value(0_u8);
    assert_eq!(instance.render(), " 0 99");
}

#[test]
fn timestamp_given_after_value() {
    let instance = PrometheusInstance::new()
        .with_value(5_u32)
        .with_label("a", "b")
        .with_timestamp(10);
    assert_eq!(instance.render(), "{a=\"b\"} 5 10");
}

#[test]
fn current_timestamp_is_set() {
    let instance = PrometheusInstance::new()
        .with_current_timestamp()
        .unwrap()
        .with_value(1_u128);
    let rendered = instance.render();
    let parts: Vec<&str> = rendered.split(' ').collect();
    assert_eq!(parts.len(), 3);
    assert_eq!(parts[0], "");
    assert_eq!(parts[1], "1");
    assert!(parts[2].parse::<u128>().unwrap() > 1_600_000_000_000);
}

#[test]
fn renders_signed_values() {
    let instance = PrometheusInstance::new().with_value(-12_i64);
    assert_eq!(instance.render(), " -12");
    assert_eq!(render_signed(i128::MIN), i128::MIN.to_string());
    assert_eq!(render_signed(i128::MAX), i128::MAX.to_string());
    assert_eq!(render_signed(0), "0");
}

#[test]
fn renders_unsigned_edge_values() {
    assert_eq!(render_unsigned(0), "0");
    assert_eq!(render_unsigned(9), "9");
    assert_eq!(render_unsigned(10), "10");
    assert_eq!(render_unsigned(1_000_000), "1000000");
    assert_eq!(render_unsigned(u128::MAX), u128::MAX.to_string());
}

#[test]
fn metric_values_match_display() {
    assert_eq!(255_u8.render_value(), "255");
    assert_eq!(65535_u16.render_value(), "65535");
    assert_eq!(u32::MAX.render_value(), u32::MAX.to_string());
    assert_eq!(u64::MAX.render_value(), u64::MAX.to_string());
    assert_eq!(usize::MAX.render_value(), usize::MAX.to_string());
    assert_eq!((-128_i8).render_value(), "-128");
    assert_eq!(i16::MIN.render_value(), i16::MIN.to_string());
    assert_eq!(i32::MIN.render_value(), i32::MIN.to_string());
    assert_eq!(i64::MIN.render_value(), i64::MIN.to_string());
    assert_eq!(isize::MAX.render_value(), isize::MAX.to_string());
}

#[test]
fn appending_keeps_earlier_lines_in_order() {
    let mut metric = PrometheusMetric::build()
        .with_name("wg_bytes")
        .with_metric_type(MetricType::Gauge)
        .with_help("Bytes")
        .build();
    let first = PrometheusInstance::new().with_label("peer", "a").with_value(1_u128);
    let second = PrometheusInstance::new().with_label("peer", "b").with_value(2_u128);
    let before = metric.render();
    metric.render_and_append_instance(&first);
    let middle = metric.render();
    assert_eq!(middle, format!("{}wg_bytes{{peer=\"a\"}} 1\n", before));
    metric
        .render_and_append_instance(&second)
        .append_rendered_instance(" 3");
    assert_eq!(
        metric.render(),
        "# HELP wg_bytes Bytes\n# TYPE wg_bytes gauge\nwg_bytes{peer=\"a\"} 1\nwg_bytes{peer=\"b\"} 2\nwg_bytes 3\n"
    );
    assert_eq!(metric.render_header(), "# HELP wg_bytes Bytes\n# TYPE wg_bytes gauge\n");
}

#[test]
fn builder_parts_read_back() {
    let builder = PrometheusMetric::build()
        .with_help("h")
        .with_name("n")
        .with_metric_type(MetricType::Summary);
    assert_eq!(builder.name(), "n");
    assert_eq!(builder.help(), "h");
    assert_eq!(builder.metric_type(), MetricType::Summary);
    let metric = builder.build();
    assert_eq!(metric.counter_name, "n");
    assert_eq!(metric.counter_help, "h");
    assert_eq!(metric.counter_type, MetricType::Summary);
    assert!(metric.rendered_instances.is_empty());
}

#[test]
fn cloned_instance_renders_the_same() {
    let instance = PrometheusInstance::new()
        .with_label("interface", "wg0")
        .with_timestamp(5)
        .with_value(3_u16);
    let copy = instance.clone();
    assert_eq!(copy.render(), instance.render());
    assert_eq!(copy.render(), "{interface=\"wg0\"} 3 5");
}
