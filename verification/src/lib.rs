pub mod prometheus;
pub mod server;

pub use prometheus::metric_type::MetricType;
pub use prometheus::metric_value::MetricValue;
pub use prometheus::prometheus_instance::{MissingValue, PrometheusInstance};
pub use prometheus::prometheus_metric::PrometheusMetric;
pub use prometheus::prometheus_metric_builder::PrometheusMetricBuilder;
pub use prometheus::render_to_prometheus::RenderToPrometheus;
pub use prometheus::{AssignState, No, ToAssign, Yes};
pub use server::{Authorization, Decision, Reply, Route};
