use vstd::prelude::*;

verus! {

/// A sample that can write itself in the Prometheus exposition format, the
/// metric name excepted.
pub trait RenderToPrometheus: core::fmt::Debug {
    fn render(&self) -> String;
}

} // verus!
