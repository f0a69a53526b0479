use crate::prometheus::metric_type::MetricType;
use crate::prometheus::prometheus_metric::PrometheusMetric;
use crate::prometheus::{AssignState, No, ToAssign, Yes};
use core::marker::PhantomData;
use vstd::prelude::*;

verus! {

/// Collects the name, type and help of a metric. The markers `Name`, `Type`
/// and `Help` record in the type which of them have been given, so each can
/// be given once and `build` exists only once all three are there.
pub struct PrometheusMetricBuilder<'a, Name: AssignState, Type: AssignState, Help: AssignState> {
    name: Option<&'a str>,
    metric_type: Option<MetricType>,
    help: Option<&'a str>,
    state: PhantomData<(Name, Type, Help)>,
}

impl<'a, Name: AssignState, Type: AssignState, Help: AssignState> PrometheusMetricBuilder<
    'a,
    Name,
    Type,
    Help,
> {
    /// A part that the type marks as given is present.
    #[verifier::type_invariant]
    spec fn given_parts_present(self) -> bool {
        &&& Name::is_assigned() ==> self.name is Some
        &&& Type::is_assigned() ==> self.metric_type is Some
        &&& Help::is_assigned() ==> self.help is Some
    }

    /// The name, once given.
    pub closed spec fn name_view(&self) -> Option<Seq<char>> {
        match self.name {
            Some(n) => Some(n@),
            None => None,
        }
    }

    /// The metric type, once given.
    pub closed spec fn metric_type_view(&self) -> Option<MetricType> {
        self.metric_type
    }

    /// The help text, once given.
    pub closed spec fn help_view(&self) -> Option<Seq<char>> {
        match self.help {
            Some(h) => Some(h@),
            None => None,
        }
    }

    /// The name; it must have been given.
    pub fn name(&self) -> (res: &'a str)
        requires
            self.name_view() is Some,
        ensures
            Some(res@) == self.name_view(),
    {
        self.name.expect("metric name must be assigned")
    }

    /// The metric type; it must have been given.
    pub fn metric_type(&self) -> (res: MetricType)
        requires
            self.metric_type_view() is Some,
        ensures
            Some(res) == self.metric_type_view(),
    {
        self.metric_type.expect("metric type must be assigned")
    }

    /// The help text; it must have been given.
    pub fn help(&self) -> (res: &'a str)
        requires
            self.help_view() is Some,
        ensures
            Some(res@) == self.help_view(),
    {
        self.help.expect("metric help must be assigned")
    }
}

impl<'a> PrometheusMetricBuilder<'a, No, No, No> {
    /// A builder with nothing given yet.
    pub fn new() -> (res: Self)
        ensures
            res.name_view() is None,
            res.metric_type_view() is None,
            res.help_view() is None,
    {
        PrometheusMetricBuilder { name: None, metric_type: None, help: None, state: PhantomData }
    }
}

impl<'a, Name: AssignState + ToAssign, Type: AssignState, Help: AssignState> PrometheusMetricBuilder<
    'a,
    Name,
    Type,
    Help,
> {
    /// Gives the name.
    pub fn with_name(self, name: &'a str) -> (res: PrometheusMetricBuilder<
        'a,
        Name::Assigned,
        Type,
        Help,
    >)
        ensures
            res.name_view() == Some(name@),
            res.metric_type_view() == self.metric_type_view(),
            res.help_view() == self.help_view(),
    {
        proof {
            use_type_invariant(&self);
        }
        PrometheusMetricBuilder {
            name: Some(name),
            metric_type: self.metric_type,
            help: self.help,
            state: PhantomData,
        }
    }
}

impl<'a, Name: AssignState, Type: AssignState + ToAssign, Help: AssignState> PrometheusMetricBuilder<
    'a,
    Name,
    Type,
    Help,
> {
    /// Gives the metric type.
    pub fn with_metric_type(self, metric_type: MetricType) -> (res: PrometheusMetricBuilder<
        'a,
        Name,
        Type::Assigned,
        Help,
    >)
        ensures
            res.name_view() == self.name_view(),
            res.metric_type_view() == Some(metric_type),
            res.help_view() == self.help_view(),
    {
        proof {
            use_type_invariant(&self);
        }
        PrometheusMetricBuilder {
            name: self.name,
            metric_type: Some(metric_type),
            help: self.help,
            state: PhantomData,
        }
    }
}

impl<'a, Name: AssignState, Type: AssignState, Help: AssignState + ToAssign> PrometheusMetricBuilder<
    'a,
    Name,
    Type,
    Help,
> {
    /// Gives the help text.
    pub fn with_help(self, help: &'a str) -> (res: PrometheusMetricBuilder<
        'a,
        Name,
        Type,
        Help::Assigned,
    >)
        ensures
            res.name_view() == self.name_view(),
            res.metric_type_view() == self.metric_type_view(),
            res.help_view() == Some(help@),
    {
        proof {
            use_type_invariant(&self);
        }
        PrometheusMetricBuilder {
            name: self.name,
            metric_type: self.metric_type,
            help: Some(help),
            state: PhantomData,
        }
    }
}

impl<'a> PrometheusMetricBuilder<'a, Yes, Yes, Yes> {
    /// The metric with the name, type and help given, and no samples.
    pub fn build(self) -> (res: PrometheusMetric<'a>)
        ensures
            Some(res.counter_name@) == self.name_view(),
            Some(res.counter_type) == self.metric_type_view(),
            Some(res.counter_help@) == self.help_view(),
            res.instances_view() == Seq::<Seq<char>>::empty(),
    {
        proof {
            use_type_invariant(&self);
        }
        let res = PrometheusMetric {
            counter_name: self.name(),
            counter_type: self.metric_type(),
            counter_help: self.help(),
            rendered_instances: Vec::new(),
        };
        proof {
            assert(res.instances_view() =~= Seq::<Seq<char>>::empty());
        }
        res
    }
}

} // verus!
