use vstd::prelude::*;

verus! {

/// The kind of a Prometheus metric, as the `# TYPE` line names it.
#[derive(Debug, Clone, Copy, PartialEq, Eq, Structural)]
pub enum MetricType {
    Counter,
    Gauge,
    Histogram,
    Summary,
}

impl MetricType {
    /// The lowercase name of the metric type in the exposition format.
    pub open spec fn name_text(self) -> Seq<char> {
        match self {
            MetricType::Counter => seq!['c', 'o', 'u', 'n', 't', 'e', 'r'],
            MetricType::Gauge => seq!['g', 'a', 'u', 'g', 'e'],
            MetricType::Histogram => seq!['h', 'i', 's', 't', 'o', 'g', 'r', 'a', 'm'],
            MetricType::Summary => seq!['s', 'u', 'm', 'm', 'a', 'r', 'y'],
        }
    }

    /// The name of the metric type as a string slice.
    pub fn as_ref(&self) -> (s: &'static str)
        ensures
            s@ == self.name_text(),
    {
        match self {
            MetricType::Counter => {
                proof {
                    reveal_strlit("counter");
                }
                assert("counter"@ =~= self.name_text());
                "counter"
            },
            MetricType::Gauge => {
                proof {
                    reveal_strlit("gauge");
                }
                assert("gauge"@ =~= self.name_text());
                "gauge"
            },
            MetricType::Histogram => {
                proof {
                    reveal_strlit("histogram");
                }
                assert("histogram"@ =~= self.name_text());
                "histogram"
            },
            MetricType::Summary => {
                proof {
                    reveal_strlit("summary");
                }
                assert("summary"@ =~= self.name_text());
                "summary"
            },
        }
    }

    /// The text that displaying the metric type writes: its name.
    pub fn to_string(&self) -> (s: String)
        ensures
            s@ == self.name_text(),
    {
        String::from_str(self.as_ref())
    }
}

/// Different metric types have different names, so the `# TYPE` line tells
/// them apart.
pub proof fn lemma_metric_type_names_distinct(a: MetricType, b: MetricType)
    ensures
        a.name_text() == b.name_text() <==> a == b,
{
    if a != b {
        let (x, y) = (a.name_text(), b.name_text());
        if x.len() == y.len() {
            assert(x[0] != y[0]);
        }
    }
}

} // verus!
