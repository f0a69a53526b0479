use crate::prometheus::metric_type::MetricType;
use crate::prometheus::prometheus_metric_builder::PrometheusMetricBuilder;
use crate::prometheus::render_to_prometheus::RenderToPrometheus;
use crate::prometheus::No;
use vstd::prelude::*;

verus! {

/// A metric: its name, type and help text, and the lines of the samples
/// rendered into it so far.
pub struct PrometheusMetric<'a> {
    pub counter_name: &'a str,
    pub counter_type: MetricType,
    pub counter_help: &'a str,
    pub rendered_instances: Vec<String>,
}

/// `# HELP <name> <help>`, a newline, `# TYPE <name> <type>`, a newline.
pub open spec fn header_text(name: Seq<char>, help: Seq<char>, metric_type: MetricType) -> Seq<
    char,
> {
    seq!['#', ' ', 'H', 'E', 'L', 'P', ' '] + name + seq![' '] + help + seq![
        '\n',
        '#',
        ' ',
        'T',
        'Y',
        'P',
        'E',
        ' ',
    ] + name + seq![' '] + metric_type.name_text() + seq!['\n']
}

/// The line of one sample: the metric name, the sample's own text, a newline.
pub open spec fn instance_line(name: Seq<char>, rendered: Seq<char>) -> Seq<char> {
    name + rendered + seq!['\n']
}

/// The strings one after the other.
pub open spec fn concatenated(parts: Seq<Seq<char>>) -> Seq<char>
    decreases parts.len(),
{
    if parts.len() == 0 {
        Seq::empty()
    } else {
        concatenated(parts.drop_last()) + parts.last()
    }
}

impl<'a> PrometheusMetric<'a> {
    /// The sample lines, as character sequences, in the order they were added.
    pub open spec fn instances_view(&self) -> Seq<Seq<char>> {
        self.rendered_instances@.map_values(|s: String| s@)
    }

    /// The header of this metric.
    pub open spec fn header_view(&self) -> Seq<char> {
        header_text(self.counter_name@, self.counter_help@, self.counter_type)
    }

    /// The whole text of this metric: its header, then its sample lines.
    pub open spec fn text_view(&self) -> Seq<char> {
        self.header_view() + concatenated(self.instances_view())
    }

    /// A builder whose name, type and help have yet to be given.
    pub fn build() -> (res: PrometheusMetricBuilder<'a, No, No, No>)
        ensures
            res.name_view() is None,
            res.metric_type_view() is None,
            res.help_view() is None,
    {
        PrometheusMetricBuilder::new()
    }

    /// Adds the line of a sample that has already been rendered: the metric
    /// name, the sample's text, a newline.
    pub fn append_rendered_instance(&mut self, rendered: &str) -> (res: &mut Self)
        ensures
            res.counter_name == old(self).counter_name,
            res.counter_type == old(self).counter_type,
            res.counter_help == old(self).counter_help,
            res.instances_view() == old(self).instances_view().push(
                instance_line(old(self).counter_name@, rendered@),
            ),
            *final(self) == *final(res),
    {
        let mut line = String::from_str(self.counter_name);
        line.append(rendered);
        line.append("\n");
        proof {
            reveal_strlit("\n");
            assert(line@ =~= instance_line(old(self).counter_name@, rendered@));
        }
        self.rendered_instances.push(line);
        proof {
            assert(self.instances_view() =~= old(self).instances_view().push(
                instance_line(old(self).counter_name@, rendered@),
            ));
        }
        self
    }

    /// Renders a sample and adds its line: the metric name, the text that
    /// the sample's `render` returned, and a newline.
    pub fn render_and_append_instance<R: RenderToPrometheus>(&mut self, instance: &R) -> (res:
        &mut Self)
        ensures
            res.counter_name == old(self).counter_name,
            res.counter_type == old(self).counter_type,
            res.counter_help == old(self).counter_help,
            exists|rendered: String|
                call_ensures(R::render, (instance,), rendered) && res.instances_view() == old(
                    self,
                ).instances_view().push(instance_line(old(self).counter_name@, rendered@)),
            *final(self) == *final(res),
    {
        let rendered = instance.render();
        self.append_rendered_instance(rendered.as_str())
    }

    /// The two header lines.
    pub fn render_header(&self) -> (s: String)
        ensures
            s@ == self.header_view(),
    {
        let mut s = String::from_str("# HELP ");
        s.append(self.counter_name);
        s.append(" ");
        s.append(self.counter_help);
        s.append("\n# TYPE ");
        s.append(self.counter_name);
        s.append(" ");
        s.append(self.counter_type.as_ref());
        s.append("\n");
        proof {
            reveal_strlit("# HELP ");
            reveal_strlit(" ");
            reveal_strlit("\n# TYPE ");
            reveal_strlit("\n");
            assert(s@ =~= self.header_view());
        }
        s
    }

    /// The whole metric: the header, then each sample line in order.
    pub fn render(&self) -> (s: String)
        ensures
            s@ == self.text_view(),
    {
        let mut rendered = self.render_header();
        let mut i: usize = 0;
        proof {
            assert(self.instances_view().take(0) =~= Seq::<Seq<char>>::empty());
        }
        while i < self.rendered_instances.len()
            invariant
                i <= self.rendered_instances.len(),
                rendered@ == self.header_view() + concatenated(
                    self.instances_view().take(i as int),
                ),
            decreases self.rendered_instances.len() - i,
        {
            rendered.append(self.rendered_instances[i].as_str());
            proof {
                assert(self.instances_view().take(i + 1).drop_last() =~= self.instances_view().take(
                    i as int,
                ));
                assert(rendered@ =~= self.header_view() + concatenated(
                    self.instances_view().take(i + 1),
                ));
            }
            i = i + 1;
        }
        proof {
            assert(self.instances_view().take(i as int) =~= self.instances_view());
        }
        rendered
    }
}

/// The rendered metric starts with `# HELP <name> <help>` and a newline,
/// then `# TYPE <name> <type>` and a newline, the name and help written
/// whole, whatever their length.
pub proof fn lemma_header_lines_carry_name_help_and_type(metric: PrometheusMetric)
    ensures
        ({
            let x = metric.text_view();
            let n = metric.counter_name@;
            let h = metric.counter_help@;
            let t = metric.counter_type.name_text();
            let nl = n.len() as int;
            let hl = h.len() as int;
            let tl = t.len() as int;
            &&& x.len() >= 17 + 2 * nl + hl + tl
            &&& x.subrange(0, 7) == seq!['#', ' ', 'H', 'E', 'L', 'P', ' ']
            &&& x.subrange(7, 7 + nl) == n
            &&& x[7 + nl] == ' '
            &&& x.subrange(8 + nl, 8 + nl + hl) == h
            &&& x[8 + nl + hl] == '\n'
            &&& x.subrange(9 + nl + hl, 16 + nl + hl) == seq![
                '#',
                ' ',
                'T',
                'Y',
                'P',
                'E',
                ' ',
            ]
            &&& x.subrange(16 + nl + hl, 16 + 2 * nl + hl) == n
            &&& x[16 + 2 * nl + hl] == ' '
            &&& x.subrange(17 + 2 * nl + hl, 17 + 2 * nl + hl + tl) == t
            &&& x[17 + 2 * nl + hl + tl] == '\n'
        }),
{
    let x = metric.text_view();
    let n = metric.counter_name@;
    let h = metric.counter_help@;
    let t = metric.counter_type.name_text();
    let nl = n.len() as int;
    let hl = h.len() as int;
    let tl = t.len() as int;
    let a = 7 + nl;
    let b = 8 + nl + hl;
    let c = 16 + 2 * nl + hl;
    let d = 17 + 2 * nl + hl + tl;
    assert(x.subrange(0, 7) =~= seq!['#', ' ', 'H', 'E', 'L', 'P', ' ']);
    assert(x.subrange(7, a) =~= n);
    assert(x.subrange(a + 1, b) =~= h);
    assert(x.subrange(b + 1, b + 8) =~= seq!['#', ' ', 'T', 'Y', 'P', 'E', ' ']);
    assert(x.subrange(b + 8, c) =~= n);
    assert(x.subrange(c + 1, d) =~= t);
}

/// A metric with no samples renders as its header alone.
pub proof fn lemma_metric_without_samples_renders_header(metric: PrometheusMetric)
    requires
        metric.instances_view().len() == 0,
    ensures
        metric.text_view() == metric.header_view(),
{
    assert(metric.text_view() =~= metric.header_view());
}

/// Adding a sample line leaves what was rendered before in place and adds
/// the line at the end: the metric name, the sample's text and a newline.
pub proof fn lemma_append_extends_rendering(
    before: PrometheusMetric,
    after: PrometheusMetric,
    rendered: Seq<char>,
)
    requires
        after.counter_name == before.counter_name,
        after.counter_type == before.counter_type,
        after.counter_help == before.counter_help,
        after.instances_view() == before.instances_view().push(
            instance_line(before.counter_name@, rendered),
        ),
    ensures
        after.text_view() == before.text_view() + instance_line(before.counter_name@, rendered),
{
    assert(after.instances_view().drop_last() =~= before.instances_view());
    assert(after.text_view() =~= before.text_view() + instance_line(before.counter_name@, rendered));
}

} // verus!
