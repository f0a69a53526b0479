use crate::prometheus::decimal::decimal_text;
use crate::prometheus::metric_value::MetricValue;
use crate::prometheus::render_to_prometheus::RenderToPrometheus;
use crate::prometheus::{No, Yes};
use core::marker::PhantomData;
use std::time::{Duration, SystemTime, SystemTimeError, UNIX_EPOCH};
use vstd::prelude::*;

verus! {

#[verifier::external_type_specification]
#[verifier::external_body]
pub struct ExSystemTime(SystemTime);

#[verifier::external_type_specification]
#[verifier::external_body]
pub struct ExSystemTimeError(SystemTimeError);

/// `SystemTime::now`: the current time of the system clock. Nothing is
/// claimed of it.
#[verifier::external_body]
fn system_time_now() -> SystemTime {
    SystemTime::now()
}

/// `SystemTime::duration_since`, measured from the Unix epoch: the time
/// elapsed since then, or an error when the clock reads an earlier time.
/// Nothing is claimed of which outcome comes, or of the duration.
#[verifier::external_body]
fn duration_since_unix_epoch(time: &SystemTime) -> Result<Duration, SystemTimeError> {
    time.duration_since(UNIX_EPOCH)
}

/// `Duration::as_millis`: the whole milliseconds of a duration. The duration
/// is opaque here, so nothing is claimed of the number.
#[verifier::external_body]
fn duration_as_millis(duration: &Duration) -> u128 {
    duration.as_millis()
}

/// The value of an instance that has not been given one yet.
#[derive(Debug, Clone, Copy)]
pub struct MissingValue;

/// One sample of a metric: its labels in the order they were added, its
/// value and an optional timestamp in milliseconds.
#[derive(Debug)]
pub struct PrometheusInstance<'a, T = MissingValue, State = No> {
    labels: Vec<(&'a str, &'a str)>,
    value: T,
    timestamp: Option<u128>,
    state: PhantomData<State>,
}

/// `name="value"` for one label.
pub open spec fn label_pair_text(label: (Seq<char>, Seq<char>)) -> Seq<char> {
    label.0 + seq!['=', '"'] + label.1 + seq!['"']
}

/// The parts joined by the separator, as `join` on a slice of strings does.
pub open spec fn joined(parts: Seq<Seq<char>>, sep: Seq<char>) -> Seq<char>
    decreases parts.len(),
{
    if parts.len() == 0 {
        Seq::empty()
    } else if parts.len() == 1 {
        parts[0]
    } else {
        joined(parts.drop_last(), sep) + sep + parts.last()
    }
}

/// The label block: empty without labels, otherwise the `name="value"`
/// pairs joined by commas inside braces.
pub open spec fn label_block(labels: Seq<(Seq<char>, Seq<char>)>) -> Seq<char> {
    if labels.len() == 0 {
        Seq::empty()
    } else {
        seq!['{'] + joined(labels.map_values(|l: (Seq<char>, Seq<char>)| label_pair_text(l)), seq![','])
            + seq!['}']
    }
}

/// Nothing without a timestamp, otherwise a space and the timestamp.
pub open spec fn timestamp_text(timestamp: Option<u128>) -> Seq<char> {
    match timestamp {
        None => Seq::empty(),
        Some(t) => seq![' '] + decimal_text(t as nat),
    }
}

/// The text of a sample after the metric name: labels, a space, the value,
/// then the timestamp if there is one.
pub open spec fn instance_text(
    labels: Seq<(Seq<char>, Seq<char>)>,
    value_text: Seq<char>,
    timestamp: Option<u128>,
) -> Seq<char> {
    label_block(labels) + seq![' '] + value_text + timestamp_text(timestamp)
}

/// A label added after others goes last in the label block, after a comma;
/// the first label added makes the block `{name="value"}`.
pub proof fn lemma_label_added_last(
    labels: Seq<(Seq<char>, Seq<char>)>,
    label: (Seq<char>, Seq<char>),
)
    ensures
        labels.len() == 0 ==> label_block(labels.push(label)) == seq!['{'] + label_pair_text(label)
            + seq!['}'],
        labels.len() > 0 ==> label_block(labels.push(label)) == label_block(labels).drop_last()
            + seq![','] + label_pair_text(label) + seq!['}'],
{
    let f = |l: (Seq<char>, Seq<char>)| label_pair_text(l);
    let parts = labels.push(label).map_values(f);
    assert(parts.drop_last() =~= labels.map_values(f));
    if labels.len() == 0 {
        assert(label_block(labels.push(label)) =~= seq!['{'] + label_pair_text(label) + seq!['}']);
    } else {
        let inner = joined(labels.map_values(f), seq![',']);
        assert((seq!['{'] + inner + seq!['}']).drop_last() =~= seq!['{'] + inner);
        assert(label_block(labels.push(label)) =~= label_block(labels).drop_last() + seq![',']
            + label_pair_text(label) + seq!['}']);
    }
}

/// Each part appears whole, as a contiguous piece, in the joined text.
proof fn lemma_joined_contains_part(parts: Seq<Seq<char>>, sep: Seq<char>, i: int)
    requires
        0 <= i < parts.len(),
    ensures
        exists|k: int|
            0 <= k && k + parts[i].len() <= joined(parts, sep).len() && #[trigger] joined(
                parts,
                sep,
            ).subrange(k, k + parts[i].len()) == parts[i],
    decreases parts.len(),
{
    let j = joined(parts, sep);
    if parts.len() == 1 {
        assert(j == parts[0]);
        assert(j.subrange(0, parts[i].len() as int) =~= parts[i]);
        let z: int = 0;
        assert(0 <= z && z + parts[i].len() <= j.len() && j.subrange(z, z + parts[i].len())
            == parts[i]);
    } else {
        let front = joined(parts.drop_last(), sep);
        assert(j == front + sep + parts.last());
        if i == parts.len() - 1 {
            let k: int = (front.len() + sep.len()) as int;
            assert(j.subrange(k, k + parts[i].len()) =~= parts[i]);
            assert(0 <= k && k + parts[i].len() <= j.len() && j.subrange(k, k + parts[i].len())
                == parts[i]);
        } else {
            lemma_joined_contains_part(parts.drop_last(), sep, i);
            let k = choose|k: int|
                0 <= k && k + parts.drop_last()[i].len() <= front.len() && #[trigger] front.subrange(
                    k,
                    k + parts.drop_last()[i].len(),
                ) == parts.drop_last()[i];
            assert(parts.drop_last()[i] == parts[i]);
            assert(j.subrange(k, k + parts[i].len()) =~= front.subrange(k, k + parts[i].len()));
            assert(0 <= k && k + parts[i].len() <= j.len() && j.subrange(k, k + parts[i].len())
                == parts[i]);
        }
    }
}

/// A rendered sample shows every label whole: for each label there is a
/// place in the text holding its name, `="`, its full value and `"`.
pub proof fn lemma_sample_shows_every_label_whole(
    labels: Seq<(Seq<char>, Seq<char>)>,
    value_text: Seq<char>,
    timestamp: Option<u128>,
    i: int,
)
    requires
        0 <= i < labels.len(),
    ensures
        exists|k: int|
            0 <= k && k + labels[i].0.len() + labels[i].1.len() + 3 <= instance_text(
                labels,
                value_text,
                timestamp,
            ).len() && #[trigger] instance_text(labels, value_text, timestamp).subrange(
                k,
                k + labels[i].0.len() + labels[i].1.len() + 3,
            ) == labels[i].0 + seq!['=', '"'] + labels[i].1 + seq!['"'],
{
    let parts = labels.map_values(|l: (Seq<char>, Seq<char>)| label_pair_text(l));
    let pair = labels[i].0 + seq!['=', '"'] + labels[i].1 + seq!['"'];
    assert(parts[i] =~= pair);
    lemma_joined_contains_part(parts, seq![','], i);
    let j = joined(parts, seq![',']);
    let k = choose|k: int|
        0 <= k && k + parts[i].len() <= j.len() && #[trigger] j.subrange(k, k + parts[i].len())
            == parts[i];
    let t = instance_text(labels, value_text, timestamp);
    assert(labels.len() > 0);
    assert(t == seq!['{'] + j + seq!['}'] + seq![' '] + value_text + timestamp_text(timestamp));
    assert(t.subrange(k + 1, k + 1 + pair.len()) =~= j.subrange(k, k + pair.len()));
    assert(pair.len() == labels[i].0.len() + labels[i].1.len() + 3);
    assert(0 <= k + 1 && (k + 1) + labels[i].0.len() + labels[i].1.len() + 3 <= t.len() && t.subrange(
        k + 1,
        (k + 1) + labels[i].0.len() + labels[i].1.len() + 3,
    ) == labels[i].0 + seq!['=', '"'] + labels[i].1 + seq!['"']);
}

/// Without labels a sample is a space, its value and its timestamp text.
pub proof fn lemma_sample_without_labels(value_text: Seq<char>, timestamp: Option<u128>)
    ensures
        instance_text(Seq::empty(), value_text, timestamp) == seq![' '] + value_text
            + timestamp_text(timestamp),
{
    assert(instance_text(Seq::empty(), value_text, timestamp) =~= seq![' '] + value_text
        + timestamp_text(timestamp));
}

impl<'a, T, State> PrometheusInstance<'a, T, State> {
    /// The labels, each as its name and value.
    pub closed spec fn labels_view(&self) -> Seq<(Seq<char>, Seq<char>)> {
        self.labels@.map_values(|l: (&'a str, &'a str)| (l.0@, l.1@))
    }

    /// The value the instance carries.
    pub closed spec fn value_view(&self) -> T {
        self.value
    }

    /// The timestamp, if one was set.
    pub closed spec fn timestamp_view(&self) -> Option<u128> {
        self.timestamp
    }

    /// Adds a label after those already there.
    pub fn with_label(self, label: &'a str, value: &'a str) -> (res: Self)
        ensures
            res.labels_view() == self.labels_view().push((label@, value@)),
            res.value_view() == self.value_view(),
            res.timestamp_view() == self.timestamp_view(),
    {
        let mut s = self;
        s.labels.push((label, value));
        proof {
            assert(s.labels_view() =~= self.labels_view().push((label@, value@)));
        }
        s
    }

    /// Sets the timestamp, in milliseconds since the Unix epoch.
    pub fn with_timestamp(self, timestamp: u128) -> (res: Self)
        ensures
            res.labels_view() == self.labels_view(),
            res.value_view() == self.value_view(),
            res.timestamp_view() == Some(timestamp),
    {
        let mut s = self;
        s.timestamp = Some(timestamp);
        s
    }

    /// Sets the timestamp to the current time in milliseconds since the Unix
    /// epoch, or fails when the system clock reads a time before the epoch.
    /// The time read is not known here: on success the labels and value are
    /// kept and some timestamp is set.
    pub fn with_current_timestamp(self) -> (res: Result<Self, SystemTimeError>)
        ensures
            res matches Ok(r) ==> {
                &&& r.labels_view() == self.labels_view()
                &&& r.value_view() == self.value_view()
                &&& r.timestamp_view() is Some
            },
    {
        let now = system_time_now();
        match duration_since_unix_epoch(&now) {
            Ok(elapsed) => Ok(self.with_timestamp(duration_as_millis(&elapsed))),
            Err(error) => Err(error),
        }
    }
}

impl<'a, T: Clone, State> Clone for PrometheusInstance<'a, T, State> {
    /// A copy with the same labels and timestamp and a clone of the value.
    fn clone(&self) -> (res: Self)
        ensures
            res.labels_view() == self.labels_view(),
            res.timestamp_view() == self.timestamp_view(),
            cloned(self.value_view(), res.value_view()),
    {
        let mut labels: Vec<(&'a str, &'a str)> = Vec::new();
        let mut i: usize = 0;
        while i < self.labels.len()
            invariant
                i <= self.labels.len(),
                labels@ == self.labels@.take(i as int),
            decreases self.labels.len() - i,
        {
            labels.push(self.labels[i]);
            proof {
                assert(self.labels@.take(i + 1) =~= self.labels@.take(i as int).push(self.labels@[i as int]));
            }
            i = i + 1;
        }
        proof {
            assert(self.labels@.take(i as int) =~= self.labels@);
        }
        PrometheusInstance {
            labels,
            value: self.value.clone(),
            timestamp: self.timestamp,
            state: PhantomData,
        }
    }
}

impl<'a> PrometheusInstance<'a, MissingValue, No> {
    /// An instance with no labels, no value yet and no timestamp.
    pub fn new() -> (res: Self)
        ensures
            res.labels_view() == Seq::<(Seq<char>, Seq<char>)>::empty(),
            res.timestamp_view() is None,
    {
        let res = PrometheusInstance {
            labels: Vec::new(),
            value: MissingValue,
            timestamp: None,
            state: PhantomData,
        };
        proof {
            assert(res.labels_view() =~= Seq::<(Seq<char>, Seq<char>)>::empty());
        }
        res
    }
}

impl<'a, T> PrometheusInstance<'a, T, No> {
    /// Gives the instance its value; this can be done once.
    pub fn with_value<V>(self, value: V) -> (res: PrometheusInstance<'a, V, Yes>)
        ensures
            res.labels_view() == self.labels_view(),
            res.value_view() == value,
            res.timestamp_view() == self.timestamp_view(),
    {
        PrometheusInstance {
            labels: self.labels,
            value,
            timestamp: self.timestamp,
            state: PhantomData,
        }
    }
}

impl<'a, T: MetricValue + core::fmt::Debug> RenderToPrometheus for PrometheusInstance<'a, T, Yes> {
    fn render(&self) -> (s: String)
        ensures
            s@ == instance_text(
                self.labels_view(),
                self.value_view().value_text(),
                self.timestamp_view(),
            ),
    {
        let ghost labels = self.labels_view();
        let ghost parts = labels.map_values(|l: (Seq<char>, Seq<char>)| label_pair_text(l));
        let mut joined_labels = String::new();
        let mut i: usize = 0;
        proof {
            reveal_strlit("=\"");
            reveal_strlit("\"");
            reveal_strlit(",");
            assert(parts.take(0) =~= Seq::<Seq<char>>::empty());
        }
        while i < self.labels.len()
            invariant
                i <= self.labels.len(),
                labels == self.labels_view(),
                parts == labels.map_values(|l: (Seq<char>, Seq<char>)| label_pair_text(l)),
                joined_labels@ == joined(parts.take(i as int), seq![',']),
            decreases self.labels.len() - i,
        {
            let (label, value) = self.labels[i];
            if i > 0 {
                joined_labels.append(",");
            }
            joined_labels.append(label);
            joined_labels.append("=\"");
            joined_labels.append(value);
            joined_labels.append("\"");
            proof {
                reveal_strlit("=\"");
                reveal_strlit("\"");
                reveal_strlit(",");
                assert(labels[i as int] == (label@, value@));
                assert(parts[i as int] == label_pair_text((label@, value@)));
                assert(parts.take(i + 1).drop_last() =~= parts.take(i as int));
                if i == 0 {
                    assert(joined_labels@ =~= parts[0]);
                } else {
                    assert(joined_labels@ =~= joined(parts.take(i as int), seq![',']) + seq![','] + parts[i as int]);
                }
            }
            i = i + 1;
        }
        proof {
            assert(parts.take(self.labels.len() as int) =~= parts);
        }
        let mut rendered = String::new();
        if self.labels.len() > 0 {
            rendered.append("{");
            rendered.append(joined_labels.as_str());
            rendered.append("}");
        }
        rendered.append(" ");
        let value_text = self.value.render_value();
        rendered.append(value_text.as_str());
        match self.timestamp {
            Some(t) => {
                rendered.append(" ");
                let ts = crate::prometheus::decimal::render_unsigned(t);
                rendered.append(ts.as_str());
            },
            None => {},
        }
        proof {
            reveal_strlit("{");
            reveal_strlit("}");
            reveal_strlit(" ");
            assert(rendered@ =~= instance_text(labels, self.value_view().value_text(), self.timestamp_view()));
        }
        rendered
    }
}

} // verus!
