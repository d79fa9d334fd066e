//! The traffic counters of the device and the two metric families they are
//! published as.

use crate::error::{ScrapeError, ScrapeErrorView};
use prometheus_client::encoding::{DescriptorEncoder, MetricEncoder};
use prometheus_client::metrics::MetricType;
use prometheus_client::registry::{Registry, Unit};
use vstd::prelude::*;

verus! {

#[verifier::external_type_specification]
#[verifier::external_body]
pub struct ExDescriptorEncoder<'a>(DescriptorEncoder<'a>);

#[verifier::external_type_specification]
#[verifier::external_body]
pub struct ExMetricEncoder<'a>(MetricEncoder<'a>);

#[verifier::external_type_specification]
#[verifier::external_body]
pub struct ExFmtError(std::fmt::Error);

#[verifier::external_type_specification]
#[verifier::external_body]
pub struct ExRegistry(Registry);

/// Whether a counter covers the current connection or the device's lifetime.
#[derive(Clone, Copy, Debug, PartialEq, Eq, Structural)]
pub enum Period {
    Session,
    Total,
}

/// The direction of transferred data, seen from the device.
#[derive(Clone, Copy, Debug, PartialEq, Eq, Structural)]
pub enum Direction {
    Upload,
    Download,
}

#[derive(Clone, Copy, Debug, PartialEq, Eq, Structural)]
pub enum MetricKind {
    Gauge,
    Counter,
}

#[derive(Clone, Copy, Debug, PartialEq, Eq, Structural)]
pub enum MetricUnit {
    Bytes,
    Seconds,
}

/// The label set of one sample. Each family uses one of the two shapes.
#[derive(Clone, Copy, Debug, PartialEq, Eq, Structural)]
pub enum Labels {
    Transfer { period: Period, direction: Direction },
    Duration { period: Period },
}

/// One time series of a family: its labels and its current value.
#[derive(Clone, Copy, Debug, PartialEq, Eq, Structural)]
pub struct Sample {
    pub labels: Labels,
    pub value: u64,
}

/// A metric family: what is said once about it, and its samples in the order
/// in which they are published.
#[derive(Clone, Debug, PartialEq, Eq)]
pub struct Family {
    pub name: &'static str,
    pub help: &'static str,
    pub unit: MetricUnit,
    pub kind: MetricKind,
    pub samples: Vec<Sample>,
}

pub struct FamilyView {
    pub name: Seq<char>,
    pub help: Seq<char>,
    pub unit: MetricUnit,
    pub kind: MetricKind,
    pub samples: Seq<Sample>,
}

impl View for Family {
    type V = FamilyView;

    open spec fn view(&self) -> FamilyView {
        FamilyView {
            name: self.name@,
            help: self.help@,
            unit: self.unit,
            kind: self.kind,
            samples: self.samples@,
        }
    }
}

/// What is said once of a family: its name, help text, unit and type.
pub struct Head {
    pub name: Seq<char>,
    pub help: Seq<char>,
    pub unit: MetricUnit,
    pub kind: MetricKind,
}

/// One sample as it is handed to an encoder: its label names and values in
/// order, and its value.
pub type Row = (Seq<(Seq<char>, Seq<char>)>, u64);

/// The descriptors that a descriptor encoder was asked to write, in order,
/// each with whether it was written in full.
pub uninterp spec fn begun(encoder: DescriptorEncoder<'_>) -> Seq<(Head, bool)>;

/// The samples that a metric encoder was asked to write, in order, each with
/// whether it was written in full.
pub uninterp spec fn put(metric: MetricEncoder<'_>) -> Seq<(Row, bool)>;

/// Whether a metric encoder carries a label set of its own already.
pub uninterp spec fn labelled(metric: MetricEncoder<'_>) -> bool;

/// The name of the family under which a metric encoder writes its samples.
pub uninterp spec fn family_name(metric: MetricEncoder<'_>) -> Seq<char>;

/// A run of things that were all written in full.
pub open spec fn all_written<T>(items: Seq<T>) -> Seq<(T, bool)> {
    items.map_values(|item: T| (item, true))
}

/// The first `k` of a run written in full, and then the next one not.
pub open spec fn written_until<T>(items: Seq<T>, k: int) -> Seq<(T, bool)> {
    all_written(items.take(k)).push((items[k], false))
}

/// The views of a list of families, in order.
pub open spec fn family_views(families: Seq<Family>) -> Seq<FamilyView> {
    families.map_values(|f: Family| f@)
}

/// The views of a list of label pairs, in order.
pub open spec fn pair_views(pairs: Seq<(&str, &str)>) -> Seq<(Seq<char>, Seq<char>)> {
    pairs.map_values(|p: (&str, &str)| (p.0@, p.1@))
}

impl Period {
    pub open spec fn label(self) -> Seq<char> {
        match self {
            Period::Session => "session"@,
            Period::Total => "total"@,
        }
    }

    /// The label value under which the period is published.
    pub fn as_str(self) -> (r: &'static str)
        ensures
            r@ == self.label(),
    {
        match self {
            Period::Session => "session",
            Period::Total => "total",
        }
    }
}

impl Direction {
    pub open spec fn label(self) -> Seq<char> {
        match self {
            Direction::Upload => "upload"@,
            Direction::Download => "download"@,
        }
    }

    /// The label value under which the direction is published.
    pub fn as_str(self) -> (r: &'static str)
        ensures
            r@ == self.label(),
    {
        match self {
            Direction::Upload => "upload",
            Direction::Download => "download",
        }
    }
}

impl Labels {
    pub open spec fn spec_pairs(self) -> Seq<(Seq<char>, Seq<char>)> {
        match self {
            Labels::Transfer { period, direction } => seq![
                ("period"@, period.label()),
                ("direction"@, direction.label()),
            ],
            Labels::Duration { period } => seq![("period"@, period.label())],
        }
    }

    /// The label names and values of the set, in the order of publication.
    pub fn pairs(&self) -> (r: Vec<(&'static str, &'static str)>)
        ensures
            pair_views(r@) == self.spec_pairs(),
    {
        let mut out: Vec<(&'static str, &'static str)> = Vec::new();
        match *self {
            Labels::Transfer { period, direction } => {
                out.push(("period", period.as_str()));
                out.push(("direction", direction.as_str()));
            },
            Labels::Duration { period } => {
                out.push(("period", period.as_str()));
            },
        }
        assert(pair_views(out@) =~= self.spec_pairs());
        out
    }
}

/// A snapshot of the device's traffic counters.
#[derive(Clone, Copy, Debug, PartialEq, Eq, Structural)]
pub struct TrafficStatistics {
    pub current_upload: u64,
    pub current_download: u64,
    pub current_connect_time: u64,
    pub total_upload: u64,
    pub total_download: u64,
    pub total_connect_time: u64,
}

impl TrafficStatistics {
    /// The counter that a label set stands for.
    pub open spec fn spec_value(self, labels: Labels) -> u64 {
        match labels {
            Labels::Transfer { period: Period::Session, direction: Direction::Upload } => self.current_upload,
            Labels::Transfer { period: Period::Session, direction: Direction::Download } => self.current_download,
            Labels::Transfer { period: Period::Total, direction: Direction::Upload } => self.total_upload,
            Labels::Transfer { period: Period::Total, direction: Direction::Download } => self.total_download,
            Labels::Duration { period: Period::Session } => self.current_connect_time,
            Labels::Duration { period: Period::Total } => self.total_connect_time,
        }
    }

    pub open spec fn spec_sample(self, labels: Labels) -> Sample {
        Sample { labels, value: self.spec_value(labels) }
    }

    /// The family of transferred bytes: a gauge in bytes, one sample for each
    /// period and direction.
    pub open spec fn transferred(self) -> FamilyView {
        FamilyView {
            name: "modem_transferred"@,
            help: "Transferred bytes"@,
            unit: MetricUnit::Bytes,
            kind: MetricKind::Gauge,
            samples: seq![
                self.spec_sample(Labels::Transfer { period: Period::Session, direction: Direction::Upload }),
                self.spec_sample(Labels::Transfer { period: Period::Session, direction: Direction::Download }),
                self.spec_sample(Labels::Transfer { period: Period::Total, direction: Direction::Upload }),
                self.spec_sample(Labels::Transfer { period: Period::Total, direction: Direction::Download }),
            ],
        }
    }

    /// The family of connected time: a counter in seconds, one sample for
    /// each period.
    pub open spec fn connected(self) -> FamilyView {
        FamilyView {
            name: "modem_connect_duration"@,
            help: "Connected duration"@,
            unit: MetricUnit::Seconds,
            kind: MetricKind::Counter,
            samples: seq![
                self.spec_sample(Labels::Duration { period: Period::Session }),
                self.spec_sample(Labels::Duration { period: Period::Total }),
            ],
        }
    }

    /// The whole metrics document of a snapshot: its families in order.
    pub open spec fn document(self) -> Seq<FamilyView> {
        seq![self.transferred(), self.connected()]
    }

    /// The counter that a label set stands for.
    pub fn value(&self, labels: Labels) -> (r: u64)
        ensures
            r == self.spec_value(labels),
    {
        match labels {
            Labels::Transfer { period: Period::Session, direction: Direction::Upload } => self.current_upload,
            Labels::Transfer { period: Period::Session, direction: Direction::Download } => self.current_download,
            Labels::Transfer { period: Period::Total, direction: Direction::Upload } => self.total_upload,
            Labels::Transfer { period: Period::Total, direction: Direction::Download } => self.total_download,
            Labels::Duration { period: Period::Session } => self.current_connect_time,
            Labels::Duration { period: Period::Total } => self.total_connect_time,
        }
    }

    /// The sample of one label set.
    pub fn sample(&self, labels: Labels) -> (r: Sample)
        ensures
            r == self.spec_sample(labels),
    {
        Sample { labels, value: self.value(labels) }
    }

    /// The two metric families of the snapshot, each with all its samples.
    pub fn families(&self) -> (r: Vec<Family>)
        ensures
            family_views(r@) == self.document(),
    {
        let mut bytes: Vec<Sample> = Vec::new();
        bytes.push(self.sample(Labels::Transfer { period: Period::Session, direction: Direction::Upload }));
        bytes.push(self.sample(Labels::Transfer { period: Period::Session, direction: Direction::Download }));
        bytes.push(self.sample(Labels::Transfer { period: Period::Total, direction: Direction::Upload }));
        bytes.push(self.sample(Labels::Transfer { period: Period::Total, direction: Direction::Download }));
        let mut seconds: Vec<Sample> = Vec::new();
        seconds.push(self.sample(Labels::Duration { period: Period::Session }));
        seconds.push(self.sample(Labels::Duration { period: Period::Total }));
        let transferred = Family {
            name: "modem_transferred",
            help: "Transferred bytes",
            unit: MetricUnit::Bytes,
            kind: MetricKind::Gauge,
            samples: bytes,
        };
        let connected = Family {
            name: "modem_connect_duration",
            help: "Connected duration",
            unit: MetricUnit::Seconds,
            kind: MetricKind::Counter,
            samples: seconds,
        };
        assert(transferred@.samples =~= self.transferred().samples);
        assert(connected@.samples =~= self.connected().samples);
        let mut out: Vec<Family> = Vec::new();
        out.push(transferred);
        out.push(connected);
        assert(family_views(out@) =~= self.document());
        out
    }

    /// Writes the snapshot to a metrics encoder: each family's descriptor
    /// once, in the document's order, and after each descriptor the samples
    /// of that family, through the metric encoder that the descriptor gave.
    /// The first failure of the encoder ends the writing and is handed on:
    /// what was asked of the encoder last is what failed.
    pub fn encode(&self, encoder: &mut DescriptorEncoder<'_>) -> (r: Result<(), std::fmt::Error>)
        ensures
            r is Ok ==> begun(*final(encoder)) == begun(*old(encoder)) + all_written(
                heads(self.document()),
            ),
            r is Ok ==> forall|j: int| 0 <= j < 2 ==> was_put(#[trigger] self.document()[j]),
            r is Err ==> exists|k: int|
                0 <= k < 2 && #[trigger] stopped_at(
                    self.document(),
                    k,
                    begun(*old(encoder)),
                    begun(*final(encoder)),
                ),
    {
        let families = self.families();
        let ghost doc = self.document();
        let ghost all = heads(doc);
        let ghost before = begun(*encoder);
        let mut i: usize = 0;
        assert(before + all_written(all.take(0)) =~= before);
        while i < families.len()
            invariant
                i <= families.len(),
                families@.len() == 2,
                doc == self.document(),
                family_views(families@) == doc,
                all == heads(doc),
                before == begun(*old(encoder)),
                begun(*encoder) == before + all_written(all.take(i as int)),
                forall|j: int| 0 <= j < i ==> was_put(#[trigger] doc[j]),
            decreases families.len() - i,
        {
            let family = &families[i];
            let ghost rows = sample_rows(family@.samples);
            proof {
                assert(family_views(families@)[i as int] == family@);
                assert(doc[i as int] == family@);
                assert(all[i as int] == head_of(family@));
                assert(before + all_written(all.take(i + 1)) =~= (before + all_written(
                    all.take(i as int),
                )).push((all[i as int], true)));
                assert(before + written_until(all, i as int) =~= (before + all_written(
                    all.take(i as int),
                )).push((all[i as int], false)));
            }
            let mut metric = match begin_family(
                encoder,
                family.name,
                family.help,
                family.unit,
                family.kind,
            ) {
                Ok(metric) => metric,
                Err(e) => {
                    assert(begun(*encoder) == before + written_until(all, i as int));
                    assert(stopped_at(doc, i as int, before, begun(*encoder)));
                    return Err(e);
                },
            };
            assert(put(metric) =~= Seq::<(Row, bool)>::empty());
            match put_samples(&mut metric, &family.samples) {
                Ok(()) => {
                    assert(put(metric) =~= all_written(rows));
                    assert(put_through(doc[i as int], metric));
                    assert(was_put(doc[i as int]));
                },
                Err(e) => {
                    proof {
                        let n = choose|n: int|
                            0 <= n < rows.len() && put(metric) == Seq::<(Row, bool)>::empty()
                                + written_until(rows, n);
                        assert(put(metric) =~= written_until(rows, n));
                        assert(cut_short_at(doc[i as int], n, metric));
                        assert(was_cut_short(doc[i as int]));
                        assert(begun(*encoder) == before + all_written(all.take(i + 1)));
                        assert(stopped_at(doc, i as int, before, begun(*encoder)));
                    }
                    return Err(e);
                },
            }
            i += 1;
        }
        assert(all.take(2) =~= all);
        Ok(())
    }
}

/// The descriptor of a family.
pub open spec fn head_of(family: FamilyView) -> Head {
    Head { name: family.name, help: family.help, unit: family.unit, kind: family.kind }
}

/// The descriptors of a list of families, in order.
pub open spec fn heads(families: Seq<FamilyView>) -> Seq<Head> {
    families.map_values(|f: FamilyView| head_of(f))
}

/// A sample as it is handed to an encoder.
pub open spec fn row_of(sample: Sample) -> Row {
    (sample.labels.spec_pairs(), sample.value)
}

/// The rows of a list of samples, in order.
pub open spec fn sample_rows(samples: Seq<Sample>) -> Seq<Row> {
    samples.map_values(|s: Sample| row_of(s))
}

/// Whether `metric` writes under the family's name and was asked for the
/// family's samples, all of them in order and nothing else, and wrote each
/// in full.
pub open spec fn put_through(family: FamilyView, metric: MetricEncoder<'_>) -> bool {
    family_name(metric) == family.name && put(metric) == all_written(sample_rows(family.samples))
}

/// Whether the samples of a family were written in full, all of them in
/// order and nothing else, through a metric encoder that writes under the
/// family's name.
pub open spec fn was_put(family: FamilyView) -> bool {
    exists|metric: MetricEncoder<'static>| #[trigger] put_through(family, metric)
}

/// Whether `metric` writes under the family's name and was asked for the
/// first `n` samples of the family and the next one, and nothing else, and
/// wrote all but the last in full.
pub open spec fn cut_short_at(family: FamilyView, n: int, metric: MetricEncoder<'_>) -> bool {
    &&& 0 <= n < family.samples.len()
    &&& family_name(metric) == family.name
    &&& put(metric) == written_until(sample_rows(family.samples), n)
}

/// Whether the writing of a family's samples ended with a sample that was
/// not written in full.
pub open spec fn was_cut_short(family: FamilyView) -> bool {
    exists|n: int, metric: MetricEncoder<'static>| #[trigger] cut_short_at(family, n, metric)
}

/// Whether the writing of a document ended with a failure in family `k`,
/// where `before` is what the encoder had been asked before and `after`
/// what it has been asked now.
///
/// The families before `k` were written in full, samples and all. Of family
/// `k` either the descriptor failed, and was the last thing asked of the
/// encoder; or the descriptor was written and one of the samples failed,
/// and was the last thing asked. No later family was asked for.
pub open spec fn stopped_at(
    families: Seq<FamilyView>,
    k: int,
    before: Seq<(Head, bool)>,
    after: Seq<(Head, bool)>,
) -> bool {
    &&& 0 <= k < families.len()
    &&& forall|j: int| 0 <= j < k ==> was_put(#[trigger] families[j])
    &&& {
        ||| after == before + written_until(heads(families), k)
        ||| after == before + all_written(heads(families).take(k + 1)) && was_cut_short(
            families[k],
        )
    }
}

/// Writes samples through a metric encoder that carries no label set of its
/// own, each under its label pairs, in order. The first failure of the
/// encoder ends the writing and is handed on: the sample that failed is the
/// last that was asked of the encoder.
fn put_samples(metric: &mut MetricEncoder<'_>, samples: &Vec<Sample>) -> (r: Result<
    (),
    std::fmt::Error,
>)
    requires
        !labelled(*old(metric)),
    ensures
        !labelled(*final(metric)),
        family_name(*final(metric)) == family_name(*old(metric)),
        r is Ok ==> put(*final(metric)) == put(*old(metric)) + all_written(sample_rows(samples@)),
        r is Err ==> exists|k: int|
            0 <= k < samples@.len() && put(*final(metric)) == put(*old(metric)) + #[trigger] written_until(
                sample_rows(samples@),
                k,
            ),
{
    let ghost before = put(*metric);
    let ghost rows = sample_rows(samples@);
    let mut j: usize = 0;
    assert(before + all_written(rows.take(0)) =~= before);
    while j < samples.len()
        invariant
            j <= samples.len(),
            rows == sample_rows(samples@),
            !labelled(*metric),
            family_name(*metric) == family_name(*old(metric)),
            before == put(*old(metric)),
            put(*metric) == before + all_written(rows.take(j as int)),
        decreases samples.len() - j,
    {
        let sample = &samples[j];
        let pairs = sample.labels.pairs();
        proof {
            assert(rows[j as int] == (pair_views(pairs@), sample.value));
            assert(before + all_written(rows.take(j + 1)) =~= (before + all_written(
                rows.take(j as int),
            )).push((rows[j as int], true)));
            assert(before + written_until(rows, j as int) =~= (before + all_written(
                rows.take(j as int),
            )).push((rows[j as int], false)));
        }
        match put_sample(metric, pairs.as_slice(), sample.value) {
            Ok(()) => {},
            Err(e) => {
                assert(put(*metric) == before + written_until(sample_rows(samples@), j as int));
                return Err(e);
            },
        }
        j += 1;
    }
    assert(rows.take(j as int) =~= rows);
    Ok(())
}

/// What a scrape hands out once the encoder is done: the text as it was
/// written, or the failure to write it.
pub fn encoding_outcome(written: Result<String, std::fmt::Error>) -> (r: Result<String, ScrapeError>)
    ensures
        match written {
            Ok(text) => r == Ok::<String, ScrapeError>(text),
            Err(_) => r is Err && r->Err_0@ == ScrapeErrorView::Encoding,
        },
{
    match written {
        Ok(text) => Ok(text),
        Err(_) => Err(ScrapeError::Encoding),
    }
}

/// The mark that ends a metrics text.
pub open spec fn end_mark() -> Seq<char> {
    seq!['#', ' ', 'E', 'O', 'F', '\n']
}

/// Whether a text ends with the end mark.
pub open spec fn ends_with_mark(text: Seq<char>) -> bool {
    text.len() >= end_mark().len() && text.skip(text.len() - end_mark().len()) == end_mark()
}

/// The metrics text of everything that is registered with `registry`, closed
/// by the end mark. A failure of the encoder is an encoding failure.
pub fn render(registry: &Registry) -> (r: Result<String, ScrapeError>)
    ensures
        r is Ok ==> ends_with_mark(r->Ok_0@),
        r is Err ==> r->Err_0@ == ScrapeErrorView::Encoding,
{
    encoding_outcome(encode_text(registry))
}

/// Every label set of a family occurs in the document exactly once, with the
/// counter it stands for as its value, and the families hold no other
/// sample: four for transferred bytes, two for connected time.
pub proof fn lemma_one_sample_per_label_set(stats: TrafficStatistics)
    ensures
        stats.document().len() == 2,
        stats.document()[0].samples.len() == 4,
        stats.document()[1].samples.len() == 2,
        forall|i: int|
            0 <= i < 4 ==> (#[trigger] stats.document()[0].samples[i]).labels is Transfer,
        forall|i: int|
            0 <= i < 2 ==> (#[trigger] stats.document()[1].samples[i]).labels is Duration,
        forall|k: int, i: int|
            0 <= k < 2 && 0 <= i < stats.document()[k].samples.len() ==> (
            #[trigger] stats.document()[k].samples[i]).value == stats.spec_value(
                stats.document()[k].samples[i].labels,
            ),
        forall|k: int, i: int, j: int|
            0 <= k < 2 && 0 <= i < stats.document()[k].samples.len() && 0 <= j
                < stats.document()[k].samples.len() && (
            #[trigger] stats.document()[k].samples[i]).labels == (
            #[trigger] stats.document()[k].samples[j]).labels ==> i == j,
        forall|period: Period, direction: Direction|
            stats.document()[0].samples.contains(
                #[trigger] stats.spec_sample(Labels::Transfer { period, direction }),
            ),
        forall|period: Period|
            stats.document()[1].samples.contains(
                #[trigger] stats.spec_sample(Labels::Duration { period }),
            ),
{
    let bytes = stats.document()[0].samples;
    let seconds = stats.document()[1].samples;
    assert forall|period: Period, direction: Direction|
        bytes.contains(#[trigger] stats.spec_sample(Labels::Transfer { period, direction })) by {
        let at: int = match (period, direction) {
            (Period::Session, Direction::Upload) => 0,
            (Period::Session, Direction::Download) => 1,
            (Period::Total, Direction::Upload) => 2,
            (Period::Total, Direction::Download) => 3,
        };
        assert(bytes[at] == stats.spec_sample(Labels::Transfer { period, direction }));
    }
    assert forall|period: Period|
        seconds.contains(#[trigger] stats.spec_sample(Labels::Duration { period })) by {
        let at: int = match period {
            Period::Session => 0,
            Period::Total => 1,
        };
        assert(seconds[at] == stats.spec_sample(Labels::Duration { period }));
    }
}

/// The document is a function of the snapshot alone, and it keeps every
/// counter: two snapshots give the same document exactly when they are equal.
pub proof fn lemma_document_determined_by_statistics(a: TrafficStatistics, b: TrafficStatistics)
    ensures
        a == b ==> a.document() == b.document(),
        a.document() == b.document() ==> a == b,
{
    if a.document() == b.document() {
        assert(a.document()[0].samples[0].value == b.document()[0].samples[0].value);
        assert(a.document()[0].samples[1].value == b.document()[0].samples[1].value);
        assert(a.document()[0].samples[2].value == b.document()[0].samples[2].value);
        assert(a.document()[0].samples[3].value == b.document()[0].samples[3].value);
        assert(a.document()[1].samples[0].value == b.document()[1].samples[0].value);
        assert(a.document()[1].samples[1].value == b.document()[1].samples[1].value);
    }
}

/// Calls `DescriptorEncoder::encode_descriptor` with the unit and the metric
/// type that stand for `unit` and `kind`. The descriptor is the last that the
/// encoder was asked to write, and it was written in full exactly where the
/// call succeeds. The metric encoder that then comes back writes under
/// `name`, has been asked for no sample and carries no label set. Whether
/// the call succeeds is up to the writer behind the encoder.
#[verifier::external_body]
fn begin_family<'s>(
    encoder: &'s mut DescriptorEncoder<'_>,
    name: &'s str,
    help: &str,
    unit: MetricUnit,
    kind: MetricKind,
) -> (r: Result<MetricEncoder<'s>, std::fmt::Error>)
    ensures
        begun(*final(encoder)) == begun(*old(encoder)).push(
            (Head { name: name@, help: help@, unit, kind }, r is Ok),
        ),
        r is Ok ==> put(r->Ok_0).len() == 0,
        r is Ok ==> !labelled(r->Ok_0),
        r is Ok ==> family_name(r->Ok_0) == name@,
{
    let unit = match unit {
        MetricUnit::Bytes => &Unit::Bytes,
        MetricUnit::Seconds => &Unit::Seconds,
    };
    let kind = match kind {
        MetricKind::Gauge => MetricType::Gauge,
        MetricKind::Counter => MetricType::Counter,
    };
    encoder.encode_descriptor(name, help, Some(unit), kind)
}

/// Calls `MetricEncoder::encode_family` with the label pairs and then
/// `MetricEncoder::encode_counter` with the value and no exemplar. The first
/// call asks for an encoder that carries no label set of its own, and leaves
/// it so, as it leaves the name under which the encoder writes. The sample
/// is the last that the encoder was asked to write, and it was written in
/// full exactly where the calls succeed. Whether they succeed is up to the
/// writer behind the encoder.
#[verifier::external_body]
fn put_sample(family: &mut MetricEncoder<'_>, labels: &[(&str, &str)], value: u64) -> (r: Result<
    (),
    std::fmt::Error,
>)
    requires
        !labelled(*old(family)),
    ensures
        !labelled(*final(family)),
        family_name(*final(family)) == family_name(*old(family)),
        put(*final(family)) == put(*old(family)).push(((pair_views(labels@), value), r is Ok)),
{
    family.encode_family(&labels)?.encode_counter::<(), _, u64>(&value, None)
}

/// Calls `prometheus_client::encoding::text::encode` with a new `String` as
/// the writer and hands the string out. Where the call succeeds, the last
/// thing written is the end mark. What stands before it depends on what was
/// registered, and nothing is claimed of that.
#[verifier::external_body]
fn encode_text(registry: &Registry) -> (r: Result<String, std::fmt::Error>)
    ensures
        r is Ok ==> ends_with_mark(r->Ok_0@),
{
    let mut text = String::new();
    prometheus_client::encoding::text::encode(&mut text, registry)?;
    Ok(text)
}

} // verus!
