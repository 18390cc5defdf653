//! The Prometheus instruments that the bindings drive, and the registry that
//! collects them.
//!
//! Everything in this module that reaches into the `prometheus` crate is
//! stated, not proved: each such function says in its documentation which
//! call it makes and what is taken on trust about it. A sample value is
//! carried as the bit pattern of its IEEE-754 double, which is also how the
//! crate stores it.

use vstd::prelude::*;
use crate::config::texts;

verus! {

/// A letter or an underscore: what a label name may start with.
pub open spec fn is_name_start(c: char) -> bool {
    ('a' <= c && c <= 'z') || ('A' <= c && c <= 'Z') || c == '_'
}

/// A decimal digit.
pub open spec fn is_name_digit(c: char) -> bool {
    '0' <= c && c <= '9'
}

/// A label name is a letter or underscore followed by letters, digits and
/// underscores.
pub open spec fn valid_label_name(s: Seq<char>) -> bool {
    &&& s.len() > 0
    &&& is_name_start(s[0])
    &&& forall|i: int| 0 < i < s.len() ==> is_name_start(#[trigger] s[i]) || is_name_digit(s[i])
}

/// A metric name is a label name in which colons may also occur.
pub open spec fn valid_metric_name(s: Seq<char>) -> bool {
    &&& s.len() > 0
    &&& (is_name_start(s[0]) || s[0] == ':')
    &&& forall|i: int|
        0 < i < s.len() ==> is_name_start(#[trigger] s[i]) || s[i] == ':' || is_name_digit(s[i])
}

/// No text occurs twice.
pub open spec fn distinct_texts(s: Seq<Seq<char>>) -> bool {
    forall|i: int, j: int| 0 <= i < j < s.len() ==> s[i] != s[j]
}

/// Every label name is valid and none occurs twice.
pub open spec fn valid_label_names(s: Seq<Seq<char>>) -> bool {
    &&& forall|i: int| 0 <= i < s.len() ==> valid_label_name(#[trigger] s[i])
    &&& distinct_texts(s)
}

/// What a gauge or a family of gauges can be created from: a valid metric
/// name and a help text that is not empty.
pub open spec fn valid_description(name: Seq<char>, help: Seq<char>) -> bool {
    valid_metric_name(name) && help.len() > 0
}

/// `prometheus::Registry`, of which nothing is known but what the functions
/// below state.
#[verifier::external_type_specification]
#[verifier::external_body]
pub struct ExRegistry(prometheus::Registry);

/// `prometheus::Error`, carried and never looked into.
#[verifier::external_type_specification]
#[verifier::external_body]
pub struct ExPrometheusError(prometheus::Error);

/// A single gauge, `prometheus::Gauge`.
#[verifier::external_body]
pub struct GaugeCell {
    inner: prometheus::Gauge,
}

/// A family of gauges told apart by their label values, `prometheus::GaugeVec`.
#[verifier::external_body]
pub struct GaugeFamily {
    inner: prometheus::GaugeVec,
}

/// The identifier that `prometheus` derives from a metric name: the hash by
/// which a registry tells descriptors apart.
pub uninterp spec fn metric_id(name: Seq<char>) -> u64;

/// The hash that `prometheus` takes of a text, over its bytes.
pub uninterp spec fn text_hash(text: Seq<char>) -> u64;

/// The key under which a family files the gauge for a tuple of label values:
/// the hash of the values run together, so that two tuples may share a key.
pub open spec fn label_key(values: Seq<Seq<char>>) -> u64 {
    text_hash(values.flatten())
}

/// The label pairs that a family reports for a child: its label names paired
/// with the child's values, in the order in which `prometheus` lists them,
/// which is that of the names.
pub uninterp spec fn label_pairs(names: Seq<Seq<char>>, values: Seq<Seq<char>>) -> Seq<
    (Seq<char>, Seq<char>),
>;

/// The pairs are the names with their values: there are as many pairs as
/// names, and each name occurs with the value at its own place.
pub open spec fn pairs_up(
    pairs: Seq<(Seq<char>, Seq<char>)>,
    names: Seq<Seq<char>>,
    values: Seq<Seq<char>>,
) -> bool {
    &&& pairs.len() == names.len()
    &&& forall|j: int|
        #![trigger names[j]]
        0 <= j < names.len() ==> exists|p: int|
            0 <= p < pairs.len() && #[trigger] pairs[p] == (names[j], values[j])
}

/// The metric name that a gauge was created with.
pub uninterp spec fn gauge_name(g: GaugeCell) -> Seq<char>;

/// The bit pattern of the sample that a gauge holds.
pub uninterp spec fn gauge_bits(g: GaugeCell) -> u64;

/// The metric name that a family was created with.
pub uninterp spec fn family_name(f: GaugeFamily) -> Seq<char>;

/// The label names that a family was created with, in order.
pub uninterp spec fn family_labels(f: GaugeFamily) -> Seq<Seq<char>>;

/// The children of a family: for each key in use, the label values that the
/// child was created with and the bit pattern of its sample.
pub uninterp spec fn family_children(f: GaugeFamily) -> Map<u64, (Seq<Seq<char>>, u64)>;

/// A family without children.
pub open spec fn no_children() -> Map<u64, (Seq<Seq<char>>, u64)> {
    Map::empty()
}

/// The descriptor identifiers that a registry holds.
pub uninterp spec fn registry_ids(r: prometheus::Registry) -> Set<u64>;

/// The metric names for which a registry has recorded a label dimension.
pub uninterp spec fn registry_names(r: prometheus::Registry) -> Set<Seq<char>>;

/// The identifiers of the collectors that a registry holds.
pub uninterp spec fn registry_collectors(r: prometheus::Registry) -> Set<u64>;

/// The identifiers of the collectors that a registry holds and that are
/// neither a `prometheus::Gauge` nor a `prometheus::GaugeVec`.
pub uninterp spec fn registry_foreign(r: prometheus::Registry) -> Set<u64>;

/// Calls `prometheus::Gauge::with_opts` on `prometheus::Opts::new(name, help)`.
///
/// Trusted: creation succeeds exactly for a valid metric name with a help
/// text that is not empty, and the new gauge carries that name and holds
/// zero.
#[verifier::external_body]
pub(crate) fn gauge_new(name: &String, help: &String) -> (r: Result<GaugeCell, prometheus::Error>)
    ensures
        r is Ok <==> valid_description(name@, help@),
        r matches Ok(g) ==> gauge_name(g) == name@ && gauge_bits(g) == 0,
{
    match prometheus::Gauge::with_opts(prometheus::Opts::new(name.clone(), help.clone())) {
        Ok(inner) => Ok(GaugeCell { inner }),
        Err(e) => Err(e),
    }
}

/// Calls `prometheus::GaugeVec::new` on `prometheus::Opts::new(name, help)`
/// and the label names.
///
/// Trusted: creation succeeds exactly for a valid metric name, a help text
/// that is not empty and label names that are valid and pairwise distinct;
/// the new family carries that name and those label names and has no
/// children.
#[verifier::external_body]
pub(crate) fn family_new(name: &String, help: &String, labels: &Vec<String>) -> (r: Result<GaugeFamily, prometheus::Error>)
    ensures
        r is Ok <==> (valid_description(name@, help@) && valid_label_names(texts(labels@))),
        r matches Ok(f) ==> family_name(f) == name@,
        r matches Ok(f) ==> family_labels(f) == texts(labels@),
        r matches Ok(f) ==> family_children(f) == no_children(),
{
    let names: Vec<&str> = labels.iter().map(String::as_str).collect();
    match prometheus::GaugeVec::new(prometheus::Opts::new(name.clone(), help.clone()), &names) {
        Ok(inner) => Ok(GaugeFamily { inner }),
        Err(e) => Err(e),
    }
}

/// Calls `Gauge::set` with the double whose bit pattern is `bits`.
///
/// Trusted: the gauge stores the bit pattern of the double it is given, so
/// that it then holds exactly these bits; it keeps its name.
#[verifier::external_body]
pub(crate) fn gauge_set(gauge: &mut GaugeCell, bits: u64)
    ensures
        gauge_bits(*final(gauge)) == bits,
        gauge_name(*final(gauge)) == gauge_name(*old(gauge)),
{
    gauge.inner.set(
        <<prometheus::core::AtomicF64 as prometheus::core::Atomic>::T>::from_bits(bits),
    );
}

/// Calls `Gauge::get` and takes the bit pattern of the double it returns.
///
/// Trusted: these are the bits that the gauge holds.
#[verifier::external_body]
pub(crate) fn gauge_get(gauge: &GaugeCell) -> (bits: u64)
    ensures
        bits == gauge_bits(*gauge),
{
    gauge.inner.get().to_bits()
}

/// Calls `GaugeVec::reset`.
///
/// Trusted: the family has no children afterwards and keeps its name and
/// label names.
#[verifier::external_body]
pub(crate) fn family_reset(family: &mut GaugeFamily)
    ensures
        family_children(*final(family)) == no_children(),
        family_name(*final(family)) == family_name(*old(family)),
        family_labels(*final(family)) == family_labels(*old(family)),
{
    family.inner.reset();
}

/// What a family's children become when the child for `values` is set to
/// `bits`: a child already filed under the key of `values` keeps the label
/// values it was created with, a new child is created with `values`.
pub open spec fn children_with(
    children: Map<u64, (Seq<Seq<char>>, u64)>,
    values: Seq<Seq<char>>,
    bits: u64,
) -> Map<u64, (Seq<Seq<char>>, u64)> {
    let key = label_key(values);
    if children.contains_key(key) {
        children.insert(key, (children[key].0, bits))
    } else {
        children.insert(key, (values, bits))
    }
}

/// Calls `GaugeVec::with_label_values` and `Gauge::set` on the child it
/// returns, with the double whose bit pattern is `bits`.
///
/// Trusted: with as many values as the family has label names the call does
/// not panic; the child filed under the key of `values` then holds `bits`,
/// having been created with `values` if the key was free, and nothing else
/// changes.
#[verifier::external_body]
pub(crate) fn family_set(family: &mut GaugeFamily, values: &Vec<String>, bits: u64)
    requires
        values.len() == family_labels(*old(family)).len(),
    ensures
        family_children(*final(family)) == children_with(
            family_children(*old(family)),
            texts(values@),
            bits,
        ),
        family_children(*final(family)).contains_key(text_hash(texts(values@).flatten())),
        family_name(*final(family)) == family_name(*old(family)),
        family_labels(*final(family)) == family_labels(*old(family)),
{
    family.inner.with_label_values(values).set(
        <<prometheus::core::AtomicF64 as prometheus::core::Atomic>::T>::from_bits(bits),
    );
}

/// One collected sample: the label pairs of a gauge and the bit pattern of
/// the double it holds.
#[derive(Debug)]
pub struct Sample {
    pub labels: Vec<(String, String)>,
    pub bits: u64,
}

/// The mathematical content of a [`Sample`].
pub ghost struct SampleView {
    pub labels: Seq<(Seq<char>, Seq<char>)>,
    pub bits: u64,
}

impl View for Sample {
    type V = SampleView;

    open spec fn view(&self) -> SampleView {
        SampleView {
            labels: Seq::new(self.labels.len() as nat, |i: int| (self.labels[i].0@, self.labels[i].1@)),
            bits: self.bits,
        }
    }
}

/// The views of a list of samples, in order.
pub open spec fn sample_views(samples: Seq<Sample>) -> Seq<SampleView> {
    Seq::new(samples.len(), |i: int| samples[i]@)
}

/// The family has a child filed under `key`.
pub open spec fn has_child(family: GaugeFamily, key: u64) -> bool {
    family_children(family).contains_key(key)
}

/// Calls `Collector::collect` on the family and hands out, for each child,
/// its label pairs and the bit pattern of its sample.
///
/// Trusted: there is one sample per child, in no stated order, and each
/// shows the label pairs and the bits of its child; the label pairs of a
/// child are the label names of the family, each with the child's value for
/// it.
#[verifier::external_body]
pub(crate) fn family_samples(family: &GaugeFamily) -> (r: Vec<Sample>)
    ensures
        r.len() == family_children(*family).dom().len(),
        forall|i: int|
            #![trigger r[i]]
            0 <= i < r.len() ==> exists|k: u64|
                #[trigger] family_children(*family).contains_key(k) && r[i]@ == (SampleView {
                    labels: label_pairs(family_labels(*family), family_children(*family)[k].0),
                    bits: family_children(*family)[k].1,
                }) && pairs_up(
                    label_pairs(family_labels(*family), family_children(*family)[k].0),
                    family_labels(*family),
                    family_children(*family)[k].0,
                ),
        forall|k: u64|
            #[trigger] has_child(*family, k) ==> exists|i: int|
                0 <= i < r.len() && (#[trigger] r[i])@ == (SampleView {
                    labels: label_pairs(family_labels(*family), family_children(*family)[k].0),
                    bits: family_children(*family)[k].1,
                }),
{
    let families = prometheus::core::Collector::collect(&family.inner);
    families.iter().flat_map(|f| f.get_metric().iter()).map(
        |m| Sample {
            labels: m.get_label().iter().map(|p| (p.name().to_string(), p.value().to_string())).collect(),
            bits: m.get_gauge().get_value().to_bits(),
        },
    ).collect()
}

/// Calls `prometheus::Registry::new`.
///
/// Trusted: the new registry holds nothing.
#[verifier::external_body]
pub(crate) fn registry_new() -> (r: prometheus::Registry)
    ensures
        registry_ids(r) == Set::<u64>::empty(),
        registry_names(r) == Set::<Seq<char>>::empty(),
        registry_collectors(r) == Set::<u64>::empty(),
        registry_foreign(r) == Set::<u64>::empty(),
{
    prometheus::Registry::new()
}

/// What `Registry::register` does with a collector that has the single
/// descriptor of the metric `name`: it refuses an identifier that it already
/// holds, accepts one that is new in every respect, and changes what it
/// holds only as far as the outcome says.
pub open spec fn registers(
    before: prometheus::Registry,
    after: prometheus::Registry,
    name: Seq<char>,
    accepted: bool,
) -> bool {
    let id = metric_id(name);
    &&& registry_ids(before).contains(id) ==> !accepted
    &&& !registry_ids(before).contains(id) && !registry_names(before).contains(name)
        && !registry_collectors(before).contains(id) ==> accepted
    &&& accepted ==> {
        &&& registry_ids(after) == registry_ids(before).insert(id)
        &&& registry_names(after) == registry_names(before).insert(name)
        &&& registry_collectors(after) == registry_collectors(before).insert(id)
    }
    &&& !accepted ==> {
        &&& registry_ids(after) == registry_ids(before)
        &&& registry_collectors(after) == registry_collectors(before)
        &&& registry_names(before).subset_of(registry_names(after))
        &&& registry_names(after).subset_of(registry_names(before).insert(name))
    }
}

/// A registry that has only ever been filled, one single metric at a time:
/// every name it has recorded belongs to an identifier it holds, and so does
/// every collector.
pub open spec fn registry_tidy(r: prometheus::Registry) -> bool {
    &&& forall|n: Seq<char>| #[trigger]
        registry_names(r).contains(n) ==> registry_ids(r).contains(metric_id(n))
    &&& registry_collectors(r).subset_of(registry_ids(r))
}

/// Calls `Registry::register` with a handle to the gauge.
///
/// Trusted: the outcome and the registry afterwards are as [`registers`]
/// says for the gauge's name, and no collector of another kind comes in.
#[verifier::external_body]
pub(crate) fn register_gauge(registry: &mut prometheus::Registry, gauge: &GaugeCell) -> (r: Result<(), prometheus::Error>)
    ensures
        registers(*old(registry), *final(registry), gauge_name(*gauge), r is Ok),
        r is Err ==> registry_ids(*final(registry)) == registry_ids(*old(registry)),
        r is Ok ==> registry_ids(*final(registry)) == registry_ids(*old(registry)).insert(
            metric_id(gauge_name(*gauge)),
        ),
        registry_foreign(*final(registry)) == registry_foreign(*old(registry)),
{
    registry.register(Box::new(gauge.inner.clone()))
}

/// Calls `Registry::register` with a handle to the family.
///
/// Trusted: the outcome and the registry afterwards are as [`registers`]
/// says for the family's name, and no collector of another kind comes in.
#[verifier::external_body]
pub(crate) fn register_family(registry: &mut prometheus::Registry, family: &GaugeFamily) -> (r: Result<(), prometheus::Error>)
    ensures
        registers(*old(registry), *final(registry), family_name(*family), r is Ok),
        r is Err ==> registry_ids(*final(registry)) == registry_ids(*old(registry)),
        r is Ok ==> registry_ids(*final(registry)) == registry_ids(*old(registry)).insert(
            metric_id(family_name(*family)),
        ),
        registry_foreign(*final(registry)) == registry_foreign(*old(registry)),
{
    registry.register(Box::new(family.inner.clone()))
}

/// The content type of the text exposition.
pub open spec fn text_format_view() -> Seq<char> {
    "text/plain; version=0.0.4"@
}

/// Calls `Encoder::format_type` on a `prometheus::TextEncoder`.
///
/// Trusted: it names the text exposition format, version 0.0.4.
#[verifier::external_body]
pub(crate) fn text_format() -> (r: String)
    ensures
        r@ == text_format_view(),
{
    prometheus::Encoder::format_type(&prometheus::TextEncoder::new()).to_string()
}

} // verus!
