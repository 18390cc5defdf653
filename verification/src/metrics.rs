//! The metric set: an ordered list of bindings, each a query
//! together with the instrument it drives.

use vstd::prelude::*;
use crate::config::{specs, QueryConfig, QuerySpec};
use crate::instrument::{
    family_children, family_labels, family_name, family_new, family_reset, family_samples,
    family_set, gauge_bits, gauge_get, gauge_name, gauge_new, gauge_set, has_child, label_pairs,
    metric_id, pairs_up,
    no_children, register_family, register_gauge, registers, registry_collectors,
    registry_foreign, registry_ids, registry_tidy,
    sample_views, valid_description, valid_label_names, GaugeCell, GaugeFamily, Sample,
    SampleView,
};
use crate::refresh::{
    apply_rows, label_values, refresh_binding, refreshed, row_views, vector_children,
    QueryOutcome, Refresh, Row,
};

verus! {

/// Why a metric set could not be built.
#[derive(Debug, Clone, Copy, PartialEq, Eq, Structural)]
pub enum MetricBuildError {
    /// The query at `index` has an invalid metric name, an empty
    /// help text, or label names that are invalid or repeat.
    Invalid { index: usize },
    /// The query at `index` collides with a metric that is already
    /// registered.
    Collision { index: usize },
}

/// The instrument of a binding: one gauge, or a family of gauges told apart
/// by their label values.
enum Metric {
    Gauge(GaugeCell),
    GaugeVec(GaugeFamily),
}

/// What an instrument holds.
pub ghost enum Instrument {
    /// A single sample, as the bit pattern of its double.
    Scalar { bits: u64 },
    /// One child per key in use: the label values it was created with and
    /// the bit pattern of its sample.
    Vector { children: Map<u64, (Seq<Seq<char>>, u64)> },
}

/// The mathematical content of a binding.
pub ghost struct BindingView {
    pub spec: QuerySpec,
    pub instrument: Instrument,
}

/// One query bound to the instrument it drives.
pub struct Binding {
    config: QueryConfig,
    metric: Metric,
}

/// A query from which an instrument can be created.
pub open spec fn buildable(spec: QuerySpec) -> bool {
    &&& valid_description(spec.name, spec.help)
    &&& spec.is_scalar() || valid_label_names(spec.label_columns)
}

/// The binding that a query gets when it is built: a gauge at zero,
/// or a family without children.
pub open spec fn fresh_binding(spec: QuerySpec) -> BindingView {
    BindingView {
        spec,
        instrument: if spec.is_scalar() {
            Instrument::Scalar { bits: 0 }
        } else {
            Instrument::Vector { children: no_children() }
        },
    }
}

/// The bindings that a list of queries gets when it is built.
pub open spec fn fresh_bindings(specs: Seq<QuerySpec>) -> Seq<BindingView> {
    Seq::new(specs.len(), |i: int| fresh_binding(specs[i]))
}

/// The binding contributes this sample to a scrape: a scalar binding its one
/// sample, without labels; a vector binding one sample per child, with the
/// child's label pairs, which are the label columns of the query, each with
/// the child's value for it.
pub open spec fn reports(b: BindingView, sample: SampleView) -> bool {
    match b.instrument {
        Instrument::Scalar { bits } => sample == (SampleView { labels: Seq::empty(), bits }),
        Instrument::Vector { children } => exists|k: u64|
            #[trigger] children.contains_key(k) && sample == (SampleView {
                labels: label_pairs(b.spec.label_columns, children[k].0),
                bits: children[k].1,
            }) && pairs_up(sample.labels, b.spec.label_columns, children[k].0),
    }
}

/// The number of samples that the binding contributes to a scrape.
pub open spec fn sample_count(b: BindingView) -> nat {
    match b.instrument {
        Instrument::Scalar { .. } => 1,
        Instrument::Vector { children } => children.dom().len(),
    }
}

/// The samples are those that the binding contributes to a scrape, each
/// once, in whatever order.
pub open spec fn collected_from(b: BindingView, samples: Seq<SampleView>) -> bool {
    &&& samples.len() == sample_count(b)
    &&& forall|i: int| 0 <= i < samples.len() ==> reports(b, #[trigger] samples[i])
    &&& forall|s: SampleView| #[trigger]
        reports(b, s) ==> exists|i: int| 0 <= i < samples.len() && #[trigger] samples[i] == s
}

/// What one binding contributes to a scrape: its metric name, its help text
/// and its samples.
#[derive(Debug)]
pub struct Family {
    pub name: String,
    pub help: String,
    pub samples: Vec<Sample>,
}

/// The family is what the binding contributes to a scrape.
pub open spec fn family_of(b: BindingView, family: Family) -> bool {
    &&& family.name@ == b.spec.name
    &&& family.help@ == b.spec.help
    &&& collected_from(b, sample_views(family.samples@))
}

/// The shape of the instrument is the one that the query asks for.
pub open spec fn shaped(b: BindingView) -> bool {
    b.spec.is_scalar() <==> b.instrument is Scalar
}

/// Empties the family and applies the rows of the outcome to it, in order,
/// skipping each row that cannot be read.
fn refresh_family(family: &mut GaugeFamily, outcome: &QueryOutcome, width: usize)
    requires
        width == family_labels(*old(family)).len(),
    ensures
        family_name(*final(family)) == family_name(*old(family)),
        family_labels(*final(family)) == family_labels(*old(family)),
        family_children(*final(family)) == vector_children(outcome@, width as nat),
{
    family_reset(family);
    match outcome {
        QueryOutcome::Failed => {},
        QueryOutcome::Rows(rows) => {
            let ghost views = row_views(rows@);
            let mut i: usize = 0;
            while i < rows.len()
                invariant
                    i <= rows.len(),
                    views == row_views(rows@),
                    width == family_labels(*family).len(),
                    family_name(*family) == family_name(*old(family)),
                    family_labels(*family) == family_labels(*old(family)),
                    family_children(*family) == apply_rows(
                        no_children(),
                        views.take(i as int),
                        width as nat,
                    ),
                decreases rows.len() - i,
            {
                let row: &Row = &rows[i];
                proof {
                    assert(views.take(i + 1).drop_last() =~= views.take(i as int));
                    assert(views.take(i + 1).last() == row@);
                }
                match row.value {
                    Some(bits) => {
                        match label_values(row, width) {
                            Some(values) => {
                                family_set(family, &values, bits);
                            },
                            None => {},
                        }
                    },
                    None => {},
                }
                i += 1;
            }
            assert(views.take(i as int) =~= views);
        },
    }
}

impl Binding {
    /// The query and what the instrument holds.
    pub closed spec fn view(&self) -> BindingView {
        BindingView {
            spec: self.config@,
            instrument: match self.metric {
                Metric::Gauge(g) => Instrument::Scalar { bits: gauge_bits(g) },
                Metric::GaugeVec(f) => Instrument::Vector { children: family_children(f) },
            },
        }
    }

    /// The instrument was created from the query.
    pub closed spec fn wf(&self) -> bool {
        &&& buildable(self.config@)
        &&& match self.metric {
            Metric::Gauge(g) => self.config@.is_scalar() && gauge_name(g) == self.config@.name,
            Metric::GaugeVec(f) => {
                &&& !self.config@.is_scalar()
                &&& family_name(f) == self.config@.name
                &&& family_labels(f) == self.config@.label_columns
            },
        }
    }

    /// A well-formed binding has the shape that its query asks for
    /// and a query from which it could be built.
    pub proof fn lemma_wf_shaped(&self)
        requires
            self.wf(),
        ensures
            shaped(self@),
            buildable(self@.spec),
    {
    }

    /// Creates the instrument that the query asks for.
    fn build(config: &QueryConfig) -> (r: Option<Binding>)
        ensures
            r is Some <==> buildable(config@),
            r matches Some(b) ==> b.wf() && b@ == fresh_binding(config@),
    {
        if config.label_columns.len() == 0 {
            match gauge_new(&config.name, &config.help) {
                Ok(g) => Some(Binding { config: config.clone(), metric: Metric::Gauge(g) }),
                Err(_) => None,
            }
        } else {
            match family_new(&config.name, &config.help, &config.label_columns) {
                Ok(f) => Some(Binding { config: config.clone(), metric: Metric::GaugeVec(f) }),
                Err(_) => None,
            }
        }
    }

    /// Applies the outcome of the binding's query to its instrument.
    fn refresh(&mut self, outcome: &QueryOutcome)
        requires
            old(self).wf(),
        ensures
            final(self).wf(),
            final(self)@ == refresh_binding(old(self)@, outcome@),
    {
        let width = self.config.label_columns.len();
        match &mut self.metric {
            Metric::Gauge(gauge) => {
                match outcome {
                    QueryOutcome::Failed => {},
                    QueryOutcome::Rows(rows) => {
                        if rows.len() == 1 {
                            match rows[0].value {
                                Some(bits) => {
                                    gauge_set(gauge, bits);
                                },
                                None => {},
                            }
                        }
                    },
                }
            },
            Metric::GaugeVec(family) => {
                refresh_family(family, outcome, width);
            },
        }
    }

    /// The samples that the instrument holds at the moment.
    fn samples(&self) -> (r: Vec<Sample>)
        requires
            self.wf(),
        ensures
            collected_from(self@, sample_views(r@)),
    {
        match &self.metric {
            Metric::Gauge(gauge) => {
                let sample = Sample { labels: Vec::new(), bits: gauge_get(gauge) };
                assert(sample@.labels =~= Seq::empty());
                let mut out: Vec<Sample> = Vec::new();
                out.push(sample);
                assert(sample_views(out@)[0] == sample@);
                out
            },
            Metric::GaugeVec(family) => {
                let out = family_samples(family);
                let ghost views = sample_views(out@);
                let ghost children = family_children(*family);
                let ghost names = self@.spec.label_columns;
                assert(self@.instrument->children == children);
                assert forall|i: int| 0 <= i < views.len() implies reports(
                    self@,
                    #[trigger] views[i],
                ) by {
                    assert(views[i] == out[i]@);
                    let k = choose|k: u64|
                        #[trigger] children.contains_key(k) && out[i]@ == (SampleView {
                            labels: label_pairs(names, children[k].0),
                            bits: children[k].1,
                        }) && pairs_up(label_pairs(names, children[k].0), names, children[k].0);
                    assert(exists|k: u64|
                        #[trigger] children.contains_key(k) && views[i] == (SampleView {
                            labels: label_pairs(names, children[k].0),
                            bits: children[k].1,
                        }) && pairs_up(views[i].labels, names, children[k].0));
                }
                assert forall|s: SampleView| #[trigger] reports(self@, s) implies exists|i: int|
                    0 <= i < views.len() && #[trigger] views[i] == s by {
                    let k = choose|k: u64|
                        #[trigger] children.contains_key(k) && s == (SampleView {
                            labels: label_pairs(names, children[k].0),
                            bits: children[k].1,
                        }) && pairs_up(s.labels, names, children[k].0);
                    assert(has_child(*family, k));
                    let i = choose|i: int| 0 <= i < out.len() && (#[trigger] out[i])@ == s;
                    assert(views[i] == out[i]@);
                }
                out
            },
        }
    }

}

/// The views of a list of bindings, in order.
pub open spec fn binding_views(v: Seq<Binding>) -> Seq<BindingView> {
    Seq::new(v.len(), |i: int| v[i]@)
}

/// The metric names of a list of bindings, in order.
pub open spec fn binding_names(v: Seq<BindingView>) -> Seq<Seq<char>> {
    Seq::new(v.len(), |i: int| v[i].spec.name)
}

/// The identifiers of a list of metric names.
pub open spec fn ids_of(names: Seq<Seq<char>>) -> Set<u64> {
    Set::new(|id: u64| exists|j: int| 0 <= j < names.len() && metric_id(#[trigger] names[j]) == id)
}

/// The identifier of the name at `index` is taken already, by the registry
/// or by an earlier name.
pub open spec fn collides(taken: Set<u64>, names: Seq<Seq<char>>, index: int) -> bool {
    ||| taken.contains(metric_id(names[index]))
    ||| exists|j: int| 0 <= j < index && metric_id(#[trigger] names[j]) == metric_id(names[index])
}

/// The first name whose identifier is taken already is the one at `index`.
pub open spec fn first_collision(taken: Set<u64>, names: Seq<Seq<char>>, index: int) -> bool {
    &&& 0 <= index < names.len()
    &&& collides(taken, names, index)
    &&& forall|j: int| 0 <= j < index ==> !collides(taken, names, j)
}

/// No name has an identifier that is taken already.
pub open spec fn collision_free(taken: Set<u64>, names: Seq<Seq<char>>) -> bool {
    forall|j: int| 0 <= j < names.len() ==> !collides(taken, names, j)
}

/// An identifier is among those taken before or those of the first `index`
/// names exactly where the name at `index` collides.
proof fn lemma_taken_means_collides(taken: Set<u64>, names: Seq<Seq<char>>, index: int)
    requires
        0 <= index < names.len(),
    ensures
        taken.union(ids_of(names.take(index))).contains(metric_id(names[index])) <==> collides(
            taken,
            names,
            index,
        ),
{
    let id = metric_id(names[index]);
    if ids_of(names.take(index)).contains(id) {
        let j = choose|j: int|
            0 <= j < names.take(index).len() && metric_id(#[trigger] names.take(index)[j]) == id;
        assert(names[j] == names.take(index)[j]);
    }
    if collides(taken, names, index) && !taken.contains(id) {
        let j = choose|j: int| 0 <= j < index && metric_id(#[trigger] names[j]) == id;
        assert(names.take(index)[j] == names[j]);
    }
}

/// The identifiers of one more name are those of the names before it and
/// its own.
proof fn lemma_ids_of_one_more(names: Seq<Seq<char>>, index: int)
    requires
        0 <= index < names.len(),
    ensures
        ids_of(names.take(index + 1)) == ids_of(names.take(index)).insert(
            metric_id(names[index]),
        ),
{
    let more = names.take(index + 1);
    let fewer = names.take(index);
    assert forall|id: u64| ids_of(more).contains(id) <==> ids_of(fewer).insert(
        metric_id(names[index]),
    ).contains(id) by {
        if ids_of(more).contains(id) {
            let j = choose|j: int| 0 <= j < more.len() && metric_id(#[trigger] more[j]) == id;
            if j < index {
                assert(fewer[j] == more[j]);
            }
        }
        if ids_of(fewer).contains(id) {
            let j = choose|j: int| 0 <= j < fewer.len() && metric_id(#[trigger] fewer[j]) == id;
            assert(more[j] == fewer[j]);
        }
        if id == metric_id(names[index]) {
            assert(more[index] == names[index]);
        }
    }
    assert(ids_of(more) =~= ids_of(fewer).insert(metric_id(names[index])));
}

/// The first query from which no instrument can be created is the
/// one at `index`.
pub open spec fn first_unbuildable(specs: Seq<QuerySpec>, index: int) -> bool {
    &&& 0 <= index < specs.len()
    &&& !buildable(specs[index])
    &&& forall|j: int| 0 <= j < index ==> buildable(#[trigger] specs[j])
}

/// An instrument can be created from every query.
pub open spec fn all_buildable(specs: Seq<QuerySpec>) -> bool {
    forall|j: int| 0 <= j < specs.len() ==> buildable(#[trigger] specs[j])
}

/// The bindings of a metric set, in the order of their queries.
pub struct Metrics {
    metrics: Vec<Binding>,
}

impl View for Metrics {
    type V = Seq<BindingView>;

    closed spec fn view(&self) -> Seq<BindingView> {
        binding_views(self.metrics@)
    }
}

impl Metrics {
    /// Every binding's instrument was created from its query.
    pub closed spec fn wf(&self) -> bool {
        forall|i: int| 0 <= i < self.metrics.len() ==> (#[trigger] self.metrics[i]).wf()
    }

    /// In a well-formed metric set every binding has the shape that its
    /// query asks for, and every query is one from which an
    /// instrument can be created.
    pub proof fn lemma_wf_shaped(&self)
        requires
            self.wf(),
        ensures
            forall|i: int| 0 <= i < self@.len() ==> shaped(#[trigger] self@[i]),
            forall|i: int| 0 <= i < self@.len() ==> buildable((#[trigger] self@[i]).spec),
    {
        assert forall|i: int| 0 <= i < self@.len() implies shaped(#[trigger] self@[i])
            && buildable(self@[i].spec) by {
            self.metrics[i].lemma_wf_shaped();
        }
    }

    /// Builds one binding per query, in order: a single gauge where
    /// the query has no label columns, a family of gauges otherwise.
    ///
    /// The build is all or nothing. It fails at the first query from
    /// which no instrument can be created, and says which one that is.
    pub fn new(query_configs: &[QueryConfig]) -> (r: Result<Metrics, MetricBuildError>)
        ensures
            r is Ok <==> all_buildable(specs(query_configs@)),
            match r {
                Ok(m) => {
                    &&& all_buildable(specs(query_configs@))
                    &&& m.wf()
                    &&& m@ == fresh_bindings(specs(query_configs@))
                },
                Err(MetricBuildError::Invalid { index }) => first_unbuildable(
                    specs(query_configs@),
                    index as int,
                ),
                Err(MetricBuildError::Collision { .. }) => false,
            },
    {
        let mut metrics: Vec<Binding> = Vec::new();
        let mut i: usize = 0;
        while i < query_configs.len()
            invariant
                i <= query_configs.len(),
                metrics.len() == i,
                forall|j: int| 0 <= j < i ==> buildable(#[trigger] specs(query_configs@)[j]),
                forall|j: int| 0 <= j < i ==> (#[trigger] metrics[j]).wf(),
                forall|j: int| 0 <= j < i ==> (#[trigger] metrics[j])@ == fresh_binding(query_configs[j]@),
            decreases query_configs.len() - i,
        {
            match Binding::build(&query_configs[i]) {
                Some(binding) => {
                    metrics.push(binding);
                },
                None => {
                    assert(!buildable(specs(query_configs@)[i as int]));
                    return Err(MetricBuildError::Invalid { index: i });
                },
            }
            i += 1;
        }
        let built = Metrics { metrics };
        assert(built@ =~= fresh_bindings(specs(query_configs@)));
        Ok(built)
    }

    /// Registers every instrument with the registry, in order, and stops at
    /// the first that the registry refuses.
    ///
    /// A binding whose identifier is taken already, by the registry or by an
    /// earlier binding, is refused by every registry, and the bindings after
    /// it are not registered: on success no identifier was taken and the
    /// registry holds the identifiers of all the bindings besides those it
    /// held before; after a refusal it holds those of the bindings before
    /// the refused one, none of which was taken. No collector of another
    /// kind than these instruments comes into the registry.
    ///
    /// A tidy registry refuses for no other reason: the refused binding is
    /// then the first whose identifier is taken.
    pub fn register(&self, registry: &mut prometheus::Registry) -> (r: Result<(), MetricBuildError>)
        requires
            self.wf(),
        ensures
            r matches Err(error) ==> error matches MetricBuildError::Collision { index } && index
                < self@.len(),
            registry_foreign(*final(registry)) == registry_foreign(*old(registry)),
            match r {
                Ok(()) => {
                    &&& collision_free(registry_ids(*old(registry)), binding_names(self@))
                    &&& registry_ids(*final(registry)) == registry_ids(*old(registry)).union(
                        ids_of(binding_names(self@)),
                    )
                },
                Err(MetricBuildError::Collision { index }) => {
                    &&& forall|j: int|
                        0 <= j < index ==> !collides(
                            registry_ids(*old(registry)),
                            binding_names(self@),
                            j,
                        )
                    &&& registry_ids(*final(registry)) == registry_ids(*old(registry)).union(
                        ids_of(binding_names(self@).take(index as int)),
                    )
                },
                Err(MetricBuildError::Invalid { .. }) => false,
            },
            registry_tidy(*old(registry)) ==> registry_tidy(*final(registry)),
            registry_tidy(*old(registry)) ==> match r {
                Ok(()) => registry_collectors(*final(registry)) == registry_collectors(
                    *old(registry),
                ).union(ids_of(binding_names(self@))),
                Err(MetricBuildError::Collision { index }) => {
                    &&& first_collision(
                        registry_ids(*old(registry)),
                        binding_names(self@),
                        index as int,
                    )
                    &&& registry_collectors(*final(registry)) == registry_collectors(
                        *old(registry),
                    ).union(ids_of(binding_names(self@).take(index as int)))
                },
                Err(MetricBuildError::Invalid { .. }) => false,
            },
    {
        let ghost names = binding_names(self@);
        let ghost taken = registry_ids(*old(registry));
        let ghost tidy = registry_tidy(*old(registry));
        let ghost held = registry_collectors(*old(registry));
        let mut i: usize = 0;
        assert(registry_ids(*registry) =~= taken.union(ids_of(names.take(0))));
        assert(registry_collectors(*registry) =~= held.union(ids_of(names.take(0))));
        while i < self.metrics.len()
            invariant
                i <= self.metrics.len(),
                self.wf(),
                names == binding_names(self@),
                taken == registry_ids(*old(registry)),
                tidy == registry_tidy(*old(registry)),
                held == registry_collectors(*old(registry)),
                registry_foreign(*registry) == registry_foreign(*old(registry)),
                registry_ids(*registry) == taken.union(ids_of(names.take(i as int))),
                forall|j: int| 0 <= j < i ==> !collides(taken, names, j),
                tidy ==> registry_tidy(*registry),
                tidy ==> registry_collectors(*registry) == held.union(
                    ids_of(names.take(i as int)),
                ),
            decreases self.metrics.len() - i,
        {
            let ghost before = *registry;
            let ghost name = names[i as int];
            assert(self.metrics[i as int].wf());
            let outcome = match &self.metrics[i].metric {
                Metric::Gauge(g) => register_gauge(registry, g),
                Metric::GaugeVec(f) => register_family(registry, f),
            };
            assert(registers(before, *registry, name, outcome is Ok));
            proof {
                lemma_taken_means_collides(taken, names, i as int);
            }
            if outcome.is_err() {
                return Err(MetricBuildError::Collision { index: i });
            }
            proof {
                lemma_ids_of_one_more(names, i as int);
                assert(registry_ids(*registry) =~= taken.union(ids_of(names.take(i + 1))));
                if tidy {
                    assert(registry_collectors(*registry) =~= held.union(
                        ids_of(names.take(i + 1)),
                    ));
                }
            }
            i += 1;
        }
        assert(names.take(i as int) =~= names);
        Ok(())
    }

    /// Applies one refresh pass: the outcome of each binding's query goes to
    /// that binding's instrument, and to no other.
    ///
    /// Without a database client nothing changes. A binding for which the
    /// pass holds no outcome stays as it is.
    pub fn update(&mut self, refresh: &Refresh)
        requires
            old(self).wf(),
        ensures
            final(self).wf(),
            final(self)@ == refreshed(old(self)@, refresh@),
    {
        match refresh {
            Refresh::NoClient => {},
            Refresh::Results(outcomes) => {
                let mut i: usize = 0;
                while i < self.metrics.len() && i < outcomes.len()
                    invariant
                        self.wf(),
                        self.metrics.len() == old(self).metrics.len(),
                        i <= self.metrics.len(),
                        i <= outcomes.len(),
                        forall|j: int|
                            0 <= j < i ==> (#[trigger] self.metrics[j])@ == refresh_binding(
                                old(self).metrics[j]@,
                                outcomes[j]@,
                            ),
                        forall|j: int|
                            i <= j < self.metrics.len() ==> (#[trigger] self.metrics[j])
                                == old(self).metrics[j],
                    decreases self.metrics.len() - i,
                {
                    self.metrics[i].refresh(&outcomes[i]);
                    i += 1;
                }
                assert(self@ =~= refreshed(old(self)@, refresh@));
            },
        }
    }

    /// The samples that the binding at `index` contributes to a scrape at the
    /// moment, in no stated order: one for a scalar binding, one per child
    /// for a vector binding, none where there is no such binding.
    pub fn samples(&self, index: usize) -> (r: Vec<Sample>)
        requires
            self.wf(),
        ensures
            index >= self@.len() ==> r.len() == 0,
            index < self@.len() ==> collected_from(self@[index as int], sample_views(r@)),
    {
        if index < self.metrics.len() {
            self.metrics[index].samples()
        } else {
            Vec::new()
        }
    }

    /// What the metric set contributes to a scrape at the moment: one family
    /// per binding, in the order of the bindings, and in each family the
    /// samples of its binding. A family without samples is listed too.
    pub fn collect(&self) -> (r: Vec<Family>)
        requires
            self.wf(),
        ensures
            r.len() == self@.len(),
            forall|i: int| 0 <= i < r.len() ==> family_of(self@[i], #[trigger] r[i]),
    {
        let mut out: Vec<Family> = Vec::new();
        let mut i: usize = 0;
        while i < self.metrics.len()
            invariant
                i <= self.metrics.len(),
                self.wf(),
                out.len() == i,
                forall|j: int| 0 <= j < i ==> family_of(self@[j], #[trigger] out[j]),
            decreases self.metrics.len() - i,
        {
            let binding = &self.metrics[i];
            let family = Family {
                name: binding.config.name.clone(),
                help: binding.config.help.clone(),
                samples: binding.samples(),
            };
            assert(self@[i as int] == binding@);
            out.push(family);
            i += 1;
        }
        out
    }

    /// The number of bindings.
    pub fn len(&self) -> (n: usize)
        ensures
            n == self@.len(),
    {
        self.metrics.len()
    }

    /// Whether the binding at `index` is a scalar one, whose query is to
    /// return exactly one row.
    pub fn is_scalar(&self, index: usize) -> (r: bool)
        ensures
            r == (index < self@.len() && self@[index as int].spec.is_scalar()),
    {
        index < self.metrics.len() && self.metrics[index].config.label_columns.len() == 0
    }

    /// The query of the binding at `index`, if there is one.
    pub fn query(&self, index: usize) -> (r: Option<&QueryConfig>)
        ensures
            r is Some <==> index < self@.len(),
            r matches Some(q) ==> q@ == self@[index as int].spec,
    {
        if index < self.metrics.len() {
            Some(&self.metrics[index].config)
        } else {
            None
        }
    }
}

} // verus!
