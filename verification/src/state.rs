//! The state that serves scrapes: a metric set together with the registry
//! that its instruments are registered with.

use vstd::prelude::*;
use crate::config::{specs, Config, QuerySpec};
use crate::instrument::{
    registry_collectors, registry_foreign, registry_ids, registry_new, registry_tidy,
    text_format, text_format_view,
};
use crate::metrics::{
    all_buildable, binding_names, collides, collision_free, first_collision, first_unbuildable,
    fresh_bindings, ids_of, BindingView, MetricBuildError, Metrics,
};
use crate::refresh::{refreshed, Refresh};

verus! {

/// The metric names of a list of queries, in order.
pub open spec fn spec_names(specs: Seq<QuerySpec>) -> Seq<Seq<char>> {
    Seq::new(specs.len(), |i: int| specs[i].name)
}

/// A metric set can be built from the queries: an instrument can be
/// created from each, and no two of them get the same identifier.
pub open spec fn can_build(specs: Seq<QuerySpec>) -> bool {
    all_buildable(specs) && collision_free(Set::<u64>::empty(), spec_names(specs))
}

/// Building from the queries fails with this error: at the first
/// query from which no instrument can be created, or else at the
/// first whose identifier an earlier one has taken.
pub open spec fn build_fails_with(specs: Seq<QuerySpec>, error: MetricBuildError) -> bool {
    match error {
        MetricBuildError::Invalid { index } => first_unbuildable(specs, index as int),
        MetricBuildError::Collision { index } => all_buildable(specs) && first_collision(
            Set::<u64>::empty(),
            spec_names(specs),
            index as int,
        ),
    }
}

/// The text exposition of a metric set, as `prometheus` writes it: for each
/// binding that has samples, in the order of the metric names, its help
/// text, its type and one line per sample, the samples in the order of their
/// label values.
pub uninterp spec fn exposition(bindings: Seq<BindingView>) -> Seq<u8>;

/// What a scrape is answered with.
#[derive(Debug)]
pub struct Scrape {
    /// The content type of the body.
    pub content_type: String,
    /// The text exposition of the metric set. It is `None` only where the
    /// encoder refused what was gathered, which it never does to a
    /// well-formed state.
    pub body: Option<Vec<u8>>,
}

/// A registry and the metric set whose instruments it holds.
pub struct AppState {
    registry: prometheus::Registry,
    metrics: Metrics,
}

impl View for AppState {
    type V = Seq<BindingView>;

    closed spec fn view(&self) -> Seq<BindingView> {
        self.metrics@
    }
}

/// Calls `Registry::gather` on the registry of the state and
/// `TextEncoder::encode` on what it returns.
///
/// Trusted, of the outcome: the encoder refuses a family without samples or
/// without a name and nothing else. `gather` drops the families without
/// samples before the encoder sees them, and no gauge and no family of
/// gauges reports a family without a name, so that a registry of nothing but
/// these is always encoded. A registry without collectors is encoded as no
/// bytes at all.
///
/// Trusted, of the bytes: they are the exposition of the bindings. The text
/// is made of what the view of a binding shows, its name, its help text, its
/// label names and each child's label values and bits; `gather` sorts the
/// families by name and the samples by label values, of which no two are
/// alike within a family. This rests on two things that `wf` does not say
/// and that [`AppState::new`] alone brings about, no state being made in any
/// other way: the registry holds the very gauges and families of the
/// bindings, with which it shares what they hold, and each of them was
/// created with the help text of its query.
#[verifier::external_body]
fn encode_registered(state: &AppState) -> (r: Result<Vec<u8>, prometheus::Error>)
    ensures
        registry_foreign(state.registry) == Set::<u64>::empty() ==> r is Ok,
        r matches Ok(body) ==> (registry_collectors(state.registry) == Set::<u64>::empty()
            ==> body@.len() == 0),
        r matches Ok(body) ==> (state.wf() ==> body@ == exposition(state@)),
{
    let mut body: Vec<u8> = Vec::new();
    match prometheus::Encoder::encode(&prometheus::TextEncoder::new(), &state.registry.gather(), &mut body) {
        Ok(()) => Ok(body),
        Err(e) => Err(e),
    }
}

impl AppState {
    /// The metric set is well formed and the registry holds exactly its
    /// instruments, no two under the same identifier.
    pub closed spec fn wf(&self) -> bool {
        &&& self.metrics.wf()
        &&& registry_tidy(self.registry)
        &&& registry_ids(self.registry) == ids_of(binding_names(self.metrics@))
        &&& registry_collectors(self.registry) == ids_of(binding_names(self.metrics@))
        &&& registry_foreign(self.registry) == Set::<u64>::empty()
        &&& collision_free(Set::<u64>::empty(), binding_names(self.metrics@))
    }

    /// In a well-formed state no two bindings have the same identifier, and
    /// so no two have the same name.
    pub proof fn lemma_wf_names_differ(&self)
        requires
            self.wf(),
        ensures
            collision_free(Set::<u64>::empty(), binding_names(self@)),
            forall|i: int, j: int|
                0 <= i < j < self@.len() ==> (#[trigger] self@[i]).spec.name != (
                #[trigger] self@[j]).spec.name,
    {
        let names = binding_names(self@);
        assert forall|i: int, j: int| 0 <= i < j < self@.len() implies (
        #[trigger] self@[i]).spec.name != (#[trigger] self@[j]).spec.name by {
            assert(!collides(Set::<u64>::empty(), names, j));
            assert(names[i] == self@[i].spec.name);
            assert(names[j] == self@[j].spec.name);
        }
    }

    /// Builds the metric set of a configuration and registers every
    /// instrument with a registry of its own.
    ///
    /// The build is all or nothing: it succeeds exactly where an instrument
    /// can be created from every query and no two queries get
    /// the same identifier, and then every binding is fresh. Otherwise it
    /// says where it failed, and nothing is kept.
    pub fn new(config: &Config) -> (r: Result<AppState, MetricBuildError>)
        ensures
            r is Ok <==> can_build(specs(config.queries@)),
            match r {
                Ok(state) => {
                    &&& can_build(specs(config.queries@))
                    &&& state.wf()
                    &&& state@ == fresh_bindings(specs(config.queries@))
                },
                Err(error) => build_fails_with(specs(config.queries@), error),
            },
    {
        let mut registry = registry_new();
        let metrics = match Metrics::new(config.queries.as_slice()) {
            Ok(metrics) => metrics,
            Err(error) => {
                return Err(error);
            },
        };
        proof {
            assert(binding_names(metrics@) =~= spec_names(specs(config.queries@)));
        }
        match metrics.register(&mut registry) {
            Ok(()) => {
                proof {
                    assert(registry_ids(registry) =~= ids_of(binding_names(metrics@)));
                    assert(registry_collectors(registry) =~= ids_of(binding_names(metrics@)));
                }
                Ok(AppState { registry, metrics })
            },
            Err(error) => Err(error),
        }
    }

    /// The metric set.
    pub fn metrics(&self) -> (m: &Metrics)
        ensures
            m@ == self@,
            self.wf() ==> m.wf(),
    {
        &self.metrics
    }

    /// Applies one refresh pass to the metric set.
    pub fn update(&mut self, refresh: &Refresh)
        requires
            old(self).wf(),
        ensures
            final(self).wf(),
            final(self)@ == refreshed(old(self)@, refresh@),
    {
        self.metrics.update(refresh);
        proof {
            assert(binding_names(self.metrics@) =~= binding_names(old(self).metrics@));
        }
    }

    /// Answers one scrape: applies the refresh pass that was run for it, and
    /// then encodes what the instruments hold.
    pub fn scrape(&mut self, refresh: &Refresh) -> (r: Scrape)
        requires
            old(self).wf(),
        ensures
            final(self).wf(),
            final(self)@ == refreshed(old(self)@, refresh@),
            r.content_type@ == text_format_view(),
            r.body matches Some(bytes) && bytes@ == exposition(final(self)@),
    {
        self.update(refresh);
        Scrape { content_type: text_format(), body: self.encode() }
    }

    /// The text exposition of the metric set, as served to a scrape.
    ///
    /// A well-formed state is always encoded, and the bytes are the
    /// exposition of its bindings as they are at the moment; a state without
    /// bindings is encoded as no bytes at all.
    pub fn encode(&self) -> (body: Option<Vec<u8>>)
        ensures
            self.wf() ==> (body matches Some(bytes) && bytes@ == exposition(self@)),
            self.wf() && self@.len() == 0 ==> (body matches Some(bytes) && bytes@
                == Seq::<u8>::empty()),
    {
        proof {
            if self.wf() && self@.len() == 0 {
                assert(ids_of(binding_names(self.metrics@)) =~= Set::<u64>::empty());
            }
        }
        match encode_registered(self) {
            Ok(body) => {
                assert(body@.len() == 0 ==> body@ =~= Seq::<u8>::empty());
                Some(body)
            },
            Err(_) => None,
        }
    }
}

} // verus!
