//! The reload controller: it decides when a batch of file changes calls for
//! a reload, rebuilds the metric set from what was loaded, and hands the new
//! set over in one step.
//!
//! A reload that fails, at loading or at building, leaves the state that is
//! being served as it was.

use vstd::prelude::*;
use crate::config::{specs, Config};
use crate::metrics::{fresh_bindings, MetricBuildError};
use crate::state::{build_fails_with, can_build, AppState};

verus! {

/// The quiet period, in seconds, after which a run of file changes is
/// handed over as one batch.
pub const DEBOUNCE_SECONDS: u64 = 2;

/// What happened to the watched file.
#[derive(Debug, Clone, Copy, PartialEq, Eq, Structural)]
pub enum ChangeKind {
    Created,
    Modified,
    Other,
}

/// A batch of changes calls for a reload where something in it was created
/// or modified.
pub open spec fn wants_reload(batch: Seq<ChangeKind>) -> bool {
    exists|i: int|
        0 <= i < batch.len() && (#[trigger] batch[i] == ChangeKind::Created || batch[i]
            == ChangeKind::Modified)
}

/// Whether a batch of changes calls for a reload.
pub fn triggers_reload(batch: &[ChangeKind]) -> (r: bool)
    ensures
        r == wants_reload(batch@),
{
    let mut i: usize = 0;
    while i < batch.len()
        invariant
            i <= batch.len(),
            forall|j: int|
                0 <= j < i ==> !(#[trigger] batch[j] == ChangeKind::Created || batch[j]
                    == ChangeKind::Modified),
        decreases batch.len() - i,
    {
        match batch[i] {
            ChangeKind::Created => {
                return true;
            },
            ChangeKind::Modified => {
                return true;
            },
            ChangeKind::Other => {},
        }
        i += 1;
    }
    false
}

/// Where the controller stands.
#[derive(Debug, Clone, Copy, PartialEq, Eq, Structural)]
pub enum ControllerState {
    /// Watching; no reload is under way.
    Idle,
    /// A change was seen and the rebuild has not been handed over yet.
    Reloading,
}

/// What a rebuild produced.
pub enum Rebuild {
    /// The configuration could not be loaded.
    LoadFailed,
    /// No metric set could be built from the configuration.
    BuildFailed(MetricBuildError),
    /// The new state, fully built and not yet served.
    Ready(AppState),
}

/// How a reload ended.
#[derive(Debug, Clone, Copy, PartialEq, Eq, Structural)]
pub enum ReloadOutcome {
    /// The new state is being served.
    Swapped,
    /// The configuration could not be loaded; the old state stays.
    LoadFailed,
    /// No metric set could be built; the old state stays.
    BuildFailed(MetricBuildError),
}

/// Builds the state that a freshly loaded configuration asks for, without
/// touching the state that is being served. `None` stands for a
/// configuration that could not be loaded.
pub fn rebuild(loaded: Option<&Config>) -> (r: Rebuild)
    ensures
        r is Ready <==> (loaded matches Some(config) && can_build(specs(config.queries@))),
        r is LoadFailed <==> loaded is None,
        match r {
            Rebuild::LoadFailed => loaded is None,
            Rebuild::BuildFailed(error) => loaded matches Some(config) && build_fails_with(
                specs(config.queries@),
                error,
            ),
            Rebuild::Ready(state) => {
                &&& loaded matches Some(config) && can_build(specs(config.queries@))
                    && state@ == fresh_bindings(specs(config.queries@))
                &&& state.wf()
            },
        },
{
    match loaded {
        None => Rebuild::LoadFailed,
        Some(config) => match AppState::new(config) {
            Ok(state) => Rebuild::Ready(state),
            Err(error) => Rebuild::BuildFailed(error),
        },
    }
}

/// The outcome that a rebuild leads to.
pub open spec fn outcome_of(rebuilt: Rebuild) -> ReloadOutcome {
    match rebuilt {
        Rebuild::LoadFailed => ReloadOutcome::LoadFailed,
        Rebuild::BuildFailed(error) => ReloadOutcome::BuildFailed(error),
        Rebuild::Ready(_) => ReloadOutcome::Swapped,
    }
}

/// The state that is served after a rebuild has been handed over: the new
/// one where there is one, else the one that was served before.
pub open spec fn served_after(current: AppState, rebuilt: Rebuild) -> AppState {
    match rebuilt {
        Rebuild::Ready(fresh) => fresh,
        _ => current,
    }
}

/// Decides when to reload and hands rebuilt states over.
pub struct ReloadController {
    state: ControllerState,
}

impl ReloadController {
    /// Where the controller stands.
    pub closed spec fn state(&self) -> ControllerState {
        self.state
    }

    /// A controller that is watching.
    pub fn new() -> (c: ReloadController)
        ensures
            c.state() == ControllerState::Idle,
    {
        ReloadController { state: ControllerState::Idle }
    }

    /// Whether no reload is under way.
    pub fn is_idle(&self) -> (r: bool)
        ensures
            r == (self.state() == ControllerState::Idle),
    {
        match self.state {
            ControllerState::Idle => true,
            ControllerState::Reloading => false,
        }
    }

    /// Takes a batch of changes. A reload starts where the controller is
    /// idle and something in the batch was created or modified; the answer
    /// says whether one started.
    pub fn on_batch(&mut self, batch: &[ChangeKind]) -> (start: bool)
        ensures
            start == (old(self).state() == ControllerState::Idle && wants_reload(batch@)),
            final(self).state() == if start {
                ControllerState::Reloading
            } else {
                old(self).state()
            },
    {
        if self.is_idle() && triggers_reload(batch) {
            self.state = ControllerState::Reloading;
            true
        } else {
            false
        }
    }

    /// Settles a rebuild that failed, without a hold on the state that is
    /// served: the controller returns to idle, and the answer says how the
    /// reload ended. A rebuild that is ready is left for [`Self::finish`]:
    /// the controller stays as it is, and the answer is `None`.
    pub fn dismiss(&mut self, rebuilt: &Rebuild) -> (outcome: Option<ReloadOutcome>)
        ensures
            outcome is None <==> rebuilt is Ready,
            outcome matches Some(ended) ==> ended == outcome_of(*rebuilt),
            final(self).state() == if rebuilt is Ready {
                old(self).state()
            } else {
                ControllerState::Idle
            },
    {
        match rebuilt {
            Rebuild::LoadFailed => {
                self.state = ControllerState::Idle;
                Some(ReloadOutcome::LoadFailed)
            },
            Rebuild::BuildFailed(error) => {
                self.state = ControllerState::Idle;
                Some(ReloadOutcome::BuildFailed(*error))
            },
            Rebuild::Ready(_) => None,
        }
    }

    /// Hands a rebuild over and returns to idle. A new state replaces the
    /// one being served, whole; after a failed rebuild the one being served
    /// stays as it is.
    pub fn finish(&mut self, current: &mut AppState, rebuilt: Rebuild) -> (outcome: ReloadOutcome)
        ensures
            final(self).state() == ControllerState::Idle,
            outcome == outcome_of(rebuilt),
            *final(current) == served_after(*old(current), rebuilt),
    {
        self.state = ControllerState::Idle;
        match rebuilt {
            Rebuild::LoadFailed => ReloadOutcome::LoadFailed,
            Rebuild::BuildFailed(error) => ReloadOutcome::BuildFailed(error),
            Rebuild::Ready(fresh) => {
                *current = fresh;
                ReloadOutcome::Swapped
            },
        }
    }
}

} // verus!
