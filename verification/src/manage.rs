//! Listing the registry, showing one record, and dropping one. A drop is
//! followed by storing the registry; where it cannot be stored, the record
//! is put back.

use crate::config::lemma_records_bear_their_names;
use crate::config::mapping_of;
use crate::config::names_of;
use crate::config::Config;
use crate::config::Registry;
use crate::config::ServerSpace;
use crate::config::SpaceRecord;
use crate::session::Action;
use crate::session::ActionView;
use crate::session::Event;
use crate::session::Failure;
use crate::session::Outcome;
use crate::session::OutcomeView;
use vstd::prelude::*;

verus! {

/// The record under `name`, where the registry holds one.
pub open spec fn lookup(registry: Registry, name: Seq<char>) -> Option<SpaceRecord> {
    if registry.contains_key(name) {
        Some(registry[name])
    } else {
        None
    }
}

/// What a listing of `spaces` reports: their names in the order of
/// registration. No name at all is an answer like any other.
pub open spec fn listed(spaces: Seq<SpaceRecord>) -> ActionView {
    ActionView::Finish(OutcomeView::Listed(names_of(spaces)))
}

/// What a request for the record under `name` reports.
pub open spec fn detailed(registry: Registry, name: Seq<char>) -> ActionView {
    match lookup(registry, name) {
        Some(space) => ActionView::Finish(OutcomeView::Detail(space)),
        None => ActionView::Finish(OutcomeView::Failed(Failure::SpaceNotFound)),
    }
}

/// Reports the registered names.
pub fn handle_command_list(registry: &Config) -> (action: Action)
    requires
        registry.wf(),
    ensures
        action@ == listed(registry.spaces()),
{
    Action::Finish(Outcome::Listed(registry.list_server_space()))
}

/// Reports the record of the space named `space_name`, or that there is
/// none.
pub fn handle_command_detail(registry: &Config, space_name: &str) -> (action: Action)
    requires
        registry.wf(),
    ensures
        action@ == detailed(registry@, space_name@),
{
    match registry.server_space_detail(space_name) {
        Some(space) => Action::Finish(Outcome::Detail(space)),
        None => Action::Finish(Outcome::Failed(Failure::SpaceNotFound)),
    }
}

/// How far a removal has come.
#[derive(Debug, Clone, Copy, PartialEq, Eq)]
pub enum RemovalStage {
    /// Waiting for the registry to be stored.
    Storing,
    /// The outcome was reported.
    Finished,
}

/// A removal under way.
#[derive(Debug)]
pub struct Removal {
    stage: RemovalStage,
    removed: Option<ServerSpace>,
    failure: Option<Failure>,
}

/// A removal under way, as plain values.
pub struct RemovalView {
    /// How far the removal has come.
    pub stage: RemovalStage,
    /// The record that was dropped, where the registry held one.
    pub removed: Option<SpaceRecord>,
    /// The failure, if the removal failed.
    pub failure: Option<Failure>,
}

impl View for Removal {
    type V = RemovalView;

    closed spec fn view(&self) -> RemovalView {
        RemovalView {
            stage: self.stage,
            removed: match self.removed {
                Some(space) => Some(space@),
                None => None,
            },
            failure: self.failure,
        }
    }
}

impl RemovalView {
    /// The removal of `name` as `handle_command_remove` leaves it, the
    /// registry after it, and the action it asks for: where the name is
    /// registered, the record is dropped and the registry is to be stored;
    /// where not, the registry stays as it was and that is reported.
    pub open spec fn begun(registry: Registry, name: Seq<char>) -> (
        RemovalView,
        Registry,
        ActionView,
    ) {
        match lookup(registry, name) {
            Some(space) => (
                RemovalView { stage: RemovalStage::Storing, removed: Some(space), failure: None },
                registry.remove(name),
                ActionView::Store,
            ),
            None => (
                RemovalView {
                    stage: RemovalStage::Finished,
                    removed: None,
                    failure: Some(Failure::SpaceNotFound),
                },
                registry,
                ActionView::Finish(OutcomeView::Failed(Failure::SpaceNotFound)),
            ),
        }
    }

    /// The outcome to report: the failure, or that the space was removed.
    pub open spec fn outcome(self) -> OutcomeView {
        match self.failure {
            Some(failure) => OutcomeView::Failed(failure),
            None => OutcomeView::Removed,
        }
    }

    /// The registry with the dropped record put back, unless its name is
    /// taken again.
    pub open spec fn restored(self, registry: Registry) -> Registry {
        match self.removed {
            Some(space) => if registry.contains_key(space.name) {
                registry
            } else {
                registry.insert(space.name, space)
            },
            None => registry,
        }
    }

    /// The state and the registry after `event`, and the action to take
    /// next.
    pub open spec fn next(self, registry: Registry, event: Event) -> (
        RemovalView,
        Registry,
        ActionView,
    ) {
        match self.stage {
            RemovalStage::Storing => if event.good() {
                (
                    RemovalView { stage: RemovalStage::Finished, ..self },
                    registry,
                    ActionView::Finish(OutcomeView::Removed),
                )
            } else {
                (
                    RemovalView {
                        stage: RemovalStage::Finished,
                        failure: Some(Failure::Storage),
                        ..self
                    },
                    self.restored(registry),
                    ActionView::Finish(OutcomeView::Failed(Failure::Storage)),
                )
            },
            RemovalStage::Finished => (self, registry, ActionView::Finish(self.outcome())),
        }
    }
}

/// Removing a name that is not registered changes nothing and reports
/// that no such space is found.
pub proof fn lemma_unknown_name_is_not_removed(registry: Registry, name: Seq<char>)
    requires
        !registry.contains_key(name),
    ensures
        RemovalView::begun(registry, name).1 == registry,
        RemovalView::begun(registry, name).2 == ActionView::Finish(
            OutcomeView::Failed(Failure::SpaceNotFound),
        ),
{
}

/// A registry that could not be stored is left as it was before the space
/// was dropped.
pub proof fn lemma_failed_removal_restores(spaces: Seq<SpaceRecord>, name: Seq<char>, reply: Event)
    requires
        mapping_of(spaces).contains_key(name),
        !reply.good(),
    ensures
        ({
            let dropped = RemovalView::begun(mapping_of(spaces), name);
            let undone = dropped.0.next(dropped.1, reply);
            undone.1 == mapping_of(spaces) && undone.2 == ActionView::Finish(
                OutcomeView::Failed(Failure::Storage),
            )
        }),
{
    lemma_records_bear_their_names(spaces);
    let dropped = RemovalView::begun(mapping_of(spaces), name);
    let undone = dropped.0.next(dropped.1, reply);
    assert(undone.1 =~= mapping_of(spaces));
}

impl Removal {
    /// How far the removal has come.
    pub fn stage(&self) -> (r: RemovalStage)
        ensures
            r == self@.stage,
    {
        self.stage
    }

    /// Takes what came of storing the registry and says what to do next.
    pub fn step(&mut self, registry: &mut Config, event: &Event) -> (action: Action)
        requires
            old(registry).wf(),
        ensures
            final(registry).wf(),
            (final(self)@, final(registry)@, action@) == old(self)@.next(old(registry)@, *event),
    {
        match self.stage {
            RemovalStage::Storing => {
                self.stage = RemovalStage::Finished;
                if event.is_good() {
                    Action::Finish(Outcome::Removed)
                } else {
                    self.failure = Some(Failure::Storage);
                    match &self.removed {
                        Some(space) => {
                            let _ = registry.add_server_space(space.copy());
                        },
                        None => {},
                    }
                    Action::Finish(Outcome::Failed(Failure::Storage))
                }
            },
            RemovalStage::Finished => match self.failure {
                Some(failure) => Action::Finish(Outcome::Failed(failure)),
                None => Action::Finish(Outcome::Removed),
            },
        }
    }
}

/// Drops the space named `space_name` from the registry and asks for the
/// registry to be stored; where no space bears that name, the registry
/// stays as it was and that is reported.
pub fn handle_command_remove(registry: &mut Config, space_name: &str) -> (r: (Removal, Action))
    requires
        old(registry).wf(),
    ensures
        final(registry).wf(),
        (r.0@, final(registry)@, r.1@) == RemovalView::begun(old(registry)@, space_name@),
{
    match registry.server_space_detail(space_name) {
        Some(space) => {
            let _ = registry.remove_server_space(space_name);
            (
                Removal { stage: RemovalStage::Storing, removed: Some(space), failure: None },
                Action::Store,
            )
        },
        None => (
            Removal {
                stage: RemovalStage::Finished,
                removed: None,
                failure: Some(Failure::SpaceNotFound),
            },
            Action::Finish(Outcome::Failed(Failure::SpaceNotFound)),
        ),
    }
}

} // verus!
