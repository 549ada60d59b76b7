//! Registering a space: the operator is asked for the five fields one after
//! the other, a blank answer or a name that is taken ends the dialog, the
//! password is sealed, and the record enters the registry, which is then
//! stored. A registry that could not be stored is left as it was.

use crate::aes::encrypt_with_key;
use crate::aes::gen_key;
use crate::aes::key_view;
use crate::aes::sealed;
use crate::aes::VaultError;
use crate::config::Config;
use crate::config::Registry;
use crate::config::ServerSpace;
use crate::config::SpaceRecord;
use crate::session::Action;
use crate::session::ActionView;
use crate::session::Event;
use crate::session::Failure;
use crate::session::Field;
use crate::session::Outcome;
use crate::session::OutcomeView;
use crate::utils::blank;
use crate::utils::is_empty;
use crate::utils::lemma_blank_iff_trimmed_empty;
use crate::utils::trim;
use crate::utils::trimmed;
use vstd::prelude::*;

verus! {

/// How far the dialog has come: each stage waits for what came of the
/// action that led into it.
#[derive(Debug, Clone, Copy, PartialEq, Eq)]
pub enum AddStage {
    /// Waiting for the field named.
    Asking(Field),
    /// Waiting for the registry to be stored.
    Storing,
    /// The outcome was reported.
    Finished,
}

/// A registration under way.
#[derive(Debug)]
pub struct AddDialog {
    stage: AddStage,
    name: String,
    host: String,
    path: String,
    user: String,
    failure: Option<Failure>,
}

/// A registration under way, as plain values.
pub struct AddView {
    /// How far the dialog has come.
    pub stage: AddStage,
    /// The answers so far; an answer not given yet is empty.
    pub name: Seq<char>,
    pub host: Seq<char>,
    pub path: Seq<char>,
    pub user: Seq<char>,
    /// The failure, if the dialog failed.
    pub failure: Option<Failure>,
}

impl View for AddDialog {
    type V = AddView;

    closed spec fn view(&self) -> AddView {
        AddView {
            stage: self.stage,
            name: self.name@,
            host: self.host@,
            path: self.path@,
            user: self.user@,
            failure: self.failure,
        }
    }
}

impl AddView {
    /// The dialog as `handle_command_add` leaves it: the name is asked for.
    pub open spec fn begun() -> AddView {
        AddView {
            stage: AddStage::Asking(Field::Name),
            name: Seq::<char>::empty(),
            host: Seq::<char>::empty(),
            path: Seq::<char>::empty(),
            user: Seq::<char>::empty(),
            failure: None,
        }
    }

    /// The state is one that the dialog can be in: every answer that was
    /// taken is not empty.
    pub open spec fn wf(self) -> bool {
        match self.stage {
            AddStage::Asking(Field::Name) => true,
            AddStage::Asking(Field::Host) => self.name.len() > 0,
            AddStage::Asking(Field::Path) => self.name.len() > 0 && self.host.len() > 0,
            AddStage::Asking(Field::User) => self.name.len() > 0 && self.host.len() > 0
                && self.path.len() > 0,
            AddStage::Asking(Field::Password) => self.complete(),
            AddStage::Storing => self.complete(),
            AddStage::Finished => true,
        }
    }

    /// The four answers that are kept as typed were all given.
    pub open spec fn complete(self) -> bool {
        self.name.len() > 0 && self.host.len() > 0 && self.path.len() > 0 && self.user.len() > 0
    }

    /// The record that the answers make, with `pass` for the sealed
    /// password.
    pub open spec fn record(self, pass: Seq<char>) -> SpaceRecord {
        SpaceRecord { name: self.name, host: self.host, path: self.path, user: self.user, pass }
    }

    /// The outcome to report: the failure, or that the space was added.
    pub open spec fn outcome(self) -> OutcomeView {
        match self.failure {
            Some(failure) => OutcomeView::Failed(failure),
            None => OutcomeView::Added,
        }
    }

    /// The dialog ends with `failure`.
    pub open spec fn failed(self, failure: Failure) -> (AddView, ActionView) {
        (
            AddView { stage: AddStage::Finished, failure: Some(failure), ..self },
            ActionView::Finish(OutcomeView::Failed(failure)),
        )
    }

    /// The dialog goes on to ask for `field`.
    pub open spec fn asking(self, field: Field) -> (AddView, ActionView) {
        (AddView { stage: AddStage::Asking(field), ..self }, ActionView::Prompt(field))
    }

    /// The state after the answer `line` to the question for `field`, and
    /// the action to take next, where the registry holds `registry`. The
    /// answers to the first four questions are kept without the white space
    /// around them.
    pub open spec fn answered(
        self,
        field: Field,
        registry: Registry,
        line: Seq<char>,
        key: Result<Seq<u8>, VaultError>,
    ) -> (AddView, Registry, ActionView) {
        if blank(line) {
            (self.failed(Failure::EmptyField(field)).0, registry, self.failed(
                Failure::EmptyField(field),
            ).1)
        } else {
            match field {
                Field::Name => if registry.contains_key(trimmed(line)) {
                    (self.failed(Failure::DuplicateName).0, registry, self.failed(
                        Failure::DuplicateName,
                    ).1)
                } else {
                    let taken = AddView { name: trimmed(line), ..self };
                    (taken.asking(Field::Host).0, registry, taken.asking(Field::Host).1)
                },
                Field::Host => {
                    let taken = AddView { host: trimmed(line), ..self };
                    (taken.asking(Field::Path).0, registry, taken.asking(Field::Path).1)
                },
                Field::Path => {
                    let taken = AddView { path: trimmed(line), ..self };
                    (taken.asking(Field::User).0, registry, taken.asking(Field::User).1)
                },
                Field::User => {
                    let taken = AddView { user: trimmed(line), ..self };
                    (taken.asking(Field::Password).0, registry, taken.asking(Field::Password).1)
                },
                Field::Password => match key {
                    Err(_) => (self.failed(Failure::Encryption).0, registry, self.failed(
                        Failure::Encryption,
                    ).1),
                    Ok(bytes) => if registry.contains_key(self.name) {
                        (self.failed(Failure::DuplicateName).0, registry, self.failed(
                            Failure::DuplicateName,
                        ).1)
                    } else {
                        (
                            AddView { stage: AddStage::Storing, ..self },
                            registry.insert(self.name, self.record(sealed(bytes, line))),
                            ActionView::Store,
                        )
                    },
                },
            }
        }
    }

    /// The state and the registry after `event`, and the action to take
    /// next.
    pub open spec fn next(self, registry: Registry, event: Event, key: Result<Seq<u8>, VaultError>) -> (
        AddView,
        Registry,
        ActionView,
    ) {
        match self.stage {
            AddStage::Asking(field) => self.answered(field, registry, event.text(), key),
            AddStage::Storing => if event.good() {
                (
                    AddView { stage: AddStage::Finished, ..self },
                    registry,
                    ActionView::Finish(OutcomeView::Added),
                )
            } else {
                (
                    self.failed(Failure::Storage).0,
                    registry.remove(self.name),
                    self.failed(Failure::Storage).1,
                )
            },
            AddStage::Finished => (self, registry, ActionView::Finish(self.outcome())),
        }
    }
}

/// A step leads from a state that the dialog can be in to another.
pub proof fn lemma_add_step_keeps_wf(
    state: AddView,
    registry: Registry,
    event: Event,
    key: Result<Seq<u8>, VaultError>,
)
    requires
        state.wf(),
    ensures
        state.next(registry, event, key).0.wf(),
{
    lemma_blank_iff_trimmed_empty(event.text());
}

/// A record enters the registry only with all its fields given: when the
/// dialog asks for the registry to be stored, the record under the new name
/// holds the four answers, none of them empty, and the seal of a password
/// that is not blank; and the name was free before.
pub proof fn lemma_added_record_is_complete(
    state: AddView,
    registry: Registry,
    event: Event,
    key: Result<Seq<u8>, VaultError>,
)
    requires
        state.wf(),
        state.stage is Asking,
        state.next(registry, event, key).2 == ActionView::Store,
    ensures
        key is Ok,
        !blank(event.text()),
        !registry.contains_key(state.name),
        state.complete(),
        state.next(registry, event, key).1 == registry.insert(
            state.name,
            state.record(sealed(key->Ok_0, event.text())),
        ),
{
}

/// A dialog that fails leaves the registry as it was: every step that
/// reports a failure hands back the registry it was given, but for the
/// step that undoes an entry after the registry could not be stored.
pub proof fn lemma_failed_answer_changes_nothing(
    state: AddView,
    registry: Registry,
    event: Event,
    key: Result<Seq<u8>, VaultError>,
)
    requires
        state.stage is Asking,
        state.next(registry, event, key).2 is Finish,
    ensures
        state.next(registry, event, key).1 == registry,
        state.next(registry, event, key).2 != ActionView::Finish(OutcomeView::Added),
{
}

/// A registry that could not be stored is left as it was before the space
/// was added: the step that adds and the step that hears of the failure
/// together change nothing.
pub proof fn lemma_failed_store_restores(
    state: AddView,
    registry: Registry,
    answer: Event,
    key: Result<Seq<u8>, VaultError>,
    reply: Event,
    later: Result<Seq<u8>, VaultError>,
)
    requires
        state.stage is Asking,
        state.next(registry, answer, key).2 == ActionView::Store,
        !reply.good(),
    ensures
        ({
            let added = state.next(registry, answer, key);
            let undone = added.0.next(added.1, reply, later);
            undone.1 == registry && undone.2 == ActionView::Finish(
                OutcomeView::Failed(Failure::Storage),
            )
        }),
{
    let added = state.next(registry, answer, key);
    let undone = added.0.next(added.1, reply, later);
    assert(undone.1 =~= registry);
}

impl AddDialog {
    /// How far the dialog has come.
    pub fn stage(&self) -> (r: AddStage)
        ensures
            r == self@.stage,
    {
        self.stage
    }

    /// Ends the dialog with `failure`.
    fn fail(&mut self, failure: Failure) -> (action: Action)
        ensures
            (final(self)@, action@) == old(self)@.failed(failure),
    {
        self.stage = AddStage::Finished;
        self.failure = Some(failure);
        Action::Finish(Outcome::Failed(failure))
    }

    /// Goes on to ask for `field`.
    fn ask(&mut self, field: Field) -> (action: Action)
        ensures
            (final(self)@, action@) == old(self)@.asking(field),
    {
        self.stage = AddStage::Asking(field);
        Action::Prompt(field)
    }

    /// Takes the answer `line` to the question for `field`.
    fn answer(
        &mut self,
        field: Field,
        registry: &mut Config,
        line: &str,
        key: &Result<[u8; 32], VaultError>,
    ) -> (action: Action)
        requires
            old(registry).wf(),
        ensures
            final(registry).wf(),
            (final(self)@, final(registry)@, action@) == old(self)@.answered(
                field,
                old(registry)@,
                line@,
                key_view(*key),
            ),
    {
        if is_empty(line) {
            return self.fail(Failure::EmptyField(field));
        }
        match field {
            Field::Name => {
                let name = trim(line);
                if !registry.check_server_space_name_available(name) {
                    self.fail(Failure::DuplicateName)
                } else {
                    self.name = name.to_owned();
                    self.ask(Field::Host)
                }
            },
            Field::Host => {
                self.host = trim(line).to_owned();
                self.ask(Field::Path)
            },
            Field::Path => {
                self.path = trim(line).to_owned();
                self.ask(Field::User)
            },
            Field::User => {
                self.user = trim(line).to_owned();
                self.ask(Field::Password)
            },
            Field::Password => match key {
                Err(_) => self.fail(Failure::Encryption),
                Ok(bytes) => {
                    let pass = encrypt_with_key(bytes, line);
                    let space = ServerSpace::new(
                        self.name.as_str(),
                        self.host.as_str(),
                        self.path.as_str(),
                        self.user.as_str(),
                        pass.as_str(),
                    );
                    match registry.add_server_space(space) {
                        Ok(()) => {
                            self.stage = AddStage::Storing;
                            Action::Store
                        },
                        Err(_) => self.fail(Failure::DuplicateName),
                    }
                },
            },
        }
    }

    /// Takes what came of the last action and says what to do next, with
    /// the key of the machine handed in.
    pub fn step_with_key(
        &mut self,
        registry: &mut Config,
        event: &Event,
        key: &Result<[u8; 32], VaultError>,
    ) -> (action: Action)
        requires
            old(self)@.wf(),
            old(registry).wf(),
        ensures
            final(self)@.wf(),
            final(registry).wf(),
            (final(self)@, final(registry)@, action@) == old(self)@.next(
                old(registry)@,
                *event,
                key_view(*key),
            ),
    {
        proof {
            lemma_add_step_keeps_wf(self@, registry@, *event, key_view(*key));
        }
        match self.stage {
            AddStage::Asking(field) => self.answer(field, registry, event.line(), key),
            AddStage::Storing => {
                if event.is_good() {
                    self.stage = AddStage::Finished;
                    Action::Finish(Outcome::Added)
                } else {
                    let undone = registry.remove_server_space(self.name.as_str());
                    proof {
                        if undone is Err {
                            assert(old(registry)@.remove(self.name@) =~= old(registry)@);
                        }
                    }
                    self.fail(Failure::Storage)
                }
            },
            AddStage::Finished => match self.failure {
                Some(failure) => Action::Finish(Outcome::Failed(failure)),
                None => Action::Finish(Outcome::Added),
            },
        }
    }

    /// Takes what came of the last action and says what to do next. The
    /// password is sealed under the key of this machine: the step is the
    /// one that `next` gives for some key, or for the lack of one.
    pub fn step(&mut self, registry: &mut Config, event: &Event) -> (action: Action)
        requires
            old(self)@.wf(),
            old(registry).wf(),
        ensures
            final(self)@.wf(),
            final(registry).wf(),
            exists|key: Result<Seq<u8>, VaultError>|
                (final(self)@, final(registry)@, action@) == #[trigger] old(self)@.next(
                    old(registry)@,
                    *event,
                    key,
                ),
    {
        let key = match self.stage {
            AddStage::Asking(Field::Password) => gen_key(),
            _ => Err(VaultError::KeyUnavailable),
        };
        self.step_with_key(registry, event, &key)
    }
}

/// Begins the registration of a space: the operator is asked for its name.
pub fn handle_command_add() -> (r: (AddDialog, Action))
    ensures
        r.0@ == AddView::begun(),
        r.0@.wf(),
        r.1@ == ActionView::Prompt(Field::Name),
{
    (
        AddDialog {
            stage: AddStage::Asking(Field::Name),
            name: String::new(),
            host: String::new(),
            path: String::new(),
            user: String::new(),
            failure: None,
        },
        Action::Prompt(Field::Name),
    )
}

} // verus!
