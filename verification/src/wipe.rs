//! The wipe: after the operator has confirmed it, every entry under the
//! remote path of a space is deleted. Anything but the confirmation ends
//! the operation before a session is asked for.

use crate::aes::gen_key;
use crate::aes::key_view;
use crate::aes::VaultError;
use crate::config::Config;
use crate::config::ServerSpace;
use crate::config::SpaceRecord;
use crate::session::confirmed;
use crate::session::confirms;
use crate::session::connection_of;
use crate::session::get_ssh_session;
use crate::session::lowercased;
use crate::session::wipe_command;
use crate::session::wipe_command_of;
use crate::session::Action;
use crate::session::ActionKind;
use crate::session::ActionView;
use crate::session::Event;
use crate::session::Failure;
use crate::session::Input;
use crate::session::Outcome;
use crate::session::OutcomeView;
use crate::session::SessionState;
use vstd::prelude::*;

verus! {

/// How far the wipe has come: each stage waits for what came of the action
/// that led into it.
#[derive(Debug, Clone, Copy, PartialEq, Eq)]
pub enum WipeStage {
    /// Waiting for the operator's line.
    Confirming,
    /// Waiting for the session.
    Connecting,
    /// Waiting for the server to delete.
    Wiping,
    /// Waiting for the session to close.
    Closing,
    /// The outcome was reported.
    Finished,
}

/// A wipe under way.
#[derive(Debug)]
pub struct Wipe {
    stage: WipeStage,
    session: SessionState,
    confirmed: bool,
    failure: Option<Failure>,
    target: Option<ServerSpace>,
}

/// A wipe under way, as plain values.
pub struct WipeView {
    /// How far the wipe has come.
    pub stage: WipeStage,
    /// The state of the remote session.
    pub session: SessionState,
    /// The operator has confirmed the wipe.
    pub confirmed: bool,
    /// The first failure, if any step failed.
    pub failure: Option<Failure>,
    /// The space to clear, where the registry knows it.
    pub target: Option<SpaceRecord>,
}

impl View for Wipe {
    type V = WipeView;

    closed spec fn view(&self) -> WipeView {
        WipeView {
            stage: self.stage,
            session: self.session,
            confirmed: self.confirmed,
            failure: self.failure,
            target: match self.target {
                Some(space) => Some(space@),
                None => None,
            },
        }
    }
}

impl WipeView {
    /// The wipe as `handle_command_rmrf` leaves it, and the action it asks
    /// for: the confirmation where the space is known, the report that it
    /// is not where it is unknown.
    pub open spec fn begun(target: Option<SpaceRecord>) -> (WipeView, ActionView) {
        match target {
            Some(_) => (
                WipeView {
                    stage: WipeStage::Confirming,
                    session: SessionState::Disconnected,
                    confirmed: false,
                    failure: None,
                    target,
                },
                ActionView::Confirm,
            ),
            None => (
                WipeView {
                    stage: WipeStage::Finished,
                    session: SessionState::Disconnected,
                    confirmed: false,
                    failure: Some(Failure::SpaceNotFound),
                    target,
                },
                ActionView::Finish(OutcomeView::Failed(Failure::SpaceNotFound)),
            ),
        }
    }

    /// The state is one that the wipe can be in.
    pub open spec fn wf(self) -> bool {
        match self.stage {
            WipeStage::Confirming => self.session is Disconnected && self.target is Some
                && !self.confirmed && self.failure is None,
            WipeStage::Connecting => self.session is Authenticating && self.target is Some
                && self.confirmed,
            WipeStage::Wiping => self.session is Connected && self.target is Some
                && self.confirmed,
            WipeStage::Closing => self.session is Connected && self.confirmed,
            WipeStage::Finished => !self.session.live(),
        }
    }

    /// The outcome to report: the first failure; else that the space was
    /// cleared, or that the operator did not confirm.
    pub open spec fn outcome(self) -> OutcomeView {
        match self.failure {
            Some(failure) => OutcomeView::Failed(failure),
            None => if self.confirmed {
                OutcomeView::Wiped
            } else {
                OutcomeView::Aborted
            },
        }
    }

    /// The state with `failure` recorded, unless an earlier one is.
    pub open spec fn failed(self, failure: Failure) -> WipeView {
        WipeView {
            failure: Some(
                match self.failure {
                    Some(earlier) => earlier,
                    None => failure,
                },
            ),
            ..self
        }
    }

    /// Go on to close the session.
    pub open spec fn closing(self) -> (WipeView, ActionView) {
        (WipeView { stage: WipeStage::Closing, ..self }, ActionView::Close)
    }

    /// Report the outcome.
    pub open spec fn finished(self) -> (WipeView, ActionView) {
        (WipeView { stage: WipeStage::Finished, ..self }, ActionView::Finish(self.outcome()))
    }

    /// The state after `event`, and the action to take next.
    pub open spec fn next(self, event: Event, key: Result<Seq<u8>, VaultError>) -> (
        WipeView,
        ActionView,
    ) {
        match self.stage {
            WipeStage::Confirming => if !confirms(lowercased(event.text())) {
                self.finished()
            } else {
                match connection_of(key, self.target->0) {
                    Ok(request) => (
                        WipeView {
                            stage: WipeStage::Connecting,
                            session: self.session.dialing(),
                            confirmed: true,
                            ..self
                        },
                        request,
                    ),
                    Err(_) => (WipeView { confirmed: true, ..self }).failed(
                        Failure::Decryption,
                    ).finished(),
                }
            },
            WipeStage::Connecting => if event.good() {
                (
                    WipeView {
                        stage: WipeStage::Wiping,
                        session: self.session.answered(true),
                        ..self
                    },
                    ActionView::Execute { command: wipe_command_of(self.target->0.path) },
                )
            } else {
                (WipeView { session: self.session.answered(false), ..self }).failed(
                    Failure::Connection,
                ).finished()
            },
            WipeStage::Wiping => if event.ran() {
                self.closing()
            } else {
                self.failed(Failure::RemoteExec).closing()
            },
            WipeStage::Closing => (WipeView { session: self.session.closed(), ..self }).finished(),
            WipeStage::Finished => self.finished(),
        }
    }

    /// The state after the steps that `inputs` drive.
    pub open spec fn after(self, inputs: Seq<Input>) -> WipeView
        decreases inputs.len(),
    {
        if inputs.len() == 0 {
            self
        } else {
            self.after(inputs.drop_last()).next(inputs.last().event, inputs.last().key).0
        }
    }

    /// The action that step `at` of a run takes, where `inputs` drive the
    /// run.
    pub open spec fn action(self, inputs: Seq<Input>, at: int) -> ActionView {
        self.after(inputs.take(at)).next(inputs[at].event, inputs[at].key).1
    }
}

/// A step leads from a state that the wipe can be in to another.
pub proof fn lemma_wipe_step_keeps_wf(state: WipeView, input: Input)
    requires
        state.wf(),
    ensures
        state.next(input.event, input.key).0.wf(),
{
}

/// Every state of a run is one that the wipe can be in.
pub proof fn lemma_wipe_run_keeps_wf(state: WipeView, inputs: Seq<Input>)
    requires
        state.wf(),
    ensures
        state.after(inputs).wf(),
    decreases inputs.len(),
{
    if inputs.len() > 0 {
        lemma_wipe_run_keeps_wf(state, inputs.drop_last());
        lemma_wipe_step_keeps_wf(state.after(inputs.drop_last()), inputs.last());
    }
}

/// The state after `at + 1` steps is the state after `at` steps, stepped
/// once more.
pub proof fn lemma_wipe_run_unfolds(state: WipeView, inputs: Seq<Input>, at: int)
    requires
        0 <= at < inputs.len(),
    ensures
        state.after(inputs.take(at + 1)) == state.after(inputs.take(at)).next(
            inputs[at].event,
            inputs[at].key,
        ).0,
{
    let longer = inputs.take(at + 1);
    assert(longer.drop_last() =~= inputs.take(at));
    assert(longer.last() == inputs[at]);
}

/// Without the confirmation nothing is done: where the operator's line does
/// not confirm, the wipe asks for no session and no command, whatever it
/// is handed afterwards, and only reports that it was not confirmed.
pub proof fn lemma_unconfirmed_wipe_does_nothing(
    space: SpaceRecord,
    inputs: Seq<Input>,
    at: int,
)
    requires
        0 <= at < inputs.len(),
        !confirms(lowercased(inputs[0].event.text())),
    ensures
        WipeView::begun(Some(space)).0.action(inputs, at) == ActionView::Finish(
            OutcomeView::Aborted,
        ),
        WipeView::begun(Some(space)).0.after(inputs.take(at + 1)) == (WipeView {
            stage: WipeStage::Finished,
            ..WipeView::begun(Some(space)).0
        }),
    decreases at,
{
    let state = WipeView::begun(Some(space)).0;
    lemma_wipe_run_unfolds(state, inputs, at);
    if at == 0 {
        assert(inputs.take(0) =~= Seq::<Input>::empty());
    } else {
        lemma_unconfirmed_wipe_does_nothing(space, inputs, at - 1);
    }
}

/// A wipe of a space that the registry does not know does nothing but
/// report that.
pub proof fn lemma_unknown_space_is_not_wiped(inputs: Seq<Input>, at: int)
    requires
        0 <= at < inputs.len(),
    ensures
        WipeView::begun(None).0.action(inputs, at) == ActionView::Finish(
            OutcomeView::Failed(Failure::SpaceNotFound),
        ),
        WipeView::begun(None).0.after(inputs.take(at + 1)) == WipeView::begun(None).0,
    decreases at,
{
    let state = WipeView::begun(None).0;
    lemma_wipe_run_unfolds(state, inputs, at);
    if at == 0 {
        assert(inputs.take(0) =~= Seq::<Input>::empty());
    } else {
        lemma_unknown_space_is_not_wiped(inputs, at - 1);
    }
}

/// After the command was asked for, the session is still to be closed or
/// its closing was asked for.
proof fn lemma_wipe_session_pending(state: WipeView, inputs: Seq<Input>, opened: int, upto: int)
    requires
        0 <= opened < upto <= inputs.len(),
        state.action(inputs, opened).kind() == ActionKind::Execute,
    ensures
        state.after(inputs.take(upto)).stage is Wiping || exists|closed: int|
            opened < closed < upto && #[trigger] state.action(inputs, closed).kind()
                == ActionKind::Close,
    decreases upto,
{
    lemma_wipe_run_unfolds(state, inputs, upto - 1);
    if upto > opened + 1 {
        lemma_wipe_session_pending(state, inputs, opened, upto - 1);
        if state.after(inputs.take(upto - 1)).stage is Wiping {
            assert(state.action(inputs, upto - 1).kind() == ActionKind::Close);
        } else {
            let closed = choose|closed: int|
                opened < closed < upto - 1 && #[trigger] state.action(inputs, closed).kind()
                    == ActionKind::Close;
            assert(opened < closed < upto);
        }
    }
}

/// An open session is always closed: between the step that asks for the
/// command, which follows a connection that succeeded, and any step that
/// reports the outcome, a step asks for the session to be closed.
pub proof fn lemma_wipe_session_is_closed(
    state: WipeView,
    inputs: Seq<Input>,
    opened: int,
    reported: int,
)
    requires
        0 <= opened < reported < inputs.len(),
        state.action(inputs, opened).kind() == ActionKind::Execute,
        state.action(inputs, reported).kind() == ActionKind::Finish,
    ensures
        exists|closed: int|
            opened < closed < reported && #[trigger] state.action(inputs, closed).kind()
                == ActionKind::Close,
{
    lemma_wipe_session_pending(state, inputs, opened, reported);
}

/// The command is run over an open session only, and a session is asked
/// for only after the operator has confirmed and while none is open.
pub proof fn lemma_wipe_actions_have_a_session(state: WipeView, input: Input)
    requires
        state.wf(),
    ensures
        ({
            let (after, action) = state.next(input.event, input.key);
            &&& action.kind() == ActionKind::Execute ==> after.session is Connected
                && after.confirmed
            &&& action.kind() == ActionKind::Connect ==> state.session is Disconnected
                && after.session is Authenticating && confirms(
                lowercased(input.event.text()),
            )
            &&& action.kind() == ActionKind::Close ==> state.session is Connected
        }),
{
}

/// When the outcome is reported, the wipe has finished and no session is
/// left open.
pub proof fn lemma_wipe_report_leaves_no_session(state: WipeView, inputs: Seq<Input>, at: int)
    requires
        state.wf(),
        0 <= at < inputs.len(),
        state.action(inputs, at).kind() == ActionKind::Finish,
    ensures
        !state.after(inputs.take(at + 1)).session.live(),
        state.after(inputs.take(at + 1)).stage is Finished,
{
    lemma_wipe_run_unfolds(state, inputs, at);
    lemma_wipe_run_keeps_wf(state, inputs.take(at));
    lemma_wipe_step_keeps_wf(state.after(inputs.take(at)), inputs[at]);
}

impl Wipe {
    /// How far the wipe has come.
    pub fn stage(&self) -> (r: WipeStage)
        ensures
            r == self@.stage,
    {
        self.stage
    }

    /// The state of the remote session.
    pub fn session(&self) -> (r: SessionState)
        ensures
            r == self@.session,
    {
        self.session
    }

    /// Records `failure` unless an earlier one is recorded.
    fn fail(&mut self, failure: Failure)
        ensures
            final(self)@ == old(self)@.failed(failure),
    {
        if self.failure.is_none() {
            self.failure = Some(failure);
        }
    }

    /// Goes on to close the session.
    fn close(&mut self) -> (action: Action)
        ensures
            (final(self)@, action@) == old(self)@.closing(),
    {
        self.stage = WipeStage::Closing;
        Action::Close
    }

    /// Reports the outcome.
    fn finish(&mut self) -> (action: Action)
        ensures
            (final(self)@, action@) == old(self)@.finished(),
    {
        self.stage = WipeStage::Finished;
        match self.failure {
            Some(failure) => Action::Finish(Outcome::Failed(failure)),
            None => if self.confirmed {
                Action::Finish(Outcome::Wiped)
            } else {
                Action::Finish(Outcome::Aborted)
            },
        }
    }

    /// Takes what came of the last action and says what to do next, with
    /// the key of the machine handed in.
    pub fn step_with_key(&mut self, event: &Event, key: &Result<[u8; 32], VaultError>) -> (action:
        Action)
        requires
            old(self)@.wf(),
        ensures
            final(self)@.wf(),
            (final(self)@, action@) == old(self)@.next(*event, key_view(*key)),
    {
        proof {
            lemma_wipe_step_keeps_wf(self@, Input { event: *event, key: key_view(*key) });
        }
        match self.stage {
            WipeStage::Confirming => {
                if !confirmed(event.line()) {
                    self.finish()
                } else {
                    self.confirmed = true;
                    let request = match &self.target {
                        Some(space) => get_ssh_session(key, space),
                        None => vstd::pervasive::unreached(),
                    };
                    match request {
                        Ok(action) => {
                            self.stage = WipeStage::Connecting;
                            self.session = self.session.dial();
                            action
                        },
                        Err(_) => {
                            self.fail(Failure::Decryption);
                            self.finish()
                        },
                    }
                }
            },
            WipeStage::Connecting => {
                let good = event.is_good();
                self.session = self.session.answer(good);
                if good {
                    self.stage = WipeStage::Wiping;
                    let command = match &self.target {
                        Some(space) => wipe_command(space.path.as_str()),
                        None => vstd::pervasive::unreached(),
                    };
                    Action::Execute { command }
                } else {
                    self.fail(Failure::Connection);
                    self.finish()
                }
            },
            WipeStage::Wiping => {
                if !event.has_run() {
                    self.fail(Failure::RemoteExec);
                }
                self.close()
            },
            WipeStage::Closing => {
                self.session = self.session.close();
                self.finish()
            },
            WipeStage::Finished => self.finish(),
        }
    }

    /// Takes what came of the last action and says what to do next. The
    /// stored password is opened under the key of this machine: the step is
    /// the one that `next` gives for some key, or for the lack of one.
    pub fn step(&mut self, event: &Event) -> (action: Action)
        requires
            old(self)@.wf(),
        ensures
            final(self)@.wf(),
            exists|key: Result<Seq<u8>, VaultError>|
                (final(self)@, action@) == #[trigger] old(self)@.next(*event, key),
    {
        let key = match self.stage {
            WipeStage::Confirming => gen_key(),
            _ => Err(VaultError::KeyUnavailable),
        };
        self.step_with_key(event, &key)
    }
}

/// Begins the wipe of the space named `space_name`: where the registry
/// knows it, the operator is asked to confirm; where not, that is reported
/// and nothing else is done.
pub fn handle_command_rmrf(registry: &Config, space_name: &str) -> (r: (Wipe, Action))
    requires
        registry.wf(),
    ensures
        r.0@.wf(),
        (r.0@, r.1@) == WipeView::begun(
            if registry@.contains_key(space_name@) {
                Some(registry@[space_name@])
            } else {
                None
            },
        ),
{
    match registry.server_space_detail(space_name) {
        Some(space) => (
            Wipe {
                stage: WipeStage::Confirming,
                session: SessionState::Disconnected,
                confirmed: false,
                failure: None,
                target: Some(space),
            },
            Action::Confirm,
        ),
        None => (
            Wipe {
                stage: WipeStage::Finished,
                session: SessionState::Disconnected,
                confirmed: false,
                failure: Some(Failure::SpaceNotFound),
                target: None,
            },
            Action::Finish(Outcome::Failed(Failure::SpaceNotFound)),
        ),
    }
}

} // verus!
