//! The deployment pipeline: check the directory, look the space up, archive,
//! open the stored password, connect, upload, unpack on the server, close
//! the session and delete the local archive.
//!
//! The pipeline decides; its surroundings act. Each step takes what came of
//! the last action and says what to do next. Whatever fails, a session that
//! was opened is closed and an archive that was begun is deleted before the
//! outcome is reported.

use crate::aes::gen_key;
use crate::aes::key_view;
use crate::aes::VaultError;
use crate::config::Config;
use crate::config::ServerSpace;
use crate::config::SpaceRecord;
use crate::context::resolved;
use crate::context::WorkingContext;
use crate::session::artifact;
use crate::session::artifact_of;
use crate::session::connection_of;
use crate::session::extract_command;
use crate::session::extract_command_of;
use crate::session::get_ssh_session;
use crate::session::Action;
use crate::session::ActionKind;
use crate::session::ActionView;
use crate::session::Event;
use crate::session::Failure;
use crate::session::Input;
use crate::session::Outcome;
use crate::session::OutcomeView;
use crate::session::SessionState;
use crate::utils::base_name;
use crate::utils::base_name_of;
use vstd::prelude::*;

verus! {

/// How far the pipeline has come: each stage waits for what came of the
/// action that led into it.
#[derive(Debug, Clone, Copy, PartialEq, Eq)]
pub enum Stage {
    /// Waiting to hear whether the pushed directory is one.
    Checking,
    /// Waiting for the archive.
    Archiving,
    /// Waiting for the session.
    Connecting,
    /// Waiting for the upload.
    Uploading,
    /// Waiting for the server to unpack.
    Extracting,
    /// Waiting for the session to close.
    Closing,
    /// Waiting for the local archive to be deleted.
    Cleaning,
    /// The outcome was reported.
    Finished,
}

/// A push under way.
#[derive(Debug)]
pub struct Push {
    stage: Stage,
    session: SessionState,
    failure: Option<Failure>,
    target: Option<ServerSpace>,
    source: String,
}

/// A push under way, as plain values.
pub struct PushView {
    /// How far the pipeline has come.
    pub stage: Stage,
    /// The state of the remote session.
    pub session: SessionState,
    /// The first failure, if any step failed.
    pub failure: Option<Failure>,
    /// The space to push to, where the registry knows it.
    pub target: Option<SpaceRecord>,
    /// The absolute path of the pushed directory.
    pub source: Seq<char>,
}

impl View for Push {
    type V = PushView;

    closed spec fn view(&self) -> PushView {
        PushView {
            stage: self.stage,
            session: self.session,
            failure: self.failure,
            target: match self.target {
                Some(space) => Some(space@),
                None => None,
            },
            source: self.source@,
        }
    }
}

impl PushView {
    /// The pipeline as `handle_command_push` leaves it: nothing has been
    /// done but to ask whether the directory is one.
    pub open spec fn begun(target: Option<SpaceRecord>, source: Seq<char>) -> PushView {
        PushView {
            stage: Stage::Checking,
            session: SessionState::Disconnected,
            failure: None,
            target,
            source,
        }
    }

    /// The state is one that the pipeline can be in: the space is known
    /// from the archive on, and the session is in the state that belongs to
    /// the stage.
    pub open spec fn wf(self) -> bool {
        &&& match self.stage {
            Stage::Checking => self.session is Disconnected,
            Stage::Archiving => self.session is Disconnected && self.target is Some,
            Stage::Connecting => self.session is Authenticating && self.target is Some,
            Stage::Uploading => self.session is Connected && self.target is Some,
            Stage::Extracting => self.session is Connected && self.target is Some,
            Stage::Closing => self.session is Connected,
            Stage::Cleaning => !self.session.live(),
            Stage::Finished => !self.session.live(),
        }
    }

    /// The path of the local archive.
    pub open spec fn artifact(self) -> Seq<char> {
        artifact_of(self.source)
    }

    /// The outcome to report: the first failure, or success.
    pub open spec fn outcome(self) -> OutcomeView {
        match self.failure {
            Some(failure) => OutcomeView::Failed(failure),
            None => OutcomeView::Uploaded,
        }
    }

    /// The state with `failure` recorded, unless an earlier one is.
    pub open spec fn failed(self, failure: Failure) -> PushView {
        PushView {
            failure: Some(
                match self.failure {
                    Some(earlier) => earlier,
                    None => failure,
                },
            ),
            ..self
        }
    }

    /// Go on to delete the local archive.
    pub open spec fn cleaning(self) -> (PushView, ActionView) {
        (
            PushView { stage: Stage::Cleaning, ..self },
            ActionView::RemoveFile { path: self.artifact() },
        )
    }

    /// Go on to close the session.
    pub open spec fn closing(self) -> (PushView, ActionView) {
        (PushView { stage: Stage::Closing, ..self }, ActionView::Close)
    }

    /// Report the outcome.
    pub open spec fn finished(self) -> (PushView, ActionView) {
        (PushView { stage: Stage::Finished, ..self }, ActionView::Finish(self.outcome()))
    }

    /// The remote half of the pipeline, from the answer to the connection
    /// attempt to the answer to the closing of the session: where the last
    /// action went well, upload, then unpack, then close; where it failed,
    /// close what is open and go on to delete the local archive.
    pub open spec fn sent(self, good: bool) -> (PushView, ActionView) {
        match self.stage {
            Stage::Connecting => if good {
                (
                    PushView {
                        stage: Stage::Uploading,
                        session: self.session.answered(true),
                        ..self
                    },
                    ActionView::Upload { local: self.artifact(), remote_dir: self.target->0.path },
                )
            } else {
                (PushView { session: self.session.answered(false), ..self }).failed(
                    Failure::Connection,
                ).cleaning()
            },
            Stage::Uploading => if good {
                (
                    PushView { stage: Stage::Extracting, ..self },
                    ActionView::Execute {
                        command: extract_command_of(
                            self.target->0.path,
                            base_name_of(self.artifact()),
                        ),
                    },
                )
            } else {
                self.failed(Failure::Upload).closing()
            },
            Stage::Extracting => if good {
                self.closing()
            } else {
                self.failed(Failure::RemoteExtract).closing()
            },
            _ => (PushView { session: self.session.closed(), ..self }).cleaning(),
        }
    }

    /// The state after `event`, and the action to take next.
    pub open spec fn next(self, event: Event, key: Result<Seq<u8>, VaultError>) -> (
        PushView,
        ActionView,
    ) {
        match self.stage {
            Stage::Checking => if !event.good() {
                self.failed(Failure::InvalidArgument).finished()
            } else if self.target is None {
                self.failed(Failure::SpaceNotFound).finished()
            } else {
                (
                    PushView { stage: Stage::Archiving, ..self },
                    ActionView::Archive { source: self.source, artifact: self.artifact() },
                )
            },
            Stage::Archiving => if !event.good() {
                self.failed(Failure::Archive).cleaning()
            } else {
                match connection_of(key, self.target->0) {
                    Ok(request) => (
                        PushView {
                            stage: Stage::Connecting,
                            session: self.session.dialing(),
                            ..self
                        },
                        request,
                    ),
                    Err(_) => self.failed(Failure::Decryption).cleaning(),
                }
            },
            Stage::Connecting => self.sent(event.good()),
            Stage::Uploading => self.sent(event.good()),
            Stage::Extracting => self.sent(event.good()),
            Stage::Closing => self.sent(event.good()),
            Stage::Cleaning => if event.good() {
                self.finished()
            } else {
                self.failed(Failure::Cleanup).finished()
            },
            Stage::Finished => self.finished(),
        }
    }

    /// The state after the steps that `inputs` drive.
    pub open spec fn after(self, inputs: Seq<Input>) -> PushView
        decreases inputs.len(),
    {
        if inputs.len() == 0 {
            self
        } else {
            self.after(inputs.drop_last()).next(inputs.last().event, inputs.last().key).0
        }
    }

    /// The action that step `at` of a run takes, where `inputs` drive the
    /// run.
    pub open spec fn action(self, inputs: Seq<Input>, at: int) -> ActionView {
        self.after(inputs.take(at)).next(inputs[at].event, inputs[at].key).1
    }
}

/// A step leads from a state that the pipeline can be in to another.
pub proof fn lemma_step_keeps_wf(state: PushView, input: Input)
    requires
        state.wf(),
    ensures
        state.next(input.event, input.key).0.wf(),
{
}

/// Every state of a run is one that the pipeline can be in.
pub proof fn lemma_run_keeps_wf(state: PushView, inputs: Seq<Input>)
    requires
        state.wf(),
    ensures
        state.after(inputs).wf(),
    decreases inputs.len(),
{
    if inputs.len() > 0 {
        lemma_run_keeps_wf(state, inputs.drop_last());
        lemma_step_keeps_wf(state.after(inputs.drop_last()), inputs.last());
    }
}

/// The state after `at + 1` steps is the state after `at` steps, stepped
/// once more.
pub proof fn lemma_run_unfolds(state: PushView, inputs: Seq<Input>, at: int)
    requires
        0 <= at < inputs.len(),
    ensures
        state.after(inputs.take(at + 1)) == state.after(inputs.take(at)).next(
            inputs[at].event,
            inputs[at].key,
        ).0,
{
    let longer = inputs.take(at + 1);
    assert(longer.drop_last() =~= inputs.take(at));
    assert(longer.last() == inputs[at]);
}

/// In this stage a local archive was begun and its deletion has not been
/// asked for yet.
pub open spec fn holds_archive(stage: Stage) -> bool {
    stage is Archiving || stage is Connecting || stage is Uploading || stage is Extracting
        || stage is Closing
}

/// In this stage a session is open and its closing has not been asked for
/// yet.
pub open spec fn holds_session(stage: Stage) -> bool {
    stage is Uploading || stage is Extracting
}

/// After the archive was asked for, it is still to be deleted or its
/// deletion was asked for.
proof fn lemma_archive_pending(state: PushView, inputs: Seq<Input>, begun: int, upto: int)
    requires
        0 <= begun < upto <= inputs.len(),
        state.action(inputs, begun).kind() == ActionKind::Archive,
    ensures
        holds_archive(state.after(inputs.take(upto)).stage) || exists|deleted: int|
            begun < deleted < upto && #[trigger] state.action(inputs, deleted).kind()
                == ActionKind::RemoveFile,
    decreases upto,
{
    lemma_run_unfolds(state, inputs, upto - 1);
    if upto > begun + 1 {
        lemma_archive_pending(state, inputs, begun, upto - 1);
        if holds_archive(state.after(inputs.take(upto - 1)).stage) {
            if !holds_archive(state.after(inputs.take(upto)).stage) {
                assert(state.action(inputs, upto - 1).kind() == ActionKind::RemoveFile);
            }
        } else {
            let deleted = choose|deleted: int|
                begun < deleted < upto - 1 && #[trigger] state.action(inputs, deleted).kind()
                    == ActionKind::RemoveFile;
            assert(begun < deleted < upto);
        }
    }
}

/// After the upload was asked for, the session is still to be closed or
/// its closing was asked for.
proof fn lemma_session_pending(state: PushView, inputs: Seq<Input>, opened: int, upto: int)
    requires
        0 <= opened < upto <= inputs.len(),
        state.action(inputs, opened).kind() == ActionKind::Upload,
    ensures
        holds_session(state.after(inputs.take(upto)).stage) || exists|closed: int|
            opened < closed < upto && #[trigger] state.action(inputs, closed).kind()
                == ActionKind::Close,
    decreases upto,
{
    lemma_run_unfolds(state, inputs, upto - 1);
    if upto > opened + 1 {
        lemma_session_pending(state, inputs, opened, upto - 1);
        if holds_session(state.after(inputs.take(upto - 1)).stage) {
            if !holds_session(state.after(inputs.take(upto)).stage) {
                assert(state.action(inputs, upto - 1).kind() == ActionKind::Close);
            }
        } else {
            let closed = choose|closed: int|
                opened < closed < upto - 1 && #[trigger] state.action(inputs, closed).kind()
                    == ActionKind::Close;
            assert(opened < closed < upto);
        }
    }
}

/// A push of what is no directory does nothing: whatever is handed to the
/// pipeline after that answer, it never asks for an archive, a session or
/// anything else, and only reports `InvalidArgument`.
pub proof fn lemma_not_a_directory_does_nothing(
    target: Option<SpaceRecord>,
    source: Seq<char>,
    inputs: Seq<Input>,
    at: int,
)
    requires
        0 <= at < inputs.len(),
        !inputs[0].event.good(),
    ensures
        PushView::begun(target, source).action(inputs, at) == ActionView::Finish(
            OutcomeView::Failed(Failure::InvalidArgument),
        ),
        PushView::begun(target, source).after(inputs.take(at + 1)) == (PushView {
            stage: Stage::Finished,
            failure: Some(Failure::InvalidArgument),
            ..PushView::begun(target, source)
        }),
    decreases at,
{
    let state = PushView::begun(target, source);
    lemma_run_unfolds(state, inputs, at);
    if at == 0 {
        assert(inputs.take(0) =~= Seq::<Input>::empty());
    } else {
        lemma_not_a_directory_does_nothing(target, source, inputs, at - 1);
    }
}

/// The local archive is always deleted: between the step that asks for the
/// archive and any step that reports the outcome, a step asks for the
/// archive to be deleted, whatever failed or succeeded in between.
pub proof fn lemma_archive_is_deleted(
    state: PushView,
    inputs: Seq<Input>,
    begun: int,
    reported: int,
)
    requires
        0 <= begun < reported < inputs.len(),
        state.action(inputs, begun).kind() == ActionKind::Archive,
        state.action(inputs, reported).kind() == ActionKind::Finish,
    ensures
        exists|deleted: int|
            begun < deleted < reported && #[trigger] state.action(inputs, deleted).kind()
                == ActionKind::RemoveFile,
{
    lemma_archive_pending(state, inputs, begun, reported);
}

/// An open session is always closed: between the step that asks for the
/// upload, which follows a connection that succeeded, and any step that
/// reports the outcome, a step asks for the session to be closed.
pub proof fn lemma_session_is_closed(
    state: PushView,
    inputs: Seq<Input>,
    opened: int,
    reported: int,
)
    requires
        0 <= opened < reported < inputs.len(),
        state.action(inputs, opened).kind() == ActionKind::Upload,
        state.action(inputs, reported).kind() == ActionKind::Finish,
    ensures
        exists|closed: int|
            opened < closed < reported && #[trigger] state.action(inputs, closed).kind()
                == ActionKind::Close,
{
    lemma_session_pending(state, inputs, opened, reported);
}

/// Files are uploaded and commands run over an open session only, and a
/// session is asked for only while none is open.
pub proof fn lemma_remote_actions_have_a_session(state: PushView, input: Input)
    requires
        state.wf(),
    ensures
        ({
            let (after, action) = state.next(input.event, input.key);
            &&& action.kind() == ActionKind::Upload || action.kind() == ActionKind::Execute
                ==> after.session is Connected
            &&& action.kind() == ActionKind::Connect ==> state.session is Disconnected
                && after.session is Authenticating
            &&& action.kind() == ActionKind::Close ==> state.session is Connected
        }),
{
}

/// When the outcome is reported, the pipeline has finished and no session
/// is left open.
pub proof fn lemma_report_leaves_no_session(state: PushView, inputs: Seq<Input>, at: int)
    requires
        state.wf(),
        0 <= at < inputs.len(),
        state.action(inputs, at).kind() == ActionKind::Finish,
    ensures
        !state.after(inputs.take(at + 1)).session.live(),
        state.after(inputs.take(at + 1)).stage is Finished,
{
    lemma_run_unfolds(state, inputs, at);
    lemma_run_keeps_wf(state, inputs.take(at));
    lemma_step_keeps_wf(state.after(inputs.take(at)), inputs[at]);
}

impl Push {
    /// How far the pipeline has come.
    pub fn stage(&self) -> (r: Stage)
        ensures
            r == self@.stage,
    {
        self.stage
    }

    /// The state of the remote session.
    pub fn session(&self) -> (r: SessionState)
        ensures
            r == self@.session,
    {
        self.session
    }

    /// The first failure, if any step failed.
    pub fn failure(&self) -> (r: Option<Failure>)
        ensures
            r == self@.failure,
    {
        self.failure
    }

    /// Records `failure` unless an earlier one is recorded.
    fn fail(&mut self, failure: Failure)
        ensures
            final(self)@ == old(self)@.failed(failure),
    {
        if self.failure.is_none() {
            self.failure = Some(failure);
        }
    }

    /// Goes on to delete the local archive.
    fn clean(&mut self) -> (action: Action)
        ensures
            (final(self)@, action@) == old(self)@.cleaning(),
    {
        self.stage = Stage::Cleaning;
        Action::RemoveFile { path: artifact(self.source.as_str()) }
    }

    /// Goes on to close the session.
    fn close(&mut self) -> (action: Action)
        ensures
            (final(self)@, action@) == old(self)@.closing(),
    {
        self.stage = Stage::Closing;
        Action::Close
    }

    /// Reports the outcome.
    fn finish(&mut self) -> (action: Action)
        ensures
            (final(self)@, action@) == old(self)@.finished(),
    {
        self.stage = Stage::Finished;
        match self.failure {
            Some(failure) => Action::Finish(Outcome::Failed(failure)),
            None => Action::Finish(Outcome::Uploaded),
        }
    }

    /// The remote half of the pipeline: takes the answer to the connection
    /// attempt, to the upload, to the unpacking or to the closing of the
    /// session, and says what to do next.
    fn push_file(&mut self, good: bool) -> (action: Action)
        requires
            old(self)@.wf(),
            old(self)@.stage is Connecting || old(self)@.stage is Uploading
                || old(self)@.stage is Extracting || old(self)@.stage is Closing,
        ensures
            (final(self)@, action@) == old(self)@.sent(good),
    {
        match self.stage {
            Stage::Connecting => {
                self.session = self.session.answer(good);
                if good {
                    self.stage = Stage::Uploading;
                    let remote_dir = match &self.target {
                        Some(space) => space.path.clone(),
                        None => vstd::pervasive::unreached(),
                    };
                    Action::Upload { local: artifact(self.source.as_str()), remote_dir }
                } else {
                    self.fail(Failure::Connection);
                    self.clean()
                }
            },
            Stage::Uploading => {
                if good {
                    self.stage = Stage::Extracting;
                    let archive = artifact(self.source.as_str());
                    let command = match &self.target {
                        Some(space) => extract_command(
                            space.path.as_str(),
                            base_name(archive.as_str()),
                        ),
                        None => vstd::pervasive::unreached(),
                    };
                    Action::Execute { command }
                } else {
                    self.fail(Failure::Upload);
                    self.close()
                }
            },
            Stage::Extracting => {
                if !good {
                    self.fail(Failure::RemoteExtract);
                }
                self.close()
            },
            _ => {
                self.session = self.session.close();
                self.clean()
            },
        }
    }

    /// Takes what came of the last action and says what to do next, with
    /// the key of the machine handed in.
    pub fn step_with_key(&mut self, event: &Event, key: &Result<[u8; 32], VaultError>) -> (action:
        Action)
        requires
            old(self)@.wf(),
        ensures
            final(self)@.wf(),
            (final(self)@, action@) == old(self)@.next(*event, key_view(*key)),
    {
        proof {
            lemma_step_keeps_wf(self@, Input { event: *event, key: key_view(*key) });
        }
        let good = event.is_good();
        match self.stage {
            Stage::Checking => {
                if !good {
                    self.fail(Failure::InvalidArgument);
                    self.finish()
                } else if self.target.is_none() {
                    self.fail(Failure::SpaceNotFound);
                    self.finish()
                } else {
                    self.stage = Stage::Archiving;
                    Action::Archive {
                        source: self.source.clone(),
                        artifact: artifact(self.source.as_str()),
                    }
                }
            },
            Stage::Archiving => {
                if !good {
                    self.fail(Failure::Archive);
                    self.clean()
                } else {
                    let request = match &self.target {
                        Some(space) => get_ssh_session(key, space),
                        None => vstd::pervasive::unreached(),
                    };
                    match request {
                        Ok(action) => {
                            self.stage = Stage::Connecting;
                            self.session = self.session.dial();
                            action
                        },
                        Err(_) => {
                            self.fail(Failure::Decryption);
                            self.clean()
                        },
                    }
                }
            },
            Stage::Connecting => self.push_file(good),
            Stage::Uploading => self.push_file(good),
            Stage::Extracting => self.push_file(good),
            Stage::Closing => self.push_file(good),
            Stage::Cleaning => {
                if !good {
                    self.fail(Failure::Cleanup);
                }
                self.finish()
            },
            Stage::Finished => self.finish(),
        }
    }

    /// Takes what came of the last action and says what to do next. The
    /// stored password is opened under the key of this machine: the step is
    /// the one that `next` gives for some key, or for the lack of one.
    pub fn step(&mut self, event: &Event) -> (action: Action)
        requires
            old(self)@.wf(),
        ensures
            final(self)@.wf(),
            exists|key: Result<Seq<u8>, VaultError>|
                (final(self)@, action@) == #[trigger] old(self)@.next(*event, key),
    {
        let key = match self.stage {
            Stage::Archiving => gen_key(),
            _ => Err(VaultError::KeyUnavailable),
        };
        self.step_with_key(event, &key)
    }
}

/// Begins a push of the directory `pushed_dir` to the space named
/// `space_name`: nothing is done yet but to ask whether the directory,
/// taken under the working directory, is one. The space is looked up now
/// and missed only after the directory was found.
pub fn handle_command_push(
    context: &WorkingContext,
    registry: &Config,
    pushed_dir: &str,
    space_name: &str,
) -> (r: (Push, Action))
    requires
        registry.wf(),
    ensures
        r.0@.wf(),
        r.0@ == PushView::begun(
            if registry@.contains_key(space_name@) {
                Some(registry@[space_name@])
            } else {
                None
            },
            resolved(context.cwd@, pushed_dir@),
        ),
        r.1@ == (ActionView::CheckDirectory { path: resolved(context.cwd@, pushed_dir@) }),
{
    let source = context.resolve(pushed_dir);
    let target = registry.server_space_detail(space_name);
    let path = source.clone();
    (
        Push {
            stage: Stage::Checking,
            session: SessionState::Disconnected,
            failure: None,
            target,
            source,
        },
        Action::CheckDirectory { path },
    )
}

} // verus!
