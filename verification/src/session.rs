//! What an operation asks of its surroundings and what it hears back, the
//! states of a remote session, and the requests and command lines that are
//! sent to a server space.

use crate::aes::decrypt_under;
use crate::aes::key_view;
use crate::aes::opened_under;
use crate::aes::VaultError;
use crate::config::ServerSpace;
use crate::config::SpaceRecord;
use crate::utils::chain;
use crate::utils::same_text;
use crate::utils::trim;
use crate::utils::trimmed;
use vstd::prelude::*;
use vstd::string::StringExecFns;

verus! {

/// A field of a server space that the operator is asked for.
#[derive(Debug, Clone, Copy, PartialEq, Eq)]
pub enum Field {
    Name,
    Host,
    Path,
    User,
    Password,
}

/// Why an operation ended without doing what it was asked to do.
#[derive(Debug, Clone, Copy, PartialEq, Eq)]
pub enum Failure {
    /// A required field was left blank.
    EmptyField(Field),
    /// A space of that name is registered already.
    DuplicateName,
    /// No space of that name is registered.
    SpaceNotFound,
    /// The pushed directory is no directory.
    InvalidArgument,
    /// The registry could not be stored.
    Storage,
    /// The directory could not be archived.
    Archive,
    /// The password could not be sealed.
    Encryption,
    /// The stored password could not be opened.
    Decryption,
    /// No session could be opened.
    Connection,
    /// The archive could not be uploaded.
    Upload,
    /// The archive could not be unpacked on the server.
    RemoteExtract,
    /// The command could not be run on the server.
    RemoteExec,
    /// The local archive could not be deleted.
    Cleanup,
}

/// How a failure is told to the operator.
#[derive(Debug, Clone, Copy, PartialEq, Eq)]
pub enum FailureClass {
    /// What was typed is not accepted: a blank field, a name that is taken,
    /// a directory that is none. Nothing was done.
    Validation,
    /// The space is unknown. Nothing was done.
    NotFound,
    /// The local file system or the vault failed before any session was
    /// opened, or while tidying up afterwards.
    Local,
    /// The push or the wipe failed on its way to the server or there. The
    /// operator is told no more than to check the space: a password that
    /// cannot be opened is told like a host that cannot be reached.
    Remote,
}

impl Failure {
    /// How this failure is told to the operator.
    pub open spec fn class_of(self) -> FailureClass {
        match self {
            Failure::EmptyField(_) => FailureClass::Validation,
            Failure::DuplicateName => FailureClass::Validation,
            Failure::InvalidArgument => FailureClass::Validation,
            Failure::SpaceNotFound => FailureClass::NotFound,
            Failure::Storage => FailureClass::Local,
            Failure::Archive => FailureClass::Local,
            Failure::Encryption => FailureClass::Local,
            Failure::Cleanup => FailureClass::Local,
            Failure::Decryption => FailureClass::Remote,
            Failure::Connection => FailureClass::Remote,
            Failure::Upload => FailureClass::Remote,
            Failure::RemoteExtract => FailureClass::Remote,
            Failure::RemoteExec => FailureClass::Remote,
        }
    }

    /// How this failure is told to the operator.
    pub fn class(&self) -> (r: FailureClass)
        ensures
            r == self.class_of(),
    {
        match self {
            Failure::EmptyField(_) => FailureClass::Validation,
            Failure::DuplicateName => FailureClass::Validation,
            Failure::InvalidArgument => FailureClass::Validation,
            Failure::SpaceNotFound => FailureClass::NotFound,
            Failure::Storage => FailureClass::Local,
            Failure::Archive => FailureClass::Local,
            Failure::Encryption => FailureClass::Local,
            Failure::Cleanup => FailureClass::Local,
            Failure::Decryption => FailureClass::Remote,
            Failure::Connection => FailureClass::Remote,
            Failure::Upload => FailureClass::Remote,
            Failure::RemoteExtract => FailureClass::Remote,
            Failure::RemoteExec => FailureClass::Remote,
        }
    }
}

/// How an operation ended.
#[derive(Debug, PartialEq, Eq)]
pub enum Outcome {
    /// The space was registered and the registry stored.
    Added,
    /// The space was dropped and the registry stored.
    Removed,
    /// The registered names; none is a valid answer.
    Listed(Vec<String>),
    /// The record that was asked for.
    Detail(ServerSpace),
    /// The directory was pushed.
    Uploaded,
    /// The space was cleared.
    Wiped,
    /// The operator did not confirm; nothing was done.
    Aborted,
    /// The operation failed.
    Failed(Failure),
}

/// An outcome as plain text.
pub enum OutcomeView {
    Added,
    Removed,
    Listed(Seq<Seq<char>>),
    Detail(SpaceRecord),
    Uploaded,
    Wiped,
    Aborted,
    Failed(Failure),
}

impl OutcomeView {
    /// The operation did not fail. An empty listing and a wipe that was not
    /// confirmed are no failures.
    pub open spec fn succeeded(self) -> bool {
        !(self is Failed)
    }
}

impl Outcome {
    /// Whether the operation did not fail.
    pub fn is_success(&self) -> (r: bool)
        ensures
            r == self@.succeeded(),
    {
        match self {
            Outcome::Failed(_) => false,
            _ => true,
        }
    }
}

impl View for Outcome {
    type V = OutcomeView;

    open spec fn view(&self) -> OutcomeView {
        match self {
            Outcome::Added => OutcomeView::Added,
            Outcome::Removed => OutcomeView::Removed,
            Outcome::Listed(names) => OutcomeView::Listed(names@.map_values(|name: String| name@)),
            Outcome::Detail(space) => OutcomeView::Detail(space@),
            Outcome::Uploaded => OutcomeView::Uploaded,
            Outcome::Wiped => OutcomeView::Wiped,
            Outcome::Aborted => OutcomeView::Aborted,
            Outcome::Failed(failure) => OutcomeView::Failed(*failure),
        }
    }
}

/// What the surroundings are asked to do next. Every action but `Finish`
/// is answered with one event.
#[derive(Debug, PartialEq, Eq)]
pub enum Action {
    /// Ask the operator for a field; the password is read without echo.
    Prompt(Field),
    /// Warn the operator that the space will be cleared, and read a line.
    Confirm,
    /// Store the registry.
    Store,
    /// Tell whether `path` is a directory.
    CheckDirectory { path: String },
    /// Pack the contents of the directory `source` into the compressed
    /// archive `artifact`, with no directory name in front of the entries.
    Archive { source: String, artifact: String },
    /// Open a session to `address` and log in.
    Connect { address: String, user: String, password: String },
    /// Copy the file `local` into the remote directory `remote_dir`.
    Upload { local: String, remote_dir: String },
    /// Run `command` on the server and wait for it.
    Execute { command: String },
    /// Close the session.
    Close,
    /// Delete the local file `path`.
    RemoveFile { path: String },
    /// Report the outcome; the operation is over.
    Finish(Outcome),
}

/// An action as plain text.
pub enum ActionView {
    Prompt(Field),
    Confirm,
    Store,
    CheckDirectory { path: Seq<char> },
    Archive { source: Seq<char>, artifact: Seq<char> },
    Connect { address: Seq<char>, user: Seq<char>, password: Seq<char> },
    Upload { local: Seq<char>, remote_dir: Seq<char> },
    Execute { command: Seq<char> },
    Close,
    RemoveFile { path: Seq<char> },
    Finish(OutcomeView),
}

impl View for Action {
    type V = ActionView;

    open spec fn view(&self) -> ActionView {
        match self {
            Action::Prompt(field) => ActionView::Prompt(*field),
            Action::Confirm => ActionView::Confirm,
            Action::Store => ActionView::Store,
            Action::CheckDirectory { path } => ActionView::CheckDirectory { path: path@ },
            Action::Archive { source, artifact } => ActionView::Archive {
                source: source@,
                artifact: artifact@,
            },
            Action::Connect { address, user, password } => ActionView::Connect {
                address: address@,
                user: user@,
                password: password@,
            },
            Action::Upload { local, remote_dir } => ActionView::Upload {
                local: local@,
                remote_dir: remote_dir@,
            },
            Action::Execute { command } => ActionView::Execute { command: command@ },
            Action::Close => ActionView::Close,
            Action::RemoveFile { path } => ActionView::RemoveFile { path: path@ },
            Action::Finish(outcome) => ActionView::Finish(outcome@),
        }
    }
}

/// What kind of action it is, whatever it carries.
#[derive(Debug, Clone, Copy, PartialEq, Eq)]
pub enum ActionKind {
    Prompt,
    Confirm,
    Store,
    CheckDirectory,
    Archive,
    Connect,
    Upload,
    Execute,
    Close,
    RemoveFile,
    Finish,
}

impl ActionView {
    /// The kind of this action.
    pub open spec fn kind(self) -> ActionKind {
        match self {
            ActionView::Prompt(_) => ActionKind::Prompt,
            ActionView::Confirm => ActionKind::Confirm,
            ActionView::Store => ActionKind::Store,
            ActionView::CheckDirectory { .. } => ActionKind::CheckDirectory,
            ActionView::Archive { .. } => ActionKind::Archive,
            ActionView::Connect { .. } => ActionKind::Connect,
            ActionView::Upload { .. } => ActionKind::Upload,
            ActionView::Execute { .. } => ActionKind::Execute,
            ActionView::Close => ActionKind::Close,
            ActionView::RemoveFile { .. } => ActionKind::RemoveFile,
            ActionView::Finish(_) => ActionKind::Finish,
        }
    }
}

impl Action {
    /// The kind of this action.
    pub fn kind(&self) -> (r: ActionKind)
        ensures
            r == self@.kind(),
    {
        match self {
            Action::Prompt(_) => ActionKind::Prompt,
            Action::Confirm => ActionKind::Confirm,
            Action::Store => ActionKind::Store,
            Action::CheckDirectory { .. } => ActionKind::CheckDirectory,
            Action::Archive { .. } => ActionKind::Archive,
            Action::Connect { .. } => ActionKind::Connect,
            Action::Upload { .. } => ActionKind::Upload,
            Action::Execute { .. } => ActionKind::Execute,
            Action::Close => ActionKind::Close,
            Action::RemoveFile { .. } => ActionKind::RemoveFile,
            Action::Finish(_) => ActionKind::Finish,
        }
    }
}

/// What came of the last action.
#[derive(Debug, PartialEq, Eq)]
pub enum Event {
    /// The line that the operator typed.
    Line(String),
    /// Whether the path is a directory.
    Directory(bool),
    /// The action was carried out.
    Done,
    /// The action could not be carried out.
    Failed,
    /// The command ran and left this exit status.
    Exited(u32),
}

impl Event {
    /// The action was carried out: `Done`, a directory that is one, or a
    /// command that left status 0. A line typed is no such report.
    pub open spec fn good(&self) -> bool {
        match self {
            Event::Done => true,
            Event::Directory(found) => *found,
            Event::Exited(status) => *status == 0,
            Event::Line(_) => false,
            Event::Failed => false,
        }
    }

    /// The command ran, whatever status it left.
    pub open spec fn ran(&self) -> bool {
        self is Done || self is Exited
    }

    /// The line that was typed, or the empty text for any other event.
    pub open spec fn text(&self) -> Seq<char> {
        match self {
            Event::Line(line) => line@,
            _ => Seq::<char>::empty(),
        }
    }

    /// Whether the action was carried out.
    pub fn is_good(&self) -> (r: bool)
        ensures
            r == self.good(),
    {
        match self {
            Event::Done => true,
            Event::Directory(found) => *found,
            Event::Exited(status) => *status == 0,
            Event::Line(_) => false,
            Event::Failed => false,
        }
    }

    /// Whether the command ran.
    pub fn has_run(&self) -> (r: bool)
        ensures
            r == self.ran(),
    {
        match self {
            Event::Done => true,
            Event::Exited(_) => true,
            _ => false,
        }
    }

    /// The line that was typed, or the empty text for any other event.
    pub fn line(&self) -> (r: &str)
        ensures
            r@ == self.text(),
    {
        match self {
            Event::Line(line) => line.as_str(),
            _ => {
                proof {
                    reveal_strlit("");
                    assert(""@ =~= Seq::<char>::empty());
                }
                ""
            },
        }
    }
}

/// What a step of an operation is given: what came of the last action, and
/// the key of the machine or the reason why it has none.
pub struct Input {
    pub event: Event,
    pub key: Result<Seq<u8>, VaultError>,
}

/// The state of a remote session.
#[derive(Debug, Clone, Copy, PartialEq, Eq)]
pub enum SessionState {
    /// No transport is open.
    Disconnected,
    /// A transport is being opened and the login is under way.
    Authenticating,
    /// The session is open: files can be uploaded and commands run.
    Connected,
    /// The session was closed and its transport released.
    Closed,
}

impl SessionState {
    /// The session holds a transport that has to be released.
    pub open spec fn live(self) -> bool {
        self is Authenticating || self is Connected
    }

    /// The state after a connection was asked for: only a disconnected
    /// session starts to authenticate.
    pub open spec fn dialing(self) -> SessionState {
        if self is Disconnected {
            SessionState::Authenticating
        } else {
            self
        }
    }

    /// The state after the connection attempt was answered: a failure
    /// leaves the session disconnected.
    pub open spec fn answered(self, connected: bool) -> SessionState {
        if self is Authenticating {
            if connected {
                SessionState::Connected
            } else {
                SessionState::Disconnected
            }
        } else {
            self
        }
    }

    /// The state after the session was closed.
    pub open spec fn closed(self) -> SessionState {
        SessionState::Closed
    }

    /// Asks for a connection.
    pub fn dial(self) -> (r: SessionState)
        ensures
            r == self.dialing(),
    {
        match self {
            SessionState::Disconnected => SessionState::Authenticating,
            other => other,
        }
    }

    /// Takes the answer to the connection attempt.
    pub fn answer(self, connected: bool) -> (r: SessionState)
        ensures
            r == self.answered(connected),
    {
        match self {
            SessionState::Authenticating => if connected {
                SessionState::Connected
            } else {
                SessionState::Disconnected
            },
            other => other,
        }
    }

    /// Closes the session.
    pub fn close(self) -> (r: SessionState)
        ensures
            r == self.closed(),
    {
        SessionState::Closed
    }
}

/// A session that fails to connect is left disconnected, a session that
/// connects can be used, closing releases the transport, and closing twice
/// is closing once.
pub proof fn lemma_session_states(state: SessionState, connected: bool)
    ensures
        SessionState::Disconnected.dialing().answered(false) == SessionState::Disconnected,
        SessionState::Disconnected.dialing().answered(true) == SessionState::Connected,
        !state.closed().live(),
        state.closed().closed() == state.closed(),
        state.live() ==> state.dialing() == state,
        !state.dialing().answered(false).live() || state is Connected,
{
}

/// The address of the remote shell on `host`: the host, then the port that
/// the protocol uses.
pub open spec fn address_of(host: Seq<char>) -> Seq<char> {
    host + ":22"@
}

/// The address to connect to for `host`.
pub fn address(host: &str) -> (r: String)
    ensures
        r@ == address_of(host@),
{
    chain(host, ":22")
}

/// The request that opens a session to `space`: its address, its user and
/// the password that its stored token seals under `key`; or the reason why
/// the token could not be opened.
pub open spec fn connection_of(key: Result<Seq<u8>, VaultError>, space: SpaceRecord) -> Result<
    ActionView,
    VaultError,
> {
    match opened_under(key, space.pass) {
        Ok(password) => Ok(
            ActionView::Connect { address: address_of(space.host), user: space.user, password },
        ),
        Err(e) => Err(e),
    }
}

/// Opens the stored password of `server_space` under `key` and makes the
/// request for a session to it. The password leaves the vault only inside
/// that request.
pub fn get_ssh_session(key: &Result<[u8; 32], VaultError>, server_space: &ServerSpace) -> (r: Result<
    Action,
    VaultError,
>)
    ensures
        match r {
            Ok(action) => connection_of(key_view(*key), server_space@) == Ok::<
                ActionView,
                VaultError,
            >(action@),
            Err(e) => connection_of(key_view(*key), server_space@) == Err::<ActionView, VaultError>(
                e,
            ),
        },
{
    match decrypt_under(key, server_space.pass.as_str()) {
        Ok(password) => Ok(
            Action::Connect {
                address: address(server_space.host.as_str()),
                user: server_space.user.clone(),
                password,
            },
        ),
        Err(e) => Err(e),
    }
}

/// The path of the archive that is made of the directory `source`: it
/// stands beside the directory and bears its name.
pub open spec fn artifact_of(source: Seq<char>) -> Seq<char> {
    source + ".tar.gz"@
}

/// The path of the archive for the directory `source`.
pub fn artifact(source: &str) -> (r: String)
    ensures
        r@ == artifact_of(source@),
{
    chain(source, ".tar.gz")
}

/// The command line that unpacks the uploaded archive `archive` in the
/// remote directory `path` and then deletes it there, whether or not it
/// could be unpacked.
pub open spec fn extract_command_of(path: Seq<char>, archive: Seq<char>) -> Seq<char> {
    "cd "@ + path + ";tar zxf "@ + archive + ";rm -rf "@ + archive
}

/// The command line that unpacks `archive` in `path` and deletes it.
pub fn extract_command(path: &str, archive: &str) -> (r: String)
    ensures
        r@ == extract_command_of(path@, archive@),
{
    let r = chain("cd ", path).concat(";tar zxf ").concat(archive).concat(";rm -rf ").concat(
        archive,
    );
    assert(r@ =~= extract_command_of(path@, archive@));
    r
}

/// The command line that deletes every entry under the remote directory
/// `path` and keeps the directory itself.
pub open spec fn wipe_command_of(path: Seq<char>) -> Seq<char> {
    "rm -rf "@ + path + "/*"@
}

/// The command line that clears the remote directory `path`.
pub fn wipe_command(path: &str) -> (r: String)
    ensures
        r@ == wipe_command_of(path@),
{
    chain("rm -rf ", path).concat("/*")
}

/// `text` in lower case, as `str::to_lowercase` gives it.
pub uninterp spec fn lowercased(text: Seq<char>) -> Seq<char>;

/// Calls `str::to_lowercase`. The contract only ties the result to the name
/// `lowercased`; the mapping of characters is left to the standard library.
#[verifier::external_body]
fn to_lowercase(text: &str) -> (r: String)
    ensures
        r@ == lowercased(text@),
{
    text.to_lowercase()
}

/// A line in lower case confirms the wipe: without the white space around
/// it, it is the word `yes`.
pub open spec fn confirms(lowered: Seq<char>) -> bool {
    trimmed(lowered) == "yes"@
}

/// Whether the line `lowered`, already in lower case, confirms the wipe.
pub fn is_confirmation(lowered: &str) -> (r: bool)
    ensures
        r == confirms(lowered@),
{
    same_text(trim(lowered), "yes")
}

/// Whether the line `input` confirms the wipe, in whatever case it was
/// typed.
pub fn confirmed(input: &str) -> (r: bool)
    ensures
        r == confirms(lowercased(input@)),
{
    let lowered = to_lowercase(input);
    is_confirmation(lowered.as_str())
}

} // verus!
