//! Registers named server spaces and pushes a local directory to one of
//! them: the directory is archived, uploaded over a remote shell, unpacked
//! there, and the archive is deleted on both sides.
//!
//! The library decides and its caller acts. `run` begins the operation that
//! a command asks for and names the first action; the caller carries the
//! action out and hands what came of it to `Task::step`, which names the
//! next, until an action reports the outcome.

use crate::add::handle_command_add;
use crate::add::AddDialog;
use crate::add::AddStage;
use crate::add::AddView;
use crate::aes::gen_key;
use crate::aes::key_view;
use crate::aes::VaultError;
use crate::config::mapping_of;
use crate::config::Config;
use crate::config::Registry;
use crate::config::SpaceRecord;
use crate::context::resolved;
use crate::context::WorkingContext;
use crate::manage::detailed;
use crate::manage::handle_command_detail;
use crate::manage::handle_command_list;
use crate::manage::handle_command_remove;
use crate::manage::listed;
use crate::manage::lookup;
use crate::manage::Removal;
use crate::manage::RemovalView;
use crate::push::handle_command_push;
use crate::push::Push;
use crate::push::PushView;
use crate::push::Stage;
use crate::session::Action;
use crate::session::ActionView;
use crate::session::Event;
use crate::session::Field;
use crate::wipe::handle_command_rmrf;
use crate::wipe::Wipe;
use crate::wipe::WipeStage;
use crate::wipe::WipeView;
use vstd::prelude::*;

pub mod add;
pub mod aes;
pub mod config;
pub mod context;
pub mod manage;
pub mod push;
pub mod session;
pub mod utils;
pub mod wipe;

verus! {

/// What the operator asks for.
#[derive(Debug, PartialEq, Eq)]
pub enum Command {
    /// Register a space.
    Add,
    /// List the registered names.
    List,
    /// Show the record of a space.
    Detail { space_name: String },
    /// Drop a space from the registry.
    Remove { space_name: String },
    /// Push a directory to a space.
    Push { pushed_dir: String, space_name: String },
    /// Delete everything under the remote path of a space.
    Rmrf { space_name: String },
}

/// An operation that waits for what came of its last action.
#[derive(Debug)]
pub enum Task {
    /// A space is being registered.
    Add(AddDialog),
    /// A space is being dropped.
    Remove(Removal),
    /// A directory is being pushed.
    Push(Push),
    /// A space is being cleared.
    Wipe(Wipe),
}

/// An operation under way, as plain values.
pub enum TaskView {
    Add(AddView),
    Remove(RemovalView),
    Push(PushView),
    Wipe(WipeView),
}

impl View for Task {
    type V = TaskView;

    open spec fn view(&self) -> TaskView {
        match self {
            Task::Add(dialog) => TaskView::Add(dialog@),
            Task::Remove(removal) => TaskView::Remove(removal@),
            Task::Push(push) => TaskView::Push(push@),
            Task::Wipe(wipe) => TaskView::Wipe(wipe@),
        }
    }
}

impl TaskView {
    /// The state is one that the operation can be in.
    pub open spec fn wf(self) -> bool {
        match self {
            TaskView::Add(dialog) => dialog.wf(),
            TaskView::Remove(_) => true,
            TaskView::Push(push) => push.wf(),
            TaskView::Wipe(wipe) => wipe.wf(),
        }
    }

    /// Whether the next step seals or opens a password.
    pub open spec fn needs_key(self) -> bool {
        match self {
            TaskView::Add(dialog) => dialog.stage == AddStage::Asking(Field::Password),
            TaskView::Remove(_) => false,
            TaskView::Push(push) => push.stage is Archiving,
            TaskView::Wipe(wipe) => wipe.stage is Confirming,
        }
    }

    /// The state and the registry after `event`, and the action to take
    /// next. Only a push and a wipe reach out to a server, and only a
    /// registration and a removal change the registry.
    pub open spec fn next(self, registry: Registry, event: Event, key: Result<Seq<u8>, VaultError>) -> (
        TaskView,
        Registry,
        ActionView,
    ) {
        match self {
            TaskView::Add(dialog) => (
                TaskView::Add(dialog.next(registry, event, key).0),
                dialog.next(registry, event, key).1,
                dialog.next(registry, event, key).2,
            ),
            TaskView::Remove(removal) => (
                TaskView::Remove(removal.next(registry, event).0),
                removal.next(registry, event).1,
                removal.next(registry, event).2,
            ),
            TaskView::Push(push) => (
                TaskView::Push(push.next(event, key).0),
                registry,
                push.next(event, key).1,
            ),
            TaskView::Wipe(wipe) => (
                TaskView::Wipe(wipe.next(event, key).0),
                registry,
                wipe.next(event, key).1,
            ),
        }
    }
}

/// What `run` makes of `command` where the working directory is `cwd` and
/// the registry holds `spaces`: the operation that waits for an answer, if
/// the command is not done at once, the registry afterwards, and the first
/// action.
pub open spec fn started(command: Command, cwd: Seq<char>, spaces: Seq<SpaceRecord>) -> (
    Option<TaskView>,
    Registry,
    ActionView,
) {
    let registry = mapping_of(spaces);
    match command {
        Command::Add => (
            Some(TaskView::Add(AddView::begun())),
            registry,
            ActionView::Prompt(Field::Name),
        ),
        Command::List => (None, registry, listed(spaces)),
        Command::Detail { space_name } => (None, registry, detailed(registry, space_name@)),
        Command::Remove { space_name } => (
            Some(TaskView::Remove(RemovalView::begun(registry, space_name@).0)),
            RemovalView::begun(registry, space_name@).1,
            RemovalView::begun(registry, space_name@).2,
        ),
        Command::Push { pushed_dir, space_name } => (
            Some(
                TaskView::Push(
                    PushView::begun(
                        lookup(registry, space_name@),
                        resolved(cwd, pushed_dir@),
                    ),
                ),
            ),
            registry,
            ActionView::CheckDirectory { path: resolved(cwd, pushed_dir@) },
        ),
        Command::Rmrf { space_name } => (
            Some(TaskView::Wipe(WipeView::begun(lookup(registry, space_name@)).0)),
            registry,
            WipeView::begun(lookup(registry, space_name@)).1,
        ),
    }
}

/// Begins the operation that `command` asks for and names the first action
/// to take. A listing and a detail are done at once: they leave no
/// operation behind, and their action reports the outcome.
pub fn run(command: &Command, context: &WorkingContext, registry: &mut Config) -> (r: (
    Option<Task>,
    Action,
))
    requires
        old(registry).wf(),
    ensures
        final(registry).wf(),
        r.0 matches Some(task) ==> task@.wf(),
        (
            match r.0 {
                Some(task) => Some(task@),
                None => None,
            },
            final(registry)@,
            r.1@,
        ) == started(*command, context.cwd@, old(registry).spaces()),
{
    match command {
        Command::Add => {
            let (dialog, action) = handle_command_add();
            (Some(Task::Add(dialog)), action)
        },
        Command::List => (None, handle_command_list(registry)),
        Command::Detail { space_name } => (
            None,
            handle_command_detail(registry, space_name.as_str()),
        ),
        Command::Remove { space_name } => {
            let (removal, action) = handle_command_remove(registry, space_name.as_str());
            (Some(Task::Remove(removal)), action)
        },
        Command::Push { pushed_dir, space_name } => {
            let (push, action) = handle_command_push(
                context,
                registry,
                pushed_dir.as_str(),
                space_name.as_str(),
            );
            (Some(Task::Push(push)), action)
        },
        Command::Rmrf { space_name } => {
            let (wipe, action) = handle_command_rmrf(registry, space_name.as_str());
            (Some(Task::Wipe(wipe)), action)
        },
    }
}

impl Task {
    /// Whether the next step seals or opens a password, and so needs the
    /// key of the machine.
    pub fn needs_key(&self) -> (r: bool)
        ensures
            r == self@.needs_key(),
    {
        match self {
            Task::Add(dialog) => match dialog.stage() {
                AddStage::Asking(Field::Password) => true,
                _ => false,
            },
            Task::Remove(_) => false,
            Task::Push(push) => match push.stage() {
                Stage::Archiving => true,
                _ => false,
            },
            Task::Wipe(wipe) => match wipe.stage() {
                WipeStage::Confirming => true,
                _ => false,
            },
        }
    }

    /// Takes what came of the last action and says what to do next, with
    /// the key of the machine handed in.
    pub fn step_with_key(
        &mut self,
        registry: &mut Config,
        event: &Event,
        key: &Result<[u8; 32], VaultError>,
    ) -> (action: Action)
        requires
            old(self)@.wf(),
            old(registry).wf(),
        ensures
            final(self)@.wf(),
            final(registry).wf(),
            (final(self)@, final(registry)@, action@) == old(self)@.next(
                old(registry)@,
                *event,
                key_view(*key),
            ),
    {
        match self {
            Task::Add(dialog) => dialog.step_with_key(registry, event, key),
            Task::Remove(removal) => removal.step(registry, event),
            Task::Push(push) => push.step_with_key(event, key),
            Task::Wipe(wipe) => wipe.step_with_key(event, key),
        }
    }

    /// Takes what came of the last action and says what to do next. A
    /// password is sealed or opened under the key of this machine: the step
    /// is the one that `next` gives for some key, or for the lack of one.
    pub fn step(&mut self, registry: &mut Config, event: &Event) -> (action: Action)
        requires
            old(self)@.wf(),
            old(registry).wf(),
        ensures
            final(self)@.wf(),
            final(registry).wf(),
            exists|key: Result<Seq<u8>, VaultError>|
                (final(self)@, final(registry)@, action@) == #[trigger] old(self)@.next(
                    old(registry)@,
                    *event,
                    key,
                ),
    {
        let key = if self.needs_key() {
            gen_key()
        } else {
            Err(VaultError::KeyUnavailable)
        };
        self.step_with_key(registry, event, &key)
    }
}

} // verus!
