//! Lifecycle state of an action and the guard that decides whether executing or
//! reverting it does anything.

use vstd::prelude::*;

use crate::action::base::{BaseAction, IntoBaseAction};
use crate::action::Action;
use crate::host::{IoFailure, IoFailureView, ProcessOutput, ProcessOutputView};

verus! {

/// Lifecycle state of one planned action.
#[derive(Clone, Copy, Debug, PartialEq, Eq, Structural)]
pub enum ActionState {
    /// The effect holds on the host.
    Completed,
    /// An execute attempt is in flight.
    Progress,
    /// The effect is wanted but absent or unconfirmed.
    Uncompleted,
    /// The action is excluded from both executing and reverting.
    Skipped,
}

impl ActionState {
    /// An execute attempt leaves a completed or skipped action alone.
    pub open spec fn skips_execute(self) -> bool {
        self == ActionState::Completed || self == ActionState::Skipped
    }

    /// A revert attempt leaves an uncompleted or skipped action alone.
    pub open spec fn skips_revert(self) -> bool {
        self == ActionState::Uncompleted || self == ActionState::Skipped
    }

    /// State of an action whose effect was just attempted: completed on
    /// success, back to uncompleted on failure, so that a later attempt runs
    /// again and a rollback has nothing to undo.
    pub open spec fn settled(succeeded: bool) -> ActionState {
        if succeeded {
            ActionState::Completed
        } else {
            ActionState::Uncompleted
        }
    }

    /// State after an execute attempt that began in `self` and, where the
    /// effect ran, ended with `succeeded`.
    pub open spec fn after_execute(self, succeeded: bool) -> ActionState {
        if self.skips_execute() {
            self
        } else {
            ActionState::settled(succeeded)
        }
    }

    /// State after a revert attempt that began in `self`: whatever the
    /// compensation reported, an action that was reverted counts as
    /// uncompleted.
    pub open spec fn after_revert(self) -> ActionState {
        if self.skips_revert() {
            self
        } else {
            ActionState::Uncompleted
        }
    }

    /// Whether an execute attempt from this state runs the action's effect.
    pub fn needs_execute(self) -> (r: bool)
        ensures
            r == !self.skips_execute(),
    {
        match self {
            ActionState::Completed => false,
            ActionState::Skipped => false,
            ActionState::Progress => true,
            ActionState::Uncompleted => true,
        }
    }

    /// Whether a revert attempt from this state runs the action's compensation.
    pub fn needs_revert(self) -> (r: bool)
        ensures
            r == !self.skips_revert(),
    {
        match self {
            ActionState::Uncompleted => false,
            ActionState::Skipped => false,
            ActionState::Progress => true,
            ActionState::Completed => true,
        }
    }

    /// The state an action is left in once its effect has been attempted.
    pub fn settle(succeeded: bool) -> (r: ActionState)
        ensures
            r == ActionState::settled(succeeded),
    {
        if succeeded {
            ActionState::Completed
        } else {
            ActionState::Uncompleted
        }
    }
}

/// The result of planning, executing or reverting.
pub type ActionResult<T> = Result<T, ActionErrorKind>;

/// Everything that can go wrong while planning, executing or reverting an
/// action.
#[non_exhaustive]
#[derive(Clone, Debug, PartialEq, Eq)]
pub enum ActionErrorKind {
    /// A failure described only by its message.
    Other(String),
    /// An input/output failure without further context.
    Io(IoFailure),
    MissingGroupCreationCommand,
    MissingAddUserToGroupCommand,
    MissingGroupDeletionCommand,
    MissingUserCreationCommand,
    MissingUserDeletionCommand,
    /// Group name, the gid found on the host, the gid planned.
    GroupGidMismatch(String, u32, u32),
    /// Group name and the error number of the failed database query.
    GettingGroupId(String, i32),
    /// User name and the error number of the failed database query.
    GettingUserId(String, i32),
    GroupNotFound(String),
    UserNotFound(String),
    /// User name, the uid found on the host, the uid planned.
    UserUidMismatch(String, u32, u32),
    /// User name, the gid found on the host, the gid planned.
    UserGidMismatch(String, u32, u32),
    SystemdMissing,
    /// Path and the failure of reading it.
    Read(String, IoFailure),
    /// Path and the failure of writing it.
    Write(String, IoFailure),
    /// Path and the failure of removing it.
    Remove(String, IoFailure),
    /// The path exists with content other than the planned one.
    DifferentContent(String),
    JavaInstall(String),
    /// The command could not be started.
    Command { command: String, error: IoFailure },
    /// The command ran and did not succeed.
    CommandOutput { command: String, output: ProcessOutput },
    /// The path exists and is not a directory.
    NotADirectory(String),
    /// The path exists and belongs to another user than the planned one.
    OwnerMismatch { path: String, user: String },
    /// The path exists and belongs to another group than the planned one.
    GroupMismatch { path: String, group: String },
    /// A file was planned where a directory exists.
    IsADirectory(String),
    /// A download failed; `message` is the full description.
    Transport { url: String, message: String },
}

/// An error with every text taken as a sequence of characters.
pub enum ActionErrorView {
    Other(Seq<char>),
    Io(IoFailureView),
    MissingGroupCreationCommand,
    MissingAddUserToGroupCommand,
    MissingGroupDeletionCommand,
    MissingUserCreationCommand,
    MissingUserDeletionCommand,
    GroupGidMismatch(Seq<char>, u32, u32),
    GettingGroupId(Seq<char>, i32),
    GettingUserId(Seq<char>, i32),
    GroupNotFound(Seq<char>),
    UserNotFound(Seq<char>),
    UserUidMismatch(Seq<char>, u32, u32),
    UserGidMismatch(Seq<char>, u32, u32),
    SystemdMissing,
    Read(Seq<char>, IoFailureView),
    Write(Seq<char>, IoFailureView),
    Remove(Seq<char>, IoFailureView),
    DifferentContent(Seq<char>),
    JavaInstall(Seq<char>),
    Command { command: Seq<char>, error: IoFailureView },
    CommandOutput { command: Seq<char>, output: ProcessOutputView },
    NotADirectory(Seq<char>),
    OwnerMismatch { path: Seq<char>, user: Seq<char> },
    GroupMismatch { path: Seq<char>, group: Seq<char> },
    IsADirectory(Seq<char>),
    Transport { url: Seq<char>, message: Seq<char> },
}

impl View for ActionErrorKind {
    type V = ActionErrorView;

    open spec fn view(&self) -> ActionErrorView {
        match self {
            ActionErrorKind::Other(message) => ActionErrorView::Other(message@),
            ActionErrorKind::Io(error) => ActionErrorView::Io(error@),
            ActionErrorKind::MissingGroupCreationCommand => {
                ActionErrorView::MissingGroupCreationCommand
            },
            ActionErrorKind::MissingAddUserToGroupCommand => {
                ActionErrorView::MissingAddUserToGroupCommand
            },
            ActionErrorKind::MissingGroupDeletionCommand => {
                ActionErrorView::MissingGroupDeletionCommand
            },
            ActionErrorKind::MissingUserCreationCommand => {
                ActionErrorView::MissingUserCreationCommand
            },
            ActionErrorKind::MissingUserDeletionCommand => {
                ActionErrorView::MissingUserDeletionCommand
            },
            ActionErrorKind::GroupGidMismatch(name, found, planned) => {
                ActionErrorView::GroupGidMismatch(name@, *found, *planned)
            },
            ActionErrorKind::GettingGroupId(name, errno) => {
                ActionErrorView::GettingGroupId(name@, *errno)
            },
            ActionErrorKind::GettingUserId(name, errno) => {
                ActionErrorView::GettingUserId(name@, *errno)
            },
            ActionErrorKind::GroupNotFound(name) => ActionErrorView::GroupNotFound(name@),
            ActionErrorKind::UserNotFound(name) => ActionErrorView::UserNotFound(name@),
            ActionErrorKind::UserUidMismatch(name, found, planned) => {
                ActionErrorView::UserUidMismatch(name@, *found, *planned)
            },
            ActionErrorKind::UserGidMismatch(name, found, planned) => {
                ActionErrorView::UserGidMismatch(name@, *found, *planned)
            },
            ActionErrorKind::SystemdMissing => ActionErrorView::SystemdMissing,
            ActionErrorKind::Read(path, error) => ActionErrorView::Read(path@, error@),
            ActionErrorKind::Write(path, error) => ActionErrorView::Write(path@, error@),
            ActionErrorKind::Remove(path, error) => ActionErrorView::Remove(path@, error@),
            ActionErrorKind::DifferentContent(path) => ActionErrorView::DifferentContent(path@),
            ActionErrorKind::JavaInstall(message) => ActionErrorView::JavaInstall(message@),
            ActionErrorKind::Command { command, error } => ActionErrorView::Command {
                command: command@,
                error: error@,
            },
            ActionErrorKind::CommandOutput { command, output } => ActionErrorView::CommandOutput {
                command: command@,
                output: output@,
            },
            ActionErrorKind::NotADirectory(path) => ActionErrorView::NotADirectory(path@),
            ActionErrorKind::OwnerMismatch { path, user } => ActionErrorView::OwnerMismatch {
                path: path@,
                user: user@,
            },
            ActionErrorKind::GroupMismatch { path, group } => ActionErrorView::GroupMismatch {
                path: path@,
                group: group@,
            },
            ActionErrorKind::IsADirectory(path) => ActionErrorView::IsADirectory(path@),
            ActionErrorKind::Transport { url, message } => ActionErrorView::Transport {
                url: url@,
                message: message@,
            },
        }
    }
}

/// An action together with its lifecycle state.
///
/// Planning creates the pair; afterwards only [`StatefulAction::try_execute`]
/// and [`StatefulAction::try_revert`] move the state, and nothing changes the
/// action.
#[derive(Clone, Debug)]
pub struct StatefulAction<A> {
    action: A,
    state: ActionState,
}

/// An action that is taken over as it is counts as in progress: whoever hands
/// it over has begun its effect and neither confirmed nor given it up.
impl<A> From<A> for StatefulAction<A> {
    fn from(action: A) -> (r: Self)
        ensures
            r.action() == action,
            r.state() == ActionState::Progress,
    {
        Self { action, state: ActionState::Progress }
    }
}

impl<A> vstd::std_specs::convert::FromSpecImpl<A> for StatefulAction<A> {
    open spec fn obeys_from_spec() -> bool {
        true
    }

    closed spec fn from_spec(action: A) -> Self {
        StatefulAction { action, state: ActionState::Progress }
    }
}

impl<A> StatefulAction<A> {
    /// The wrapped action.
    pub closed spec fn action(&self) -> A {
        self.action
    }

    /// The current lifecycle state.
    pub closed spec fn state(&self) -> ActionState {
        self.state
    }

    /// The wrapped action.
    pub fn inner_ref(&self) -> (a: &A)
        ensures
            *a == self.action(),
    {
        &self.action
    }

    /// The current lifecycle state.
    pub fn current_state(&self) -> (s: ActionState)
        ensures
            s == self.state(),
    {
        self.state
    }

    /// Whether the action's effect holds on the host.
    pub fn is_completed(&self) -> (r: bool)
        ensures
            r == (self.state() == ActionState::Completed),
    {
        self.state == ActionState::Completed
    }

    /// Pairs `action` with the state of an effect that already holds.
    pub fn completed(action: A) -> (r: Self)
        ensures
            r.action() == action,
            r.state() == ActionState::Completed,
    {
        Self { action, state: ActionState::Completed }
    }

    /// Pairs `action` with the state of an effect that is still to be brought
    /// about.
    pub fn uncompleted(action: A) -> (r: Self)
        ensures
            r.action() == action,
            r.state() == ActionState::Uncompleted,
    {
        Self { action, state: ActionState::Uncompleted }
    }

    /// Pairs `action` with the state that excludes it from executing and
    /// reverting.
    pub fn skipped(action: A) -> (r: Self)
        ensures
            r.action() == action,
            r.state() == ActionState::Skipped,
    {
        Self { action, state: ActionState::Skipped }
    }

    /// The same pair with its action wrapped for a plan that mixes the
    /// concrete actions.
    pub fn boxed(self) -> (r: StatefulAction<BaseAction>) where A: IntoBaseAction
        ensures
            r.action() == self.action().base(),
            r.state() == self.state(),
    {
        StatefulAction { action: self.action.into_base(), state: self.state }
    }

    /// Executes the action unless it is completed or skipped.
    ///
    /// On a completed or skipped action this does nothing: the host is not
    /// handed to the action, the state stays, and the call succeeds. Otherwise
    /// the action's effect runs once, and the state settles on completed if it
    /// succeeded and on uncompleted if it failed; what the effect did to the
    /// host is what is done to it, and the effect's own result is returned.
    pub fn try_execute<H>(&mut self, host: &mut H) -> (r: Result<(), ActionErrorKind>) where
        A: Action<H>,

        ensures
            final(self).action() == old(self).action(),
            final(self).state() == old(self).state().after_execute(r is Ok),
            old(self).state().skips_execute() ==> r is Ok && *final(host) == *old(host),
            !old(self).state().skips_execute() ==> old(self).action().executed(
                *old(host),
                *final(host),
                r,
            ),
    {
        if self.state.needs_execute() {
            self.state = ActionState::Progress;
            let outcome = self.action.execute(host);
            self.state = ActionState::settle(outcome.is_ok());
            outcome
        } else {
            Ok(())
        }
    }

    /// Reverts the action unless it is uncompleted or skipped.
    ///
    /// On an uncompleted or skipped action this does nothing: the host is not
    /// handed to the action, the state stays, and the call succeeds. Otherwise
    /// the state becomes uncompleted, the action's compensation runs once,
    /// what it did to the host is what is done to it, and its own result is
    /// returned.
    pub fn try_revert<H>(&mut self, host: &mut H) -> (r: Result<(), ActionErrorKind>) where
        A: Action<H>,

        ensures
            final(self).action() == old(self).action(),
            final(self).state() == old(self).state().after_revert(),
            old(self).state().skips_revert() ==> r is Ok && *final(host) == *old(host),
            !old(self).state().skips_revert() ==> old(self).action().reverted(
                *old(host),
                *final(host),
                r,
            ),
    {
        if self.state.needs_revert() {
            self.state = ActionState::Uncompleted;
            self.action.revert(host)
        } else {
            Ok(())
        }
    }
}

} // verus!
