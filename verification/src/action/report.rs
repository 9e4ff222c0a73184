//! How an error presents itself: the class it belongs to and the message it
//! shows.

use vstd::prelude::*;
use vstd::string::*;

use crate::action::stateful::{ActionErrorKind, ActionErrorView};
use crate::host::{IoFailure, IoFailureView, ProcessOutputView};
use crate::text::{concat2, decimal_string, decimal_text, signed_decimal_string, signed_decimal_text};

verus! {

/// The classes of failure that the orchestrator's callers tell apart.
#[derive(Clone, Copy, Debug, PartialEq, Eq, Structural)]
pub enum ErrorCategory {
    /// A required command or service manager is absent from the host.
    ToolMissing,
    /// A resource exists on the host but diverges from what was planned.
    StateConflict,
    /// Reading, writing, removing or querying failed.
    IoFailure,
    /// A subprocess could not be started, exited with a failure or was killed.
    CommandFailure,
    /// A download failed.
    TransportFailure,
    /// None of the above.
    Other,
}

/// The optional line of a command failure that names the exit code.
pub open spec fn status_line(code: Option<i32>) -> Seq<char> {
    match code {
        Some(c) => "exited with status code: "@ + signed_decimal_text(c as int) + "\n"@,
        None => Seq::empty(),
    }
}

/// The optional line of a command failure that names the terminating signal.
pub open spec fn signal_line(signal: Option<i32>) -> Seq<char> {
    match signal {
        Some(s) => "terminated by signal: "@ + signed_decimal_text(s as int) + "\n"@,
        None => Seq::empty(),
    }
}

/// The message of a command that ran and did not succeed.
pub open spec fn command_output_message(command: Seq<char>, output: ProcessOutputView) -> Seq<char> {
    "Failed to execute command: `"@ + command + "`\nstdout: "@ + output.stdout + "\nstderr: "@
        + output.stderr + "\n"@ + status_line(output.code) + "\n"@ + signal_line(output.signal)
}

/// The message of a mismatch between an identifier found and the one planned.
pub open spec fn mismatch_message(
    subject: Seq<char>,
    name: Seq<char>,
    what: Seq<char>,
    found: u32,
    planned: u32,
) -> Seq<char> {
    subject + " `"@ + name + "` existed but had a different "@ + what + " ("@ + decimal_text(
        found as nat,
    ) + ") than planned ("@ + decimal_text(planned as nat) + ")"@
}

impl ActionErrorView {
    /// The name of the error's kind: the name of its variant.
    pub open spec fn name(self) -> Seq<char> {
        match self {
            ActionErrorView::Other(_) => "Other"@,
            ActionErrorView::Io(_) => "Io"@,
            ActionErrorView::MissingGroupCreationCommand => "MissingGroupCreationCommand"@,
            ActionErrorView::MissingAddUserToGroupCommand => "MissingAddUserToGroupCommand"@,
            ActionErrorView::MissingGroupDeletionCommand => "MissingGroupDeletionCommand"@,
            ActionErrorView::MissingUserCreationCommand => "MissingUserCreationCommand"@,
            ActionErrorView::MissingUserDeletionCommand => "MissingUserDeletionCommand"@,
            ActionErrorView::GroupGidMismatch(_, _, _) => "GroupGidMismatch"@,
            ActionErrorView::GettingGroupId(_, _) => "GettingGroupId"@,
            ActionErrorView::GettingUserId(_, _) => "GettingUserId"@,
            ActionErrorView::GroupNotFound(_) => "GroupNotFound"@,
            ActionErrorView::UserNotFound(_) => "UserNotFound"@,
            ActionErrorView::UserUidMismatch(_, _, _) => "UserUidMismatch"@,
            ActionErrorView::UserGidMismatch(_, _, _) => "UserGidMismatch"@,
            ActionErrorView::SystemdMissing => "SystemdMissing"@,
            ActionErrorView::Read(_, _) => "Read"@,
            ActionErrorView::Write(_, _) => "Write"@,
            ActionErrorView::Remove(_, _) => "Remove"@,
            ActionErrorView::DifferentContent(_) => "DifferentContent"@,
            ActionErrorView::JavaInstall(_) => "JavaInstall"@,
            ActionErrorView::Command { .. } => "Command"@,
            ActionErrorView::CommandOutput { .. } => "CommandOutput"@,
            ActionErrorView::NotADirectory(_) => "NotADirectory"@,
            ActionErrorView::OwnerMismatch { .. } => "OwnerMismatch"@,
            ActionErrorView::GroupMismatch { .. } => "GroupMismatch"@,
            ActionErrorView::IsADirectory(_) => "IsADirectory"@,
            ActionErrorView::Transport { .. } => "Transport"@,
        }
    }

    /// The class of the error.
    pub open spec fn category(self) -> ErrorCategory {
        match self {
            ActionErrorView::MissingGroupCreationCommand => ErrorCategory::ToolMissing,
            ActionErrorView::MissingAddUserToGroupCommand => ErrorCategory::ToolMissing,
            ActionErrorView::MissingGroupDeletionCommand => ErrorCategory::ToolMissing,
            ActionErrorView::MissingUserCreationCommand => ErrorCategory::ToolMissing,
            ActionErrorView::MissingUserDeletionCommand => ErrorCategory::ToolMissing,
            ActionErrorView::SystemdMissing => ErrorCategory::ToolMissing,
            ActionErrorView::GroupGidMismatch(_, _, _) => ErrorCategory::StateConflict,
            ActionErrorView::UserUidMismatch(_, _, _) => ErrorCategory::StateConflict,
            ActionErrorView::UserGidMismatch(_, _, _) => ErrorCategory::StateConflict,
            ActionErrorView::DifferentContent(_) => ErrorCategory::StateConflict,
            ActionErrorView::NotADirectory(_) => ErrorCategory::StateConflict,
            ActionErrorView::OwnerMismatch { .. } => ErrorCategory::StateConflict,
            ActionErrorView::GroupMismatch { .. } => ErrorCategory::StateConflict,
            ActionErrorView::IsADirectory(_) => ErrorCategory::StateConflict,
            ActionErrorView::Io(_) => ErrorCategory::IoFailure,
            ActionErrorView::Read(_, _) => ErrorCategory::IoFailure,
            ActionErrorView::Write(_, _) => ErrorCategory::IoFailure,
            ActionErrorView::Remove(_, _) => ErrorCategory::IoFailure,
            ActionErrorView::GettingGroupId(_, _) => ErrorCategory::IoFailure,
            ActionErrorView::GettingUserId(_, _) => ErrorCategory::IoFailure,
            ActionErrorView::Command { .. } => ErrorCategory::CommandFailure,
            ActionErrorView::CommandOutput { .. } => ErrorCategory::CommandFailure,
            ActionErrorView::Transport { .. } => ErrorCategory::TransportFailure,
            ActionErrorView::Other(_) => ErrorCategory::Other,
            ActionErrorView::GroupNotFound(_) => ErrorCategory::Other,
            ActionErrorView::UserNotFound(_) => ErrorCategory::Other,
            ActionErrorView::JavaInstall(_) => ErrorCategory::Other,
        }
    }

    /// The failure underneath the error, where an input/output failure lies
    /// underneath it and is not the error itself.
    pub open spec fn source(self) -> Option<IoFailureView> {
        match self {
            ActionErrorView::Read(_, e) => Some(e),
            ActionErrorView::Write(_, e) => Some(e),
            ActionErrorView::Remove(_, e) => Some(e),
            ActionErrorView::Command { command, error } => Some(error),
            _ => None,
        }
    }

    /// The error number underneath the error, where a failed query of the
    /// user or group database lies underneath it.
    pub open spec fn errno(self) -> Option<i32> {
        match self {
            ActionErrorView::GettingGroupId(_, errno) => Some(errno),
            ActionErrorView::GettingUserId(_, errno) => Some(errno),
            _ => None,
        }
    }

    /// The message that the error shows.
    pub open spec fn message(self) -> Seq<char> {
        match self {
            ActionErrorView::Other(m) => m,
            ActionErrorView::Io(e) => e.detail,
            ActionErrorView::MissingGroupCreationCommand => "Could not find a supported command to create groups in PATH; please install `groupadd` or `addgroup`"@,
            ActionErrorView::MissingAddUserToGroupCommand => "Could not find a supported command to add users to groups in PATH; please install `gpasswd` or `addgroup`"@,
            ActionErrorView::MissingGroupDeletionCommand => "Could not find a supported command to delete groups in PATH; please install `groupdel` or `delgroup`"@,
            ActionErrorView::MissingUserCreationCommand => "Could not find a supported command to create users in PATH; please install `useradd` or `adduser`"@,
            ActionErrorView::MissingUserDeletionCommand => "Could not find a supported command to delete users in PATH; please install `userdel` or `deluser`"@,
            ActionErrorView::GroupGidMismatch(name, found, planned) => mismatch_message(
                "Group"@,
                name,
                "gid"@,
                found,
                planned,
            ),
            ActionErrorView::GettingGroupId(name, _) => "Getting gid for group `"@ + name + "`"@,
            ActionErrorView::GettingUserId(name, _) => "Getting uid for user `"@ + name + "`"@,
            ActionErrorView::GroupNotFound(name) => "Group `"@ + name + "` not found"@,
            ActionErrorView::UserNotFound(name) => "User `"@ + name + "` not found"@,
            ActionErrorView::UserUidMismatch(name, found, planned) => mismatch_message(
                "User"@,
                name,
                "uid"@,
                found,
                planned,
            ),
            ActionErrorView::UserGidMismatch(name, found, planned) => mismatch_message(
                "User"@,
                name,
                "gid"@,
                found,
                planned,
            ),
            ActionErrorView::SystemdMissing => "Could not detect systemd. We require systemd to be installed to be able to manage services."@,
            ActionErrorView::Read(path, _) => "Read path `"@ + path + "`"@,
            ActionErrorView::Write(path, _) => "Write path `"@ + path + "`"@,
            ActionErrorView::Remove(path, _) => "Remove path `"@ + path + "`"@,
            ActionErrorView::DifferentContent(path) => "`"@ + path
                + "` exists with different content than planned, consider removing it with `rm "@
                + path + "`"@,
            ActionErrorView::JavaInstall(m) => "Java installation failed: "@ + m,
            ActionErrorView::Command { command, error } => "Failed to execute command: "@ + command,
            ActionErrorView::CommandOutput { command, output } => command_output_message(
                command,
                output,
            ),
            ActionErrorView::NotADirectory(path) => "Path "@ + path + " is not a directory"@,
            ActionErrorView::OwnerMismatch { path, user } => "Path "@ + path
                + " is not owned by user "@ + user,
            ActionErrorView::GroupMismatch { path, group } => "Path "@ + path
                + " is not owned by group "@ + group,
            ActionErrorView::IsADirectory(path) => "Cannot create file at "@ + path
                + ": path exists and is a directory."@,
            ActionErrorView::Transport { url, message } => message,
        }
    }
}

fn mismatch_string(subject: &str, name: &str, what: &str, found: u32, planned: u32) -> (r: String)
    ensures
        r@ == mismatch_message(subject@, name@, what@, found, planned),
{
    let mut r = String::from_str(subject);
    r.append(" `");
    r.append(name);
    r.append("` existed but had a different ");
    r.append(what);
    r.append(" (");
    r.append(decimal_string(found as u64).as_str());
    r.append(") than planned (");
    r.append(decimal_string(planned as u64).as_str());
    r.append(")");
    r
}

fn wrapped(before: &str, middle: &str, after: &str) -> (r: String)
    ensures
        r@ == before@ + middle@ + after@,
{
    let mut r = String::from_str(before);
    r.append(middle);
    r.append(after);
    r
}

fn status_line_string(code: Option<i32>) -> (r: String)
    ensures
        r@ == status_line(code),
{
    match code {
        Some(c) => wrapped("exited with status code: ", signed_decimal_string(c).as_str(), "\n"),
        None => String::new(),
    }
}

fn signal_line_string(signal: Option<i32>) -> (r: String)
    ensures
        r@ == signal_line(signal),
{
    match signal {
        Some(s) => wrapped("terminated by signal: ", signed_decimal_string(s).as_str(), "\n"),
        None => String::new(),
    }
}

impl ActionErrorKind {
    /// The name of the error's kind: the name of its variant.
    pub fn name(&self) -> (r: &'static str)
        ensures
            r@ == self@.name(),
    {
        match self {
            ActionErrorKind::Other(_) => "Other",
            ActionErrorKind::Io(_) => "Io",
            ActionErrorKind::MissingGroupCreationCommand => "MissingGroupCreationCommand",
            ActionErrorKind::MissingAddUserToGroupCommand => "MissingAddUserToGroupCommand",
            ActionErrorKind::MissingGroupDeletionCommand => "MissingGroupDeletionCommand",
            ActionErrorKind::MissingUserCreationCommand => "MissingUserCreationCommand",
            ActionErrorKind::MissingUserDeletionCommand => "MissingUserDeletionCommand",
            ActionErrorKind::GroupGidMismatch(_, _, _) => "GroupGidMismatch",
            ActionErrorKind::GettingGroupId(_, _) => "GettingGroupId",
            ActionErrorKind::GettingUserId(_, _) => "GettingUserId",
            ActionErrorKind::GroupNotFound(_) => "GroupNotFound",
            ActionErrorKind::UserNotFound(_) => "UserNotFound",
            ActionErrorKind::UserUidMismatch(_, _, _) => "UserUidMismatch",
            ActionErrorKind::UserGidMismatch(_, _, _) => "UserGidMismatch",
            ActionErrorKind::SystemdMissing => "SystemdMissing",
            ActionErrorKind::Read(_, _) => "Read",
            ActionErrorKind::Write(_, _) => "Write",
            ActionErrorKind::Remove(_, _) => "Remove",
            ActionErrorKind::DifferentContent(_) => "DifferentContent",
            ActionErrorKind::JavaInstall(_) => "JavaInstall",
            ActionErrorKind::Command { .. } => "Command",
            ActionErrorKind::CommandOutput { .. } => "CommandOutput",
            ActionErrorKind::NotADirectory(_) => "NotADirectory",
            ActionErrorKind::OwnerMismatch { .. } => "OwnerMismatch",
            ActionErrorKind::GroupMismatch { .. } => "GroupMismatch",
            ActionErrorKind::IsADirectory(_) => "IsADirectory",
            ActionErrorKind::Transport { .. } => "Transport",
        }
    }

    /// The class of the error.
    pub fn category(&self) -> (r: ErrorCategory)
        ensures
            r == self@.category(),
    {
        match self {
            ActionErrorKind::MissingGroupCreationCommand => ErrorCategory::ToolMissing,
            ActionErrorKind::MissingAddUserToGroupCommand => ErrorCategory::ToolMissing,
            ActionErrorKind::MissingGroupDeletionCommand => ErrorCategory::ToolMissing,
            ActionErrorKind::MissingUserCreationCommand => ErrorCategory::ToolMissing,
            ActionErrorKind::MissingUserDeletionCommand => ErrorCategory::ToolMissing,
            ActionErrorKind::SystemdMissing => ErrorCategory::ToolMissing,
            ActionErrorKind::GroupGidMismatch(_, _, _) => ErrorCategory::StateConflict,
            ActionErrorKind::UserUidMismatch(_, _, _) => ErrorCategory::StateConflict,
            ActionErrorKind::UserGidMismatch(_, _, _) => ErrorCategory::StateConflict,
            ActionErrorKind::DifferentContent(_) => ErrorCategory::StateConflict,
            ActionErrorKind::NotADirectory(_) => ErrorCategory::StateConflict,
            ActionErrorKind::OwnerMismatch { .. } => ErrorCategory::StateConflict,
            ActionErrorKind::GroupMismatch { .. } => ErrorCategory::StateConflict,
            ActionErrorKind::IsADirectory(_) => ErrorCategory::StateConflict,
            ActionErrorKind::Io(_) => ErrorCategory::IoFailure,
            ActionErrorKind::Read(_, _) => ErrorCategory::IoFailure,
            ActionErrorKind::Write(_, _) => ErrorCategory::IoFailure,
            ActionErrorKind::Remove(_, _) => ErrorCategory::IoFailure,
            ActionErrorKind::GettingGroupId(_, _) => ErrorCategory::IoFailure,
            ActionErrorKind::GettingUserId(_, _) => ErrorCategory::IoFailure,
            ActionErrorKind::Command { .. } => ErrorCategory::CommandFailure,
            ActionErrorKind::CommandOutput { .. } => ErrorCategory::CommandFailure,
            ActionErrorKind::Transport { .. } => ErrorCategory::TransportFailure,
            ActionErrorKind::Other(_) => ErrorCategory::Other,
            ActionErrorKind::GroupNotFound(_) => ErrorCategory::Other,
            ActionErrorKind::UserNotFound(_) => ErrorCategory::Other,
            ActionErrorKind::JavaInstall(_) => ErrorCategory::Other,
        }
    }

    /// The failure underneath the error, where an input/output failure lies
    /// underneath it and is not the error itself.
    pub fn source(&self) -> (r: Option<&IoFailure>)
        ensures
            match self@.source() {
                Some(e) => r is Some && r->Some_0@ == e,
                None => r is None,
            },
    {
        match self {
            ActionErrorKind::Read(_, e) => Some(e),
            ActionErrorKind::Write(_, e) => Some(e),
            ActionErrorKind::Remove(_, e) => Some(e),
            ActionErrorKind::Command { command, error } => Some(error),
            _ => None,
        }
    }

    /// The error number underneath the error, where a failed query of the
    /// user or group database lies underneath it.
    pub fn errno(&self) -> (r: Option<i32>)
        ensures
            r == self@.errno(),
    {
        match self {
            ActionErrorKind::GettingGroupId(_, errno) => Some(*errno),
            ActionErrorKind::GettingUserId(_, errno) => Some(*errno),
            _ => None,
        }
    }

    /// The message that the error shows.
    pub fn message(&self) -> (r: String)
        ensures
            r@ == self@.message(),
    {
        match self {
            ActionErrorKind::Other(m) => m.clone(),
            ActionErrorKind::Io(e) => e.detail.clone(),
            ActionErrorKind::MissingGroupCreationCommand => String::from_str(
                "Could not find a supported command to create groups in PATH; please install `groupadd` or `addgroup`",
            ),
            ActionErrorKind::MissingAddUserToGroupCommand => String::from_str(
                "Could not find a supported command to add users to groups in PATH; please install `gpasswd` or `addgroup`",
            ),
            ActionErrorKind::MissingGroupDeletionCommand => String::from_str(
                "Could not find a supported command to delete groups in PATH; please install `groupdel` or `delgroup`",
            ),
            ActionErrorKind::MissingUserCreationCommand => String::from_str(
                "Could not find a supported command to create users in PATH; please install `useradd` or `adduser`",
            ),
            ActionErrorKind::MissingUserDeletionCommand => String::from_str(
                "Could not find a supported command to delete users in PATH; please install `userdel` or `deluser`",
            ),
            ActionErrorKind::GroupGidMismatch(name, found, planned) => mismatch_string(
                "Group",
                name.as_str(),
                "gid",
                *found,
                *planned,
            ),
            ActionErrorKind::GettingGroupId(name, _) => wrapped(
                "Getting gid for group `",
                name.as_str(),
                "`",
            ),
            ActionErrorKind::GettingUserId(name, _) => wrapped(
                "Getting uid for user `",
                name.as_str(),
                "`",
            ),
            ActionErrorKind::GroupNotFound(name) => wrapped("Group `", name.as_str(), "` not found"),
            ActionErrorKind::UserNotFound(name) => wrapped("User `", name.as_str(), "` not found"),
            ActionErrorKind::UserUidMismatch(name, found, planned) => mismatch_string(
                "User",
                name.as_str(),
                "uid",
                *found,
                *planned,
            ),
            ActionErrorKind::UserGidMismatch(name, found, planned) => mismatch_string(
                "User",
                name.as_str(),
                "gid",
                *found,
                *planned,
            ),
            ActionErrorKind::SystemdMissing => String::from_str(
                "Could not detect systemd. We require systemd to be installed to be able to manage services.",
            ),
            ActionErrorKind::Read(path, _) => wrapped("Read path `", path.as_str(), "`"),
            ActionErrorKind::Write(path, _) => wrapped("Write path `", path.as_str(), "`"),
            ActionErrorKind::Remove(path, _) => wrapped("Remove path `", path.as_str(), "`"),
            ActionErrorKind::DifferentContent(path) => {
                let mut r = String::from_str("`");
                r.append(path.as_str());
                r.append(
                    "` exists with different content than planned, consider removing it with `rm ",
                );
                r.append(path.as_str());
                r.append("`");
                r
            },
            ActionErrorKind::JavaInstall(m) => concat2("Java installation failed: ", m.as_str()),
            ActionErrorKind::Command { command, error } => concat2(
                "Failed to execute command: ",
                command.as_str(),
            ),
            ActionErrorKind::CommandOutput { command, output } => {
                let mut r = String::from_str("Failed to execute command: `");
                r.append(command.as_str());
                r.append("`\nstdout: ");
                r.append(output.stdout.as_str());
                r.append("\nstderr: ");
                r.append(output.stderr.as_str());
                r.append("\n");
                r.append(status_line_string(output.code).as_str());
                r.append("\n");
                r.append(signal_line_string(output.signal).as_str());
                r
            },
            ActionErrorKind::NotADirectory(path) => wrapped(
                "Path ",
                path.as_str(),
                " is not a directory",
            ),
            ActionErrorKind::OwnerMismatch { path, user } => {
                let mut r = wrapped("Path ", path.as_str(), " is not owned by user ");
                r.append(user.as_str());
                r
            },
            ActionErrorKind::GroupMismatch { path, group } => {
                let mut r = wrapped("Path ", path.as_str(), " is not owned by group ");
                r.append(group.as_str());
                r
            },
            ActionErrorKind::IsADirectory(path) => wrapped(
                "Cannot create file at ",
                path.as_str(),
                ": path exists and is a directory.",
            ),
            ActionErrorKind::Transport { url, message } => message.clone(),
        }
    }
}

} // verus!
