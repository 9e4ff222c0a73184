use feather::action::lib::{
    execute_command, remove_file, resolve_group, resolve_owner, resolve_user, HostOp, HostReply,
    OnMissing,
};
use feather::action::report::ErrorCategory;
use feather::action::stateful::ActionErrorKind;
use feather::host::{
    CommandLine, GroupEntry, GroupLookup, IoFailure, IoKind, ProcessOutput, UserEntry, UserLookup,
};

fn denied() -> IoFailure {
    IoFailure { kind: IoKind::PermissionDenied, detail: "Permission denied (os error 13)".to_string() }
}

fn not_found() -> IoFailure {
    IoFailure { kind: IoKind::NotFound, detail: "No such file or directory (os error 2)".to_string() }
}

fn output(code: Option<i32>, signal: Option<i32>) -> ProcessOutput {
    ProcessOutput { stdout: "out".to_string(), stderr: "err".to_string(), code, signal }
}

#[test]
fn messages_of_missing_tools() {
    assert_eq!(
        ActionErrorKind::MissingGroupCreationCommand.message(),
        "Could not find a supported command to create groups in PATH; please install `groupadd` or `addgroup`"
    );
    assert_eq!(
        ActionErrorKind::MissingAddUserToGroupCommand.message(),
        "Could not find a supported command to add users to groups in PATH; please install `gpasswd` or `addgroup`"
    );
    assert_eq!(
        ActionErrorKind::MissingGroupDeletionCommand.message(),
        "Could not find a supported command to delete groups in PATH; please install `groupdel` or `delgroup`"
    );
    assert_eq!(
        ActionErrorKind::MissingUserCreationCommand.message(),
        "Could not find a supported command to create users in PATH; please install `useradd` or `adduser`"
    );
    assert_eq!(
        ActionErrorKind::MissingUserDeletionCommand.message(),
        "Could not find a supported command to delete users in PATH; please install `userdel` or `deluser`"
    );
    assert_eq!(
        ActionErrorKind::SystemdMissing.message(),
        "Could not detect systemd. We require systemd to be installed to be able to manage services."
    );
}

#[test]
fn messages_of_mismatches() {
    assert_eq!(
        ActionErrorKind::GroupGidMismatch("feather".to_string(), 1001, 1000).message(),
        "Group `feather` existed but had a different gid (1001) than planned (1000)"
    );
    assert_eq!(
        ActionErrorKind::UserUidMismatch("feather".to_string(), 0, 4294967295).message(),
        "User `feather` existed but had a different uid (0) than planned (4294967295)"
    );
    assert_eq!(
        ActionErrorKind::UserGidMismatch("svc".to_string(), 12, 34).message(),
        "User `svc` existed but had a different gid (12) than planned (34)"
    );
    assert_eq!(
        ActionErrorKind::DifferentContent("/etc/x".to_string()).message(),
        "`/etc/x` exists with different content than planned, consider removing it with `rm /etc/x`"
    );
    assert_eq!(
        ActionErrorKind::NotADirectory("/opt/f".to_string()).message(),
        "Path /opt/f is not a directory"
    );
    assert_eq!(
        ActionErrorKind::OwnerMismatch { path: "/opt/f".to_string(), user: "feather".to_string() }
            .message(),
        "Path /opt/f is not owned by user feather"
    );
    assert_eq!(
        ActionErrorKind::GroupMismatch { path: "/opt/f".to_string(), group: "games".to_string() }
            .message(),
        "Path /opt/f is not owned by group games"
    );
    assert_eq!(
        ActionErrorKind::IsADirectory("/opt/f/eula.txt".to_string()).message(),
        "Cannot create file at /opt/f/eula.txt: path exists and is a directory."
    );
}

#[test]
fn messages_of_lookups_and_files() {
    assert_eq!(
        ActionErrorKind::GettingGroupId("g".to_string(), 5).message(),
        "Getting gid for group `g`"
    );
    assert_eq!(
        ActionErrorKind::GettingUserId("u".to_string(), 5).message(),
        "Getting uid for user `u`"
    );
    assert_eq!(ActionErrorKind::GroupNotFound("g".to_string()).message(), "Group `g` not found");
    assert_eq!(ActionErrorKind::UserNotFound("u".to_string()).message(), "User `u` not found");
    assert_eq!(ActionErrorKind::Read("/a".to_string(), denied()).message(), "Read path `/a`");
    assert_eq!(ActionErrorKind::Write("/a".to_string(), denied()).message(), "Write path `/a`");
    assert_eq!(ActionErrorKind::Remove("/a".to_string(), denied()).message(), "Remove path `/a`");
    assert_eq!(ActionErrorKind::Io(denied()).message(), "Permission denied (os error 13)");
    assert_eq!(ActionErrorKind::Other("anything".to_string()).message(), "anything");
    assert_eq!(
        ActionErrorKind::JavaInstall("no space left".to_string()).message(),
        "Java installation failed: no space left"
    );
    assert_eq!(
        ActionErrorKind::Transport { url: "https://x".to_string(), message: "timed out".to_string() }
            .message(),
        "timed out"
    );
}

#[test]
fn messages_of_commands() {
    let command = CommandLine::new("systemctl").arg("stop").arg("a b");
    assert_eq!(command.render(), "\"systemctl\" \"stop\" \"a b\"");
    assert_eq!(CommandLine::new("id").render(), "\"id\"");
    assert_eq!(
        ActionErrorKind::command(&command, denied()).message(),
        "Failed to execute command: \"systemctl\" \"stop\" \"a b\""
    );
    assert_eq!(
        ActionErrorKind::command_output(&command, output(Some(3), None)).message(),
        "Failed to execute command: `\"systemctl\" \"stop\" \"a b\"`\nstdout: out\nstderr: err\nexited with status code: 3\n\n"
    );
    assert_eq!(
        ActionErrorKind::command_output(&command, output(None, Some(9))).message(),
        "Failed to execute command: `\"systemctl\" \"stop\" \"a b\"`\nstdout: out\nstderr: err\n\nterminated by signal: 9\n"
    );
    assert_eq!(
        ActionErrorKind::command_output(&command, output(Some(-1), Some(15))).message(),
        "Failed to execute command: `\"systemctl\" \"stop\" \"a b\"`\nstdout: out\nstderr: err\nexited with status code: -1\n\nterminated by signal: 15\n"
    );
}

#[test]
fn categories_follow_the_taxonomy() {
    let command = CommandLine::new("true");
    assert_eq!(ActionErrorKind::MissingGroupCreationCommand.category(), ErrorCategory::ToolMissing);
    assert_eq!(ActionErrorKind::MissingAddUserToGroupCommand.category(), ErrorCategory::ToolMissing);
    assert_eq!(ActionErrorKind::MissingGroupDeletionCommand.category(), ErrorCategory::ToolMissing);
    assert_eq!(ActionErrorKind::MissingUserCreationCommand.category(), ErrorCategory::ToolMissing);
    assert_eq!(ActionErrorKind::MissingUserDeletionCommand.category(), ErrorCategory::ToolMissing);
    assert_eq!(ActionErrorKind::SystemdMissing.category(), ErrorCategory::ToolMissing);
    assert_eq!(
        ActionErrorKind::GroupGidMismatch("g".to_string(), 1, 2).category(),
        ErrorCategory::StateConflict
    );
    assert_eq!(
        ActionErrorKind::UserUidMismatch("u".to_string(), 1, 2).category(),
        ErrorCategory::StateConflict
    );
    assert_eq!(
        ActionErrorKind::UserGidMismatch("u".to_string(), 1, 2).category(),
        ErrorCategory::StateConflict
    );
    assert_eq!(
        ActionErrorKind::DifferentContent("/a".to_string()).category(),
        ErrorCategory::StateConflict
    );
    assert_eq!(
        ActionErrorKind::NotADirectory("/a".to_string()).category(),
        ErrorCategory::StateConflict
    );
    assert_eq!(
        ActionErrorKind::OwnerMismatch { path: "/a".to_string(), user: "u".to_string() }.category(),
        ErrorCategory::StateConflict
    );
    assert_eq!(
        ActionErrorKind::GroupMismatch { path: "/a".to_string(), group: "g".to_string() }
            .category(),
        ErrorCategory::StateConflict
    );
    assert_eq!(
        ActionErrorKind::IsADirectory("/a".to_string()).category(),
        ErrorCategory::StateConflict
    );
    assert_eq!(ActionErrorKind::Io(denied()).category(), ErrorCategory::IoFailure);
    assert_eq!(ActionErrorKind::Read("/a".to_string(), denied()).category(), ErrorCategory::IoFailure);
    assert_eq!(
        ActionErrorKind::Write("/a".to_string(), denied()).category(),
        ErrorCategory::IoFailure
    );
    assert_eq!(
        ActionErrorKind::Remove("/a".to_string(), denied()).category(),
        ErrorCategory::IoFailure
    );
    assert_eq!(
        ActionErrorKind::GettingGroupId("g".to_string(), 1).category(),
        ErrorCategory::IoFailure
    );
    assert_eq!(
        ActionErrorKind::GettingUserId("u".to_string(), 1).category(),
        ErrorCategory::IoFailure
    );
    assert_eq!(
        ActionErrorKind::command(&command, denied()).category(),
        ErrorCategory::CommandFailure
    );
    assert_eq!(
        ActionErrorKind::command_output(&command, output(Some(1), None)).category(),
        ErrorCategory::CommandFailure
    );
    assert_eq!(
        ActionErrorKind::Transport { url: "u".to_string(), message: "m".to_string() }.category(),
        ErrorCategory::TransportFailure
    );
    assert_eq!(ActionErrorKind::Other("m".to_string()).category(), ErrorCategory::Other);
    assert_eq!(ActionErrorKind::GroupNotFound("g".to_string()).category(), ErrorCategory::Other);
    assert_eq!(ActionErrorKind::UserNotFound("u".to_string()).category(), ErrorCategory::Other);
    assert_eq!(ActionErrorKind::JavaInstall("m".to_string()).category(), ErrorCategory::Other);
}

#[test]
fn execute_command_judges_by_the_exit_code() {
    let command = CommandLine::new("useradd").arg("svc");
    assert_eq!(execute_command(&command, Ok(output(Some(0), None))), Ok(output(Some(0), None)));
    assert_eq!(
        execute_command(&command, Ok(output(Some(1), None))),
        Err(ActionErrorKind::CommandOutput {
            command: "\"useradd\" \"svc\"".to_string(),
            output: output(Some(1), None),
        })
    );
    assert_eq!(
        execute_command(&command, Ok(output(None, Some(9)))),
        Err(ActionErrorKind::CommandOutput {
            command: "\"useradd\" \"svc\"".to_string(),
            output: output(None, Some(9)),
        })
    );
    assert_eq!(
        execute_command(&command, Err(not_found())),
        Err(ActionErrorKind::Command {
            command: "\"useradd\" \"svc\"".to_string(),
            error: not_found(),
        })
    );
    assert!(output(Some(0), None).success());
    assert!(!output(Some(2), None).success());
    assert!(!output(None, None).success());
}

#[test]
fn remove_file_may_ignore_a_missing_file() {
    assert_eq!(remove_file(OnMissing::Ignore, Ok(())), Ok(()));
    assert_eq!(remove_file(OnMissing::Error, Ok(())), Ok(()));
    assert_eq!(remove_file(OnMissing::Ignore, Err(not_found())), Ok(()));
    assert_eq!(remove_file(OnMissing::Error, Err(not_found())), Err(not_found()));
    assert_eq!(remove_file(OnMissing::Ignore, Err(denied())), Err(denied()));
    assert_eq!(remove_file(OnMissing::Error, Err(denied())), Err(denied()));
}

#[test]
fn lookups_resolve_to_ids_or_errors() {
    assert_eq!(resolve_user("u", UserLookup::Found(UserEntry { uid: 7, gid: 8 })), Ok(7));
    assert_eq!(
        resolve_user("u", UserLookup::Absent),
        Err(ActionErrorKind::UserNotFound("u".to_string()))
    );
    assert_eq!(
        resolve_user("u", UserLookup::Failed(2)),
        Err(ActionErrorKind::GettingUserId("u".to_string(), 2))
    );
    assert_eq!(resolve_group("g", GroupLookup::Found(GroupEntry { gid: 9 })), Ok(9));
    assert_eq!(
        resolve_group("g", GroupLookup::Absent),
        Err(ActionErrorKind::GroupNotFound("g".to_string()))
    );
    assert_eq!(
        resolve_group("g", GroupLookup::Failed(13)),
        Err(ActionErrorKind::GettingGroupId("g".to_string(), 13))
    );
}

#[test]
fn owner_is_resolved_user_first() {
    let user = Some("u".to_string());
    let group = Some("g".to_string());
    let found_user = UserLookup::Found(UserEntry { uid: 7, gid: 8 });
    let found_group = GroupLookup::Found(GroupEntry { gid: 9 });
    assert_eq!(resolve_owner(&user, &group, found_user, found_group), Ok((Some(7), Some(9))));
    assert_eq!(resolve_owner(&None, &group, UserLookup::Failed(1), found_group), Ok((None, Some(9))));
    assert_eq!(resolve_owner(&user, &None, found_user, GroupLookup::Absent), Ok((Some(7), None)));
    assert_eq!(resolve_owner(&None, &None, UserLookup::Absent, GroupLookup::Absent), Ok((None, None)));
    assert_eq!(
        resolve_owner(&user, &group, UserLookup::Absent, GroupLookup::Absent),
        Err(ActionErrorKind::UserNotFound("u".to_string()))
    );
    assert_eq!(
        resolve_owner(&user, &group, found_user, GroupLookup::Failed(4)),
        Err(ActionErrorKind::GettingGroupId("g".to_string(), 4))
    );
}

#[test]
fn file_operations_are_judged_by_the_reply() {
    let written = |e| Err(ActionErrorKind::Write("/a".to_string(), e));
    let mkdir = HostOp::CreateDirAll { path: "/a".to_string() };
    assert_eq!(mkdir.outcome(HostReply::Done), Ok(()));
    assert_eq!(mkdir.outcome(HostReply::Failed(denied())), written(denied()));
    let chmod = HostOp::SetMode { path: "/a".to_string(), mode: 0o700 };
    assert_eq!(chmod.outcome(HostReply::Failed(denied())), written(denied()));
    let chown = HostOp::Chown { path: "/a".to_string(), user: None, group: None };
    assert_eq!(chown.outcome(HostReply::Failed(not_found())), written(not_found()));
    let write = HostOp::WriteFile { path: "/a".to_string(), content: String::new(), sync: false };
    assert_eq!(write.outcome(HostReply::Done), Ok(()));
    assert_eq!(write.outcome(HostReply::Failed(denied())), written(denied()));
    let remove = HostOp::RemoveFile { path: "/a".to_string(), on_missing: OnMissing::Ignore };
    assert_eq!(remove.outcome(HostReply::Done), Ok(()));
    assert_eq!(remove.outcome(HostReply::Failed(not_found())), Ok(()));
    assert_eq!(
        remove.outcome(HostReply::Failed(denied())),
        Err(ActionErrorKind::Remove("/a".to_string(), denied()))
    );
    let strict = HostOp::RemoveFile { path: "/a".to_string(), on_missing: OnMissing::Error };
    assert_eq!(
        strict.outcome(HostReply::Failed(not_found())),
        Err(ActionErrorKind::Remove("/a".to_string(), not_found()))
    );
}

#[test]
fn commands_are_judged_by_the_reply() {
    let command = CommandLine::new("systemctl").arg("stop");
    let strict = HostOp::Run { command: command.clone(), best_effort: false };
    let lenient = HostOp::Run { command: command.clone(), best_effort: true };
    assert_eq!(strict.outcome(HostReply::Exited(output(Some(0), None))), Ok(()));
    assert_eq!(
        strict.outcome(HostReply::Exited(output(Some(5), None))),
        Err(ActionErrorKind::command_output(&command, output(Some(5), None)))
    );
    assert_eq!(
        strict.outcome(HostReply::Failed(not_found())),
        Err(ActionErrorKind::command(&command, not_found()))
    );
    assert_eq!(lenient.outcome(HostReply::Exited(output(Some(5), None))), Ok(()));
    assert_eq!(lenient.outcome(HostReply::Failed(not_found())), Ok(()));
    assert_eq!(lenient.outcome(HostReply::Exited(output(None, Some(9)))), Ok(()));
}

#[test]
fn errors_tell_the_name_of_their_kind() {
    assert_eq!(ActionErrorKind::SystemdMissing.name(), "SystemdMissing");
    assert_eq!(ActionErrorKind::Other("m".to_string()).name(), "Other");
    assert_eq!(ActionErrorKind::Io(denied()).name(), "Io");
    assert_eq!(ActionErrorKind::GroupGidMismatch("g".to_string(), 1, 2).name(), "GroupGidMismatch");
    assert_eq!(ActionErrorKind::Read("/a".to_string(), denied()).name(), "Read");
    assert_eq!(
        ActionErrorKind::command(&CommandLine::new("id"), denied()).name(),
        "Command"
    );
    assert_eq!(
        ActionErrorKind::command_output(&CommandLine::new("id"), output(Some(1), None)).name(),
        "CommandOutput"
    );
    assert_eq!(
        ActionErrorKind::Transport { url: "u".to_string(), message: "m".to_string() }.name(),
        "Transport"
    );
    assert_eq!(ActionErrorKind::MissingUserDeletionCommand.name(), "MissingUserDeletionCommand");
}

#[test]
fn errors_tell_what_lies_underneath() {
    assert_eq!(ActionErrorKind::Read("/a".to_string(), denied()).source(), Some(&denied()));
    assert_eq!(ActionErrorKind::Write("/a".to_string(), denied()).source(), Some(&denied()));
    assert_eq!(ActionErrorKind::Remove("/a".to_string(), not_found()).source(), Some(&not_found()));
    assert_eq!(
        ActionErrorKind::command(&CommandLine::new("id"), not_found()).source(),
        Some(&not_found())
    );
    assert_eq!(ActionErrorKind::Io(denied()).source(), None);
    assert_eq!(ActionErrorKind::SystemdMissing.source(), None);
    assert_eq!(ActionErrorKind::GettingUserId("u".to_string(), 13).errno(), Some(13));
    assert_eq!(ActionErrorKind::GettingGroupId("g".to_string(), 2).errno(), Some(2));
    assert_eq!(ActionErrorKind::UserNotFound("u".to_string()).errno(), None);
}
