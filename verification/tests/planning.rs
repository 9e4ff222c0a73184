use feather::action::base::configure_systemd::{
    ConfigureSystemdService, ServiceProbe, SERVICE_DESTINATION, SERVICE_TEMPLATE,
};
use feather::action::base::create_directory::{CreateDirectory, DirectoryProbe};
use feather::action::base::create_feather_env::{CreateFeatherEnvAction, EnvFileProbe};
use feather::action::base::create_file::{CreateFile, CreateFileProbe};
use feather::action::base::create_group::{CreateGroup, GroupProbe};
use feather::action::base::create_user::{CreateUser, UserProbe};
use feather::action::base::start_systemd::{ActivityProbe, StartProbe, StartSystemd};
use feather::action::base::{check_systemd_exists, SystemdProbe};
use feather::action::report::ErrorCategory;
use feather::action::stateful::{ActionErrorKind, ActionState};
use feather::host::{
    FileProbe, GroupEntry, GroupLookup, HostOs, IoFailure, IoKind, PathMetadata, PathProbe,
    ProcessOutput, Tools, UserEntry, UserLookup,
};

fn denied() -> IoFailure {
    IoFailure { kind: IoKind::PermissionDenied, detail: "Permission denied".to_string() }
}

fn feather_user() -> UserLookup {
    UserLookup::Found(UserEntry { uid: 990, gid: 985 })
}

fn feather_group() -> GroupLookup {
    GroupLookup::Found(GroupEntry { gid: 985 })
}

fn dir_owned_by(uid: u32, gid: u32) -> PathProbe {
    PathProbe::Present(PathMetadata { is_dir: true, uid, gid })
}

fn file_owned_by(uid: u32, gid: u32) -> PathProbe {
    PathProbe::Present(PathMetadata { is_dir: false, uid, gid })
}

fn systemd() -> SystemdProbe {
    SystemdProbe { runtime_dir: true, systemctl: true }
}

#[test]
fn missing_directory_is_planned_uncompleted() {
    let probe =
        DirectoryProbe { path: PathProbe::Missing, user: UserLookup::Absent, group: GroupLookup::Absent };
    let planned = CreateDirectory::default("/opt/feather/java", &probe).unwrap();
    assert_eq!(planned.current_state(), ActionState::Uncompleted);
    assert_eq!(planned.inner_ref().path(), "/opt/feather/java");
}

#[test]
fn directory_owned_as_planned_is_completed() {
    let probe =
        DirectoryProbe { path: dir_owned_by(990, 985), user: feather_user(), group: feather_group() };
    let planned = CreateDirectory::default("/opt/feather/java", &probe).unwrap();
    assert_eq!(planned.current_state(), ActionState::Completed);
    assert!(planned.is_completed());
}

#[test]
fn directory_of_another_user_is_a_state_conflict() {
    let probe =
        DirectoryProbe { path: dir_owned_by(0, 985), user: feather_user(), group: feather_group() };
    let error = CreateDirectory::default("/opt/feather/java", &probe).unwrap_err();
    assert_eq!(
        error,
        ActionErrorKind::OwnerMismatch {
            path: "/opt/feather/java".to_string(),
            user: "feather".to_string(),
        }
    );
    assert_eq!(error.category(), ErrorCategory::StateConflict);
}

#[test]
fn directory_of_another_group_is_a_state_conflict() {
    let probe =
        DirectoryProbe { path: dir_owned_by(990, 0), user: feather_user(), group: feather_group() };
    let error = CreateDirectory::default("/srv", &probe).unwrap_err();
    assert_eq!(
        error,
        ActionErrorKind::GroupMismatch { path: "/srv".to_string(), group: "feather".to_string() }
    );
    assert_eq!(error.category(), ErrorCategory::StateConflict);
}

#[test]
fn directory_planning_reports_what_it_cannot_look_up() {
    let unknown_user =
        DirectoryProbe { path: dir_owned_by(990, 985), user: UserLookup::Absent, group: feather_group() };
    assert_eq!(
        CreateDirectory::default("/srv", &unknown_user).unwrap_err(),
        ActionErrorKind::UserNotFound("feather".to_string())
    );
    let failed_user = DirectoryProbe {
        path: dir_owned_by(990, 985),
        user: UserLookup::Failed(5),
        group: feather_group(),
    };
    assert_eq!(
        CreateDirectory::default("/srv", &failed_user).unwrap_err(),
        ActionErrorKind::GettingUserId("feather".to_string(), 5)
    );
    let unknown_group =
        DirectoryProbe { path: dir_owned_by(990, 985), user: feather_user(), group: GroupLookup::Absent };
    assert_eq!(
        CreateDirectory::default("/srv", &unknown_group).unwrap_err(),
        ActionErrorKind::GroupNotFound("feather".to_string())
    );
    let failed_group = DirectoryProbe {
        path: dir_owned_by(990, 985),
        user: feather_user(),
        group: GroupLookup::Failed(9),
    };
    assert_eq!(
        CreateDirectory::default("/srv", &failed_group).unwrap_err(),
        ActionErrorKind::GettingGroupId("feather".to_string(), 9)
    );
}

#[test]
fn file_in_place_of_a_directory_is_a_conflict() {
    let probe =
        DirectoryProbe { path: file_owned_by(990, 985), user: feather_user(), group: feather_group() };
    assert_eq!(
        CreateDirectory::default("/srv", &probe).unwrap_err(),
        ActionErrorKind::NotADirectory("/srv".to_string())
    );
    let unreadable = DirectoryProbe {
        path: PathProbe::Unreadable(denied()),
        user: feather_user(),
        group: feather_group(),
    };
    assert_eq!(
        CreateDirectory::default("/srv", &unreadable).unwrap_err(),
        ActionErrorKind::Read("/srv".to_string(), denied())
    );
}

#[test]
fn directory_without_planned_owner_ignores_ownership() {
    let probe =
        DirectoryProbe { path: dir_owned_by(0, 0), user: UserLookup::Absent, group: GroupLookup::Absent };
    let planned = CreateDirectory::plan("/srv", None, None, Some(0o755), &probe).unwrap();
    assert_eq!(planned.current_state(), ActionState::Completed);
    let only_group = CreateDirectory::plan(
        "/srv",
        None,
        Some("games".to_string()),
        None,
        &DirectoryProbe {
            path: dir_owned_by(0, 60),
            user: UserLookup::Absent,
            group: GroupLookup::Found(GroupEntry { gid: 60 }),
        },
    )
    .unwrap();
    assert_eq!(only_group.current_state(), ActionState::Completed);
}

fn file_probe(path: PathProbe, content: FileProbe) -> CreateFileProbe {
    CreateFileProbe { path, content, user: feather_user(), group: feather_group() }
}

#[test]
fn file_planning_follows_the_probe() {
    let missing = file_probe(PathProbe::Missing, FileProbe::Missing);
    assert_eq!(
        CreateFile::default("/srv/eula.txt", "eula=true", &missing).unwrap().current_state(),
        ActionState::Uncompleted
    );
    let unreadable_path = file_probe(PathProbe::Unreadable(denied()), FileProbe::Missing);
    assert_eq!(
        CreateFile::default("/srv/eula.txt", "eula=true", &unreadable_path)
            .unwrap()
            .current_state(),
        ActionState::Uncompleted
    );
    let same = file_probe(file_owned_by(990, 985), FileProbe::Content("eula=true".to_string()));
    let planned = CreateFile::default("/srv/eula.txt", "eula=true", &same).unwrap();
    assert_eq!(planned.current_state(), ActionState::Completed);
    assert_eq!(planned.inner_ref().path(), "/srv/eula.txt");
    let vanished = file_probe(file_owned_by(990, 985), FileProbe::Missing);
    assert_eq!(
        CreateFile::default("/srv/eula.txt", "eula=true", &vanished).unwrap().current_state(),
        ActionState::Uncompleted
    );
}

#[test]
fn file_conflicts_fail_planning() {
    let directory = file_probe(dir_owned_by(990, 985), FileProbe::Missing);
    assert_eq!(
        CreateFile::default("/srv/eula.txt", "eula=true", &directory).unwrap_err(),
        ActionErrorKind::IsADirectory("/srv/eula.txt".to_string())
    );
    let other = file_probe(file_owned_by(990, 985), FileProbe::Content("eula=false".to_string()));
    let error = CreateFile::default("/srv/eula.txt", "eula=true", &other).unwrap_err();
    assert_eq!(error, ActionErrorKind::DifferentContent("/srv/eula.txt".to_string()));
    assert_eq!(error.category(), ErrorCategory::StateConflict);
    let foreign = file_probe(file_owned_by(0, 985), FileProbe::Content("eula=true".to_string()));
    assert_eq!(
        CreateFile::default("/srv/eula.txt", "eula=true", &foreign).unwrap_err(),
        ActionErrorKind::OwnerMismatch {
            path: "/srv/eula.txt".to_string(),
            user: "feather".to_string(),
        }
    );
    let unreadable = file_probe(file_owned_by(990, 985), FileProbe::Unreadable(denied()));
    assert_eq!(
        CreateFile::default("/srv/eula.txt", "eula=true", &unreadable).unwrap_err(),
        ActionErrorKind::Read("/srv/eula.txt".to_string(), denied())
    );
}

fn tools(found: [bool; 4]) -> Tools {
    Tools {
        useradd: found[0],
        adduser: found[1],
        userdel: found[2],
        deluser: found[3],
        groupadd: found[0],
        addgroup: found[1],
        groupdel: found[2],
        delgroup: found[3],
    }
}

fn user_probe(os: HostOs, found: [bool; 4], lookup: UserLookup) -> UserProbe {
    UserProbe { os, tools: tools(found), lookup }
}

#[test]
fn user_planning_follows_the_probe() {
    let all = [true, true, true, true];
    let absent = CreateUser::plan("svc", &user_probe(HostOs::Linux, all, UserLookup::Absent)).unwrap();
    assert_eq!(absent.current_state(), ActionState::Uncompleted);
    assert_eq!(absent.inner_ref().username, "svc");
    assert_eq!(
        CreateUser::plan("svc", &user_probe(HostOs::Linux, all, feather_user()))
            .unwrap()
            .current_state(),
        ActionState::Completed
    );
    assert_eq!(
        CreateUser::plan("svc", &user_probe(HostOs::Linux, all, UserLookup::Failed(11))).unwrap_err(),
        ActionErrorKind::GettingUserId("svc".to_string(), 11)
    );
    assert_eq!(
        CreateUser::plan(
            "svc",
            &user_probe(HostOs::Linux, [false, true, false, true], UserLookup::Absent)
        )
        .unwrap()
        .current_state(),
        ActionState::Uncompleted
    );
}

#[test]
fn user_planning_needs_its_tools_except_on_macos() {
    let none = [false, false, false, false];
    let error =
        CreateUser::plan("svc", &user_probe(HostOs::Linux, none, UserLookup::Absent)).unwrap_err();
    assert_eq!(error, ActionErrorKind::MissingUserCreationCommand);
    assert_eq!(error.category(), ErrorCategory::ToolMissing);
    assert_eq!(
        CreateUser::plan(
            "svc",
            &user_probe(HostOs::Other, [true, false, false, false], UserLookup::Absent)
        )
        .unwrap_err(),
        ActionErrorKind::MissingUserDeletionCommand
    );
    assert_eq!(
        CreateUser::plan("svc", &user_probe(HostOs::MacOs, none, UserLookup::Absent))
            .unwrap()
            .current_state(),
        ActionState::Uncompleted
    );
}

fn group_probe(found: [bool; 4], lookup: GroupLookup) -> GroupProbe {
    GroupProbe { tools: tools(found), lookup }
}

#[test]
fn group_planning_follows_the_probe() {
    let all = [true, true, true, true];
    let absent =
        CreateGroup::plan("games", 60, HostOs::Linux, &group_probe(all, GroupLookup::Absent)).unwrap();
    assert_eq!(absent.current_state(), ActionState::Uncompleted);
    assert_eq!(absent.inner_ref().name, "games");
    assert_eq!(absent.inner_ref().gid, 60);
    assert_eq!(
        CreateGroup::plan(
            "games",
            60,
            HostOs::Linux,
            &group_probe(all, GroupLookup::Found(GroupEntry { gid: 60 }))
        )
        .unwrap()
        .current_state(),
        ActionState::Completed
    );
    let error = CreateGroup::plan(
        "games",
        60,
        HostOs::Linux,
        &group_probe(all, GroupLookup::Found(GroupEntry { gid: 61 })),
    )
    .unwrap_err();
    assert_eq!(error, ActionErrorKind::GroupGidMismatch("games".to_string(), 61, 60));
    assert_eq!(error.category(), ErrorCategory::StateConflict);
    assert_eq!(
        CreateGroup::plan("games", 60, HostOs::Linux, &group_probe(all, GroupLookup::Failed(2)))
            .unwrap_err(),
        ActionErrorKind::GettingGroupId("games".to_string(), 2)
    );
    assert_eq!(
        CreateGroup::plan(
            "games",
            60,
            HostOs::Linux,
            &group_probe([false, false, true, true], GroupLookup::Absent)
        )
        .unwrap_err(),
        ActionErrorKind::MissingGroupCreationCommand
    );
    assert_eq!(
        CreateGroup::plan(
            "games",
            60,
            HostOs::Linux,
            &group_probe([false, true, false, false], GroupLookup::Absent)
        )
        .unwrap_err(),
        ActionErrorKind::MissingGroupDeletionCommand
    );
}

#[test]
fn systemd_is_there_with_directory_and_command() {
    assert_eq!(check_systemd_exists(systemd()), Ok(()));
    assert_eq!(
        check_systemd_exists(SystemdProbe { runtime_dir: false, systemctl: true }),
        Err(ActionErrorKind::SystemdMissing)
    );
    assert_eq!(
        check_systemd_exists(SystemdProbe { runtime_dir: true, systemctl: false }),
        Err(ActionErrorKind::SystemdMissing)
    );
    assert_eq!(
        check_systemd_exists(SystemdProbe { runtime_dir: false, systemctl: false }),
        Err(ActionErrorKind::SystemdMissing)
    );
}

#[test]
fn service_planning_follows_the_probe() {
    let missing = ServiceProbe { systemd: systemd(), unit_file: FileProbe::Missing };
    let planned = ConfigureSystemdService::default(&missing).unwrap();
    assert_eq!(planned.current_state(), ActionState::Uncompleted);
    assert_eq!(planned.inner_ref().service_dest(), SERVICE_DESTINATION);
    assert_eq!(SERVICE_DESTINATION, "/etc/systemd/system/feather@.service");
    let same =
        ServiceProbe { systemd: systemd(), unit_file: FileProbe::Content(SERVICE_TEMPLATE.to_string()) };
    assert_eq!(
        ConfigureSystemdService::default(&same).unwrap().current_state(),
        ActionState::Completed
    );
    let other = ServiceProbe { systemd: systemd(), unit_file: FileProbe::Content("[Unit]".to_string()) };
    assert_eq!(
        ConfigureSystemdService::default(&other).unwrap_err(),
        ActionErrorKind::DifferentContent(SERVICE_DESTINATION.to_string())
    );
    let unreadable = ServiceProbe { systemd: systemd(), unit_file: FileProbe::Unreadable(denied()) };
    assert_eq!(
        ConfigureSystemdService::plan("/etc/x.service", "[Unit]", true, &unreadable).unwrap_err(),
        ActionErrorKind::Read("/etc/x.service".to_string(), denied())
    );
    let no_systemd = ServiceProbe {
        systemd: SystemdProbe { runtime_dir: false, systemctl: true },
        unit_file: FileProbe::Missing,
    };
    assert_eq!(
        ConfigureSystemdService::default(&no_systemd).unwrap_err(),
        ActionErrorKind::SystemdMissing
    );
}

fn answered(code: i32) -> ActivityProbe {
    ActivityProbe::Answered(ProcessOutput {
        stdout: String::new(),
        stderr: String::new(),
        code: Some(code),
        signal: None,
    })
}

#[test]
fn start_planning_follows_the_probe() {
    let active = StartProbe { systemd: systemd(), activity: answered(0) };
    assert_eq!(
        StartSystemd::plan("feather@a.service", true, &active).unwrap().current_state(),
        ActionState::Completed
    );
    let inactive = StartProbe { systemd: systemd(), activity: answered(3) };
    assert_eq!(
        StartSystemd::plan("feather@a.service", true, &inactive).unwrap().current_state(),
        ActionState::Uncompleted
    );
    let unasked = StartProbe { systemd: systemd(), activity: ActivityProbe::Unasked(denied()) };
    assert_eq!(
        StartSystemd::plan("feather@a.service", false, &unasked).unwrap_err(),
        ActionErrorKind::Command {
            command: "\"systemctl\" \"is-active\" \"feather@a.service\"".to_string(),
            error: denied(),
        }
    );
    let no_systemd = StartProbe {
        systemd: SystemdProbe { runtime_dir: true, systemctl: false },
        activity: answered(0),
    };
    assert_eq!(
        StartSystemd::plan("feather@a.service", false, &no_systemd).unwrap_err(),
        ActionErrorKind::SystemdMissing
    );
    let question = StartSystemd::is_active_command("u.service");
    assert_eq!(question.program, "systemctl");
    assert_eq!(question.args, vec!["is-active".to_string(), "u.service".to_string()]);
    assert_eq!(question.process_group, None);
    assert!(!question.null_stdin);
}

fn env_plan(probe: &EnvFileProbe) -> Result<ActionState, ActionErrorKind> {
    CreateFeatherEnvAction::plan(
        "/srv/a".to_string(),
        "/opt/java/17/bin/java".to_string(),
        "-Xmx2G -Xms2G".to_string(),
        "server.jar".to_string(),
        probe,
    )
    .map(|planned| planned.current_state())
}

#[test]
fn env_file_planning_follows_the_probe() {
    let expected = "JAVA_BIN=/opt/java/17/bin/java\nJAVA_ARGS=-Xmx2G -Xms2G\nMINECRAFT_JAR=server.jar\n";
    assert_eq!(env_plan(&EnvFileProbe::Missing), Ok(ActionState::Uncompleted));
    assert_eq!(env_plan(&EnvFileProbe::Unreadable(denied())), Ok(ActionState::Uncompleted));
    assert_eq!(env_plan(&EnvFileProbe::Content(expected.to_string())), Ok(ActionState::Completed));
    assert_eq!(
        env_plan(&EnvFileProbe::Content("JAVA_BIN=/usr/bin/java\n".to_string())),
        Err(ActionErrorKind::DifferentContent("/srv/a/feather.env".to_string()))
    );
    assert_eq!(
        env_plan(&EnvFileProbe::Undetermined(denied())),
        Err(ActionErrorKind::Read("/srv/a/feather.env".to_string(), denied()))
    );
    let planned = CreateFeatherEnvAction::plan(
        "/srv/a".to_string(),
        "/opt/java/17/bin/java".to_string(),
        "-Xmx2G -Xms2G".to_string(),
        "server.jar".to_string(),
        &EnvFileProbe::Missing,
    )
    .unwrap();
    assert_eq!(planned.inner_ref().generate_content(), expected);
    assert_eq!(planned.inner_ref().env_file_path(), "/srv/a/feather.env");
}
