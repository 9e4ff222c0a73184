use feather::action::base::configure_systemd::{ConfigureSystemdService, ServiceProbe};
use feather::action::base::create_directory::{CreateDirectory, DirectoryProbe};
use feather::action::base::create_feather_env::{CreateFeatherEnvAction, EnvFileProbe};
use feather::action::base::create_file::{CreateFile, CreateFileProbe};
use feather::action::base::create_group::CreateGroup;
use feather::action::base::create_user::{CreateUser, UserProbe};
use feather::action::base::install_fabric_loader::InstallFabricLoaderAction;
use feather::action::base::install_java::InstallJava;
use feather::action::base::install_minecraft::{plan_specific_actions, ServerProbes};
use feather::action::base::start_systemd::StartSystemd;
use feather::action::base::{BaseAction, SystemdProbe};
use feather::action::lib::HostOp;
use feather::action::report::ErrorCategory;
use feather::action::stateful::{ActionErrorKind, ActionState, StatefulAction};
use feather::action::Action;
use feather::cache::{CacheManager, FetchFailure, LinkProbe, Resolution};
use feather::cli::{InitArgs, JavaSelection};
use feather::fabric::InstallerVersion;
use feather::host::{
    FileProbe, GroupEntry, GroupLookup, HostOs, PathMetadata, PathProbe, Tools, UserEntry,
    UserLookup,
};
use feather::modpack::{Loader, LoaderType, MinecraftProfile};
use feather::plan::{server_working_dir, ServerSetupManager, SetupProbes, Step};
use feather::version::GameVersion;

/// A host that performs nothing and remembers everything.
struct Host {
    log: Vec<String>,
    network_down: bool,
}

impl Host {
    fn new(network_down: bool) -> Self {
        Host { log: Vec::new(), network_down }
    }

    fn perform(&mut self, ops: Vec<HostOp>) -> Result<(), ActionErrorKind> {
        for op in ops {
            self.log.push(match op {
                HostOp::CreateDirAll { path } => format!("mkdir {path}"),
                HostOp::WriteFile { path, .. } => format!("write {path}"),
                HostOp::Chown { path, .. } => format!("chown {path}"),
                HostOp::SetMode { path, .. } => format!("chmod {path}"),
                HostOp::RemoveFile { path, .. } => format!("rm {path}"),
                HostOp::Run { command, .. } => format!("run {}", command.program),
            });
        }
        Ok(())
    }
}

impl Action<Host> for CreateUser {
    fn execute(&self, host: &mut Host) -> Result<(), ActionErrorKind> {
        host.perform(self.execute_steps(HostOs::Linux, &tools())?)
    }

    fn revert(&self, host: &mut Host) -> Result<(), ActionErrorKind> {
        host.perform(self.revert_steps(HostOs::Linux, &tools())?)
    }
}

impl Action<Host> for CreateGroup {
    fn execute(&self, host: &mut Host) -> Result<(), ActionErrorKind> {
        host.perform(self.execute_steps(HostOs::Linux, &tools())?)
    }

    fn revert(&self, host: &mut Host) -> Result<(), ActionErrorKind> {
        host.perform(self.revert_steps(HostOs::Linux, &tools())?)
    }
}

impl Action<Host> for CreateDirectory {
    fn execute(&self, host: &mut Host) -> Result<(), ActionErrorKind> {
        host.perform(self.execute_steps())
    }

    fn revert(&self, host: &mut Host) -> Result<(), ActionErrorKind> {
        host.log.push(format!("keep {}", self.path()));
        host.perform(self.revert_steps())
    }
}

impl Action<Host> for CreateFile {
    fn execute(&self, host: &mut Host) -> Result<(), ActionErrorKind> {
        host.perform(self.execute_steps())
    }

    fn revert(&self, host: &mut Host) -> Result<(), ActionErrorKind> {
        host.perform(self.revert_steps())
    }
}

impl Action<Host> for CreateFeatherEnvAction {
    fn execute(&self, host: &mut Host) -> Result<(), ActionErrorKind> {
        host.perform(self.execute_steps())
    }

    fn revert(&self, host: &mut Host) -> Result<(), ActionErrorKind> {
        host.perform(self.revert_steps())
    }
}

impl Action<Host> for ConfigureSystemdService {
    fn execute(&self, host: &mut Host) -> Result<(), ActionErrorKind> {
        host.perform(self.execute_steps())
    }

    fn revert(&self, host: &mut Host) -> Result<(), ActionErrorKind> {
        host.perform(self.revert_steps())
    }
}

impl Action<Host> for StartSystemd {
    fn execute(&self, host: &mut Host) -> Result<(), ActionErrorKind> {
        host.perform(self.execute_steps())
    }

    fn revert(&self, host: &mut Host) -> Result<(), ActionErrorKind> {
        host.perform(self.revert_steps())
    }
}

impl Action<Host> for InstallJava {
    fn execute(&self, host: &mut Host) -> Result<(), ActionErrorKind> {
        match self.ensure_java_present("linux", "x86_64", LinkProbe::Absent)? {
            Resolution::Cached { executable } => {
                host.log.push(format!("cached {executable}"));
                Ok(())
            }
            Resolution::Fetch { url } => {
                host.log.push(format!("fetch {url}"));
                if host.network_down {
                    let failure = FetchFailure::Request("connection refused".to_string());
                    return Err(CacheManager::download_failed(&url, &failure));
                }
                host.log.push(format!("link {}", self.link_path()));
                Ok(())
            }
        }
    }

    fn revert(&self, host: &mut Host) -> Result<(), ActionErrorKind> {
        host.perform(self.revert_steps(LinkProbe::Live))
    }
}

impl Action<Host> for InstallFabricLoaderAction {
    fn execute(&self, host: &mut Host) -> Result<(), ActionErrorKind> {
        let listed = vec![InstallerVersion {
            version: GameVersion::new("1.0.1").unwrap(),
            url: String::new(),
            stable: true,
        }];
        let download = self.execute_download(&listed)?;
        host.log.push(format!("download {} to {}", download.url, download.target));
        Ok(())
    }

    fn revert(&self, host: &mut Host) -> Result<(), ActionErrorKind> {
        host.perform(self.revert_steps())
    }
}

fn nothing() -> DirectoryProbe {
    DirectoryProbe { path: PathProbe::Missing, user: UserLookup::Absent, group: GroupLookup::Absent }
}

fn no_file() -> CreateFileProbe {
    CreateFileProbe {
        path: PathProbe::Missing,
        content: FileProbe::Missing,
        user: UserLookup::Absent,
        group: GroupLookup::Absent,
    }
}

fn tools() -> Tools {
    Tools {
        useradd: true,
        adduser: false,
        userdel: true,
        deluser: false,
        groupadd: true,
        addgroup: false,
        groupdel: true,
        delgroup: false,
    }
}

fn no_user() -> UserProbe {
    UserProbe { os: HostOs::Linux, tools: tools(), lookup: UserLookup::Absent }
}

fn version(text: &str) -> GameVersion {
    GameVersion::new(text).unwrap()
}

fn example_plan() -> Vec<StatefulAction<BaseAction>> {
    vec![
        CreateUser::plan("svc", &no_user()).unwrap().boxed(),
        CreateDirectory::default("/cache", &nothing()).unwrap().boxed(),
        CreateDirectory::default("/work", &nothing()).unwrap().boxed(),
        InstallJava::plan(version("1.20.1"), CacheManager::new("/cache"), LinkProbe::Absent)
            .unwrap()
            .boxed(),
        CreateFile::default("/work/marker", "ready", &no_file()).unwrap().boxed(),
    ]
}

#[test]
fn failed_download_rolls_back_directories_then_user() {
    let mut host = Host::new(true);
    let mut manager = ServerSetupManager::from_actions(example_plan());
    let error = manager.install(&mut host).unwrap_err();
    assert_eq!(
        error,
        ActionErrorKind::Transport {
            url: "https://api.adoptium.net/v3/binary/latest/17/ga/linux/x86_64/jdk/hotspot/normal/eclipse"
                .to_string(),
            message: "Java installation failed: connection refused".to_string(),
        }
    );
    assert_eq!(error.category(), ErrorCategory::TransportFailure);
    assert_eq!(
        host.log,
        vec![
            "run useradd".to_string(),
            "mkdir /cache".to_string(),
            "chown /cache".to_string(),
            "mkdir /work".to_string(),
            "chown /work".to_string(),
            "fetch https://api.adoptium.net/v3/binary/latest/17/ga/linux/x86_64/jdk/hotspot/normal/eclipse"
                .to_string(),
            "keep /work".to_string(),
            "keep /cache".to_string(),
            "run userdel".to_string(),
        ]
    );
    assert_eq!(
        manager.steps(),
        &vec![
            Step::Executed(0),
            Step::Executed(1),
            Step::Executed(2),
            Step::ExecuteFailed(3),
            Step::Reverted(2),
            Step::Reverted(1),
            Step::Reverted(0),
        ]
    );
    assert!(!host.log.iter().any(|line| line.contains("/work/marker")));
    assert_eq!(manager.get(4).unwrap().current_state(), ActionState::Uncompleted);
}

#[test]
fn working_network_completes_the_plan() {
    let mut host = Host::new(false);
    let mut manager = ServerSetupManager::from_actions(example_plan());
    assert_eq!(manager.install(&mut host), Ok(()));
    assert_eq!(host.log.last().unwrap(), "chown /work/marker");
    assert!(host.log.contains(&"link /cache/17".to_string()));
    assert!(host.log.contains(&"write /work/marker".to_string()));
    let mut i = 0;
    while i < manager.len() {
        assert!(manager.get(i).unwrap().is_completed());
        i += 1;
    }
    assert_eq!(manager.revert(&mut host), Ok(()));
    assert_eq!(
        host.log[host.log.len() - 5..].to_vec(),
        vec![
            "rm /work/marker".to_string(),
            "rm /cache/17".to_string(),
            "keep /work".to_string(),
            "keep /cache".to_string(),
            "run userdel".to_string(),
        ]
    );
}

fn args() -> InitArgs {
    InitArgs {
        file: "pack.mrpack".to_string(),
        working_dir: ".minecraft".to_string(),
        java: JavaSelection::Auto,
        java_args: vec!["-Xmx2G".to_string(), "-Xms2G".to_string()],
    }
}

fn profile() -> MinecraftProfile {
    MinecraftProfile {
        version: version("1.20.1"),
        loader: Some(Loader { name: LoaderType::Fabric, version: version("0.15.11") }),
        modpack: None,
    }
}

fn server_probes() -> ServerProbes {
    ServerProbes {
        working_dir: nothing(),
        java_link: LinkProbe::Absent,
        eula: no_file(),
        env: EnvFileProbe::Missing,
    }
}

fn setup_probes() -> SetupProbes {
    SetupProbes {
        user: no_user(),
        java_cache_dir: nothing(),
        servers_root: nothing(),
        server: server_probes(),
        service: ServiceProbe {
            systemd: SystemdProbe { runtime_dir: true, systemctl: true },
            unit_file: FileProbe::Missing,
        },
    }
}

fn kinds(manager: &ServerSetupManager<BaseAction>) -> Vec<&'static str> {
    let mut all = Vec::new();
    let mut i = 0;
    while i < manager.len() {
        all.push(match manager.get(i).unwrap().inner_ref() {
            BaseAction::ConfigureSystemdService(_) => "service",
            BaseAction::CreateDirectory(_) => "directory",
            BaseAction::CreateFeatherEnv(_) => "env",
            BaseAction::CreateFile(_) => "file",
            BaseAction::CreateGroup(_) => "group",
            BaseAction::CreateUser(_) => "user",
            BaseAction::InstallFabricLoader(_) => "loader",
            BaseAction::InstallJava(_) => "java",
            BaseAction::StartSystemd(_) => "start",
        });
        i += 1;
    }
    all
}

#[test]
fn server_actions_are_planned_in_order() {
    let planned = plan_specific_actions(
        &args(),
        &profile(),
        "/srv/a".to_string(),
        CacheManager::new("/cache"),
        HostOs::Linux,
        &server_probes(),
    )
    .unwrap();
    let manager = ServerSetupManager::from_actions(planned);
    assert_eq!(kinds(&manager), vec!["directory", "java", "loader", "file", "env"]);
    match manager.get(4).unwrap().inner_ref() {
        BaseAction::CreateFeatherEnv(env) => {
            assert_eq!(
                env.generate_content(),
                "JAVA_BIN=/cache/17/bin/java\nJAVA_ARGS=-Xmx2G -Xms2G\nMINECRAFT_JAR=server.jar\n"
            );
            assert_eq!(env.env_file_path(), "/srv/a/feather.env");
        }
        _ => panic!("the last action writes the environment file"),
    }
    match manager.get(3).unwrap().inner_ref() {
        BaseAction::CreateFile(file) => assert_eq!(file.path(), "/srv/a/eula.txt"),
        _ => panic!("the fourth action writes the licence agreement"),
    }
}

#[test]
fn server_planning_stops_at_the_first_conflict() {
    let mut probes = server_probes();
    probes.working_dir = DirectoryProbe {
        path: PathProbe::Present(PathMetadata { is_dir: true, uid: 0, gid: 0 }),
        user: UserLookup::Found(UserEntry { uid: 990, gid: 985 }),
        group: GroupLookup::Found(GroupEntry { gid: 985 }),
    };
    probes.env = EnvFileProbe::Content("other".to_string());
    let error = plan_specific_actions(
        &args(),
        &profile(),
        "/srv/a".to_string(),
        CacheManager::new("/cache"),
        HostOs::Linux,
        &probes,
    )
    .unwrap_err();
    assert_eq!(
        error,
        ActionErrorKind::OwnerMismatch { path: "/srv/a".to_string(), user: "feather".to_string() }
    );
    let mut later = server_probes();
    later.env = EnvFileProbe::Content("other".to_string());
    assert_eq!(
        plan_specific_actions(
            &args(),
            &profile(),
            "/srv/a".to_string(),
            CacheManager::new("/cache"),
            HostOs::Linux,
            &later,
        )
        .unwrap_err(),
        ActionErrorKind::DifferentContent("/srv/a/feather.env".to_string())
    );
}

#[test]
fn whole_setup_is_planned_in_dependency_order() {
    let manager =
        ServerSetupManager::new(&args(), &profile(), "/cache", "/servers", HostOs::Linux, &setup_probes())
            .unwrap();
    assert_eq!(
        kinds(&manager),
        vec!["user", "directory", "directory", "directory", "java", "loader", "file", "env", "service"]
    );
    assert!(manager.steps().is_empty());
    let working_dir = server_working_dir("/servers", &profile());
    assert_eq!(working_dir, format!("/servers/{}", profile().hash()));
    match manager.get(1).unwrap().inner_ref() {
        BaseAction::CreateDirectory(dir) => assert_eq!(dir.path(), "/cache"),
        _ => panic!("the second action creates the cache directory"),
    }
    match manager.get(2).unwrap().inner_ref() {
        BaseAction::CreateDirectory(dir) => assert_eq!(dir.path(), "/servers"),
        _ => panic!("the third action creates the servers directory"),
    }
    match manager.get(3).unwrap().inner_ref() {
        BaseAction::CreateDirectory(dir) => assert_eq!(dir.path(), &working_dir),
        _ => panic!("the fourth action creates the working directory"),
    }
    let mut i = 0;
    while i < manager.len() {
        assert_eq!(manager.get(i).unwrap().current_state(), ActionState::Uncompleted);
        i += 1;
    }
}

#[test]
fn whole_setup_without_loader_and_with_existing_user() {
    let mut probes = setup_probes();
    probes.user.lookup = UserLookup::Found(UserEntry { uid: 990, gid: 985 });
    probes.server.java_link = LinkProbe::Live;
    let vanilla = MinecraftProfile { version: version("1.20.1"), loader: None, modpack: None };
    let manager =
        ServerSetupManager::new(&args(), &vanilla, "/cache", "/servers", HostOs::Linux, &probes).unwrap();
    assert_eq!(
        kinds(&manager),
        vec!["user", "directory", "directory", "directory", "java", "file", "env", "service"]
    );
    assert_eq!(manager.get(0).unwrap().current_state(), ActionState::Completed);
    assert_eq!(manager.get(4).unwrap().current_state(), ActionState::Completed);
    assert_eq!(manager.get(5).unwrap().current_state(), ActionState::Uncompleted);
}

#[test]
fn whole_setup_fails_with_the_first_conflict() {
    let mut probes = setup_probes();
    probes.service.systemd.systemctl = false;
    assert_eq!(
        ServerSetupManager::new(&args(), &profile(), "/cache", "/servers", HostOs::Linux, &probes)
            .unwrap_err(),
        ActionErrorKind::SystemdMissing
    );
    probes.user.tools.useradd = false;
    assert_eq!(
        ServerSetupManager::new(&args(), &profile(), "/cache", "/servers", HostOs::Linux, &probes)
            .unwrap_err(),
        ActionErrorKind::MissingUserCreationCommand
    );
}

#[test]
fn planned_setup_runs_and_rolls_back() {
    let mut host = Host::new(true);
    let mut manager =
        ServerSetupManager::new(&args(), &profile(), "/cache", "/servers", HostOs::Linux, &setup_probes())
            .unwrap();
    let error = manager.install(&mut host).unwrap_err();
    assert_eq!(error.category(), ErrorCategory::TransportFailure);
    assert_eq!(
        manager.steps(),
        &vec![
            Step::Executed(0),
            Step::Executed(1),
            Step::Executed(2),
            Step::Executed(3),
            Step::ExecuteFailed(4),
            Step::Reverted(3),
            Step::Reverted(2),
            Step::Reverted(1),
            Step::Reverted(0),
        ]
    );
    assert_eq!(host.log.last().unwrap(), "run userdel");
}
