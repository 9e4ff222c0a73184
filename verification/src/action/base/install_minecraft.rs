//! The part of a plan that belongs to one server.

use vstd::prelude::*;
use vstd::string::*;

use crate::action::base::create_directory::{
    default_owner, directory_plan, CreateDirectory, CreateDirectoryView, DirectoryProbe,
    DirectoryProbeView,
};
use crate::action::base::create_feather_env::{
    CreateFeatherEnvAction, CreateFeatherEnvView, EnvFileProbe, EnvFileProbeView,
};
use crate::action::base::create_file::{
    file_plan, CreateFile, CreateFileProbe, CreateFileProbeView, CreateFileView,
};
use crate::action::base::install_fabric_loader::InstallFabricLoaderView;
use crate::action::base::install_java::{InstallJava, InstallJavaView};
use crate::action::base::{BaseAction, BaseActionView};
use crate::action::stateful::{ActionErrorKind, ActionErrorView, ActionState, StatefulAction};
use crate::cache::{CacheManager, LinkProbe};
use crate::cli::InitArgs;
use crate::host::HostOs;
use crate::modpack::MinecraftProfile;
use crate::text::{join, join_path, joined_path, joined_text};
use crate::version::GameVersionView;

verus! {

/// What planning a server needs to know about the host.
#[derive(Clone, Debug)]
pub struct ServerProbes {
    /// What is at the server's working directory.
    pub working_dir: DirectoryProbe,
    /// What is at the cache entry of the runtime that the server needs.
    pub java_link: LinkProbe,
    /// What is at the place of the licence agreement file.
    pub eula: CreateFileProbe,
    /// What is at the place of the environment file.
    pub env: EnvFileProbe,
}

/// What [`ServerProbes`] looks like to contracts: the same value with every text as a
/// sequence of characters.
pub struct ServerProbesView {
    pub working_dir: DirectoryProbeView,
    pub java_link: LinkProbe,
    pub eula: CreateFileProbeView,
    pub env: EnvFileProbeView,
}

impl View for ServerProbes {
    type V = ServerProbesView;

    open spec fn view(&self) -> ServerProbesView {
        ServerProbesView {
            working_dir: self.working_dir@,
            java_link: self.java_link,
            eula: self.eula@,
            env: self.env@,
        }
    }
}

/// The file that records the acceptance of the game's licence agreement.
pub const EULA_FILE: &'static str = "eula.txt";

/// What the licence agreement file holds.
pub const EULA_CONTENT: &'static str = "eula=true";

/// The name under which the server's archive is started.
pub const SERVER_JAR: &'static str = "server.jar";

/// A planned action, seen from outside: what it is and in which state it
/// starts.
pub type Planned = (BaseActionView, ActionState);

/// The planned actions of a list, in order.
pub open spec fn plan_view(actions: Seq<StatefulAction<BaseAction>>) -> Seq<Planned> {
    Seq::new(actions.len(), |i: int| (actions[i].action()@, actions[i].state()))
}

/// The directory action of a server's working directory.
pub open spec fn working_directory(working_dir: Seq<char>) -> CreateDirectoryView {
    CreateDirectoryView {
        path: working_dir,
        user: Some(default_owner()),
        group: Some(default_owner()),
        mode: None,
    }
}

/// The file action of a server's licence agreement.
pub open spec fn eula_file(working_dir: Seq<char>) -> CreateFileView {
    CreateFileView {
        path: joined_path(working_dir, EULA_FILE@),
        content: EULA_CONTENT@,
        user: Some("feather"@),
        group: Some("feather"@),
        mode: None,
    }
}

/// The environment file action of a server.
pub open spec fn env_file(
    java_args: Seq<Seq<char>>,
    java: InstallJavaView,
    working_dir: Seq<char>,
    os: HostOs,
) -> CreateFeatherEnvView {
    CreateFeatherEnvView {
        working_dir: working_dir,
        java_bin: java.cache().executable(java.channel(), os),
        java_args: joined_text(java_args, " "@),
        minecraft_jar: SERVER_JAR@,
    }
}

/// The actions that set one server up, in the order in which they must run,
/// or the first conflict that planning them runs into.
///
/// The working directory comes first, since everything else is written into
/// it; the runtime follows, whose path the environment file names; then the
/// loader's installer, if the profile has a loader; then the licence
/// agreement and the environment file.
pub open spec fn specific_plan(
    java_args: Seq<Seq<char>>,
    version: GameVersionView,
    loader_version: Option<GameVersionView>,
    working_dir: Seq<char>,
    cache_root: Seq<char>,
    os: HostOs,
    probes: ServerProbesView,
) -> Result<Seq<Planned>, ActionErrorView> {
    let dir = working_directory(working_dir);
    let java = InstallJavaView { minecraft_version: version, cache_root: cache_root };
    let eula = eula_file(working_dir);
    let env = env_file(java_args, java, working_dir, os);
    let loader: Seq<Planned> = match loader_version {
        Some(lv) => seq![
            (
                BaseActionView::InstallFabricLoader(
                    InstallFabricLoaderView {
                        minecraft_version: version,
                        loader_version: lv,
                        working_dir: working_dir,
                    },
                ),
                ActionState::Uncompleted,
            ),
        ],
        None => Seq::empty(),
    };
    match directory_plan(dir, probes.working_dir) {
        Err(e) => Err(e),
        Ok(dir_state) => match file_plan(eula, probes.eula) {
            Err(e) => Err(e),
            Ok(eula_state) => match env.plan(probes.env) {
                Err(e) => Err(e),
                Ok(env_state) => Ok(
                    seq![
                        (BaseActionView::CreateDirectory(dir), dir_state),
                        (
                            BaseActionView::InstallJava(java),
                            InstallJavaView::planned_state(probes.java_link),
                        ),
                    ] + loader + seq![
                        (BaseActionView::CreateFile(eula), eula_state),
                        (BaseActionView::CreateFeatherEnv(env), env_state),
                    ],
                ),
            },
        },
    }
}

/// Plans the actions that set one server up in `working_dir`.
pub fn plan_specific_actions(
    init_args: &InitArgs,
    profile: &MinecraftProfile,
    working_dir: String,
    cache_manager: CacheManager,
    os: HostOs,
    probes: &ServerProbes,
) -> (r: Result<Vec<StatefulAction<BaseAction>>, ActionErrorKind>)
    requires
        os != HostOs::Other,
    ensures
        match specific_plan(
            init_args.java_args.deep_view(),
            profile.version@,
            profile.loader_version(),
            working_dir@,
            cache_manager@,
            os,
            probes@,
        ) {
            Ok(planned) => r is Ok && plan_view(r->Ok_0@) == planned,
            Err(e) => r is Err && r->Err_0@ == e,
        },
{
    let mut planned_actions: Vec<StatefulAction<BaseAction>> = Vec::new();

    match CreateDirectory::default(working_dir.as_str(), &probes.working_dir) {
        Ok(planned) => {
            planned_actions.push(planned.boxed());
        },
        Err(e) => {
            return Err(e);
        },
    }

    match InstallJava::plan(profile.version.clone(), cache_manager.clone(), probes.java_link) {
        Ok(planned) => {
            planned_actions.push(planned.boxed());
        },
        Err(e) => {
            return Err(e);
        },
    }

    match profile.plan(working_dir.as_str()) {
        Ok(mut client_actions) => {
            planned_actions.append(&mut client_actions);
        },
        Err(e) => {
            return Err(e);
        },
    }

    let eula_path = join_path(working_dir.as_str(), EULA_FILE);
    match CreateFile::default(eula_path.as_str(), EULA_CONTENT, &probes.eula) {
        Ok(planned) => {
            planned_actions.push(planned.boxed());
        },
        Err(e) => {
            return Err(e);
        },
    }

    let java_version_for_env = cache_manager.determine_java_version(&profile.version);
    let java_bin_for_env = cache_manager.get_java_executable(&java_version_for_env, os);
    let java_args = join(&init_args.java_args, " ");
    match CreateFeatherEnvAction::plan(
        working_dir.clone(),
        java_bin_for_env,
        java_args,
        String::from_str(SERVER_JAR),
        &probes.env,
    ) {
        Ok(planned) => {
            planned_actions.push(planned.boxed());
        },
        Err(e) => {
            return Err(e);
        },
    }
    Ok(planned_actions)
}

} // verus!
