//! The direct installer: the stages of an installation without a plan, and
//! what each of them does.

use vstd::prelude::*;
use vstd::string::*;

use crate::action::base::configure_systemd::SERVICE_TEMPLATE;
use crate::action::base::install_java::JavaVersion;
use crate::cache::required_java;
use crate::cli::InitArgs;
use crate::config::{env_write, eula_write, ConfigGenerator, FileWrite, FileWriteView};
use crate::host::{CommandLine, CommandLineView};
use crate::java::JavaInstaller;
use crate::minecraft::{server_downloads, MinecraftInstaller, ServerDownloads};
use crate::modpack::MinecraftProfile;
use crate::text::{concat2, hex_text, join_path, joined_path};

verus! {

/// The stages of a direct installation.
#[derive(Clone, Copy, Debug, PartialEq, Eq, Structural)]
pub enum InstallStage {
    Directories,
    User,
    Java,
    Server,
    ConfigFiles,
    Systemd,
}

impl InstallStage {
    /// What is said when the stage fails.
    pub open spec fn failure(self) -> Seq<char> {
        match self {
            InstallStage::Directories => "Failed to create directories"@,
            InstallStage::User => "Failed to create feather user"@,
            InstallStage::Java => "Failed to install Java"@,
            InstallStage::Server => "Failed to install Minecraft server"@,
            InstallStage::ConfigFiles => "Failed to create configuration files"@,
            InstallStage::Systemd => "Failed to setup systemd service"@,
        }
    }

    /// What is said when the stage fails.
    pub fn context(&self) -> (r: String)
        ensures
            r@ == self.failure(),
    {
        match self {
            InstallStage::Directories => String::from_str("Failed to create directories"),
            InstallStage::User => String::from_str("Failed to create feather user"),
            InstallStage::Java => String::from_str("Failed to install Java"),
            InstallStage::Server => String::from_str("Failed to install Minecraft server"),
            InstallStage::ConfigFiles => String::from_str("Failed to create configuration files"),
            InstallStage::Systemd => String::from_str("Failed to setup systemd service"),
        }
    }
}

/// A directory to be created, with every missing parent, and what to say if
/// it cannot be.
#[derive(Clone, Debug, PartialEq, Eq)]
pub struct DirectoryCreation {
    pub path: String,
    pub failure: String,
}

/// What [`DirectoryCreation`] looks like to contracts: the same value with every text as a
/// sequence of characters.
pub struct DirectoryCreationView {
    pub path: Seq<char>,
    pub failure: Seq<char>,
}

impl View for DirectoryCreation {
    type V = DirectoryCreationView;

    open spec fn view(&self) -> DirectoryCreationView {
        DirectoryCreationView { path: self.path@, failure: self.failure@ }
    }
}

impl DeepView for DirectoryCreation {
    type V = DirectoryCreationView;

    open spec fn deep_view(&self) -> DirectoryCreationView {
        self@
    }
}

/// Where the direct installer puts the unit file.
pub const DIRECT_SERVICE_PATH: &'static str = "/etc/systemd/system/feather.service";

/// The question whether the service user exists, as a command.
pub open spec fn user_question() -> CommandLineView {
    CommandLineView {
        program: "id"@,
        args: seq!["feather"@],
        process_group: None,
        null_stdin: false,
    }
}

/// The command that creates the service user.
pub open spec fn user_creation_command() -> CommandLineView {
    CommandLineView {
        program: "sudo"@,
        args: seq!["useradd"@, "-r"@, "-s"@, "/bin/false"@, "feather"@],
        process_group: None,
        null_stdin: false,
    }
}

/// The command that makes the service manager read its unit files again.
pub open spec fn reload_command() -> CommandLineView {
    CommandLineView {
        program: "sudo"@,
        args: seq!["systemctl"@, "daemon-reload"@],
        process_group: None,
        null_stdin: false,
    }
}

/// The unit file as the direct installer writes it.
pub open spec fn service_write() -> FileWriteView {
    FileWriteView {
        path: DIRECT_SERVICE_PATH@,
        content: SERVICE_TEMPLATE@,
        failure: "Failed to write systemd service file: "@ + DIRECT_SERVICE_PATH@,
    }
}

/// A copy of a list of texts.
pub fn clone_texts(texts: &Vec<String>) -> (r: Vec<String>)
    ensures
        r.deep_view() == texts.deep_view(),
{
    let mut r: Vec<String> = Vec::new();
    let mut i: usize = 0;
    while i < texts.len()
        invariant
            i <= texts.len(),
            r.len() == i,
            forall|j: int| 0 <= j < i ==> (#[trigger] r[j])@ == texts[j]@,
        decreases texts.len() - i,
    {
        r.push(texts[i].clone());
        i = i + 1;
    }
    r
}

/// Installs the server that `profile` describes, stage by stage.
#[derive(Clone, Debug)]
pub struct MinecraftServerInstaller {
    profile: MinecraftProfile,
    java_cache_dir: String,
    server_dir: String,
    java_args: Vec<String>,
}

impl MinecraftServerInstaller {
    /// What the installer installs.
    pub closed spec fn profile(&self) -> MinecraftProfile {
        self.profile
    }

    /// The cache directory of the Java runtimes.
    pub closed spec fn java_cache_dir(&self) -> Seq<char> {
        self.java_cache_dir@
    }

    /// The directory of the server.
    pub closed spec fn server_dir(&self) -> Seq<char> {
        self.server_dir@
    }

    /// The arguments of the Java runtime.
    pub closed spec fn java_args(&self) -> Seq<Seq<char>> {
        self.java_args.deep_view()
    }

    /// An installer for the server of `profile`. The server's directory is
    /// the one under `minecraft_servers_dir` that is named after the hash of
    /// the profile, whatever that hash is.
    pub fn new(
        profile: MinecraftProfile,
        args: &InitArgs,
        java_cache_dir: &str,
        minecraft_servers_dir: &str,
    ) -> (r: Self)
        ensures
            r.profile() == profile,
            r.java_cache_dir() == java_cache_dir@,
            r.java_args() == args.java_args.deep_view(),
            exists|h: u64|
                r.server_dir() == joined_path(minecraft_servers_dir@, #[trigger] hex_text(h as nat)),
    {
        let hash = profile.hash();
        let server_dir = join_path(minecraft_servers_dir, hash.as_str());
        Self {
            profile,
            java_cache_dir: String::from_str(java_cache_dir),
            server_dir,
            java_args: clone_texts(&args.java_args),
        }
    }

    /// The directory of the server.
    pub fn server_directory(&self) -> (r: &String)
        ensures
            r@ == self.server_dir(),
    {
        &self.server_dir
    }

    /// The stages of the installation, in the order in which they run. The
    /// first stage that fails ends the installation; nothing is undone.
    pub fn install(&self) -> (r: Vec<InstallStage>)
        ensures
            r@ == seq![
                InstallStage::Directories,
                InstallStage::User,
                InstallStage::Java,
                InstallStage::Server,
                InstallStage::ConfigFiles,
                InstallStage::Systemd,
            ],
    {
        let mut r: Vec<InstallStage> = Vec::new();
        r.push(InstallStage::Directories);
        r.push(InstallStage::User);
        r.push(InstallStage::Java);
        r.push(InstallStage::Server);
        r.push(InstallStage::ConfigFiles);
        r.push(InstallStage::Systemd);
        r
    }

    /// The directories to create: the cache of the Java runtimes, then the
    /// server's own.
    pub fn create_directories(&self) -> (r: Vec<DirectoryCreation>)
        ensures
            r.deep_view() == seq![
                DirectoryCreationView {
                    path: self.java_cache_dir(),
                    failure: "Failed to create Java cache directory: "@ + self.java_cache_dir(),
                },
                DirectoryCreationView {
                    path: self.server_dir(),
                    failure: "Failed to create server directory: "@ + self.server_dir(),
                },
            ],
    {
        let mut r: Vec<DirectoryCreation> = Vec::new();
        r.push(
            DirectoryCreation {
                path: self.java_cache_dir.clone(),
                failure: concat2(
                    "Failed to create Java cache directory: ",
                    self.java_cache_dir.as_str(),
                ),
            },
        );
        r.push(
            DirectoryCreation {
                path: self.server_dir.clone(),
                failure: concat2("Failed to create server directory: ", self.server_dir.as_str()),
            },
        );
        r
    }

    /// The command that tells whether the service user exists: it succeeds
    /// if the user does.
    pub fn user_exists_command() -> (r: CommandLine)
        ensures
            r@ == user_question(),
    {
        let r = CommandLine::new("id").arg("feather");
        r
    }

    /// The command that creates the service user, unless the user exists.
    pub fn create_user(&self, user_exists: bool) -> (r: Option<CommandLine>)
        ensures
            user_exists ==> r is None,
            !user_exists ==> r is Some && r->Some_0@ == user_creation_command(),
    {
        if user_exists {
            None
        } else {
            let r = CommandLine::new("sudo").arg("useradd").arg("-r").arg("-s").arg(
                "/bin/false",
            ).arg("feather");
            assert(r@.args =~= user_creation_command().args);
            Some(r)
        }
    }

    /// The installer of the Java runtime and the runtime that the profile
    /// needs.
    pub fn install_java(&self) -> (r: (JavaInstaller, JavaVersion))
        ensures
            r.0@ == self.java_cache_dir(),
            r.1 == required_java(self.profile().version@.kind),
    {
        let java_installer = JavaInstaller::new(self.java_cache_dir.as_str());
        let java_version = java_installer.determine_java_version(&self.profile.version);
        (java_installer, java_version)
    }

    /// Everything that is to be fetched for the server.
    pub fn install_minecraft_server(&self) -> (r: Result<ServerDownloads, String>)
        ensures
            match server_downloads(self.server_dir(), self.profile()) {
                Ok(downloads) => r is Ok && r->Ok_0@ == downloads,
                Err(message) => r is Err && r->Err_0@ == message,
            },
    {
        let minecraft_installer = MinecraftInstaller::new(self.server_dir.as_str());
        minecraft_installer.install(&self.profile)
    }

    /// The configuration files to write: the licence agreement, then the
    /// environment file that names `java_executable`.
    pub fn create_config_files(&self, java_executable: &str) -> (r: Vec<FileWrite>)
        ensures
            r.deep_view() == seq![
                eula_write(self.server_dir()),
                env_write(self.server_dir(), java_executable@, self.java_args(), "server.jar"@),
            ],
    {
        let config_generator = ConfigGenerator::new(self.server_dir.as_str());
        let mut r: Vec<FileWrite> = Vec::new();
        r.push(config_generator.create_eula_file());
        r.push(
            config_generator.create_feather_env_file(java_executable, &self.java_args, "server.jar"),
        );
        r
    }

    /// The unit file to write and the command to run after it.
    pub fn setup_systemd(&self) -> (r: (FileWrite, CommandLine))
        ensures
            r.0@ == service_write(),
            r.1@ == reload_command(),
    {
        let write = FileWrite {
            path: String::from_str(DIRECT_SERVICE_PATH),
            content: String::from_str(SERVICE_TEMPLATE),
            failure: concat2("Failed to write systemd service file: ", DIRECT_SERVICE_PATH),
        };
        let reload = CommandLine::new("sudo").arg("systemctl").arg("daemon-reload");
        assert(reload@.args =~= reload_command().args);
        (write, reload)
    }
}

} // verus!
