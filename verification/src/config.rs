//! The configuration files of a server.

use vstd::prelude::*;
use vstd::string::*;

use crate::text::{concat2, join, join_path, joined_path, joined_text};

verus! {

/// A file to be written: where, what, and what to say if it cannot be.
#[derive(Clone, Debug, PartialEq, Eq)]
pub struct FileWrite {
    pub path: String,
    pub content: String,
    pub failure: String,
}

/// What [`FileWrite`] looks like to contracts: the same value with every text as a
/// sequence of characters.
pub struct FileWriteView {
    pub path: Seq<char>,
    pub content: Seq<char>,
    pub failure: Seq<char>,
}

impl View for FileWrite {
    type V = FileWriteView;

    open spec fn view(&self) -> FileWriteView {
        FileWriteView { path: self.path@, content: self.content@, failure: self.failure@ }
    }
}

impl DeepView for FileWrite {
    type V = FileWriteView;

    open spec fn deep_view(&self) -> FileWriteView {
        self@
    }
}

/// What a fresh `server.properties` holds.
pub const SERVER_PROPERTIES: &'static str =
    "#Minecraft server properties\nserver-port=25565\ngamemode=survival\nallow-flight=false\nallow-nether=true\ndifficulty=easy\nenable-command-block=false\nlevel-name=world\nlevel-seed=\nlevel-type=default\nmax-players=20\nmotd=A Minecraft Server\nonline-mode=true\nop-permission-level=4\nplayer-idle-timeout=0\npvp=true\nspawn-animals=true\nspawn-monsters=true\nspawn-npcs=true\nview-distance=10\nwhite-list=false\n";

/// Writes the configuration files of the server in `server_dir`.
#[derive(Clone, Debug)]
pub struct ConfigGenerator {
    server_dir: String,
}

impl View for ConfigGenerator {
    type V = Seq<char>;

    /// The server's directory.
    closed spec fn view(&self) -> Seq<char> {
        self.server_dir@
    }
}

/// The licence agreement file of the server in `server_dir`.
pub open spec fn eula_write(server_dir: Seq<char>) -> FileWriteView {
    FileWriteView {
        path: joined_path(server_dir, "eula.txt"@),
        content: "eula=true"@,
        failure: "Failed to write EULA file: "@ + joined_path(server_dir, "eula.txt"@),
    }
}

/// The environment file of the server in `server_dir`.
pub open spec fn env_write(
    server_dir: Seq<char>,
    java_executable: Seq<char>,
    java_args: Seq<Seq<char>>,
    server_jar: Seq<char>,
) -> FileWriteView {
    FileWriteView {
        path: joined_path(server_dir, "feather.env"@),
        content: "JAVA_EXECUTABLE="@ + java_executable + "\nJAVA_ARGS="@ + joined_text(
            java_args,
            " "@,
        ) + "\nSERVER_JAR="@ + server_jar + "\n"@,
        failure: "Failed to write Feather environment file: "@ + joined_path(
            server_dir,
            "feather.env"@,
        ),
    }
}

/// The properties file of the server in `server_dir`.
pub open spec fn properties_write(server_dir: Seq<char>) -> FileWriteView {
    FileWriteView {
        path: joined_path(server_dir, "server.properties"@),
        content: SERVER_PROPERTIES@,
        failure: "Failed to write server.properties: "@ + joined_path(
            server_dir,
            "server.properties"@,
        ),
    }
}

impl ConfigGenerator {
    /// A generator for the server in `server_dir`.
    pub fn new(server_dir: &str) -> (r: Self)
        ensures
            r@ == server_dir@,
    {
        Self { server_dir: String::from_str(server_dir) }
    }

    /// The licence agreement file, accepted.
    pub fn create_eula_file(&self) -> (r: FileWrite)
        ensures
            r@ == eula_write(self@),
    {
        let eula_path = join_path(self.server_dir.as_str(), "eula.txt");
        let failure = concat2("Failed to write EULA file: ", eula_path.as_str());
        FileWrite { path: eula_path, content: String::from_str("eula=true"), failure }
    }

    /// The environment file: the Java executable, its arguments joined by
    /// spaces, and the server's archive, one `KEY=VALUE` line each.
    pub fn create_feather_env_file(
        &self,
        java_executable: &str,
        java_args: &Vec<String>,
        server_jar: &str,
    ) -> (r: FileWrite)
        ensures
            r@ == env_write(self@, java_executable@, java_args.deep_view(), server_jar@),
    {
        let env_path = join_path(self.server_dir.as_str(), "feather.env");
        let java_args_str = join(java_args, " ");
        let mut content = String::from_str("JAVA_EXECUTABLE=");
        content.append(java_executable);
        content.append("\nJAVA_ARGS=");
        content.append(java_args_str.as_str());
        content.append("\nSERVER_JAR=");
        content.append(server_jar);
        content.append("\n");
        let failure = concat2("Failed to write Feather environment file: ", env_path.as_str());
        FileWrite { path: env_path, content, failure }
    }

    /// The properties file with its initial content, unless one exists
    /// already: an existing file is never overwritten.
    pub fn create_server_properties(&self, exists: bool) -> (r: Option<FileWrite>)
        ensures
            exists ==> r is None,
            !exists ==> r is Some && r->Some_0@ == properties_write(self@),
    {
        if exists {
            return None;
        }
        let properties_path = join_path(self.server_dir.as_str(), "server.properties");
        let failure = concat2("Failed to write server.properties: ", properties_path.as_str());
        Some(
            FileWrite {
                path: properties_path,
                content: String::from_str(SERVER_PROPERTIES),
                failure,
            },
        )
    }
}

} // verus!
