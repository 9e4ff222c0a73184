//! Plain values exchanged with the host: what a probe of the machine found,
//! what an operation on it reported, and what the library asks to be done to
//! it. The library never touches the machine itself; its callers do, and
//! describe the outcome with these types.

use vstd::prelude::*;

use crate::text::same_text;

verus! {

/// The class of an input/output failure, as far as the library's decisions
/// depend on it.
#[derive(Clone, Copy, Debug, PartialEq, Eq, Structural)]
pub enum IoKind {
    NotFound,
    PermissionDenied,
    AlreadyExists,
    Other,
}

/// A failed input/output operation: its class and the system's description.
#[derive(Debug, PartialEq, Eq)]
pub struct IoFailure {
    pub kind: IoKind,
    pub detail: String,
}

/// What [`IoFailure`] looks like to contracts: the same value with every text as a
/// sequence of characters.
pub struct IoFailureView {
    pub kind: IoKind,
    pub detail: Seq<char>,
}

impl View for IoFailure {
    type V = IoFailureView;

    open spec fn view(&self) -> IoFailureView {
        IoFailureView { kind: self.kind, detail: self.detail@ }
    }
}

impl Clone for IoFailure {
    fn clone(&self) -> (r: Self)
        ensures
            r@ == self@,
    {
        IoFailure { kind: self.kind, detail: self.detail.clone() }
    }
}

/// What a finished subprocess left behind.
#[derive(Debug, PartialEq, Eq)]
pub struct ProcessOutput {
    pub stdout: String,
    pub stderr: String,
    /// Exit code, absent when the process was terminated by a signal.
    pub code: Option<i32>,
    /// Terminating signal, if any.
    pub signal: Option<i32>,
}

/// What [`ProcessOutput`] looks like to contracts: the same value with every text as a
/// sequence of characters.
pub struct ProcessOutputView {
    pub stdout: Seq<char>,
    pub stderr: Seq<char>,
    pub code: Option<i32>,
    pub signal: Option<i32>,
}

impl View for ProcessOutput {
    type V = ProcessOutputView;

    open spec fn view(&self) -> ProcessOutputView {
        ProcessOutputView {
            stdout: self.stdout@,
            stderr: self.stderr@,
            code: self.code,
            signal: self.signal,
        }
    }
}

impl Clone for ProcessOutput {
    fn clone(&self) -> (r: Self)
        ensures
            r@ == self@,
    {
        ProcessOutput {
            stdout: self.stdout.clone(),
            stderr: self.stderr.clone(),
            code: self.code,
            signal: self.signal,
        }
    }
}

impl ProcessOutputView {
    /// A process succeeded when it exited with code zero.
    pub open spec fn succeeded(self) -> bool {
        self.code == Some(0i32)
    }
}

impl ProcessOutput {
    /// Whether the process exited with code zero.
    pub fn success(&self) -> (r: bool)
        ensures
            r == self@.succeeded(),
    {
        match self.code {
            Some(code) => code == 0,
            None => false,
        }
    }
}

/// A subprocess invocation, fully described.
#[derive(Clone, Debug, PartialEq, Eq)]
pub struct CommandLine {
    pub program: String,
    pub args: Vec<String>,
    /// Process group to place the child in, if any.
    pub process_group: Option<i32>,
    /// Whether the child's standard input is closed off.
    pub null_stdin: bool,
}

/// What [`CommandLine`] looks like to contracts: the same value with every text as a
/// sequence of characters.
pub struct CommandLineView {
    pub program: Seq<char>,
    pub args: Seq<Seq<char>>,
    pub process_group: Option<i32>,
    pub null_stdin: bool,
}

impl View for CommandLine {
    type V = CommandLineView;

    open spec fn view(&self) -> CommandLineView {
        CommandLineView {
            program: self.program@,
            args: self.args.deep_view(),
            process_group: self.process_group,
            null_stdin: self.null_stdin,
        }
    }
}

/// The commands that manage users and groups.
#[derive(Clone, Copy, Debug, PartialEq, Eq, Structural)]
pub enum Tool {
    Useradd,
    Adduser,
    Userdel,
    Deluser,
    Groupadd,
    Addgroup,
    Groupdel,
    Delgroup,
}

impl Tool {
    /// The name under which the command is looked for and run.
    pub open spec fn name(self) -> Seq<char> {
        match self {
            Tool::Useradd => "useradd"@,
            Tool::Adduser => "adduser"@,
            Tool::Userdel => "userdel"@,
            Tool::Deluser => "deluser"@,
            Tool::Groupadd => "groupadd"@,
            Tool::Addgroup => "addgroup"@,
            Tool::Groupdel => "groupdel"@,
            Tool::Delgroup => "delgroup"@,
        }
    }

    /// The name under which the command is looked for and run.
    pub fn command(self) -> (r: &'static str)
        ensures
            r@ == self.name(),
    {
        match self {
            Tool::Useradd => "useradd",
            Tool::Adduser => "adduser",
            Tool::Userdel => "userdel",
            Tool::Deluser => "deluser",
            Tool::Groupadd => "groupadd",
            Tool::Addgroup => "addgroup",
            Tool::Groupdel => "groupdel",
            Tool::Delgroup => "delgroup",
        }
    }
}

/// Which of the commands are on the search path. The search path is looked
/// at once, when a setup is planned, and what was found holds for the run.
#[derive(Clone, Copy, Debug, PartialEq, Eq, Structural)]
pub struct Tools {
    pub useradd: bool,
    pub adduser: bool,
    pub userdel: bool,
    pub deluser: bool,
    pub groupadd: bool,
    pub addgroup: bool,
    pub groupdel: bool,
    pub delgroup: bool,
}

impl Tools {
    /// Whether `tool` is on the search path.
    pub open spec fn has(self, tool: Tool) -> bool {
        match tool {
            Tool::Useradd => self.useradd,
            Tool::Adduser => self.adduser,
            Tool::Userdel => self.userdel,
            Tool::Deluser => self.deluser,
            Tool::Groupadd => self.groupadd,
            Tool::Addgroup => self.addgroup,
            Tool::Groupdel => self.groupdel,
            Tool::Delgroup => self.delgroup,
        }
    }

    /// Whether `tool` is on the search path.
    pub fn found(&self, tool: Tool) -> (r: bool)
        ensures
            r == self.has(tool),
    {
        match tool {
            Tool::Useradd => self.useradd,
            Tool::Adduser => self.adduser,
            Tool::Userdel => self.userdel,
            Tool::Deluser => self.deluser,
            Tool::Groupadd => self.groupadd,
            Tool::Addgroup => self.addgroup,
            Tool::Groupdel => self.groupdel,
            Tool::Delgroup => self.delgroup,
        }
    }
}

/// An entry of the user database.
#[derive(Clone, Copy, Debug, PartialEq, Eq, Structural)]
pub struct UserEntry {
    pub uid: u32,
    pub gid: u32,
}

/// An entry of the group database.
#[derive(Clone, Copy, Debug, PartialEq, Eq, Structural)]
pub struct GroupEntry {
    pub gid: u32,
}

/// Outcome of looking a user up by name: the entry, its absence, or the error
/// number of a failed query.
#[derive(Clone, Copy, Debug, PartialEq, Eq, Structural)]
pub enum UserLookup {
    Found(UserEntry),
    Absent,
    Failed(i32),
}

/// Outcome of looking a group up by name.
#[derive(Clone, Copy, Debug, PartialEq, Eq, Structural)]
pub enum GroupLookup {
    Found(GroupEntry),
    Absent,
    Failed(i32),
}

/// Metadata of an existing path.
#[derive(Clone, Copy, Debug, PartialEq, Eq, Structural)]
pub struct PathMetadata {
    pub is_dir: bool,
    pub uid: u32,
    pub gid: u32,
}

/// What a read-only look at a path found.
#[derive(Clone, Debug, PartialEq, Eq)]
pub enum PathProbe {
    /// Nothing exists at the path.
    Missing,
    /// Something exists and its metadata could be read.
    Present(PathMetadata),
    /// Something exists but its metadata could not be read.
    Unreadable(IoFailure),
}

/// What [`PathProbe`] looks like to contracts: the same value with every text as a
/// sequence of characters.
pub enum PathProbeView {
    Missing,
    Present(PathMetadata),
    Unreadable(IoFailureView),
}

impl View for PathProbe {
    type V = PathProbeView;

    open spec fn view(&self) -> PathProbeView {
        match self {
            PathProbe::Missing => PathProbeView::Missing,
            PathProbe::Present(m) => PathProbeView::Present(*m),
            PathProbe::Unreadable(e) => PathProbeView::Unreadable(e@),
        }
    }
}

/// What a read-only look at a text file found.
#[derive(Clone, Debug, PartialEq, Eq)]
pub enum FileProbe {
    /// Nothing exists at the path.
    Missing,
    /// The file exists and this is its content.
    Content(String),
    /// Something exists at the path but could not be read as text.
    Unreadable(IoFailure),
}

/// What [`FileProbe`] looks like to contracts: the same value with every text as a
/// sequence of characters.
pub enum FileProbeView {
    Missing,
    Content(Seq<char>),
    Unreadable(IoFailureView),
}

impl View for FileProbe {
    type V = FileProbeView;

    open spec fn view(&self) -> FileProbeView {
        match self {
            FileProbe::Missing => FileProbeView::Missing,
            FileProbe::Content(c) => FileProbeView::Content(c@),
            FileProbe::Unreadable(e) => FileProbeView::Unreadable(e@),
        }
    }
}

/// The operating system families the library distinguishes.
#[derive(Clone, Copy, Debug, PartialEq, Eq, Structural)]
pub enum HostOs {
    Linux,
    MacOs,
    /// Any other system.
    Other,
}

impl HostOs {
    /// The family that a system name, as the platform reports it, stands for.
    pub open spec fn named(name: Seq<char>) -> HostOs {
        if name == "linux"@ {
            HostOs::Linux
        } else if name == "macos"@ {
            HostOs::MacOs
        } else {
            HostOs::Other
        }
    }

    /// The family that a system name, as the platform reports it, stands for.
    pub fn from_name(name: &str) -> (r: HostOs)
        ensures
            r == HostOs::named(name@),
    {
        if same_text(name, "linux") {
            HostOs::Linux
        } else if same_text(name, "macos") {
            HostOs::MacOs
        } else {
            HostOs::Other
        }
    }
}

} // verus!
