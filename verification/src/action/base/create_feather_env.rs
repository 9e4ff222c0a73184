//! Creation of the environment file that tells the service unit how to start
//! a server.

use vstd::prelude::*;
use vstd::string::*;

use crate::action::lib::{HostOp, HostOpView, OnMissing};
use crate::action::stateful::{ActionErrorKind, ActionErrorView, ActionState, StatefulAction};
use crate::host::{IoFailure, IoFailureView};
use crate::text::{join_path, joined_path};

verus! {

/// Writes `feather.env` into `working_dir`: the Java executable, its
/// arguments and the server's archive, one `KEY=VALUE` line each.
#[derive(Clone, Debug)]
pub struct CreateFeatherEnvAction {
    working_dir: String,
    java_bin: String,
    java_args: String,
    minecraft_jar: String,
}

/// What [`CreateFeatherEnvAction`] looks like to contracts: the same value with every text as a
/// sequence of characters.
pub struct CreateFeatherEnvView {
    pub working_dir: Seq<char>,
    pub java_bin: Seq<char>,
    pub java_args: Seq<char>,
    pub minecraft_jar: Seq<char>,
}

impl View for CreateFeatherEnvAction {
    type V = CreateFeatherEnvView;

    closed spec fn view(&self) -> CreateFeatherEnvView {
        CreateFeatherEnvView {
            working_dir: self.working_dir@,
            java_bin: self.java_bin@,
            java_args: self.java_args@,
            minecraft_jar: self.minecraft_jar@,
        }
    }
}

/// What a look at the environment file found.
#[derive(Clone, Debug)]
pub enum EnvFileProbe {
    /// Whether the file exists could not be told.
    Undetermined(IoFailure),
    /// There is no such file.
    Missing,
    /// The file exists and this is its content.
    Content(String),
    /// The file exists but could not be read.
    Unreadable(IoFailure),
}

/// What [`EnvFileProbe`] looks like to contracts: the same value with every text as a
/// sequence of characters.
pub enum EnvFileProbeView {
    Undetermined(IoFailureView),
    Missing,
    Content(Seq<char>),
    Unreadable(IoFailureView),
}

impl View for EnvFileProbe {
    type V = EnvFileProbeView;

    open spec fn view(&self) -> EnvFileProbeView {
        match self {
            EnvFileProbe::Undetermined(e) => EnvFileProbeView::Undetermined(e@),
            EnvFileProbe::Missing => EnvFileProbeView::Missing,
            EnvFileProbe::Content(c) => EnvFileProbeView::Content(c@),
            EnvFileProbe::Unreadable(e) => EnvFileProbeView::Unreadable(e@),
        }
    }
}

impl CreateFeatherEnvView {
    /// The content of the environment file.
    pub open spec fn content(self) -> Seq<char> {
        "JAVA_BIN="@ + self.java_bin + "\nJAVA_ARGS="@ + self.java_args + "\nMINECRAFT_JAR="@
            + self.minecraft_jar + "\n"@
    }

    /// The path of the environment file.
    pub open spec fn path(self) -> Seq<char> {
        joined_path(self.working_dir, "feather.env"@)
    }

    /// What planning the environment file comes to where a look at it gave
    /// `probe`.
    ///
    /// A file that is not there, or cannot be read, is to be written. A file
    /// with the planned content leaves nothing to do. A file with other
    /// content is a conflict and an error.
    pub open spec fn plan(self, probe: EnvFileProbeView) -> Result<ActionState, ActionErrorView> {
        match probe {
            EnvFileProbeView::Undetermined(e) => Err(ActionErrorView::Read(self.path(), e)),
            EnvFileProbeView::Missing => Ok(ActionState::Uncompleted),
            EnvFileProbeView::Unreadable(_) => Ok(ActionState::Uncompleted),
            EnvFileProbeView::Content(found) => if found == self.content() {
                Ok(ActionState::Completed)
            } else {
                Err(ActionErrorView::DifferentContent(self.path()))
            },
        }
    }

    /// The operations that write the environment file.
    pub open spec fn creation(self) -> Seq<HostOpView> {
        seq![
            HostOpView::WriteFile {
                path: self.path(),
                content: self.content(),
                sync: false,
            },
        ]
    }

    /// The operations that remove the environment file, not minding if it is
    /// gone.
    pub open spec fn removal(self) -> Seq<HostOpView> {
        seq![
            HostOpView::RemoveFile {
                path: self.path(),
                on_missing: OnMissing::Ignore,
            },
        ]
    }
}

impl CreateFeatherEnvAction {
    /// Plans the environment file of the server in `working_dir`.
    pub fn plan(
        working_dir: String,
        java_bin: String,
        java_args: String,
        minecraft_jar: String,
        probe: &EnvFileProbe,
    ) -> (r: Result<StatefulAction<Self>, ActionErrorKind>)
        ensures
            ({
                let env = CreateFeatherEnvView {
                    working_dir: working_dir@,
                    java_bin: java_bin@,
                    java_args: java_args@,
                    minecraft_jar: minecraft_jar@,
                };
                match env.plan(probe@) {
                    Ok(state) => r is Ok && r->Ok_0.action()@ == env && r->Ok_0.state() == state,
                    Err(e) => r is Err && r->Err_0@ == e,
                }
            }),
    {
        let this = Self { working_dir, java_bin, java_args, minecraft_jar };
        match probe {
            EnvFileProbe::Undetermined(e) => Err(
                ActionErrorKind::Read(this.env_file_path(), e.clone()),
            ),
            EnvFileProbe::Missing => Ok(StatefulAction::uncompleted(this)),
            EnvFileProbe::Unreadable(_) => Ok(StatefulAction::uncompleted(this)),
            EnvFileProbe::Content(found) => {
                let expected = this.generate_content();
                if *found == expected {
                    Ok(StatefulAction::completed(this))
                } else {
                    Err(ActionErrorKind::DifferentContent(this.env_file_path()))
                }
            },
        }
    }

    /// The content of the environment file.
    pub fn generate_content(&self) -> (r: String)
        ensures
            r@ == self@.content(),
    {
        let mut r = String::from_str("JAVA_BIN=");
        r.append(self.java_bin.as_str());
        r.append("\nJAVA_ARGS=");
        r.append(self.java_args.as_str());
        r.append("\nMINECRAFT_JAR=");
        r.append(self.minecraft_jar.as_str());
        r.append("\n");
        r
    }

    /// The path of the environment file.
    pub fn env_file_path(&self) -> (r: String)
        ensures
            r@ == self@.path(),
    {
        join_path(self.working_dir.as_str(), "feather.env")
    }

    /// The operations that write the environment file.
    pub fn execute_steps(&self) -> (r: Vec<HostOp>)
        ensures
            r.deep_view() == self@.creation(),
    {
        let mut r: Vec<HostOp> = Vec::new();
        r.push(
            HostOp::WriteFile {
                path: self.env_file_path(),
                content: self.generate_content(),
                sync: false,
            },
        );
        r
    }

    /// The operations that remove the environment file again.
    pub fn revert_steps(&self) -> (r: Vec<HostOp>)
        ensures
            r.deep_view() == self@.removal(),
    {
        let mut r: Vec<HostOp> = Vec::new();
        r.push(
            HostOp::RemoveFile {
                path: self.env_file_path(),
                on_missing: OnMissing::Ignore,
            },
        );
        r
    }
}

} // verus!
