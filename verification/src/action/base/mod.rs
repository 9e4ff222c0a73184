//! The concrete provisioning steps.

use vstd::prelude::*;

pub mod configure_systemd;
pub mod create_directory;
pub mod create_feather_env;
pub mod create_file;
pub mod create_group;
pub mod create_user;
pub mod install_fabric_loader;
pub mod install_java;
pub mod install_minecraft;
pub mod start_systemd;

use crate::action::base::configure_systemd::{ConfigureSystemdService, ConfigureSystemdServiceView};
use crate::action::base::create_directory::{CreateDirectory, CreateDirectoryView};
use crate::action::base::create_feather_env::{CreateFeatherEnvAction, CreateFeatherEnvView};
use crate::action::base::create_file::{CreateFile, CreateFileView};
use crate::action::base::create_group::{CreateGroup, CreateGroupView};
use crate::action::base::create_user::{CreateUser};
use crate::action::base::install_fabric_loader::{InstallFabricLoaderAction, InstallFabricLoaderView};
use crate::action::base::install_java::{InstallJava, InstallJavaView};
use crate::action::base::start_systemd::{StartSystemd, StartSystemdView};
use crate::action::stateful::{ActionErrorKind, ActionErrorView};
use crate::action::Action;

verus! {

/// What telling whether systemd manages the host needs to know.
#[derive(Clone, Copy, Debug, PartialEq, Eq, Structural)]
pub struct SystemdProbe {
    /// Whether systemd's runtime directory, `/run/systemd/system`, exists.
    pub runtime_dir: bool,
    /// Whether `systemctl` is on the search path.
    pub systemctl: bool,
}

impl SystemdProbe {
    /// systemd is there when its runtime directory exists and its control
    /// command can be found.
    pub open spec fn present(self) -> bool {
        self.runtime_dir && self.systemctl
    }
}

/// Fails unless systemd manages the host.
pub fn check_systemd_exists(probe: SystemdProbe) -> (r: Result<(), ActionErrorKind>)
    ensures
        probe.present() ==> r is Ok,
        !probe.present() ==> r is Err && r->Err_0@ == ActionErrorView::SystemdMissing,
{
    if !probe.runtime_dir {
        return Err(ActionErrorKind::SystemdMissing);
    }
    if !probe.systemctl {
        return Err(ActionErrorKind::SystemdMissing);
    }
    Ok(())
}

/// Any one of the concrete actions: the element type of a plan that mixes
/// them.
#[derive(Clone, Debug)]
pub enum BaseAction {
    ConfigureSystemdService(ConfigureSystemdService),
    CreateDirectory(CreateDirectory),
    CreateFeatherEnv(CreateFeatherEnvAction),
    CreateFile(CreateFile),
    CreateGroup(CreateGroup),
    CreateUser(CreateUser),
    InstallFabricLoader(InstallFabricLoaderAction),
    InstallJava(InstallJava),
    StartSystemd(StartSystemd),
}

/// What [`BaseAction`] looks like to contracts: the same value with every text as a
/// sequence of characters.
pub enum BaseActionView {
    ConfigureSystemdService(ConfigureSystemdServiceView),
    CreateDirectory(CreateDirectoryView),
    CreateFeatherEnv(CreateFeatherEnvView),
    CreateFile(CreateFileView),
    CreateGroup(CreateGroupView),
    CreateUser(Seq<char>),
    InstallFabricLoader(InstallFabricLoaderView),
    InstallJava(InstallJavaView),
    StartSystemd(StartSystemdView),
}

impl View for BaseAction {
    type V = BaseActionView;

    open spec fn view(&self) -> BaseActionView {
        match self {
            BaseAction::ConfigureSystemdService(a) => BaseActionView::ConfigureSystemdService(a@),
            BaseAction::CreateDirectory(a) => BaseActionView::CreateDirectory(a@),
            BaseAction::CreateFeatherEnv(a) => BaseActionView::CreateFeatherEnv(a@),
            BaseAction::CreateFile(a) => BaseActionView::CreateFile(a@),
            BaseAction::CreateGroup(a) => BaseActionView::CreateGroup(a@),
            BaseAction::CreateUser(a) => BaseActionView::CreateUser(a@),
            BaseAction::InstallFabricLoader(a) => BaseActionView::InstallFabricLoader(a@),
            BaseAction::InstallJava(a) => BaseActionView::InstallJava(a@),
            BaseAction::StartSystemd(a) => BaseActionView::StartSystemd(a@),
        }
    }
}

/// An action executes and reverts as the concrete action that it holds.
impl<H> Action<H> for BaseAction where
    ConfigureSystemdService: Action<H>,
    CreateDirectory: Action<H>,
    CreateFeatherEnvAction: Action<H>,
    CreateFile: Action<H>,
    CreateGroup: Action<H>,
    CreateUser: Action<H>,
    InstallFabricLoaderAction: Action<H>,
    InstallJava: Action<H>,
    StartSystemd: Action<H>,
 {
    open spec fn executed(&self, before: H, after: H, r: Result<(), ActionErrorKind>) -> bool {
        match self {
            BaseAction::ConfigureSystemdService(a) => a.executed(before, after, r),
            BaseAction::CreateDirectory(a) => a.executed(before, after, r),
            BaseAction::CreateFeatherEnv(a) => a.executed(before, after, r),
            BaseAction::CreateFile(a) => a.executed(before, after, r),
            BaseAction::CreateGroup(a) => a.executed(before, after, r),
            BaseAction::CreateUser(a) => a.executed(before, after, r),
            BaseAction::InstallFabricLoader(a) => a.executed(before, after, r),
            BaseAction::InstallJava(a) => a.executed(before, after, r),
            BaseAction::StartSystemd(a) => a.executed(before, after, r),
        }
    }

    open spec fn reverted(&self, before: H, after: H, r: Result<(), ActionErrorKind>) -> bool {
        match self {
            BaseAction::ConfigureSystemdService(a) => a.reverted(before, after, r),
            BaseAction::CreateDirectory(a) => a.reverted(before, after, r),
            BaseAction::CreateFeatherEnv(a) => a.reverted(before, after, r),
            BaseAction::CreateFile(a) => a.reverted(before, after, r),
            BaseAction::CreateGroup(a) => a.reverted(before, after, r),
            BaseAction::CreateUser(a) => a.reverted(before, after, r),
            BaseAction::InstallFabricLoader(a) => a.reverted(before, after, r),
            BaseAction::InstallJava(a) => a.reverted(before, after, r),
            BaseAction::StartSystemd(a) => a.reverted(before, after, r),
        }
    }

    fn execute(&self, host: &mut H) -> Result<(), ActionErrorKind> {
        match self {
            BaseAction::ConfigureSystemdService(a) => a.execute(host),
            BaseAction::CreateDirectory(a) => a.execute(host),
            BaseAction::CreateFeatherEnv(a) => a.execute(host),
            BaseAction::CreateFile(a) => a.execute(host),
            BaseAction::CreateGroup(a) => a.execute(host),
            BaseAction::CreateUser(a) => a.execute(host),
            BaseAction::InstallFabricLoader(a) => a.execute(host),
            BaseAction::InstallJava(a) => a.execute(host),
            BaseAction::StartSystemd(a) => a.execute(host),
        }
    }

    fn revert(&self, host: &mut H) -> Result<(), ActionErrorKind> {
        match self {
            BaseAction::ConfigureSystemdService(a) => a.revert(host),
            BaseAction::CreateDirectory(a) => a.revert(host),
            BaseAction::CreateFeatherEnv(a) => a.revert(host),
            BaseAction::CreateFile(a) => a.revert(host),
            BaseAction::CreateGroup(a) => a.revert(host),
            BaseAction::CreateUser(a) => a.revert(host),
            BaseAction::InstallFabricLoader(a) => a.revert(host),
            BaseAction::InstallJava(a) => a.revert(host),
            BaseAction::StartSystemd(a) => a.revert(host),
        }
    }
}

/// The concrete actions, each of which can stand in a mixed plan.
pub trait IntoBaseAction: Sized {
    /// The action as an element of a mixed plan.
    spec fn base(self) -> BaseAction;

    /// Wraps the action for a mixed plan.
    fn into_base(self) -> (r: BaseAction)
        ensures
            r == self.base(),
    ;
}

impl IntoBaseAction for ConfigureSystemdService {
    open spec fn base(self) -> BaseAction {
        BaseAction::ConfigureSystemdService(self)
    }

    fn into_base(self) -> BaseAction {
        BaseAction::ConfigureSystemdService(self)
    }
}

impl IntoBaseAction for CreateDirectory {
    open spec fn base(self) -> BaseAction {
        BaseAction::CreateDirectory(self)
    }

    fn into_base(self) -> BaseAction {
        BaseAction::CreateDirectory(self)
    }
}

impl IntoBaseAction for CreateFeatherEnvAction {
    open spec fn base(self) -> BaseAction {
        BaseAction::CreateFeatherEnv(self)
    }

    fn into_base(self) -> BaseAction {
        BaseAction::CreateFeatherEnv(self)
    }
}

impl IntoBaseAction for CreateFile {
    open spec fn base(self) -> BaseAction {
        BaseAction::CreateFile(self)
    }

    fn into_base(self) -> BaseAction {
        BaseAction::CreateFile(self)
    }
}

impl IntoBaseAction for CreateGroup {
    open spec fn base(self) -> BaseAction {
        BaseAction::CreateGroup(self)
    }

    fn into_base(self) -> BaseAction {
        BaseAction::CreateGroup(self)
    }
}

impl IntoBaseAction for CreateUser {
    open spec fn base(self) -> BaseAction {
        BaseAction::CreateUser(self)
    }

    fn into_base(self) -> BaseAction {
        BaseAction::CreateUser(self)
    }
}

impl IntoBaseAction for InstallFabricLoaderAction {
    open spec fn base(self) -> BaseAction {
        BaseAction::InstallFabricLoader(self)
    }

    fn into_base(self) -> BaseAction {
        BaseAction::InstallFabricLoader(self)
    }
}

impl IntoBaseAction for InstallJava {
    open spec fn base(self) -> BaseAction {
        BaseAction::InstallJava(self)
    }

    fn into_base(self) -> BaseAction {
        BaseAction::InstallJava(self)
    }
}

impl IntoBaseAction for StartSystemd {
    open spec fn base(self) -> BaseAction {
        BaseAction::StartSystemd(self)
    }

    fn into_base(self) -> BaseAction {
        BaseAction::StartSystemd(self)
    }
}

} // verus!
