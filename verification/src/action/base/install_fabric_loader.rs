//! Download of the Fabric server installer into a server's working directory.

use vstd::prelude::*;
use vstd::string::*;

use crate::action::lib::{HostOp, HostOpView};
use crate::action::stateful::{ActionErrorKind, ActionErrorView, ActionState, StatefulAction};
use crate::fabric::{
    installer_jar_path, installer_jar_reference, installer_jar_url, url_joined, InstallerVersion,
    InstallerVersionView, BASE_FABRIC_URL, INSTALLER_FILE,
};
use crate::text::joined_path;
use crate::version::{GameVersion, GameVersionView};

verus! {

/// Downloads the Fabric server installer for `minecraft_version` and
/// `loader_version` into `working_dir`.
#[derive(Clone, Debug)]
pub struct InstallFabricLoaderAction {
    minecraft_version: GameVersion,
    loader_version: GameVersion,
    working_dir: String,
}

/// What [`InstallFabricLoaderAction`] looks like to contracts: the same value with every text as a
/// sequence of characters.
pub struct InstallFabricLoaderView {
    pub minecraft_version: GameVersionView,
    pub loader_version: GameVersionView,
    pub working_dir: Seq<char>,
}

impl View for InstallFabricLoaderAction {
    type V = InstallFabricLoaderView;

    closed spec fn view(&self) -> InstallFabricLoaderView {
        InstallFabricLoaderView {
            minecraft_version: self.minecraft_version@,
            loader_version: self.loader_version@,
            working_dir: self.working_dir@,
        }
    }
}

/// A download that the action asks for: what to fetch and where to write it.
#[derive(Clone, Debug, PartialEq, Eq)]
pub struct Download {
    pub url: String,
    pub target: String,
}

/// What [`Download`] looks like to contracts: the same value with every text as a
/// sequence of characters.
pub struct DownloadView {
    pub url: Seq<char>,
    pub target: Seq<char>,
}

impl View for Download {
    type V = DownloadView;

    open spec fn view(&self) -> DownloadView {
        DownloadView { url: self.url@, target: self.target@ }
    }
}

impl InstallFabricLoaderView {
    /// What is reported when the installer `installer` cannot be had.
    pub open spec fn failure_message(self, installer: Seq<char>) -> Seq<char> {
        "Failed to download Fabric installer for version "@ + installer + " and loader version "@
            + self.loader_version.text
    }

    /// The download of the installer, given the installer versions that the
    /// service lists, newest first.
    ///
    /// The first listed version is taken; an empty list is an error. The
    /// installer is written to its usual file in the working directory. An
    /// address that cannot be formed is a failure of the download.
    pub open spec fn download(self, listed: Seq<InstallerVersionView>) -> Result<
        DownloadView,
        ActionErrorView,
    > {
        if listed.len() == 0 {
            Err(ActionErrorView::Other("No Fabric installer versions found"@))
        } else {
            match url_joined(
                BASE_FABRIC_URL@,
                installer_jar_reference(
                    self.minecraft_version.text,
                    self.loader_version.text,
                    listed[0].version.text,
                ),
            ) {
                Ok(address) => Ok(
                    DownloadView {
                        url: address,
                        target: joined_path(self.working_dir, INSTALLER_FILE@),
                    },
                ),
                Err(_) => Err(
                    ActionErrorView::Transport {
                        url: BASE_FABRIC_URL@,
                        message: self.failure_message(listed[0].version.text),
                    },
                ),
            }
        }
    }
}

impl InstallFabricLoaderAction {
    /// Plans the download. Nothing on the host tells whether the installer is
    /// already there, so the action is always planned as uncompleted.
    pub fn plan(minecraft_version: GameVersion, loader_version: GameVersion, working_dir: String)
        -> (r: Result<StatefulAction<Self>, ActionErrorKind>)
        ensures
            r is Ok,
            r->Ok_0.action()@ == (InstallFabricLoaderView {
                minecraft_version: minecraft_version@,
                loader_version: loader_version@,
                working_dir: working_dir@,
            }),
            r->Ok_0.state() == ActionState::Uncompleted,
    {
        let this = Self { minecraft_version, loader_version, working_dir };
        Ok(StatefulAction::uncompleted(this))
    }

    /// The error of a download of the installer `installer` from `url` that
    /// failed.
    pub fn download_failed(&self, url: &str, installer: &InstallerVersion) -> (r: ActionErrorKind)
        ensures
            r@ == (ActionErrorView::Transport {
                url: url@,
                message: self@.failure_message(installer@.version.text),
            }),
    {
        let mut message = String::from_str("Failed to download Fabric installer for version ");
        message.append(installer.version.text().as_str());
        message.append(" and loader version ");
        message.append(self.loader_version.text().as_str());
        ActionErrorKind::Transport { url: String::from_str(url), message }
    }

    /// The download that executing the action comes to, given the installer
    /// versions that the service lists.
    pub fn execute_download(&self, listed: &Vec<InstallerVersion>) -> (r: Result<
        Download,
        ActionErrorKind,
    >)
        ensures
            match self@.download(listed.deep_view()) {
                Ok(download) => r is Ok && r->Ok_0@ == download,
                Err(e) => r is Err && r->Err_0@ == e,
            },
    {
        if listed.len() == 0 {
            return Err(
                ActionErrorKind::Other(String::from_str("No Fabric installer versions found")),
            );
        }
        let installer = &listed[0];
        match installer_jar_url(installer, &self.minecraft_version, &self.loader_version) {
            Ok(url) => Ok(Download { url, target: installer_jar_path(self.working_dir.as_str()) }),
            Err(_) => Err(self.download_failed(BASE_FABRIC_URL, installer)),
        }
    }

    /// The operations that undo the download: none. Whether a downloaded
    /// installer should be deleted on rollback is undecided, and it is left
    /// in place.
    pub fn revert_steps(&self) -> (r: Vec<HostOp>)
        ensures
            r.deep_view() == Seq::<HostOpView>::empty(),
    {
        let r: Vec<HostOp> = Vec::new();
        r
    }
}

} // verus!
