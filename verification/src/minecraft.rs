//! What the direct installer downloads for a server.

use vstd::prelude::*;
use vstd::string::*;

use crate::java::{DownloadFailure, DownloadFailureView};
use crate::modpack::modrinth::ModrinthFile;
use crate::modpack::{LoaderType, MinecraftProfile, Modpack, ModrinthModpack};
use crate::text::{concat2, join_path, joined_path};

verus! {

/// One download of the direct installer.
#[derive(Clone, Debug, PartialEq, Eq)]
pub struct PackDownload {
    pub url: String,
    /// The file that the answer is written to.
    pub target: String,
    /// Whether an error status of the server ends the installation; where it
    /// does not, the download is skipped with a warning.
    pub required: bool,
}

/// What [`PackDownload`] looks like to contracts: the same value with every text as a
/// sequence of characters.
pub struct PackDownloadView {
    pub url: Seq<char>,
    pub target: Seq<char>,
    pub required: bool,
}

impl View for PackDownload {
    type V = PackDownloadView;

    open spec fn view(&self) -> PackDownloadView {
        PackDownloadView { url: self.url@, target: self.target@, required: self.required }
    }
}

impl DeepView for PackDownload {
    type V = PackDownloadView;

    open spec fn deep_view(&self) -> PackDownloadView {
        self@
    }
}

impl PackDownloadView {
    /// What a failed download comes to: the message that ends the
    /// installation, or nothing where the download is merely skipped, which
    /// is what an error status does to a download that is not required.
    pub open spec fn failure(self, failure: DownloadFailureView) -> Option<Seq<char>> {
        if self.required {
            match failure {
                DownloadFailureView::Request => Some(
                    "Failed to download Fabric server from "@ + self.url,
                ),
                DownloadFailureView::Status(status) => Some(
                    "Failed to download Fabric server: HTTP "@ + status,
                ),
                DownloadFailureView::Body => Some("Failed to read Fabric server response"@),
            }
        } else {
            match failure {
                DownloadFailureView::Request => Some("Failed to download mod from "@ + self.url),
                DownloadFailureView::Status(_) => None,
                DownloadFailureView::Body => Some("Failed to read mod file response"@),
            }
        }
    }

    /// What is said when the downloaded file cannot be written.
    pub open spec fn write_failure(self) -> Seq<char> {
        if self.required {
            "Failed to write server.jar to "@ + self.target
        } else {
            "Failed to write mod file: "@ + self.target
        }
    }
}

impl PackDownload {
    /// Judges a failed download: the message that ends the installation, or
    /// nothing where the download is to be skipped.
    pub fn download_failed(&self, failure: &DownloadFailure) -> (r: Option<String>)
        ensures
            r.deep_view() == self@.failure(failure@),
    {
        if self.required {
            match failure {
                DownloadFailure::Request => Some(
                    concat2("Failed to download Fabric server from ", self.url.as_str()),
                ),
                DownloadFailure::Status(status) => Some(
                    concat2("Failed to download Fabric server: HTTP ", status.as_str()),
                ),
                DownloadFailure::Body => Some(
                    String::from_str("Failed to read Fabric server response"),
                ),
            }
        } else {
            match failure {
                DownloadFailure::Request => Some(
                    concat2("Failed to download mod from ", self.url.as_str()),
                ),
                DownloadFailure::Status(_) => None,
                DownloadFailure::Body => Some(String::from_str("Failed to read mod file response")),
            }
        }
    }

    /// What to say when the downloaded file cannot be written.
    pub fn write_failed(&self) -> (r: String)
        ensures
            r@ == self@.write_failure(),
    {
        if self.required {
            concat2("Failed to write server.jar to ", self.target.as_str())
        } else {
            concat2("Failed to write mod file: ", self.target.as_str())
        }
    }
}

/// Everything the direct installer fetches for one server.
#[derive(Clone, Debug)]
pub struct ServerDownloads {
    /// The server itself.
    pub server: PackDownload,
    /// The directory for the pack's files, to be created first, if the
    /// profile has a pack.
    pub mods_dir: Option<String>,
    /// The pack's files, in the pack's order.
    pub mods: Vec<PackDownload>,
}

/// What [`ServerDownloads`] looks like to contracts: the same value with every text as a
/// sequence of characters.
pub struct ServerDownloadsView {
    pub server: PackDownloadView,
    pub mods_dir: Option<Seq<char>>,
    pub mods: Seq<PackDownloadView>,
}

impl View for ServerDownloads {
    type V = ServerDownloadsView;

    open spec fn view(&self) -> ServerDownloadsView {
        ServerDownloadsView {
            server: self.server@,
            mods_dir: self.mods_dir.deep_view(),
            mods: self.mods.deep_view(),
        }
    }
}

/// Installs a server into `server_dir` without a plan.
#[derive(Clone, Debug)]
pub struct MinecraftInstaller {
    server_dir: String,
}

impl View for MinecraftInstaller {
    type V = Seq<char>;

    /// The server's directory.
    closed spec fn view(&self) -> Seq<char> {
        self.server_dir@
    }
}

/// The address of the Fabric server for a game version and a loader version.
pub open spec fn fabric_server_url(version: Seq<char>, loader_version: Seq<char>) -> Seq<char> {
    "https://meta.fabricmc.net/v2/versions/loader/"@ + version + "/"@ + loader_version
        + "/1.0.1/server/jar"@
}

/// The downloads of the first `upto` files of a pack into `mods_dir`: for
/// each file that names an address, its first address, written to the file's
/// path under `mods_dir`. A file without an address is passed over.
pub open spec fn mod_downloads(mods_dir: Seq<char>, files: Seq<ModrinthFile>, upto: int) -> Seq<
    PackDownloadView,
>
    decreases upto,
{
    if upto <= 0 {
        Seq::empty()
    } else if files[upto - 1].downloads@.len() == 0 {
        mod_downloads(mods_dir, files, upto - 1)
    } else {
        mod_downloads(mods_dir, files, upto - 1).push(
            PackDownloadView {
                url: files[upto - 1].downloads@[0]@,
                target: joined_path(mods_dir, files[upto - 1].path@),
                required: false,
            },
        )
    }
}

/// What is said of a profile without a loader.
pub open spec fn vanilla_unsupported(version: Seq<char>) -> Seq<char> {
    "Vanilla Minecraft server installation is not yet supported. Minecraft version: "@ + version
}

/// Everything that is fetched for the server of `profile` in `server_dir`,
/// or why nothing is.
pub open spec fn server_downloads(server_dir: Seq<char>, profile: MinecraftProfile) -> Result<
    ServerDownloadsView,
    Seq<char>,
> {
    match profile.loader {
        None => Err(vanilla_unsupported(profile.version@.text)),
        Some(loader) => Ok(
            ServerDownloadsView {
                server: PackDownloadView {
                    url: fabric_server_url(profile.version@.text, loader.version@.text),
                    target: joined_path(server_dir, "server.jar"@),
                    required: true,
                },
                mods_dir: match profile.modpack {
                    Some(_) => Some(joined_path(server_dir, "mods"@)),
                    None => None,
                },
                mods: match profile.modpack {
                    Some(Modpack::Modrinth(pack)) => mod_downloads(
                        joined_path(server_dir, "mods"@),
                        pack.files@,
                        pack.files@.len() as int,
                    ),
                    None => Seq::empty(),
                },
            },
        ),
    }
}

impl MinecraftInstaller {
    /// An installer for the server in `server_dir`.
    pub fn new(server_dir: &str) -> (r: Self)
        ensures
            r@ == server_dir@,
    {
        Self { server_dir: String::from_str(server_dir) }
    }

    /// Everything that is to be fetched for the server of `profile`.
    pub fn install(&self, profile: &MinecraftProfile) -> (r: Result<ServerDownloads, String>)
        ensures
            match server_downloads(self@, *profile) {
                Ok(downloads) => r is Ok && r->Ok_0@ == downloads,
                Err(message) => r is Err && r->Err_0@ == message,
            },
    {
        let server = match &profile.loader {
            Some(loader) => match loader.name {
                LoaderType::Fabric => self.install_fabric_loader(
                    profile.version.text().as_str(),
                    loader.version.text().as_str(),
                ),
            },
            None => {
                return Err(
                    concat2(
                        "Vanilla Minecraft server installation is not yet supported. Minecraft version: ",
                        profile.version.text().as_str(),
                    ),
                );
            },
        };
        match &profile.modpack {
            Some(modpack) => {
                let mods_dir = join_path(self.server_dir.as_str(), "mods");
                let mods = self.install_modpack_files(modpack);
                Ok(ServerDownloads { server, mods_dir: Some(mods_dir), mods })
            },
            None => {
                let mods: Vec<PackDownload> = Vec::new();
                assert(mods.deep_view() =~= Seq::<PackDownloadView>::empty());
                Ok(ServerDownloads { server, mods_dir: None, mods })
            },
        }
    }

    /// The download of the Fabric server.
    fn install_fabric_loader(&self, version: &str, loader_version: &str) -> (r: PackDownload)
        ensures
            r@ == (PackDownloadView {
                url: fabric_server_url(version@, loader_version@),
                target: joined_path(self@, "server.jar"@),
                required: true,
            }),
    {
        let mut url = String::from_str("https://meta.fabricmc.net/v2/versions/loader/");
        url.append(version);
        url.append("/");
        url.append(loader_version);
        url.append("/1.0.1/server/jar");
        PackDownload { url, target: join_path(self.server_dir.as_str(), "server.jar"), required: true }
    }

    /// The downloads of a pack's files.
    fn install_modpack_files(&self, modpack: &Modpack) -> (r: Vec<PackDownload>)
        ensures
            match modpack {
                Modpack::Modrinth(pack) => r.deep_view() == mod_downloads(
                    joined_path(self@, "mods"@),
                    pack.files@,
                    pack.files@.len() as int,
                ),
            },
    {
        match modpack {
            Modpack::Modrinth(modrinth_modpack) => self.install_modrinth_modpack(modrinth_modpack),
        }
    }

    /// The downloads of a Modrinth pack's files.
    fn install_modrinth_modpack(&self, modpack: &ModrinthModpack) -> (r: Vec<PackDownload>)
        ensures
            r.deep_view() == mod_downloads(
                joined_path(self@, "mods"@),
                modpack.files@,
                modpack.files@.len() as int,
            ),
    {
        let mods_dir = join_path(self.server_dir.as_str(), "mods");
        let mut r: Vec<PackDownload> = Vec::new();
        let mut i: usize = 0;
        while i < modpack.files.len()
            invariant
                i <= modpack.files.len(),
                mods_dir@ == joined_path(self@, "mods"@),
                r.deep_view() == mod_downloads(mods_dir@, modpack.files@, i as int),
            decreases modpack.files.len() - i,
        {
            let file = &modpack.files[i];
            if file.downloads.len() > 0 {
                let download = PackDownload {
                    url: file.downloads[0].clone(),
                    target: join_path(mods_dir.as_str(), file.path.as_str()),
                    required: false,
                };
                r.push(download);
            }
            i = i + 1;
        }
        r
    }
}

} // verus!
