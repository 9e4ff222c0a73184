//! Installation of a Java runtime for the direct installer.

use vstd::prelude::*;
use vstd::string::*;

pub use crate::action::base::install_java::JavaVersion;
use crate::cache::{
    bundle_url, get_java_executable, java_executable_under, CacheManager, CacheOp, CacheOpView,
    FirstEntry, FirstEntryView, LinkPlan, LinkPlanView, LinkProbe, Resolution, ResolutionView,
    RuntimeCacheView, UnpackPlan,
};
use crate::host::HostOs;
use crate::text::{concat2, join_path, joined_path};
use crate::version::GameVersion;

verus! {

/// Why a bundle could not be downloaded.
#[derive(Clone, Debug, PartialEq, Eq)]
pub enum DownloadFailure {
    /// The request could not be made.
    Request,
    /// The server answered with this error status.
    Status(String),
    /// The answer could not be read to its end.
    Body,
}

/// What [`DownloadFailure`] looks like to contracts: the same value with every text as a
/// sequence of characters.
pub enum DownloadFailureView {
    Request,
    Status(Seq<char>),
    Body,
}

impl View for DownloadFailure {
    type V = DownloadFailureView;

    open spec fn view(&self) -> DownloadFailureView {
        match self {
            DownloadFailure::Request => DownloadFailureView::Request,
            DownloadFailure::Status(s) => DownloadFailureView::Status(s@),
            DownloadFailure::Body => DownloadFailureView::Body,
        }
    }
}

/// Installs Java runtimes into the cache directory `cache_dir`.
#[derive(Clone, Debug)]
pub struct JavaInstaller {
    cache_dir: String,
}

impl View for JavaInstaller {
    type V = Seq<char>;

    /// The cache directory.
    closed spec fn view(&self) -> Seq<char> {
        self.cache_dir@
    }
}

/// What the installer says when an operation on the cache fails.
pub open spec fn installer_failure(op: CacheOpView) -> Seq<char> {
    match op {
        CacheOpView::CreateRoot { path } => "Failed to create cache directory: "@ + path,
        CacheOpView::Unpack { into } => "Failed to unpack Java to "@ + into,
        CacheOpView::RemoveLink { path } => "Failed to remove existing symlink: "@ + path,
        CacheOpView::Link { target, link } => "Failed to create symlink from "@ + link + " to "@
            + target,
        CacheOpView::Chown { path, .. } => "Failed to change owner of "@ + path,
    }
}

/// What the installer says when a download from `url` fails.
pub open spec fn installer_download_failure(url: Seq<char>, failure: DownloadFailureView) -> Seq<
    char,
> {
    match failure {
        DownloadFailureView::Request => "Failed to download Java from "@ + url,
        DownloadFailureView::Status(status) => "Failed to download Java: HTTP "@ + status,
        DownloadFailureView::Body => "Failed to read Java download response"@,
    }
}

/// How the installer answers a request for the runtime `java`: from the
/// cache where the channel's entry is live, else by naming the bundle to
/// fetch; a system that the bundle service does not serve is an error.
pub open spec fn installer_resolution(
    cache_dir: Seq<char>,
    java: JavaVersion,
    os_name: Seq<char>,
    arch: Seq<char>,
    link: LinkProbe,
) -> Result<ResolutionView, Seq<char>> {
    let os = HostOs::named(os_name);
    if os == HostOs::Other {
        Err("Unsupported OS: "@ + os_name)
    } else if link == LinkProbe::Live {
        Ok(
            ResolutionView::Cached {
                executable: java_executable_under(joined_path(cache_dir, java.label()), os),
            },
        )
    } else {
        Ok(ResolutionView::Fetch { url: bundle_url(java, os, arch) })
    }
}

/// How the installer makes an unpacked bundle the runtime of its channel:
/// like the cache does, but the entry keeps the owner it is created with. An
/// entry that is live by now is left as it is.
pub open spec fn installer_linking(
    cache_dir: Seq<char>,
    java: JavaVersion,
    os: HostOs,
    content_dir: Seq<char>,
    first: FirstEntryView,
    link: LinkProbe,
) -> Result<LinkPlanView, Seq<char>> {
    let missing = "Could not find JDK directory inside unpacked archive at "@ + content_dir;
    let entry = joined_path(cache_dir, java.label());
    match first {
        FirstEntryView::Unlisted(_) => Err(
            "Failed to read unpacked JDK directory: "@ + content_dir,
        ),
        FirstEntryView::Nothing => Err(missing),
        FirstEntryView::Unknown { path, cause } => Err(
            "Failed to read unpacked JDK directory: "@ + content_dir,
        ),
        FirstEntryView::Entry { path, is_dir } => if !is_dir {
            Err(missing)
        } else {
            let place = seq![CacheOpView::Link { target: path, link: entry }];
            Ok(
                LinkPlanView {
                    ops: if link == LinkProbe::Live {
                        Seq::empty()
                    } else if link == LinkProbe::Absent {
                        place
                    } else {
                        seq![CacheOpView::RemoveLink { path: entry }] + place
                    },
                    executable: java_executable_under(entry, os),
                },
            )
        },
    }
}

impl JavaInstaller {
    /// An installer that works in `cache_dir`.
    pub fn new(cache_dir: &str) -> (r: Self)
        ensures
            r@ == cache_dir@,
    {
        Self { cache_dir: String::from_str(cache_dir) }
    }

    /// The cache directory.
    pub fn cache_dir(&self) -> (r: &String)
        ensures
            r@ == self@,
    {
        &self.cache_dir
    }

    /// Path of the entry that stands for the runtime channel.
    pub fn channel_path(&self, java_version: &JavaVersion) -> (r: String)
        ensures
            r@ == joined_path(self@, java_version.label()),
    {
        join_path(self.cache_dir.as_str(), java_version.to_string().as_str())
    }

    /// The Java runtime that the game version needs.
    pub fn determine_java_version(&self, mc_version: &GameVersion) -> (r: JavaVersion)
        ensures
            r == crate::cache::required_java(mc_version@.kind),
    {
        CacheManager::new(self.cache_dir.as_str()).determine_java_version(mc_version)
    }

    /// Path of the `java` executable of the runtime channel.
    pub fn get_java_executable(&self, java_version: &JavaVersion, os: HostOs) -> (r: String)
        requires
            os != HostOs::Other,
        ensures
            r@ == java_executable_under(joined_path(self@, java_version.label()), os),
    {
        let home = self.channel_path(java_version);
        get_java_executable(home.as_str(), os)
    }

    /// Decides how the runtime is to be had: from the cache or by a fetch.
    pub fn install(&self, java_version: JavaVersion, os_name: &str, arch: &str, link: LinkProbe)
        -> (r: Result<Resolution, String>)
        ensures
            match installer_resolution(self@, java_version, os_name@, arch@, link) {
                Ok(answer) => r is Ok && r->Ok_0@ == answer,
                Err(message) => r is Err && r->Err_0@ == message,
            },
    {
        let os = HostOs::from_name(os_name);
        match os {
            HostOs::Other => {
                return Err(concat2("Unsupported OS: ", os_name));
            },
            _ => {},
        }
        match link {
            LinkProbe::Live => Ok(
                Resolution::Cached { executable: self.get_java_executable(&java_version, os) },
            ),
            _ => Ok(Resolution::Fetch { url: CacheManager::download_url(&java_version, os, arch) }),
        }
    }

    /// What to say when the download from `url` fails.
    pub fn download_failed(url: &str, failure: &DownloadFailure) -> (r: String)
        ensures
            r@ == installer_download_failure(url@, failure@),
    {
        match failure {
            DownloadFailure::Request => concat2("Failed to download Java from ", url),
            DownloadFailure::Status(status) => concat2(
                "Failed to download Java: HTTP ",
                status.as_str(),
            ),
            DownloadFailure::Body => String::from_str("Failed to read Java download response"),
        }
    }

    /// What to say when an operation on the cache fails.
    pub fn operation_failed(op: &CacheOp) -> (r: String)
        ensures
            r@ == installer_failure(op@),
    {
        match op {
            CacheOp::CreateRoot { path } => concat2(
                "Failed to create cache directory: ",
                path.as_str(),
            ),
            CacheOp::Unpack { into } => concat2("Failed to unpack Java to ", into.as_str()),
            CacheOp::RemoveLink { path } => concat2(
                "Failed to remove existing symlink: ",
                path.as_str(),
            ),
            CacheOp::Link { target, link } => {
                let mut m = concat2("Failed to create symlink from ", link.as_str());
                m.append(" to ");
                m.append(target.as_str());
                m
            },
            CacheOp::Chown { path, .. } => concat2("Failed to change owner of ", path.as_str()),
        }
    }

    /// Where the fetched bundle `body` goes and how: the cache directory is
    /// created in any case, then the bundle is unpacked into the directory
    /// named after the hash of its bytes, whatever that hash is.
    pub fn unpack_plan(&self, body: &[u8]) -> (r: UnpackPlan)
        ensures
            exists|hash: u64| r@ == (RuntimeCacheView { root: self@ }).unpacking(hash, false),
    {
        let cache = CacheManager::new(self.cache_dir.as_str());
        let r = cache.unpack_plan(body, false);
        proof {
            let hash = choose|hash: u64| r@ == cache.resolver().unpacking(hash, false);
            assert(r@ == (RuntimeCacheView { root: self@ }).unpacking(hash, false));
        }
        r
    }

    /// How the bundle unpacked into `content_dir` becomes the runtime of its
    /// channel.
    pub fn link_plan(
        &self,
        java_version: &JavaVersion,
        os: HostOs,
        content_dir: &str,
        first: &FirstEntry,
        link: LinkProbe,
    ) -> (r: Result<LinkPlan, String>)
        requires
            os != HostOs::Other,
        ensures
            match installer_linking(self@, *java_version, os, content_dir@, first@, link) {
                Ok(plan) => r is Ok && r->Ok_0@ == plan,
                Err(message) => r is Err && r->Err_0@ == message,
            },
    {
        match first {
            FirstEntry::Unlisted(_) => Err(
                concat2("Failed to read unpacked JDK directory: ", content_dir),
            ),
            FirstEntry::Nothing => Err(
                concat2("Could not find JDK directory inside unpacked archive at ", content_dir),
            ),
            FirstEntry::Unknown { path, cause } => Err(
                concat2("Failed to read unpacked JDK directory: ", content_dir),
            ),
            FirstEntry::Entry { path, is_dir } => {
                if !*is_dir {
                    return Err(
                        concat2(
                            "Could not find JDK directory inside unpacked archive at ",
                            content_dir,
                        ),
                    );
                }
                let entry = self.channel_path(java_version);
                let mut ops: Vec<CacheOp> = Vec::new();
                match link {
                    LinkProbe::Live => {},
                    LinkProbe::Absent => {
                        ops.push(CacheOp::Link { target: path.clone(), link: entry });
                    },
                    _ => {
                        ops.push(CacheOp::RemoveLink { path: entry.clone() });
                        ops.push(CacheOp::Link { target: path.clone(), link: entry });
                    },
                }
                let r = LinkPlan { ops, executable: self.get_java_executable(java_version, os) };
                assert(r@.ops =~= installer_linking(
                    self@,
                    *java_version,
                    os,
                    content_dir@,
                    first@,
                    link,
                )->Ok_0.ops);
                Ok(r)
            },
        }
    }
}

} // verus!
