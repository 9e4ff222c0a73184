//! Where cached Java runtimes live and which one a game version needs.

use vstd::prelude::*;
use vstd::string::*;

use crate::action::base::install_java::JavaVersion;
use crate::action::lib::HostOpView;
use crate::action::stateful::{ActionErrorKind, ActionErrorView};
use crate::host::{HostOs, IoFailure, IoFailureView};
use crate::text::{concat2, hex_string, hex_text, join_path, joined_path};
use crate::version::{GameVersion, VersionKind};

verus! {

/// The Java runtime that a game version of the given shape needs.
///
/// Of the semantic versions with major number 1, those with minor number 20
/// or more and patch number 5 or more need Java 21, the others from minor
/// number 17 on need Java 17, and those before need Java 8. Every other
/// version is given Java 17.
pub open spec fn required_java(kind: VersionKind) -> JavaVersion {
    match kind {
        VersionKind::Ideal { major, minor, patch } => {
            if major == 1 && minor >= 20 && patch >= 5 {
                JavaVersion::Java21
            } else if major == 1 && minor >= 17 {
                JavaVersion::Java17
            } else if major == 1 && minor < 17 {
                JavaVersion::Java8
            } else {
                JavaVersion::Java17
            }
        },
        _ => JavaVersion::Java17,
    }
}

/// Path of the `java` executable of the runtime installed under `home`, by the
/// layout that the system's bundles have.
pub open spec fn java_executable_under(home: Seq<char>, os: HostOs) -> Seq<char> {
    if os == HostOs::MacOs {
        joined_path(
            joined_path(joined_path(joined_path(home, "Contents"@), "Home"@), "bin"@),
            "java"@,
        )
    } else {
        joined_path(joined_path(home, "bin"@), "java"@)
    }
}

/// Path of the `java` executable of the runtime installed under `home`.
pub fn get_java_executable(java_symlink_path: &str, os: HostOs) -> (r: String)
    requires
        os != HostOs::Other,
    ensures
        r@ == java_executable_under(java_symlink_path@, os),
{
    match os {
        HostOs::MacOs => {
            let contents = join_path(java_symlink_path, "Contents");
            let inner = join_path(contents.as_str(), "Home");
            let bin = join_path(inner.as_str(), "bin");
            join_path(bin.as_str(), "java")
        },
        _ => {
            let bin = join_path(java_symlink_path, "bin");
            join_path(bin.as_str(), "java")
        },
    }
}

/// The directory under which Java runtimes are cached: one entry per runtime
/// channel, named after the channel, and one per downloaded bundle, named
/// after its content.
#[derive(Debug)]
pub struct CacheManager {
    pub(crate) cache_root: String,
}

impl View for CacheManager {
    type V = Seq<char>;

    /// The cache root.
    closed spec fn view(&self) -> Seq<char> {
        self.cache_root@
    }
}

impl Clone for CacheManager {
    fn clone(&self) -> (r: Self)
        ensures
            r@ == self@,
    {
        CacheManager { cache_root: self.cache_root.clone() }
    }
}

impl CacheManager {
    /// The cache at `cache_root`.
    pub fn new(cache_root: &str) -> (r: Self)
        ensures
            r@ == cache_root@,
    {
        Self { cache_root: String::from_str(cache_root) }
    }

    /// The cache root.
    pub fn root(&self) -> (r: &String)
        ensures
            r@ == self@,
    {
        &self.cache_root
    }

    /// The Java runtime that the game version needs.
    pub fn determine_java_version(&self, mc_version: &GameVersion) -> (r: JavaVersion)
        ensures
            r == required_java(mc_version@.kind),
    {
        match mc_version.kind() {
            VersionKind::Ideal { major, minor, patch } => {
                if major == 1 && minor >= 20 && patch >= 5 {
                    JavaVersion::Java21
                } else if major == 1 && minor >= 17 {
                    JavaVersion::Java17
                } else if major == 1 && minor < 17 {
                    JavaVersion::Java8
                } else {
                    JavaVersion::Java17
                }
            },
            _ => JavaVersion::Java17,
        }
    }

    /// Path of the entry that stands for the runtime channel: the cache root
    /// with the channel's name under it.
    pub fn channel_path(&self, java_version: &JavaVersion) -> (r: String)
        ensures
            r@ == joined_path(self@, java_version.label()),
    {
        join_path(self.cache_root.as_str(), java_version.to_string().as_str())
    }

    /// Path of the `java` executable of the runtime channel, reached through
    /// the channel's entry.
    pub fn get_java_executable(&self, java_version: &JavaVersion, os: HostOs) -> (r: String)
        requires
            os != HostOs::Other,
        ensures
            r@ == java_executable_under(joined_path(self@, java_version.label()), os),
    {
        let home = self.channel_path(java_version);
        get_java_executable(home.as_str(), os)
    }

    /// The cache as a resolver of runtime requests.
    pub open spec fn resolver(&self) -> RuntimeCacheView {
        RuntimeCacheView { root: self@ }
    }

    /// The address of the newest bundle of a runtime.
    pub fn download_url(java_version: &JavaVersion, os: HostOs, arch: &str) -> (r: String)
        ensures
            r@ == bundle_url(*java_version, os, arch@),
    {
        let mut r = String::from_str("https://api.adoptium.net/v3/binary/latest/");
        r.append(java_version.to_string().as_str());
        r.append("/ga/");
        match os {
            HostOs::MacOs => {
                r.append("mac");
            },
            _ => {
                r.append("linux");
            },
        }
        r.append("/");
        r.append(arch);
        r.append("/jdk/hotspot/normal/eclipse");
        r
    }

    /// Answers a request for a runtime: from the cache if the channel's entry
    /// is live, else by naming the bundle to fetch.
    pub fn resolve(&self, java_version: &JavaVersion, os_name: &str, arch: &str, link: LinkProbe)
        -> (r: Result<Resolution, ActionErrorKind>)
        ensures
            match self.resolver().resolution(*java_version, os_name@, arch@, link) {
                Ok(answer) => r is Ok && r->Ok_0@ == answer,
                Err(e) => r is Err && r->Err_0@ == e,
            },
    {
        let os = HostOs::from_name(os_name);
        match os {
            HostOs::Other => {
                return Err(ActionErrorKind::JavaInstall(concat2("Unsupported OS: ", os_name)));
            },
            _ => {},
        }
        match link {
            LinkProbe::Live => Ok(
                Resolution::Cached { executable: self.get_java_executable(java_version, os) },
            ),
            _ => Ok(Resolution::Fetch { url: Self::download_url(java_version, os, arch) }),
        }
    }

    /// The error of a fetch that failed.
    pub fn download_failed(url: &str, failure: &FetchFailure) -> (r: ActionErrorKind)
        ensures
            r@ == RuntimeCacheView::fetch_error(url@, failure@),
    {
        match failure {
            FetchFailure::Request(detail) => ActionErrorKind::Transport {
                url: String::from_str(url),
                message: concat2("Java installation failed: ", detail.as_str()),
            },
            FetchFailure::Status => ActionErrorKind::Transport {
                url: String::from_str(url),
                message: concat2(
                    "Java installation failed: Failed to download Java installer from ",
                    url,
                ),
            },
        }
    }

    /// The directory of the bundle whose content has the hash `hash`.
    pub fn content_dir(&self, hash: u64) -> (r: String)
        ensures
            r@ == self.resolver().content_dir(hash),
    {
        join_path(self.cache_root.as_str(), hex_string(hash).as_str())
    }

    /// Where the bundle with the content hash `hash` goes and how.
    pub fn unpack_plan_for(&self, hash: u64, root_exists: bool) -> (r: UnpackPlan)
        ensures
            r@ == self.resolver().unpacking(hash, root_exists),
    {
        let mut ops: Vec<CacheOp> = Vec::new();
        if !root_exists {
            ops.push(CacheOp::CreateRoot { path: self.cache_root.clone() });
        }
        ops.push(CacheOp::Unpack { into: self.content_dir(hash) });
        let r = UnpackPlan { content_dir: self.content_dir(hash), ops };
        assert(r@.ops =~= self.resolver().unpacking(hash, root_exists).ops);
        r
    }

    /// Where the fetched bundle `body` goes and how: into the directory named
    /// after the hash of its bytes, whatever that hash is.
    pub fn unpack_plan(&self, body: &[u8], root_exists: bool) -> (r: UnpackPlan)
        ensures
            exists|hash: u64| r@ == self.resolver().unpacking(hash, root_exists),
    {
        let hash = crate::fingerprint::of_bytes(body);
        self.unpack_plan_for(hash, root_exists)
    }

    /// How the bundle unpacked into `content_dir` becomes the runtime of its
    /// channel.
    pub fn link_plan(
        &self,
        java_version: &JavaVersion,
        os: HostOs,
        content_dir: &str,
        first: &FirstEntry,
        link: LinkProbe,
    ) -> (r: Result<LinkPlan, ActionErrorKind>)
        requires
            os != HostOs::Other,
        ensures
            match self.resolver().linking(*java_version, os, content_dir@, first@, link) {
                Ok(plan) => r is Ok && r->Ok_0@ == plan,
                Err(e) => r is Err && r->Err_0@ == e,
            },
    {
        match first {
            FirstEntry::Unlisted(cause) => Err(
                ActionErrorKind::Read(String::from_str(content_dir), cause.clone()),
            ),
            FirstEntry::Nothing => Err(
                ActionErrorKind::JavaInstall(
                    concat2(
                        "Could not find the JDK directory inside the unpacked archive at ",
                        content_dir,
                    ),
                ),
            ),
            FirstEntry::Unknown { path, cause } => Err(
                ActionErrorKind::Read(path.clone(), cause.clone()),
            ),
            FirstEntry::Entry { path, is_dir } => {
                if !*is_dir {
                    return Err(
                        ActionErrorKind::JavaInstall(
                            concat2(
                                "Could not find the JDK directory inside the unpacked archive at ",
                                content_dir,
                            ),
                        ),
                    );
                }
                let mut ops: Vec<CacheOp> = Vec::new();
                match link {
                    LinkProbe::Live => {},
                    _ => {
                        match link {
                            LinkProbe::Absent => {},
                            _ => {
                                ops.push(
                                    CacheOp::RemoveLink { path: self.channel_path(java_version) },
                                );
                            },
                        }
                        ops.push(
                            CacheOp::Link {
                                target: path.clone(),
                                link: self.channel_path(java_version),
                            },
                        );
                        ops.push(
                            CacheOp::Chown {
                                path: self.channel_path(java_version),
                                uid: CACHE_OWNER,
                                gid: CACHE_OWNER,
                            },
                        );
                    },
                }
                let r = LinkPlan { ops, executable: self.get_java_executable(java_version, os) };
                assert(r@.ops =~= self.resolver().linking(
                    *java_version,
                    os,
                    content_dir@,
                    first@,
                    link,
                )->Ok_0.ops);
                Ok(r)
            },
        }
    }
}

/// What a look at a channel's entry in the cache found.
#[derive(Clone, Copy, Debug, PartialEq, Eq, Structural)]
pub enum LinkProbe {
    /// Nothing is at the entry's path.
    Absent,
    /// Something is there that is no symbolic link.
    Occupied,
    /// A symbolic link is there whose target is gone or cannot be read.
    Dangling,
    /// A symbolic link is there and its target exists.
    Live,
}

impl LinkProbe {
    /// What stands at an entry, told from three observations: whether the
    /// entry is a symbolic link, whether the link's target can be read and
    /// exists, and whether anything at all exists at the entry's path.
    pub open spec fn told(is_symlink: bool, target_exists: bool, exists: bool) -> LinkProbe {
        if is_symlink {
            if target_exists {
                LinkProbe::Live
            } else {
                LinkProbe::Dangling
            }
        } else if exists {
            LinkProbe::Occupied
        } else {
            LinkProbe::Absent
        }
    }

    /// Tells what stands at an entry from what was observed of it.
    pub fn classify(is_symlink: bool, target_exists: bool, exists: bool) -> (r: LinkProbe)
        ensures
            r == LinkProbe::told(is_symlink, target_exists, exists),
    {
        if is_symlink {
            if target_exists {
                LinkProbe::Live
            } else {
                LinkProbe::Dangling
            }
        } else if exists {
            LinkProbe::Occupied
        } else {
            LinkProbe::Absent
        }
    }
}

/// How a request for a runtime is answered.
#[derive(Clone, Debug, PartialEq, Eq)]
pub enum Resolution {
    /// The runtime is installed; this is its `java` executable. Nothing is
    /// to be fetched.
    Cached { executable: String },
    /// The runtime's bundle is to be fetched from this address and installed.
    Fetch { url: String },
}

/// What [`Resolution`] looks like to contracts: the same value with every text as a
/// sequence of characters.
pub enum ResolutionView {
    Cached { executable: Seq<char> },
    Fetch { url: Seq<char> },
}

impl View for Resolution {
    type V = ResolutionView;

    open spec fn view(&self) -> ResolutionView {
        match self {
            Resolution::Cached { executable } => ResolutionView::Cached { executable: executable@ },
            Resolution::Fetch { url } => ResolutionView::Fetch { url: url@ },
        }
    }
}

/// Why a bundle could not be fetched.
#[derive(Clone, Debug, PartialEq, Eq)]
pub enum FetchFailure {
    /// The request could not be made or its answer could not be read; the
    /// text describes why.
    Request(String),
    /// The server answered with an error status.
    Status,
}

/// What [`FetchFailure`] looks like to contracts: the same value with every text as a
/// sequence of characters.
pub enum FetchFailureView {
    Request(Seq<char>),
    Status,
}

impl View for FetchFailure {
    type V = FetchFailureView;

    open spec fn view(&self) -> FetchFailureView {
        match self {
            FetchFailure::Request(m) => FetchFailureView::Request(m@),
            FetchFailure::Status => FetchFailureView::Status,
        }
    }
}

/// One operation on the cache directory.
#[derive(Clone, Debug, PartialEq, Eq)]
pub enum CacheOp {
    /// Create the cache root and every missing parent.
    CreateRoot { path: String },
    /// Unpack the fetched bundle into the directory.
    Unpack { into: String },
    /// Remove whatever stands at the channel's entry.
    RemoveLink { path: String },
    /// Make the channel's entry a symbolic link to `target`.
    Link { target: String, link: String },
    /// Set the numeric owner and group of the path.
    Chown { path: String, uid: u32, gid: u32 },
}

/// What [`CacheOp`] looks like to contracts: the same value with every text as a
/// sequence of characters.
pub enum CacheOpView {
    CreateRoot { path: Seq<char> },
    Unpack { into: Seq<char> },
    RemoveLink { path: Seq<char> },
    Link { target: Seq<char>, link: Seq<char> },
    Chown { path: Seq<char>, uid: u32, gid: u32 },
}

impl View for CacheOp {
    type V = CacheOpView;

    open spec fn view(&self) -> CacheOpView {
        match self {
            CacheOp::CreateRoot { path } => CacheOpView::CreateRoot { path: path@ },
            CacheOp::Unpack { into } => CacheOpView::Unpack { into: into@ },
            CacheOp::RemoveLink { path } => CacheOpView::RemoveLink { path: path@ },
            CacheOp::Link { target, link } => CacheOpView::Link { target: target@, link: link@ },
            CacheOp::Chown { path, uid, gid } => CacheOpView::Chown {
                path: path@,
                uid: *uid,
                gid: *gid,
            },
        }
    }
}

impl DeepView for CacheOp {
    type V = CacheOpView;

    open spec fn deep_view(&self) -> CacheOpView {
        self@
    }
}

impl CacheOpView {
    /// The path that the operation writes to or removes.
    pub open spec fn path(self) -> Seq<char> {
        match self {
            CacheOpView::CreateRoot { path } => path,
            CacheOpView::Unpack { into } => into,
            CacheOpView::RemoveLink { path } => path,
            CacheOpView::Link { target, link } => link,
            CacheOpView::Chown { path, .. } => path,
        }
    }

    /// The error of an installation that stopped at this operation for the
    /// reason `cause`: a failure to remove the operation's path where the
    /// operation removes, and a failure to write it otherwise.
    pub open spec fn failure(self, cause: IoFailureView) -> ActionErrorView {
        match self {
            CacheOpView::RemoveLink { path } => ActionErrorView::Remove(path, cause),
            _ => ActionErrorView::Write(self.path(), cause),
        }
    }
}

impl CacheOp {
    /// The error of an installation that stopped at this operation.
    pub fn failure(&self, cause: IoFailure) -> (r: ActionErrorKind)
        ensures
            r@ == self@.failure(cause@),
    {
        match self {
            CacheOp::CreateRoot { path } => ActionErrorKind::Write(path.clone(), cause),
            CacheOp::Unpack { into } => ActionErrorKind::Write(into.clone(), cause),
            CacheOp::RemoveLink { path } => ActionErrorKind::Remove(path.clone(), cause),
            CacheOp::Link { target, link } => ActionErrorKind::Write(link.clone(), cause),
            CacheOp::Chown { path, .. } => ActionErrorKind::Write(path.clone(), cause),
        }
    }
}

/// What a look at the first entry of a freshly unpacked directory found.
#[derive(Clone, Debug, PartialEq, Eq)]
pub enum FirstEntry {
    /// The directory could not be listed.
    Unlisted(IoFailure),
    /// The directory is empty, or its first entry could not be read.
    Nothing,
    /// The first entry is at `path`; its kind could not be told.
    Unknown { path: String, cause: IoFailure },
    /// The first entry is at `path` and is a directory or not.
    Entry { path: String, is_dir: bool },
}

/// What [`FirstEntry`] looks like to contracts: the same value with every text as a
/// sequence of characters.
pub enum FirstEntryView {
    Unlisted(IoFailureView),
    Nothing,
    Unknown { path: Seq<char>, cause: IoFailureView },
    Entry { path: Seq<char>, is_dir: bool },
}

impl View for FirstEntry {
    type V = FirstEntryView;

    open spec fn view(&self) -> FirstEntryView {
        match self {
            FirstEntry::Unlisted(e) => FirstEntryView::Unlisted(e@),
            FirstEntry::Nothing => FirstEntryView::Nothing,
            FirstEntry::Unknown { path, cause } => FirstEntryView::Unknown {
                path: path@,
                cause: cause@,
            },
            FirstEntry::Entry { path, is_dir } => FirstEntryView::Entry {
                path: path@,
                is_dir: *is_dir,
            },
        }
    }
}

/// Where a fetched bundle goes and what is to be done to put it there.
#[derive(Clone, Debug)]
pub struct UnpackPlan {
    /// The directory named after the bundle's content.
    pub content_dir: String,
    /// The operations, in order.
    pub ops: Vec<CacheOp>,
}

/// What [`UnpackPlan`] looks like to contracts: the same value with every text as a
/// sequence of characters.
pub struct UnpackPlanView {
    pub content_dir: Seq<char>,
    pub ops: Seq<CacheOpView>,
}

impl View for UnpackPlan {
    type V = UnpackPlanView;

    open spec fn view(&self) -> UnpackPlanView {
        UnpackPlanView { content_dir: self.content_dir@, ops: self.ops.deep_view() }
    }
}

/// How an unpacked bundle becomes the runtime of its channel.
#[derive(Clone, Debug)]
pub struct LinkPlan {
    /// The operations, in order.
    pub ops: Vec<CacheOp>,
    /// The `java` executable of the channel once the operations are done.
    pub executable: String,
}

/// What [`LinkPlan`] looks like to contracts: the same value with every text as a
/// sequence of characters.
pub struct LinkPlanView {
    pub ops: Seq<CacheOpView>,
    pub executable: Seq<char>,
}

impl View for LinkPlan {
    type V = LinkPlanView;

    open spec fn view(&self) -> LinkPlanView {
        LinkPlanView { ops: self.ops.deep_view(), executable: self.executable@ }
    }
}

/// The name by which the bundle service knows a system, if it serves it.
pub open spec fn bundle_os(os: HostOs) -> Seq<char> {
    if os == HostOs::MacOs {
        "mac"@
    } else {
        "linux"@
    }
}

/// The address of the newest bundle of the runtime `java` for the system `os`
/// and the processor architecture `arch`.
pub open spec fn bundle_url(java: JavaVersion, os: HostOs, arch: Seq<char>) -> Seq<char> {
    "https://api.adoptium.net/v3/binary/latest/"@ + java.label() + "/ga/"@ + bundle_os(os) + "/"@
        + arch + "/jdk/hotspot/normal/eclipse"@
}

/// The user and the group that a channel's entry is given to.
pub const CACHE_OWNER: u32 = 1000;

/// The cache directory at `root`, seen as a resolver of runtime requests.
pub struct RuntimeCacheView {
    pub root: Seq<char>,
}

impl RuntimeCacheView {
    /// The entry of the channel `java`: a symbolic link named after the
    /// channel.
    pub open spec fn link(self, java: JavaVersion) -> Seq<char> {
        joined_path(self.root, java.label())
    }

    /// The `java` executable of the channel `java`, reached through the
    /// channel's entry.
    pub open spec fn executable(self, java: JavaVersion, os: HostOs) -> Seq<char> {
        java_executable_under(self.link(java), os)
    }

    /// The directory of the bundle whose content has the hash `hash`: the
    /// hash in hexadecimal under the root.
    pub open spec fn content_dir(self, hash: u64) -> Seq<char> {
        joined_path(self.root, hex_text(hash as nat))
    }

    /// How a request for the runtime `java` is answered.
    ///
    /// A system that the bundle service does not serve is an error. A live
    /// entry answers the request from the cache. Every other entry, a
    /// dangling link included, counts as no entry: the bundle is fetched.
    pub open spec fn resolution(
        self,
        java: JavaVersion,
        os_name: Seq<char>,
        arch: Seq<char>,
        link: LinkProbe,
    ) -> Result<ResolutionView, ActionErrorView> {
        let os = HostOs::named(os_name);
        if os == HostOs::Other {
            Err(ActionErrorView::JavaInstall("Unsupported OS: "@ + os_name))
        } else if link == LinkProbe::Live {
            Ok(ResolutionView::Cached { executable: self.executable(java, os) })
        } else {
            Ok(ResolutionView::Fetch { url: bundle_url(java, os, arch) })
        }
    }

    /// The error of a fetch from `url` that failed with `failure`.
    pub open spec fn fetch_error(url: Seq<char>, failure: FetchFailureView) -> ActionErrorView {
        match failure {
            FetchFailureView::Request(detail) => ActionErrorView::Transport {
                url: url,
                message: "Java installation failed: "@ + detail,
            },
            FetchFailureView::Status => ActionErrorView::Transport {
                url: url,
                message: "Java installation failed: Failed to download Java installer from "@
                    + url,
            },
        }
    }

    /// Where the bundle with the content hash `hash` goes: the root is
    /// created first if it is not there, then the bundle is unpacked into its
    /// content directory.
    pub open spec fn unpacking(self, hash: u64, root_exists: bool) -> UnpackPlanView {
        let unpack = CacheOpView::Unpack { into: self.content_dir(hash) };
        UnpackPlanView {
            content_dir: self.content_dir(hash),
            ops: if root_exists {
                seq![unpack]
            } else {
                seq![CacheOpView::CreateRoot { path: self.root }, unpack]
            },
        }
    }

    /// How the bundle unpacked into `content_dir` becomes the runtime of the
    /// channel `java`, given the first entry found in that directory and what
    /// stands at the channel's entry.
    ///
    /// The first entry must be a directory: it is the bundle's root. An entry
    /// that is live by now serves the channel and is left as it is: only
    /// reverting the installation removes a live entry. Otherwise whatever
    /// stands at the channel's entry is removed, the entry is made a link to
    /// the bundle's root and handed to the cache's owner.
    pub open spec fn linking(
        self,
        java: JavaVersion,
        os: HostOs,
        content_dir: Seq<char>,
        first: FirstEntryView,
        link: LinkProbe,
    ) -> Result<LinkPlanView, ActionErrorView> {
        let missing = ActionErrorView::JavaInstall(
            "Could not find the JDK directory inside the unpacked archive at "@ + content_dir,
        );
        match first {
            FirstEntryView::Unlisted(cause) => Err(ActionErrorView::Read(content_dir, cause)),
            FirstEntryView::Nothing => Err(missing),
            FirstEntryView::Unknown { path, cause } => Err(ActionErrorView::Read(path, cause)),
            FirstEntryView::Entry { path, is_dir } => if !is_dir {
                Err(missing)
            } else {
                let place = seq![
                    CacheOpView::Link { target: path, link: self.link(java) },
                    CacheOpView::Chown { path: self.link(java), uid: CACHE_OWNER, gid: CACHE_OWNER },
                ];
                Ok(
                    LinkPlanView {
                        ops: if link == LinkProbe::Live {
                            Seq::empty()
                        } else if link == LinkProbe::Absent {
                            place
                        } else {
                            seq![CacheOpView::RemoveLink { path: self.link(java) }] + place
                        },
                        executable: self.executable(java, os),
                    },
                )
            },
        }
    }
}

/// A request that follows a successful one is answered from the cache,
/// without a fetch, and with the very path that the earlier one reported.
///
/// The earlier request found `seen` at the channel's entry. It succeeded
/// either at once, because the entry was live, or by a fetch that ended with
/// a plan to link the unpacked bundle, which `content_dir`, `first` and
/// `link_before` describe. Either way the entry is live afterwards, which is
/// what the later request finds.
pub proof fn lemma_repeated_request_hits_cache(
    cache: RuntimeCacheView,
    java: JavaVersion,
    os_name: Seq<char>,
    arch: Seq<char>,
    seen: LinkProbe,
    content_dir: Seq<char>,
    first: FirstEntryView,
    link_before: LinkProbe,
)
    requires
        HostOs::named(os_name) != HostOs::Other,
        seen != LinkProbe::Live ==> cache.linking(
            java,
            HostOs::named(os_name),
            content_dir,
            first,
            link_before,
        ) is Ok,
    ensures
        cache.resolution(java, os_name, arch, LinkProbe::Live) is Ok,
        cache.resolution(java, os_name, arch, LinkProbe::Live)->Ok_0 is Cached,
        seen == LinkProbe::Live ==> cache.resolution(java, os_name, arch, LinkProbe::Live)
            == cache.resolution(java, os_name, arch, seen),
        seen != LinkProbe::Live ==> cache.resolution(java, os_name, arch, seen)->Ok_0 is Fetch
            && cache.resolution(java, os_name, arch, LinkProbe::Live)->Ok_0
            == (ResolutionView::Cached {
            executable: cache.linking(
                java,
                HostOs::named(os_name),
                content_dir,
                first,
                link_before,
            )->Ok_0.executable,
        }),
{
}

/// An entry whose target is gone counts as no entry: the request is answered
/// by a fetch, not by an error, and the fetched bundle goes into the
/// directory named after its content, after which the stale entry is replaced.
pub proof fn lemma_dangling_entry_is_refetched(
    cache: RuntimeCacheView,
    java: JavaVersion,
    os_name: Seq<char>,
    arch: Seq<char>,
    hash: u64,
    root_exists: bool,
    bundle_root: Seq<char>,
)
    requires
        HostOs::named(os_name) != HostOs::Other,
    ensures
        cache.resolution(java, os_name, arch, LinkProbe::Dangling) == cache.resolution(
            java,
            os_name,
            arch,
            LinkProbe::Absent,
        ),
        cache.resolution(java, os_name, arch, LinkProbe::Dangling) == Ok::<
            ResolutionView,
            ActionErrorView,
        >(ResolutionView::Fetch { url: bundle_url(java, HostOs::named(os_name), arch) }),
        cache.unpacking(hash, root_exists).content_dir == joined_path(
            cache.root,
            hex_text(hash as nat),
        ),
        cache.unpacking(hash, root_exists).ops.last() == (CacheOpView::Unpack {
            into: cache.unpacking(hash, root_exists).content_dir,
        }),
        cache.linking(
            java,
            HostOs::named(os_name),
            cache.unpacking(hash, root_exists).content_dir,
            FirstEntryView::Entry { path: bundle_root, is_dir: true },
            LinkProbe::Dangling,
        ) is Ok,
        cache.linking(
            java,
            HostOs::named(os_name),
            cache.unpacking(hash, root_exists).content_dir,
            FirstEntryView::Entry { path: bundle_root, is_dir: true },
            LinkProbe::Dangling,
        )->Ok_0.ops == seq![
            CacheOpView::RemoveLink { path: cache.link(java) },
            CacheOpView::Link { target: bundle_root, link: cache.link(java) },
            CacheOpView::Chown { path: cache.link(java), uid: CACHE_OWNER, gid: CACHE_OWNER },
        ],
{
}

/// Satisfying a request never removes what serves a channel: unpacking
/// removes nothing, linking removes nothing but the channel's own entry, and
/// not even that where the entry is live.
pub proof fn lemma_requests_spare_live_entries(
    cache: RuntimeCacheView,
    java: JavaVersion,
    os: HostOs,
    hash: u64,
    root_exists: bool,
    content_dir: Seq<char>,
    first: FirstEntryView,
    link: LinkProbe,
)
    ensures
        forall|i: int|
            0 <= i < cache.unpacking(hash, root_exists).ops.len() ==> !(#[trigger] cache.unpacking(
                hash,
                root_exists,
            ).ops[i] is RemoveLink),
        cache.linking(java, os, content_dir, first, link) is Ok ==> forall|i: int|
            0 <= i < cache.linking(java, os, content_dir, first, link)->Ok_0.ops.len() && (
            #[trigger] cache.linking(java, os, content_dir, first, link)->Ok_0.ops[i])
                is RemoveLink ==> link != LinkProbe::Live && cache.linking(
                java,
                os,
                content_dir,
                first,
                link,
            )->Ok_0.ops[i] == (CacheOpView::RemoveLink { path: cache.link(java) }),
{
}

/// What can stand at a path of the cache directory.
pub enum DiskEntry {
    /// A directory.
    Directory,
    /// A file.
    File,
    /// A symbolic link to the path it holds.
    Link(Seq<char>),
}

/// A model of the cache directory: what stands at which path. The library
/// never sees the directory itself; the model says what the operations that
/// it asks for are meant to do to it, so that what a sequence of them leaves
/// behind can be reasoned about.
pub struct CacheDisk {
    pub entries: Map<Seq<char>, DiskEntry>,
}

impl CacheDisk {
    /// What a look at the entry `link` finds.
    pub open spec fn probe(self, link: Seq<char>) -> LinkProbe {
        if !self.entries.dom().contains(link) {
            LinkProbe::Absent
        } else {
            match self.entries[link] {
                DiskEntry::Link(target) => if self.entries.dom().contains(target) {
                    LinkProbe::Live
                } else {
                    LinkProbe::Dangling
                },
                _ => LinkProbe::Occupied,
            }
        }
    }

    /// The directory after one operation. Unpacking a bundle brings its
    /// content directory and, inside it, the bundle's root `bundle_root`.
    pub open spec fn after(self, op: CacheOpView, bundle_root: Seq<char>) -> CacheDisk {
        match op {
            CacheOpView::CreateRoot { path } => CacheDisk {
                entries: self.entries.insert(path, DiskEntry::Directory),
            },
            CacheOpView::Unpack { into } => CacheDisk {
                entries: self.entries.insert(into, DiskEntry::Directory).insert(
                    bundle_root,
                    DiskEntry::Directory,
                ),
            },
            CacheOpView::RemoveLink { path } => CacheDisk { entries: self.entries.remove(path) },
            CacheOpView::Link { target, link } => CacheDisk {
                entries: self.entries.insert(link, DiskEntry::Link(target)),
            },
            CacheOpView::Chown { .. } => self,
        }
    }

    /// The directory after one operation that an action asks of the host:
    /// removing a file takes away what stands at its path, and nothing else
    /// that an action asks for touches an entry of the cache.
    pub open spec fn after_host(self, op: HostOpView) -> CacheDisk {
        match op {
            HostOpView::RemoveFile { path, .. } => CacheDisk { entries: self.entries.remove(path) },
            _ => self,
        }
    }

    /// The directory after the first `upto` of the operations that an action
    /// asks of the host, in order.
    pub open spec fn after_host_ops(self, ops: Seq<HostOpView>, upto: int) -> CacheDisk
        decreases upto,
    {
        if upto <= 0 {
            self
        } else {
            self.after_host_ops(ops, upto - 1).after_host(ops[upto - 1])
        }
    }

    /// The directory after the first `upto` of the operations, in order.
    pub open spec fn after_all(self, ops: Seq<CacheOpView>, upto: int, bundle_root: Seq<char>)
        -> CacheDisk
        decreases upto,
    {
        if upto <= 0 {
            self
        } else {
            self.after_all(ops, upto - 1, bundle_root).after(ops[upto - 1], bundle_root)
        }
    }
}

/// An installation that runs to its end leaves the channel's entry live, and
/// takes nothing else away.
///
/// Whatever the cache directory held, once the bundle is unpacked and the
/// plan that links it is carried out, a look at the channel's entry finds a
/// live link: the next request for the channel is answered from the cache.
/// Every other path that stood before still stands.
pub proof fn lemma_installation_leaves_a_live_entry(
    cache: RuntimeCacheView,
    java: JavaVersion,
    os: HostOs,
    hash: u64,
    root_exists: bool,
    bundle_root: Seq<char>,
    disk: CacheDisk,
)
    requires
        bundle_root != cache.link(java),
    ensures
        ({
            let unpack = cache.unpacking(hash, root_exists);
            let unpacked = disk.after_all(unpack.ops, unpack.ops.len() as int, bundle_root);
            let link = cache.linking(
                java,
                os,
                unpack.content_dir,
                FirstEntryView::Entry { path: bundle_root, is_dir: true },
                unpacked.probe(cache.link(java)),
            );
            let installed = unpacked.after_all(
                link->Ok_0.ops,
                link->Ok_0.ops.len() as int,
                bundle_root,
            );
            &&& link is Ok
            &&& installed.probe(cache.link(java)) == LinkProbe::Live
            &&& forall|path: Seq<char>|
                path != cache.link(java) && #[trigger] disk.entries.dom().contains(path)
                    ==> installed.entries.dom().contains(path)
        }),
{
    reveal_with_fuel(CacheDisk::after_all, 4);
}

} // verus!
