//! Installation of a Java runtime through the content-addressed cache.

use vstd::prelude::*;
use vstd::string::*;

use crate::action::lib::{HostOp, HostOpView, OnMissing};
use crate::action::stateful::{ActionErrorKind, ActionState, StatefulAction};
use crate::cache::{
    required_java, CacheDisk, CacheManager, LinkProbe, Resolution, RuntimeCacheView,
};
use crate::version::{GameVersion, GameVersionView};

verus! {

/// The Java runtimes that game versions ask for. The runtime's number is also
/// the name of its channel in the cache.
#[derive(Clone, Copy, Debug, PartialEq, Eq, Structural)]
pub enum JavaVersion {
    Java8,
    Java17,
    Java21,
}

impl JavaVersion {
    /// The runtime's number as text.
    pub open spec fn label(self) -> Seq<char> {
        match self {
            JavaVersion::Java8 => "8"@,
            JavaVersion::Java17 => "17"@,
            JavaVersion::Java21 => "21"@,
        }
    }

    /// The runtime's number as text.
    pub fn to_string(&self) -> (r: String)
        ensures
            r@ == self.label(),
    {
        match self {
            JavaVersion::Java8 => String::from_str("8"),
            JavaVersion::Java17 => String::from_str("17"),
            JavaVersion::Java21 => String::from_str("21"),
        }
    }
}

/// Installs the Java runtime that `minecraft_version` needs into the cache.
#[derive(Clone, Debug)]
pub struct InstallJava {
    minecraft_version: GameVersion,
    cache_manager: CacheManager,
}

/// What [`InstallJava`] looks like to contracts: the same value with every text as a
/// sequence of characters.
pub struct InstallJavaView {
    pub minecraft_version: GameVersionView,
    pub cache_root: Seq<char>,
}

impl View for InstallJava {
    type V = InstallJavaView;

    closed spec fn view(&self) -> InstallJavaView {
        InstallJavaView {
            minecraft_version: self.minecraft_version@,
            cache_root: self.cache_manager@,
        }
    }
}

impl InstallJavaView {
    /// The runtime channel that the action installs.
    pub open spec fn channel(self) -> JavaVersion {
        required_java(self.minecraft_version.kind)
    }

    /// The cache that the action installs into.
    pub open spec fn cache(self) -> RuntimeCacheView {
        RuntimeCacheView { root: self.cache_root }
    }

    /// The state in which the action is planned: completed where the
    /// channel's entry is live, uncompleted otherwise.
    pub open spec fn planned_state(link: LinkProbe) -> ActionState {
        if link == LinkProbe::Live {
            ActionState::Completed
        } else {
            ActionState::Uncompleted
        }
    }

    /// The operations that take the runtime out of service: whatever stands
    /// at the channel's entry is removed, a link whose target is gone
    /// included, and it is no failure if the entry is gone by then. Where
    /// nothing stands there nothing is done. The unpacked bundles stay.
    pub open spec fn removal(self, link: LinkProbe) -> Seq<HostOpView> {
        if link == LinkProbe::Absent {
            Seq::empty()
        } else {
            seq![
                HostOpView::RemoveFile {
                    path: self.cache().link(self.channel()),
                    on_missing: OnMissing::Ignore,
                },
            ]
        }
    }
}

/// Reverting the installation leaves nothing at the channel's entry and
/// everything else where it was.
///
/// Whatever the cache directory holds and whatever stands at the entry, a
/// live link, a link whose target is gone or anything else, once the
/// operations of the compensation are carried out nothing stands at the
/// entry, and every other path, the unpacked bundles among them, holds what
/// it held.
pub proof fn lemma_revert_clears_the_entry(action: InstallJavaView, disk: CacheDisk)
    ensures
        ({
            let entry = action.cache().link(action.channel());
            let ops = action.removal(disk.probe(entry));
            let after = disk.after_host_ops(ops, ops.len() as int);
            &&& after.probe(entry) == LinkProbe::Absent
            &&& forall|path: Seq<char>|
                path != entry ==> (#[trigger] after.entries.dom().contains(path)
                    == disk.entries.dom().contains(path))
            &&& forall|path: Seq<char>|
                path != entry && disk.entries.dom().contains(path) ==> #[trigger] after.entries[path]
                    == disk.entries[path]
        }),
{
    reveal_with_fuel(CacheDisk::after_host_ops, 2);
}

impl InstallJava {
    /// Plans the installation of the runtime that `minecraft_version` needs,
    /// given what stands at the entry of its channel.
    pub fn plan(minecraft_version: GameVersion, cache_manager: CacheManager, link: LinkProbe) -> (r:
        Result<StatefulAction<Self>, ActionErrorKind>)
        ensures
            r is Ok,
            r->Ok_0.action()@ == (InstallJavaView {
                minecraft_version: minecraft_version@,
                cache_root: cache_manager@,
            }),
            r->Ok_0.state() == InstallJavaView::planned_state(link),
    {
        let this = Self { minecraft_version, cache_manager };
        match link {
            LinkProbe::Live => Ok(StatefulAction::completed(this)),
            _ => Ok(StatefulAction::uncompleted(this)),
        }
    }

    /// The runtime channel that the action installs.
    pub fn java_version(&self) -> (r: JavaVersion)
        ensures
            r == self@.channel(),
    {
        self.cache_manager.determine_java_version(&self.minecraft_version)
    }

    /// The path of the channel's entry in the cache.
    pub fn link_path(&self) -> (r: String)
        ensures
            r@ == self@.cache().link(self@.channel()),
    {
        self.cache_manager.channel_path(&self.java_version())
    }

    /// The cache that the action installs into.
    pub fn cache_manager(&self) -> (r: &CacheManager)
        ensures
            r@ == self@.cache_root,
    {
        &self.cache_manager
    }

    /// Decides how the runtime is to be had on the system `os_name` with the
    /// processor architecture `arch`: from the cache, if the channel's entry
    /// is live, or by fetching and installing its bundle.
    pub fn ensure_java_present(&self, os_name: &str, arch: &str, link: LinkProbe) -> (r: Result<
        Resolution,
        ActionErrorKind,
    >)
        ensures
            match self@.cache().resolution(self@.channel(), os_name@, arch@, link) {
                Ok(answer) => r is Ok && r->Ok_0@ == answer,
                Err(e) => r is Err && r->Err_0@ == e,
            },
    {
        let java_version = self.java_version();
        self.cache_manager.resolve(&java_version, os_name, arch, link)
    }

    /// The operations that take the runtime out of service again.
    pub fn revert_steps(&self, link: LinkProbe) -> (r: Vec<HostOp>)
        ensures
            r.deep_view() == self@.removal(link),
    {
        let mut r: Vec<HostOp> = Vec::new();
        match link {
            LinkProbe::Absent => {},
            _ => {
                r.push(
                    HostOp::RemoveFile { path: self.link_path(), on_missing: OnMissing::Ignore },
                );
            },
        }
        r
    }
}

} // verus!
