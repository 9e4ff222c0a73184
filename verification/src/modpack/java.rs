//! The runtime resolver of the pack importer: like the cache, but a channel's
//! entry is trusted as soon as it can be read, and it is never replaced.

use vstd::prelude::*;

pub use crate::action::base::install_java::JavaVersion;
use crate::cache::{
    bundle_url, get_java_executable, java_executable_under, CacheManager, CacheOp, CacheOpView,
    FirstEntry, FirstEntryView, LinkPlan, LinkPlanView, Resolution, ResolutionView,
};
use crate::host::HostOs;
use crate::text::{concat2, join_path, joined_path};

verus! {

/// How a request for the runtime `java` is answered, given the target of the
/// channel's entry if the entry is a link that can be read.
///
/// A system that the bundle service does not serve is an error. A readable
/// entry answers the request with the executable under its target. Without
/// one the bundle is fetched.
pub open spec fn pack_resolution(
    java: JavaVersion,
    os_name: Seq<char>,
    arch: Seq<char>,
    link_target: Option<Seq<char>>,
) -> Result<ResolutionView, Seq<char>> {
    let os = HostOs::named(os_name);
    if os == HostOs::Other {
        Err("Unsupported OS: "@ + os_name)
    } else {
        match link_target {
            Some(target) => Ok(
                ResolutionView::Cached { executable: java_executable_under(target, os) },
            ),
            None => Ok(ResolutionView::Fetch { url: bundle_url(java, os, arch) }),
        }
    }
}

/// How the bundle unpacked into `content_dir` becomes the runtime of the
/// channel `java`: the channel's entry is made a link to the first entry of
/// the unpacked directory, whatever that entry is.
pub open spec fn pack_linking(
    java: JavaVersion,
    cache_root: Seq<char>,
    os: HostOs,
    content_dir: Seq<char>,
    first: FirstEntryView,
) -> Result<LinkPlanView, Seq<char>> {
    let entry = joined_path(cache_root, java.label());
    match first {
        FirstEntryView::Unlisted(cause) => Err(
            "Failed to read unpacked JDK directory: "@ + content_dir,
        ),
        FirstEntryView::Nothing => Err("No JDK directory found in "@ + content_dir),
        FirstEntryView::Unknown { path, cause } => Ok(
            LinkPlanView {
                ops: seq![CacheOpView::Link { target: joined_path(cache_root, path), link: entry }],
                executable: java_executable_under(entry, os),
            },
        ),
        FirstEntryView::Entry { path, is_dir } => Ok(
            LinkPlanView {
                ops: seq![CacheOpView::Link { target: joined_path(cache_root, path), link: entry }],
                executable: java_executable_under(entry, os),
            },
        ),
    }
}

/// Decides how the runtime `java_version` is to be had: from what the
/// channel's entry points at, or by a fetch.
pub fn ensure_java_present(
    java_version: JavaVersion,
    os_name: &str,
    arch: &str,
    link_target: Option<&str>,
) -> (r: Result<Resolution, String>)
    ensures
        match pack_resolution(
            java_version,
            os_name@,
            arch@,
            match link_target {
                Some(t) => Some(t@),
                None => None,
            },
        ) {
            Ok(answer) => r is Ok && r->Ok_0@ == answer,
            Err(message) => r is Err && r->Err_0@ == message,
        },
{
    let os = HostOs::from_name(os_name);
    match os {
        HostOs::Other => {
            return Err(concat2("Unsupported OS: ", os_name));
        },
        _ => {},
    }
    match link_target {
        Some(target) => Ok(Resolution::Cached { executable: get_java_executable(target, os) }),
        None => Ok(Resolution::Fetch { url: CacheManager::download_url(&java_version, os, arch) }),
    }
}

/// How the bundle unpacked into `content_dir` becomes the runtime of its
/// channel.
pub fn link_plan(
    java_version: JavaVersion,
    cache_root: &str,
    os: HostOs,
    content_dir: &str,
    first: &FirstEntry,
) -> (r: Result<LinkPlan, String>)
    requires
        os != HostOs::Other,
    ensures
        match pack_linking(java_version, cache_root@, os, content_dir@, first@) {
            Ok(plan) => r is Ok && r->Ok_0@ == plan,
            Err(message) => r is Err && r->Err_0@ == message,
        },
{
    let path = match first {
        FirstEntry::Unlisted(cause) => {
            return Err(concat2("Failed to read unpacked JDK directory: ", content_dir));
        },
        FirstEntry::Nothing => {
            return Err(concat2("No JDK directory found in ", content_dir));
        },
        FirstEntry::Unknown { path, cause } => path,
        FirstEntry::Entry { path, is_dir } => path,
    };
    let entry = join_path(cache_root, java_version.to_string().as_str());
    let mut ops: Vec<CacheOp> = Vec::new();
    ops.push(CacheOp::Link { target: join_path(cache_root, path.as_str()), link: entry.clone() });
    let r = LinkPlan { ops, executable: get_java_executable(entry.as_str(), os) };
    assert(r@.ops =~= pack_linking(java_version, cache_root@, os, content_dir@, first@)->Ok_0.ops);
    Ok(r)
}

} // verus!
