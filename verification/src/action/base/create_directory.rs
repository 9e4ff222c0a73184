//! Creation of a directory with a given owner, group and mode.

use vstd::prelude::*;
use vstd::string::*;

use crate::action::lib::{check_ownership, clone_name, ownership_conflict, HostOp, HostOpView};
use crate::action::stateful::{ActionErrorKind, ActionErrorView, ActionState, StatefulAction};
use crate::host::{GroupLookup, PathProbe, PathProbeView, UserLookup};

verus! {

/// Creates the directory `path`, with every missing parent, and gives it to
/// `user` and `group` with the permission bits `mode`, each as far as it is
/// given.
#[derive(Clone, Debug)]
pub struct CreateDirectory {
    path: String,
    user: Option<String>,
    group: Option<String>,
    mode: Option<u32>,
}

/// What [`CreateDirectory`] looks like to contracts: the same value with every text as a
/// sequence of characters.
pub struct CreateDirectoryView {
    pub path: Seq<char>,
    pub user: Option<Seq<char>>,
    pub group: Option<Seq<char>>,
    pub mode: Option<u32>,
}

impl View for CreateDirectory {
    type V = CreateDirectoryView;

    closed spec fn view(&self) -> CreateDirectoryView {
        CreateDirectoryView {
            path: self.path@,
            user: self.user.deep_view(),
            group: self.group.deep_view(),
            mode: self.mode,
        }
    }
}

/// What planning a directory needs to know about the host: what is at the
/// path, and what the user and group databases say about the planned names.
/// The lookups matter only where something exists at the path and the name is
/// planned.
#[derive(Clone, Debug)]
pub struct DirectoryProbe {
    pub path: PathProbe,
    pub user: UserLookup,
    pub group: GroupLookup,
}

/// What [`DirectoryProbe`] looks like to contracts: the same value with every text as a
/// sequence of characters.
pub struct DirectoryProbeView {
    pub path: PathProbeView,
    pub user: UserLookup,
    pub group: GroupLookup,
}

impl View for DirectoryProbe {
    type V = DirectoryProbeView;

    open spec fn view(&self) -> DirectoryProbeView {
        DirectoryProbeView { path: self.path@, user: self.user, group: self.group }
    }
}

/// The user and the group that directories and files get unless told
/// otherwise.
pub open spec fn default_owner() -> Seq<char> {
    "feather"@
}

/// What planning `dir` comes to on a host that looks like `probe`.
///
/// Where nothing is at the path the directory is to be created. Where
/// something is, it must be a directory that already belongs to the planned
/// user and group: then there is nothing left to do. Anything else at the
/// path is a conflict and an error; the library never takes over what belongs
/// to someone else.
pub open spec fn directory_plan(dir: CreateDirectoryView, probe: DirectoryProbeView) -> Result<
    ActionState,
    ActionErrorView,
> {
    match probe.path {
        PathProbeView::Missing => Ok(ActionState::Uncompleted),
        PathProbeView::Unreadable(e) => Err(ActionErrorView::Read(dir.path, e)),
        PathProbeView::Present(metadata) => if !metadata.is_dir {
            Err(ActionErrorView::NotADirectory(dir.path))
        } else {
            match ownership_conflict(
                dir.path,
                dir.user,
                dir.group,
                metadata,
                probe.user,
                probe.group,
            ) {
                Some(e) => Err(e),
                None => Ok(ActionState::Completed),
            }
        },
    }
}

/// The operations that bring `dir` about: create it, hand it over, and set its
/// mode if one is planned.
pub open spec fn directory_creation(dir: CreateDirectoryView) -> Seq<HostOpView> {
    let base = seq![
        HostOpView::CreateDirAll { path: dir.path },
        HostOpView::Chown { path: dir.path, user: dir.user, group: dir.group },
    ];
    match dir.mode {
        Some(mode) => base.push(HostOpView::SetMode { path: dir.path, mode: mode }),
        None => base,
    }
}

impl CreateDirectory {
    /// Plans the directory `path` for the default user and group, with the
    /// mode left alone.
    pub fn default(path: &str, probe: &DirectoryProbe) -> (r: Result<
        StatefulAction<Self>,
        ActionErrorKind,
    >)
        ensures
            ({
                let dir = CreateDirectoryView {
                    path: path@,
                    user: Some(default_owner()),
                    group: Some(default_owner()),
                    mode: None,
                };
                match directory_plan(dir, probe@) {
                    Ok(state) => r is Ok && r->Ok_0.action()@ == dir && r->Ok_0.state() == state,
                    Err(e) => r is Err && r->Err_0@ == e,
                }
            }),
    {
        Self::plan(
            path,
            Some(String::from_str("feather")),
            Some(String::from_str("feather")),
            None,
            probe,
        )
    }

    /// Plans the directory `path` for `user`, `group` and `mode`.
    pub fn plan(
        path: &str,
        user: Option<String>,
        group: Option<String>,
        mode: Option<u32>,
        probe: &DirectoryProbe,
    ) -> (r: Result<StatefulAction<Self>, ActionErrorKind>)
        ensures
            ({
                let dir = CreateDirectoryView {
                    path: path@,
                    user: user.deep_view(),
                    group: group.deep_view(),
                    mode: mode,
                };
                match directory_plan(dir, probe@) {
                    Ok(state) => r is Ok && r->Ok_0.action()@ == dir && r->Ok_0.state() == state,
                    Err(e) => r is Err && r->Err_0@ == e,
                }
            }),
    {
        let this = Self { path: String::from_str(path), user, group, mode };
        match &probe.path {
            PathProbe::Missing => Ok(StatefulAction::uncompleted(this)),
            PathProbe::Unreadable(e) => Err(
                ActionErrorKind::Read(String::from_str(path), e.clone()),
            ),
            PathProbe::Present(metadata) => {
                if !metadata.is_dir {
                    return Err(ActionErrorKind::NotADirectory(String::from_str(path)));
                }
                match check_ownership(
                    path,
                    &this.user,
                    &this.group,
                    *metadata,
                    probe.user,
                    probe.group,
                ) {
                    Ok(()) => Ok(StatefulAction::completed(this)),
                    Err(e) => Err(e),
                }
            },
        }
    }

    /// The path of the directory.
    pub fn path(&self) -> (r: &String)
        ensures
            r@ == self@.path,
    {
        &self.path
    }

    /// The operations that create the directory.
    pub fn execute_steps(&self) -> (r: Vec<HostOp>)
        ensures
            r.deep_view() == directory_creation(self@),
    {
        let mut r: Vec<HostOp> = Vec::new();
        r.push(HostOp::CreateDirAll { path: self.path.clone() });
        r.push(
            HostOp::Chown {
                path: self.path.clone(),
                user: clone_name(&self.user),
                group: clone_name(&self.group),
            },
        );
        match self.mode {
            Some(mode) => {
                r.push(HostOp::SetMode { path: self.path.clone(), mode });
            },
            None => {},
        }
        r
    }

    /// The operations that undo the creation: none. A directory may hold data
    /// by the time it is reverted, and it is never deleted.
    pub fn revert_steps(&self) -> (r: Vec<HostOp>)
        ensures
            r.deep_view() == Seq::<HostOpView>::empty(),
    {
        let r: Vec<HostOp> = Vec::new();
        r
    }
}

/// A directory that already belongs to the planned user and group is planned
/// as completed, so that executing the plan leaves it alone.
pub proof fn lemma_owned_directory_is_complete(dir: CreateDirectoryView, probe: DirectoryProbeView)
    requires
        probe.path is Present,
        probe.path->Present_0.is_dir,
        dir.user is Some ==> probe.user is Found && probe.user->Found_0.uid
            == probe.path->Present_0.uid,
        dir.group is Some ==> probe.group is Found && probe.group->Found_0.gid
            == probe.path->Present_0.gid,
    ensures
        directory_plan(dir, probe) == Ok::<ActionState, ActionErrorView>(ActionState::Completed),
        ActionState::Completed.skips_execute(),
{
}

/// A directory that belongs to another user than the planned one makes
/// planning fail with a state conflict: no plan is made that could re-own it.
pub proof fn lemma_foreign_directory_is_a_conflict(
    dir: CreateDirectoryView,
    probe: DirectoryProbeView,
)
    requires
        probe.path is Present,
        probe.path->Present_0.is_dir,
        dir.user is Some,
        probe.user is Found,
        probe.user->Found_0.uid != probe.path->Present_0.uid,
    ensures
        directory_plan(dir, probe) == Err::<ActionState, ActionErrorView>(
            ActionErrorView::OwnerMismatch { path: dir.path, user: dir.user->Some_0 },
        ),
        directory_plan(dir, probe)->Err_0.category()
            == crate::action::report::ErrorCategory::StateConflict,
{
}

} // verus!
