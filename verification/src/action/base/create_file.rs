//! Creation of a text file with a given content, owner, group and mode.

use vstd::prelude::*;
use vstd::string::*;

use crate::action::lib::{
    check_ownership, clone_name, ownership_conflict, HostOp, HostOpView, OnMissing,
};
use crate::action::stateful::{ActionErrorKind, ActionErrorView, ActionState, StatefulAction};
use crate::host::{FileProbe, FileProbeView, GroupLookup, PathProbe, PathProbeView, UserLookup};

verus! {

/// Writes `content` to the file `path` and gives the file to `user` and
/// `group` with the permission bits `mode`, each as far as it is given.
#[derive(Clone, Debug)]
pub struct CreateFile {
    path: String,
    content: String,
    user: Option<String>,
    group: Option<String>,
    mode: Option<u32>,
}

/// What [`CreateFile`] looks like to contracts: the same value with every text as a
/// sequence of characters.
pub struct CreateFileView {
    pub path: Seq<char>,
    pub content: Seq<char>,
    pub user: Option<Seq<char>>,
    pub group: Option<Seq<char>>,
    pub mode: Option<u32>,
}

impl View for CreateFile {
    type V = CreateFileView;

    closed spec fn view(&self) -> CreateFileView {
        CreateFileView {
            path: self.path@,
            content: self.content@,
            user: self.user.deep_view(),
            group: self.group.deep_view(),
            mode: self.mode,
        }
    }
}

/// What planning a file needs to know about the host: what is at the path,
/// what the file holds, and what the user and group databases say about the
/// planned names. Content and lookups matter only where a file exists.
#[derive(Clone, Debug)]
pub struct CreateFileProbe {
    pub path: PathProbe,
    pub content: FileProbe,
    pub user: UserLookup,
    pub group: GroupLookup,
}

/// What [`CreateFileProbe`] looks like to contracts: the same value with every text as a
/// sequence of characters.
pub struct CreateFileProbeView {
    pub path: PathProbeView,
    pub content: FileProbeView,
    pub user: UserLookup,
    pub group: GroupLookup,
}

impl View for CreateFileProbe {
    type V = CreateFileProbeView;

    open spec fn view(&self) -> CreateFileProbeView {
        CreateFileProbeView {
            path: self.path@,
            content: self.content@,
            user: self.user,
            group: self.group,
        }
    }
}

/// What planning `file` comes to on a host that looks like `probe`.
///
/// Where nothing is at the path, or what is there cannot be examined, the
/// file is to be written. A directory at the path is a conflict. A file at
/// the path must hold the planned content and belong to the planned user and
/// group: then there is nothing left to do. A file with other content or
/// another owner is a conflict and an error: the library never overwrites
/// what it did not plan.
pub open spec fn file_plan(file: CreateFileView, probe: CreateFileProbeView) -> Result<
    ActionState,
    ActionErrorView,
> {
    match probe.path {
        PathProbeView::Missing => Ok(ActionState::Uncompleted),
        PathProbeView::Unreadable(_) => Ok(ActionState::Uncompleted),
        PathProbeView::Present(metadata) => if metadata.is_dir {
            Err(ActionErrorView::IsADirectory(file.path))
        } else {
            match probe.content {
                FileProbeView::Missing => Ok(ActionState::Uncompleted),
                FileProbeView::Unreadable(e) => Err(ActionErrorView::Read(file.path, e)),
                FileProbeView::Content(found) => if found != file.content {
                    Err(ActionErrorView::DifferentContent(file.path))
                } else {
                    match ownership_conflict(
                        file.path,
                        file.user,
                        file.group,
                        metadata,
                        probe.user,
                        probe.group,
                    ) {
                        Some(e) => Err(e),
                        None => Ok(ActionState::Completed),
                    }
                },
            }
        },
    }
}

/// The operations that bring `file` about: write it through to storage, hand
/// it over if an owner or a group is planned, and set its mode if one is
/// planned.
pub open spec fn file_creation(file: CreateFileView) -> Seq<HostOpView> {
    let written = seq![
        HostOpView::WriteFile {
            path: file.path,
            content: file.content,
            sync: true,
        },
    ];
    let owned = if file.user is Some || file.group is Some {
        written.push(HostOpView::Chown { path: file.path, user: file.user, group: file.group })
    } else {
        written
    };
    match file.mode {
        Some(mode) => owned.push(HostOpView::SetMode { path: file.path, mode: mode }),
        None => owned,
    }
}

/// The operations that undo `file`: remove it, and do not mind if it is gone.
pub open spec fn file_removal(file: CreateFileView) -> Seq<HostOpView> {
    seq![
        HostOpView::RemoveFile {
            path: file.path,
            on_missing: OnMissing::Ignore,
        },
    ]
}

impl CreateFile {
    /// Plans the file `path` with `content` for the default user and group,
    /// with the mode left alone.
    pub fn default(path: &str, content: &str, probe: &CreateFileProbe) -> (r: Result<
        StatefulAction<Self>,
        ActionErrorKind,
    >)
        ensures
            ({
                let file = CreateFileView {
                    path: path@,
                    content: content@,
                    user: Some("feather"@),
                    group: Some("feather"@),
                    mode: None,
                };
                match file_plan(file, probe@) {
                    Ok(state) => r is Ok && r->Ok_0.action()@ == file && r->Ok_0.state() == state,
                    Err(e) => r is Err && r->Err_0@ == e,
                }
            }),
    {
        Self::plan(
            path,
            String::from_str(content),
            Some(String::from_str("feather")),
            Some(String::from_str("feather")),
            None,
            probe,
        )
    }

    /// Plans the file `path` with `content` for `user`, `group` and `mode`.
    pub fn plan(
        path: &str,
        content: String,
        user: Option<String>,
        group: Option<String>,
        mode: Option<u32>,
        probe: &CreateFileProbe,
    ) -> (r: Result<StatefulAction<Self>, ActionErrorKind>)
        ensures
            ({
                let file = CreateFileView {
                    path: path@,
                    content: content@,
                    user: user.deep_view(),
                    group: group.deep_view(),
                    mode: mode,
                };
                match file_plan(file, probe@) {
                    Ok(state) => r is Ok && r->Ok_0.action()@ == file && r->Ok_0.state() == state,
                    Err(e) => r is Err && r->Err_0@ == e,
                }
            }),
    {
        let this = Self { path: String::from_str(path), content, user, group, mode };
        match &probe.path {
            PathProbe::Missing => Ok(StatefulAction::uncompleted(this)),
            PathProbe::Unreadable(_) => Ok(StatefulAction::uncompleted(this)),
            PathProbe::Present(metadata) => {
                if metadata.is_dir {
                    return Err(ActionErrorKind::IsADirectory(String::from_str(path)));
                }
                match &probe.content {
                    FileProbe::Missing => Ok(StatefulAction::uncompleted(this)),
                    FileProbe::Unreadable(e) => Err(
                        ActionErrorKind::Read(String::from_str(path), e.clone()),
                    ),
                    FileProbe::Content(found) => {
                        if *found != this.content {
                            return Err(ActionErrorKind::DifferentContent(String::from_str(path)));
                        }
                        match check_ownership(
                            path,
                            &this.user,
                            &this.group,
                            *metadata,
                            probe.user,
                            probe.group,
                        ) {
                            Ok(()) => Ok(StatefulAction::completed(this)),
                            Err(e) => Err(e),
                        }
                    },
                }
            },
        }
    }

    /// The path of the file.
    pub fn path(&self) -> (r: &String)
        ensures
            r@ == self@.path,
    {
        &self.path
    }

    /// The operations that write the file.
    pub fn execute_steps(&self) -> (r: Vec<HostOp>)
        ensures
            r.deep_view() == file_creation(self@),
    {
        let mut r: Vec<HostOp> = Vec::new();
        r.push(
            HostOp::WriteFile {
                path: self.path.clone(),
                content: self.content.clone(),
                sync: true,
            },
        );
        if self.user.is_some() || self.group.is_some() {
            r.push(
                HostOp::Chown {
                    path: self.path.clone(),
                    user: clone_name(&self.user),
                    group: clone_name(&self.group),
                },
            );
        }
        match self.mode {
            Some(mode) => {
                r.push(HostOp::SetMode { path: self.path.clone(), mode });
            },
            None => {},
        }
        r
    }

    /// The operations that remove the file again.
    pub fn revert_steps(&self) -> (r: Vec<HostOp>)
        ensures
            r.deep_view() == file_removal(self@),
    {
        let mut r: Vec<HostOp> = Vec::new();
        r.push(
            HostOp::RemoveFile {
                path: self.path.clone(),
                on_missing: OnMissing::Ignore,
            },
        );
        r
    }
}

} // verus!
