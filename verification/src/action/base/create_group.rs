//! Creation of a system group.

use vstd::prelude::*;
use vstd::string::*;

use crate::action::base::create_user::{detached, detached_command, run, run_once};
use crate::action::lib::{Capability, HostOp, HostOpView};
use crate::action::stateful::{ActionErrorKind, ActionErrorView, ActionState, StatefulAction};
use crate::host::{CommandLine, CommandLineView, GroupLookup, HostOs, Tool, Tools};
use crate::text::{decimal_string, decimal_text};

verus! {

/// Creates the group `name` with the group id `gid`.
#[derive(Clone, Debug)]
pub struct CreateGroup {
    pub name: String,
    pub gid: u32,
}

/// What [`CreateGroup`] looks like to contracts: the same value with every text as a
/// sequence of characters.
pub struct CreateGroupView {
    pub name: Seq<char>,
    pub gid: u32,
}

impl View for CreateGroup {
    type V = CreateGroupView;

    open spec fn view(&self) -> CreateGroupView {
        CreateGroupView { name: self.name@, gid: self.gid }
    }
}

/// What planning the creation of a group needs to know about the host.
#[derive(Clone, Copy, Debug, PartialEq, Eq, Structural)]
pub struct GroupProbe {
    /// Which commands are on the search path.
    pub tools: Tools,
    /// What looking the group up by name gave.
    pub lookup: GroupLookup,
}

/// The `groupadd` invocation that creates the group.
pub open spec fn groupadd_command(group: CreateGroupView) -> CommandLineView {
    CommandLineView {
        program: "groupadd"@,
        args: seq!["-g"@, decimal_text(group.gid as nat), group.name],
        process_group: None,
        null_stdin: true,
    }
}

/// The `addgroup` invocation that creates the group.
pub open spec fn addgroup_command(group: CreateGroupView) -> CommandLineView {
    CommandLineView {
        program: "addgroup"@,
        args: seq![decimal_text(group.gid as nat), group.name],
        process_group: None,
        null_stdin: true,
    }
}

/// What planning the creation of `group` comes to on a host that looks like
/// `probe`.
///
/// The host must be able to create groups and to delete them, the first
/// checked first. Then the group database decides: a failed query is an
/// error; a group that exists must have the planned id, and then the action is
/// completed; a group that does not exist leaves it uncompleted.
pub open spec fn group_plan(group: CreateGroupView, probe: GroupProbe) -> Result<
    ActionState,
    ActionErrorView,
> {
    if !Capability::GroupCreation.provided(probe.tools) {
        Err(ActionErrorView::MissingGroupCreationCommand)
    } else if !Capability::GroupDeletion.provided(probe.tools) {
        Err(ActionErrorView::MissingGroupDeletionCommand)
    } else {
        match probe.lookup {
            GroupLookup::Failed(errno) => Err(ActionErrorView::GettingGroupId(group.name, errno)),
            GroupLookup::Found(entry) => if entry.gid != group.gid {
                Err(ActionErrorView::GroupGidMismatch(group.name, entry.gid, group.gid))
            } else {
                Ok(ActionState::Completed)
            },
            GroupLookup::Absent => Ok(ActionState::Uncompleted),
        }
    }
}

/// The operations that create `group` on a host with `tools`: one run of the
/// command chosen for the creation of groups, with the arguments that this
/// command takes.
pub open spec fn group_creation(group: CreateGroupView, tools: Tools) -> Result<
    Seq<HostOpView>,
    ActionErrorView,
> {
    match Capability::GroupCreation.chosen(tools) {
        Ok(tool) => if tool == Tool::Groupadd {
            Ok(run_once(groupadd_command(group)))
        } else {
            Ok(run_once(addgroup_command(group)))
        },
        Err(e) => Err(e),
    }
}

/// The operations that delete the group `name` on a host with `tools`: one
/// run of the command chosen for the deletion of groups.
pub open spec fn group_deletion(name: Seq<char>, tools: Tools) -> Result<
    Seq<HostOpView>,
    ActionErrorView,
> {
    match Capability::GroupDeletion.chosen(tools) {
        Ok(tool) => Ok(run_once(detached_command(tool.name(), name))),
        Err(e) => Err(e),
    }
}

impl CreateGroup {
    /// Plans the creation of the group `name` with the id `gid`.
    pub fn plan(name: &str, gid: u32, os: HostOs, probe: &GroupProbe) -> (r: Result<
        StatefulAction<Self>,
        ActionErrorKind,
    >)
        requires
            os != HostOs::MacOs,
        ensures
            match group_plan(CreateGroupView { name: name@, gid }, *probe) {
                Ok(state) => r is Ok && r->Ok_0.action()@ == (CreateGroupView { name: name@, gid })
                    && r->Ok_0.state() == state,
                Err(e) => r is Err && r->Err_0@ == e,
            },
    {
        match Capability::GroupCreation.require(&probe.tools) {
            Ok(()) => {},
            Err(e) => {
                return Err(e);
            },
        }
        match Capability::GroupDeletion.require(&probe.tools) {
            Ok(()) => {},
            Err(e) => {
                return Err(e);
            },
        }
        match probe.lookup {
            GroupLookup::Failed(errno) => Err(
                ActionErrorKind::GettingGroupId(String::from_str(name), errno),
            ),
            GroupLookup::Found(entry) => {
                if entry.gid != gid {
                    Err(ActionErrorKind::GroupGidMismatch(String::from_str(name), entry.gid, gid))
                } else {
                    Ok(StatefulAction::completed(Self { name: String::from_str(name), gid }))
                }
            },
            GroupLookup::Absent => Ok(
                StatefulAction::uncompleted(Self { name: String::from_str(name), gid }),
            ),
        }
    }

    /// The operations that create the group.
    pub fn execute_steps(&self, os: HostOs, tools: &Tools) -> (r: Result<
        Vec<HostOp>,
        ActionErrorKind,
    >)
        requires
            os != HostOs::MacOs,
        ensures
            match group_creation(self@, *tools) {
                Ok(ops) => r is Ok && r->Ok_0.deep_view() == ops,
                Err(e) => r is Err && r->Err_0@ == e,
            },
    {
        match Capability::GroupCreation.select(tools) {
            Ok(Tool::Groupadd) => {
                let id = decimal_string(self.gid as u64);
                let command = CommandLine::new("groupadd").arg("-g").arg(id.as_str()).arg(
                    self.name.as_str(),
                ).null_stdin();
                assert(command@.args =~= groupadd_command(self@).args);
                Ok(run(command))
            },
            Ok(_) => {
                let id = decimal_string(self.gid as u64);
                let command = CommandLine::new("addgroup").arg(id.as_str()).arg(
                    self.name.as_str(),
                ).null_stdin();
                assert(command@.args =~= addgroup_command(self@).args);
                Ok(run(command))
            },
            Err(e) => Err(e),
        }
    }

    /// The operations that delete the group again.
    pub fn revert_steps(&self, os: HostOs, tools: &Tools) -> (r: Result<
        Vec<HostOp>,
        ActionErrorKind,
    >)
        requires
            os == HostOs::Linux,
        ensures
            match group_deletion(self@.name, *tools) {
                Ok(ops) => r is Ok && r->Ok_0.deep_view() == ops,
                Err(e) => r is Err && r->Err_0@ == e,
            },
    {
        match Capability::GroupDeletion.select(tools) {
            Ok(tool) => Ok(run(detached(tool.command(), self.name.as_str()))),
            Err(e) => Err(e),
        }
    }
}

} // verus!
