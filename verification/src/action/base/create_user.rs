//! Creation of a system user.

use vstd::prelude::*;
use vstd::string::*;

use crate::action::lib::{Capability, HostOp, HostOpView};
use crate::action::stateful::{ActionErrorKind, ActionErrorView, ActionState, StatefulAction};
use crate::host::{CommandLine, CommandLineView, HostOs, Tool, Tools, UserLookup};

verus! {

/// Creates the user `username`: a system account without a home of its own and
/// without a login shell.
#[derive(Clone, Debug)]
pub struct CreateUser {
    pub username: String,
}

impl View for CreateUser {
    type V = Seq<char>;

    /// The user's name.
    open spec fn view(&self) -> Seq<char> {
        self.username@
    }
}

/// What planning the creation of a user needs to know about the host.
#[derive(Clone, Copy, Debug, PartialEq, Eq, Structural)]
pub struct UserProbe {
    pub os: HostOs,
    /// Which commands are on the search path.
    pub tools: Tools,
    /// What looking the user up by name gave.
    pub lookup: UserLookup,
}

/// The `useradd` invocation that creates `username`.
pub open spec fn useradd_command(username: Seq<char>) -> CommandLineView {
    CommandLineView {
        program: "useradd"@,
        args: seq![
            "--home-dir"@,
            "/var/empty"@,
            "--comment"@,
            "User managed by Feather CLI"@,
            "--user-group"@,
            "--shell"@,
            "/usr/sbin/nologin"@,
            username,
        ],
        process_group: Some(0i32),
        null_stdin: true,
    }
}

/// The `adduser` invocation that creates `username`.
pub open spec fn adduser_command(username: Seq<char>) -> CommandLineView {
    CommandLineView {
        program: "adduser"@,
        args: seq![
            "--home"@,
            "/var/empty"@,
            "--no-create-home"@,
            "--comment"@,
            "User managed by Feather CLI"@,
            "--shell"@,
            "/usr/sbin/nologin"@,
            "--disabled-login"@,
            username,
        ],
        process_group: Some(0i32),
        null_stdin: true,
    }
}

/// The invocation of `program` that takes `name` as its only argument, in a
/// process group of its own and without standard input.
pub open spec fn detached_command(program: Seq<char>, name: Seq<char>) -> CommandLineView {
    CommandLineView {
        program: program,
        args: seq![name],
        process_group: Some(0i32),
        null_stdin: true,
    }
}

/// A list that holds the single operation of running `command` to success.
pub open spec fn run_once(command: CommandLineView) -> Seq<HostOpView> {
    seq![HostOpView::Run { command: command, best_effort: false }]
}

/// What planning the creation of `username` comes to on a host that looks like
/// `probe`.
///
/// Except on macOS the host must be able to create users and to delete them,
/// the first checked first. Then the user database decides: a failed query is
/// an error, a user that exists is a completed action, one that does not is an
/// uncompleted one.
pub open spec fn user_plan(username: Seq<char>, probe: UserProbe) -> Result<
    ActionState,
    ActionErrorView,
> {
    if probe.os != HostOs::MacOs && !Capability::UserCreation.provided(probe.tools) {
        Err(ActionErrorView::MissingUserCreationCommand)
    } else if probe.os != HostOs::MacOs && !Capability::UserDeletion.provided(probe.tools) {
        Err(ActionErrorView::MissingUserDeletionCommand)
    } else {
        match probe.lookup {
            UserLookup::Failed(errno) => Err(ActionErrorView::GettingUserId(username, errno)),
            UserLookup::Found(_) => Ok(ActionState::Completed),
            UserLookup::Absent => Ok(ActionState::Uncompleted),
        }
    }
}

/// The operations that create `username` on a host with `tools`: one run of
/// the command chosen for the creation of users, with the arguments that this
/// command takes.
pub open spec fn user_creation(username: Seq<char>, tools: Tools) -> Result<
    Seq<HostOpView>,
    ActionErrorView,
> {
    match Capability::UserCreation.chosen(tools) {
        Ok(tool) => if tool == Tool::Useradd {
            Ok(run_once(useradd_command(username)))
        } else {
            Ok(run_once(adduser_command(username)))
        },
        Err(e) => Err(e),
    }
}

/// The operations that delete `username` on a host with `tools`: one run of
/// the command chosen for the deletion of users.
pub open spec fn user_deletion(username: Seq<char>, tools: Tools) -> Result<
    Seq<HostOpView>,
    ActionErrorView,
> {
    match Capability::UserDeletion.chosen(tools) {
        Ok(tool) => Ok(run_once(detached_command(tool.name(), username))),
        Err(e) => Err(e),
    }
}

/// Builds the invocation of `program` with `name` as its only argument, in a
/// process group of its own and without standard input.
pub fn detached(program: &str, name: &str) -> (r: CommandLine)
    ensures
        r@ == detached_command(program@, name@),
{
    let r = CommandLine::new(program).process_group(0).arg(name).null_stdin();
    r
}

/// Wraps `command` into the list that runs it once, to success.
pub fn run(command: CommandLine) -> (r: Vec<HostOp>)
    ensures
        r.deep_view() == run_once(command@),
{
    let mut r: Vec<HostOp> = Vec::new();
    r.push(HostOp::Run { command, best_effort: false });
    r
}

impl CreateUser {
    /// Plans the creation of the user `name`.
    pub fn plan(name: &str, probe: &UserProbe) -> (r: Result<StatefulAction<Self>, ActionErrorKind>)
        ensures
            match user_plan(name@, *probe) {
                Ok(state) => r is Ok && r->Ok_0.action()@ == name@ && r->Ok_0.state() == state,
                Err(e) => r is Err && r->Err_0@ == e,
            },
    {
        let this = Self { username: String::from_str(name) };
        match probe.os {
            HostOs::MacOs => {},
            _ => {
                match Capability::UserCreation.require(&probe.tools) {
                    Ok(()) => {},
                    Err(e) => {
                        return Err(e);
                    },
                }
                match Capability::UserDeletion.require(&probe.tools) {
                    Ok(()) => {},
                    Err(e) => {
                        return Err(e);
                    },
                }
            },
        }
        match probe.lookup {
            UserLookup::Failed(errno) => Err(
                ActionErrorKind::GettingUserId(String::from_str(name), errno),
            ),
            UserLookup::Found(_) => Ok(StatefulAction::completed(this)),
            UserLookup::Absent => Ok(StatefulAction::uncompleted(this)),
        }
    }

    /// The operations that create the user.
    pub fn execute_steps(&self, os: HostOs, tools: &Tools) -> (r: Result<
        Vec<HostOp>,
        ActionErrorKind,
    >)
        requires
            os != HostOs::MacOs,
        ensures
            match user_creation(self@, *tools) {
                Ok(ops) => r is Ok && r->Ok_0.deep_view() == ops,
                Err(e) => r is Err && r->Err_0@ == e,
            },
    {
        let name = self.username.as_str();
        match Capability::UserCreation.select(tools) {
            Ok(Tool::Useradd) => {
                let command = CommandLine::new("useradd").process_group(0).arg("--home-dir").arg(
                    "/var/empty",
                ).arg("--comment").arg("User managed by Feather CLI").arg("--user-group").arg(
                    "--shell",
                ).arg("/usr/sbin/nologin").arg(name).null_stdin();
                assert(command@.args =~= useradd_command(self@).args);
                Ok(run(command))
            },
            Ok(_) => {
                let command = CommandLine::new("adduser").process_group(0).arg("--home").arg(
                    "/var/empty",
                ).arg("--no-create-home").arg("--comment").arg("User managed by Feather CLI").arg(
                    "--shell",
                ).arg("/usr/sbin/nologin").arg("--disabled-login").arg(name).null_stdin();
                assert(command@.args =~= adduser_command(self@).args);
                Ok(run(command))
            },
            Err(e) => Err(e),
        }
    }

    /// The operations that delete the user again.
    pub fn revert_steps(&self, os: HostOs, tools: &Tools) -> (r: Result<
        Vec<HostOp>,
        ActionErrorKind,
    >)
        requires
            os != HostOs::MacOs,
        ensures
            match user_deletion(self@, *tools) {
                Ok(ops) => r is Ok && r->Ok_0.deep_view() == ops,
                Err(e) => r is Err && r->Err_0@ == e,
            },
    {
        match Capability::UserDeletion.select(tools) {
            Ok(tool) => Ok(run(detached(tool.command(), self.username.as_str()))),
            Err(e) => Err(e),
        }
    }
}

} // verus!
