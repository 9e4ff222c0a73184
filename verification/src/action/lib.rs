//! Shared pieces of the concrete actions: the operations they ask the host to
//! perform and the rules by which a host's answers become results.

use vstd::prelude::*;
use vstd::string::*;

use crate::action::stateful::{ActionErrorKind, ActionErrorView, ActionResult};
use crate::host::{
    CommandLine, CommandLineView, GroupLookup, IoFailure, IoFailureView, IoKind, PathMetadata,
    ProcessOutput, ProcessOutputView, Tool, Tools, UserLookup,
};

verus! {

/// What removing a file does when there is no file.
#[derive(Clone, Copy, Debug, PartialEq, Eq, Structural)]
pub enum OnMissing {
    /// A missing file counts as removed.
    Ignore,
    /// A missing file is a failure like any other.
    Error,
}

/// One operation on the host, as an action asks for it.
///
/// An action's effect is a list of these, performed in order; the first one
/// that fails ends the list, except where an operation is marked as best
/// effort.
#[derive(Clone, Debug, PartialEq, Eq)]
pub enum HostOp {
    /// Create the directory and every missing parent.
    CreateDirAll { path: String },
    /// Create or truncate the file and write `content`; with `sync`, flush it
    /// to stable storage before going on.
    WriteFile { path: String, content: String, sync: bool },
    /// Change the owner and the group of the path to the named user and group;
    /// a side that is absent is left as it is. The names are looked up when the
    /// operation is performed.
    Chown { path: String, user: Option<String>, group: Option<String> },
    /// Set the permission bits of the path.
    SetMode { path: String, mode: u32 },
    /// Remove the file.
    RemoveFile { path: String, on_missing: OnMissing },
    /// Run the command and wait for it. With `best_effort` its failure is
    /// ignored.
    Run { command: CommandLine, best_effort: bool },
}

/// What [`HostOp`] looks like to contracts: the same value with every text as a
/// sequence of characters.
pub enum HostOpView {
    CreateDirAll { path: Seq<char> },
    WriteFile { path: Seq<char>, content: Seq<char>, sync: bool },
    Chown { path: Seq<char>, user: Option<Seq<char>>, group: Option<Seq<char>> },
    SetMode { path: Seq<char>, mode: u32 },
    RemoveFile { path: Seq<char>, on_missing: OnMissing },
    Run { command: CommandLineView, best_effort: bool },
}

impl View for HostOp {
    type V = HostOpView;

    open spec fn view(&self) -> HostOpView {
        match self {
            HostOp::CreateDirAll { path } => HostOpView::CreateDirAll { path: path@ },
            HostOp::WriteFile { path, content, sync } => HostOpView::WriteFile {
                path: path@,
                content: content@,
                sync: *sync,
            },
            HostOp::Chown { path, user, group } => HostOpView::Chown {
                path: path@,
                user: user.deep_view(),
                group: group.deep_view(),
            },
            HostOp::SetMode { path, mode } => HostOpView::SetMode { path: path@, mode: *mode },
            HostOp::RemoveFile { path, on_missing } => HostOpView::RemoveFile {
                path: path@,
                on_missing: *on_missing,
            },
            HostOp::Run { command, best_effort } => HostOpView::Run {
                command: command@,
                best_effort: *best_effort,
            },
        }
    }
}

impl DeepView for HostOp {
    type V = HostOpView;

    open spec fn deep_view(&self) -> HostOpView {
        self@
    }
}

/// The words of a command line after its program, each in double quotes and
/// each preceded by a space.
pub open spec fn rendered_args(args: Seq<Seq<char>>, upto: int) -> Seq<char>
    decreases upto,
{
    if upto <= 0 {
        Seq::empty()
    } else {
        rendered_args(args, upto - 1) + " \""@ + args[upto - 1] + "\""@
    }
}

impl CommandLineView {
    /// The command line as it is shown in messages: the program and its
    /// arguments, each in double quotes, separated by spaces.
    pub open spec fn rendered(self) -> Seq<char> {
        "\""@ + self.program + "\""@ + rendered_args(self.args, self.args.len() as int)
    }
}

impl CommandLine {
    /// A command that runs `program` without arguments, in its parent's
    /// process group and with its parent's standard input.
    pub fn new(program: &str) -> (r: CommandLine)
        ensures
            r@ == (CommandLineView {
                program: program@,
                args: Seq::empty(),
                process_group: None,
                null_stdin: false,
            }),
    {
        let r = CommandLine {
            program: String::from_str(program),
            args: Vec::new(),
            process_group: None,
            null_stdin: false,
        };
        assert(r.args.deep_view() =~= Seq::<Seq<char>>::empty());
        r
    }

    /// Appends one argument.
    pub fn arg(self, value: &str) -> (r: CommandLine)
        ensures
            r@ == (CommandLineView { args: self@.args.push(value@), ..self@ }),
    {
        let mut r = self;
        let ghost before = r.args.deep_view();
        r.args.push(String::from_str(value));
        assert(r.args.deep_view() =~= before.push(value@));
        r
    }

    /// Places the child in the process group `group`.
    pub fn process_group(self, group: i32) -> (r: CommandLine)
        ensures
            r@ == (CommandLineView { process_group: Some(group), ..self@ }),
    {
        let mut r = self;
        r.process_group = Some(group);
        r
    }

    /// Closes the child's standard input off.
    pub fn null_stdin(self) -> (r: CommandLine)
        ensures
            r@ == (CommandLineView { null_stdin: true, ..self@ }),
    {
        let mut r = self;
        r.null_stdin = true;
        r
    }

    /// The command line as it is shown in messages.
    pub fn render(&self) -> (r: String)
        ensures
            r@ == self@.rendered(),
    {
        let mut r = String::from_str("\"");
        r.append(self.program.as_str());
        r.append("\"");
        let mut i: usize = 0;
        while i < self.args.len()
            invariant
                i <= self.args.len(),
                r@ == "\""@ + self.program@ + "\""@ + rendered_args(
                    self.args.deep_view(),
                    i as int,
                ),
            decreases self.args.len() - i,
        {
            r.append(" \"");
            r.append(self.args[i].as_str());
            r.append("\"");
            assert(r@ =~= "\""@ + self.program@ + "\""@ + rendered_args(
                self.args.deep_view(),
                i as int + 1,
            ));
            i = i + 1;
        }
        r
    }
}

impl ActionErrorKind {
    /// The error for a command that could not be started.
    pub fn command(command: &CommandLine, error: IoFailure) -> (r: Self)
        ensures
            r@ == (ActionErrorView::Command { command: command@.rendered(), error: error@ }),
    {
        ActionErrorKind::Command { command: command.render(), error }
    }

    /// The error for a command that ran and did not succeed.
    pub fn command_output(command: &CommandLine, output: ProcessOutput) -> (r: Self)
        ensures
            r@ == (ActionErrorView::CommandOutput {
                command: command@.rendered(),
                output: output@,
            }),
    {
        ActionErrorKind::CommandOutput { command: command.render(), output }
    }
}

/// Judges a command by what running it gave: the output of a command that
/// exited with code zero, and an error for one that could not be started or
/// ended otherwise.
pub fn execute_command(command: &CommandLine, outcome: Result<ProcessOutput, IoFailure>) -> (r:
    ActionResult<ProcessOutput>)
    ensures
        match outcome {
            Ok(output) => if output@.succeeded() {
                r == Ok::<ProcessOutput, ActionErrorKind>(output)
            } else {
                r is Err && r->Err_0@ == (ActionErrorView::CommandOutput {
                    command: command@.rendered(),
                    output: output@,
                })
            },
            Err(error) => r is Err && r->Err_0@ == (ActionErrorView::Command {
                command: command@.rendered(),
                error: error@,
            }),
        },
{
    match outcome {
        Ok(output) => {
            if output.success() {
                Ok(output)
            } else {
                Err(ActionErrorKind::command_output(command, output))
            }
        },
        Err(error) => Err(ActionErrorKind::command(command, error)),
    }
}

/// Judges the removal of a file by what the host reported: with
/// [`OnMissing::Ignore`], a file that was not there counts as removed.
pub fn remove_file(on_missing: OnMissing, outcome: Result<(), IoFailure>) -> (r: Result<
    (),
    IoFailure,
>)
    ensures
        match outcome {
            Ok(()) => r is Ok,
            Err(e) => if e.kind == IoKind::NotFound && on_missing == OnMissing::Ignore {
                r is Ok
            } else {
                r == outcome
            },
        },
{
    match outcome {
        Ok(()) => Ok(()),
        Err(e) => {
            if e.kind == IoKind::NotFound && on_missing == OnMissing::Ignore {
                Ok(())
            } else {
                Err(e)
            }
        },
    }
}

/// The numeric id to hand to a change of owner for the user `name`, given what
/// looking the name up gave.
pub fn resolve_user(name: &str, lookup: UserLookup) -> (r: ActionResult<u32>)
    ensures
        match lookup {
            UserLookup::Found(entry) => r == Ok::<u32, ActionErrorKind>(entry.uid),
            UserLookup::Absent => r is Err && r->Err_0@ == ActionErrorView::UserNotFound(name@),
            UserLookup::Failed(errno) => r is Err && r->Err_0@ == ActionErrorView::GettingUserId(
                name@,
                errno,
            ),
        },
{
    match lookup {
        UserLookup::Found(entry) => Ok(entry.uid),
        UserLookup::Absent => Err(ActionErrorKind::UserNotFound(String::from_str(name))),
        UserLookup::Failed(errno) => Err(
            ActionErrorKind::GettingUserId(String::from_str(name), errno),
        ),
    }
}

/// The numeric id to hand to a change of group for the group `name`, given
/// what looking the name up gave.
pub fn resolve_group(name: &str, lookup: GroupLookup) -> (r: ActionResult<u32>)
    ensures
        match lookup {
            GroupLookup::Found(entry) => r == Ok::<u32, ActionErrorKind>(entry.gid),
            GroupLookup::Absent => r is Err && r->Err_0@ == ActionErrorView::GroupNotFound(name@),
            GroupLookup::Failed(errno) => r is Err && r->Err_0@ == ActionErrorView::GettingGroupId(
                name@,
                errno,
            ),
        },
{
    match lookup {
        GroupLookup::Found(entry) => Ok(entry.gid),
        GroupLookup::Absent => Err(ActionErrorKind::GroupNotFound(String::from_str(name))),
        GroupLookup::Failed(errno) => Err(
            ActionErrorKind::GettingGroupId(String::from_str(name), errno),
        ),
    }
}

/// The first way in which the owner or the group of an existing path departs
/// from the planned ones, if there is any.
///
/// The planned user is checked before the planned group; a side that is not
/// planned is not checked and its lookup is not consulted. A name that cannot
/// be looked up or does not exist is reported as such.
pub open spec fn ownership_conflict(
    path: Seq<char>,
    user: Option<Seq<char>>,
    group: Option<Seq<char>>,
    metadata: PathMetadata,
    user_lookup: UserLookup,
    group_lookup: GroupLookup,
) -> Option<ActionErrorView> {
    let user_side = match user {
        Some(name) => match user_lookup {
            UserLookup::Failed(errno) => Some(ActionErrorView::GettingUserId(name, errno)),
            UserLookup::Absent => Some(ActionErrorView::UserNotFound(name)),
            UserLookup::Found(entry) => if metadata.uid != entry.uid {
                Some(ActionErrorView::OwnerMismatch { path: path, user: name })
            } else {
                None
            },
        },
        None => None,
    };
    if user_side is Some {
        user_side
    } else {
        match group {
            Some(name) => match group_lookup {
                GroupLookup::Failed(errno) => Some(ActionErrorView::GettingGroupId(name, errno)),
                GroupLookup::Absent => Some(ActionErrorView::GroupNotFound(name)),
                GroupLookup::Found(entry) => if metadata.gid != entry.gid {
                    Some(ActionErrorView::GroupMismatch { path: path, group: name })
                } else {
                    None
                },
            },
            None => None,
        }
    }
}

/// Checks the owner and the group of an existing path against the planned
/// ones.
pub fn check_ownership(
    path: &str,
    user: &Option<String>,
    group: &Option<String>,
    metadata: PathMetadata,
    user_lookup: UserLookup,
    group_lookup: GroupLookup,
) -> (r: Result<(), ActionErrorKind>)
    ensures
        match ownership_conflict(
            path@,
            user.deep_view(),
            group.deep_view(),
            metadata,
            user_lookup,
            group_lookup,
        ) {
            Some(e) => r is Err && r->Err_0@ == e,
            None => r is Ok,
        },
{
    match user {
        Some(name) => {
            match resolve_user(name.as_str(), user_lookup) {
                Ok(uid) => {
                    if metadata.uid != uid {
                        return Err(
                            ActionErrorKind::OwnerMismatch {
                                path: String::from_str(path),
                                user: name.clone(),
                            },
                        );
                    }
                },
                Err(e) => {
                    return Err(e);
                },
            }
        },
        None => {},
    }
    match group {
        Some(name) => {
            match resolve_group(name.as_str(), group_lookup) {
                Ok(gid) => {
                    if metadata.gid != gid {
                        return Err(
                            ActionErrorKind::GroupMismatch {
                                path: String::from_str(path),
                                group: name.clone(),
                            },
                        );
                    }
                },
                Err(e) => {
                    return Err(e);
                },
            }
        },
        None => {},
    }
    Ok(())
}

/// A copy of an optional text.
pub fn clone_name(name: &Option<String>) -> (r: Option<String>)
    ensures
        r.deep_view() == name.deep_view(),
{
    match name {
        Some(n) => Some(n.clone()),
        None => None,
    }
}

/// What the host reports of an operation it was asked to perform.
#[derive(Clone, Debug, PartialEq, Eq)]
pub enum HostReply {
    /// The operation was carried out.
    Done,
    /// The operation failed, or the command could not be started.
    Failed(IoFailure),
    /// The command ran and left this output.
    Exited(ProcessOutput),
}

/// What [`HostReply`] looks like to contracts: the same value with every text as a
/// sequence of characters.
pub enum HostReplyView {
    Done,
    Failed(IoFailureView),
    Exited(ProcessOutputView),
}

impl View for HostReply {
    type V = HostReplyView;

    open spec fn view(&self) -> HostReplyView {
        match self {
            HostReply::Done => HostReplyView::Done,
            HostReply::Failed(e) => HostReplyView::Failed(e@),
            HostReply::Exited(o) => HostReplyView::Exited(o@),
        }
    }
}

impl HostOpView {
    /// The path that the operation works on, if it works on one.
    pub open spec fn path(self) -> Seq<char> {
        match self {
            HostOpView::CreateDirAll { path } => path,
            HostOpView::WriteFile { path, .. } => path,
            HostOpView::Chown { path, .. } => path,
            HostOpView::SetMode { path, .. } => path,
            HostOpView::RemoveFile { path, .. } => path,
            HostOpView::Run { .. } => Seq::empty(),
        }
    }

    /// Whether the operation counts as done given the host's reply, and the
    /// error that it ends with if it does not.
    ///
    /// An operation on a path fails with the host's failure, reported as a
    /// failure to write or to remove that path; removing a file that is not
    /// there counts as done where the operation says so. A command must start
    /// and exit with code zero, unless it is marked as best effort, in which
    /// case it always counts as done.
    pub open spec fn judged(self, reply: HostReplyView) -> Option<ActionErrorView> {
        match self {
            HostOpView::Run { command, best_effort } => if best_effort {
                None
            } else {
                match reply {
                    HostReplyView::Done => None,
                    HostReplyView::Failed(e) => Some(
                        ActionErrorView::Command { command: command.rendered(), error: e },
                    ),
                    HostReplyView::Exited(output) => if output.succeeded() {
                        None
                    } else {
                        Some(
                            ActionErrorView::CommandOutput {
                                command: command.rendered(),
                                output: output,
                            },
                        )
                    },
                }
            },
            HostOpView::RemoveFile { path, on_missing } => match reply {
                HostReplyView::Failed(e) => if e.kind == IoKind::NotFound && on_missing
                    == OnMissing::Ignore {
                    None
                } else {
                    Some(ActionErrorView::Remove(path, e))
                },
                _ => None,
            },
            _ => match reply {
                HostReplyView::Failed(e) => Some(ActionErrorView::Write(self.path(), e)),
                _ => None,
            },
        }
    }
}

impl HostOp {
    /// Judges the operation by the host's reply.
    pub fn outcome(&self, reply: HostReply) -> (r: Result<(), ActionErrorKind>)
        ensures
            match self@.judged(reply@) {
                None => r is Ok,
                Some(e) => r is Err && r->Err_0@ == e,
            },
    {
        match self {
            HostOp::Run { command, best_effort } => {
                if *best_effort {
                    return Ok(());
                }
                match reply {
                    HostReply::Done => Ok(()),
                    HostReply::Failed(e) => Err(ActionErrorKind::command(command, e)),
                    HostReply::Exited(output) => match execute_command(command, Ok(output)) {
                        Ok(_) => Ok(()),
                        Err(e) => Err(e),
                    },
                }
            },
            HostOp::RemoveFile { path, on_missing } => match reply {
                HostReply::Failed(e) => match remove_file(*on_missing, Err(e)) {
                    Ok(()) => Ok(()),
                    Err(e) => Err(ActionErrorKind::Remove(path.clone(), e)),
                },
                _ => Ok(()),
            },
            HostOp::CreateDirAll { path } => Self::written(path, reply),
            HostOp::WriteFile { path, content, sync } => Self::written(path, reply),
            HostOp::Chown { path, user, group } => Self::written(path, reply),
            HostOp::SetMode { path, mode } => Self::written(path, reply),
        }
    }

    fn written(path: &String, reply: HostReply) -> (r: Result<(), ActionErrorKind>)
        ensures
            match reply {
                HostReply::Failed(e) => r is Err && r->Err_0@ == ActionErrorView::Write(path@, e@),
                _ => r is Ok,
            },
    {
        match reply {
            HostReply::Failed(e) => Err(ActionErrorKind::Write(path.clone(), e)),
            _ => Ok(()),
        }
    }
}

/// The numeric ids to hand to a change of owner, given the planned names and
/// what looking them up gave: the user's side is resolved first, a side that
/// is not planned stays as it is and its lookup is not consulted.
pub open spec fn resolved_owner(
    user: Option<Seq<char>>,
    group: Option<Seq<char>>,
    user_lookup: UserLookup,
    group_lookup: GroupLookup,
) -> Result<(Option<u32>, Option<u32>), ActionErrorView> {
    let uid: Result<Option<u32>, ActionErrorView> = match user {
        None => Ok(None),
        Some(name) => match user_lookup {
            UserLookup::Found(entry) => Ok(Some(entry.uid)),
            UserLookup::Absent => Err(ActionErrorView::UserNotFound(name)),
            UserLookup::Failed(errno) => Err(ActionErrorView::GettingUserId(name, errno)),
        },
    };
    match uid {
        Err(e) => Err(e),
        Ok(uid) => match group {
            None => Ok((uid, None)),
            Some(name) => match group_lookup {
                GroupLookup::Found(entry) => Ok((uid, Some(entry.gid))),
                GroupLookup::Absent => Err(ActionErrorView::GroupNotFound(name)),
                GroupLookup::Failed(errno) => Err(ActionErrorView::GettingGroupId(name, errno)),
            },
        },
    }
}

/// Resolves the names of a change of owner to numeric ids.
pub fn resolve_owner(
    user: &Option<String>,
    group: &Option<String>,
    user_lookup: UserLookup,
    group_lookup: GroupLookup,
) -> (r: Result<(Option<u32>, Option<u32>), ActionErrorKind>)
    ensures
        match resolved_owner(user.deep_view(), group.deep_view(), user_lookup, group_lookup) {
            Ok(ids) => r is Ok && r->Ok_0 == ids,
            Err(e) => r is Err && r->Err_0@ == e,
        },
{
    let uid = match user {
        Some(name) => match resolve_user(name.as_str(), user_lookup) {
            Ok(uid) => Some(uid),
            Err(e) => {
                return Err(e);
            },
        },
        None => None,
    };
    let gid = match group {
        Some(name) => match resolve_group(name.as_str(), group_lookup) {
            Ok(gid) => Some(gid),
            Err(e) => {
                return Err(e);
            },
        },
        None => None,
    };
    Ok((uid, gid))
}

/// Something that the host must be able to do and that more than one command
/// can do for it.
#[derive(Clone, Copy, Debug, PartialEq, Eq, Structural)]
pub enum Capability {
    UserCreation,
    UserDeletion,
    GroupCreation,
    GroupDeletion,
}

impl Capability {
    /// The command that is taken for the capability if it is at hand.
    pub open spec fn preferred(self) -> Tool {
        match self {
            Capability::UserCreation => Tool::Useradd,
            Capability::UserDeletion => Tool::Userdel,
            Capability::GroupCreation => Tool::Groupadd,
            Capability::GroupDeletion => Tool::Groupdel,
        }
    }

    /// The command that is taken for the capability if the preferred one is
    /// not at hand.
    pub open spec fn fallback(self) -> Tool {
        match self {
            Capability::UserCreation => Tool::Adduser,
            Capability::UserDeletion => Tool::Deluser,
            Capability::GroupCreation => Tool::Addgroup,
            Capability::GroupDeletion => Tool::Delgroup,
        }
    }

    /// The error of a host that lacks the capability.
    pub open spec fn missing(self) -> ActionErrorView {
        match self {
            Capability::UserCreation => ActionErrorView::MissingUserCreationCommand,
            Capability::UserDeletion => ActionErrorView::MissingUserDeletionCommand,
            Capability::GroupCreation => ActionErrorView::MissingGroupCreationCommand,
            Capability::GroupDeletion => ActionErrorView::MissingGroupDeletionCommand,
        }
    }

    /// Whether the host has the capability: whether any of its commands is at
    /// hand.
    pub open spec fn provided(self, tools: Tools) -> bool {
        tools.has(self.preferred()) || tools.has(self.fallback())
    }

    /// The command that provides the capability on a host with `tools`: of
    /// the candidates, in their order, the first that is at hand.
    pub open spec fn chosen(self, tools: Tools) -> Result<Tool, ActionErrorView> {
        if tools.has(self.preferred()) {
            Ok(self.preferred())
        } else if tools.has(self.fallback()) {
            Ok(self.fallback())
        } else {
            Err(self.missing())
        }
    }

    /// The candidates for the capability, best first.
    pub fn candidates(self) -> (r: (Tool, Tool))
        ensures
            r.0 == self.preferred(),
            r.1 == self.fallback(),
    {
        match self {
            Capability::UserCreation => (Tool::Useradd, Tool::Adduser),
            Capability::UserDeletion => (Tool::Userdel, Tool::Deluser),
            Capability::GroupCreation => (Tool::Groupadd, Tool::Addgroup),
            Capability::GroupDeletion => (Tool::Groupdel, Tool::Delgroup),
        }
    }

    /// The error of a host that lacks the capability.
    pub fn unavailable(self) -> (r: ActionErrorKind)
        ensures
            r@ == self.missing(),
    {
        match self {
            Capability::UserCreation => ActionErrorKind::MissingUserCreationCommand,
            Capability::UserDeletion => ActionErrorKind::MissingUserDeletionCommand,
            Capability::GroupCreation => ActionErrorKind::MissingGroupCreationCommand,
            Capability::GroupDeletion => ActionErrorKind::MissingGroupDeletionCommand,
        }
    }

    /// Chooses the command for the capability: the first candidate that is
    /// at hand wins.
    pub fn select(self, tools: &Tools) -> (r: Result<Tool, ActionErrorKind>)
        ensures
            match self.chosen(*tools) {
                Ok(tool) => r == Ok::<Tool, ActionErrorKind>(tool),
                Err(e) => r is Err && r->Err_0@ == e,
            },
    {
        let (preferred, fallback) = self.candidates();
        if tools.found(preferred) {
            Ok(preferred)
        } else if tools.found(fallback) {
            Ok(fallback)
        } else {
            Err(self.unavailable())
        }
    }

    /// Fails unless the host has the capability.
    pub fn require(self, tools: &Tools) -> (r: Result<(), ActionErrorKind>)
        ensures
            self.provided(*tools) ==> r is Ok,
            !self.provided(*tools) ==> r is Err && r->Err_0@ == self.missing(),
    {
        match self.select(tools) {
            Ok(_) => Ok(()),
            Err(e) => Err(e),
        }
    }
}

} // verus!
