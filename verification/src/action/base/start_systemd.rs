//! Starting, and optionally enabling, a service unit.

use vstd::prelude::*;
use vstd::string::*;

use crate::action::base::configure_systemd::{systemctl2, systemctl3, systemctl_command};
use crate::action::base::{check_systemd_exists, SystemdProbe};
use crate::action::lib::{HostOp, HostOpView};
use crate::action::stateful::{ActionErrorKind, ActionErrorView, ActionState, StatefulAction};
use crate::host::{CommandLine, CommandLineView, IoFailure, IoFailureView, ProcessOutput,
    ProcessOutputView};

verus! {

/// Starts the unit `unit`; with `enable`, also enables it for later boots.
#[derive(Clone, Debug)]
pub struct StartSystemd {
    unit: String,
    enable: bool,
}

/// What [`StartSystemd`] looks like to contracts: the same value with every text as a
/// sequence of characters.
pub struct StartSystemdView {
    pub unit: Seq<char>,
    pub enable: bool,
}

impl View for StartSystemd {
    type V = StartSystemdView;

    closed spec fn view(&self) -> StartSystemdView {
        StartSystemdView { unit: self.unit@, enable: self.enable }
    }
}

/// What asking the service manager whether a unit is active gave.
#[derive(Clone, Debug)]
pub enum ActivityProbe {
    /// The question could not be asked: the command did not start.
    Unasked(IoFailure),
    /// The command ran and left this output; it succeeds for an active unit.
    Answered(ProcessOutput),
}

/// What [`ActivityProbe`] looks like to contracts: the same value with every text as a
/// sequence of characters.
pub enum ActivityProbeView {
    Unasked(IoFailureView),
    Answered(ProcessOutputView),
}

impl View for ActivityProbe {
    type V = ActivityProbeView;

    open spec fn view(&self) -> ActivityProbeView {
        match self {
            ActivityProbe::Unasked(e) => ActivityProbeView::Unasked(e@),
            ActivityProbe::Answered(o) => ActivityProbeView::Answered(o@),
        }
    }
}

/// What planning the start of a unit needs to know about the host.
#[derive(Clone, Debug)]
pub struct StartProbe {
    pub systemd: SystemdProbe,
    /// Outcome of [`StartSystemd::is_active_command`] for the unit.
    pub activity: ActivityProbe,
}

/// What [`StartProbe`] looks like to contracts: the same value with every text as a
/// sequence of characters.
pub struct StartProbeView {
    pub systemd: SystemdProbe,
    pub activity: ActivityProbeView,
}

impl View for StartProbe {
    type V = StartProbeView;

    open spec fn view(&self) -> StartProbeView {
        StartProbeView { systemd: self.systemd, activity: self.activity@ }
    }
}

/// The question whether `unit` is active, as a command.
pub open spec fn activity_question(unit: Seq<char>) -> CommandLineView {
    CommandLineView {
        program: "systemctl"@,
        args: seq!["is-active"@, unit],
        process_group: None,
        null_stdin: false,
    }
}

/// What planning `start` comes to on a host that looks like `probe`.
///
/// Without systemd nothing can be planned, and neither if the service
/// manager cannot be asked. A unit that reports itself active is a completed
/// action, any other an uncompleted one.
pub open spec fn start_plan(start: StartSystemdView, probe: StartProbeView) -> Result<
    ActionState,
    ActionErrorView,
> {
    if !probe.systemd.present() {
        Err(ActionErrorView::SystemdMissing)
    } else {
        match probe.activity {
            ActivityProbeView::Unasked(e) => Err(
                ActionErrorView::Command {
                    command: activity_question(start.unit).rendered(),
                    error: e,
                },
            ),
            ActivityProbeView::Answered(output) => if output.succeeded() {
                Ok(ActionState::Completed)
            } else {
                Ok(ActionState::Uncompleted)
            },
        }
    }
}

/// The operations that start `start`'s unit: one command, which also enables
/// the unit if that is asked for.
pub open spec fn unit_start(start: StartSystemdView) -> Seq<HostOpView> {
    if start.enable {
        seq![
            HostOpView::Run {
                command: systemctl_command(seq!["enable"@, "--now"@, start.unit]),
                best_effort: false,
            },
        ]
    } else {
        seq![
            HostOpView::Run {
                command: systemctl_command(seq!["start"@, start.unit]),
                best_effort: false,
            },
        ]
    }
}

/// The operations that undo `start`: disable the unit, as far as that goes,
/// if it had been enabled; then stop it.
pub open spec fn unit_stop(start: StartSystemdView) -> Seq<HostOpView> {
    let disabled = if start.enable {
        seq![
            HostOpView::Run {
                command: systemctl_command(seq!["disable"@, start.unit]),
                best_effort: true,
            },
        ]
    } else {
        Seq::empty()
    };
    disabled.push(
        HostOpView::Run {
            command: systemctl_command(seq!["stop"@, start.unit]),
            best_effort: false,
        },
    )
}

impl StartSystemd {
    /// The command that asks whether the unit `name` is active.
    pub fn is_active_command(name: &str) -> (r: CommandLine)
        ensures
            r@ == activity_question(name@),
    {
        let r = CommandLine::new("systemctl").arg("is-active").arg(name);
        assert(r@.args =~= seq!["is-active"@, name@]);
        r
    }

    /// Plans the start of the unit `name`.
    pub fn plan(name: &str, enable: bool, probe: &StartProbe) -> (r: Result<
        StatefulAction<Self>,
        ActionErrorKind,
    >)
        ensures
            ({
                let start = StartSystemdView { unit: name@, enable: enable };
                match start_plan(start, probe@) {
                    Ok(state) => r is Ok && r->Ok_0.action()@ == start && r->Ok_0.state() == state,
                    Err(e) => r is Err && r->Err_0@ == e,
                }
            }),
    {
        match check_systemd_exists(probe.systemd) {
            Ok(()) => {},
            Err(e) => {
                return Err(e);
            },
        }
        let this = Self { unit: String::from_str(name), enable };
        match &probe.activity {
            ActivityProbe::Unasked(e) => Err(
                ActionErrorKind::command(&Self::is_active_command(name), e.clone()),
            ),
            ActivityProbe::Answered(output) => {
                if output.success() {
                    Ok(StatefulAction::completed(this))
                } else {
                    Ok(StatefulAction::uncompleted(this))
                }
            },
        }
    }

    /// The operations that start the unit.
    pub fn execute_steps(&self) -> (r: Vec<HostOp>)
        ensures
            r.deep_view() == unit_start(self@),
    {
        let mut r: Vec<HostOp> = Vec::new();
        if self.enable {
            r.push(
                HostOp::Run {
                    command: systemctl3("enable", "--now", self.unit.as_str()),
                    best_effort: false,
                },
            );
        } else {
            r.push(
                HostOp::Run { command: systemctl2("start", self.unit.as_str()), best_effort: false },
            );
        }
        r
    }

    /// The operations that stop the unit again.
    pub fn revert_steps(&self) -> (r: Vec<HostOp>)
        ensures
            r.deep_view() == unit_stop(self@),
    {
        let mut r: Vec<HostOp> = Vec::new();
        if self.enable {
            r.push(
                HostOp::Run {
                    command: systemctl2("disable", self.unit.as_str()),
                    best_effort: true,
                },
            );
        }
        r.push(HostOp::Run { command: systemctl2("stop", self.unit.as_str()), best_effort: false });
        r
    }
}

} // verus!
