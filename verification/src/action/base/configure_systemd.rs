//! Installation of the service unit that runs the servers.

use vstd::prelude::*;
use vstd::string::*;

use crate::action::base::{check_systemd_exists, SystemdProbe};
use crate::action::lib::{HostOp, HostOpView, OnMissing};
use crate::action::stateful::{ActionErrorKind, ActionErrorView, ActionState, StatefulAction};
use crate::host::{CommandLine, CommandLineView, FileProbe, FileProbeView};

verus! {

/// Where the unit file goes.
pub const SERVICE_DESTINATION: &'static str = "/etc/systemd/system/feather@.service";

/// The unit file: a template unit whose instance name is the name of a
/// server's working directory.
pub const SERVICE_TEMPLATE: &'static str =
    "[Unit]\nDescription=Feather Minecraft server (%i)\nAfter=network-online.target\nWants=network-online.target\n\n[Service]\nType=simple\nUser=feather\nGroup=feather\nWorkingDirectory=/opt/feather/servers/%i\nEnvironmentFile=/opt/feather/servers/%i/feather.env\nExecStart=/bin/sh -c 'exec \"$JAVA_BIN\" $JAVA_ARGS -jar \"$MINECRAFT_JAR\" nogui'\nRestart=on-failure\nRestartSec=5\n\n[Install]\nWantedBy=multi-user.target\n";

/// The units that the template stands for, as the service manager's commands
/// name them.
pub const SERVICE_INSTANCES: &'static str = "feather@*.service";

/// Writes the unit file `content` to `service_dest`; with `start_daemon`, also
/// makes the service manager read it.
#[derive(Clone, Debug)]
pub struct ConfigureSystemdService {
    service_dest: String,
    start_daemon: bool,
    content: String,
}

/// What [`ConfigureSystemdService`] looks like to contracts: the same value with every text as a
/// sequence of characters.
pub struct ConfigureSystemdServiceView {
    pub service_dest: Seq<char>,
    pub start_daemon: bool,
    pub content: Seq<char>,
}

impl View for ConfigureSystemdService {
    type V = ConfigureSystemdServiceView;

    closed spec fn view(&self) -> ConfigureSystemdServiceView {
        ConfigureSystemdServiceView {
            service_dest: self.service_dest@,
            start_daemon: self.start_daemon,
            content: self.content@,
        }
    }
}

/// What planning the unit file needs to know about the host.
#[derive(Clone, Debug)]
pub struct ServiceProbe {
    pub systemd: SystemdProbe,
    /// What is at the unit file's path.
    pub unit_file: FileProbe,
}

/// What [`ServiceProbe`] looks like to contracts: the same value with every text as a
/// sequence of characters.
pub struct ServiceProbeView {
    pub systemd: SystemdProbe,
    pub unit_file: FileProbeView,
}

impl View for ServiceProbe {
    type V = ServiceProbeView;

    open spec fn view(&self) -> ServiceProbeView {
        ServiceProbeView { systemd: self.systemd, unit_file: self.unit_file@ }
    }
}

/// The invocation of the service manager's control command with `args`, in a
/// process group of its own and without standard input.
pub open spec fn systemctl_command(args: Seq<Seq<char>>) -> CommandLineView {
    CommandLineView {
        program: "systemctl"@,
        args: args,
        process_group: Some(0i32),
        null_stdin: true,
    }
}

/// What planning `service` comes to on a host that looks like `probe`.
///
/// Without systemd nothing can be planned. A unit file that is not there is
/// to be written; one that is there must hold exactly the planned content,
/// and then nothing is left to do; one that cannot be read or holds something
/// else is an error.
pub open spec fn service_plan(service: ConfigureSystemdServiceView, probe: ServiceProbeView)
    -> Result<ActionState, ActionErrorView> {
    if !probe.systemd.present() {
        Err(ActionErrorView::SystemdMissing)
    } else {
        match probe.unit_file {
            FileProbeView::Missing => Ok(ActionState::Uncompleted),
            FileProbeView::Unreadable(e) => Err(ActionErrorView::Read(service.service_dest, e)),
            FileProbeView::Content(found) => if found != service.content {
                Err(ActionErrorView::DifferentContent(service.service_dest))
            } else {
                Ok(ActionState::Completed)
            },
        }
    }
}

/// The operations that install `service`: write the unit file and, if asked
/// to, make the service manager reload.
pub open spec fn service_installation(service: ConfigureSystemdServiceView) -> Seq<HostOpView> {
    let written = seq![
        HostOpView::WriteFile {
            path: service.service_dest,
            content: service.content,
            sync: false,
        },
    ];
    if service.start_daemon {
        written.push(
            HostOpView::Run {
                command: systemctl_command(seq!["daemon-reload"@]),
                best_effort: false,
            },
        )
    } else {
        written
    }
}

/// The operations that remove `service`: if it had been loaded, stop and
/// disable every instance as far as that goes; then remove the unit file,
/// not minding if it is gone, and make the service manager reload.
pub open spec fn service_removal(service: ConfigureSystemdServiceView) -> Seq<HostOpView> {
    let stopped = if service.start_daemon {
        seq![
            HostOpView::Run {
                command: systemctl_command(seq!["stop"@, SERVICE_INSTANCES@]),
                best_effort: true,
            },
            HostOpView::Run {
                command: systemctl_command(seq!["disable"@, SERVICE_INSTANCES@]),
                best_effort: true,
            },
        ]
    } else {
        Seq::empty()
    };
    stopped.push(
        HostOpView::RemoveFile {
            path: service.service_dest,
            on_missing: OnMissing::Ignore,
        },
    ).push(
        HostOpView::Run { command: systemctl_command(seq!["daemon-reload"@]), best_effort: false },
    )
}

/// Builds the invocation of the service manager's control command with one
/// argument.
pub fn systemctl1(first: &str) -> (r: CommandLine)
    ensures
        r@ == systemctl_command(seq![first@]),
{
    let r = CommandLine::new("systemctl").process_group(0).arg(first).null_stdin();
    r
}

/// Builds the invocation of the service manager's control command with two
/// arguments.
pub fn systemctl2(first: &str, second: &str) -> (r: CommandLine)
    ensures
        r@ == systemctl_command(seq![first@, second@]),
{
    let r = CommandLine::new("systemctl").process_group(0).arg(first).arg(second).null_stdin();
    assert(r@.args =~= seq![first@, second@]);
    r
}

/// Builds the invocation of the service manager's control command with three
/// arguments.
pub fn systemctl3(first: &str, second: &str, third: &str) -> (r: CommandLine)
    ensures
        r@ == systemctl_command(seq![first@, second@, third@]),
{
    let r = CommandLine::new("systemctl").process_group(0).arg(first).arg(second).arg(
        third,
    ).null_stdin();
    assert(r@.args =~= seq![first@, second@, third@]);
    r
}

impl ConfigureSystemdService {
    /// Plans the unit file at its usual place with its usual content, without
    /// a reload of the service manager.
    pub fn default(probe: &ServiceProbe) -> (r: Result<StatefulAction<Self>, ActionErrorKind>)
        ensures
            ({
                let service = ConfigureSystemdServiceView {
                    service_dest: SERVICE_DESTINATION@,
                    start_daemon: false,
                    content: SERVICE_TEMPLATE@,
                };
                match service_plan(service, probe@) {
                    Ok(state) => r is Ok && r->Ok_0.action()@ == service && r->Ok_0.state()
                        == state,
                    Err(e) => r is Err && r->Err_0@ == e,
                }
            }),
    {
        Self::plan(SERVICE_DESTINATION, SERVICE_TEMPLATE, false, probe)
    }

    /// Plans the unit file `content` at `service_dest`.
    pub fn plan(service_dest: &str, content: &str, start_daemon: bool, probe: &ServiceProbe) -> (r:
        Result<StatefulAction<Self>, ActionErrorKind>)
        ensures
            ({
                let service = ConfigureSystemdServiceView {
                    service_dest: service_dest@,
                    start_daemon: start_daemon,
                    content: content@,
                };
                match service_plan(service, probe@) {
                    Ok(state) => r is Ok && r->Ok_0.action()@ == service && r->Ok_0.state()
                        == state,
                    Err(e) => r is Err && r->Err_0@ == e,
                }
            }),
    {
        match check_systemd_exists(probe.systemd) {
            Ok(()) => {},
            Err(e) => {
                return Err(e);
            },
        }
        let this = Self {
            start_daemon,
            service_dest: String::from_str(service_dest),
            content: String::from_str(content),
        };
        match &probe.unit_file {
            FileProbe::Missing => Ok(StatefulAction::uncompleted(this)),
            FileProbe::Unreadable(e) => Err(
                ActionErrorKind::Read(String::from_str(service_dest), e.clone()),
            ),
            FileProbe::Content(found) => {
                if *found != this.content {
                    Err(ActionErrorKind::DifferentContent(String::from_str(service_dest)))
                } else {
                    Ok(StatefulAction::completed(this))
                }
            },
        }
    }

    /// The path of the unit file.
    pub fn service_dest(&self) -> (r: &String)
        ensures
            r@ == self@.service_dest,
    {
        &self.service_dest
    }

    /// The operations that install the unit file.
    pub fn execute_steps(&self) -> (r: Vec<HostOp>)
        ensures
            r.deep_view() == service_installation(self@),
    {
        let mut r: Vec<HostOp> = Vec::new();
        r.push(
            HostOp::WriteFile {
                path: self.service_dest.clone(),
                content: self.content.clone(),
                sync: false,
            },
        );
        if self.start_daemon {
            r.push(HostOp::Run { command: systemctl1("daemon-reload"), best_effort: false });
        }
        r
    }

    /// The operations that remove the unit file again.
    pub fn revert_steps(&self) -> (r: Vec<HostOp>)
        ensures
            r.deep_view() == service_removal(self@),
    {
        let mut r: Vec<HostOp> = Vec::new();
        if self.start_daemon {
            r.push(
                HostOp::Run { command: systemctl2("stop", SERVICE_INSTANCES), best_effort: true },
            );
            r.push(
                HostOp::Run {
                    command: systemctl2("disable", SERVICE_INSTANCES),
                    best_effort: true,
                },
            );
        }
        r.push(
            HostOp::RemoveFile {
                path: self.service_dest.clone(),
                on_missing: OnMissing::Ignore,
            },
        );
        r.push(HostOp::Run { command: systemctl1("daemon-reload"), best_effort: false });
        r
    }
}

} // verus!
