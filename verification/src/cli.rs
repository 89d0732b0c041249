//! The five operations on a container, each as a plan, and the session that
//! works a plan off against the host's replies.

use vstd::prelude::*;
use vstd::string::*;
use crate::chroot::{best_effort, enter_plan, required, start, unmount, unmount_steps};
use crate::compress::{extension_or_empty, format_of, Format};
use crate::config::{default_config, init_steps, login_envs, read_step, Config, ConfigView};
use crate::protocol::{
    append_steps,
    exit_code_of,
    push_step,
    verdict_of,
    Failure,
    Policy,
    Reply,
    ReplyView,
    Report,
    ReportView,
    Request,
    RequestView,
    Step,
    StepView,
    Verdict,
};
use crate::utils::{join, joined};

verus! {

/// What the user asks for.
#[derive(Clone, Debug, PartialEq, Eq)]
pub enum Command {
    /// Unpack the archive `rootfs` into the empty directory `target` and run
    /// the one-shot setup inside it.
    Install { rootfs: String, target: String },
    /// Unmount the container at `target` and delete it.
    Remove { target: String },
    /// Open the configured shell inside the container at `target`.
    Login { target: String },
    /// Unmount what is mounted under the container at `target`.
    Unmount { target: String },
    /// Archive the container at `target` into the file `output`.
    Backup { target: String, output: String },
}

/// A [`Command`] with its paths as sequences of characters.
pub enum CommandView {
    Install { rootfs: Seq<char>, target: Seq<char> },
    Remove { target: Seq<char> },
    Login { target: Seq<char> },
    Unmount { target: Seq<char> },
    Backup { target: Seq<char>, output: Seq<char> },
}

impl View for Command {
    type V = CommandView;

    open spec fn view(&self) -> CommandView {
        match self {
            Command::Install { rootfs, target } => CommandView::Install {
                rootfs: rootfs@,
                target: target@,
            },
            Command::Remove { target } => CommandView::Remove { target: target@ },
            Command::Login { target } => CommandView::Login { target: target@ },
            Command::Unmount { target } => CommandView::Unmount { target: target@ },
            Command::Backup { target, output } => CommandView::Backup {
                target: target@,
                output: output@,
            },
        }
    }
}

/// What follows once the last step of a plan has been taken.
#[derive(Clone, Copy, Debug, PartialEq, Eq)]
pub enum After {
    /// The operation is done: the process leaves with code 0.
    Exit,
    /// The operation has failed: the process leaves with the failure's code.
    Fail(Failure),
    /// The container is entered: the plan of the entry takes over.
    Enter,
}

/// The resolver configuration that an install puts into a container: two
/// name servers, one to a line.
pub open spec fn resolver_stub() -> Seq<char> {
    "nameserver 8.8.8.8\nnameserver 114.114.114.114"@
}

/// The directory in which a process that enters a container starts.
pub open spec fn entry_home() -> Seq<char> {
    "/root"@
}

/// Where the setup script runs from, seen from inside the container.
pub open spec fn setup_command() -> Seq<char> {
    "/tmp/usergroup.sh"@
}

/// The interpreter of the setup script: `ash` where the host has it, else
/// `bash`.
pub open spec fn setup_shell(ash: bool) -> Seq<char> {
    if ash {
        "/bin/ash"@
    } else {
        "/bin/bash"@
    }
}

/// The host's hook that hides mounts from other processes.
pub open spec fn hide_hook() -> Seq<char> {
    "/data/adb/ksu/bin/ksu_susfs"@
}

/// The permission bits that open a directory to everyone.
pub open spec fn open_mode() -> u32 {
    0o777
}

/// The checks before anything is installed: the archive must exist; the
/// target is created where it is missing, must be no regular file and must
/// hold no entry.
pub open spec fn validation_steps(rootfs: Seq<char>, target: Seq<char>) -> Seq<StepView> {
    seq![
        StepView {
            request: RequestView::Probe { path: rootfs },
            policy: Policy::RejectIf(false, Failure::ArchiveMissing),
        },
        StepView { request: RequestView::Probe { path: target }, policy: Policy::SkipNextIf(true) },
        required(RequestView::CreateDirAll { path: target }, Failure::TargetUncreatable),
        StepView {
            request: RequestView::ProbeFile { path: target },
            policy: Policy::RejectIf(true, Failure::TargetIsFile),
        },
        StepView {
            request: RequestView::CountEntries { path: target },
            policy: Policy::RejectUnlessEmpty,
        },
    ]
}

/// What fills the target of an install: the archive is unpacked, the resolver
/// configuration replaced, the container's configuration created unless it
/// has one, the setup script written; then the configuration is read back and
/// the host asked which shell it has.
pub open spec fn population_steps(
    format: Format,
    rootfs: Seq<char>,
    target: Seq<char>,
    script: Seq<char>,
) -> Seq<StepView> {
    seq![
        required(RequestView::Unpack { format, archive: rootfs, target }, Failure::Archive),
        best_effort(
            RequestView::RemoveFile { path: joined(target, "etc/resolv.conf"@) },
            Failure::Io,
        ),
        required(
            RequestView::WriteFile {
                path: joined(target, "etc/resolv.conf"@),
                contents: resolver_stub(),
            },
            Failure::Io,
        ),
    ] + init_steps(target) + seq![
        required(
            RequestView::WriteFile { path: joined(target, "tmp/usergroup.sh"@), contents: script },
            Failure::Io,
        ),
        read_step(target),
        StepView { request: RequestView::Probe { path: "/bin/ash"@ }, policy: Policy::Remember },
    ]
}

/// The plan of an install up to the entry: the checks, and where the
/// archive's extension names a format, what fills the target.
pub open spec fn install_plan(rootfs: Seq<char>, target: Seq<char>, script: Seq<char>) -> Seq<
    StepView,
> {
    validation_steps(rootfs, target) + (match format_of(extension_or_empty(rootfs)) {
        Some(format) => population_steps(format, rootfs, target, script),
        None => Seq::empty(),
    })
}

/// What follows the plan of an install: the entry, or where the archive's
/// extension names no format, the failure that says so.
pub open spec fn install_after(rootfs: Seq<char>) -> After {
    match format_of(extension_or_empty(rootfs)) {
        Some(_) => After::Enter,
        None => After::Fail(Failure::UnknownFormat),
    }
}

/// The plan of a login up to the entry: the configuration is read, and the
/// host's hook that hides mounts is run where the host has one.
pub open spec fn login_plan(target: Seq<char>) -> Seq<StepView> {
    seq![
        read_step(target),
        StepView {
            request: RequestView::Probe { path: hide_hook() },
            policy: Policy::SkipNextIf(false),
        },
        best_effort(
            RequestView::Spawn {
                program: hide_hook(),
                args: seq!["hide_sus_mnts_for_all_procs"@, "0"@],
            },
            Failure::Hook,
        ),
    ]
}

/// The plan of an unmount: the container's `proc`, then its `sys`.
pub open spec fn unmount_plan(target: Seq<char>) -> Seq<StepView> {
    unmount_steps(joined(target, "proc"@)) + unmount_steps(joined(target, "sys"@))
}

/// The plan of a removal: unmount, clear the attributes that would keep
/// files from being deleted, open the root's permissions, delete the tree.
pub open spec fn remove_plan(target: Seq<char>) -> Seq<StepView> {
    unmount_plan(target) + seq![
        StepView {
            request: RequestView::Spawn {
                program: "chattr"@,
                args: seq!["-R"@, "-i"@, "-a"@, target],
            },
            policy: Policy::Tool(Failure::Attributes),
        },
        required(RequestView::SetPermissions { path: target, mode: open_mode() }, Failure::Io),
        required(RequestView::RemoveDirAll { path: target }, Failure::Io),
    ]
}

/// The plan of a backup: the whole container goes into one archive.
pub open spec fn backup_plan(target: Seq<char>, output: Seq<char>) -> Seq<StepView> {
    seq![required(RequestView::Pack { source: target, output }, Failure::Archive)]
}

/// The plan that `command` starts with.
pub open spec fn first_plan(command: CommandView, script: Seq<char>) -> Seq<StepView> {
    match command {
        CommandView::Install { rootfs, target } => install_plan(rootfs, target, script),
        CommandView::Remove { target } => remove_plan(target),
        CommandView::Login { target } => login_plan(target),
        CommandView::Unmount { target } => unmount_plan(target),
        CommandView::Backup { target, output } => backup_plan(target, output),
    }
}

/// What follows the plan that `command` starts with.
pub open spec fn first_after(command: CommandView) -> After {
    match command {
        CommandView::Install { rootfs, .. } => install_after(rootfs),
        CommandView::Login { .. } => After::Enter,
        _ => After::Exit,
    }
}

/// The plan by which `command` enters its container, given the configuration
/// that was read and whether the host has `ash`. An install runs the setup
/// script with the stored environment as it stands; a login runs the
/// configured shell with the environment of a login. Both start in `/root`.
/// The other commands enter nothing.
pub open spec fn entry_plan(command: CommandView, config: ConfigView, ash: bool, unshare: bool) -> Option<
    Seq<StepView>,
> {
    match command {
        CommandView::Install { target, .. } => Some(
            enter_plan(
                target,
                entry_home(),
                config.envs,
                setup_shell(ash),
                setup_command(),
                unshare,
            ),
        ),
        CommandView::Login { target } => Some(
            enter_plan(
                target,
                entry_home(),
                login_envs(config),
                config.shell.main,
                config.shell.args,
                unshare,
            ),
        ),
        _ => None,
    }
}

/// Whether the user named `user` may manage containers: only `root` may.
pub fn may_run(user: &str) -> (allowed: bool)
    ensures
        allowed == (user@ == "root"@),
{
    String::from_str(user) == String::from_str("root")
}

/// Lays out the checks that come before an install.
pub fn validate(rootfs: &str, target: &str) -> (steps: Vec<Step>)
    ensures
        steps.deep_view() == validation_steps(rootfs@, target@),
{
    let mut steps: Vec<Step> = Vec::new();
    push_step(
        &mut steps,
        Step {
            request: Request::Probe { path: String::from_str(rootfs) },
            policy: Policy::RejectIf(false, Failure::ArchiveMissing),
        },
    );
    push_step(
        &mut steps,
        Step {
            request: Request::Probe { path: String::from_str(target) },
            policy: Policy::SkipNextIf(true),
        },
    );
    push_step(
        &mut steps,
        Step {
            request: Request::CreateDirAll { path: String::from_str(target) },
            policy: Policy::Required(Failure::TargetUncreatable),
        },
    );
    push_step(
        &mut steps,
        Step {
            request: Request::ProbeFile { path: String::from_str(target) },
            policy: Policy::RejectIf(true, Failure::TargetIsFile),
        },
    );
    push_step(
        &mut steps,
        Step {
            request: Request::CountEntries { path: String::from_str(target) },
            policy: Policy::RejectUnlessEmpty,
        },
    );
    assert(steps.deep_view() =~= validation_steps(rootfs@, target@));
    steps
}

/// Lays out what fills the target of an install from an archive of the
/// format `format`.
pub fn populate(format: Format, rootfs: &str, target: &str, script: &str) -> (steps: Vec<Step>)
    ensures
        steps.deep_view() == population_steps(format, rootfs@, target@, script@),
{
    let resolver = join(target, "etc/resolv.conf");
    let mut steps: Vec<Step> = Vec::new();
    push_step(
        &mut steps,
        Step {
            request: Request::Unpack {
                format,
                archive: String::from_str(rootfs),
                target: String::from_str(target),
            },
            policy: Policy::Required(Failure::Archive),
        },
    );
    push_step(
        &mut steps,
        Step {
            request: Request::RemoveFile { path: resolver.clone() },
            policy: Policy::BestEffort(Failure::Io),
        },
    );
    push_step(
        &mut steps,
        Step {
            request: Request::WriteFile {
                path: resolver,
                contents: String::from_str("nameserver 8.8.8.8\nnameserver 114.114.114.114"),
            },
            policy: Policy::Required(Failure::Io),
        },
    );
    append_steps(&mut steps, Config::init(target));
    push_step(
        &mut steps,
        Step {
            request: Request::WriteFile {
                path: join(target, "tmp/usergroup.sh"),
                contents: String::from_str(script),
            },
            policy: Policy::Required(Failure::Io),
        },
    );
    push_step(&mut steps, Config::read_config(target));
    push_step(
        &mut steps,
        Step {
            request: Request::Probe { path: String::from_str("/bin/ash") },
            policy: Policy::Remember,
        },
    );
    assert(steps.deep_view() =~= population_steps(format, rootfs@, target@, script@));
    steps
}

/// Lays out an install up to the entry into the new container.
pub fn install(rootfs: &str, target: &str, script: &str) -> (plan: (Vec<Step>, After))
    ensures
        plan.0.deep_view() == install_plan(rootfs@, target@, script@),
        plan.1 == install_after(rootfs@),
{
    let mut steps = validate(rootfs, target);
    match Format::of_path(rootfs) {
        Some(format) => {
            append_steps(&mut steps, populate(format, rootfs, target, script));
            (steps, After::Enter)
        },
        None => {
            assert(steps.deep_view() =~= install_plan(rootfs@, target@, script@));
            (steps, After::Fail(Failure::UnknownFormat))
        },
    }
}

/// Lays out a login up to the entry into the container.
pub fn login(target: &str) -> (steps: Vec<Step>)
    ensures
        steps.deep_view() == login_plan(target@),
{
    let mut args: Vec<String> = Vec::new();
    args.push(String::from_str("hide_sus_mnts_for_all_procs"));
    args.push(String::from_str("0"));
    assert(args.deep_view() =~= seq!["hide_sus_mnts_for_all_procs"@, "0"@]);
    let mut steps: Vec<Step> = Vec::new();
    push_step(&mut steps, Config::read_config(target));
    push_step(
        &mut steps,
        Step {
            request: Request::Probe { path: String::from_str("/data/adb/ksu/bin/ksu_susfs") },
            policy: Policy::SkipNextIf(false),
        },
    );
    push_step(
        &mut steps,
        Step {
            request: Request::Spawn {
                program: String::from_str("/data/adb/ksu/bin/ksu_susfs"),
                args,
            },
            policy: Policy::BestEffort(Failure::Hook),
        },
    );
    assert(steps.deep_view() =~= login_plan(target@));
    steps
}

/// Lays out the unmounting of what is mounted under the container.
pub fn unmount_all(target: &str) -> (steps: Vec<Step>)
    ensures
        steps.deep_view() == unmount_plan(target@),
{
    let mut steps = unmount(join(target, "proc").as_str());
    append_steps(&mut steps, unmount(join(target, "sys").as_str()));
    steps
}

/// Lays out the removal of a container.
pub fn remove(target: &str) -> (steps: Vec<Step>)
    ensures
        steps.deep_view() == remove_plan(target@),
{
    let mut args: Vec<String> = Vec::new();
    args.push(String::from_str("-R"));
    args.push(String::from_str("-i"));
    args.push(String::from_str("-a"));
    args.push(String::from_str(target));
    assert(args.deep_view() =~= seq!["-R"@, "-i"@, "-a"@, target@]);
    let mut steps = unmount_all(target);
    push_step(
        &mut steps,
        Step {
            request: Request::Spawn { program: String::from_str("chattr"), args },
            policy: Policy::Tool(Failure::Attributes),
        },
    );
    push_step(
        &mut steps,
        Step {
            request: Request::SetPermissions { path: String::from_str(target), mode: 0o777 },
            policy: Policy::Required(Failure::Io),
        },
    );
    push_step(
        &mut steps,
        Step {
            request: Request::RemoveDirAll { path: String::from_str(target) },
            policy: Policy::Required(Failure::Io),
        },
    );
    assert(steps.deep_view() =~= remove_plan(target@));
    steps
}

/// Lays out the backup of a container.
pub fn backup(target: &str, output: &str) -> (steps: Vec<Step>)
    ensures
        steps.deep_view() == backup_plan(target@, output@),
{
    let mut steps: Vec<Step> = Vec::new();
    push_step(
        &mut steps,
        Step {
            request: Request::Pack {
                source: String::from_str(target),
                output: String::from_str(output),
            },
            policy: Policy::Required(Failure::Archive),
        },
    );
    assert(steps.deep_view() =~= backup_plan(target@, output@));
    steps
}

/// One operation in progress: the plan at hand, how far it has come, and
/// what the host's replies have taught so far.
#[derive(Clone, Debug, PartialEq, Eq)]
pub struct Session {
    pub command: Command,
    /// Whether the process is isolated from the host's namespaces before it
    /// enters the container.
    pub unshare: bool,
    pub plan: Vec<Step>,
    /// The index in `plan` of the step whose reply is awaited.
    pub position: usize,
    pub after: After,
    /// The configuration that was read last, the default before that.
    pub config: Config,
    /// The answer that was kept last: whether the host has `ash`.
    pub flag: bool,
    /// The code with which the process is to leave, once that is decided.
    pub exit: Option<i32>,
}

/// A [`Session`] with its texts as sequences of characters.
pub struct SessionView {
    pub command: CommandView,
    pub unshare: bool,
    pub plan: Seq<StepView>,
    pub position: nat,
    pub after: After,
    pub config: ConfigView,
    pub flag: bool,
    pub exit: Option<i32>,
}

impl View for Session {
    type V = SessionView;

    open spec fn view(&self) -> SessionView {
        SessionView {
            command: self.command@,
            unshare: self.unshare,
            plan: self.plan.deep_view(),
            position: self.position as nat,
            after: self.after,
            config: self.config@,
            flag: self.flag,
            exit: self.exit,
        }
    }
}

/// The session that `command` opens: its first plan, not a step taken.
pub open spec fn opening(command: CommandView, unshare: bool, script: Seq<char>) -> SessionView {
    SessionView {
        command,
        unshare,
        plan: first_plan(command, script),
        position: 0,
        after: first_after(command),
        config: default_config(),
        flag: false,
        exit: None,
    }
}

impl SessionView {
    /// Whether the session awaits the reply to a request.
    pub open spec fn waiting(self) -> bool {
        self.exit is None && self.position < self.plan.len()
    }

    /// The request whose reply the session awaits.
    pub open spec fn current(self) -> Option<RequestView> {
        if self.waiting() {
            Some(self.plan[self.position as int].request)
        } else {
            None
        }
    }

    /// The session once it has kept what `reply` carries for later: the
    /// configuration that was read, or the answer to remember.
    pub open spec fn noting(self, reply: ReplyView) -> SessionView {
        match self.plan[self.position as int].policy {
            Policy::Load => match reply {
                ReplyView::Loaded(config) => SessionView { config, ..self },
                _ => self,
            },
            Policy::Remember => SessionView { flag: reply.answer(), ..self },
            _ => self,
        }
    }

    /// The position after the step at hand: the next one, or the one after
    /// that where the next is left out and is not the last.
    pub open spec fn moved(self, skip: bool) -> SessionView {
        let next = self.position + 1;
        SessionView {
            position: if skip && next < self.plan.len() {
                next + 1
            } else {
                next
            },
            ..self
        }
    }

    /// The session once it has drawn the consequence of having no step left:
    /// it leaves with code 0, fails, or takes up the plan of the entry, which
    /// can only end in the replacement of the process or in failure. With a
    /// step left nothing changes.
    pub open spec fn settled(self, report: Option<ReportView>) -> (SessionView, Option<ReportView>) {
        if self.position < self.plan.len() {
            (self, report)
        } else {
            match self.after {
                After::Exit => (SessionView { exit: Some(0i32), ..self }, report),
                After::Fail(failure) => (
                    SessionView { exit: Some(exit_code_of(failure)), ..self },
                    Some(
                        ReportView {
                            failure,
                            subject: Seq::empty(),
                            errno: 0,
                            fatal: true,
                        },
                    ),
                ),
                After::Enter => match entry_plan(self.command, self.config, self.flag, self.unshare) {
                    Some(plan) => (
                        SessionView {
                            plan,
                            position: 0,
                            after: After::Fail(Failure::Enter),
                            ..self
                        },
                        report,
                    ),
                    None => (SessionView { exit: Some(0i32), ..self }, report),
                },
            }
        }
    }

    /// The session after `reply` has answered the request at hand, and the
    /// diagnostic that the reply gives rise to. A session that awaits no
    /// reply stays as it is.
    pub open spec fn advance(self, reply: ReplyView) -> (SessionView, Option<ReportView>) {
        if !self.waiting() {
            (self, None)
        } else {
            let step = self.plan[self.position as int];
            let noted = self.noting(reply);
            let told = |failure: Failure, fatal: bool|
                ReportView {
                    failure,
                    subject: step.request.subject(),
                    errno: reply.errno(),
                    fatal,
                };
            match verdict_of(step.policy, reply) {
                Verdict::Abort(failure) => (
                    SessionView { exit: Some(exit_code_of(failure)), ..noted },
                    Some(told(failure, true)),
                ),
                Verdict::Next => noted.moved(false).settled(None),
                Verdict::Skip => noted.moved(true).settled(None),
                Verdict::Report(failure) => noted.moved(false).settled(Some(told(failure, false))),
                Verdict::ReportSkip(failure) => noted.moved(true).settled(
                    Some(told(failure, false)),
                ),
            }
        }
    }
}

/// Opens the session of `command`. `script` is the text of the setup script
/// that an install leaves in the container.
pub fn run(command: Command, unshare: bool, script: &str) -> (session: Session)
    ensures
        session@ == opening(command@, unshare, script@),
{
    let (plan, after) = match &command {
        Command::Install { rootfs, target } => install(rootfs.as_str(), target.as_str(), script),
        Command::Remove { target } => (remove(target.as_str()), After::Exit),
        Command::Login { target } => (login(target.as_str()), After::Enter),
        Command::Unmount { target } => (unmount_all(target.as_str()), After::Exit),
        Command::Backup { target, output } => (
            backup(target.as_str(), output.as_str()),
            After::Exit,
        ),
    };
    Session {
        command,
        unshare,
        plan,
        position: 0,
        after,
        config: Config::default(),
        flag: false,
        exit: None,
    }
}

impl Session {
    /// The request that the host is to carry out next, or `None` once the
    /// session has come to its end.
    pub fn current(&self) -> (request: Option<&Request>)
        ensures
            request.deep_view() == self@.current(),
    {
        if self.exit.is_none() && self.position < self.plan.len() {
            assert(self.plan.deep_view()[self.position as int] == self.plan[self.position as int]@);
            Some(&self.plan[self.position].request)
        } else {
            None
        }
    }

    /// The code with which the process is to leave, once the session has come
    /// to its end.
    pub fn exit_code(&self) -> (code: Option<i32>)
        ensures
            code == self@.exit,
    {
        self.exit
    }

    fn settle(&mut self, report: Option<Report>) -> (told: Option<Report>)
        ensures
            (final(self)@, told.deep_view()) == old(self)@.settled(report.deep_view()),
    {
        if self.position < self.plan.len() {
            return report;
        }
        match self.after {
            After::Exit => {
                self.exit = Some(0);
                report
            },
            After::Fail(failure) => {
                self.exit = Some(failure.exit_code());
                Some(Report { failure, subject: String::new(), errno: 0, fatal: true })
            },
            After::Enter => {
                match &self.command {
                    Command::Install { target, .. } => {
                        let shell = if self.flag {
                            "/bin/ash"
                        } else {
                            "/bin/bash"
                        };
                        self.plan =
                        start(
                            target.as_str(),
                            "/root",
                            &self.config.envs,
                            shell,
                            "/tmp/usergroup.sh",
                            self.unshare,
                        );
                        self.position = 0;
                        self.after = After::Fail(Failure::Enter);
                    },
                    Command::Login { target } => {
                        let envs = self.config.login_envs();
                        self.plan =
                        start(
                            target.as_str(),
                            "/root",
                            &envs,
                            self.config.shell.main.as_str(),
                            self.config.shell.args.as_str(),
                            self.unshare,
                        );
                        self.position = 0;
                        self.after = After::Fail(Failure::Enter);
                    },
                    _ => {
                        self.exit = Some(0);
                    },
                }
                report
            },
        }
    }

    /// Takes the host's `reply` to the request at hand and moves on. Returns
    /// the diagnostic to put on standard error, if the reply gives rise to
    /// one. Afterwards either a request is at hand again or the exit code is
    /// decided.
    pub fn step(&mut self, reply: Reply) -> (report: Option<Report>)
        ensures
            (final(self)@, report.deep_view()) == old(self)@.advance(reply@),
    {
        if self.exit.is_some() || self.position >= self.plan.len() {
            return None;
        }
        assert(self.plan.deep_view()[self.position as int] == self.plan[self.position as int]@);
        let policy = self.plan[self.position].policy;
        let subject = self.plan[self.position].request.subject();
        let verdict = policy.judge(&reply);
        let errno = reply.errno();
        match policy {
            Policy::Load => {
                match reply {
                    Reply::Loaded(config) => {
                        self.config = config;
                    },
                    _ => {},
                }
            },
            Policy::Remember => {
                self.flag = reply.answer();
            },
            _ => {},
        }
        let (skip, note): (bool, Option<Failure>) = match verdict {
            Verdict::Abort(failure) => {
                self.exit = Some(failure.exit_code());
                return Some(Report { failure, subject, errno, fatal: true });
            },
            Verdict::Next => (false, None),
            Verdict::Skip => (true, None),
            Verdict::Report(failure) => (false, Some(failure)),
            Verdict::ReportSkip(failure) => (true, Some(failure)),
        };
        self.position = self.position + 1;
        if skip && self.position < self.plan.len() {
            self.position = self.position + 1;
        }
        let report = match note {
            Some(failure) => Some(Report { failure, subject, errno, fatal: false }),
            None => None,
        };
        self.settle(report)
    }
}

} // verus!
