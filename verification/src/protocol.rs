//! The exchange between the library and the host that works for it: what the
//! host is asked to do, what it answers, and how an answer is judged.
//!
//! A plan is a sequence of [`Step`]s. Each step is a [`Request`] with a
//! [`Policy`]; the policy says what a reply means for the rest of the plan.

use vstd::prelude::*;
use vstd::string::*;
use crate::compress::Format;
use crate::config::{Config, ConfigView};
use crate::host::einval;

verus! {

/// Why an operation ended early, or what it had to report on its way.
#[derive(Clone, Copy, Debug, PartialEq, Eq)]
pub enum Failure {
    /// The root file system archive does not exist.
    ArchiveMissing,
    /// The target directory does not exist and cannot be created.
    TargetUncreatable,
    /// The target is a regular file.
    TargetIsFile,
    /// The target directory holds entries already.
    TargetNotEmpty,
    /// The archive's extension names no known format.
    UnknownFormat,
    /// File attributes could not be cleared.
    Attributes,
    /// A file system operation failed.
    Io,
    /// A mount or unmount failed.
    Mount,
    /// A namespace could not be unshared or made private.
    Namespace,
    /// The stored configuration is missing or malformed.
    Config,
    /// An archive could not be unpacked or written.
    Archive,
    /// The container could not be entered, or its command did not start.
    Enter,
    /// The host's hook that hides mounts did not run.
    Hook,
}

/// The exit code that a fatal `failure` ends the process with. The four
/// complaints about the arguments of an install have codes of their own.
pub open spec fn exit_code_of(failure: Failure) -> i32 {
    match failure {
        Failure::TargetIsFile => 2,
        Failure::TargetNotEmpty => 3,
        Failure::UnknownFormat => 4,
        _ => 1,
    }
}

/// The text of a diagnostic before the name of what it is about.
pub open spec fn message_prefix(failure: Failure) -> Seq<char> {
    match failure {
        Failure::ArchiveMissing => "Error: "@,
        Failure::TargetUncreatable => "Error: failed to create "@,
        Failure::TargetIsFile => "Error: "@,
        Failure::TargetNotEmpty => "Error: "@,
        Failure::UnknownFormat => "Error"@,
        Failure::Attributes => "Error: can't chattr to "@,
        Failure::Io => "Error: file operation failed on "@,
        Failure::Mount => "Error: mount operation failed on "@,
        Failure::Namespace => "Error: namespace isolation failed"@,
        Failure::Config => "Error: cannot read the configuration "@,
        Failure::Archive => "Error: archive operation failed on "@,
        Failure::Enter => "Error: cannot enter the container with "@,
        Failure::Hook => "Error: the hook that hides mounts failed"@,
    }
}

/// The text of a diagnostic after the name of what it is about.
pub open spec fn message_suffix(failure: Failure) -> Seq<char> {
    match failure {
        Failure::ArchiveMissing => " does not exist."@,
        Failure::TargetUncreatable => "."@,
        Failure::TargetIsFile => " is a file."@,
        Failure::TargetNotEmpty => " is not empty"@,
        _ => ""@,
    }
}

/// Whether the diagnostic of `failure` names what it is about.
pub open spec fn names_subject(failure: Failure) -> bool {
    match failure {
        Failure::UnknownFormat | Failure::Namespace | Failure::Hook => false,
        _ => true,
    }
}

/// The one-line diagnostic for `failure` on `subject`.
pub open spec fn message_of(failure: Failure, subject: Seq<char>) -> Seq<char> {
    message_prefix(failure) + (if names_subject(failure) {
        subject
    } else {
        Seq::empty()
    }) + message_suffix(failure)
}

impl Failure {
    /// The exit code that this failure ends the process with when it is fatal.
    pub fn exit_code(self) -> (code: i32)
        ensures
            code == exit_code_of(self),
            code != 0,
    {
        match self {
            Failure::TargetIsFile => 2,
            Failure::TargetNotEmpty => 3,
            Failure::UnknownFormat => 4,
            _ => 1,
        }
    }

    fn prefix(self) -> (text: &'static str)
        ensures
            text@ == message_prefix(self),
    {
        match self {
            Failure::ArchiveMissing => "Error: ",
            Failure::TargetUncreatable => "Error: failed to create ",
            Failure::TargetIsFile => "Error: ",
            Failure::TargetNotEmpty => "Error: ",
            Failure::UnknownFormat => "Error",
            Failure::Attributes => "Error: can't chattr to ",
            Failure::Io => "Error: file operation failed on ",
            Failure::Mount => "Error: mount operation failed on ",
            Failure::Namespace => "Error: namespace isolation failed",
            Failure::Config => "Error: cannot read the configuration ",
            Failure::Archive => "Error: archive operation failed on ",
            Failure::Enter => "Error: cannot enter the container with ",
            Failure::Hook => "Error: the hook that hides mounts failed",
        }
    }

    fn suffix(self) -> (text: &'static str)
        ensures
            text@ == message_suffix(self),
    {
        match self {
            Failure::ArchiveMissing => " does not exist.",
            Failure::TargetUncreatable => ".",
            Failure::TargetIsFile => " is a file.",
            Failure::TargetNotEmpty => " is not empty",
            _ => "",
        }
    }

    fn has_subject(self) -> (named: bool)
        ensures
            named == names_subject(self),
    {
        match self {
            Failure::UnknownFormat | Failure::Namespace | Failure::Hook => false,
            _ => true,
        }
    }

    /// The one-line diagnostic for this failure on `subject`.
    pub fn message(self, subject: &str) -> (text: String)
        ensures
            text@ == message_of(self, subject@),
    {
        let mut text = String::from_str(self.prefix());
        if self.has_subject() {
            text.append(subject);
        }
        text.append(self.suffix());
        text
    }
}

/// What the host is asked to do. Paths are absolute or relative to the
/// process's working directory, as the caller gave them.
#[derive(Clone, Debug, PartialEq, Eq)]
pub enum Request {
    /// Tell whether anything exists at `path`. Answered by a flag.
    Probe { path: String },
    /// Tell whether `path` is a regular file. Answered by a flag.
    ProbeFile { path: String },
    /// Count the entries of the directory `path`. Answered by a count.
    CountEntries { path: String },
    /// Create the directory `path` and its missing parents.
    CreateDirAll { path: String },
    /// Remove the file or link at `path`.
    RemoveFile { path: String },
    /// Remove the tree under `path`, and `path` itself.
    RemoveDirAll { path: String },
    /// Write `contents` to the file `path`, creating it if need be.
    WriteFile { path: String, contents: String },
    /// Set the permission bits of `path` to `mode`.
    SetPermissions { path: String, mode: u32 },
    /// Read and parse the configuration stored at `path`. Answered by the
    /// configuration.
    ReadConfig { path: String },
    /// Store `config` at `path`.
    WriteConfig { path: String, config: Config },
    /// Unpack the archive `archive`, which has the format `format`, into the
    /// directory `target`.
    Unpack { format: Format, archive: String, target: String },
    /// Archive the tree under `source` into the file `output`.
    Pack { source: String, output: String },
    /// Leave the namespaces that `flags` names.
    Unshare { flags: i32 },
    /// Mount `source` at `target`. A bind mount and a change of propagation
    /// name no file system type, the latter no source either.
    Mount { source: Option<String>, target: String, fs_type: Option<String>, flags: u64 },
    /// Detach whatever is mounted at `target`.
    Unmount { target: String },
    /// Create the device node `path` with the mode and device number given.
    MakeNode { path: String, mode: u32, device: u64 },
    /// Make `path` the root directory of the process.
    Chroot { path: String },
    /// Make `path` the working directory of the process.
    Chdir { path: String },
    /// Set the variable `key` to `value` in the process environment,
    /// overwriting what it held.
    SetEnv { key: String, value: String },
    /// Replace the process image by `program`, run with the argument vector
    /// `args`. A reply to this request means that the replacement failed.
    Exec { program: String, args: Vec<String> },
    /// Run `program` with `args` as a child and wait for it. Answered by a
    /// flag that tells whether the child reported success.
    Spawn { program: String, args: Vec<String> },
}

/// A [`Request`] with its texts as sequences of characters.
pub enum RequestView {
    Probe { path: Seq<char> },
    ProbeFile { path: Seq<char> },
    CountEntries { path: Seq<char> },
    CreateDirAll { path: Seq<char> },
    RemoveFile { path: Seq<char> },
    RemoveDirAll { path: Seq<char> },
    WriteFile { path: Seq<char>, contents: Seq<char> },
    SetPermissions { path: Seq<char>, mode: u32 },
    ReadConfig { path: Seq<char> },
    WriteConfig { path: Seq<char>, config: ConfigView },
    Unpack { format: Format, archive: Seq<char>, target: Seq<char> },
    Pack { source: Seq<char>, output: Seq<char> },
    Unshare { flags: i32 },
    Mount { source: Option<Seq<char>>, target: Seq<char>, fs_type: Option<Seq<char>>, flags: u64 },
    Unmount { target: Seq<char> },
    MakeNode { path: Seq<char>, mode: u32, device: u64 },
    Chroot { path: Seq<char> },
    Chdir { path: Seq<char> },
    SetEnv { key: Seq<char>, value: Seq<char> },
    Exec { program: Seq<char>, args: Seq<Seq<char>> },
    Spawn { program: Seq<char>, args: Seq<Seq<char>> },
}

impl View for Request {
    type V = RequestView;

    open spec fn view(&self) -> RequestView {
        match self {
            Request::Probe { path } => RequestView::Probe { path: path@ },
            Request::ProbeFile { path } => RequestView::ProbeFile { path: path@ },
            Request::CountEntries { path } => RequestView::CountEntries { path: path@ },
            Request::CreateDirAll { path } => RequestView::CreateDirAll { path: path@ },
            Request::RemoveFile { path } => RequestView::RemoveFile { path: path@ },
            Request::RemoveDirAll { path } => RequestView::RemoveDirAll { path: path@ },
            Request::WriteFile { path, contents } => RequestView::WriteFile {
                path: path@,
                contents: contents@,
            },
            Request::SetPermissions { path, mode } => RequestView::SetPermissions {
                path: path@,
                mode: *mode,
            },
            Request::ReadConfig { path } => RequestView::ReadConfig { path: path@ },
            Request::WriteConfig { path, config } => RequestView::WriteConfig {
                path: path@,
                config: config@,
            },
            Request::Unpack { format, archive, target } => RequestView::Unpack {
                format: *format,
                archive: archive@,
                target: target@,
            },
            Request::Pack { source, output } => RequestView::Pack {
                source: source@,
                output: output@,
            },
            Request::Unshare { flags } => RequestView::Unshare { flags: *flags },
            Request::Mount { source, target, fs_type, flags } => RequestView::Mount {
                source: source.deep_view(),
                target: target@,
                fs_type: fs_type.deep_view(),
                flags: *flags,
            },
            Request::Unmount { target } => RequestView::Unmount { target: target@ },
            Request::MakeNode { path, mode, device } => RequestView::MakeNode {
                path: path@,
                mode: *mode,
                device: *device,
            },
            Request::Chroot { path } => RequestView::Chroot { path: path@ },
            Request::Chdir { path } => RequestView::Chdir { path: path@ },
            Request::SetEnv { key, value } => RequestView::SetEnv { key: key@, value: value@ },
            Request::Exec { program, args } => RequestView::Exec {
                program: program@,
                args: args.deep_view(),
            },
            Request::Spawn { program, args } => RequestView::Spawn {
                program: program@,
                args: args.deep_view(),
            },
        }
    }
}

impl DeepView for Request {
    type V = RequestView;

    open spec fn deep_view(&self) -> RequestView {
        self@
    }
}

impl RequestView {
    /// What a diagnostic about this request names: the path it works on, the
    /// variable it sets, the program it starts, or the last argument of the
    /// tool it runs; nothing for `Unshare`.
    pub open spec fn subject(self) -> Seq<char> {
        match self {
            RequestView::Probe { path } => path,
            RequestView::ProbeFile { path } => path,
            RequestView::CountEntries { path } => path,
            RequestView::CreateDirAll { path } => path,
            RequestView::RemoveFile { path } => path,
            RequestView::RemoveDirAll { path } => path,
            RequestView::WriteFile { path, .. } => path,
            RequestView::SetPermissions { path, .. } => path,
            RequestView::ReadConfig { path } => path,
            RequestView::WriteConfig { path, .. } => path,
            RequestView::Unpack { archive, .. } => archive,
            RequestView::Pack { source, .. } => source,
            RequestView::Unshare { .. } => Seq::empty(),
            RequestView::Mount { target, .. } => target,
            RequestView::Unmount { target } => target,
            RequestView::MakeNode { path, .. } => path,
            RequestView::Chroot { path } => path,
            RequestView::Chdir { path } => path,
            RequestView::SetEnv { key, .. } => key,
            RequestView::Exec { program, .. } => program,
            RequestView::Spawn { program, args } => if args.len() > 0 {
                args.last()
            } else {
                program
            },
        }
    }

    /// Whether this request only looks: it changes nothing on the host,
    /// whatever the host answers.
    pub open spec fn is_query(self) -> bool {
        self is Probe || self is ProbeFile || self is CountEntries || self is ReadConfig
    }
}

impl Request {
    /// What a diagnostic about this request names.
    pub fn subject(&self) -> (text: String)
        ensures
            text@ == self@.subject(),
    {
        match self {
            Request::Probe { path } => path.clone(),
            Request::ProbeFile { path } => path.clone(),
            Request::CountEntries { path } => path.clone(),
            Request::CreateDirAll { path } => path.clone(),
            Request::RemoveFile { path } => path.clone(),
            Request::RemoveDirAll { path } => path.clone(),
            Request::WriteFile { path, .. } => path.clone(),
            Request::SetPermissions { path, .. } => path.clone(),
            Request::ReadConfig { path } => path.clone(),
            Request::WriteConfig { path, .. } => path.clone(),
            Request::Unpack { archive, .. } => archive.clone(),
            Request::Pack { source, .. } => source.clone(),
            Request::Unshare { .. } => String::new(),
            Request::Mount { target, .. } => target.clone(),
            Request::Unmount { target } => target.clone(),
            Request::MakeNode { path, .. } => path.clone(),
            Request::Chroot { path } => path.clone(),
            Request::Chdir { path } => path.clone(),
            Request::SetEnv { key, .. } => key.clone(),
            Request::Exec { program, .. } => program.clone(),
            Request::Spawn { program, args } => if args.len() > 0 {
                assert(args.deep_view().last() == args[args.len() - 1]@);
                args[args.len() - 1].clone()
            } else {
                program.clone()
            },
        }
    }
}

/// What the host answers to a request.
#[derive(Clone, Debug, PartialEq, Eq)]
pub enum Reply {
    /// The request was carried out.
    Done,
    /// The answer to a question that has two answers.
    Flag(bool),
    /// The number of entries counted.
    Count(usize),
    /// The configuration that was read.
    Loaded(Config),
    /// The request failed, with the host's error number, or 0 where the
    /// failure has none.
    Failed(i32),
}

/// A [`Reply`] with the configuration it may carry as a [`ConfigView`].
pub enum ReplyView {
    Done,
    Flag(bool),
    Count(usize),
    Loaded(ConfigView),
    Failed(i32),
}

impl View for Reply {
    type V = ReplyView;

    open spec fn view(&self) -> ReplyView {
        match self {
            Reply::Done => ReplyView::Done,
            Reply::Flag(flag) => ReplyView::Flag(*flag),
            Reply::Count(count) => ReplyView::Count(*count),
            Reply::Loaded(config) => ReplyView::Loaded(config@),
            Reply::Failed(errno) => ReplyView::Failed(*errno),
        }
    }
}

impl ReplyView {
    /// The answer that this reply gives to a yes-or-no question. Only the flag
    /// `true` says yes: a failure to look counts as no.
    pub open spec fn answer(self) -> bool {
        self == ReplyView::Flag(true)
    }

    /// The host's error number in this reply, 0 where it carries none.
    pub open spec fn errno(self) -> i32 {
        match self {
            ReplyView::Failed(errno) => errno,
            _ => 0,
        }
    }
}

/// The reply that the return value of a system call stands for: 0 says that
/// the call was carried out, anything else that it failed with the error
/// number that the host holds.
pub open spec fn reply_of(value: i32, errno: i32) -> ReplyView {
    if value == 0 {
        ReplyView::Done
    } else {
        ReplyView::Failed(errno)
    }
}

/// The reply for a system call that returned `value`, where `errno` is the
/// error number that the host holds after it.
pub fn reply_of_return(value: i32, errno: i32) -> (reply: Reply)
    ensures
        reply@ == reply_of(value, errno),
{
    if value == 0 {
        Reply::Done
    } else {
        Reply::Failed(errno)
    }
}

impl Reply {
    /// The answer that this reply gives to a yes-or-no question.
    pub fn answer(&self) -> (yes: bool)
        ensures
            yes == self@.answer(),
    {
        match self {
            Reply::Flag(flag) => *flag,
            _ => false,
        }
    }

    /// The host's error number in this reply, 0 where it carries none.
    pub fn errno(&self) -> (errno: i32)
        ensures
            errno == self@.errno(),
    {
        match self {
            Reply::Failed(errno) => *errno,
            _ => 0,
        }
    }
}

/// How the reply to a step bears on the plan.
#[derive(Clone, Copy, Debug, PartialEq, Eq)]
pub enum Policy {
    /// A structural step: its failure ends the operation.
    Required(Failure),
    /// A convenience step: its failure is reported and the plan goes on.
    BestEffort(Failure),
    /// The first half of a convenience step: its failure is reported and the
    /// step after it, which depends on it, is left out.
    Prepare(Failure),
    /// A question: where the answer is the given one, the next step is left
    /// out.
    SkipNextIf(bool),
    /// A question: where the answer is the given one, the operation ends.
    RejectIf(bool, Failure),
    /// A count that must be zero: a directory with entries ends the
    /// operation, and so does a failure to count.
    RejectUnlessEmpty,
    /// An unmount: a target that is not a mount point is as good as
    /// unmounted, any other failure ends the operation.
    Detach,
    /// The reading of the configuration: what was read is kept for the steps
    /// to come, anything else ends the operation.
    Load,
    /// A question whose answer is kept for the steps to come.
    Remember,
    /// A tool run as a child: where it reports no success that is reported,
    /// where it cannot be run the operation ends.
    Tool(Failure),
    /// The replacement of the process image, which answers only where it
    /// failed: any reply at all means that the process is still there, and
    /// ends the operation.
    Replace,
}

/// What the reply to a step means for the plan.
#[derive(Clone, Copy, Debug, PartialEq, Eq)]
pub enum Verdict {
    /// Go on with the next step.
    Next,
    /// Leave the next step out and go on with the one after it.
    Skip,
    /// Report the failure and go on with the next step.
    Report(Failure),
    /// Report the failure, leave the next step out and go on.
    ReportSkip(Failure),
    /// End the operation with the failure.
    Abort(Failure),
}

/// The error number with which `umount` refuses a target that is not a mount
/// point.
pub open spec fn not_mounted() -> i32 {
    22
}

/// The verdict that `policy` passes on `reply`.
pub open spec fn verdict_of(policy: Policy, reply: ReplyView) -> Verdict {
    match policy {
        Policy::Required(failure) => if reply is Failed {
            Verdict::Abort(failure)
        } else {
            Verdict::Next
        },
        Policy::BestEffort(failure) => if reply is Failed {
            Verdict::Report(failure)
        } else {
            Verdict::Next
        },
        Policy::Prepare(failure) => if reply is Failed {
            Verdict::ReportSkip(failure)
        } else {
            Verdict::Next
        },
        Policy::SkipNextIf(when) => if reply.answer() == when {
            Verdict::Skip
        } else {
            Verdict::Next
        },
        Policy::RejectIf(when, failure) => if reply.answer() == when {
            Verdict::Abort(failure)
        } else {
            Verdict::Next
        },
        Policy::RejectUnlessEmpty => match reply {
            ReplyView::Count(count) => if count > 0 {
                Verdict::Abort(Failure::TargetNotEmpty)
            } else {
                Verdict::Next
            },
            _ => Verdict::Abort(Failure::Io),
        },
        Policy::Detach => match reply {
            ReplyView::Failed(errno) => if errno == not_mounted() {
                Verdict::Next
            } else {
                Verdict::Abort(Failure::Mount)
            },
            _ => Verdict::Next,
        },
        Policy::Load => if reply is Loaded {
            Verdict::Next
        } else {
            Verdict::Abort(Failure::Config)
        },
        Policy::Remember => Verdict::Next,
        Policy::Tool(failure) => match reply {
            ReplyView::Failed(_) => Verdict::Abort(Failure::Io),
            ReplyView::Flag(false) => Verdict::Report(failure),
            _ => Verdict::Next,
        },
        Policy::Replace => Verdict::Abort(Failure::Enter),
    }
}

impl Policy {
    /// Passes the verdict of this policy on `reply`.
    pub fn judge(self, reply: &Reply) -> (verdict: Verdict)
        ensures
            verdict == verdict_of(self, reply@),
    {
        let failed = match reply {
            Reply::Failed(_) => true,
            _ => false,
        };
        match self {
            Policy::Required(failure) => if failed {
                Verdict::Abort(failure)
            } else {
                Verdict::Next
            },
            Policy::BestEffort(failure) => if failed {
                Verdict::Report(failure)
            } else {
                Verdict::Next
            },
            Policy::Prepare(failure) => if failed {
                Verdict::ReportSkip(failure)
            } else {
                Verdict::Next
            },
            Policy::SkipNextIf(when) => if reply.answer() == when {
                Verdict::Skip
            } else {
                Verdict::Next
            },
            Policy::RejectIf(when, failure) => if reply.answer() == when {
                Verdict::Abort(failure)
            } else {
                Verdict::Next
            },
            Policy::RejectUnlessEmpty => match reply {
                Reply::Count(count) => if *count > 0 {
                    Verdict::Abort(Failure::TargetNotEmpty)
                } else {
                    Verdict::Next
                },
                _ => Verdict::Abort(Failure::Io),
            },
            Policy::Detach => match reply {
                Reply::Failed(errno) => if *errno == einval() {
                    Verdict::Next
                } else {
                    Verdict::Abort(Failure::Mount)
                },
                _ => Verdict::Next,
            },
            Policy::Load => match reply {
                Reply::Loaded(_) => Verdict::Next,
                _ => Verdict::Abort(Failure::Config),
            },
            Policy::Remember => Verdict::Next,
            Policy::Tool(failure) => match reply {
                Reply::Failed(_) => Verdict::Abort(Failure::Io),
                Reply::Flag(false) => Verdict::Report(failure),
                _ => Verdict::Next,
            },
            Policy::Replace => Verdict::Abort(Failure::Enter),
        }
    }
}

/// One step of a plan: what to ask of the host, and how to take its reply.
#[derive(Clone, Debug, PartialEq, Eq)]
pub struct Step {
    pub request: Request,
    pub policy: Policy,
}

/// A [`Step`] with its request as a [`RequestView`].
pub struct StepView {
    pub request: RequestView,
    pub policy: Policy,
}

impl View for Step {
    type V = StepView;

    open spec fn view(&self) -> StepView {
        StepView { request: self.request@, policy: self.policy }
    }
}

impl DeepView for Step {
    type V = StepView;

    open spec fn deep_view(&self) -> StepView {
        self@
    }
}

/// A diagnostic: what went wrong, with what, and whether it ended the
/// operation.
#[derive(Clone, Debug, PartialEq, Eq)]
pub struct Report {
    pub failure: Failure,
    pub subject: String,
    /// The host's error number, 0 where there is none.
    pub errno: i32,
    pub fatal: bool,
}

/// A [`Report`] with its subject as a sequence of characters.
pub struct ReportView {
    pub failure: Failure,
    pub subject: Seq<char>,
    pub errno: i32,
    pub fatal: bool,
}

impl View for Report {
    type V = ReportView;

    open spec fn view(&self) -> ReportView {
        ReportView {
            failure: self.failure,
            subject: self.subject@,
            errno: self.errno,
            fatal: self.fatal,
        }
    }
}

impl DeepView for Report {
    type V = ReportView;

    open spec fn deep_view(&self) -> ReportView {
        self@
    }
}

impl Report {
    /// The one line that this report puts on standard error.
    pub fn message(&self) -> (text: String)
        ensures
            text@ == message_of(self.failure, self.subject@),
    {
        self.failure.message(self.subject.as_str())
    }
}

/// Adds `step` to the end of `plan`.
pub fn push_step(plan: &mut Vec<Step>, step: Step)
    ensures
        final(plan).deep_view() == old(plan).deep_view().push(step@),
{
    plan.push(step);
    assert(plan.deep_view() =~= old(plan).deep_view().push(step@));
}

/// Moves the steps of `more` to the end of `plan`, in their order.
pub fn append_steps(plan: &mut Vec<Step>, more: Vec<Step>)
    ensures
        final(plan).deep_view() == old(plan).deep_view() + more.deep_view(),
{
    let mut more = more;
    let ghost added = more.deep_view();
    plan.append(&mut more);
    assert(plan.deep_view() =~= old(plan).deep_view() + added);
}

} // verus!
