//! The inside of a container: its mounts, its device nodes, the namespaces it
//! is isolated by, and the order in which a process enters it.
//!
//! Every function here lays out steps; none touches the host.

use vstd::prelude::*;
use vstd::string::*;
use crate::host::{
    clone_newipc,
    clone_newns,
    clone_newpid,
    clone_newuts,
    device_number,
    makedev,
    ms_bind,
    ms_rec,
    ms_slave,
    s_ifchr,
};
use crate::protocol::{
    append_steps,
    push_step,
    Failure,
    Policy,
    Request,
    RequestView,
    Step,
    StepView,
};
use crate::utils::{join, joined};

verus! {

/// The flag of a bind mount.
pub open spec fn bind_flags() -> u64 {
    0x1000
}

/// The flags that make a mount point and everything below it receive mount
/// events without passing any on.
pub open spec fn private_flags() -> u64 {
    0x84000
}

/// The mode of a device node: a character device that everyone may read and
/// write.
pub open spec fn node_mode() -> u32 {
    0o020666
}

/// The namespaces that a process leaves in one call.
#[derive(Clone, Copy, Debug, PartialEq, Eq)]
pub struct NamespaceSet {
    pub mount: bool,
    pub pid: bool,
    pub uts: bool,
    pub ipc: bool,
}

impl NamespaceSet {
    /// The bit mask that names this set to the kernel.
    pub open spec fn mask(self) -> i32 {
        ((if self.mount {
            0x20000i32
        } else {
            0i32
        }) + (if self.pid {
            0x20000000i32
        } else {
            0i32
        }) + (if self.uts {
            0x04000000i32
        } else {
            0i32
        }) + (if self.ipc {
            0x08000000i32
        } else {
            0i32
        })) as i32
    }

    /// The bit mask that names this set to the kernel: one bit for each
    /// namespace in it.
    pub fn flags(self) -> (flags: i32)
        ensures
            flags == self.mask(),
    {
        let mut flags: i32 = 0;
        if self.mount {
            flags = flags + clone_newns();
        }
        if self.pid {
            flags = flags + clone_newpid();
        }
        if self.uts {
            flags = flags + clone_newuts();
        }
        if self.ipc {
            flags = flags + clone_newipc();
        }
        flags
    }
}

/// The mount namespace alone: what is left first.
pub open spec fn mount_namespace() -> NamespaceSet {
    NamespaceSet { mount: true, pid: false, uts: false, ipc: false }
}

/// The process-id, host-name and IPC namespaces: what is left together, once
/// the mount tree is private.
pub open spec fn process_namespaces() -> NamespaceSet {
    NamespaceSet { mount: false, pid: true, uts: true, ipc: true }
}

/// A step whose failure ends the operation.
pub open spec fn required(request: RequestView, failure: Failure) -> StepView {
    StepView { request, policy: Policy::Required(failure) }
}

/// A step whose failure is only reported.
pub open spec fn best_effort(request: RequestView, failure: Failure) -> StepView {
    StepView { request, policy: Policy::BestEffort(failure) }
}

/// A step whose failure is reported and takes the next step with it.
pub open spec fn prepare(request: RequestView, failure: Failure) -> StepView {
    StepView { request, policy: Policy::Prepare(failure) }
}

/// The two steps of a mount: make sure that the mount point exists, then
/// mount. A structural mount ends the operation where either fails; a
/// convenience mount is given up and reported.
pub open spec fn mount_steps(
    source: Option<Seq<char>>,
    target: Seq<char>,
    fs_type: Option<Seq<char>>,
    flags: u64,
    structural: bool,
) -> Seq<StepView> {
    let ensure = RequestView::CreateDirAll { path: target };
    let attach = RequestView::Mount { source, target, fs_type, flags };
    if structural {
        seq![required(ensure, Failure::Mount), required(attach, Failure::Mount)]
    } else {
        seq![prepare(ensure, Failure::Mount), best_effort(attach, Failure::Mount)]
    }
}

/// The two steps of an unmount: make sure that the target exists, then detach
/// it. A target that was not mounted is no failure.
pub open spec fn unmount_steps(target: Seq<char>) -> Seq<StepView> {
    seq![
        required(RequestView::CreateDirAll { path: target }, Failure::Mount),
        StepView { request: RequestView::Unmount { target }, policy: Policy::Detach },
    ]
}

/// One step for each pair, in order: set the variable, overwriting what it
/// held. A variable that cannot be set ends the operation.
pub open spec fn env_steps(vars: Seq<(Seq<char>, Seq<char>)>) -> Seq<StepView> {
    Seq::new(
        vars.len(),
        |i: int| required(RequestView::SetEnv { key: vars[i].0, value: vars[i].1 }, Failure::Enter),
    )
}

/// The three steps of isolation, in the only order that isolates: leave the
/// mount namespace, make the whole mount tree private, then leave the
/// process-id, host-name and IPC namespaces. Each is structural.
pub open spec fn isolation_steps() -> Seq<StepView> {
    seq![
        required(RequestView::Unshare { flags: mount_namespace().mask() }, Failure::Namespace),
        required(
            RequestView::Mount {
                source: None,
                target: "/"@,
                fs_type: None,
                flags: private_flags(),
            },
            Failure::Namespace,
        ),
        required(RequestView::Unshare { flags: process_namespaces().mask() }, Failure::Namespace),
    ]
}

/// The two steps for one device node: look whether anything is at `path`, and
/// only where nothing is, create the node. A node that cannot be created is
/// reported and done without.
pub open spec fn node_steps(path: Seq<char>, major: u32, minor: u32) -> Seq<StepView> {
    seq![
        StepView { request: RequestView::Probe { path }, policy: Policy::SkipNextIf(true) },
        best_effort(
            RequestView::MakeNode { path, mode: node_mode(), device: device_number(major, minor) },
            Failure::Io,
        ),
    ]
}

/// The steps that provide `null`, `tty` and `net/tun` under the directory
/// `dev`. The directory `net` is structural: without it the operation ends.
pub open spec fn device_steps(dev: Seq<char>) -> Seq<StepView> {
    node_steps(joined(dev, "null"@), 1, 3) + node_steps(joined(dev, "tty"@), 5, 0) + seq![
        required(RequestView::CreateDirAll { path: joined(dev, "net"@) }, Failure::Io),
    ] + node_steps(joined(joined(dev, "net"@), "tun"@), 10, 200)
}

/// The argument vector of the command that takes the process over: the
/// program, then its argument string where that is not empty.
pub open spec fn argv_of(program: Seq<char>, args: Seq<char>) -> Seq<Seq<char>> {
    if args.len() == 0 {
        seq![program]
    } else {
        seq![program, args]
    }
}

/// The convenience mounts of a container: `proc` and `sysfs` on its `proc`
/// and `sys`, and the host's `/dev` bound onto its `dev`.
pub open spec fn container_mounts(root: Seq<char>) -> Seq<StepView> {
    mount_steps(Some("proc"@), joined(root, "proc"@), Some("proc"@), 0, false) + mount_steps(
        Some("sys"@),
        joined(root, "sys"@),
        Some("sysfs"@),
        0,
        false,
    ) + mount_steps(Some("/dev/"@), joined(root, "dev"@), None, bind_flags(), false)
}

/// The last steps of an entry, from which there is no way back: change the
/// root, change the working directory, set the environment, and hand the
/// process over to the command.
pub open spec fn takeover_steps(
    root: Seq<char>,
    home: Seq<char>,
    envs: Seq<(Seq<char>, Seq<char>)>,
    program: Seq<char>,
    args: Seq<char>,
) -> Seq<StepView> {
    seq![
        required(RequestView::Chroot { path: root }, Failure::Enter),
        required(RequestView::Chdir { path: home }, Failure::Enter),
    ] + env_steps(envs) + seq![
        StepView {
            request: RequestView::Exec { program, args: argv_of(program, args) },
            policy: Policy::Replace,
        },
    ]
}

/// The plan by which a process enters the container at `root`: make sure of
/// its `dev` directory, isolate where that is asked for, mount, provide the
/// device nodes, and take the process over.
#[verifier::opaque]
pub open spec fn enter_plan(
    root: Seq<char>,
    home: Seq<char>,
    envs: Seq<(Seq<char>, Seq<char>)>,
    program: Seq<char>,
    args: Seq<char>,
    unshare: bool,
) -> Seq<StepView> {
    seq![required(RequestView::CreateDirAll { path: joined(root, "dev"@) }, Failure::Io)] + (
    if unshare {
        isolation_steps()
    } else {
        Seq::empty()
    }) + container_mounts(root) + device_steps(joined(root, "dev"@)) + takeover_steps(
        root,
        home,
        envs,
        program,
        args,
    )
}

/// What `text` holds, where there is one.
pub open spec fn text_of(text: Option<&str>) -> Option<Seq<char>> {
    match text {
        Some(t) => Some(t@),
        None => None,
    }
}

/// A copy of `text` where there is one.
fn copy_text(text: Option<&str>) -> (copy: Option<String>)
    ensures
        copy.deep_view() == text_of(text),
{
    match text {
        Some(t) => Some(String::from_str(t)),
        None => None,
    }
}

/// Lays out a mount whose source or file system type may be left unnamed.
fn mount_pair(
    source: Option<&str>,
    target: &str,
    fs_type: Option<&str>,
    flags: u64,
    structural: bool,
) -> (steps: Vec<Step>)
    ensures
        steps.deep_view() == mount_steps(
            text_of(source),
            target@,
            text_of(fs_type),
            flags,
            structural,
        ),
{
    let ensure = Request::CreateDirAll { path: String::from_str(target) };
    let attach = Request::Mount {
        source: copy_text(source),
        target: String::from_str(target),
        fs_type: copy_text(fs_type),
        flags,
    };
    let mut steps: Vec<Step> = Vec::new();
    if structural {
        push_step(&mut steps, Step { request: ensure, policy: Policy::Required(Failure::Mount) });
        push_step(&mut steps, Step { request: attach, policy: Policy::Required(Failure::Mount) });
    } else {
        push_step(&mut steps, Step { request: ensure, policy: Policy::Prepare(Failure::Mount) });
        push_step(&mut steps, Step { request: attach, policy: Policy::BestEffort(Failure::Mount) });
    }
    assert(steps.deep_view() =~= mount_steps(
        text_of(source),
        target@,
        text_of(fs_type),
        flags,
        structural,
    ));
    steps
}

/// Lays out the mount of the file system `source` of type `fs_type` at
/// `target`: the mount point is created if it is missing, then the mount is
/// made with `flags`. `structural` decides what a failure means.
pub fn mount(fs_type: &str, source: &str, target: &str, flags: u64, structural: bool) -> (steps:
    Vec<Step>)
    ensures
        steps.deep_view() == mount_steps(
            Some(source@),
            target@,
            Some(fs_type@),
            flags,
            structural,
        ),
{
    mount_pair(Some(source), target, Some(fs_type), flags, structural)
}

/// Lays out the bind mount of the tree `source` at `target`: the mount point
/// is created if it is missing, then the tree is attached there.
pub fn mount_bind(source: &str, target: &str, structural: bool) -> (steps: Vec<Step>)
    ensures
        steps.deep_view() == mount_steps(Some(source@), target@, None, bind_flags(), structural),
{
    mount_pair(Some(source), target, None, ms_bind(), structural)
}

/// Lays out the unmount of `target`: the directory is created if it is
/// missing, so that detaching it cannot fail for want of it, then it is
/// detached.
pub fn unmount(target: &str) -> (steps: Vec<Step>)
    ensures
        steps.deep_view() == unmount_steps(target@),
{
    let mut steps: Vec<Step> = Vec::new();
    push_step(
        &mut steps,
        Step {
            request: Request::CreateDirAll { path: String::from_str(target) },
            policy: Policy::Required(Failure::Mount),
        },
    );
    push_step(
        &mut steps,
        Step {
            request: Request::Unmount { target: String::from_str(target) },
            policy: Policy::Detach,
        },
    );
    assert(steps.deep_view() =~= unmount_steps(target@));
    steps
}

/// Lays out the setting of `vars` in the process environment, pair by pair in
/// their order, so that of two pairs for one variable the later one stays.
pub fn set_envs(vars: &Vec<(String, String)>) -> (steps: Vec<Step>)
    ensures
        steps.deep_view() == env_steps(vars.deep_view()),
{
    let mut steps: Vec<Step> = Vec::new();
    let mut i: usize = 0;
    while i < vars.len()
        invariant
            i <= vars.len(),
            steps.len() == i,
            forall|j: int| 0 <= j < i ==> steps[j]@ == env_steps(vars.deep_view())[j],
        decreases vars.len() - i,
    {
        assert(vars.deep_view()[i as int] == vars[i as int].deep_view());
        steps.push(
            Step {
                request: Request::SetEnv { key: vars[i].0.clone(), value: vars[i].1.clone() },
                policy: Policy::Required(Failure::Enter),
            },
        );
        i += 1;
    }
    assert(steps.deep_view() =~= env_steps(vars.deep_view()));
    steps
}

/// Lays out the isolation of the process from the host's namespaces.
pub fn isolate() -> (steps: Vec<Step>)
    ensures
        steps.deep_view() == isolation_steps(),
{
    let first = NamespaceSet { mount: true, pid: false, uts: false, ipc: false };
    let second = NamespaceSet { mount: false, pid: true, uts: true, ipc: true };
    let private: u64 = ms_slave() | ms_rec();
    assert(0x80000u64 | 0x4000u64 == 0x84000u64) by (bit_vector);
    let mut steps: Vec<Step> = Vec::new();
    push_step(
        &mut steps,
        Step {
            request: Request::Unshare { flags: first.flags() },
            policy: Policy::Required(Failure::Namespace),
        },
    );
    push_step(
        &mut steps,
        Step {
            request: Request::Mount {
                source: None,
                target: String::from_str("/"),
                fs_type: None,
                flags: private,
            },
            policy: Policy::Required(Failure::Namespace),
        },
    );
    push_step(
        &mut steps,
        Step {
            request: Request::Unshare { flags: second.flags() },
            policy: Policy::Required(Failure::Namespace),
        },
    );
    assert(steps.deep_view() =~= isolation_steps());
    steps
}

/// One of the three device nodes that a shell in a container needs.
#[derive(Clone, Copy, Debug, PartialEq, Eq)]
pub enum DeviceNode {
    /// `null`, the device 1:3.
    Null,
    /// `tty`, the device 5:0.
    Tty,
    /// `net/tun`, the device 10:200.
    Tun,
}

impl DeviceNode {
    /// The major number of the device that this node stands for.
    pub open spec fn major_of(self) -> u32 {
        match self {
            DeviceNode::Null => 1,
            DeviceNode::Tty => 5,
            DeviceNode::Tun => 10,
        }
    }

    /// The minor number of the device that this node stands for.
    pub open spec fn minor_of(self) -> u32 {
        match self {
            DeviceNode::Null => 3,
            DeviceNode::Tty => 0,
            DeviceNode::Tun => 200,
        }
    }

    /// Where this node lies under the device directory `dev`.
    pub open spec fn place(self, dev: Seq<char>) -> Seq<char> {
        match self {
            DeviceNode::Null => joined(dev, "null"@),
            DeviceNode::Tty => joined(dev, "tty"@),
            DeviceNode::Tun => joined(joined(dev, "net"@), "tun"@),
        }
    }

    /// The major number of the device that this node stands for.
    pub fn major(self) -> (major: u32)
        ensures
            major == self.major_of(),
            major <= 0xfff,
    {
        match self {
            DeviceNode::Null => 1,
            DeviceNode::Tty => 5,
            DeviceNode::Tun => 10,
        }
    }

    /// The minor number of the device that this node stands for.
    pub fn minor(self) -> (minor: u32)
        ensures
            minor == self.minor_of(),
            minor <= 0xfffff,
    {
        match self {
            DeviceNode::Null => 3,
            DeviceNode::Tty => 0,
            DeviceNode::Tun => 200,
        }
    }

    /// The path of this node under the device directory `dev`.
    pub fn path(self, dev: &str) -> (path: String)
        ensures
            path@ == self.place(dev@),
    {
        match self {
            DeviceNode::Null => join(dev, "null"),
            DeviceNode::Tty => join(dev, "tty"),
            DeviceNode::Tun => join(join(dev, "net").as_str(), "tun"),
        }
    }

    /// Lays out the provision of this node under the device directory `dev`:
    /// it is created only where nothing is at its path yet, as a character
    /// device open to all.
    pub fn ensure(self, dev: &str) -> (steps: Vec<Step>)
        ensures
            steps.deep_view() == node_steps(self.place(dev@), self.major_of(), self.minor_of()),
    {
        let mode: u32 = s_ifchr() | 0o666;
        assert(0o020000u32 | 0o666u32 == 0o020666u32) by (bit_vector);
        let path = self.path(dev);
        let mut steps: Vec<Step> = Vec::new();
        push_step(
            &mut steps,
            Step { request: Request::Probe { path: path.clone() }, policy: Policy::SkipNextIf(true) },
        );
        push_step(
            &mut steps,
            Step {
                request: Request::MakeNode {
                    path,
                    mode,
                    device: makedev(self.major(), self.minor()),
                },
                policy: Policy::BestEffort(Failure::Io),
            },
        );
        assert(steps.deep_view() =~= node_steps(
            self.place(dev@),
            self.major_of(),
            self.minor_of(),
        ));
        steps
    }
}

/// Lays out the provision of the device nodes `null`, `tty` and `net/tun`
/// under the directory `dev`.
pub fn ensure_device_nodes(dev: &str) -> (steps: Vec<Step>)
    ensures
        steps.deep_view() == device_steps(dev@),
{
    let mut steps: Vec<Step> = DeviceNode::Null.ensure(dev);
    append_steps(&mut steps, DeviceNode::Tty.ensure(dev));
    push_step(
        &mut steps,
        Step {
            request: Request::CreateDirAll { path: join(dev, "net") },
            policy: Policy::Required(Failure::Io),
        },
    );
    append_steps(&mut steps, DeviceNode::Tun.ensure(dev));
    steps
}

/// The argument vector for `program` with the argument string `args`.
pub fn argv(program: &str, args: &str) -> (argv: Vec<String>)
    ensures
        argv.deep_view() == argv_of(program@, args@),
{
    let mut argv: Vec<String> = Vec::new();
    argv.push(String::from_str(program));
    if args.unicode_len() > 0 {
        argv.push(String::from_str(args));
    }
    assert(argv.deep_view() =~= argv_of(program@, args@));
    argv
}

/// Lays out the entry into the container at `target`: the process ends up
/// rooted there, in the directory `home`, with `envs` set, and is replaced by
/// `bash` run with `args`. With `unshare` it is isolated from the host's
/// namespaces before anything is mounted.
pub fn start(
    target: &str,
    home: &str,
    envs: &Vec<(String, String)>,
    bash: &str,
    args: &str,
    unshare: bool,
) -> (steps: Vec<Step>)
    ensures
        steps.deep_view() == enter_plan(target@, home@, envs.deep_view(), bash@, args@, unshare),
{
    proof {
        reveal(enter_plan);
    }
    let dev = join(target, "dev");
    let mut steps: Vec<Step> = Vec::new();
    push_step(
        &mut steps,
        Step {
            request: Request::CreateDirAll { path: dev.clone() },
            policy: Policy::Required(Failure::Io),
        },
    );
    if unshare {
        append_steps(&mut steps, isolate());
    }
    let ghost head = steps.deep_view();
    assert(head =~= seq![
        required(RequestView::CreateDirAll { path: joined(target@, "dev"@) }, Failure::Io),
    ] + (if unshare {
        isolation_steps()
    } else {
        Seq::empty()
    }));
    append_steps(&mut steps, mount("proc", "proc", join(target, "proc").as_str(), 0, false));
    append_steps(&mut steps, mount("sysfs", "sys", join(target, "sys").as_str(), 0, false));
    append_steps(&mut steps, mount_bind("/dev/", dev.as_str(), false));
    assert(steps.deep_view() =~= head + container_mounts(target@));
    append_steps(&mut steps, ensure_device_nodes(dev.as_str()));
    let ghost middle = steps.deep_view();
    push_step(
        &mut steps,
        Step {
            request: Request::Chroot { path: String::from_str(target) },
            policy: Policy::Required(Failure::Enter),
        },
    );
    push_step(
        &mut steps,
        Step {
            request: Request::Chdir { path: String::from_str(home) },
            policy: Policy::Required(Failure::Enter),
        },
    );
    append_steps(&mut steps, set_envs(envs));
    push_step(
        &mut steps,
        Step {
            request: Request::Exec { program: String::from_str(bash), args: argv(bash, args) },
            policy: Policy::Replace,
        },
    );
    assert(steps.deep_view() =~= middle + takeover_steps(
        target@,
        home@,
        envs.deep_view(),
        bash@,
        args@,
    ));
    steps
}

} // verus!
