use alt::chroot::{
    argv, ensure_device_nodes, isolate, mount, mount_bind, set_envs, start, unmount, DeviceNode,
    NamespaceSet,
};
use alt::protocol::{Failure, Policy, Request, Step};

fn text(s: &str) -> String {
    s.to_string()
}

fn pair(key: &str, value: &str) -> (String, String) {
    (key.to_string(), value.to_string())
}

fn required(request: Request, failure: Failure) -> Step {
    Step { request, policy: Policy::Required(failure) }
}

fn best_effort(request: Request, failure: Failure) -> Step {
    Step { request, policy: Policy::BestEffort(failure) }
}

fn prepare(request: Request, failure: Failure) -> Step {
    Step { request, policy: Policy::Prepare(failure) }
}

fn node(path: &str, major: u32, minor: u32) -> Vec<Step> {
    vec![
        Step { request: Request::Probe { path: text(path) }, policy: Policy::SkipNextIf(true) },
        best_effort(
            Request::MakeNode {
                path: text(path),
                mode: libc::S_IFCHR | 0o666,
                device: libc::makedev(major, minor),
            },
            Failure::Io,
        ),
    ]
}

fn convenience_mount(source: &str, target: &str, fs_type: Option<&str>, flags: u64) -> Vec<Step> {
    vec![
        prepare(Request::CreateDirAll { path: text(target) }, Failure::Mount),
        best_effort(
            Request::Mount {
                source: Some(text(source)),
                target: text(target),
                fs_type: fs_type.map(text),
                flags,
            },
            Failure::Mount,
        ),
    ]
}

fn isolation() -> Vec<Step> {
    vec![
        required(Request::Unshare { flags: libc::CLONE_NEWNS }, Failure::Namespace),
        required(
            Request::Mount {
                source: None,
                target: text("/"),
                fs_type: None,
                flags: libc::MS_SLAVE | libc::MS_REC,
            },
            Failure::Namespace,
        ),
        required(
            Request::Unshare { flags: libc::CLONE_NEWPID | libc::CLONE_NEWUTS | libc::CLONE_NEWIPC },
            Failure::Namespace,
        ),
    ]
}

#[test]
fn a_mount_creates_its_mount_point_first() {
    assert_eq!(
        mount("proc", "proc", "/srv/ct1/proc", 0, false),
        convenience_mount("proc", "/srv/ct1/proc", Some("proc"), 0)
    );
    assert_eq!(
        mount("tmpfs", "none", "/mnt", 6, true),
        vec![
            required(Request::CreateDirAll { path: text("/mnt") }, Failure::Mount),
            required(
                Request::Mount {
                    source: Some(text("none")),
                    target: text("/mnt"),
                    fs_type: Some(text("tmpfs")),
                    flags: 6,
                },
                Failure::Mount,
            ),
        ]
    );
}

#[test]
fn a_bind_mount_carries_the_bind_flag_and_no_type() {
    assert_eq!(
        mount_bind("/dev/", "/srv/ct1/dev", false),
        convenience_mount("/dev/", "/srv/ct1/dev", None, libc::MS_BIND)
    );
    match &mount_bind("/a", "/b", true)[1].request {
        Request::Mount { flags, .. } => assert_eq!(*flags, 4096),
        other => panic!("{other:?}"),
    }
}

#[test]
fn an_unmount_creates_its_target_and_detaches_it() {
    assert_eq!(
        unmount("/srv/ct1/proc"),
        vec![
            required(Request::CreateDirAll { path: text("/srv/ct1/proc") }, Failure::Mount),
            Step { request: Request::Unmount { target: text("/srv/ct1/proc") }, policy: Policy::Detach },
        ]
    );
}

#[test]
fn variables_are_set_in_their_order_duplicates_included() {
    let vars = vec![pair("A", "1"), pair("B", "2"), pair("A", "3")];
    assert_eq!(
        set_envs(&vars),
        vec![
            required(Request::SetEnv { key: text("A"), value: text("1") }, Failure::Enter),
            required(Request::SetEnv { key: text("B"), value: text("2") }, Failure::Enter),
            required(Request::SetEnv { key: text("A"), value: text("3") }, Failure::Enter),
        ]
    );
    assert_eq!(set_envs(&Vec::new()), Vec::new());
}

#[test]
fn a_namespace_set_is_named_by_one_bit_each() {
    let none = NamespaceSet { mount: false, pid: false, uts: false, ipc: false };
    assert_eq!(none.flags(), 0);
    assert_eq!(NamespaceSet { mount: true, ..none }.flags(), libc::CLONE_NEWNS);
    assert_eq!(NamespaceSet { pid: true, ..none }.flags(), libc::CLONE_NEWPID);
    assert_eq!(NamespaceSet { uts: true, ..none }.flags(), libc::CLONE_NEWUTS);
    assert_eq!(NamespaceSet { ipc: true, ..none }.flags(), libc::CLONE_NEWIPC);
    assert_eq!(
        NamespaceSet { mount: true, pid: true, uts: true, ipc: true }.flags(),
        libc::CLONE_NEWNS | libc::CLONE_NEWPID | libc::CLONE_NEWUTS | libc::CLONE_NEWIPC
    );
    assert_eq!(NamespaceSet { mount: false, pid: true, uts: true, ipc: true }.flags(), 0x2c000000);
}

#[test]
fn isolation_unshares_mounts_then_makes_the_tree_private_then_unshares_the_rest() {
    let steps = isolate();
    assert_eq!(steps, isolation());
    assert_eq!(steps[0].request, Request::Unshare { flags: 0x20000 });
    match &steps[1].request {
        Request::Mount { flags, .. } => assert_eq!(*flags, 0x84000),
        other => panic!("{other:?}"),
    }
    assert_eq!(steps[2].request, Request::Unshare { flags: 0x2c000000 });
}

#[test]
fn a_device_node_is_probed_before_it_is_made() {
    let steps = DeviceNode::Null.ensure("/srv/ct1/dev");
    assert_eq!(steps, node("/srv/ct1/dev/null", 1, 3));
    assert_eq!(
        steps[1].request,
        Request::MakeNode { path: text("/srv/ct1/dev/null"), mode: 0o020666, device: 0x103 }
    );
}

#[test]
fn the_device_nodes_have_their_documented_numbers_and_places() {
    let nodes = [
        (DeviceNode::Null, "/srv/ct1/dev/null", 1u32, 3u32, 259u64),
        (DeviceNode::Tty, "/srv/ct1/dev/tty", 5, 0, 1280),
        (DeviceNode::Tun, "/srv/ct1/dev/net/tun", 10, 200, 2760),
    ];
    for (node, path, major, minor, device) in nodes {
        assert_eq!(node.major(), major);
        assert_eq!(node.minor(), minor);
        assert_eq!(node.path("/srv/ct1/dev"), path);
        assert_eq!(node.path("/srv/ct1/dev/"), path);
        match &node.ensure("/srv/ct1/dev")[1].request {
            Request::MakeNode { device: made, mode, path: at } => {
                assert_eq!(*made, device);
                assert_eq!(*made, libc::makedev(major, minor));
                assert_eq!(libc::major(*made), major);
                assert_eq!(libc::minor(*made), minor);
                assert_eq!(*mode, libc::S_IFCHR | 0o666);
                assert_eq!(at, path);
            }
            other => panic!("{other:?}"),
        }
    }
}

#[test]
fn the_three_device_nodes_are_null_tty_and_tun() {
    let mut expected = node("/srv/ct1/dev/null", 1, 3);
    expected.extend(node("/srv/ct1/dev/tty", 5, 0));
    expected.push(required(Request::CreateDirAll { path: text("/srv/ct1/dev/net") }, Failure::Io));
    expected.extend(node("/srv/ct1/dev/net/tun", 10, 200));
    let steps = ensure_device_nodes("/srv/ct1/dev");
    assert_eq!(steps, expected);
    let devices: Vec<u64> = steps
        .iter()
        .filter_map(|step| match &step.request {
            Request::MakeNode { device, .. } => Some(*device),
            _ => None,
        })
        .collect();
    assert_eq!(devices, vec![259, 1280, 2760]);
}

#[test]
fn the_argument_vector_is_the_program_and_its_argument_string() {
    assert_eq!(argv("/bin/zsh", "-l"), vec![text("/bin/zsh"), text("-l")]);
    assert_eq!(argv("/bin/ash", "/tmp/usergroup.sh"), vec![text("/bin/ash"), text("/tmp/usergroup.sh")]);
    assert_eq!(argv("bash", "-l -i"), vec![text("bash"), text("-l -i")]);
    assert_eq!(argv("bash", ""), vec![text("bash")]);
}

fn entry(unshare: bool) -> Vec<Step> {
    let mut expected = vec![required(Request::CreateDirAll { path: text("/srv/ct1/dev") }, Failure::Io)];
    if unshare {
        expected.extend(isolation());
    }
    expected.extend(convenience_mount("proc", "/srv/ct1/proc", Some("proc"), 0));
    expected.extend(convenience_mount("sys", "/srv/ct1/sys", Some("sysfs"), 0));
    expected.extend(convenience_mount("/dev/", "/srv/ct1/dev", None, libc::MS_BIND));
    expected.extend(node("/srv/ct1/dev/null", 1, 3));
    expected.extend(node("/srv/ct1/dev/tty", 5, 0));
    expected.push(required(Request::CreateDirAll { path: text("/srv/ct1/dev/net") }, Failure::Io));
    expected.extend(node("/srv/ct1/dev/net/tun", 10, 200));
    expected.push(required(Request::Chroot { path: text("/srv/ct1") }, Failure::Enter));
    expected.push(required(Request::Chdir { path: text("/home/dev") }, Failure::Enter));
    expected.push(required(Request::SetEnv { key: text("USER"), value: text("dev") }, Failure::Enter));
    expected.push(required(Request::SetEnv { key: text("TERM"), value: text("xterm") }, Failure::Enter));
    expected.push(Step {
        request: Request::Exec { program: text("/bin/zsh"), args: vec![text("/bin/zsh"), text("-l")] },
        policy: Policy::Replace,
    });
    expected
}

#[test]
fn an_entry_without_isolation_mounts_provides_nodes_and_hands_over() {
    let envs = vec![pair("USER", "dev"), pair("TERM", "xterm")];
    let steps = start("/srv/ct1", "/home/dev", &envs, "/bin/zsh", "-l", false);
    assert_eq!(steps, entry(false));
    assert_eq!(steps.len(), 19);
    assert!(steps.iter().all(|step| !matches!(step.request, Request::Unshare { .. })));
}

#[test]
fn an_isolated_entry_isolates_before_it_mounts() {
    let envs = vec![pair("USER", "dev"), pair("TERM", "xterm")];
    let steps = start("/srv/ct1", "/home/dev", &envs, "/bin/zsh", "-l", true);
    assert_eq!(steps, entry(true));
    assert_eq!(steps.len(), 22);
    let last_unshare = steps.iter().rposition(|s| matches!(s.request, Request::Unshare { .. })).unwrap();
    let first_proc = steps
        .iter()
        .position(|s| matches!(&s.request, Request::Mount { fs_type: Some(_), .. }))
        .unwrap();
    assert_eq!(last_unshare, 3);
    assert!(last_unshare < first_proc);
}

#[test]
fn every_mount_of_an_entry_fits_thirty_two_bits() {
    for unshare in [false, true] {
        for step in start("/srv/ct1", "/root", &Vec::new(), "bash", "-l", unshare) {
            if let Request::Mount { flags, .. } = step.request {
                assert!(flags <= u64::from(u32::MAX));
            }
        }
    }
}
