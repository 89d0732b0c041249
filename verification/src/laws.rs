//! What holds of every operation, whatever the host answers.
//!
//! The theorems here speak of sessions as values: of the requests that a
//! session puts to the host, and of how it ends, for every reply that the
//! host may give.

use vstd::prelude::*;
use crate::chroot::{
    best_effort,
    bind_flags,
    container_mounts,
    device_steps,
    enter_plan,
    env_steps,
    isolation_steps,
    mount_steps,
    node_mode,
    node_steps,
    prepare,
    private_flags,
    required,
    takeover_steps,
    unmount_steps,
};
use crate::cli::{
    entry_home,
    hide_hook,
    install_after,
    login_plan,
    setup_command,
    setup_shell,
    install_plan,
    opening,
    remove_plan,
    unmount_plan,
    validation_steps,
    After,
    CommandView,
    SessionView,
};
use crate::compress::{extension_or_empty, format_of};
use crate::config::{config_path, default_config, init_steps, login_envs, ConfigView};
use crate::host::device_number;
use crate::protocol::{
    exit_code_of,
    not_mounted,
    Failure,
    Policy,
    ReplyView,
    ReportView,
    RequestView,
    StepView,
};
use crate::utils::joined;

verus! {

/// An install into a directory that holds entries is refused with exit code
/// 3, and up to then the host has only been asked to look: the archive and
/// the target were probed, nothing was created, written or removed.
pub proof fn install_refuses_an_occupied_target(
    rootfs: Seq<char>,
    target: Seq<char>,
    unshare: bool,
    script: Seq<char>,
    entries: usize,
)
    requires
        entries > 0,
    ensures
        ({
            let s0 = opening(CommandView::Install { rootfs, target }, unshare, script);
            let s1 = s0.advance(ReplyView::Flag(true)).0;
            let s2 = s1.advance(ReplyView::Flag(true)).0;
            let s3 = s2.advance(ReplyView::Flag(false)).0;
            let (s4, report) = s3.advance(ReplyView::Count(entries));
            &&& s0.current() == Some(RequestView::Probe { path: rootfs })
            &&& s1.current() == Some(RequestView::Probe { path: target })
            &&& s2.current() == Some(RequestView::ProbeFile { path: target })
            &&& s3.current() == Some(RequestView::CountEntries { path: target })
            &&& s4.exit == Some(3i32)
            &&& s4.current() is None
            &&& report == Some(
                ReportView {
                    failure: Failure::TargetNotEmpty,
                    subject: target,
                    errno: 0,
                    fatal: true,
                },
            )
        }),
{
    lemma_install_starts_with_checks(rootfs, target, unshare, script);
}

/// An install from an archive whose extension names no known format is
/// refused with exit code 4. Where the target is there already, an empty
/// directory, the host has only been asked to look up to then: nothing was
/// unpacked, created, written or removed.
pub proof fn install_refuses_an_unknown_format(
    rootfs: Seq<char>,
    target: Seq<char>,
    unshare: bool,
    script: Seq<char>,
)
    requires
        format_of(extension_or_empty(rootfs)) is None,
    ensures
        ({
            let s0 = opening(CommandView::Install { rootfs, target }, unshare, script);
            let s1 = s0.advance(ReplyView::Flag(true)).0;
            let s2 = s1.advance(ReplyView::Flag(true)).0;
            let s3 = s2.advance(ReplyView::Flag(false)).0;
            let (s4, report) = s3.advance(ReplyView::Count(0));
            &&& s0.current() == Some(RequestView::Probe { path: rootfs })
            &&& s1.current() == Some(RequestView::Probe { path: target })
            &&& s2.current() == Some(RequestView::ProbeFile { path: target })
            &&& s3.current() == Some(RequestView::CountEntries { path: target })
            &&& s4.exit == Some(4i32)
            &&& s4.current() is None
            &&& report == Some(
                ReportView {
                    failure: Failure::UnknownFormat,
                    subject: Seq::empty(),
                    errno: 0,
                    fatal: true,
                },
            )
        }),
{
    lemma_install_starts_with_checks(rootfs, target, unshare, script);
}

/// An install from an archive whose extension names no known format ends
/// with code 4 also where its target was missing: the target is created, is
/// then found to be an empty directory, and nothing is unpacked into it.
pub proof fn install_refuses_an_unknown_format_for_a_new_target(
    rootfs: Seq<char>,
    target: Seq<char>,
    unshare: bool,
    script: Seq<char>,
)
    requires
        format_of(extension_or_empty(rootfs)) is None,
    ensures
        ({
            let s0 = opening(CommandView::Install { rootfs, target }, unshare, script);
            let s1 = s0.advance(ReplyView::Flag(true)).0;
            let s2 = s1.advance(ReplyView::Flag(false)).0;
            let s3 = s2.advance(ReplyView::Done).0;
            let s4 = s3.advance(ReplyView::Flag(false)).0;
            let (s5, report) = s4.advance(ReplyView::Count(0));
            &&& s2.current() == Some(RequestView::CreateDirAll { path: target })
            &&& s3.current() == Some(RequestView::ProbeFile { path: target })
            &&& s4.current() == Some(RequestView::CountEntries { path: target })
            &&& s5.exit == Some(4i32)
            &&& report is Some && report->0.failure == Failure::UnknownFormat
        }),
{
    lemma_install_starts_with_checks(rootfs, target, unshare, script);
}

/// The session of an install at the check with the index `position`.
pub open spec fn at_check(
    rootfs: Seq<char>,
    target: Seq<char>,
    unshare: bool,
    script: Seq<char>,
    position: nat,
) -> SessionView {
    SessionView {
        position,
        ..opening(CommandView::Install { rootfs, target }, unshare, script)
    }
}

/// The first five steps of an install are its checks, and this is how the
/// session walks through them: past the archive that exists to the target,
/// from a target that is there to the question whether it is a file, from
/// one that is not there to its creation and on, and from a target that is
/// no file to the count of its entries.
proof fn lemma_install_starts_with_checks(
    rootfs: Seq<char>,
    target: Seq<char>,
    unshare: bool,
    script: Seq<char>,
)
    ensures
        ({
            let s0 = opening(CommandView::Install { rootfs, target }, unshare, script);
            let checks = validation_steps(rootfs, target);
            let at = |position: nat| at_check(rootfs, target, unshare, script, position);
            &&& s0.waiting()
            &&& s0.position == 0
            &&& s0.plan.len() >= 5
            &&& s0.after == install_after(rootfs)
            &&& s0.plan.len() > 5 <==> format_of(extension_or_empty(rootfs)) is Some
            &&& s0.plan[0] == checks[0]
            &&& s0.plan[1] == checks[1]
            &&& s0.plan[2] == checks[2]
            &&& s0.plan[3] == checks[3]
            &&& s0.plan[4] == checks[4]
            &&& s0.advance(ReplyView::Flag(true)).0 == at(1)
            &&& at(1).advance(ReplyView::Flag(true)).0 == at(3)
            &&& at(1).advance(ReplyView::Flag(false)).0 == at(2)
            &&& at(2).advance(ReplyView::Done).0 == at(3)
            &&& at(3).advance(ReplyView::Flag(false)).0 == at(4)
        }),
{
    let plan = install_plan(rootfs, target, script);
    let checks = validation_steps(rootfs, target);
    assert(checks.len() == 5);
    assert(forall|i: int| 0 <= i < 5 ==> plan[i] == checks[i]);
}

/// An install whose archive does not exist ends with code 1 before anything
/// else is asked of the host, and says which archive it missed.
pub proof fn install_refuses_a_missing_archive(
    rootfs: Seq<char>,
    target: Seq<char>,
    unshare: bool,
    script: Seq<char>,
)
    ensures
        ({
            let s0 = opening(CommandView::Install { rootfs, target }, unshare, script);
            let (s1, report) = s0.advance(ReplyView::Flag(false));
            &&& s0.current() == Some(RequestView::Probe { path: rootfs })
            &&& s1.exit == Some(1i32)
            &&& report == Some(
                ReportView {
                    failure: Failure::ArchiveMissing,
                    subject: rootfs,
                    errno: 0,
                    fatal: true,
                },
            )
        }),
{
    lemma_install_starts_with_checks(rootfs, target, unshare, script);
}

/// An install creates its target where there is none. Where that fails it
/// ends with code 1 and says which directory it could not create.
pub proof fn install_refuses_an_uncreatable_target(
    rootfs: Seq<char>,
    target: Seq<char>,
    unshare: bool,
    script: Seq<char>,
    errno: i32,
)
    ensures
        ({
            let s0 = opening(CommandView::Install { rootfs, target }, unshare, script);
            let s1 = s0.advance(ReplyView::Flag(true)).0;
            let s2 = s1.advance(ReplyView::Flag(false)).0;
            let (s3, report) = s2.advance(ReplyView::Failed(errno));
            &&& s1.current() == Some(RequestView::Probe { path: target })
            &&& s2.current() == Some(RequestView::CreateDirAll { path: target })
            &&& s3.exit == Some(1i32)
            &&& report == Some(
                ReportView { failure: Failure::TargetUncreatable, subject: target, errno, fatal: true },
            )
        }),
{
    lemma_install_starts_with_checks(rootfs, target, unshare, script);
}

/// An install onto a regular file ends with code 2 and says which file is in
/// its way.
pub proof fn install_refuses_a_file_as_target(
    rootfs: Seq<char>,
    target: Seq<char>,
    unshare: bool,
    script: Seq<char>,
)
    ensures
        ({
            let s0 = opening(CommandView::Install { rootfs, target }, unshare, script);
            let s1 = s0.advance(ReplyView::Flag(true)).0;
            let s2 = s1.advance(ReplyView::Flag(true)).0;
            let (s3, report) = s2.advance(ReplyView::Flag(true));
            &&& s2.current() == Some(RequestView::ProbeFile { path: target })
            &&& s3.exit == Some(2i32)
            &&& report == Some(
                ReportView { failure: Failure::TargetIsFile, subject: target, errno: 0, fatal: true },
            )
        }),
{
    lemma_install_starts_with_checks(rootfs, target, unshare, script);
}

/// Every end in failure is reported: where a reply ends a session with a
/// code other than 0, it comes with a fatal diagnostic whose failure has
/// that code; where it ends the session with code 0, no diagnostic that
/// comes with it is fatal.
pub proof fn every_failed_end_is_reported(s: SessionView, reply: ReplyView)
    requires
        s.waiting(),
    ensures
        ({
            let (t, report) = s.advance(reply);
            &&& t.exit is Some && t.exit != Some(0i32) ==> report is Some && report->0.fatal
                && t.exit == Some(exit_code_of(report->0.failure))
            &&& t.exit == Some(0i32) ==> report is None || !report->0.fatal
            &&& t.exit is None ==> report is None || !report->0.fatal
        }),
{
}

/// A session never stalls and never turns back: after a reply it has ended,
/// or it awaits a reply further on in the same plan, or it has taken up the
/// plan of the entry, which happens at most once. So every session ends
/// after finitely many replies.
pub proof fn session_moves_forward(s: SessionView, reply: ReplyView)
    requires
        s.waiting(),
    ensures
        ({
            let t = s.advance(reply).0;
            ||| t.exit is Some
            ||| t.waiting() && t.plan == s.plan && t.after == s.after && t.position > s.position
            ||| t.waiting() && s.after is Enter && !(t.after is Enter) && t.position == 0
        }),
{
    let noted = s.noting(reply);
    lemma_an_entry_has_steps(noted.command, noted.config, noted.flag, noted.unshare);
}

/// The plan of an entry is never empty.
pub proof fn lemma_an_entry_has_steps(
    command: CommandView,
    config: ConfigView,
    ash: bool,
    unshare: bool,
)
    ensures
        crate::cli::entry_plan(command, config, ash, unshare) matches Some(plan) ==> plan.len() > 0,
{
    match command {
        CommandView::Install { target, .. } => {
            lemma_entry_layout(
                target,
                entry_home(),
                config.envs,
                setup_shell(ash),
                setup_command(),
                unshare,
            );
        },
        CommandView::Login { target } => {
            lemma_entry_layout(
                target,
                entry_home(),
                login_envs(config),
                config.shell.main,
                config.shell.args,
                unshare,
            );
        },
        _ => {},
    }
}

/// Once a session has ended, no reply changes it or gives rise to a
/// diagnostic.
pub proof fn an_ended_session_stays_ended(s: SessionView, reply: ReplyView)
    requires
        s.exit is Some,
    ensures
        s.advance(reply) == (s, None::<ReportView>),
        s.current() is None,
{
}

/// What the host answers to an unmount of a target that is mounted, and of
/// one that is not.
pub open spec fn detached(mounted: bool) -> ReplyView {
    if mounted {
        ReplyView::Done
    } else {
        ReplyView::Failed(not_mounted())
    }
}

/// An unmount succeeds whether or not anything is mounted: the container's
/// `proc` and `sys` are detached in turn, a target that is no mount point
/// counts as detached, and the session ends with code 0 and without a
/// diagnostic. So an unmount may be repeated at will.
pub proof fn unmount_succeeds_mounted_or_not(
    target: Seq<char>,
    unshare: bool,
    script: Seq<char>,
    proc_mounted: bool,
    sys_mounted: bool,
)
    ensures
        ({
            let s0 = opening(CommandView::Unmount { target }, unshare, script);
            let (s1, r1) = s0.advance(ReplyView::Done);
            let (s2, r2) = s1.advance(detached(proc_mounted));
            let (s3, r3) = s2.advance(ReplyView::Done);
            let (s4, r4) = s3.advance(detached(sys_mounted));
            &&& s0.current() == Some(RequestView::CreateDirAll { path: joined(target, "proc"@) })
            &&& s1.current() == Some(RequestView::Unmount { target: joined(target, "proc"@) })
            &&& s2.current() == Some(RequestView::CreateDirAll { path: joined(target, "sys"@) })
            &&& s3.current() == Some(RequestView::Unmount { target: joined(target, "sys"@) })
            &&& r1 is None && r2 is None && r3 is None && r4 is None
            &&& s4.exit == Some(0i32)
        }),
{
    let plan = unmount_plan(target);
    let first = unmount_steps(joined(target, "proc"@));
    let second = unmount_steps(joined(target, "sys"@));
    assert(plan.len() == 4);
    assert(plan[0] == first[0] && plan[1] == first[1]);
    assert(plan[2] == second[0] && plan[3] == second[1]);
}

/// An unmount that fails for any other reason than that nothing is mounted
/// ends the session with a code other than 0.
pub proof fn unmount_reports_a_real_failure(
    target: Seq<char>,
    unshare: bool,
    script: Seq<char>,
    errno: i32,
)
    requires
        errno != not_mounted(),
    ensures
        ({
            let s0 = opening(CommandView::Unmount { target }, unshare, script);
            let s1 = s0.advance(ReplyView::Done).0;
            let (s2, report) = s1.advance(ReplyView::Failed(errno));
            &&& s2.exit == Some(1i32)
            &&& report == Some(
                ReportView {
                    failure: Failure::Mount,
                    subject: joined(target, "proc"@),
                    errno,
                    fatal: true,
                },
            )
        }),
{
    let plan = unmount_plan(target);
    let first = unmount_steps(joined(target, "proc"@));
    assert(plan[0] == first[0] && plan[1] == first[1]);
}

/// Whether `reply` lets an unmount pass.
pub open spec fn lets_detach(reply: ReplyView) -> bool {
    reply is Failed ==> reply == ReplyView::Failed(not_mounted())
}

/// A removal succeeds only by deleting: whatever the host answers, the
/// session of a removal ends with code 0 only after the host was asked to
/// delete the whole tree of the target and did not fail at it. What the
/// clearing of attributes came to does not matter: where the tool ran,
/// with or without success, and every other step worked, the removal
/// succeeds, and a tool without success is reported on the way.
pub proof fn removal_ends_in_deletion(
    target: Seq<char>,
    unshare: bool,
    script: Seq<char>,
    replies: Seq<ReplyView>,
)
    requires
        replies.len() == 7,
    ensures
        ({
            let s0 = opening(CommandView::Remove { target }, unshare, script);
            let s1 = s0.advance(replies[0]).0;
            let s2 = s1.advance(replies[1]).0;
            let s3 = s2.advance(replies[2]).0;
            let s4 = s3.advance(replies[3]).0;
            let (s5, told) = s4.advance(replies[4]);
            let s6 = s5.advance(replies[5]).0;
            let s7 = s6.advance(replies[6]).0;
            let others_work = !(replies[0] is Failed) && lets_detach(replies[1]) && !(replies[2]
                is Failed) && lets_detach(replies[3]) && !(replies[5] is Failed) && !(replies[6]
                is Failed);
            &&& s0.exit != Some(0i32) && s1.exit != Some(0i32) && s2.exit != Some(0i32) && s3.exit
                != Some(0i32) && s4.exit != Some(0i32) && s5.exit != Some(0i32) && s6.exit != Some(
                0i32,
            )
            &&& s7.exit == Some(0i32) ==> s6.current() == Some(
                RequestView::RemoveDirAll { path: target },
            ) && !(replies[6] is Failed)
            &&& others_work && !(replies[4] is Failed) ==> s7.exit == Some(0i32)
            &&& others_work && replies[4] == ReplyView::Flag(false) ==> told == Some(
                ReportView {
                    failure: Failure::Attributes,
                    subject: target,
                    errno: 0,
                    fatal: false,
                },
            )
        }),
{
    let plan = remove_plan(target);
    let first = unmount_steps(joined(target, "proc"@));
    let second = unmount_steps(joined(target, "sys"@));
    assert(plan.len() == 7);
    assert(plan[0] == first[0] && plan[1] == first[1]);
    assert(plan[2] == second[0] && plan[3] == second[1]);
    let args = seq!["-R"@, "-i"@, "-a"@, target];
    assert(args.last() == target);
    assert(plan[4] == StepView {
        request: RequestView::Spawn { program: "chattr"@, args },
        policy: Policy::Tool(Failure::Attributes),
    });
    assert(plan[5].policy == Policy::Required(Failure::Io));
    assert(plan[6] == required(RequestView::RemoveDirAll { path: target }, Failure::Io));
}

/// Whether the steps `part` stand in the plan of `s` from the step at hand
/// on, with at least one step after them.
pub open spec fn stands_at_hand(s: SessionView, part: Seq<StepView>) -> bool {
    &&& s.waiting()
    &&& s.position + part.len() < s.plan.len()
    &&& s.plan.subrange(s.position as int, s.position + part.len() as int) == part
}

/// A configuration that is stored is never written over, and one that is
/// missing is created with the defaults: wherever the steps of the
/// initialisation stand in a plan, the host is first asked whether a
/// configuration is there; if it is, the session passes on without asking
/// for anything to be written; if it is not, the session asks for the
/// default configuration to be stored at that path. So initialising twice
/// leaves what the first time found or made.
pub proof fn stored_configuration_is_kept(s: SessionView, root: Seq<char>)
    requires
        stands_at_hand(s, init_steps(root)),
    ensures
        s.current() == Some(RequestView::Probe { path: config_path(root) }),
        s.advance(ReplyView::Flag(true)) == (
            SessionView { position: s.position + 2, ..s },
            None::<ReportView>,
        ),
        s.advance(ReplyView::Flag(false)).0.current() == Some(
            RequestView::WriteConfig { path: config_path(root), config: default_config() },
        ),
        default_config().user == "root"@,
        default_config().home == "/root"@,
        default_config().shell.main == "bash"@,
        default_config().shell.args == "-l"@,
        default_config().envs.len() == 4,
        default_config().envs[0].0 == "PATH"@,
        default_config().envs[1].0 == "TERM"@,
        default_config().envs[2].0 == "SHELL"@,
        default_config().envs[3].0 == "LANG"@,
{
    let part = init_steps(root);
    let p = s.position as int;
    let cut = s.plan.subrange(p, p + 2);
    assert(part.len() == 2);
    assert(s.plan[p] == cut[0]);
    assert(s.plan[p + 1] == cut[1]);
}

/// An install whose archive has a known format initialises the
/// configuration of its target: the steps of the initialisation stand in
/// its plan, after the archive has been unpacked and the resolver
/// configuration replaced.
pub proof fn install_initialises_the_configuration(
    rootfs: Seq<char>,
    target: Seq<char>,
    script: Seq<char>,
)
    requires
        format_of(extension_or_empty(rootfs)) is Some,
    ensures
        install_plan(rootfs, target, script).len() == 13,
        install_plan(rootfs, target, script).subrange(8, 10) == init_steps(target),
        install_plan(rootfs, target, script)[5].request is Unpack,
        install_plan(rootfs, target, script)[7].request == (RequestView::WriteFile {
            path: joined(target, "etc/resolv.conf"@),
            contents: "nameserver 8.8.8.8\nnameserver 114.114.114.114"@,
        }),
        install_plan(rootfs, target, script)[10].request == (RequestView::WriteFile {
            path: joined(target, "tmp/usergroup.sh"@),
            contents: script,
        }),
        install_plan(rootfs, target, script)[11].request == (RequestView::ReadConfig {
            path: config_path(target),
        }),
{
    let plan = install_plan(rootfs, target, script);
    let format = format_of(extension_or_empty(rootfs))->0;
    let checks = validation_steps(rootfs, target);
    let filling = crate::cli::population_steps(format, rootfs, target, script);
    let init = init_steps(target);
    assert(checks.len() == 5);
    assert(init.len() == 2);
    assert(filling.len() == 8);
    assert(plan == checks + filling);
    assert(forall|i: int| 0 <= i < 8 ==> plan[5 + i] == filling[i]);
    assert(filling[3] == init[0]);
    assert(filling[4] == init[1]);
    assert(plan.subrange(8, 10) =~= init);
}

/// Device nodes are provided once: wherever the steps of the provision
/// stand in a plan, the host is asked about each node in turn and asked to
/// create exactly those that are not there, so a node that exists is never
/// made again or altered. A node that cannot be made does not end the
/// session; only the directory `net` is needed. With all three nodes there,
/// as after a provision that worked, nothing is created at all.
pub proof fn device_nodes_are_provided_once(
    s: SessionView,
    dev: Seq<char>,
    null_there: bool,
    tty_there: bool,
    tun_there: bool,
    null_made: ReplyView,
    tty_made: ReplyView,
    net_made: ReplyView,
    tun_made: ReplyView,
)
    requires
        stands_at_hand(s, device_steps(dev)),
        !(net_made is Failed),
    ensures
        ({
            let null = joined(dev, "null"@);
            let tty = joined(dev, "tty"@);
            let net = joined(dev, "net"@);
            let tun = joined(net, "tun"@);
            let s1 = s.advance(ReplyView::Flag(null_there)).0;
            let s2 = if null_there {
                s1
            } else {
                s1.advance(null_made).0
            };
            let s3 = s2.advance(ReplyView::Flag(tty_there)).0;
            let s4 = if tty_there {
                s3
            } else {
                s3.advance(tty_made).0
            };
            let s5 = s4.advance(net_made).0;
            let s6 = s5.advance(ReplyView::Flag(tun_there)).0;
            let s7 = if tun_there {
                s6
            } else {
                s6.advance(tun_made).0
            };
            &&& s.current() == Some(RequestView::Probe { path: null })
            &&& !null_there ==> s1.current() == Some(
                RequestView::MakeNode { path: null, mode: node_mode(), device: device_number(1, 3) },
            )
            &&& s2.current() == Some(RequestView::Probe { path: tty })
            &&& !tty_there ==> s3.current() == Some(
                RequestView::MakeNode { path: tty, mode: node_mode(), device: device_number(5, 0) },
            )
            &&& s4.current() == Some(RequestView::CreateDirAll { path: net })
            &&& s5.current() == Some(RequestView::Probe { path: tun })
            &&& !tun_there ==> s6.current() == Some(
                RequestView::MakeNode {
                    path: tun,
                    mode: node_mode(),
                    device: device_number(10, 200),
                },
            )
            &&& s7 == SessionView { position: s.position + 7, ..s }
            &&& s7.waiting()
        }),
{
    let part = device_steps(dev);
    let p = s.position as int;
    let cut = s.plan.subrange(p, p + 7);
    let net = joined(dev, "net"@);
    let a = node_steps(joined(dev, "null"@), 1, 3);
    let b = node_steps(joined(dev, "tty"@), 5, 0);
    let c = node_steps(joined(net, "tun"@), 10, 200);
    assert(a.len() == 2 && b.len() == 2 && c.len() == 2);
    assert(part.len() == 7);
    assert(part[0] == a[0] && part[1] == a[1]);
    assert(part[2] == b[0] && part[3] == b[1]);
    assert(part[4] == required(RequestView::CreateDirAll { path: net }, Failure::Io));
    assert(part[5] == c[0] && part[6] == c[1]);
    assert(s.plan[p] == cut[0]);
    assert(s.plan[p + 1] == cut[1]);
    assert(s.plan[p + 2] == cut[2]);
    assert(s.plan[p + 3] == cut[3]);
    assert(s.plan[p + 4] == cut[4]);
    assert(s.plan[p + 5] == cut[5]);
    assert(s.plan[p + 6] == cut[6]);
    let s1 = s.advance(ReplyView::Flag(null_there)).0;
    let s2 = if null_there {
        s1
    } else {
        s1.advance(null_made).0
    };
    assert(s2 == SessionView { position: s.position + 2, ..s });
    let s3 = s2.advance(ReplyView::Flag(tty_there)).0;
    let s4 = if tty_there {
        s3
    } else {
        s3.advance(tty_made).0
    };
    assert(s4 == SessionView { position: s.position + 4, ..s });
    let s5 = s4.advance(net_made).0;
    assert(s5 == SessionView { position: s.position + 5, ..s });
    let s6 = s5.advance(ReplyView::Flag(tun_there)).0;
    let s7 = if tun_there {
        s6
    } else {
        s6.advance(tun_made).0
    };
    assert(s7 == SessionView { position: s.position + 7, ..s });
}

/// The device numbers of the three nodes: `null` is 1:3, `tty` 5:0 and
/// `net/tun` 10:200, each packed as the kernel reads it, and the mode of
/// each is that of a character device open to all.
pub proof fn device_numbers_are_the_documented_ones()
    ensures
        device_number(1, 3) == 0x103,
        device_number(5, 0) == 0x500,
        device_number(10, 200) == 0xac8,
        node_mode() == 0o020000 + 0o666,
{
    assert(((1u64 << 8) | (3u64 & 0xff) | ((3u64 & 0xfff00) << 12)) == 0x103u64) by (bit_vector);
    assert(((5u64 << 8) | (0u64 & 0xff) | ((0u64 & 0xfff00) << 12)) == 0x500u64) by (bit_vector);
    assert(((10u64 << 8) | (200u64 & 0xff) | ((200u64 & 0xfff00) << 12)) == 0xac8u64)
        by (bit_vector);
}

/// How many steps isolation takes in the plan of an entry.
pub open spec fn isolation_len(unshare: bool) -> int {
    if unshare {
        3
    } else {
        0
    }
}

/// The plan of an entry, part by part: where each part stands and how long
/// the whole is.
pub proof fn lemma_entry_layout(
    root: Seq<char>,
    home: Seq<char>,
    envs: Seq<(Seq<char>, Seq<char>)>,
    program: Seq<char>,
    args: Seq<char>,
    unshare: bool,
)
    ensures
        ({
            let plan = enter_plan(root, home, envs, program, args, unshare);
            let k = isolation_len(unshare);
            let n = envs.len() as int;
            &&& plan.len() == 17 + k + n
            &&& plan[0] == required(
                RequestView::CreateDirAll { path: joined(root, "dev"@) },
                Failure::Io,
            )
            &&& unshare ==> plan.subrange(1, 4) == isolation_steps()
            &&& plan.subrange(1 + k, 7 + k) == container_mounts(root)
            &&& plan.subrange(7 + k, 14 + k) == device_steps(joined(root, "dev"@))
            &&& plan.subrange(14 + k, 17 + k + n) == takeover_steps(root, home, envs, program, args)
        }),
{
    let plan = enter_plan(root, home, envs, program, args, unshare);
    let head = seq![
        required(RequestView::CreateDirAll { path: joined(root, "dev"@) }, Failure::Io),
    ];
    let isolation = if unshare {
        isolation_steps()
    } else {
        Seq::empty()
    };
    let mounts = container_mounts(root);
    let devices = device_steps(joined(root, "dev"@));
    let takeover = takeover_steps(root, home, envs, program, args);
    reveal(enter_plan);
    lemma_part_lengths(root, home, envs, program, args);
    assert(isolation.len() == isolation_len(unshare));
    assert(plan == head + isolation + mounts + devices + takeover);
    let k = isolation_len(unshare);
    let n = envs.len() as int;
    if unshare {
        assert(plan.subrange(1, 4) =~= isolation_steps());
    }
    assert(plan.subrange(1 + k, 7 + k) =~= mounts);
    assert(plan.subrange(7 + k, 14 + k) =~= devices);
    assert(plan.subrange(14 + k, 17 + k + n) =~= takeover);
}

/// How long the parts of an entry are.
proof fn lemma_part_lengths(
    root: Seq<char>,
    home: Seq<char>,
    envs: Seq<(Seq<char>, Seq<char>)>,
    program: Seq<char>,
    args: Seq<char>,
)
    ensures
        isolation_steps().len() == 3,
        container_mounts(root).len() == 6,
        device_steps(joined(root, "dev"@)).len() == 7,
        takeover_steps(root, home, envs, program, args).len() == 3 + envs.len(),
{
    let dev = joined(root, "dev"@);
    assert(mount_steps(Some("proc"@), joined(root, "proc"@), Some("proc"@), 0, false).len() == 2);
    assert(mount_steps(Some("sys"@), joined(root, "sys"@), Some("sysfs"@), 0, false).len() == 2);
    assert(mount_steps(Some("/dev/"@), dev, None, bind_flags(), false).len() == 2);
    assert(node_steps(joined(dev, "null"@), 1, 3).len() == 2);
    assert(node_steps(joined(dev, "tty"@), 5, 0).len() == 2);
    assert(node_steps(joined(joined(dev, "net"@), "tun"@), 10, 200).len() == 2);
    assert(env_steps(envs).len() == envs.len());
}

/// The convenience mounts of a container, step by step.
pub proof fn lemma_container_mounts(root: Seq<char>)
    ensures
        ({
            let mounts = container_mounts(root);
            let proc = joined(root, "proc"@);
            let sys = joined(root, "sys"@);
            let dev = joined(root, "dev"@);
            &&& mounts.len() == 6
            &&& mounts[0] == prepare(RequestView::CreateDirAll { path: proc }, Failure::Mount)
            &&& mounts[1] == best_effort(
                RequestView::Mount {
                    source: Some("proc"@),
                    target: proc,
                    fs_type: Some("proc"@),
                    flags: 0,
                },
                Failure::Mount,
            )
            &&& mounts[2] == prepare(RequestView::CreateDirAll { path: sys }, Failure::Mount)
            &&& mounts[3] == best_effort(
                RequestView::Mount {
                    source: Some("sys"@),
                    target: sys,
                    fs_type: Some("sysfs"@),
                    flags: 0,
                },
                Failure::Mount,
            )
            &&& mounts[4] == prepare(RequestView::CreateDirAll { path: dev }, Failure::Mount)
            &&& mounts[5] == best_effort(
                RequestView::Mount {
                    source: Some("/dev/"@),
                    target: dev,
                    fs_type: None,
                    flags: bind_flags(),
                },
                Failure::Mount,
            )
        }),
{
    let a = mount_steps(Some("proc"@), joined(root, "proc"@), Some("proc"@), 0, false);
    let b = mount_steps(Some("sys"@), joined(root, "sys"@), Some("sysfs"@), 0, false);
    let c = mount_steps(Some("/dev/"@), joined(root, "dev"@), None, bind_flags(), false);
    let mounts = container_mounts(root);
    assert(a.len() == 2 && b.len() == 2 && c.len() == 2);
    assert(mounts[0] == a[0] && mounts[1] == a[1]);
    assert(mounts[2] == b[0] && mounts[3] == b[1]);
    assert(mounts[4] == c[0] && mounts[5] == c[1]);
}

/// The steps of the provision of device nodes, step by step: none of them
/// mounts, unshares or takes the process over.
proof fn lemma_device_steps_kinds(dev: Seq<char>)
    ensures
        device_steps(dev).len() == 7,
        forall|i: int|
            0 <= i < 7 ==> {
                let request = (#[trigger] device_steps(dev)[i]).request;
                request is Probe || request is MakeNode || request is CreateDirAll
            },
{
    let part = device_steps(dev);
    let net = joined(dev, "net"@);
    let a = node_steps(joined(dev, "null"@), 1, 3);
    let b = node_steps(joined(dev, "tty"@), 5, 0);
    let c = node_steps(joined(net, "tun"@), 10, 200);
    assert(a.len() == 2 && b.len() == 2 && c.len() == 2);
    assert(part[0] == a[0] && part[1] == a[1]);
    assert(part[2] == b[0] && part[3] == b[1]);
    assert(part[4] == required(RequestView::CreateDirAll { path: net }, Failure::Io));
    assert(part[5] == c[0] && part[6] == c[1]);
}

/// The last steps of an entry, step by step.
proof fn lemma_takeover_steps(
    root: Seq<char>,
    home: Seq<char>,
    envs: Seq<(Seq<char>, Seq<char>)>,
    program: Seq<char>,
    args: Seq<char>,
)
    ensures
        ({
            let last = takeover_steps(root, home, envs, program, args);
            let n = envs.len() as int;
            &&& last.len() == n + 3
            &&& last[0] == required(RequestView::Chroot { path: root }, Failure::Enter)
            &&& last[1] == required(RequestView::Chdir { path: home }, Failure::Enter)
            &&& forall|i: int|
                0 <= i < n ==> #[trigger] last[2 + i] == required(
                    RequestView::SetEnv { key: envs[i].0, value: envs[i].1 },
                    Failure::Enter,
                )
            &&& last[n + 2].request is Exec
            &&& last[n + 2].policy == Policy::Replace
        }),
{
    let last = takeover_steps(root, home, envs, program, args);
    let vars = env_steps(envs);
    let n = envs.len() as int;
    assert(vars.len() == n);
    assert forall|i: int| 0 <= i < n implies #[trigger] last[2 + i] == required(
        RequestView::SetEnv { key: envs[i].0, value: envs[i].1 },
        Failure::Enter,
    ) by {
        assert(last[2 + i] == vars[i]);
    }
}

/// Isolation comes first, and in its order: in the plan of an isolated
/// entry the process leaves the mount namespace, then makes the whole mount
/// tree private, then leaves the process-id, host-name and IPC namespaces,
/// each step structural, and only after these three is anything mounted, a
/// device node made or the root changed. Nothing is unshared anywhere else,
/// and without isolation nothing is unshared at all.
pub proof fn isolation_comes_before_any_mount(
    root: Seq<char>,
    home: Seq<char>,
    envs: Seq<(Seq<char>, Seq<char>)>,
    program: Seq<char>,
    args: Seq<char>,
)
    ensures
        ({
            let plan = enter_plan(root, home, envs, program, args, true);
            &&& plan[1] == required(RequestView::Unshare { flags: 0x20000 }, Failure::Namespace)
            &&& plan[2] == required(
                RequestView::Mount { source: None, target: "/"@, fs_type: None, flags: 0x84000 },
                Failure::Namespace,
            )
            &&& plan[3] == required(RequestView::Unshare { flags: 0x2c000000 }, Failure::Namespace)
            &&& forall|i: int|
                0 <= i < plan.len() && (#[trigger] plan[i]).request is Unshare ==> i == 1 || i == 3
            &&& forall|i: int|
                0 <= i < plan.len() && ((#[trigger] plan[i]).request is Mount || plan[i].request
                    is MakeNode || plan[i].request is Chroot || plan[i].request is Exec) ==> i == 2
                    || i > 3
        }),
        ({
            let plan = enter_plan(root, home, envs, program, args, false);
            forall|i: int| 0 <= i < plan.len() ==> !((#[trigger] plan[i]).request is Unshare)
        }),
{
    lemma_kinds_of_entry_steps(root, home, envs, program, args, true);
    lemma_kinds_of_entry_steps(root, home, envs, program, args, false);
    lemma_entry_layout(root, home, envs, program, args, true);
    let plan = enter_plan(root, home, envs, program, args, true);
    let cut = plan.subrange(1, 4);
    assert(plan[1] == cut[0] && plan[2] == cut[1] && plan[3] == cut[2]);
}

/// What kind of request stands where in the plan of an entry.
proof fn lemma_kinds_of_entry_steps(
    root: Seq<char>,
    home: Seq<char>,
    envs: Seq<(Seq<char>, Seq<char>)>,
    program: Seq<char>,
    args: Seq<char>,
    unshare: bool,
)
    ensures
        ({
            let plan = enter_plan(root, home, envs, program, args, unshare);
            let k = isolation_len(unshare);
            let n = envs.len() as int;
            &&& plan.len() == 17 + k + n
            &&& forall|i: int|
                0 <= i < plan.len() && (#[trigger] plan[i]).request is Unshare ==> unshare && (i
                    == 1 || i == 3)
            &&& forall|i: int|
                0 <= i < plan.len() && (#[trigger] plan[i]).request is Mount ==> (unshare && i == 2)
                    || i == 2 + k || i == 4 + k || i == 6 + k
            &&& forall|i: int|
                0 <= i < plan.len() && (#[trigger] plan[i]).request is MakeNode ==> 7 + k <= i < 14
                    + k
            &&& forall|i: int|
                0 <= i < plan.len() && (#[trigger] plan[i]).request is Chroot ==> i == 14 + k
            &&& forall|i: int|
                0 <= i < plan.len() && (#[trigger] plan[i]).request is Chdir ==> i == 15 + k
            &&& forall|i: int|
                0 <= i < plan.len() && (#[trigger] plan[i]).request is SetEnv ==> 16 + k <= i < 16
                    + k + n
            &&& forall|i: int|
                0 <= i < plan.len() && (#[trigger] plan[i]).request is Exec ==> i == 16 + k + n
        }),
{
    let plan = enter_plan(root, home, envs, program, args, unshare);
    let k = isolation_len(unshare);
    let n = envs.len() as int;
    let dev = joined(root, "dev"@);
    lemma_entry_layout(root, home, envs, program, args, unshare);
    lemma_container_mounts(root);
    lemma_device_steps_kinds(dev);
    lemma_takeover_steps(root, home, envs, program, args);
    let isolation = isolation_steps();
    let mounts = container_mounts(root);
    let devices = device_steps(dev);
    let last = takeover_steps(root, home, envs, program, args);
    assert forall|i: int| 0 <= i < plan.len() implies {
        let request = (#[trigger] plan[i]).request;
        &&& request is Unshare ==> unshare && (i == 1 || i == 3)
        &&& request is Mount ==> (unshare && i == 2) || i == 2 + k || i == 4 + k || i == 6 + k
        &&& request is MakeNode ==> 7 + k <= i < 14 + k
        &&& request is Chroot ==> i == 14 + k
        &&& request is Chdir ==> i == 15 + k
        &&& request is SetEnv ==> 16 + k <= i < 16 + k + n
        &&& request is Exec ==> i == 16 + k + n
    } by {
        if i == 0 {
        } else if i < 1 + k {
            assert(plan[i] == plan.subrange(1, 4)[i - 1]);
            assert(plan[i] == isolation[i - 1]);
        } else if i < 7 + k {
            assert(plan[i] == plan.subrange(1 + k, 7 + k)[i - 1 - k]);
            assert(plan[i] == mounts[i - 1 - k]);
        } else if i < 14 + k {
            assert(plan[i] == plan.subrange(7 + k, 14 + k)[i - 7 - k]);
            assert(plan[i] == devices[i - 7 - k]);
        } else {
            assert(plan[i] == plan.subrange(14 + k, 17 + k + n)[i - 14 - k]);
            assert(plan[i] == last[i - 14 - k]);
            if 16 + k <= i < 16 + k + n {
                assert(last[2 + (i - 16 - k)].request is SetEnv);
            }
        }
    }
}

/// The root is changed only when everything else is in place, and the
/// process is handed over last: in the plan of an entry every mount and
/// every device node comes before the change of root, the change of
/// directory follows it at once, then the environment is set pair by pair in
/// its order, and the replacement of the process is the very last step.
pub proof fn entry_hands_the_process_over_last(
    root: Seq<char>,
    home: Seq<char>,
    envs: Seq<(Seq<char>, Seq<char>)>,
    program: Seq<char>,
    args: Seq<char>,
    unshare: bool,
)
    ensures
        ({
            let plan = enter_plan(root, home, envs, program, args, unshare);
            let c = 14 + isolation_len(unshare);
            let n = envs.len() as int;
            &&& plan.len() == c + n + 3
            &&& plan[c] == required(RequestView::Chroot { path: root }, Failure::Enter)
            &&& plan[c + 1] == required(RequestView::Chdir { path: home }, Failure::Enter)
            &&& forall|i: int|
                0 <= i < n ==> #[trigger] plan[c + 2 + i] == required(
                    RequestView::SetEnv { key: envs[i].0, value: envs[i].1 },
                    Failure::Enter,
                )
            &&& plan[c + n + 2] == StepView {
                request: RequestView::Exec { program, args: crate::chroot::argv_of(program, args) },
                policy: Policy::Replace,
            }
            &&& forall|i: int|
                0 <= i < plan.len() && ((#[trigger] plan[i]).request is Mount || plan[i].request
                    is MakeNode || plan[i].request is Unshare) ==> i < c
        }),
{
    let plan = enter_plan(root, home, envs, program, args, unshare);
    let k = isolation_len(unshare);
    let c = 14 + k;
    let n = envs.len() as int;
    lemma_kinds_of_entry_steps(root, home, envs, program, args, unshare);
    lemma_entry_layout(root, home, envs, program, args, unshare);
    lemma_takeover_steps(root, home, envs, program, args);
    let last = takeover_steps(root, home, envs, program, args);
    let cut = plan.subrange(c, c + n + 3);
    assert(plan[c] == cut[0]);
    assert(plan[c + 1] == cut[1]);
    assert(plan[c + n + 2] == cut[n + 2]);
    assert(last[n + 2] == StepView {
        request: RequestView::Exec { program, args: crate::chroot::argv_of(program, args) },
        policy: Policy::Replace,
    });
    assert forall|i: int| 0 <= i < n implies #[trigger] plan[c + 2 + i] == required(
        RequestView::SetEnv { key: envs[i].0, value: envs[i].1 },
        Failure::Enter,
    ) by {
        assert(plan[c + 2 + i] == cut[2 + i]);
        assert(cut[2 + i] == last[2 + i]);
    }
}

/// The mount flags of an entry fit a host whose mount flags are 32 bits
/// wide as well as one where they are 64: narrowing them to the host's width
/// loses nothing.
pub proof fn entry_mount_flags_fit_every_host(
    root: Seq<char>,
    home: Seq<char>,
    envs: Seq<(Seq<char>, Seq<char>)>,
    program: Seq<char>,
    args: Seq<char>,
    unshare: bool,
)
    ensures
        ({
            let plan = enter_plan(root, home, envs, program, args, unshare);
            forall|i: int|
                0 <= i < plan.len() ==> ((#[trigger] plan[i]).request matches RequestView::Mount {
                    flags,
                    ..
                } ==> flags <= 0xffff_ffff)
        }),
{
    let plan = enter_plan(root, home, envs, program, args, unshare);
    let k = isolation_len(unshare);
    lemma_kinds_of_entry_steps(root, home, envs, program, args, unshare);
    lemma_entry_layout(root, home, envs, program, args, unshare);
    lemma_container_mounts(root);
    let cut = plan.subrange(1 + k, 7 + k);
    assert(plan[2 + k] == cut[1] && plan[4 + k] == cut[3] && plan[6 + k] == cut[5]);
    if unshare {
        assert(plan[2] == plan.subrange(1, 4)[1]);
        assert(isolation_steps()[1].request == (RequestView::Mount {
            source: None,
            target: "/"@,
            fs_type: None,
            flags: private_flags(),
        }));
    }
}

/// What an entry mounts, an unmount can detach: the pseudo file systems
/// that a container gets on entry are mounted at the very paths that the
/// plan of an unmount derives from the same root and detaches.
pub proof fn entry_mounts_are_what_unmount_detaches(root: Seq<char>)
    ensures
        ({
            let mounts = container_mounts(root);
            let plan = unmount_plan(root);
            forall|i: int|
                0 <= i < mounts.len() ==> ((#[trigger] mounts[i]).request matches RequestView::Mount {
                    target,
                    fs_type: Some(_),
                    ..
                } ==> exists|j: int|
                    0 <= j < plan.len() && #[trigger] plan[j] == (StepView {
                        request: RequestView::Unmount { target },
                        policy: Policy::Detach,
                    }))
        }),
{
    let mounts = container_mounts(root);
    let plan = unmount_plan(root);
    lemma_container_mounts(root);
    let first = unmount_steps(joined(root, "proc"@));
    let second = unmount_steps(joined(root, "sys"@));
    assert(plan[1] == first[1]);
    assert(plan[3] == second[1]);
    assert forall|i: int| 0 <= i < mounts.len() implies ((#[trigger] mounts[i]).request matches RequestView::Mount {
        target,
        fs_type: Some(_),
        ..
    } ==> exists|j: int|
        0 <= j < plan.len() && #[trigger] plan[j] == (StepView {
            request: RequestView::Unmount { target },
            policy: Policy::Detach,
        })) by {
        if i == 1 {
            assert(plan[1] == (StepView {
                request: RequestView::Unmount { target: joined(root, "proc"@) },
                policy: Policy::Detach,
            }));
        } else if i == 3 {
            assert(plan[3] == (StepView {
                request: RequestView::Unmount { target: joined(root, "sys"@) },
                policy: Policy::Detach,
            }));
        }
    }
}

/// A login enters the container as its configuration says: once the
/// configuration has been read, and the host's hook run where there is one,
/// whatever came of it, the session takes up the plan of an entry into the
/// target, starting in `/root`, with the environment of a login and the
/// configured shell run with its configured argument string. A shell that
/// does not take the process over fails the login.
pub proof fn login_enters_as_configured(
    target: Seq<char>,
    unshare: bool,
    script: Seq<char>,
    config: ConfigView,
    hooked: ReplyView,
)
    ensures
        ({
            let s0 = opening(CommandView::Login { target }, unshare, script);
            let s1 = s0.advance(ReplyView::Loaded(config)).0;
            let plain = s1.advance(ReplyView::Flag(false));
            let s2 = s1.advance(ReplyView::Flag(true)).0;
            let with_hook = s2.advance(hooked);
            let entered = SessionView {
                plan: enter_plan(
                    target,
                    "/root"@,
                    login_envs(config),
                    config.shell.main,
                    config.shell.args,
                    unshare,
                ),
                position: 0,
                after: After::Fail(Failure::Enter),
                config,
                ..s0
            };
            &&& s0.current() == Some(RequestView::ReadConfig { path: config_path(target) })
            &&& s1.current() == Some(RequestView::Probe { path: hide_hook() })
            &&& plain == (entered, None::<ReportView>)
            &&& s2.current() == Some(
                RequestView::Spawn {
                    program: hide_hook(),
                    args: seq!["hide_sus_mnts_for_all_procs"@, "0"@],
                },
            )
            &&& with_hook.0 == entered
            &&& with_hook.1 is Some ==> !with_hook.1->0.fatal
            &&& entered.waiting()
        }),
{
    let s0 = opening(CommandView::Login { target }, unshare, script);
    let plan = login_plan(target);
    assert(plan.len() == 3);
    let s1 = s0.advance(ReplyView::Loaded(config)).0;
    assert(s1 == SessionView { position: 1, config, ..s0 });
    let s2 = s1.advance(ReplyView::Flag(true)).0;
    assert(s2 == SessionView { position: 2, config, ..s0 });
    lemma_an_entry_has_steps(CommandView::Login { target }, config, false, unshare);
}

/// A login into a container whose configuration cannot be read ends with
/// code 1 before anything is mounted or entered.
pub proof fn login_fails_without_configuration(
    target: Seq<char>,
    unshare: bool,
    script: Seq<char>,
    reply: ReplyView,
)
    requires
        !(reply is Loaded),
    ensures
        ({
            let s0 = opening(CommandView::Login { target }, unshare, script);
            let (s1, report) = s0.advance(reply);
            &&& s1.exit == Some(1i32)
            &&& report == Some(
                ReportView {
                    failure: Failure::Config,
                    subject: config_path(target),
                    errno: reply.errno(),
                    fatal: true,
                },
            )
        }),
{
    let plan = login_plan(target);
    assert(plan.len() == 3);
}

/// A replacement of the process that returns has failed. Wherever a session
/// stands at the step that hands the process over, any reply at all ends it
/// with code 1 and a fatal diagnostic that names the program and carries the
/// host's error number. That holds of an install as of a login, so no entry
/// ends in success: it ends in the replacement of the process or in failure.
pub proof fn a_command_that_returns_fails_the_entry(s: SessionView, reply: ReplyView)
    requires
        s.waiting(),
        s.plan[s.position as int].policy == Policy::Replace,
    ensures
        ({
            let (t, report) = s.advance(reply);
            &&& t.exit == Some(1i32)
            &&& t.current() is None
            &&& report == Some(
                ReportView {
                    failure: Failure::Enter,
                    subject: s.plan[s.position as int].request.subject(),
                    errno: reply.errno(),
                    fatal: true,
                },
            )
        }),
{
}

/// Once a session has taken up the plan of an entry it cannot end in
/// success: what follows that plan is the failure of the entry, so whatever
/// the host replies, the session does not end with code 0.
pub proof fn no_entry_ends_in_success(s: SessionView, reply: ReplyView)
    requires
        s.waiting(),
        s.after == After::Fail(Failure::Enter),
    ensures
        s.advance(reply).0.exit != Some(0i32),
{
}

/// An install enters its target with the setup script: once the target is
/// filled, the configuration read back and the host asked for `ash`, the
/// session takes up the plan of an entry into the target, starting in
/// `/root`, with the stored environment as it stands, and hands the process
/// over to `ash` where the host has it and to `bash` where not, run on the
/// setup script. A setup that does not take the process over fails the
/// install.
pub proof fn install_enters_with_the_setup_script(s: SessionView, ash: ReplyView)
    requires
        s.waiting(),
        s.command is Install,
        s.after is Enter,
        s.position + 1 == s.plan.len(),
        s.plan[s.position as int].policy == Policy::Remember,
    ensures
        s.advance(ash) == (
            SessionView {
                plan: enter_plan(
                    s.command->Install_target,
                    "/root"@,
                    s.config.envs,
                    if ash == ReplyView::Flag(true) {
                        "/bin/ash"@
                    } else {
                        "/bin/bash"@
                    },
                    "/tmp/usergroup.sh"@,
                    s.unshare,
                ),
                position: 0,
                after: After::Fail(Failure::Enter),
                flag: ash == ReplyView::Flag(true),
                ..s
            },
            None::<ReportView>,
        ),
{
    lemma_an_entry_has_steps(s.command, s.config, ash == ReplyView::Flag(true), s.unshare);
}

/// An install looks before it touches. As long as its session stands in the
/// checks, the request at hand is a question, or the creation of the target
/// itself, which is asked for only after the host has said that the target
/// is not there. A reply takes the session forward within the plan or ends
/// it, and the checks are left behind only by a count of zero entries: so
/// nothing is ever unpacked but into a directory that was found empty.
pub proof fn install_looks_before_it_touches(
    s: SessionView,
    rootfs: Seq<char>,
    target: Seq<char>,
    script: Seq<char>,
    reply: ReplyView,
)
    requires
        s.waiting(),
        s.plan == install_plan(rootfs, target, script),
        s.after == install_after(rootfs),
        s.position < 5,
    ensures
        ({
            let t = s.advance(reply).0;
            let request = s.current()->0;
            &&& request.is_query() || (s.position == 2 && request == RequestView::CreateDirAll {
                path: target,
            })
            &&& t.plan == s.plan
            &&& t.exit != Some(0i32)
            &&& t.exit is None ==> s.position < t.position <= 5
            &&& t.exit is None && t.position == 2 ==> s.position == 1 && !reply.answer()
            &&& t.position == 5 ==> s.position == 4 && reply == ReplyView::Count(0)
        }),
{
    let checks = validation_steps(rootfs, target);
    assert(checks.len() == 5);
    assert(forall|i: int| 0 <= i < 5 ==> s.plan[i] == checks[i]);
    if format_of(extension_or_empty(rootfs)) is Some {
        install_initialises_the_configuration(rootfs, target, script);
    } else {
        assert(s.plan =~= checks);
    }
}

} // verus!
