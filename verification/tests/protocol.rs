use alt::compress::Format;
use alt::config::Config;
use alt::protocol::{
    append_steps, push_step, reply_of_return, Failure, Policy, Reply, Report, Request, Step, Verdict,
};

fn replies() -> Vec<Reply> {
    vec![
        Reply::Done,
        Reply::Flag(true),
        Reply::Flag(false),
        Reply::Count(0),
        Reply::Count(3),
        Reply::Loaded(Config::default()),
        Reply::Failed(0),
        Reply::Failed(2),
        Reply::Failed(libc::EINVAL),
    ]
}

fn is_failed(reply: &Reply) -> bool {
    matches!(reply, Reply::Failed(_))
}

#[test]
fn exit_codes_are_those_of_the_command_line() {
    assert_eq!(Failure::ArchiveMissing.exit_code(), 1);
    assert_eq!(Failure::TargetUncreatable.exit_code(), 1);
    assert_eq!(Failure::TargetIsFile.exit_code(), 2);
    assert_eq!(Failure::TargetNotEmpty.exit_code(), 3);
    assert_eq!(Failure::UnknownFormat.exit_code(), 4);
    for failure in [
        Failure::Attributes,
        Failure::Io,
        Failure::Mount,
        Failure::Namespace,
        Failure::Config,
        Failure::Archive,
        Failure::Enter,
        Failure::Hook,
    ] {
        assert_eq!(failure.exit_code(), 1, "{failure:?}");
    }
}

#[test]
fn diagnostics_name_what_they_are_about() {
    assert_eq!(Failure::ArchiveMissing.message("base.tar.gz"), "Error: base.tar.gz does not exist.");
    assert_eq!(Failure::TargetUncreatable.message("/srv/ct1"), "Error: failed to create /srv/ct1.");
    assert_eq!(Failure::TargetIsFile.message("/srv/ct1"), "Error: /srv/ct1 is a file.");
    assert_eq!(Failure::TargetNotEmpty.message("/srv/ct1"), "Error: /srv/ct1 is not empty");
    assert_eq!(Failure::UnknownFormat.message("ignored"), "Error");
    assert_eq!(Failure::Attributes.message("/srv/ct1"), "Error: can't chattr to /srv/ct1");
    assert_eq!(Failure::Io.message("/srv/ct1/dev"), "Error: file operation failed on /srv/ct1/dev");
    assert_eq!(Failure::Mount.message("/srv/ct1/proc"), "Error: mount operation failed on /srv/ct1/proc");
    assert_eq!(Failure::Namespace.message("/"), "Error: namespace isolation failed");
    assert_eq!(
        Failure::Config.message("/srv/ct1/config.toml"),
        "Error: cannot read the configuration /srv/ct1/config.toml"
    );
    assert_eq!(Failure::Archive.message("base.zip"), "Error: archive operation failed on base.zip");
    assert_eq!(Failure::Enter.message("/bin/zsh"), "Error: cannot enter the container with /bin/zsh");
    assert_eq!(Failure::Hook.message("0"), "Error: the hook that hides mounts failed");
}

#[test]
fn every_diagnostic_is_one_line() {
    for failure in [
        Failure::ArchiveMissing,
        Failure::TargetUncreatable,
        Failure::TargetIsFile,
        Failure::TargetNotEmpty,
        Failure::UnknownFormat,
        Failure::Attributes,
        Failure::Io,
        Failure::Mount,
        Failure::Namespace,
        Failure::Config,
        Failure::Archive,
        Failure::Enter,
        Failure::Hook,
    ] {
        let text = failure.message("/srv/ct1");
        assert!(text.starts_with("Error"), "{failure:?}");
        assert!(!text.contains('\n'), "{failure:?}");
    }
}

#[test]
fn a_report_says_what_its_failure_says_of_its_subject() {
    let report = Report {
        failure: Failure::TargetNotEmpty,
        subject: "/srv/ct1".to_string(),
        errno: 0,
        fatal: true,
    };
    assert_eq!(report.message(), "Error: /srv/ct1 is not empty");
}

#[test]
fn only_the_flag_true_answers_yes() {
    for reply in replies() {
        assert_eq!(reply.answer(), reply == Reply::Flag(true), "{reply:?}");
    }
}

#[test]
fn only_a_failure_carries_an_error_number() {
    assert_eq!(Reply::Failed(13).errno(), 13);
    assert_eq!(Reply::Failed(-1).errno(), -1);
    assert_eq!(Reply::Done.errno(), 0);
    assert_eq!(Reply::Flag(true).errno(), 0);
    assert_eq!(Reply::Count(9).errno(), 0);
    assert_eq!(Reply::Loaded(Config::default()).errno(), 0);
}

#[test]
fn a_structural_step_ends_the_operation_when_it_fails() {
    for reply in replies() {
        let expected = if is_failed(&reply) { Verdict::Abort(Failure::Mount) } else { Verdict::Next };
        assert_eq!(Policy::Required(Failure::Mount).judge(&reply), expected, "{reply:?}");
    }
}

#[test]
fn a_convenience_step_is_reported_when_it_fails() {
    for reply in replies() {
        let expected = if is_failed(&reply) { Verdict::Report(Failure::Io) } else { Verdict::Next };
        assert_eq!(Policy::BestEffort(Failure::Io).judge(&reply), expected, "{reply:?}");
    }
}

#[test]
fn a_failed_preparation_takes_the_next_step_with_it() {
    for reply in replies() {
        let expected =
            if is_failed(&reply) { Verdict::ReportSkip(Failure::Mount) } else { Verdict::Next };
        assert_eq!(Policy::Prepare(Failure::Mount).judge(&reply), expected, "{reply:?}");
    }
}

#[test]
fn a_question_leaves_the_next_step_out_on_the_given_answer() {
    for reply in replies() {
        let yes = reply == Reply::Flag(true);
        assert_eq!(
            Policy::SkipNextIf(true).judge(&reply),
            if yes { Verdict::Skip } else { Verdict::Next },
            "{reply:?}"
        );
        assert_eq!(
            Policy::SkipNextIf(false).judge(&reply),
            if yes { Verdict::Next } else { Verdict::Skip },
            "{reply:?}"
        );
    }
}

#[test]
fn a_question_ends_the_operation_on_the_given_answer() {
    for reply in replies() {
        let yes = reply == Reply::Flag(true);
        assert_eq!(
            Policy::RejectIf(true, Failure::TargetIsFile).judge(&reply),
            if yes { Verdict::Abort(Failure::TargetIsFile) } else { Verdict::Next },
            "{reply:?}"
        );
        assert_eq!(
            Policy::RejectIf(false, Failure::ArchiveMissing).judge(&reply),
            if yes { Verdict::Next } else { Verdict::Abort(Failure::ArchiveMissing) },
            "{reply:?}"
        );
    }
}

#[test]
fn only_an_empty_directory_passes_the_count() {
    assert_eq!(Policy::RejectUnlessEmpty.judge(&Reply::Count(0)), Verdict::Next);
    assert_eq!(Policy::RejectUnlessEmpty.judge(&Reply::Count(1)), Verdict::Abort(Failure::TargetNotEmpty));
    assert_eq!(
        Policy::RejectUnlessEmpty.judge(&Reply::Count(usize::MAX)),
        Verdict::Abort(Failure::TargetNotEmpty)
    );
    assert_eq!(Policy::RejectUnlessEmpty.judge(&Reply::Failed(13)), Verdict::Abort(Failure::Io));
    assert_eq!(Policy::RejectUnlessEmpty.judge(&Reply::Done), Verdict::Abort(Failure::Io));
    assert_eq!(Policy::RejectUnlessEmpty.judge(&Reply::Flag(true)), Verdict::Abort(Failure::Io));
}

#[test]
fn an_unmount_of_what_is_not_mounted_passes() {
    assert_eq!(Policy::Detach.judge(&Reply::Done), Verdict::Next);
    assert_eq!(Policy::Detach.judge(&Reply::Failed(libc::EINVAL)), Verdict::Next);
    assert_eq!(Policy::Detach.judge(&Reply::Failed(22)), Verdict::Next);
    assert_eq!(Policy::Detach.judge(&Reply::Failed(libc::EBUSY)), Verdict::Abort(Failure::Mount));
    assert_eq!(Policy::Detach.judge(&Reply::Failed(libc::EPERM)), Verdict::Abort(Failure::Mount));
    assert_eq!(Policy::Detach.judge(&Reply::Failed(0)), Verdict::Abort(Failure::Mount));
}

#[test]
fn only_a_configuration_passes_the_reading() {
    for reply in replies() {
        let expected = if matches!(reply, Reply::Loaded(_)) {
            Verdict::Next
        } else {
            Verdict::Abort(Failure::Config)
        };
        assert_eq!(Policy::Load.judge(&reply), expected, "{reply:?}");
    }
}

#[test]
fn remembering_always_passes() {
    for reply in replies() {
        assert_eq!(Policy::Remember.judge(&reply), Verdict::Next, "{reply:?}");
    }
}

#[test]
fn a_replacement_that_answers_at_all_has_failed() {
    for reply in replies() {
        assert_eq!(Policy::Replace.judge(&reply), Verdict::Abort(Failure::Enter), "{reply:?}");
    }
}

#[test]
fn a_system_call_that_returns_0_is_done_and_any_other_failed() {
    assert_eq!(reply_of_return(0, 0), Reply::Done);
    assert_eq!(reply_of_return(0, libc::EINVAL), Reply::Done);
    assert_eq!(reply_of_return(-1, libc::EPERM), Reply::Failed(libc::EPERM));
    assert_eq!(reply_of_return(-1, 0), Reply::Failed(0));
    assert_eq!(reply_of_return(1, libc::EBUSY), Reply::Failed(libc::EBUSY));
    assert_eq!(reply_of_return(i32::MIN, libc::EINVAL), Reply::Failed(libc::EINVAL));
}

#[test]
fn a_tool_without_success_is_reported_and_one_that_cannot_run_is_fatal() {
    let policy = Policy::Tool(Failure::Attributes);
    assert_eq!(policy.judge(&Reply::Flag(true)), Verdict::Next);
    assert_eq!(policy.judge(&Reply::Done), Verdict::Next);
    assert_eq!(policy.judge(&Reply::Flag(false)), Verdict::Report(Failure::Attributes));
    assert_eq!(policy.judge(&Reply::Failed(2)), Verdict::Abort(Failure::Io));
}

#[test]
fn the_subject_of_a_request_is_what_it_works_on() {
    let path = || "/srv/ct1".to_string();
    let cases = vec![
        (Request::Probe { path: path() }, "/srv/ct1"),
        (Request::ProbeFile { path: path() }, "/srv/ct1"),
        (Request::CountEntries { path: path() }, "/srv/ct1"),
        (Request::CreateDirAll { path: path() }, "/srv/ct1"),
        (Request::RemoveFile { path: path() }, "/srv/ct1"),
        (Request::RemoveDirAll { path: path() }, "/srv/ct1"),
        (Request::WriteFile { path: path(), contents: "x".to_string() }, "/srv/ct1"),
        (Request::SetPermissions { path: path(), mode: 0o777 }, "/srv/ct1"),
        (Request::ReadConfig { path: path() }, "/srv/ct1"),
        (Request::WriteConfig { path: path(), config: Config::default() }, "/srv/ct1"),
        (
            Request::Unpack { format: Format::Zip, archive: "a.zip".to_string(), target: path() },
            "a.zip",
        ),
        (Request::Pack { source: path(), output: "out.zip".to_string() }, "/srv/ct1"),
        (Request::Unshare { flags: 1 }, ""),
        (
            Request::Mount {
                source: Some("proc".to_string()),
                target: path(),
                fs_type: Some("proc".to_string()),
                flags: 0,
            },
            "/srv/ct1",
        ),
        (Request::Unmount { target: path() }, "/srv/ct1"),
        (Request::MakeNode { path: path(), mode: 0, device: 0 }, "/srv/ct1"),
        (Request::Chroot { path: path() }, "/srv/ct1"),
        (Request::Chdir { path: "/root".to_string() }, "/root"),
        (Request::SetEnv { key: "USER".to_string(), value: "dev".to_string() }, "USER"),
        (Request::Exec { program: "/bin/zsh".to_string(), args: vec!["-l".to_string()] }, "/bin/zsh"),
        (Request::Spawn { program: "chattr".to_string(), args: vec!["-R".to_string(), path()] }, "/srv/ct1"),
        (Request::Spawn { program: "chattr".to_string(), args: Vec::new() }, "chattr"),
    ];
    for (request, subject) in cases {
        assert_eq!(request.subject(), subject, "{request:?}");
    }
}

#[test]
fn steps_are_added_at_the_end_in_their_order() {
    let step = |path: &str| Step {
        request: Request::Probe { path: path.to_string() },
        policy: Policy::Remember,
    };
    let mut plan = vec![step("a")];
    push_step(&mut plan, step("b"));
    append_steps(&mut plan, vec![step("c"), step("d")]);
    append_steps(&mut plan, Vec::new());
    assert_eq!(plan, vec![step("a"), step("b"), step("c"), step("d")]);
}
