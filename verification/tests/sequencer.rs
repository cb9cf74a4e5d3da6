use initrt::sequencer::{
    describe, Action, MountSpec, Sequencer, SysCall, SysReq, SysResult, ENOENT,
};

/// Drive the sequencer with a script of results, recording every request
/// it emits, until it exits or the script runs out (the last pending
/// request is still recorded, as it would have been performed).
fn drive(script: &[SysResult]) -> (Vec<SysReq>, Option<i32>) {
    let mut seq = Sequencer::new();
    let mut emitted = Vec::new();
    let mut next = 0;
    loop {
        match seq.pending() {
            Action::Exit(code) => return (emitted, Some(code)),
            Action::Request(req) => {
                emitted.push(req);
                if next == script.len() {
                    return (emitted, None);
                }
                seq.advance(script[next]);
                next += 1;
            }
        }
    }
}

fn is_mount(req: SysReq) -> bool {
    matches!(
        req,
        SysReq::MountDev
            | SysReq::MountProc
            | SysReq::MountTmp
            | SysReq::MountSys
            | SysReq::MakePtsDir
            | SysReq::MountPts
            | SysReq::MountRootDevice
            | SysReq::MoveDev
            | SysReq::MoveSys
            | SysReq::MoveProc
            | SysReq::MoveTmp
            | SysReq::MoveStagingOntoRoot
    )
}

#[test]
fn non_init_identity_exits_without_mounting() {
    let (emitted, outcome) = drive(&[SysResult::Pid(7), SysResult::Success]);
    assert_eq!(emitted, vec![SysReq::GetPid, SysReq::ReportNotInit]);
    assert_eq!(outcome, Some(1));
    assert!(emitted.iter().all(|&r| !is_mount(r)));
    // The diagnostic line is the fixed one.
    match describe(SysReq::ReportNotInit) {
        SysCall::WriteLine(line) => assert_eq!(line, "Must be run as PID 1\n"),
        other => panic!("not a write: {other:?}"),
    }
}

#[test]
fn non_init_exits_even_if_the_write_fails() {
    let (emitted, outcome) = drive(&[SysResult::Pid(2), SysResult::Failure(5)]);
    assert_eq!(emitted, vec![SysReq::GetPid, SysReq::ReportNotInit]);
    assert_eq!(outcome, Some(1));
}

#[test]
fn pseudo_mounts_in_fixed_order() {
    let mut script = vec![SysResult::Pid(1)];
    script.extend([SysResult::Success; 6]);
    let (emitted, outcome) = drive(&script);
    assert_eq!(
        emitted,
        vec![
            SysReq::GetPid,
            SysReq::MountDev,
            SysReq::MountProc,
            SysReq::MountTmp,
            SysReq::MountSys,
            SysReq::MakePtsDir,
            SysReq::MountPts,
            SysReq::PollRootDevice,
        ]
    );
    assert_eq!(outcome, None);
}

#[test]
fn pseudo_mounts_halt_on_first_failure() {
    // The third operation (mounting /tmp) fails with EACCES 13: the run
    // stops there and 13 is the exit status, unmodified.
    let script = vec![
        SysResult::Pid(1),
        SysResult::Success,
        SysResult::Success,
        SysResult::Failure(13),
    ];
    let (emitted, outcome) = drive(&script);
    assert_eq!(
        emitted,
        vec![SysReq::GetPid, SysReq::MountDev, SysReq::MountProc, SysReq::MountTmp]
    );
    assert_eq!(outcome, Some(13));
}

#[test]
fn await_device_retries_on_not_found() {
    // Not found twice, then present: exactly three queries, then the root
    // mount proceeds.
    let mut script = vec![SysResult::Pid(1)];
    script.extend([SysResult::Success; 6]);
    script.extend([
        SysResult::Failure(ENOENT),
        SysResult::Failure(ENOENT),
        SysResult::Success,
    ]);
    let (emitted, outcome) = drive(&script);
    let polls = emitted.iter().filter(|&&r| r == SysReq::PollRootDevice).count();
    assert_eq!(polls, 3);
    assert_eq!(*emitted.last().unwrap(), SysReq::MountRootDevice);
    assert_eq!(outcome, None);
}

#[test]
fn await_device_fails_fast_on_other_errors() {
    // EPERM 1 on the first query: no retry, the sequence fails with it.
    let mut script = vec![SysResult::Pid(1)];
    script.extend([SysResult::Success; 6]);
    script.push(SysResult::Failure(1));
    let (emitted, outcome) = drive(&script);
    let polls = emitted.iter().filter(|&&r| r == SysReq::PollRootDevice).count();
    assert_eq!(polls, 1);
    assert_eq!(outcome, Some(1));
}

#[test]
fn switch_root_order_and_exec_failure() {
    // Everything succeeds up to the exec, which "returns" ENOEXEC 8; that
    // becomes the exit status.
    let mut script = vec![SysResult::Pid(1)];
    script.extend([SysResult::Success; 16]);
    script.push(SysResult::Failure(8));
    let (emitted, outcome) = drive(&script);
    assert_eq!(
        &emitted[emitted.len() - 5..],
        &[
            SysReq::EnterStaging,
            SysReq::MoveStagingOntoRoot,
            SysReq::PivotIntoStaging,
            SysReq::EnterNewRoot,
            SysReq::ExecInit,
        ]
    );
    assert_eq!(outcome, Some(8));
}

#[test]
fn full_boot_request_order() {
    let mut script = vec![SysResult::Pid(1)];
    script.extend([SysResult::Success; 16]);
    let (emitted, outcome) = drive(&script);
    assert_eq!(
        emitted,
        vec![
            SysReq::GetPid,
            SysReq::MountDev,
            SysReq::MountProc,
            SysReq::MountTmp,
            SysReq::MountSys,
            SysReq::MakePtsDir,
            SysReq::MountPts,
            SysReq::PollRootDevice,
            SysReq::MountRootDevice,
            SysReq::MoveDev,
            SysReq::MoveSys,
            SysReq::MoveProc,
            SysReq::MoveTmp,
            SysReq::EnterStaging,
            SysReq::MoveStagingOntoRoot,
            SysReq::PivotIntoStaging,
            SysReq::EnterNewRoot,
            SysReq::ExecInit,
        ]
    );
    // The exec is pending and never answered: no exit status was reached.
    assert_eq!(outcome, None);
}

#[test]
fn relocation_failure_is_terminal() {
    let mut script = vec![SysResult::Pid(1)];
    script.extend([SysResult::Success; 10]); // pseudo 6, poll, root mount, 2 moves
    script.push(SysResult::Failure(16)); // EBUSY on the third move
    let (emitted, outcome) = drive(&script);
    assert_eq!(*emitted.last().unwrap(), SysReq::MoveProc);
    assert_eq!(outcome, Some(16));
}

#[test]
fn describe_pseudo_mounts() {
    assert_eq!(
        describe(SysReq::MountDev),
        SysCall::Mount(MountSpec {
            source: None,
            target: "/dev",
            fstype: Some("devtmpfs"),
            read_only: false,
            options: None,
        })
    );
    assert_eq!(
        describe(SysReq::MountProc),
        SysCall::Mount(MountSpec {
            source: None,
            target: "/proc",
            fstype: Some("proc"),
            read_only: false,
            options: None,
        })
    );
    assert_eq!(
        describe(SysReq::MountTmp),
        SysCall::Mount(MountSpec {
            source: None,
            target: "/tmp",
            fstype: Some("tmpfs"),
            read_only: false,
            options: Some("mode=1777"),
        })
    );
    assert_eq!(
        describe(SysReq::MountSys),
        SysCall::Mount(MountSpec {
            source: None,
            target: "/sys",
            fstype: Some("sysfs"),
            read_only: false,
            options: None,
        })
    );
    assert_eq!(describe(SysReq::MakePtsDir), SysCall::MakeDir { path: "/dev/pts" });
    assert_eq!(
        describe(SysReq::MountPts),
        SysCall::Mount(MountSpec {
            source: None,
            target: "/dev/pts",
            fstype: Some("devpts"),
            read_only: false,
            options: None,
        })
    );
}

#[test]
fn describe_root_and_switch() {
    assert_eq!(describe(SysReq::GetPid), SysCall::QueryPid);
    assert_eq!(describe(SysReq::PollRootDevice), SysCall::QueryDevice { path: "/dev/vda2" });
    assert_eq!(
        describe(SysReq::MountRootDevice),
        SysCall::Mount(MountSpec {
            source: Some("/dev/vda2"),
            target: "/stem",
            fstype: Some("f2fs"),
            read_only: true,
            options: None,
        })
    );
    assert_eq!(
        describe(SysReq::MoveDev),
        SysCall::MoveMount { source: "/dev", target: "/stem/dev" }
    );
    assert_eq!(
        describe(SysReq::MoveSys),
        SysCall::MoveMount { source: "/sys", target: "/stem/sys" }
    );
    assert_eq!(
        describe(SysReq::MoveProc),
        SysCall::MoveMount { source: "/proc", target: "/stem/proc" }
    );
    assert_eq!(
        describe(SysReq::MoveTmp),
        SysCall::MoveMount { source: "/tmp", target: "/stem/tmp" }
    );
    assert_eq!(describe(SysReq::EnterStaging), SysCall::ChangeDir { path: "/stem" });
    assert_eq!(
        describe(SysReq::MoveStagingOntoRoot),
        SysCall::MoveMount { source: ".", target: "/" }
    );
    assert_eq!(describe(SysReq::PivotIntoStaging), SysCall::ChangeRoot { path: "." });
    assert_eq!(describe(SysReq::EnterNewRoot), SysCall::ChangeDir { path: "/" });
    assert_eq!(
        describe(SysReq::ExecInit),
        SysCall::Execute { path: "/system/busybox", arg0: "/system/busybox", arg1: "init" }
    );
}
