//! The PID-1 boot sequencer.
//!
//! The boot transition is a strictly sequential state machine: verify that
//! the process is PID 1, mount the pseudo-filesystems in a fixed order, wait
//! for the root block device, mount it read-only at a staging directory,
//! relocate the pseudo-filesystem mounts under the staging root, switch root
//! into it, and finally replace the process image with the real init.
//!
//! The sequencer itself performs no kernel call. It hands its driver one
//! request at a time ([`SysReq`], described concretely by [`describe`]) and
//! is advanced with the result of that call ([`SysResult`]). Every
//! transition is pinned by the spec functions [`action_of`] and
//! [`next_state`], and the order of the requests emitted over a whole run is
//! stated by [`run_requests`] and proved in the lemmas at the end of this
//! module. A failure is terminal: its raw OS error number becomes the
//! process exit status, unchanged.

use vstd::prelude::*;

verus! {

/// Raw OS error number for "no such file or directory". While waiting for
/// the root block device this is the one error that means "retry"; any
/// other error ends the sequence.
pub const ENOENT: i32 = 2;

/// Exit status when the process is not PID 1.
pub const NOT_INIT_STATUS: i32 = 1;

/// One kernel call that the sequencer asks its driver to perform.
///
/// The variants name the fixed operations of the boot sequence; the
/// concrete paths, filesystem types and options of each are given by
/// [`describe`].
#[derive(Clone, Copy, Debug, PartialEq, Eq, Structural)]
pub enum SysReq {
    /// Ask for the calling process's id.
    GetPid,
    /// Write the fixed diagnostic line for a non-init identity.
    ReportNotInit,
    /// Mount the device filesystem at `/dev`.
    MountDev,
    /// Mount the process filesystem at `/proc`.
    MountProc,
    /// Mount the memory-backed filesystem at `/tmp`, mode `1777`.
    MountTmp,
    /// Mount the system filesystem at `/sys`.
    MountSys,
    /// Create the `/dev/pts` directory.
    MakePtsDir,
    /// Mount the pseudo-terminal filesystem at `/dev/pts`.
    MountPts,
    /// Query the root block device's metadata.
    PollRootDevice,
    /// Mount the root block device, read-only, at the staging directory.
    MountRootDevice,
    /// Move the `/dev` mount under the staging root.
    MoveDev,
    /// Move the `/sys` mount under the staging root.
    MoveSys,
    /// Move the `/proc` mount under the staging root.
    MoveProc,
    /// Move the `/tmp` mount under the staging root.
    MoveTmp,
    /// Change the working directory into the staging root.
    EnterStaging,
    /// Move-mount the working directory onto `/`.
    MoveStagingOntoRoot,
    /// Change the process root directory to the working directory.
    PivotIntoStaging,
    /// Change the working directory to the new `/`.
    EnterNewRoot,
    /// Replace the process image with the handoff target.
    ExecInit,
}

/// The result of a performed request, fed back into the sequencer.
#[derive(Clone, Copy, Debug, PartialEq, Eq, Structural)]
pub enum SysResult {
    /// The process id, answering [`SysReq::GetPid`].
    Pid(i32),
    /// The call succeeded.
    Success,
    /// The call failed with this raw OS error number.
    Failure(i32),
}

/// What the sequencer wants next: another kernel call, or process exit.
#[derive(Clone, Copy, Debug, PartialEq, Eq, Structural)]
pub enum Action {
    /// Perform this call and advance the sequencer with its result.
    Request(SysReq),
    /// The sequence is over; exit with this status.
    Exit(i32),
}

/// The states of the boot transition. The numbered states carry the index
/// of their next fixed operation.
#[derive(Clone, Copy, Debug, PartialEq, Eq, Structural)]
pub enum InitState {
    /// Confirm that the calling process is PID 1.
    VerifyIdentity,
    /// The identity check failed; the diagnostic line is pending.
    ReportIdentity,
    /// Mounting the pseudo-filesystems, operations 0 to 5.
    MountPseudoFs(u8),
    /// Waiting for the root block device to appear.
    AwaitBlockDevice,
    /// Mounting the root block device at the staging directory.
    MountRoot,
    /// Moving the pseudo-filesystem mounts under the staging root, 0 to 3.
    RelocateMounts(u8),
    /// Entering the staging root and making it `/`, sub-steps 0 to 3.
    SwitchRoot(u8),
    /// The exec of the handoff target is pending; a reply can only be an
    /// error, since a successful exec never returns.
    Exec,
    /// Terminal: exit with this status.
    Failed(i32),
}

/// A mount call's arguments: an optional source path, the target path, an
/// optional filesystem-type name, the one flag this sequence uses, and an
/// optional option string. Built immediately before the call and discarded
/// after it.
#[derive(Clone, Copy, Debug, PartialEq, Eq)]
pub struct MountSpec {
    pub source: Option<&'static str>,
    pub target: &'static str,
    pub fstype: Option<&'static str>,
    pub read_only: bool,
    pub options: Option<&'static str>,
}

/// A request spelled out as the kernel call to perform, with its fixed
/// arguments.
#[derive(Clone, Copy, Debug, PartialEq, Eq)]
pub enum SysCall {
    /// Ask for the calling process's id.
    QueryPid,
    /// Write this line to standard output.
    WriteLine(&'static str),
    /// Mount a filesystem.
    Mount(MountSpec),
    /// Move a mount, keeping its identity.
    MoveMount { source: &'static str, target: &'static str },
    /// Create a directory.
    MakeDir { path: &'static str },
    /// Query a device path's metadata.
    QueryDevice { path: &'static str },
    /// Change the working directory.
    ChangeDir { path: &'static str },
    /// Change the process root directory.
    ChangeRoot { path: &'static str },
    /// Replace the process image: this path, these two arguments, an empty
    /// environment.
    Execute { path: &'static str, arg0: &'static str, arg1: &'static str },
}

/// A mount of a pseudo-filesystem: no source, no options, not read-only.
pub open spec fn pseudo_mount(m: MountSpec, target: Seq<char>, fstype: Seq<char>) -> bool {
    &&& m.source is None
    &&& m.target@ == target
    &&& m.fstype matches Some(f) && f@ == fstype
    &&& !m.read_only
    &&& m.options is None
}

/// Exactly which call, with which arguments, performs each request.
pub open spec fn req_describes(req: SysReq, c: SysCall) -> bool {
    match req {
        SysReq::GetPid => c == SysCall::QueryPid,
        SysReq::ReportNotInit => c matches SysCall::WriteLine(line) && line@ == "Must be run as PID 1\n"@,
        SysReq::MountDev => c matches SysCall::Mount(m) && pseudo_mount(m, "/dev"@, "devtmpfs"@),
        SysReq::MountProc => c matches SysCall::Mount(m) && pseudo_mount(m, "/proc"@, "proc"@),
        SysReq::MountTmp => c matches SysCall::Mount(m) && {
            &&& m.source is None
            &&& m.target@ == "/tmp"@
            &&& m.fstype matches Some(f) && f@ == "tmpfs"@
            &&& !m.read_only
            &&& m.options matches Some(o) && o@ == "mode=1777"@
        },
        SysReq::MountSys => c matches SysCall::Mount(m) && pseudo_mount(m, "/sys"@, "sysfs"@),
        SysReq::MakePtsDir => c matches SysCall::MakeDir { path } && path@ == "/dev/pts"@,
        SysReq::MountPts => c matches SysCall::Mount(m) && pseudo_mount(m, "/dev/pts"@, "devpts"@),
        SysReq::PollRootDevice => c matches SysCall::QueryDevice { path } && path@ == "/dev/vda2"@,
        SysReq::MountRootDevice => c matches SysCall::Mount(m) && {
            &&& m.source matches Some(s) && s@ == "/dev/vda2"@
            &&& m.target@ == "/stem"@
            &&& m.fstype matches Some(f) && f@ == "f2fs"@
            &&& m.read_only
            &&& m.options is None
        },
        SysReq::MoveDev => c matches SysCall::MoveMount { source, target } && source@ == "/dev"@
            && target@ == "/stem/dev"@,
        SysReq::MoveSys => c matches SysCall::MoveMount { source, target } && source@ == "/sys"@
            && target@ == "/stem/sys"@,
        SysReq::MoveProc => c matches SysCall::MoveMount { source, target } && source@ == "/proc"@
            && target@ == "/stem/proc"@,
        SysReq::MoveTmp => c matches SysCall::MoveMount { source, target } && source@ == "/tmp"@
            && target@ == "/stem/tmp"@,
        SysReq::EnterStaging => c matches SysCall::ChangeDir { path } && path@ == "/stem"@,
        SysReq::MoveStagingOntoRoot => c matches SysCall::MoveMount { source, target }
            && source@ == "."@ && target@ == "/"@,
        SysReq::PivotIntoStaging => c matches SysCall::ChangeRoot { path } && path@ == "."@,
        SysReq::EnterNewRoot => c matches SysCall::ChangeDir { path } && path@ == "/"@,
        SysReq::ExecInit => c matches SysCall::Execute { path, arg0, arg1 }
            && path@ == "/system/busybox"@ && arg0@ == "/system/busybox"@ && arg1@ == "init"@,
    }
}

/// Spell a request out as the kernel call that performs it.
pub fn describe(req: SysReq) -> (c: SysCall)
    ensures
        req_describes(req, c),
{
    match req {
        SysReq::GetPid => SysCall::QueryPid,
        SysReq::ReportNotInit => SysCall::WriteLine("Must be run as PID 1\n"),
        SysReq::MountDev => SysCall::Mount(
            MountSpec {
                source: None,
                target: "/dev",
                fstype: Some("devtmpfs"),
                read_only: false,
                options: None,
            },
        ),
        SysReq::MountProc => SysCall::Mount(
            MountSpec {
                source: None,
                target: "/proc",
                fstype: Some("proc"),
                read_only: false,
                options: None,
            },
        ),
        SysReq::MountTmp => SysCall::Mount(
            MountSpec {
                source: None,
                target: "/tmp",
                fstype: Some("tmpfs"),
                read_only: false,
                options: Some("mode=1777"),
            },
        ),
        SysReq::MountSys => SysCall::Mount(
            MountSpec {
                source: None,
                target: "/sys",
                fstype: Some("sysfs"),
                read_only: false,
                options: None,
            },
        ),
        SysReq::MakePtsDir => SysCall::MakeDir { path: "/dev/pts" },
        SysReq::MountPts => SysCall::Mount(
            MountSpec {
                source: None,
                target: "/dev/pts",
                fstype: Some("devpts"),
                read_only: false,
                options: None,
            },
        ),
        SysReq::PollRootDevice => SysCall::QueryDevice { path: "/dev/vda2" },
        SysReq::MountRootDevice => SysCall::Mount(
            MountSpec {
                source: Some("/dev/vda2"),
                target: "/stem",
                fstype: Some("f2fs"),
                read_only: true,
                options: None,
            },
        ),
        SysReq::MoveDev => SysCall::MoveMount { source: "/dev", target: "/stem/dev" },
        SysReq::MoveSys => SysCall::MoveMount { source: "/sys", target: "/stem/sys" },
        SysReq::MoveProc => SysCall::MoveMount { source: "/proc", target: "/stem/proc" },
        SysReq::MoveTmp => SysCall::MoveMount { source: "/tmp", target: "/stem/tmp" },
        SysReq::EnterStaging => SysCall::ChangeDir { path: "/stem" },
        SysReq::MoveStagingOntoRoot => SysCall::MoveMount { source: ".", target: "/" },
        SysReq::PivotIntoStaging => SysCall::ChangeRoot { path: "." },
        SysReq::EnterNewRoot => SysCall::ChangeDir { path: "/" },
        SysReq::ExecInit => SysCall::Execute {
            path: "/system/busybox",
            arg0: "/system/busybox",
            arg1: "init",
        },
    }
}

/// The pseudo-filesystem operation at index `i` of [`InitState::MountPseudoFs`].
pub open spec fn pseudo_request(i: int) -> SysReq {
    if i == 0 {
        SysReq::MountDev
    } else if i == 1 {
        SysReq::MountProc
    } else if i == 2 {
        SysReq::MountTmp
    } else if i == 3 {
        SysReq::MountSys
    } else if i == 4 {
        SysReq::MakePtsDir
    } else {
        SysReq::MountPts
    }
}

/// The relocation operation at index `i` of [`InitState::RelocateMounts`].
pub open spec fn relocate_request(i: int) -> SysReq {
    if i == 0 {
        SysReq::MoveDev
    } else if i == 1 {
        SysReq::MoveSys
    } else if i == 2 {
        SysReq::MoveProc
    } else {
        SysReq::MoveTmp
    }
}

/// The root-switch operation at index `i` of [`InitState::SwitchRoot`].
pub open spec fn switch_request(i: int) -> SysReq {
    if i == 0 {
        SysReq::EnterStaging
    } else if i == 1 {
        SysReq::MoveStagingOntoRoot
    } else if i == 2 {
        SysReq::PivotIntoStaging
    } else {
        SysReq::EnterNewRoot
    }
}

/// What each state asks of the driver.
pub open spec fn action_of(s: InitState) -> Action {
    match s {
        InitState::VerifyIdentity => Action::Request(SysReq::GetPid),
        InitState::ReportIdentity => Action::Request(SysReq::ReportNotInit),
        InitState::MountPseudoFs(i) => Action::Request(pseudo_request(i as int)),
        InitState::AwaitBlockDevice => Action::Request(SysReq::PollRootDevice),
        InitState::MountRoot => Action::Request(SysReq::MountRootDevice),
        InitState::RelocateMounts(i) => Action::Request(relocate_request(i as int)),
        InitState::SwitchRoot(i) => Action::Request(switch_request(i as int)),
        InitState::Exec => Action::Request(SysReq::ExecInit),
        InitState::Failed(code) => Action::Exit(code),
    }
}

/// Which results can answer the request of state `s`: a pid answers only
/// the identity query, a successful exec never returns, and a terminal
/// state asks nothing.
pub open spec fn expects(s: InitState, r: SysResult) -> bool {
    match s {
        InitState::VerifyIdentity => r is Pid,
        InitState::Exec => r is Failure,
        InitState::Failed(_) => false,
        _ => r is Success || r is Failure,
    }
}

/// The transition relation of the boot sequence.
///
/// The diagnostic write's result is ignored: the exit status for a non-init
/// identity is [`NOT_INIT_STATUS`] whether or not the line could be
/// written. Every failing operation is terminal with its own error number,
/// except a "not found" while polling the root device, which retries.
pub open spec fn next_state(s: InitState, r: SysResult) -> InitState {
    match s {
        InitState::VerifyIdentity => if r matches SysResult::Pid(p) && p == 1 {
            InitState::MountPseudoFs(0)
        } else {
            InitState::ReportIdentity
        },
        InitState::ReportIdentity => InitState::Failed(NOT_INIT_STATUS),
        InitState::MountPseudoFs(i) => match r {
            SysResult::Success => if i < 5 {
                InitState::MountPseudoFs((i + 1) as u8)
            } else {
                InitState::AwaitBlockDevice
            },
            SysResult::Failure(e) => InitState::Failed(e),
            _ => s,
        },
        InitState::AwaitBlockDevice => match r {
            SysResult::Success => InitState::MountRoot,
            SysResult::Failure(e) => if e == ENOENT {
                InitState::AwaitBlockDevice
            } else {
                InitState::Failed(e)
            },
            _ => s,
        },
        InitState::MountRoot => match r {
            SysResult::Success => InitState::RelocateMounts(0),
            SysResult::Failure(e) => InitState::Failed(e),
            _ => s,
        },
        InitState::RelocateMounts(i) => match r {
            SysResult::Success => if i < 3 {
                InitState::RelocateMounts((i + 1) as u8)
            } else {
                InitState::SwitchRoot(0)
            },
            SysResult::Failure(e) => InitState::Failed(e),
            _ => s,
        },
        InitState::SwitchRoot(i) => match r {
            SysResult::Success => if i < 3 {
                InitState::SwitchRoot((i + 1) as u8)
            } else {
                InitState::Exec
            },
            SysResult::Failure(e) => InitState::Failed(e),
            _ => s,
        },
        InitState::Exec => match r {
            SysResult::Failure(e) => InitState::Failed(e),
            _ => s,
        },
        InitState::Failed(_) => s,
    }
}

/// The boot sequencer: holds the current state and mirrors [`action_of`]
/// and [`next_state`] exactly.
pub struct Sequencer {
    state: InitState,
}

impl View for Sequencer {
    type V = InitState;

    closed spec fn view(&self) -> InitState {
        self.state
    }
}

impl Sequencer {
    /// A sequencer at the start of the boot transition.
    pub fn new() -> (s: Self)
        ensures
            s@ == InitState::VerifyIdentity,
    {
        Sequencer { state: InitState::VerifyIdentity }
    }

    /// What the driver should do now.
    pub fn pending(&self) -> (a: Action)
        ensures
            a == action_of(self@),
    {
        match self.state {
            InitState::VerifyIdentity => Action::Request(SysReq::GetPid),
            InitState::ReportIdentity => Action::Request(SysReq::ReportNotInit),
            InitState::MountPseudoFs(i) => Action::Request(
                if i == 0 {
                    SysReq::MountDev
                } else if i == 1 {
                    SysReq::MountProc
                } else if i == 2 {
                    SysReq::MountTmp
                } else if i == 3 {
                    SysReq::MountSys
                } else if i == 4 {
                    SysReq::MakePtsDir
                } else {
                    SysReq::MountPts
                },
            ),
            InitState::AwaitBlockDevice => Action::Request(SysReq::PollRootDevice),
            InitState::MountRoot => Action::Request(SysReq::MountRootDevice),
            InitState::RelocateMounts(i) => Action::Request(
                if i == 0 {
                    SysReq::MoveDev
                } else if i == 1 {
                    SysReq::MoveSys
                } else if i == 2 {
                    SysReq::MoveProc
                } else {
                    SysReq::MoveTmp
                },
            ),
            InitState::SwitchRoot(i) => Action::Request(
                if i == 0 {
                    SysReq::EnterStaging
                } else if i == 1 {
                    SysReq::MoveStagingOntoRoot
                } else if i == 2 {
                    SysReq::PivotIntoStaging
                } else {
                    SysReq::EnterNewRoot
                },
            ),
            InitState::Exec => Action::Request(SysReq::ExecInit),
            InitState::Failed(code) => Action::Exit(code),
        }
    }

    /// Advance with the result of the pending request.
    pub fn advance(&mut self, r: SysResult)
        requires
            expects(old(self)@, r),
        ensures
            final(self)@ == next_state(old(self)@, r),
    {
        let s = self.state;
        self.state = match s {
            InitState::VerifyIdentity => match r {
                SysResult::Pid(p) => if p == 1 {
                    InitState::MountPseudoFs(0)
                } else {
                    InitState::ReportIdentity
                },
                _ => InitState::ReportIdentity,
            },
            InitState::ReportIdentity => InitState::Failed(NOT_INIT_STATUS),
            InitState::MountPseudoFs(i) => match r {
                SysResult::Success => if i < 5 {
                    InitState::MountPseudoFs(i + 1)
                } else {
                    InitState::AwaitBlockDevice
                },
                SysResult::Failure(e) => InitState::Failed(e),
                _ => s,
            },
            InitState::AwaitBlockDevice => match r {
                SysResult::Success => InitState::MountRoot,
                SysResult::Failure(e) => if e == ENOENT {
                    InitState::AwaitBlockDevice
                } else {
                    InitState::Failed(e)
                },
                _ => s,
            },
            InitState::MountRoot => match r {
                SysResult::Success => InitState::RelocateMounts(0),
                SysResult::Failure(e) => InitState::Failed(e),
                _ => s,
            },
            InitState::RelocateMounts(i) => match r {
                SysResult::Success => if i < 3 {
                    InitState::RelocateMounts(i + 1)
                } else {
                    InitState::SwitchRoot(0)
                },
                SysResult::Failure(e) => InitState::Failed(e),
                _ => s,
            },
            InitState::SwitchRoot(i) => match r {
                SysResult::Success => if i < 3 {
                    InitState::SwitchRoot(i + 1)
                } else {
                    InitState::Exec
                },
                SysResult::Failure(e) => InitState::Failed(e),
                _ => s,
            },
            InitState::Exec => match r {
                SysResult::Failure(e) => InitState::Failed(e),
                _ => s,
            },
            InitState::Failed(_) => s,
        };
    }
}

/// The requests a run emits, starting in state `s` and answered one by one
/// from `rs`. A terminal state emits nothing; when the replies run out, the
/// one pending request is the last element. A successful exec is the run
/// whose last pending request is [`SysReq::ExecInit`]: it is never
/// answered, because the process image is gone.
pub open spec fn run_requests(s: InitState, rs: Seq<SysResult>) -> Seq<SysReq>
    decreases rs.len(),
{
    match action_of(s) {
        Action::Exit(_) => seq![],
        Action::Request(q) => if rs.len() == 0 {
            seq![q]
        } else {
            seq![q] + run_requests(next_state(s, rs[0]), rs.skip(1))
        },
    }
}

/// The exit status a run reaches within its replies, if any.
pub open spec fn run_outcome(s: InitState, rs: Seq<SysResult>) -> Option<i32>
    decreases rs.len(),
{
    match action_of(s) {
        Action::Exit(code) => Some(code),
        Action::Request(_) => if rs.len() == 0 {
            None
        } else {
            run_outcome(next_state(s, rs[0]), rs.skip(1))
        },
    }
}

/// Whether a request touches the mount table or the filesystem: every mount,
/// mount move, and directory creation.
pub open spec fn is_mount_request(q: SysReq) -> bool {
    match q {
        SysReq::MountDev => true,
        SysReq::MountProc => true,
        SysReq::MountTmp => true,
        SysReq::MountSys => true,
        SysReq::MakePtsDir => true,
        SysReq::MountPts => true,
        SysReq::MountRootDevice => true,
        SysReq::MoveDev => true,
        SysReq::MoveSys => true,
        SysReq::MoveProc => true,
        SysReq::MoveTmp => true,
        SysReq::MoveStagingOntoRoot => true,
        _ => false,
    }
}

/// A non-init identity ends the sequence at once: the run asks for the pid,
/// writes the diagnostic line — whatever the write's own result — and exits
/// with the non-zero status [`NOT_INIT_STATUS`], having made no mount,
/// mount-move, or directory-creation request.
pub proof fn lemma_non_init_no_mounts(p: i32, rs: Seq<SysResult>)
    requires
        p != 1,
        rs.len() >= 2,
        rs[0] == SysResult::Pid(p),
    ensures
        run_requests(InitState::VerifyIdentity, rs) == seq![SysReq::GetPid, SysReq::ReportNotInit],
        run_outcome(InitState::VerifyIdentity, rs) == Some(NOT_INIT_STATUS),
        forall|i: int|
            0 <= i < run_requests(InitState::VerifyIdentity, rs).len() ==> !is_mount_request(
                run_requests(InitState::VerifyIdentity, rs)[i],
            ),
{
    reveal_with_fuel(run_requests, 4);
    reveal_with_fuel(run_outcome, 4);
    assert(next_state(InitState::VerifyIdentity, rs[0]) == InitState::ReportIdentity);
    assert(run_requests(InitState::VerifyIdentity, rs) =~= seq![
        SysReq::GetPid,
        SysReq::ReportNotInit,
    ]);
}

/// One answered request: the run is that request followed by the run from
/// the next state on the remaining replies.
pub proof fn lemma_run_unfold(s: InitState, rs: Seq<SysResult>, q: SysReq)
    requires
        rs.len() >= 1,
        action_of(s) == Action::Request(q),
    ensures
        run_requests(s, rs) == seq![q] + run_requests(next_state(s, rs[0]), rs.skip(1)),
        run_outcome(s, rs) == run_outcome(next_state(s, rs[0]), rs.skip(1)),
{
}

proof fn lemma_pseudo_from(j: int, k: int, e: i32, rs: Seq<SysResult>)
    requires
        0 <= j,
        0 <= k,
        j + k < 6,
        rs.len() > k,
        forall|i: int| 0 <= i < k ==> rs[i] == SysResult::Success,
        rs[k] == SysResult::Failure(e),
    ensures
        run_requests(InitState::MountPseudoFs(j as u8), rs) == Seq::new(
            (k + 1) as nat,
            |i: int| pseudo_request(j + i),
        ),
        run_outcome(InitState::MountPseudoFs(j as u8), rs) == Some(e),
    decreases k,
{
    let s = InitState::MountPseudoFs(j as u8);
    lemma_run_unfold(s, rs, pseudo_request(j));
    if k == 0 {
        assert(next_state(s, rs[0]) == InitState::Failed(e));
        assert(run_requests(s, rs) =~= Seq::new((k + 1) as nat, |i: int| pseudo_request(j + i)));
    } else {
        assert(rs[0] == SysResult::Success);
        assert(next_state(s, rs[0]) == InitState::MountPseudoFs((j + 1) as u8));
        lemma_pseudo_from(j + 1, k - 1, e, rs.skip(1));
        assert(run_requests(s, rs) =~= Seq::new((k + 1) as nat, |i: int| pseudo_request(j + i)));
    }
}

/// The pseudo-filesystem phase halts on its first failing operation: with
/// `k` operations succeeding and the next failing with error `e`, the run
/// from the start of the phase emits exactly the first `k + 1` operations
/// of the fixed order, and `e` — unmodified — is the exit status.
pub proof fn lemma_pseudo_mount_halts_on_failure(k: int, e: i32, rs: Seq<SysResult>)
    requires
        0 <= k < 6,
        rs.len() > k,
        forall|i: int| 0 <= i < k ==> rs[i] == SysResult::Success,
        rs[k] == SysResult::Failure(e),
    ensures
        run_requests(InitState::MountPseudoFs(0), rs) == Seq::new(
            (k + 1) as nat,
            |i: int| pseudo_request(i),
        ),
        run_outcome(InitState::MountPseudoFs(0), rs) == Some(e),
{
    lemma_pseudo_from(0, k, e, rs);
    assert(Seq::new((k + 1) as nat, |i: int| pseudo_request(0 + i)) =~= Seq::new(
        (k + 1) as nat,
        |i: int| pseudo_request(i),
    ));
}

proof fn lemma_pseudo_all_from(j: int, rs: Seq<SysResult>)
    requires
        0 <= j < 6,
        rs.len() >= 6 - j,
        forall|i: int| 0 <= i < 6 - j ==> rs[i] == SysResult::Success,
    ensures
        run_requests(InitState::MountPseudoFs(j as u8), rs) == Seq::new(
            (6 - j) as nat,
            |i: int| pseudo_request(j + i),
        ) + run_requests(InitState::AwaitBlockDevice, rs.skip(6 - j)),
        run_outcome(InitState::MountPseudoFs(j as u8), rs) == run_outcome(
            InitState::AwaitBlockDevice,
            rs.skip(6 - j),
        ),
    decreases 6 - j,
{
    let s = InitState::MountPseudoFs(j as u8);
    lemma_run_unfold(s, rs, pseudo_request(j));
    if j == 5 {
        assert(next_state(s, rs[0]) == InitState::AwaitBlockDevice);
        assert(run_requests(s, rs) =~= Seq::new((6 - j) as nat, |i: int| pseudo_request(j + i))
            + run_requests(InitState::AwaitBlockDevice, rs.skip(1)));
    } else {
        assert(next_state(s, rs[0]) == InitState::MountPseudoFs((j + 1) as u8));
        lemma_pseudo_all_from(j + 1, rs.skip(1));
        assert(rs.skip(1).skip(6 - (j + 1)) =~= rs.skip(6 - j));
        assert(run_requests(s, rs) =~= Seq::new((6 - j) as nat, |i: int| pseudo_request(j + i))
            + run_requests(InitState::AwaitBlockDevice, rs.skip(6 - j)));
    }
}

/// When every operation succeeds, the pseudo-filesystem phase performs its
/// fixed operations in exactly this order — the four mounts, the directory
/// creation, the pseudo-terminal mount — and then waits for the root block
/// device.
pub proof fn lemma_pseudo_mount_order(rs: Seq<SysResult>)
    requires
        rs.len() >= 6,
        forall|i: int| 0 <= i < 6 ==> rs[i] == SysResult::Success,
    ensures
        run_requests(InitState::MountPseudoFs(0), rs) == seq![
            SysReq::MountDev,
            SysReq::MountProc,
            SysReq::MountTmp,
            SysReq::MountSys,
            SysReq::MakePtsDir,
            SysReq::MountPts,
        ] + run_requests(InitState::AwaitBlockDevice, rs.skip(6)),
        run_outcome(InitState::MountPseudoFs(0), rs) == run_outcome(
            InitState::AwaitBlockDevice,
            rs.skip(6),
        ),
{
    lemma_pseudo_all_from(0, rs);
    assert(Seq::new((6 - 0) as nat, |i: int| pseudo_request(0 + i)) =~= seq![
        SysReq::MountDev,
        SysReq::MountProc,
        SysReq::MountTmp,
        SysReq::MountSys,
        SysReq::MakePtsDir,
        SysReq::MountPts,
    ]);
}

/// The wait for the root block device retries on "not found" and on
/// nothing else: `n` not-found replies followed by a success give exactly
/// `n + 1` device queries, after which the root mount proceeds.
pub proof fn lemma_await_device_retries(n: int, rs: Seq<SysResult>)
    requires
        0 <= n,
        rs.len() > n,
        forall|i: int| 0 <= i < n ==> rs[i] == SysResult::Failure(ENOENT),
        rs[n] == SysResult::Success,
    ensures
        run_requests(InitState::AwaitBlockDevice, rs) == Seq::new(
            (n + 1) as nat,
            |i: int| SysReq::PollRootDevice,
        ) + run_requests(InitState::MountRoot, rs.skip(n + 1)),
        run_outcome(InitState::AwaitBlockDevice, rs) == run_outcome(
            InitState::MountRoot,
            rs.skip(n + 1),
        ),
    decreases n,
{
    let s = InitState::AwaitBlockDevice;
    lemma_run_unfold(s, rs, SysReq::PollRootDevice);
    if n == 0 {
        assert(next_state(s, rs[0]) == InitState::MountRoot);
        assert(run_requests(s, rs) =~= Seq::new((n + 1) as nat, |i: int| SysReq::PollRootDevice)
            + run_requests(InitState::MountRoot, rs.skip(1)));
    } else {
        assert(rs[0] == SysResult::Failure(ENOENT));
        assert(next_state(s, rs[0]) == InitState::AwaitBlockDevice);
        lemma_await_device_retries(n - 1, rs.skip(1));
        assert(rs.skip(1).skip(n) =~= rs.skip(n + 1));
        assert(run_requests(s, rs) =~= Seq::new((n + 1) as nat, |i: int| SysReq::PollRootDevice)
            + run_requests(InitState::MountRoot, rs.skip(n + 1)));
    }
}

/// Any error other than "not found" while waiting for the root block
/// device fails the sequence at once, with that error as the exit status,
/// after exactly one device query.
pub proof fn lemma_await_device_fails(e: i32, rs: Seq<SysResult>)
    requires
        e != ENOENT,
        rs.len() >= 1,
        rs[0] == SysResult::Failure(e),
    ensures
        run_requests(InitState::AwaitBlockDevice, rs) == seq![SysReq::PollRootDevice],
        run_outcome(InitState::AwaitBlockDevice, rs) == Some(e),
{
    lemma_run_unfold(InitState::AwaitBlockDevice, rs, SysReq::PollRootDevice);
    assert(next_state(InitState::AwaitBlockDevice, rs[0]) == InitState::Failed(e));
    assert(run_requests(InitState::AwaitBlockDevice, rs) =~= seq![SysReq::PollRootDevice]);
}

/// The root switch performs, in this exact order: change directory into
/// the staging root, move-mount it onto `/`, change the process root,
/// change directory to the new `/`, and exec the handoff target. An error
/// `e` from the exec — which returns only on failure — is the exit status.
pub proof fn lemma_switch_root_exec_order(e: i32, rs: Seq<SysResult>)
    requires
        rs.len() >= 5,
        forall|i: int| 0 <= i < 4 ==> rs[i] == SysResult::Success,
        rs[4] == SysResult::Failure(e),
    ensures
        run_requests(InitState::SwitchRoot(0), rs) == seq![
            SysReq::EnterStaging,
            SysReq::MoveStagingOntoRoot,
            SysReq::PivotIntoStaging,
            SysReq::EnterNewRoot,
            SysReq::ExecInit,
        ],
        run_outcome(InitState::SwitchRoot(0), rs) == Some(e),
{
    lemma_run_unfold(InitState::SwitchRoot(0), rs, SysReq::EnterStaging);
    assert(next_state(InitState::SwitchRoot(0), rs[0]) == InitState::SwitchRoot(1));
    lemma_run_unfold(InitState::SwitchRoot(1), rs.skip(1), SysReq::MoveStagingOntoRoot);
    assert(rs.skip(1)[0] == rs[1]);
    assert(next_state(InitState::SwitchRoot(1), rs[1]) == InitState::SwitchRoot(2));
    assert(rs.skip(1).skip(1) =~= rs.skip(2));
    lemma_run_unfold(InitState::SwitchRoot(2), rs.skip(2), SysReq::PivotIntoStaging);
    assert(rs.skip(2)[0] == rs[2]);
    assert(next_state(InitState::SwitchRoot(2), rs[2]) == InitState::SwitchRoot(3));
    assert(rs.skip(2).skip(1) =~= rs.skip(3));
    lemma_run_unfold(InitState::SwitchRoot(3), rs.skip(3), SysReq::EnterNewRoot);
    assert(rs.skip(3)[0] == rs[3]);
    assert(next_state(InitState::SwitchRoot(3), rs[3]) == InitState::Exec);
    assert(rs.skip(3).skip(1) =~= rs.skip(4));
    lemma_run_unfold(InitState::Exec, rs.skip(4), SysReq::ExecInit);
    assert(rs.skip(4)[0] == rs[4]);
    assert(next_state(InitState::Exec, rs[4]) == InitState::Failed(e));
    assert(run_requests(InitState::SwitchRoot(0), rs) =~= seq![
        SysReq::EnterStaging,
        SysReq::MoveStagingOntoRoot,
        SysReq::PivotIntoStaging,
        SysReq::EnterNewRoot,
        SysReq::ExecInit,
    ]);
}

/// When every move succeeds, the relocation phase moves the four
/// pseudo-filesystem mounts under the staging root in this exact order and
/// then begins the root switch.
pub proof fn lemma_relocate_order(rs: Seq<SysResult>)
    requires
        rs.len() >= 4,
        forall|i: int| 0 <= i < 4 ==> rs[i] == SysResult::Success,
    ensures
        run_requests(InitState::RelocateMounts(0), rs) == seq![
            SysReq::MoveDev,
            SysReq::MoveSys,
            SysReq::MoveProc,
            SysReq::MoveTmp,
        ] + run_requests(InitState::SwitchRoot(0), rs.skip(4)),
        run_outcome(InitState::RelocateMounts(0), rs) == run_outcome(
            InitState::SwitchRoot(0),
            rs.skip(4),
        ),
{
    lemma_run_unfold(InitState::RelocateMounts(0), rs, SysReq::MoveDev);
    assert(next_state(InitState::RelocateMounts(0), rs[0]) == InitState::RelocateMounts(1));
    lemma_run_unfold(InitState::RelocateMounts(1), rs.skip(1), SysReq::MoveSys);
    assert(rs.skip(1)[0] == rs[1]);
    assert(next_state(InitState::RelocateMounts(1), rs[1]) == InitState::RelocateMounts(2));
    assert(rs.skip(1).skip(1) =~= rs.skip(2));
    lemma_run_unfold(InitState::RelocateMounts(2), rs.skip(2), SysReq::MoveProc);
    assert(rs.skip(2)[0] == rs[2]);
    assert(next_state(InitState::RelocateMounts(2), rs[2]) == InitState::RelocateMounts(3));
    assert(rs.skip(2).skip(1) =~= rs.skip(3));
    lemma_run_unfold(InitState::RelocateMounts(3), rs.skip(3), SysReq::MoveTmp);
    assert(rs.skip(3)[0] == rs[3]);
    assert(next_state(InitState::RelocateMounts(3), rs[3]) == InitState::SwitchRoot(0));
    assert(rs.skip(3).skip(1) =~= rs.skip(4));
    assert(run_requests(InitState::RelocateMounts(0), rs) =~= seq![
        SysReq::MoveDev,
        SysReq::MoveSys,
        SysReq::MoveProc,
        SysReq::MoveTmp,
    ] + run_requests(InitState::SwitchRoot(0), rs.skip(4)));
}

proof fn lemma_switch_root_all(rs: Seq<SysResult>)
    requires
        rs.len() >= 4,
        forall|i: int| 0 <= i < 4 ==> rs[i] == SysResult::Success,
    ensures
        run_requests(InitState::SwitchRoot(0), rs) == seq![
            SysReq::EnterStaging,
            SysReq::MoveStagingOntoRoot,
            SysReq::PivotIntoStaging,
            SysReq::EnterNewRoot,
        ] + run_requests(InitState::Exec, rs.skip(4)),
        run_outcome(InitState::SwitchRoot(0), rs) == run_outcome(InitState::Exec, rs.skip(4)),
{
    lemma_run_unfold(InitState::SwitchRoot(0), rs, SysReq::EnterStaging);
    assert(next_state(InitState::SwitchRoot(0), rs[0]) == InitState::SwitchRoot(1));
    lemma_run_unfold(InitState::SwitchRoot(1), rs.skip(1), SysReq::MoveStagingOntoRoot);
    assert(rs.skip(1)[0] == rs[1]);
    assert(next_state(InitState::SwitchRoot(1), rs[1]) == InitState::SwitchRoot(2));
    assert(rs.skip(1).skip(1) =~= rs.skip(2));
    lemma_run_unfold(InitState::SwitchRoot(2), rs.skip(2), SysReq::PivotIntoStaging);
    assert(rs.skip(2)[0] == rs[2]);
    assert(next_state(InitState::SwitchRoot(2), rs[2]) == InitState::SwitchRoot(3));
    assert(rs.skip(2).skip(1) =~= rs.skip(3));
    lemma_run_unfold(InitState::SwitchRoot(3), rs.skip(3), SysReq::EnterNewRoot);
    assert(rs.skip(3)[0] == rs[3]);
    assert(next_state(InitState::SwitchRoot(3), rs[3]) == InitState::Exec);
    assert(rs.skip(3).skip(1) =~= rs.skip(4));
    assert(run_requests(InitState::SwitchRoot(0), rs) =~= seq![
        SysReq::EnterStaging,
        SysReq::MoveStagingOntoRoot,
        SysReq::PivotIntoStaging,
        SysReq::EnterNewRoot,
    ] + run_requests(InitState::Exec, rs.skip(4)));
}

/// The whole successful boot, end to end: for PID 1, with every kernel
/// call succeeding, the sequencer emits the entire fixed boot sequence in
/// this exact order, ending with the pending exec of the handoff target —
/// which, being successful, is never answered — and reaches no exit
/// status.
pub proof fn lemma_full_boot_order(rs: Seq<SysResult>)
    requires
        rs.len() == 17,
        rs[0] == SysResult::Pid(1),
        forall|i: int| 1 <= i < 17 ==> rs[i] == SysResult::Success,
    ensures
        run_requests(InitState::VerifyIdentity, rs) == seq![
            SysReq::GetPid,
            SysReq::MountDev,
            SysReq::MountProc,
            SysReq::MountTmp,
            SysReq::MountSys,
            SysReq::MakePtsDir,
            SysReq::MountPts,
            SysReq::PollRootDevice,
            SysReq::MountRootDevice,
            SysReq::MoveDev,
            SysReq::MoveSys,
            SysReq::MoveProc,
            SysReq::MoveTmp,
            SysReq::EnterStaging,
            SysReq::MoveStagingOntoRoot,
            SysReq::PivotIntoStaging,
            SysReq::EnterNewRoot,
            SysReq::ExecInit,
        ],
        run_outcome(InitState::VerifyIdentity, rs) is None,
{
    lemma_run_unfold(InitState::VerifyIdentity, rs, SysReq::GetPid);
    assert(next_state(InitState::VerifyIdentity, rs[0]) == InitState::MountPseudoFs(0));
    lemma_pseudo_mount_order(rs.skip(1));
    assert(rs.skip(1).skip(6) =~= rs.skip(7));
    lemma_run_unfold(InitState::AwaitBlockDevice, rs.skip(7), SysReq::PollRootDevice);
    assert(rs.skip(7)[0] == rs[7]);
    assert(next_state(InitState::AwaitBlockDevice, rs[7]) == InitState::MountRoot);
    assert(rs.skip(7).skip(1) =~= rs.skip(8));
    lemma_run_unfold(InitState::MountRoot, rs.skip(8), SysReq::MountRootDevice);
    assert(rs.skip(8)[0] == rs[8]);
    assert(next_state(InitState::MountRoot, rs[8]) == InitState::RelocateMounts(0));
    assert(rs.skip(8).skip(1) =~= rs.skip(9));
    lemma_relocate_order(rs.skip(9));
    assert(rs.skip(9).skip(4) =~= rs.skip(13));
    lemma_switch_root_all(rs.skip(13));
    assert(rs.skip(13).skip(4) =~= rs.skip(17));
    assert(rs.skip(17).len() == 0);
    assert(run_requests(InitState::Exec, rs.skip(17)) =~= seq![SysReq::ExecInit]);
    assert(run_requests(InitState::VerifyIdentity, rs) =~= seq![
        SysReq::GetPid,
        SysReq::MountDev,
        SysReq::MountProc,
        SysReq::MountTmp,
        SysReq::MountSys,
        SysReq::MakePtsDir,
        SysReq::MountPts,
        SysReq::PollRootDevice,
        SysReq::MountRootDevice,
        SysReq::MoveDev,
        SysReq::MoveSys,
        SysReq::MoveProc,
        SysReq::MoveTmp,
        SysReq::EnterStaging,
        SysReq::MoveStagingOntoRoot,
        SysReq::PivotIntoStaging,
        SysReq::EnterNewRoot,
        SysReq::ExecInit,
    ]);
}

} // verus!
