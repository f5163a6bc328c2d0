//! One PTY-backed child process: running/suspended flags, the recorded
//! process id, and the signal-based control surface (suspend, resume,
//! kill). Signals are delivered through thin trusted wrappers over nix;
//! everything decided here — which process to target, how the flags
//! move — is verified.

use vstd::prelude::*;
use vstd::string::StringExecFns;
use crate::process_tree::{ProcessSnapshot, collect_process_tree, spec_tree_set, spec_has_pid};
use crate::resource::{
    ProcessResourceUsage, sample_usage, spec_cpu_sum, spec_mem_sum, spec_cores, spec_totals_fit,
};

verus! {

/// An error surfaced by a PTY operation; the caller-visible kind is
/// deliberately coarse.
#[derive(Debug)]
pub struct PtyError {
    pub message: String,
}

/// The signals this library ever sends.
#[derive(Clone, Copy, Debug, PartialEq, Eq, Structural)]
pub enum SignalKind {
    Stop,
    Cont,
    Term,
    Kill,
}

/// Relies on nix's getpgid: returns the process group of `pid` when the
/// OS still knows the process, `None` otherwise.
#[verifier::external_body]
fn process_group_of(pid: u32) -> (r: Option<i32>) {
    match nix::unistd::getpgid(Some(nix::unistd::Pid::from_raw(pid as i32))) {
        Ok(p) => Some(p.as_raw()),
        Err(_) => None,
    }
}

/// Relies on nix's killpg: delivers `sig` to every process of the group
/// `pgid`; true exactly when the OS accepted the signal.
#[verifier::external_body]
fn signal_group(pgid: i32, sig: SignalKind) -> (r: bool) {
    let s = match sig {
        SignalKind::Stop => nix::sys::signal::Signal::SIGSTOP,
        SignalKind::Cont => nix::sys::signal::Signal::SIGCONT,
        SignalKind::Term => nix::sys::signal::Signal::SIGTERM,
        SignalKind::Kill => nix::sys::signal::Signal::SIGKILL,
    };
    nix::sys::signal::killpg(nix::unistd::Pid::from_raw(pgid), s).is_ok()
}

/// Relies on nix's kill: delivers `sig` to the single process `pid`;
/// true exactly when the OS accepted the signal.
#[verifier::external_body]
fn signal_process(pid: u32, sig: SignalKind) -> (r: bool) {
    let s = match sig {
        SignalKind::Stop => nix::sys::signal::Signal::SIGSTOP,
        SignalKind::Cont => nix::sys::signal::Signal::SIGCONT,
        SignalKind::Term => nix::sys::signal::Signal::SIGTERM,
        SignalKind::Kill => nix::sys::signal::Signal::SIGKILL,
    };
    nix::sys::signal::kill(nix::unistd::Pid::from_raw(pid as i32), s).is_ok()
}

/// What is left to do after `kill` has requested graceful termination:
/// once a brief grace period has passed, hand this to [`force_kill`].
pub struct KillTicket {
    pub group: i32,
    pub pid: u32,
}

/// The handle of one spawned PTY session.
pub struct PtyHandle {
    /// Opaque identifier, unique per session, used to correlate events.
    pub id: String,
    pub running: bool,
    pub suspended: bool,
    pub pid: Option<u32>,
    pub resource_usage: ProcessResourceUsage,
}

impl PtyHandle {
    /// A session is never suspended unless it is running, holds a process
    /// id exactly while it is running, and its process id fits a signed
    /// OS pid.
    pub open spec fn wf(&self) -> bool {
        &&& (self.suspended ==> self.running)
        &&& (self.running <==> self.pid is Some)
        &&& (self.pid matches Some(p) ==> p <= 0x7fffffff)
    }

    pub open spec fn spec_running(&self) -> bool {
        self.running
    }

    pub open spec fn spec_suspended(&self) -> bool {
        self.suspended
    }

    pub open spec fn spec_pid(&self) -> Option<u32> {
        self.pid
    }

    pub open spec fn spec_usage(&self) -> ProcessResourceUsage {
        self.resource_usage
    }

    /// Creates a handle for a session that has not spawned yet.
    pub fn new(id: &str) -> (r: Self)
        ensures
            r.wf(),
            r.id@ == id@,
            !r.spec_running(),
            !r.spec_suspended(),
            r.spec_pid() is None,
            r.spec_usage().cpu_centi_percent == 0,
            r.spec_usage().memory_bytes == 0,
    {
        PtyHandle {
            id: String::from_str(id),
            running: false,
            suspended: false,
            pid: None,
            resource_usage: ProcessResourceUsage { cpu_centi_percent: 0, memory_bytes: 0 },
        }
    }

    /// Records a successful spawn: the session is now running under `pid`.
    pub fn mark_spawned(&mut self, pid: u32)
        requires
            old(self).wf(),
            !old(self).spec_running(),
            pid <= 0x7fffffff,
        ensures
            final(self).wf(),
            final(self).spec_running(),
            !final(self).spec_suspended(),
            final(self).spec_pid() == Some(pid),
            final(self).id@ == old(self).id@,
            final(self).spec_usage() == old(self).spec_usage(),
    {
        self.pid = Some(pid);
        self.running = true;
        self.suspended = false;
    }

    pub fn running(&self) -> (r: bool)
        ensures
            r == self.spec_running(),
    {
        self.running
    }

    pub fn suspended(&self) -> (r: bool)
        ensures
            r == self.spec_suspended(),
    {
        self.suspended
    }

    pub fn pid(&self) -> (r: Option<u32>)
        ensures
            r == self.spec_pid(),
    {
        self.pid
    }

    pub fn resource_usage(&self) -> (r: ProcessResourceUsage)
        ensures
            r == self.spec_usage(),
    {
        self.resource_usage
    }

    /// Re-samples the resource figures of this session's whole process
    /// tree from the given snapshot; a session without a process id is
    /// left untouched.
    pub fn update_resource_usage(&mut self, snapshot: &ProcessSnapshot)
        requires
            old(self).wf(),
            snapshot.wf(),
            spec_totals_fit(snapshot.processes@),
        ensures
            final(self).wf(),
            final(self).id@ == old(self).id@,
            final(self).spec_running() == old(self).spec_running(),
            final(self).spec_suspended() == old(self).spec_suspended(),
            final(self).spec_pid() == old(self).spec_pid(),
            old(self).spec_pid() is None ==> final(self).spec_usage() == old(self).spec_usage(),
            old(self).spec_pid() matches Some(p) ==> {
                let tree = spec_tree_set(snapshot.processes@, p);
                if tree =~= Set::<u32>::empty() {
                    final(self).spec_usage().cpu_centi_percent == 0
                        && final(self).spec_usage().memory_bytes == 0
                } else {
                    final(self).spec_usage().cpu_centi_percent == spec_cpu_sum(
                        snapshot.processes@,
                        tree,
                    ) / spec_cores(snapshot) && final(self).spec_usage().memory_bytes
                        == spec_mem_sum(snapshot.processes@, tree)
                }
            },
    {
        if let Some(p) = self.pid {
            let tree = collect_process_tree(snapshot, p);
            proof {
                if tree@.len() == 0 {
                    assert(tree@.to_set() =~= Set::<u32>::empty());
                    assert(!spec_has_pid(snapshot.processes@, p));
                } else {
                    assert(tree@.to_set().contains(tree@[0]));
                    assert(!(tree@.to_set() =~= Set::<u32>::empty()));
                }
            }
            let usage = sample_usage(snapshot, &tree, p);
            self.resource_usage = usage;
        }
    }

    /// How `suspend` moves the state: nothing changes but the suspended
    /// flag, which can only be raised on a running, not-yet-suspended
    /// session, and only when a STOP signal was accepted.
    pub open spec fn spec_suspend_transition(
        pre: Self,
        post: Self,
        r: Result<bool, PtyError>,
    ) -> bool {
        &&& r is Ok
        &&& post.id == pre.id
        &&& post.pid == pre.pid
        &&& post.running == pre.running
        &&& post.resource_usage == pre.resource_usage
        &&& ((pre.pid is None || pre.suspended) ==> (r == Ok::<bool, PtyError>(false) && post
            == pre))
        &&& (r matches Ok(b) ==> (b <==> (post.suspended && !pre.suspended)))
        &&& (r matches Ok(b) ==> (!b ==> post.suspended == pre.suspended))
        &&& (post.suspended ==> pre.suspended || (pre.pid is Some && !pre.suspended))
    }

    /// How `resume` moves the state, symmetrically to `suspend`.
    pub open spec fn spec_resume_transition(
        pre: Self,
        post: Self,
        r: Result<bool, PtyError>,
    ) -> bool {
        &&& r is Ok
        &&& post.id == pre.id
        &&& post.pid == pre.pid
        &&& post.running == pre.running
        &&& post.resource_usage == pre.resource_usage
        &&& ((pre.pid is None || !pre.suspended) ==> (r == Ok::<bool, PtyError>(false) && post
            == pre))
        &&& (r matches Ok(b) ==> (b <==> (!post.suspended && pre.suspended)))
        &&& (r matches Ok(b) ==> (!b ==> post.suspended == pre.suspended))
    }

    /// Suspends (freezes) the whole process group of this session by a
    /// STOP signal, falling back to the single process when the group
    /// signal is not accepted. `Ok(false)` means nothing was suspended:
    /// no process id is known, the session is already suspended, or the
    /// OS rejected both signals.
    pub fn suspend(&mut self) -> (r: Result<bool, PtyError>)
        requires
            old(self).wf(),
        ensures
            final(self).wf(),
            Self::spec_suspend_transition(*old(self), *final(self), r),
    {
        if let Some(pid) = self.pid {
            if !self.suspended {
                let target: i32 = group_target(pid);
                if signal_group(target, SignalKind::Stop) {
                    self.suspended = true;
                    return Ok(true);
                }
                if signal_process(pid, SignalKind::Stop) {
                    self.suspended = true;
                    return Ok(true);
                }
            }
        }
        Ok(false)
    }

    /// Resumes a suspended session by a CONT signal to its process group,
    /// falling back to the single process. `Ok(false)` means nothing was
    /// resumed.
    pub fn resume(&mut self) -> (r: Result<bool, PtyError>)
        requires
            old(self).wf(),
        ensures
            final(self).wf(),
            Self::spec_resume_transition(*old(self), *final(self), r),
    {
        if let Some(pid) = self.pid {
            if self.suspended {
                let target: i32 = group_target(pid);
                if signal_group(target, SignalKind::Cont) {
                    self.suspended = false;
                    return Ok(true);
                }
                if signal_process(pid, SignalKind::Cont) {
                    self.suspended = false;
                    return Ok(true);
                }
            }
        }
        Ok(false)
    }

    /// Suspends when running freely, resumes when suspended.
    pub fn toggle_suspend(&mut self) -> (r: Result<bool, PtyError>)
        requires
            old(self).wf(),
        ensures
            final(self).wf(),
            old(self).spec_suspended() ==> Self::spec_resume_transition(
                *old(self),
                *final(self),
                r,
            ),
            !old(self).spec_suspended() ==> Self::spec_suspend_transition(
                *old(self),
                *final(self),
                r,
            ),
    {
        if self.suspended {
            self.resume()
        } else {
            self.suspend()
        }
    }

    /// How `kill` moves the state: the flags and the process id are
    /// cleared unconditionally, and a ticket comes back exactly when a
    /// process id was still known.
    pub open spec fn spec_kill_transition(pre: Self, post: Self, r: Option<KillTicket>) -> bool {
        &&& post.id == pre.id
        &&& post.resource_usage == pre.resource_usage
        &&& !post.running
        &&& !post.suspended
        &&& post.pid is None
        &&& (r is Some <==> pre.pid is Some)
        &&& (r matches Some(t) ==> pre.pid == Some(t.pid) && t.pid <= 0x7fffffff)
    }

    /// Requests termination of this session's whole process tree. A
    /// suspended group is first resumed (a stopped process may ignore
    /// termination signals), then asked to terminate gracefully. The
    /// returned ticket must be handed to [`force_kill`] after a brief
    /// grace period, so that survivors are terminated for certain.
    /// The flags and the process id are cleared no matter what the OS
    /// says, which makes the operation idempotent.
    pub fn kill(&mut self) -> (r: Option<KillTicket>)
        requires
            old(self).wf(),
        ensures
            final(self).wf(),
            Self::spec_kill_transition(*old(self), *final(self), r),
    {
        let mut ticket: Option<KillTicket> = None;
        if let Some(pid) = self.pid {
            let target: i32 = group_target(pid);
            if self.suspended {
                let _ = signal_group(target, SignalKind::Cont);
            }
            let _ = signal_group(target, SignalKind::Term);
            ticket = Some(KillTicket { group: target, pid });
        }
        self.pid = None;
        self.running = false;
        self.suspended = false;
        ticket
    }
}

/// The group to signal for `pid`: its process group when the OS reports a
/// positive one, otherwise the process id itself (signalling the group of
/// that id).
fn group_target(pid: u32) -> (r: i32)
    requires
        pid <= 0x7fffffff,
{
    match process_group_of(pid) {
        Some(g) => {
            if g > 0 {
                g
            } else {
                pid as i32
            }
        },
        None => pid as i32,
    }
}

/// Second phase of [`PtyHandle::kill`]: force-terminates the group named
/// by the ticket, and the recorded process directly in case the group
/// signal is not honoured.
pub fn force_kill(t: &KillTicket)
    requires
        t.pid <= 0x7fffffff,
{
    let _ = signal_group(t.group, SignalKind::Kill);
    let _ = signal_process(t.pid, SignalKind::Kill);
}

/// Killing a session is idempotent: the first call clears the running and
/// suspended flags and the process id, and a second call, from that
/// cleared state, changes nothing and returns no ticket.
pub proof fn lemma_kill_idempotent(
    s0: PtyHandle,
    s1: PtyHandle,
    r1: Option<KillTicket>,
    s2: PtyHandle,
    r2: Option<KillTicket>,
)
    requires
        s0.wf(),
        PtyHandle::spec_kill_transition(s0, s1, r1),
        PtyHandle::spec_kill_transition(s1, s2, r2),
    ensures
        !s1.spec_running() && !s1.spec_suspended() && s1.spec_pid() is None,
        !s2.spec_running() && !s2.spec_suspended() && s2.spec_pid() is None,
        r2 is None,
        s2.id == s1.id,
        s2.spec_usage() == s1.spec_usage(),
{
}

/// Suspend/resume symmetry: when the OS accepts the signals, suspending a
/// running, not-suspended session and then resuming it returns true both
/// times, passes through a suspended state, and leaves the session
/// running and not suspended, with its process id untouched.
pub proof fn lemma_suspend_resume_symmetry(
    s0: PtyHandle,
    s1: PtyHandle,
    s2: PtyHandle,
    r1: Result<bool, PtyError>,
    r2: Result<bool, PtyError>,
)
    requires
        s0.wf(),
        s0.spec_running(),
        !s0.spec_suspended(),
        PtyHandle::spec_suspend_transition(s0, s1, r1),
        r1 == Ok::<bool, PtyError>(true),
        PtyHandle::spec_resume_transition(s1, s2, r2),
        r2 == Ok::<bool, PtyError>(true),
    ensures
        s1.spec_suspended(),
        !s2.spec_suspended(),
        s2.spec_running(),
        s2.spec_pid() == s0.spec_pid(),
{
}

/// Resuming a session that was never suspended does nothing and reports
/// `Ok(false)`.
pub proof fn lemma_resume_without_suspend(
    s0: PtyHandle,
    s1: PtyHandle,
    r: Result<bool, PtyError>,
)
    requires
        s0.wf(),
        !s0.spec_suspended(),
        PtyHandle::spec_resume_transition(s0, s1, r),
    ensures
        r == Ok::<bool, PtyError>(false),
        s1 == s0,
{
}

} // verus!
