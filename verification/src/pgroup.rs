//! Supervised process groups: children join a group as monitored members or
//! as daemons; the group succeeds when every monitored member has exited
//! with status zero, and the first monitored failure tears the group down.

use vstd::prelude::*;

verus! {

/// How a reaped child ended.
#[derive(Clone, Copy, Debug, PartialEq, Eq, Structural)]
pub enum ChildStatus {
    /// Exited on its own with this code.
    Exited { code: i32 },
    /// Killed by this signal.
    Signaled { sig: i32 },
}

/// A child succeeded exactly when it exited on its own with status zero.
pub open spec fn status_success(s: ChildStatus) -> bool {
    s == (ChildStatus::Exited { code: 0 })
}

/// Whether a reaped child counts as a success.
pub fn is_success(s: &ChildStatus) -> (r: bool)
    ensures
        r == status_success(*s),
{
    match *s {
        ChildStatus::Exited { code } => code == 0,
        ChildStatus::Signaled { sig: _ } => false,
    }
}

/// A spawned child under supervision: a stable handle carrying its PID and
/// the display string it was spawned with.
pub struct Process {
    pub pid: i32,
    pub display_cmd: String,
}

/// One member of a process group. Daemons are terminated at teardown but
/// never awaited; monitored members must succeed.
pub struct GroupMember {
    pub process: Process,
    pub daemon: bool,
    pub reaped: Option<ChildStatus>,
}

/// A supervised collection of children. Members are addressed by index:
/// each `Process` keeps a stable slot for its whole life.
pub struct ProcessGroup {
    pub members: Vec<GroupMember>,
}

impl ProcessGroup {
    /// Every monitored member has been reaped with a success.
    pub open spec fn monitored_done(&self) -> bool {
        forall|i: int|
            0 <= i < self.members@.len() && !self.members@[i].daemon
                ==> (#[trigger] self.members@[i].reaped matches Option::Some(s)
                && status_success(s))
    }

    /// Some monitored member has been reaped with a failure.
    pub open spec fn has_failure(&self) -> bool {
        exists|i: int|
            0 <= i < self.members@.len() && !self.members@[i].daemon
                && (#[trigger] self.members@[i].reaped matches Option::Some(s)
                && !status_success(s))
    }

    /// An empty group.
    pub fn new() -> (g: ProcessGroup)
        ensures
            g.members@.len() == 0,
    {
        ProcessGroup { members: Vec::new() }
    }
}

impl Process {
    /// Hands the process over to the group as a monitored member; its slot
    /// is the returned index.
    pub fn join(self, pgrp: &mut ProcessGroup) -> (index: usize)
        ensures
            index == old(pgrp).members@.len(),
            final(pgrp).members@ == old(pgrp).members@.push(
                GroupMember { process: self, daemon: false, reaped: Option::None },
            ),
    {
        let index = pgrp.members.len();
        pgrp.members.push(GroupMember { process: self, daemon: false, reaped: Option::None });
        index
    }

    /// Hands the process over to the group as a daemon: it is terminated at
    /// teardown but its result is never awaited.
    pub fn join_as_daemon(self, pgrp: &mut ProcessGroup) -> (index: usize)
        ensures
            index == old(pgrp).members@.len(),
            final(pgrp).members@ == old(pgrp).members@.push(
                GroupMember { process: self, daemon: true, reaped: Option::None },
            ),
    {
        let index = pgrp.members.len();
        pgrp.members.push(GroupMember { process: self, daemon: true, reaped: Option::None });
        index
    }
}

/// What one reap means for the group.
#[derive(Clone, Copy, Debug, PartialEq, Eq, Structural)]
pub enum GroupVerdict {
    /// Every monitored member has now succeeded: the wait is over.
    AllSucceeded,
    /// Nothing decided yet: keep waiting.
    Pending,
    /// A monitored member failed: tear the group down and propagate this
    /// member's failure.
    MemberFailed { index: usize },
}

/// Records that member `index` was reaped with `status` and says what the
/// wait loop does next: the first monitored failure triggers teardown;
/// otherwise the wait ends exactly when every monitored member succeeded.
pub fn note_reaped(pgrp: &mut ProcessGroup, index: usize, status: ChildStatus) -> (v: GroupVerdict)
    requires
        index < old(pgrp).members@.len(),
        old(pgrp).members@[index as int].reaped is None,
    ensures
        final(pgrp).members@.len() == old(pgrp).members@.len(),
        final(pgrp).members@[index as int].reaped == Option::Some(status),
        final(pgrp).members@[index as int].daemon == old(pgrp).members@[index as int].daemon,
        forall|k: int| 0 <= k < old(pgrp).members@.len() && k != index ==> final(pgrp).members@[k]
            == old(pgrp).members@[k],
        v == (if !old(pgrp).members@[index as int].daemon && !status_success(status) {
            GroupVerdict::MemberFailed { index }
        } else if final(pgrp).monitored_done() {
            GroupVerdict::AllSucceeded
        } else {
            GroupVerdict::Pending
        }),
{
    let daemon = pgrp.members[index].daemon;
    let failed = !daemon && !is_success(&status);
    let pid = pgrp.members[index].process.pid;
    let display = pgrp.members[index].process.display_cmd.clone();
    pgrp.members.set(
        index,
        GroupMember {
            process: Process { pid, display_cmd: display },
            daemon,
            reaped: Option::Some(status),
        },
    );
    proof {
        assert(pgrp.members@[index as int] == old(pgrp).members@[index as int].update_reaped(
            status,
        ));
    }
    if failed {
        GroupVerdict::MemberFailed { index }
    } else {
        let mut all_done = true;
        let n = pgrp.members.len();
        let mut i: usize = 0;
        while i < n
            invariant
                i <= n,
                n == pgrp.members@.len(),
                all_done == (forall|k: int|
                    0 <= k < i && !pgrp.members@[k].daemon
                        ==> (#[trigger] pgrp.members@[k].reaped matches Option::Some(s)
                        && status_success(s))),
            decreases n - i,
        {
            if !pgrp.members[i].daemon {
                match &pgrp.members[i].reaped {
                    Option::Some(s) => {
                        if !is_success(s) {
                            all_done = false;
                        }
                    },
                    Option::None => {
                        all_done = false;
                    },
                }
            }
            i += 1;
        }
        if all_done {
            GroupVerdict::AllSucceeded
        } else {
            GroupVerdict::Pending
        }
    }
}

impl GroupMember {
    /// This member, marked reaped with `status`.
    pub open spec fn update_reaped(self, status: ChildStatus) -> GroupMember {
        GroupMember { reaped: Option::Some(status), ..self }
    }
}

/// The members still alive: these are the ones teardown signals (SIGTERM,
/// then SIGKILL) and drains. The returned indices are exactly the unreaped
/// slots, in order.
pub fn unreaped_members(pgrp: &ProcessGroup) -> (r: Vec<usize>)
    ensures
        forall|k: int| 0 <= k < r@.len() ==> r@[k] < pgrp.members@.len()
            && pgrp.members@[#[trigger] r@[k] as int].reaped is None,
        forall|i: int| 0 <= i < pgrp.members@.len() && pgrp.members@[i].reaped is None
            ==> r@.contains(i as usize),
        forall|a: int, b: int| 0 <= a < b < r@.len() ==> r@[a] < r@[b],
{
    let mut r: Vec<usize> = Vec::new();
    let n = pgrp.members.len();
    let mut i: usize = 0;
    while i < n
        invariant
            i <= n,
            n == pgrp.members@.len(),
            forall|k: int| 0 <= k < r@.len() ==> r@[k] < n && pgrp.members@[
                #[trigger] r@[k] as int
            ].reaped is None,
            forall|j: int| 0 <= j < i && pgrp.members@[j].reaped is None ==> r@.contains(
                j as usize,
            ),
            forall|k: int| 0 <= k < r@.len() ==> r@[k] < i,
            forall|a: int, b: int| 0 <= a < b < r@.len() ==> r@[a] < r@[b],
        decreases n - i,
    {
        match &pgrp.members[i].reaped {
            Option::None => {
                let ghost r_before = r@;
                r.push(i);
                proof {
                    assert forall|x: usize| r_before.contains(x) implies r@.contains(x) by {
                        let k = choose|k: int| 0 <= k < r_before.len() && r_before[k] == x;
                        assert(r@[k] == x);
                    }
                    assert(r@[r@.len() - 1] == i);
                    assert(r@.contains(i));
                }
            },
            Option::Some(_) => {
            },
        }
        i += 1;
    }
    r
}

/// A group in which every monitored member succeeded holds no failure: the
/// two verdicts of a finished wait exclude each other.
pub proof fn lemma_success_excludes_failure(g: ProcessGroup)
    requires
        g.monitored_done(),
    ensures
        !g.has_failure(),
{
}

} // verus!
