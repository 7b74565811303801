use vstd::prelude::*;

verus! {

/// Where the supervised process is in its lifecycle.
#[derive(Clone, Copy, PartialEq, Eq, Structural, Debug)]
pub enum Phase {
    Absent,
    Starting,
    Healthy,
    ShuttingDown,
}

/// What the caller does to start the sidecar.
#[derive(Clone, Copy, PartialEq, Eq, Structural, Debug)]
pub enum StartPlan {
    /// An instance already answers the health probe: adopt it, spawn nothing.
    Reuse,
    /// Reclaim stale instances, then spawn a new process.
    Spawn,
    /// Kill the tracked process (it no longer answers), reclaim, then spawn.
    ReplaceThenSpawn(u32),
}

/// What the caller does to stop the sidecar.
#[derive(Clone, Copy, PartialEq, Eq, Structural, Debug)]
pub enum ShutdownPlan {
    /// Nothing is tracked: report that it was not running.
    NotRunning,
    /// Ask the process to shut down, wait briefly, probe again and report
    /// through `finish_graceful`.
    RequestGraceful,
    /// Kill the process with this handle.
    ForceKill(u32),
}

/// How a shutdown ended.
#[derive(Clone, Copy, PartialEq, Eq, Structural, Debug)]
pub enum ShutdownOutcome {
    NotRunning,
    Graceful,
    /// Kill the process with this handle; it is no longer tracked.
    Forced(u32),
    /// An instance this supervisor holds no handle for (one it adopted) still
    /// answers: there is nothing it can kill.
    StillAnswering,
}

/// The supervisor's record of the sidecar: its lifecycle phase, the handle
/// of the child it owns, and whether the sidecar is believed running.
pub struct SidecarManager {
    phase: Phase,
    child: Option<u32>,
    running: bool,
    /// The children spawned by this supervisor that were neither handed out
    /// to be killed nor observed to exit.
    live: Ghost<Set<u32>>,
}

pub open spec fn handle_set(h: Option<u32>) -> Set<u32> {
    match h {
        Some(p) => set![p],
        None => Set::empty(),
    }
}

impl SidecarManager {
    pub closed spec fn phase(&self) -> Phase {
        self.phase
    }

    pub closed spec fn handle(&self) -> Option<u32> {
        self.child
    }

    pub closed spec fn is_running(&self) -> bool {
        self.running
    }

    /// Children spawned and still owned: neither handed out to be killed nor
    /// seen to exit.
    pub closed spec fn live(&self) -> Set<u32> {
        self.live@
    }

    /// Every live child is the stored handle, and a stored handle means a
    /// running sidecar.
    pub closed spec fn wf(&self) -> bool {
        &&& self.live@ == handle_set(self.child)
        &&& (self.child is Some ==> self.running)
        &&& (self.phase == Phase::Absent ==> self.child is None && !self.running)
    }

    /// A supervisor with nothing running.
    pub fn new() -> (r: SidecarManager)
        ensures
            r.wf(),
            r.phase() == Phase::Absent,
            r.handle() is None,
            !r.is_running(),
            r.live() == Set::<u32>::empty(),
    {
        SidecarManager { phase: Phase::Absent, child: None, running: false, live: Ghost(Set::empty()) }
    }

    pub fn get_phase(&self) -> (r: Phase)
        ensures
            r == self.phase(),
    {
        self.phase
    }

    pub fn get_handle(&self) -> (r: Option<u32>)
        ensures
            r == self.handle(),
    {
        self.child
    }

    /// Whether the sidecar is believed running.
    pub fn get_status(&self) -> (r: bool)
        ensures
            r == self.is_running(),
    {
        self.running
    }

    /// Decides how to start, given whether an instance answers the health
    /// probe on the target port right now.
    pub fn start_sidecar(&mut self, answers_health: bool) -> (r: StartPlan)
        requires
            old(self).wf(),
        ensures
            final(self).wf(),
            answers_health ==> r == StartPlan::Reuse && final(self).phase() == Phase::Healthy
                && final(self).is_running() && final(self).handle() == old(self).handle()
                && final(self).live() == old(self).live(),
            !answers_health ==> final(self).phase() == Phase::Starting && final(self).handle() is None
                && !final(self).is_running() && final(self).live() == Set::<u32>::empty() && match old(self).handle() {
                Some(p) => r == StartPlan::ReplaceThenSpawn(p),
                None => r == StartPlan::Spawn,
            },
    {
        if answers_health {
            self.phase = Phase::Healthy;
            self.running = true;
            StartPlan::Reuse
        } else {
            let old_child = self.child;
            self.phase = Phase::Starting;
            self.child = None;
            self.running = false;
            self.live = Ghost(Set::empty());
            match old_child {
                Some(p) => StartPlan::ReplaceThenSpawn(p),
                None => StartPlan::Spawn,
            }
        }
    }

    /// Records a spawned child. Where a handle is stored already, or no start
    /// is under way, the new child is not taken and is handed back to be
    /// killed.
    pub fn record_spawn(&mut self, pid: u32) -> (r: Option<u32>)
        requires
            old(self).wf(),
        ensures
            final(self).wf(),
            old(self).phase() == Phase::Starting && old(self).handle() is None ==> r is None
                && final(self).handle() == Some(pid) && final(self).is_running() && final(self).phase() == Phase::Starting && final(self).live() == set![pid],
            !(old(self).phase() == Phase::Starting && old(self).handle() is None) ==> r == Some(pid)
                && *final(self) == *old(self),
    {
        if self.phase == Phase::Starting && self.child.is_none() {
            self.child = Some(pid);
            self.running = true;
            self.live = Ghost(Set::empty().insert(pid));
            None
        } else {
            Some(pid)
        }
    }

    /// A spawn attempt failed: a start that had no child yet is back to
    /// `Absent`.
    pub fn spawn_failed(&mut self)
        requires
            old(self).wf(),
        ensures
            final(self).wf(),
            old(self).phase() == Phase::Starting && old(self).handle() is None ==> final(self).phase()
                == Phase::Absent && final(self).handle() is None && !final(self).is_running()
                && final(self).live() == old(self).live(),
            !(old(self).phase() == Phase::Starting && old(self).handle() is None) ==> *final(self)
                == *old(self),
    {
        if self.phase == Phase::Starting && self.child.is_none() {
            self.phase = Phase::Absent;
            self.running = false;
        }
    }

    /// The started sidecar answered the health probe.
    pub fn became_healthy(&mut self)
        requires
            old(self).wf(),
        ensures
            final(self).wf(),
            old(self).phase() == Phase::Starting && old(self).is_running() ==> final(self).phase()
                == Phase::Healthy,
            !(old(self).phase() == Phase::Starting && old(self).is_running()) ==> *final(self) == *old(self),
            final(self).handle() == old(self).handle(),
            final(self).is_running() == old(self).is_running(),
            final(self).live() == old(self).live(),
    {
        if self.phase == Phase::Starting && self.running {
            self.phase = Phase::Healthy;
        }
    }

    /// The started sidecar did not become healthy in time: the supervisor is
    /// back to `Absent`, and the child it owned is handed back to be killed.
    pub fn start_timed_out(&mut self) -> (r: Option<u32>)
        requires
            old(self).wf(),
        ensures
            final(self).wf(),
            old(self).phase() == Phase::Starting ==> r == old(self).handle() && final(self).phase()
                == Phase::Absent && final(self).handle() is None && !final(self).is_running()
                && final(self).live() == Set::<u32>::empty(),
            old(self).phase() != Phase::Starting ==> r is None && *final(self) == *old(self),
    {
        if self.phase == Phase::Starting {
            let c = self.child;
            self.phase = Phase::Absent;
            self.child = None;
            self.running = false;
            self.live = Ghost(Set::empty());
            c
        } else {
            None
        }
    }

    /// The child with handle `pid` exited on its own.
    pub fn process_exited(&mut self, pid: u32)
        requires
            old(self).wf(),
        ensures
            final(self).wf(),
            old(self).handle() == Some(pid) ==> final(self).handle() is None && !final(self).is_running() && final(self).phase() == Phase::Absent && final(self).live()
                == old(self).live().remove(pid),
            old(self).handle() != Some(pid) ==> *final(self) == *old(self),
    {
        if self.child == Some(pid) {
            self.child = None;
            self.running = false;
            self.phase = Phase::Absent;
            self.live = Ghost(Set::empty());
            assert(self.live@ =~= set![pid].remove(pid));
        }
    }

    /// Decides how to stop. With nothing running it reports that the sidecar
    /// was not running and changes nothing. A forced stop kills the stored
    /// child; without one (an adopted instance) it only clears the running
    /// flag. Either way the supervisor ends `Absent` and not running.
    pub fn shutdown(&mut self, graceful: bool) -> (r: ShutdownPlan)
        requires
            old(self).wf(),
        ensures
            final(self).wf(),
            !old(self).is_running() ==> r == ShutdownPlan::NotRunning && *final(self) == *old(self),
            graceful && old(self).is_running() ==> r == ShutdownPlan::RequestGraceful && final(self).phase() == Phase::ShuttingDown && final(self).handle() == old(self).handle()
                && final(self).is_running() && final(self).live() == old(self).live(),
            !(graceful && old(self).is_running()) ==> match old(self).handle() {
                Some(p) => r == ShutdownPlan::ForceKill(p) && final(self).handle() is None
                    && !final(self).is_running() && final(self).phase() == Phase::Absent
                    && final(self).live() == old(self).live().remove(p),
                None => r == ShutdownPlan::NotRunning && !final(self).is_running() && final(
                    self).handle() is None && final(self).live() == old(self).live() && (old(
                    self).is_running() ==> final(self).phase() == Phase::Absent) && (!old(
                    self).is_running() ==> *final(self) == *old(self)),
            },
    {
        if graceful && self.running {
            self.phase = Phase::ShuttingDown;
            ShutdownPlan::RequestGraceful
        } else {
            match self.child {
                Some(p) => {
                    self.child = None;
                    self.running = false;
                    self.phase = Phase::Absent;
                    self.live = Ghost(Set::empty());
                    assert(self.live@ =~= set![p].remove(p));
                    ShutdownPlan::ForceKill(p)
                },
                None => {
                    if self.running {
                        self.running = false;
                        self.phase = Phase::Absent;
                    }
                    ShutdownPlan::NotRunning
                },
            }
        }
    }

    /// Ends a graceful shutdown, given whether the request was acknowledged
    /// and whether the sidecar still answers after the grace period. Where it
    /// is gone the shutdown was graceful; else the tracked child is handed
    /// back to be killed, and where there is none (an adopted instance) the
    /// outcome says whether an instance still answers. Either way the
    /// supervisor ends `Absent`, with no handle and not running.
    pub fn finish_graceful(&mut self, acknowledged: bool, still_answering: bool) -> (r:
        ShutdownOutcome)
        requires
            old(self).wf(),
        ensures
            final(self).wf(),
            final(self).handle() is None,
            !final(self).is_running(),
            final(self).phase() == Phase::Absent,
            acknowledged && !still_answering ==> r == ShutdownOutcome::Graceful,
            !(acknowledged && !still_answering) ==> match old(self).handle() {
                Some(p) => r == ShutdownOutcome::Forced(p),
                None => r == if still_answering {
                    ShutdownOutcome::StillAnswering
                } else {
                    ShutdownOutcome::NotRunning
                },
            },
            final(self).live() == old(self).live().difference(handle_set(old(self).handle())),
    {
        let c = self.child;
        self.child = None;
        self.running = false;
        self.phase = Phase::Absent;
        self.live = Ghost(Set::empty());
        assert(self.live@ =~= handle_set(c).difference(handle_set(c)));
        if acknowledged && !still_answering {
            ShutdownOutcome::Graceful
        } else {
            match c {
                Some(p) => ShutdownOutcome::Forced(p),
                None => if still_answering {
                    ShutdownOutcome::StillAnswering
                } else {
                    ShutdownOutcome::NotRunning
                },
            }
        }
    }
}

/// Whatever sequence of starts, stops and restarts brought a supervisor to a
/// well-formed state, it owns at most one live child, and that child is the
/// stored handle.
pub proof fn lemma_at_most_one_live_child(m: &SidecarManager)
    requires
        m.wf(),
    ensures
        m.live().len() <= 1,
        m.live() == handle_set(m.handle()),
{
    match m.handle() {
        Some(p) => {
            assert(set![p].len() == 1);
        },
        None => {},
    }
}

} // verus!
