//! The process liveness monitor: what is known of which processes run.

use std::collections::HashSet;
use sysinfo::{Pid, PidExt, System, SystemExt};
use vstd::prelude::*;

verus! {

/// `sysinfo::System`, the operating system's process table as `sysinfo`
/// reads it. Opaque here: it is only probed.
#[verifier::external_type_specification]
#[verifier::external_body]
pub struct ExSystem(System);

/// Calls `sysinfo::SystemExt::new`, which makes a `System` with nothing
/// loaded. Nothing is claimed of it.
#[verifier::external_body]
fn new_system() -> System {
    System::new()
}

/// Calls `sysinfo::SystemExt::refresh_process`, which reads the process
/// `pid` anew from the operating system and tells whether it exists.
/// Nothing is claimed of the answer: it is the machine's.
#[verifier::external_body]
fn probe_process(system: &mut System, pid: u32) -> bool {
    system.refresh_process(Pid::from_u32(pid))
}

/// One snapshot of which processes are alive, for the whole service. It
/// owns the snapshot: callers refresh one process and then ask about it,
/// and never see the snapshot itself.
pub struct ProcessLivenessMonitor {
    system: System,
    alive: HashSet<u32>,
}

impl View for ProcessLivenessMonitor {
    type V = Set<u32>;

    /// The identifiers of the processes that the snapshot holds as alive.
    closed spec fn view(&self) -> Set<u32> {
        self.alive@
    }
}

/// The snapshot after it learned that `pid` is alive, or that it is not.
/// What it holds of every other process stays.
pub open spec fn observed(snapshot: Set<u32>, pid: u32, alive: bool) -> Set<u32> {
    if alive {
        snapshot.insert(pid)
    } else {
        snapshot.remove(pid)
    }
}

impl ProcessLivenessMonitor {
    /// A monitor that holds no process as alive yet.
    pub fn new() -> (monitor: Self)
        ensures
            monitor@ == Set::<u32>::empty(),
    {
        ProcessLivenessMonitor { system: new_system(), alive: HashSet::new() }
    }

    /// Records what was seen of `pid`, and changes nothing else.
    pub fn observe(&mut self, pid: u32, alive: bool)
        ensures
            final(self)@ == observed(old(self)@, pid, alive),
    {
        broadcast use vstd::std_specs::hash::group_hash_axioms;

        if alive {
            self.alive.insert(pid);
        } else {
            self.alive.remove(&pid);
        }
    }

    /// Asks the operating system about `pid` and records the answer, which
    /// it also returns. The snapshot changes for `pid` alone.
    pub fn refresh(&mut self, pid: u32) -> (alive: bool)
        ensures
            final(self)@ == observed(old(self)@, pid, alive),
            final(self)@.contains(pid) == alive,
    {
        let alive = probe_process(&mut self.system, pid);
        self.observe(pid, alive);
        alive
    }

    /// Whether the snapshot holds `pid` as alive. It is as fresh as the
    /// last `refresh` of `pid`.
    pub fn is_alive(&self, pid: u32) -> (alive: bool)
        ensures
            alive == self@.contains(pid),
    {
        broadcast use vstd::std_specs::hash::group_hash_axioms;

        self.alive.contains(&pid)
    }
}

/// A refresh of one process leaves what is known of every other process.
pub proof fn law_refresh_is_local(snapshot: Set<u32>, pid: u32, alive: bool, other: u32)
    requires
        other != pid,
    ensures
        observed(snapshot, pid, alive).contains(other) == snapshot.contains(other),
        observed(snapshot, pid, alive).contains(pid) == alive,
{
}

} // verus!
