//! Whether the emulator should shut down because its shell has exited.
//!
//! Two states, running and exited, with one transition: a termination
//! notice for the tracked child. Notices for other processes change nothing,
//! and nothing leads back from exited.

use vstd::prelude::*;

verus! {

/// The state that the termination handler writes and the event loop reads.
#[derive(Clone, Copy, Debug, PartialEq, Eq, Structural)]
pub struct ExitMonitor {
    /// The process id of the spawned child, once it is known.
    pub child: Option<u32>,
    /// Whether the tracked child has terminated.
    pub exited: bool,
}

/// The exit flag after a termination notice for process `pid`.
pub open spec fn exited_after(exited: bool, child: Option<u32>, pid: u32) -> bool {
    exited || child == Some(pid)
}

/// The decision the termination handler makes: the flag becomes set when
/// the terminated process is the tracked child, and once set it stays set.
pub fn exit_transition(exited: bool, child: Option<u32>, pid: u32) -> (r: bool)
    ensures
        r == exited_after(exited, child, pid),
{
    if exited {
        true
    } else {
        match child {
            Some(c) => c == pid,
            None => false,
        }
    }
}

impl ExitMonitor {
    /// A monitor before any child is spawned: running.
    pub fn new() -> (r: ExitMonitor)
        ensures
            r.child == None::<u32>,
            !r.exited,
    {
        ExitMonitor { child: None, exited: false }
    }

    /// Records the process id of a freshly spawned child.
    pub fn record_child(&mut self, pid: u32)
        ensures
            final(self).child == Some(pid),
            final(self).exited == old(self).exited,
    {
        self.child = Some(pid);
    }

    /// Handles a termination notice for process `pid`.
    pub fn on_child_terminated(&mut self, pid: u32)
        ensures
            final(self).child == old(self).child,
            final(self).exited == exited_after(old(self).exited, old(self).child, pid),
    {
        self.exited = exit_transition(self.exited, self.child, pid);
    }

    /// Whether the event loop should shut down.
    pub fn process_should_exit(&self) -> (r: bool)
        ensures
            r == self.exited,
    {
        self.exited
    }
}

/// Once the exit flag is set, no termination notice clears it.
pub proof fn lemma_exit_is_final(child: Option<u32>, pid: u32)
    ensures
        exited_after(true, child, pid),
{
}

/// A freshly launched child is running; the notice of its own termination
/// moves it to exited, while notices for other processes leave it running.
pub proof fn lemma_exit_follows_tracked_child(child: u32, pid: u32)
    ensures
        exited_after(false, Some(child), pid) == (pid == child),
        exited_after(false, Some(child), child),
        exited_after(false, None::<u32>, pid) == false,
{
}

} // verus!
