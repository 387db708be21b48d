//! The harness-side picture of one running shim: its liveness, the state of
//! its connection, and the classification of its exit code.
//!
//! The process and socket themselves live outside this crate; what is
//! modelled here is every fact about them that the harness logic reads.
//! The rendezvous procedure binds a listening socket, spawns the shim with
//! the bound port, and then waits for whichever comes first: the shim's
//! connection, or its exit.  That wake-up is the [`RendezvousEvent`] handed
//! to [`Agent::on_rendezvous`], which decides whether a live agent exists.

use vstd::prelude::*;

use crate::test_result::{classify, TestResult};

verus! {

/// What the rendezvous wait woke up for: either the shim's loopback
/// connection is pending on the listener, or the shim exited (almost always
/// because it could not set up its side) with the given raw exit code.
pub enum RendezvousEvent {
    Accepted,
    ChildExited(i32),
}

/// One shim as the harness sees it.
///
/// `alive` is true until this agent's read side observes end-of-stream; it
/// moves from true to false exactly once and never back.  `status` is the
/// shim's raw exit code, absent until the process has truly exited and
/// recorded at most once.  `write_shutdown` records that the harness has
/// shut this agent's connection down for writing, which is how the peer's
/// end-of-stream is propagated to it.
pub struct Agent {
    pub name: String,
    pub alive: bool,
    pub status: Option<i32>,
    pub write_shutdown: bool,
}

impl Agent {
    /// Decide the outcome of the rendezvous from its wake-up event: a
    /// pending connection yields a live agent with no classification yet,
    /// while an early exit yields the raw code for the caller to classify,
    /// and no agent ever exists.
    pub fn on_rendezvous(name: String, event: RendezvousEvent) -> (r: Result<Agent, i32>)
        ensures
            event is Accepted ==> r == Ok::<Agent, i32>(
                (Agent { name, alive: true, status: None, write_shutdown: false }),
            ),
            event matches RendezvousEvent::ChildExited(code) ==> r == Err::<Agent, i32>(code),
    {
        match event {
            RendezvousEvent::Accepted => Ok(
                Agent { name, alive: true, status: None, write_shutdown: false },
            ),
            RendezvousEvent::ChildExited(code) => Err(code),
        }
    }

    /// Record the shim's raw exit code once the watcher has obtained it.
    /// The classification is populated at most once.
    pub fn record_exit(&mut self, code: i32)
        requires
            old(self).status is None,
        ensures
            *final(self) == (Agent { status: Some(code), ..*old(self) }),
    {
        self.status = Some(code);
    }

    /// Classify this agent's recorded exit code.
    pub fn check_status(&self) -> (r: TestResult)
        requires
            self.status is Some,
        ensures
            self.status matches Some(code) ==> r == classify(code as int),
    {
        match self.status {
            Some(code) => TestResult::from_status(code),
            None => TestResult::Failed,
        }
    }
}

} // verus!
