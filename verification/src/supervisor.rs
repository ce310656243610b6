//! The process supervisor: the one slot that holds the current process.

use vstd::prelude::*;

verus! {

/// The slot after the process `pid` was started: it is the current one.
pub open spec fn superseded(current: Option<u32>, pid: u32) -> Option<u32> {
    Some(pid)
}

/// The process tracked as current after the processes `pids` were started one
/// after the other, faster than any of them completed.
pub open spec fn current_after(current: Option<u32>, pids: Seq<u32>) -> Option<u32>
    decreases pids.len(),
{
    if pids.len() == 0 {
        current
    } else {
        superseded(current_after(current, pids.drop_last()), pids.last())
    }
}

/// The processes that were asked to terminate while `pids` were started one
/// after the other, in the order of the requests: each start asks the one
/// that was current before it.
pub open spec fn terminated_during(current: Option<u32>, pids: Seq<u32>) -> Seq<u32>
    decreases pids.len(),
{
    if pids.len() == 0 {
        Seq::empty()
    } else {
        let before = terminated_during(current, pids.drop_last());
        match current_after(current, pids.drop_last()) {
            Some(old) => before.push(old),
            None => before,
        }
    }
}

/// After any number of starts from an idle supervisor, exactly the last
/// process started is current, and every other one has been asked to
/// terminate, in the order in which they were started.
pub proof fn one_current_rest_terminated(pids: Seq<u32>)
    requires
        pids.len() > 0,
    ensures
        current_after(None, pids) == Some(pids.last()),
        terminated_during(None, pids) == pids.drop_last(),
    decreases pids.len(),
{
    let earlier = pids.drop_last();
    if earlier.len() == 0 {
        assert(current_after(None, earlier) is None);
        assert(terminated_during(None, earlier) =~= Seq::<u32>::empty());
        assert(terminated_during(None, pids) =~= earlier);
    } else {
        one_current_rest_terminated(earlier);
        assert(earlier.drop_last().push(earlier.last()) =~= earlier);
    }
}

/// The supervisor's slot: the process that is current, if there is one.
pub struct Supervisor {
    current: Option<u32>,
}

impl View for Supervisor {
    type V = Option<u32>;

    closed spec fn view(&self) -> Option<u32> {
        self.current
    }
}

impl Supervisor {
    /// The idle supervisor.
    pub fn new() -> (s: Supervisor)
        ensures
            s@ is None,
    {
        Supervisor { current: None }
    }

    /// The current process.
    pub fn current(&self) -> (pid: Option<u32>)
        ensures
            pid == self@,
    {
        self.current
    }

    /// Takes over a process that was just started: it becomes the current
    /// one. Returns the process that was current until now, which is to be
    /// terminated and waited for.
    pub fn started(&mut self, pid: u32) -> (stale: Option<u32>)
        ensures
            stale == old(self)@,
            final(self)@ == superseded(old(self)@, pid),
    {
        let stale = self.current;
        self.current = Some(pid);
        stale
    }
}

} // verus!
