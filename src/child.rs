use vstd::prelude::*;
use crate::orphan::{Wait, OrphanQueue, drained};
use crate::reap::{Reaper, ReapState, Wake, Action, Kill, probed, action_for};
use crate::status::{ExitStatus, ReapError, KillError};

verus! {

/// A spawned child as the rest of a program sees it: its identifier, a kill
/// request, and the wait for its exit status, which a reaper carries out.
pub struct Child<W> {
    inner: Reaper<W>,
}

impl<W> View for Child<W> {
    type V = (u32, ReapState);

    closed spec fn view(&self) -> (u32, ReapState) {
        self.inner@
    }
}

impl<W> Child<W> {
    pub closed spec fn wf(&self) -> bool {
        self.inner.wf()
    }
}

impl<W: Wait> Child<W> {
    /// Wraps a freshly spawned child's handle.
    pub fn new(handle: W) -> (c: Self)
        ensures
            c.wf(),
            c@.1 == ReapState::Active,
    {
        Child { inner: Reaper::new(handle) }
    }

    /// The child's process identifier.
    pub fn id(&self) -> (r: u32)
        ensures
            r == self@.0,
    {
        self.inner.id()
    }

    /// One step of the wait for the exit status; see `Reaper::poll`.
    pub fn poll(&mut self, wake: Wake, queue: &mut OrphanQueue<W>) -> (r: Action)
        requires
            old(self).wf(),
        ensures
            final(self).wf(),
            final(self)@.0 == old(self)@.0,
            old(self)@.1 != ReapState::Active ==> {
                &&& final(self)@ == old(self)@
                &&& final(queue)@ == old(queue)@
                &&& r == action_for(old(self)@.1)
            },
            old(self)@.1 == ReapState::Active ==> match wake {
                Wake::Resumed => {
                    &&& final(queue)@ == old(queue)@
                    &&& exists|p: Result<Option<ExitStatus>, i32>|
                        final(self)@.1 == probed(p) && r == action_for(probed(p))
                },
                Wake::Notified => {
                    &&& exists|reaped: Seq<u32>, given_up: Seq<u32>|
                        drained(old(queue)@, final(queue)@, reaped, given_up)
                    &&& exists|p: Result<Option<ExitStatus>, i32>|
                        final(self)@.1 == probed(p) && r == action_for(probed(p))
                },
                Wake::Pending => {
                    &&& final(self)@ == old(self)@
                    &&& final(queue)@ == old(queue)@
                    &&& r == Action::Suspend
                },
                Wake::Broken(e) => {
                    &&& final(queue)@ == old(queue)@
                    &&& final(self)@.1 == ReapState::Failed(ReapError::Signal(e))
                    &&& r == Action::Ready(Err(ReapError::Signal(e)))
                },
                Wake::Ended => {
                    &&& final(queue)@ == old(queue)@
                    &&& final(self)@.1 == ReapState::Failed(ReapError::SignalsEnded)
                    &&& r == Action::Ready(Err(ReapError::SignalsEnded))
                },
            },
    {
        self.inner.poll(wake, queue)
    }

    /// Discards the child's wait; see `Reaper::abandon`.
    pub fn abandon(self, queue: &mut OrphanQueue<W>)
        requires
            self.wf(),
        ensures
            final(queue)@ == if self@.1 is Exited {
                old(queue)@
            } else {
                old(queue)@.push(self@.0)
            },
    {
        self.inner.abandon(queue)
    }
}

impl<W: Wait + Kill> Child<W> {
    /// Asks the OS to kill the child; the wait goes on unchanged.
    pub fn kill(&mut self) -> (r: Result<(), KillError>)
        requires
            old(self).wf(),
        ensures
            final(self).wf(),
            final(self)@ == old(self)@,
            old(self)@.1 is Exited ==> r == Err::<(), KillError>(KillError::Exited),
            !(old(self)@.1 is Exited) ==> (r is Ok || r matches Err(KillError::Os(_))),
    {
        self.inner.kill()
    }
}

} // verus!
