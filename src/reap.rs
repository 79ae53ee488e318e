use vstd::prelude::*;
use crate::orphan::{Wait, OrphanQueue, drained};
use crate::status::{ExitStatus, ReapError, KillError};

verus! {

/// Sends a termination request to a child process.
pub trait Kill {
    /// Asks the OS to kill the child; `Err(code)` carries the OS error code.
    fn kill(&mut self) -> Result<(), i32>;
}

/// Where a reaper stands.
#[derive(Clone, Copy, Debug, PartialEq, Eq)]
pub enum ReapState {
    /// Waiting: the child's exit has not been observed.
    Active,
    /// Terminal: the child exited with this status, now reclaimed.
    Exited(ExitStatus),
    /// Terminal: waiting failed with this error.
    Failed(ReapError),
}

/// Why a reaper is being polled.
#[derive(Clone, Copy, Debug, PartialEq, Eq)]
pub enum Wake {
    /// The scheduler resumed the waiting task.
    Resumed,
    /// Polling the notification sequence gave one event.
    Notified,
    /// Polling the notification sequence gave nothing yet; a wakeup is registered.
    Pending,
    /// Polling the notification sequence gave this OS error code.
    Broken(i32),
    /// The notification sequence has ended.
    Ended,
}

/// What the caller does next.
#[derive(Clone, Copy, Debug, PartialEq, Eq)]
pub enum Action {
    /// The wait is over, with this result.
    Ready(Result<ExitStatus, ReapError>),
    /// Poll the notification sequence and hand back what it gave.
    PollSignal,
    /// Yield to the scheduler until the registered wakeup fires.
    Suspend,
}

/// The state that a probe result leads an active reaper to.
pub open spec fn probed(probe: Result<Option<ExitStatus>, i32>) -> ReapState {
    match probe {
        Ok(None) => ReapState::Active,
        Ok(Some(s)) => ReapState::Exited(s),
        Err(e) => ReapState::Failed(ReapError::Probe(e)),
    }
}

/// The action that goes with a state reached by probing or by a verdict.
pub open spec fn action_for(state: ReapState) -> Action {
    match state {
        ReapState::Active => Action::PollSignal,
        ReapState::Exited(s) => Action::Ready(Ok(s)),
        ReapState::Failed(e) => Action::Ready(Err(e)),
    }
}

/// At most one owner: take the children owned by live reapers, `live`, and
/// those held by the orphan queue, `queue`, with no child in two places.
/// When the reaper at `i` is abandoned and its handle moves to the queue,
/// still no child is in two places, and none is lost or added.
pub proof fn lemma_single_owner(live: Seq<u32>, i: int, queue: Seq<u32>)
    requires
        0 <= i < live.len(),
        (live + queue).no_duplicates(),
    ensures
        (live.remove(i) + queue.push(live[i])).no_duplicates(),
        (live.remove(i) + queue.push(live[i])).to_multiset() =~= (live + queue).to_multiset(),
{
    broadcast use vstd::seq_lib::group_to_multiset_ensures, vstd::multiset::group_multiset_axioms;

    let after = live.remove(i) + queue.push(live[i]);
    vstd::seq_lib::lemma_multiset_commutative(live, queue);
    vstd::seq_lib::lemma_multiset_commutative(live.remove(i), queue.push(live[i]));
    assert(after.to_multiset() =~= (live + queue).to_multiset());
    (live + queue).lemma_multiset_has_no_duplicates();
    after.lemma_multiset_has_no_duplicates_conv();
}

/// One in-flight wait for a child's exit. It owns the child's handle until
/// the exit is observed; discarded earlier, it hands the handle to the
/// orphan queue (`abandon`).
pub struct Reaper<W> {
    pid: u32,
    handle: Option<W>,
    state: ReapState,
}

impl<W> View for Reaper<W> {
    /// The child's identifier and the reaper's state.
    type V = (u32, ReapState);

    closed spec fn view(&self) -> (u32, ReapState) {
        (self.pid, self.state)
    }
}

impl<W> Reaper<W> {
    /// The handle is held exactly while the exit has not been observed.
    pub closed spec fn wf(&self) -> bool {
        self.handle is Some <==> !(self.state is Exited)
    }
}

impl<W: Wait> Reaper<W> {
    /// A reaper that owns `handle`, waiting.
    pub fn new(handle: W) -> (r: Self)
        ensures
            r.wf(),
            r@.1 == ReapState::Active,
    {
        let pid = handle.id();
        Reaper { pid, handle: Some(handle), state: ReapState::Active }
    }

    /// The child's identifier; available in every state.
    pub fn id(&self) -> (r: u32)
        ensures
            r == self@.0,
    {
        self.pid
    }

    /// The reaper's state.
    pub fn state(&self) -> (r: ReapState)
        ensures
            r == self@.1,
    {
        self.state
    }

    /// Records the result of probing the child of an active reaper: an exit
    /// ends the wait and releases the handle, a failure ends it with the
    /// probe's error, and "still running" keeps it waiting.
    pub fn settle(&mut self, probe: Result<Option<ExitStatus>, i32>) -> (r: Action)
        requires
            old(self).wf(),
            old(self)@.1 == ReapState::Active,
        ensures
            final(self).wf(),
            final(self)@ == (old(self)@.0, probed(probe)),
            r == action_for(probed(probe)),
    {
        match probe {
            Ok(None) => Action::PollSignal,
            Ok(Some(s)) => {
                self.handle = None;
                self.state = ReapState::Exited(s);
                Action::Ready(Ok(s))
            },
            Err(e) => {
                self.state = ReapState::Failed(ReapError::Probe(e));
                Action::Ready(Err(ReapError::Probe(e)))
            },
        }
    }

    /// Probes the owned child once and records the result.
    fn probe(&mut self) -> (r: Action)
        requires
            old(self).wf(),
            old(self)@.1 == ReapState::Active,
        ensures
            final(self).wf(),
            final(self)@.0 == old(self)@.0,
            exists|p: Result<Option<ExitStatus>, i32>|
                final(self)@.1 == probed(p) && r == action_for(probed(p)),
    {
        let mut h = self.handle.take().unwrap();
        let p = h.try_wait();
        self.handle = Some(h);
        self.settle(p)
    }

    /// One step of the wait. A resolved reaper answers with its result and
    /// touches nothing. An active one probes its own child when resumed;
    /// on a notification it first drains the orphan queue, then probes. It
    /// keeps waiting on a pending sequence, and fails once the sequence
    /// breaks or ends, since no exit could be observed any more.
    pub fn poll(&mut self, wake: Wake, queue: &mut OrphanQueue<W>) -> (r: Action)
        requires
            old(self).wf(),
        ensures
            final(self).wf(),
            final(self)@.0 == old(self)@.0,
            old(self)@.1 != ReapState::Active ==> {
                &&& final(self)@ == old(self)@
                &&& final(queue)@ == old(queue)@
                &&& r == action_for(old(self)@.1)
            },
            old(self)@.1 == ReapState::Active ==> match wake {
                Wake::Resumed => {
                    &&& final(queue)@ == old(queue)@
                    &&& exists|p: Result<Option<ExitStatus>, i32>|
                        final(self)@.1 == probed(p) && r == action_for(probed(p))
                },
                Wake::Notified => {
                    &&& exists|reaped: Seq<u32>, given_up: Seq<u32>|
                        drained(old(queue)@, final(queue)@, reaped, given_up)
                    &&& exists|p: Result<Option<ExitStatus>, i32>|
                        final(self)@.1 == probed(p) && r == action_for(probed(p))
                },
                Wake::Pending => {
                    &&& final(self)@ == old(self)@
                    &&& final(queue)@ == old(queue)@
                    &&& r == Action::Suspend
                },
                Wake::Broken(e) => {
                    &&& final(queue)@ == old(queue)@
                    &&& final(self)@.1 == ReapState::Failed(ReapError::Signal(e))
                    &&& r == Action::Ready(Err(ReapError::Signal(e)))
                },
                Wake::Ended => {
                    &&& final(queue)@ == old(queue)@
                    &&& final(self)@.1 == ReapState::Failed(ReapError::SignalsEnded)
                    &&& r == Action::Ready(Err(ReapError::SignalsEnded))
                },
            },
    {
        match self.state {
            ReapState::Exited(s) => {
                return Action::Ready(Ok(s));
            },
            ReapState::Failed(e) => {
                return Action::Ready(Err(e));
            },
            ReapState::Active => {},
        }
        match wake {
            Wake::Resumed => self.probe(),
            Wake::Notified => {
                let _ = queue.reap_orphans();
                self.probe()
            },
            Wake::Pending => Action::Suspend,
            Wake::Broken(e) => {
                self.state = ReapState::Failed(ReapError::Signal(e));
                Action::Ready(Err(ReapError::Signal(e)))
            },
            Wake::Ended => {
                self.state = ReapState::Failed(ReapError::SignalsEnded);
                Action::Ready(Err(ReapError::SignalsEnded))
            },
        }
    }

    /// Discards the reaper. A handle whose exit was not observed goes to the
    /// orphan queue, so that the child is still reclaimed later; the child is
    /// not killed.
    pub fn abandon(self, queue: &mut OrphanQueue<W>)
        requires
            self.wf(),
        ensures
            final(queue)@ == if self@.1 is Exited {
                old(queue)@
            } else {
                old(queue)@.push(self@.0)
            },
    {
        match self.handle {
            Some(h) => queue.push_entry(self.pid, h),
            None => {},
        }
    }
}

impl<W: Wait + Kill> Reaper<W> {
    /// Asks the OS to kill the child. This does not reap it: the exit is
    /// still observed by polling.
    pub fn kill(&mut self) -> (r: Result<(), KillError>)
        requires
            old(self).wf(),
        ensures
            final(self).wf(),
            final(self)@ == old(self)@,
            old(self)@.1 is Exited ==> r == Err::<(), KillError>(KillError::Exited),
            !(old(self)@.1 is Exited) ==> (r is Ok || r matches Err(KillError::Os(_))),
    {
        match self.handle.take() {
            Some(mut h) => {
                let k = h.kill();
                self.handle = Some(h);
                match k {
                    Ok(()) => Ok(()),
                    Err(e) => Err(KillError::Os(e)),
                }
            },
            None => Err(KillError::Exited),
        }
    }
}

} // verus!
