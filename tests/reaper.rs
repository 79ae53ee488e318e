use process_reaper::{
    Action, Child, DrainReport, ExitStatus, Fate, Kill, KillError, OrphanQueue, ReapError,
    ReapState, Reaper, Wait, Wake,
};
use std::cell::Cell;
use std::rc::Rc;

/// A child whose exit the test decides, counting how often it is probed.
#[derive(Clone)]
struct Scripted {
    pid: u32,
    exit: Rc<Cell<Option<ExitStatus>>>,
    probe_error: Rc<Cell<Option<i32>>>,
    kill_error: Option<i32>,
    probes: Rc<Cell<u32>>,
}

impl Scripted {
    fn running(pid: u32) -> Scripted {
        Scripted {
            pid,
            exit: Rc::new(Cell::new(None)),
            probe_error: Rc::new(Cell::new(None)),
            kill_error: None,
            probes: Rc::new(Cell::new(0)),
        }
    }

    fn exited(pid: u32, status: ExitStatus) -> Scripted {
        let s = Scripted::running(pid);
        s.exit.set(Some(status));
        s
    }
}

impl Wait for Scripted {
    fn id(&self) -> u32 {
        self.pid
    }

    fn try_wait(&mut self) -> Result<Option<ExitStatus>, i32> {
        self.probes.set(self.probes.get() + 1);
        if let Some(e) = self.probe_error.get() {
            return Err(e);
        }
        Ok(self.exit.get())
    }
}

impl Kill for Scripted {
    fn kill(&mut self) -> Result<(), i32> {
        if let Some(e) = self.kill_error {
            return Err(e);
        }
        if self.exit.get().is_none() {
            self.exit.set(Some(ExitStatus::Signaled(9)));
        }
        Ok(())
    }
}

/// Drives a child the way a scheduler would, with `signals` as what the
/// notification sequence gives, until the wait resolves or suspends.
fn drive(child: &mut Child<Scripted>, queue: &mut OrphanQueue<Scripted>, signals: &[Wake]) -> Action {
    let mut action = child.poll(Wake::Resumed, queue);
    let mut next = signals.iter();
    while action == Action::PollSignal {
        let wake = *next.next().unwrap_or(&Wake::Pending);
        action = child.poll(wake, queue);
    }
    action
}

#[test]
fn golden_path_resolves_to_status_zero() {
    let mut queue = OrphanQueue::new();
    let mut child = Child::new(Scripted::exited(10, ExitStatus::Exited(0)));
    let action = drive(&mut child, &mut queue, &[Wake::Notified]);
    assert_eq!(action, Action::Ready(Ok(ExitStatus::Exited(0))));
    assert!(ExitStatus::Exited(0).success());
}

#[test]
fn golden_path_after_one_notification() {
    let mut queue = OrphanQueue::new();
    let handle = Scripted::running(11);
    let exit = handle.exit.clone();
    let mut child = Child::new(handle);
    assert_eq!(child.poll(Wake::Resumed, &mut queue), Action::PollSignal);
    assert_eq!(child.poll(Wake::Pending, &mut queue), Action::Suspend);
    exit.set(Some(ExitStatus::Exited(0)));
    assert_eq!(child.poll(Wake::Resumed, &mut queue), Action::Ready(Ok(ExitStatus::Exited(0))));
}

#[test]
fn abandoned_child_is_drained_by_another_reaper() {
    let mut queue = OrphanQueue::new();
    let first = Scripted::running(20);
    let first_exit = first.exit.clone();
    let first_child = Child::new(first);
    first_child.abandon(&mut queue);
    assert_eq!(queue.pids(), vec![20]);

    let second = Scripted::running(21);
    let second_exit = second.exit.clone();
    let mut second_child = Child::new(second);
    assert_eq!(second_child.poll(Wake::Resumed, &mut queue), Action::PollSignal);

    first_exit.set(Some(ExitStatus::Exited(3)));
    second_exit.set(Some(ExitStatus::Exited(0)));
    let action = second_child.poll(Wake::Notified, &mut queue);
    assert_eq!(action, Action::Ready(Ok(ExitStatus::Exited(0))));
    assert!(!queue.contains(20));
    assert!(queue.is_empty());
}

#[test]
fn kill_then_wait_resolves_to_signaled_status() {
    let mut queue = OrphanQueue::new();
    let mut child = Child::new(Scripted::running(30));
    assert_eq!(child.kill(), Ok(()));
    let action = drive(&mut child, &mut queue, &[Wake::Notified]);
    assert_eq!(action, Action::Ready(Ok(ExitStatus::Signaled(9))));
    assert_eq!(ExitStatus::Signaled(9).code(), None);
    assert_eq!(ExitStatus::Signaled(9).signal(), Some(9));
    assert!(!ExitStatus::Signaled(9).success());
}

#[test]
fn exhausted_notifications_fail_instead_of_hanging() {
    let mut queue = OrphanQueue::new();
    let mut child = Child::new(Scripted::running(40));
    let action = drive(&mut child, &mut queue, &[Wake::Ended]);
    assert_eq!(action, Action::Ready(Err(ReapError::SignalsEnded)));
}

#[test]
fn broken_notifications_fail_with_their_error() {
    let mut queue = OrphanQueue::new();
    let mut child = Child::new(Scripted::running(41));
    let action = drive(&mut child, &mut queue, &[Wake::Broken(4)]);
    assert_eq!(action, Action::Ready(Err(ReapError::Signal(4))));
}

#[test]
fn resolved_reaper_never_probes_again() {
    let mut queue = OrphanQueue::new();
    let handle = Scripted::exited(50, ExitStatus::Exited(7));
    let probes = handle.probes.clone();
    let mut reaper = Reaper::new(handle);
    let first = reaper.poll(Wake::Resumed, &mut queue);
    assert_eq!(first, Action::Ready(Ok(ExitStatus::Exited(7))));
    assert_eq!(probes.get(), 1);
    for wake in [Wake::Resumed, Wake::Notified, Wake::Pending, Wake::Ended, Wake::Broken(1)] {
        assert_eq!(reaper.poll(wake, &mut queue), first);
    }
    assert_eq!(probes.get(), 1);
    assert_eq!(reaper.state(), ReapState::Exited(ExitStatus::Exited(7)));
}

#[test]
fn failed_reaper_keeps_its_error() {
    let mut queue = OrphanQueue::new();
    let mut reaper = Reaper::new(Scripted::running(51));
    assert_eq!(
        reaper.poll(Wake::Ended, &mut queue),
        Action::Ready(Err(ReapError::SignalsEnded))
    );
    assert_eq!(
        reaper.poll(Wake::Resumed, &mut queue),
        Action::Ready(Err(ReapError::SignalsEnded))
    );
}

#[test]
fn spurious_notification_returns_to_suspension() {
    let mut queue = OrphanQueue::new();
    let orphan = Scripted::running(60);
    queue.push_orphan(orphan);
    let mut reaper = Reaper::new(Scripted::running(61));
    assert_eq!(reaper.poll(Wake::Resumed, &mut queue), Action::PollSignal);
    assert_eq!(reaper.poll(Wake::Notified, &mut queue), Action::PollSignal);
    assert_eq!(reaper.poll(Wake::Pending, &mut queue), Action::Suspend);
    assert_eq!(reaper.state(), ReapState::Active);
    assert_eq!(queue.pids(), vec![60]);
}

#[test]
fn probe_failure_ends_the_wait() {
    let mut queue = OrphanQueue::new();
    let handle = Scripted::running(70);
    handle.probe_error.set(Some(10));
    let mut child = Child::new(handle);
    assert_eq!(child.poll(Wake::Resumed, &mut queue), Action::Ready(Err(ReapError::Probe(10))));
}

#[test]
fn drain_reclaims_each_exited_orphan_once() {
    let mut queue = OrphanQueue::new();
    let exits: Vec<Rc<Cell<Option<ExitStatus>>>> = (0..3)
        .map(|i| {
            let h = Scripted::running(80 + i);
            let e = h.exit.clone();
            assert_eq!(queue.push_orphan(h), 80 + i);
            e
        })
        .collect();
    let first: DrainReport = queue.reap_orphans();
    assert_eq!(first.fates, vec![Fate::Running; 3]);
    assert!(first.reaped.is_empty());
    assert_eq!(queue.len(), 3);

    for e in &exits {
        e.set(Some(ExitStatus::Exited(0)));
    }
    let second = queue.reap_orphans();
    assert_eq!(second.reaped, vec![80, 81, 82]);
    assert!(queue.is_empty());
    let third = queue.reap_orphans();
    assert!(third.reaped.is_empty());
    assert!(third.fates.is_empty());
}

#[test]
fn drain_keeps_running_orphans_in_order() {
    let mut queue = OrphanQueue::new();
    queue.push_orphan(Scripted::running(90));
    queue.push_orphan(Scripted::exited(91, ExitStatus::Exited(1)));
    queue.push_orphan(Scripted::running(92));
    let failing = Scripted::running(93);
    failing.probe_error.set(Some(2));
    queue.push_orphan(failing);
    let report = queue.reap_orphans();
    assert_eq!(report.fates, vec![Fate::Running, Fate::Reaped, Fate::Running, Fate::GivenUp]);
    assert_eq!(report.reaped, vec![91]);
    assert_eq!(report.given_up, vec![93]);
    assert_eq!(queue.pids(), vec![90, 92]);
}

#[test]
fn abandoning_hands_off_only_unreaped_children() {
    let mut queue = OrphanQueue::new();
    let mut done = Child::new(Scripted::exited(100, ExitStatus::Exited(0)));
    assert_eq!(done.poll(Wake::Resumed, &mut queue), Action::Ready(Ok(ExitStatus::Exited(0))));
    done.abandon(&mut queue);
    assert!(queue.is_empty());

    let mut failed = Reaper::new(Scripted::running(101));
    failed.poll(Wake::Ended, &mut queue);
    failed.abandon(&mut queue);
    let waiting = Child::new(Scripted::running(102));
    assert_eq!(waiting.id(), 102);
    waiting.abandon(&mut queue);
    assert_eq!(queue.pids(), vec![101, 102]);
}

#[test]
fn kill_reports_os_refusal_and_exited_children() {
    let mut queue = OrphanQueue::new();
    let mut refused = Scripted::running(110);
    refused.kill_error = Some(1);
    let mut child = Child::new(refused);
    assert_eq!(child.kill(), Err(KillError::Os(1)));
    assert_eq!(child.poll(Wake::Resumed, &mut queue), Action::PollSignal);

    let mut done = Child::new(Scripted::exited(111, ExitStatus::Exited(0)));
    done.poll(Wake::Resumed, &mut queue);
    assert_eq!(done.kill(), Err(KillError::Exited));
    assert_eq!(done.id(), 111);
}

#[test]
fn settle_maps_each_probe_result() {
    let mut a = Reaper::new(Scripted::running(120));
    assert_eq!(a.settle(Ok(None)), Action::PollSignal);
    assert_eq!(a.state(), ReapState::Active);
    assert_eq!(a.settle(Ok(Some(ExitStatus::Exited(2)))), Action::Ready(Ok(ExitStatus::Exited(2))));
    assert_eq!(a.state(), ReapState::Exited(ExitStatus::Exited(2)));
    let mut b = Reaper::new(Scripted::running(121));
    assert_eq!(b.settle(Err(13)), Action::Ready(Err(ReapError::Probe(13))));
    assert_eq!(b.state(), ReapState::Failed(ReapError::Probe(13)));
    assert_eq!(Fate::of(&Ok(None)), Fate::Running);
    assert_eq!(Fate::of(&Err(1)), Fate::GivenUp);
    assert_eq!(ExitStatus::Exited(2).code(), Some(2));
    assert_eq!(ExitStatus::Exited(2).signal(), None);
}
