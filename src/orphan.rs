use vstd::prelude::*;
use vstd::multiset::Multiset;
use crate::status::ExitStatus;

verus! {

/// The exit-status probe of one child process.
pub trait Wait {
    /// The child's process identifier, stable for the child's lifetime.
    fn id(&self) -> u32;

    /// Asks the OS, without blocking, whether the child has exited.
    ///
    /// `Ok(None)`: still running. `Ok(Some(_))`: exited, and the status is
    /// consumed, so the handle is never asked again. `Err(code)`: the query
    /// itself failed with this OS error code.
    fn try_wait(&mut self) -> Result<Option<ExitStatus>, i32>;
}

/// What one probe of a queued orphan decided for it.
#[derive(Clone, Copy, Debug, PartialEq, Eq)]
pub enum Fate {
    /// Not yet exited: it stays queued.
    Running,
    /// Exited: its status was consumed and the handle released.
    Reaped,
    /// The probe failed: there is no owner to report to, so it is dropped.
    GivenUp,
}

impl Fate {
    pub open spec fn spec_of(probe: Result<Option<ExitStatus>, i32>) -> Fate {
        match probe {
            Ok(None) => Fate::Running,
            Ok(Some(_)) => Fate::Reaped,
            Err(_) => Fate::GivenUp,
        }
    }

    /// The fate of an orphan whose probe gave `probe`.
    pub fn of(probe: &Result<Option<ExitStatus>, i32>) -> (f: Fate)
        ensures
            f == Fate::spec_of(*probe),
    {
        match probe {
            Ok(None) => Fate::Running,
            Ok(Some(_)) => Fate::Reaped,
            Err(_) => Fate::GivenUp,
        }
    }
}

/// The identifiers of `pids` whose fate (aligned by position) is `f`, in order.
pub open spec fn select(pids: Seq<u32>, fates: Seq<Fate>, f: Fate) -> Seq<u32>
    decreases pids.len(),
{
    if pids.len() == 0 || fates.len() == 0 {
        seq![]
    } else {
        let rest = select(pids.drop_last(), fates.drop_last(), f);
        if fates.last() == f {
            rest.push(pids.last())
        } else {
            rest
        }
    }
}

/// One drain of a queue holding `before` left `after` queued, reclaimed
/// `reaped` and gave up on `given_up`, each orphan by its own probe.
pub open spec fn drained(before: Seq<u32>, after: Seq<u32>, reaped: Seq<u32>, given_up: Seq<u32>) -> bool {
    exists|fates: Seq<Fate>|
        fates.len() == before.len() && after == select(before, fates, Fate::Running) && reaped
            == select(before, fates, Fate::Reaped) && given_up == select(
            before,
            fates,
            Fate::GivenUp,
        )
}

/// Each identifier that `select` keeps comes from a position of `pids` whose
/// fate is `f`, and each such position is kept.
pub proof fn lemma_select_members(pids: Seq<u32>, fates: Seq<Fate>, f: Fate)
    requires
        fates.len() == pids.len(),
    ensures
        forall|x: u32|
            select(pids, fates, f).contains(x) <==> exists|j: int|
                0 <= j < pids.len() && fates[j] == f && pids[j] == x,
    decreases pids.len(),
{
    if pids.len() > 0 {
        let n = pids.len() - 1;
        lemma_select_members(pids.drop_last(), fates.drop_last(), f);
        let rest = select(pids.drop_last(), fates.drop_last(), f);
        assert forall|x: u32|
            select(pids, fates, f).contains(x) <==> exists|j: int|
                0 <= j < pids.len() && fates[j] == f && pids[j] == x by {
            if select(pids, fates, f).contains(x) {
                if rest.contains(x) {
                    let j = choose|j: int|
                        0 <= j < pids.drop_last().len() && fates.drop_last()[j] == f
                            && pids.drop_last()[j] == x;
                    assert(0 <= j < pids.len() && fates[j] == f && pids[j] == x);
                } else {
                    let k = choose|k: int| 0 <= k < select(pids, fates, f).len() && select(pids, fates, f)[k] == x;
                    assert(fates.last() == f);
                    assert(k == rest.len());
                    assert(0 <= n < pids.len() && fates[n] == f && pids[n] == x);
                }
            }
            if exists|j: int| 0 <= j < pids.len() && fates[j] == f && pids[j] == x {
                let j = choose|j: int| 0 <= j < pids.len() && fates[j] == f && pids[j] == x;
                if j < n {
                    assert(0 <= j < pids.drop_last().len() && fates.drop_last()[j] == f
                        && pids.drop_last()[j] == x);
                    assert(rest.contains(x));
                    let k = choose|k: int| 0 <= k < rest.len() && rest[k] == x;
                    assert(select(pids, fates, f)[k] == x);
                } else {
                    assert(select(pids, fates, f) == rest.push(x));
                    assert(select(pids, fates, f)[rest.len() as int] == x);
                }
            }
        }
    }
}

/// In one drain every queued orphan has exactly one outcome: it stays queued,
/// is reclaimed, or is given up.
pub proof fn lemma_drain_partition(pids: Seq<u32>, fates: Seq<Fate>)
    requires
        fates.len() == pids.len(),
    ensures
        select(pids, fates, Fate::Reaped).to_multiset().add(
            select(pids, fates, Fate::GivenUp).to_multiset(),
        ).add(select(pids, fates, Fate::Running).to_multiset()) =~= pids.to_multiset(),
    decreases pids.len(),
{
    broadcast use vstd::seq_lib::group_to_multiset_ensures, vstd::multiset::group_multiset_axioms;

    if pids.len() > 0 {
        lemma_drain_partition(pids.drop_last(), fates.drop_last());
        assert(pids.drop_last().push(pids.last()) =~= pids);
    } else {
        assert(select(pids, fates, Fate::Reaped) =~= Seq::<u32>::empty());
        assert(select(pids, fates, Fate::GivenUp) =~= Seq::<u32>::empty());
        assert(select(pids, fates, Fate::Running) =~= Seq::<u32>::empty());
    }
}

/// What stays queued after the drains `rounds`, started on a queue holding
/// `q`, each round giving one fate per orphan then queued.
pub open spec fn after_rounds(q: Seq<u32>, rounds: Seq<Seq<Fate>>) -> Seq<u32>
    decreases rounds.len(),
{
    if rounds.len() == 0 {
        q
    } else {
        select(after_rounds(q, rounds.drop_last()), rounds.last(), Fate::Running)
    }
}

/// Each round of `rounds` gives a fate to exactly the orphans then queued.
pub open spec fn rounds_fit(q: Seq<u32>, rounds: Seq<Seq<Fate>>) -> bool
    decreases rounds.len(),
{
    rounds.len() == 0 || (rounds_fit(q, rounds.drop_last()) && rounds.last().len() == after_rounds(
        q,
        rounds.drop_last(),
    ).len())
}

/// All reclaims made by the drains `rounds`, counted with multiplicity.
pub open spec fn reaped_in(q: Seq<u32>, rounds: Seq<Seq<Fate>>) -> Multiset<u32>
    decreases rounds.len(),
{
    if rounds.len() == 0 {
        Multiset::empty()
    } else {
        reaped_in(q, rounds.drop_last()).add(
            select(after_rounds(q, rounds.drop_last()), rounds.last(), Fate::Reaped).to_multiset(),
        )
    }
}

/// All orphans given up by the drains `rounds`, counted with multiplicity.
pub open spec fn given_up_in(q: Seq<u32>, rounds: Seq<Seq<Fate>>) -> Multiset<u32>
    decreases rounds.len(),
{
    if rounds.len() == 0 {
        Multiset::empty()
    } else {
        given_up_in(q, rounds.drop_last()).add(
            select(after_rounds(q, rounds.drop_last()), rounds.last(), Fate::GivenUp).to_multiset(),
        )
    }
}

/// No double reap: over any sequence of drains of a queue that held `q`,
/// each queued handle is accounted for exactly once, as reclaimed, given up
/// or still queued. So no handle is reclaimed more often than it was queued,
/// and a queue of N handles yields at most N reclaims in total.
pub proof fn lemma_no_double_reap(q: Seq<u32>, rounds: Seq<Seq<Fate>>)
    requires
        rounds_fit(q, rounds),
    ensures
        reaped_in(q, rounds).add(given_up_in(q, rounds)).add(after_rounds(q, rounds).to_multiset())
            =~= q.to_multiset(),
        forall|p: u32| reaped_in(q, rounds).count(p) <= q.to_multiset().count(p),
        reaped_in(q, rounds).len() <= q.len(),
    decreases rounds.len(),
{
    broadcast use vstd::seq_lib::group_to_multiset_ensures, vstd::multiset::group_multiset_axioms;

    if rounds.len() > 0 {
        let prev = rounds.drop_last();
        lemma_no_double_reap(q, prev);
        lemma_drain_partition(after_rounds(q, prev), rounds.last());
    }
    let left = after_rounds(q, rounds);
    assert(left.to_multiset().len() == left.len());
    assert(q.to_multiset().len() == q.len());
    assert(reaped_in(q, rounds).add(given_up_in(q, rounds)).add(left.to_multiset()).len()
        == reaped_in(q, rounds).len() + given_up_in(q, rounds).len() + left.len());
}

/// Eventual reclamation: when a drain finds that a queued orphan has exited,
/// the orphan is reclaimed and is no longer queued (identifiers distinct).
pub proof fn lemma_exited_orphan_reclaimed(before: Seq<u32>, fates: Seq<Fate>, i: int)
    requires
        fates.len() == before.len(),
        before.no_duplicates(),
        0 <= i < before.len(),
        fates[i] == Fate::Reaped,
    ensures
        select(before, fates, Fate::Reaped).contains(before[i]),
        !select(before, fates, Fate::Running).contains(before[i]),
        !select(before, fates, Fate::GivenUp).contains(before[i]),
{
    lemma_select_members(before, fates, Fate::Reaped);
    lemma_select_members(before, fates, Fate::Running);
    lemma_select_members(before, fates, Fate::GivenUp);
}

/// What one drain of the orphan queue did.
#[derive(Debug)]
pub struct DrainReport {
    /// The fate of each orphan that was queued, in queue order.
    pub fates: Vec<Fate>,
    /// The identifiers of the orphans that had exited and were reclaimed.
    pub reaped: Vec<u32>,
    /// The identifiers of the orphans whose probe failed.
    pub given_up: Vec<u32>,
}

/// Children whose reaper was discarded before they exited. Each entry holds
/// the child's identifier and its handle; the queue is the only owner left.
pub struct OrphanQueue<W> {
    entries: Vec<(u32, W)>,
}

pub open spec fn pids_of<W>(entries: Seq<(u32, W)>) -> Seq<u32> {
    entries.map_values(|e: (u32, W)| e.0)
}

impl<W> View for OrphanQueue<W> {
    type V = Seq<u32>;

    closed spec fn view(&self) -> Seq<u32> {
        pids_of(self.entries@)
    }
}

impl<W: Wait> OrphanQueue<W> {
    /// An empty queue.
    pub fn new() -> (q: Self)
        ensures
            q@ == Seq::<u32>::empty(),
    {
        let q = OrphanQueue { entries: Vec::new() };
        assert(q@ =~= Seq::<u32>::empty());
        q
    }

    /// The number of queued orphans.
    pub fn len(&self) -> (n: usize)
        ensures
            n == self@.len(),
    {
        self.entries.len()
    }

    /// Whether no orphan is queued.
    pub fn is_empty(&self) -> (r: bool)
        ensures
            r == (self@.len() == 0),
    {
        self.entries.len() == 0
    }

    /// The identifiers of the queued orphans, in queue order.
    pub fn pids(&self) -> (r: Vec<u32>)
        ensures
            r@ == self@,
    {
        let mut r: Vec<u32> = Vec::new();
        let mut i: usize = 0;
        while i < self.entries.len()
            invariant
                i <= self.entries@.len(),
                r@ == pids_of(self.entries@.subrange(0, i as int)),
            decreases self.entries@.len() - i,
        {
            r.push(self.entries[i].0);
            i = i + 1;
            assert(pids_of(self.entries@.subrange(0, i as int)) =~= pids_of(
                self.entries@.subrange(0, i - 1),
            ).push(self.entries@[i - 1].0));
        }
        assert(self.entries@.subrange(0, i as int) =~= self.entries@);
        r
    }

    /// Whether an orphan with identifier `pid` is queued.
    pub fn contains(&self, pid: u32) -> (r: bool)
        ensures
            r == self@.contains(pid),
    {
        let mut i: usize = 0;
        while i < self.entries.len()
            invariant
                i <= self.entries@.len(),
                forall|j: int| 0 <= j < i ==> self@[j] != pid,
            decreases self.entries@.len() - i,
        {
            if self.entries[i].0 == pid {
                assert(self@[i as int] == pid);
                return true;
            }
            i = i + 1;
        }
        false
    }

    /// Queues `handle`, known to belong to the child `pid`.
    pub(crate) fn push_entry(&mut self, pid: u32, handle: W)
        ensures
            final(self)@ == old(self)@.push(pid),
    {
        self.entries.push((pid, handle));
        assert(pids_of(self.entries@) =~= pids_of(old(self).entries@).push(pid));
    }

    /// Takes ownership of a not-yet-exited child; returns its identifier.
    pub fn push_orphan(&mut self, orphan: W) -> (pid: u32)
        ensures
            final(self)@ == old(self)@.push(pid),
    {
        let pid = orphan.id();
        self.push_entry(pid, orphan);
        pid
    }

    /// Probes every queued orphan once, in queue order. Those still running
    /// stay queued, in the same order; those that exited are reclaimed and
    /// those whose probe failed are dropped. No orphan is probed twice.
    pub fn reap_orphans(&mut self) -> (r: DrainReport)
        ensures
            r.fates@.len() == old(self)@.len(),
            final(self)@ == select(old(self)@, r.fates@, Fate::Running),
            r.reaped@ == select(old(self)@, r.fates@, Fate::Reaped),
            r.given_up@ == select(old(self)@, r.fates@, Fate::GivenUp),
            drained(old(self)@, final(self)@, r.reaped@, r.given_up@),
    {
        let mut pending: Vec<(u32, W)> = Vec::new();
        std::mem::swap(&mut pending, &mut self.entries);
        let ghost before = pids_of(pending@);
        let mut fates: Vec<Fate> = Vec::new();
        let mut reaped: Vec<u32> = Vec::new();
        let mut given_up: Vec<u32> = Vec::new();
        assert(self@ =~= Seq::<u32>::empty());
        while pending.len() > 0
            invariant
                before.len() == fates@.len() + pending@.len(),
                pids_of(pending@) == before.subrange(fates@.len() as int, before.len() as int),
                self@ == select(before.subrange(0, fates@.len() as int), fates@, Fate::Running),
                reaped@ == select(before.subrange(0, fates@.len() as int), fates@, Fate::Reaped),
                given_up@ == select(
                    before.subrange(0, fates@.len() as int),
                    fates@,
                    Fate::GivenUp,
                ),
            decreases pending@.len(),
        {
            let ghost k = fates@.len() as int;
            let ghost old_self = self@;
            let ghost old_pending = pending@;
            assert(pids_of(old_pending)[0] == old_pending[0].0);
            let (pid, mut handle) = pending.remove(0);
            assert(pid == before[k]);
            assert(pids_of(pending@) =~= pids_of(old_pending).subrange(1, old_pending.len() as int));
            let probe = handle.try_wait();
            let fate = Fate::of(&probe);
            match fate {
                Fate::Running => {
                    self.entries.push((pid, handle));
                    assert(pids_of(self.entries@) =~= old_self.push(pid));
                },
                Fate::Reaped => {
                    reaped.push(pid);
                },
                Fate::GivenUp => {
                    given_up.push(pid);
                },
            }
            let ghost old_fates = fates@;
            fates.push(fate);
            assert(before.subrange(0, k + 1).drop_last() =~= before.subrange(0, k));
            assert(fates@.drop_last() =~= old_fates);
            assert(before.subrange(0, k + 1).last() == pid);
            assert(pids_of(pending@) =~= before.subrange(k + 1, before.len() as int));
        }
        assert(before.subrange(0, before.len() as int) =~= before);
        DrainReport { fates, reaped, given_up }
    }
}

} // verus!
