//! The download coordinator's state: a bounded handoff queue between the
//! manifest producer and a fixed-size worker pool, the entries in flight,
//! and one outcome per finished entry. A transfer's failure is recorded
//! against its entry alone; it never aborts siblings or the coordinator.

use vstd::prelude::*;
use crate::files::FilesList;

verus! {

/// How one entry's transfer ended.
pub enum TransferOutcome {
    Success,
    Failed(String),
}

/// The recorded outcome of one entry.
pub struct EntryResult {
    pub entry: FilesList,
    pub outcome: TransferOutcome,
}

/// The coordinator's state. `queue` holds accepted entries no worker has
/// taken, `active` the entries in flight (at most one per worker), and
/// `outcomes` one result per finished entry, in completion order.
pub struct Coordinator {
    pub pool_size: usize,
    pub queue_capacity: usize,
    pub closed: bool,
    pub queue: Vec<FilesList>,
    pub active: Vec<FilesList>,
    pub outcomes: Vec<EntryResult>,
}

impl Coordinator {
    /// Every reachable state keeps the pool and queue bounds.
    pub open spec fn wf(self) -> bool {
        self.pool_size >= 1 && self.active@.len() <= self.pool_size && self.queue@.len()
            <= self.queue_capacity
    }

    /// The number of transfers in flight.
    pub open spec fn in_flight(self) -> nat {
        self.active@.len()
    }

    /// The number of entries accepted and not yet finished or still queued.
    pub open spec fn accepted(self) -> nat {
        self.queue@.len() + self.active@.len() + self.outcomes@.len()
    }

    /// The coordinator resolves once the queue is closed and drained and
    /// every worker has exited.
    pub open spec fn done(self) -> bool {
        self.closed && self.queue@.len() == 0 && self.active@.len() == 0
    }

    /// A coordinator for a pool of `pool_size` workers behind a handoff
    /// queue of `queue_capacity` entries.
    pub fn new(pool_size: usize, queue_capacity: usize) -> (r: Coordinator)
        requires
            pool_size >= 1,
        ensures
            r.wf(),
            r.pool_size == pool_size,
            r.queue_capacity == queue_capacity,
            !r.closed,
            r.queue@ == Seq::<FilesList>::empty(),
            r.active@ == Seq::<FilesList>::empty(),
            r.outcomes@ == Seq::<EntryResult>::empty(),
    {
        let r = Coordinator {
            pool_size,
            queue_capacity,
            closed: false,
            queue: Vec::new(),
            active: Vec::new(),
            outcomes: Vec::new(),
        };
        proof {
            assert(r.queue@ =~= Seq::<FilesList>::empty());
            assert(r.active@ =~= Seq::<FilesList>::empty());
            assert(r.outcomes@ =~= Seq::<EntryResult>::empty());
        }
        r
    }

    /// Whether the producer may push now; a full queue makes the producer
    /// wait, the backpressure against unbounded growth.
    pub fn can_accept(&self) -> (r: bool)
        ensures
            r == (!self.closed && self.queue@.len() < self.queue_capacity),
    {
        !self.closed && self.queue.len() < self.queue_capacity
    }

    /// The producer hands one manifest entry to the queue.
    pub fn enqueue(&mut self, entry: FilesList)
        requires
            old(self).wf(),
            !old(self).closed,
            old(self).queue@.len() < old(self).queue_capacity,
        ensures
            final(self).wf(),
            final(self).queue@ == old(self).queue@.push(entry),
            final(self).active == old(self).active,
            final(self).outcomes == old(self).outcomes,
            final(self).closed == old(self).closed,
            final(self).pool_size == old(self).pool_size,
            final(self).queue_capacity == old(self).queue_capacity,
    {
        self.queue.push(entry);
    }

    /// The producer signals that no further entry comes; workers drain the
    /// queue and exit.
    pub fn close(&mut self)
        requires
            old(self).wf(),
        ensures
            final(self).wf(),
            final(self).closed,
            final(self).queue == old(self).queue,
            final(self).active == old(self).active,
            final(self).outcomes == old(self).outcomes,
            final(self).pool_size == old(self).pool_size,
            final(self).queue_capacity == old(self).queue_capacity,
    {
        self.closed = true;
    }

    /// An idle worker takes the queue's front entry, which moves in flight;
    /// with the queue empty or every worker busy, nothing happens. The slot
    /// of the taken entry is returned.
    pub fn worker_start(&mut self) -> (r: Option<usize>)
        requires
            old(self).wf(),
        ensures
            final(self).wf(),
            final(self).pool_size == old(self).pool_size,
            final(self).queue_capacity == old(self).queue_capacity,
            final(self).closed == old(self).closed,
            final(self).outcomes == old(self).outcomes,
            match r {
                Option::Some(j) => old(self).queue@.len() > 0 && old(self).active@.len() < old(
                    self,
                ).pool_size && j == old(self).active@.len() && final(self).queue@ == old(
                    self,
                ).queue@.drop_first() && final(self).active@ == old(self).active@.push(
                    old(self).queue@[0],
                ),
                Option::None => (old(self).queue@.len() == 0 || old(self).active@.len() == old(
                    self,
                ).pool_size) && final(self).queue == old(self).queue && final(self).active == old(
                    self,
                ).active,
            },
    {
        if self.queue.len() > 0 && self.active.len() < self.pool_size {
            let entry = self.queue.remove(0);
            let j = self.active.len();
            self.active.push(entry);
            proof {
                assert(self.queue@ =~= old(self).queue@.drop_first());
            }
            Some(j)
        } else {
            None
        }
    }

    /// The entry a worker slot is transferring.
    pub fn active_entry(&self, j: usize) -> (r: &FilesList)
        requires
            j < self.active@.len(),
        ensures
            *r == self.active@[j as int],
    {
        &self.active[j]
    }

    /// A worker finishes its entry, well or badly: the outcome is recorded
    /// against that entry alone, the worker turns idle, and every sibling —
    /// queued or in flight — stands as it was.
    pub fn worker_finish(&mut self, j: usize, outcome: TransferOutcome)
        requires
            old(self).wf(),
            j < old(self).active@.len(),
        ensures
            final(self).wf(),
            final(self).pool_size == old(self).pool_size,
            final(self).queue_capacity == old(self).queue_capacity,
            final(self).closed == old(self).closed,
            final(self).queue == old(self).queue,
            final(self).active@ == old(self).active@.remove(j as int),
            final(self).outcomes@ == old(self).outcomes@.push(
                EntryResult { entry: old(self).active@[j as int], outcome },
            ),
    {
        let entry = self.active.remove(j);
        self.outcomes.push(EntryResult { entry, outcome });
    }

    /// Whether the coordinator has resolved.
    pub fn is_done(&self) -> (r: bool)
        ensures
            r == self.done(),
    {
        self.closed && self.queue.len() == 0 && self.active.len() == 0
    }
}

/// Law: with pool size K, simultaneous in-flight transfers never exceed K —
/// every transition keeps the coordinator well formed, and a well-formed
/// state keeps `in_flight` within the pool bound.
pub proof fn lemma_in_flight_bounded(c: Coordinator)
    requires
        c.wf(),
    ensures
        c.in_flight() <= c.pool_size,
{
}

/// Law: no accepted entry is lost — once the coordinator resolves, every
/// accepted entry has exactly one recorded outcome.
pub proof fn lemma_done_accounts_all(c: Coordinator)
    requires
        c.wf(),
        c.done(),
    ensures
        c.accepted() == c.outcomes@.len(),
{
}

} // verus!
