use vstd::prelude::*;

verus! {

/// Deferred reclamation of one job: at `due` (seconds on the service's
/// clock) the job leaves the registry and the artifact at `path` is deleted.
#[derive(Debug)]
pub struct Cleanup {
    pub due: u64,
    pub job_id: u128,
    pub path: String,
}

impl Cleanup {
    /// A copy of this item.
    pub fn snapshot(&self) -> (r: Cleanup)
        ensures
            r == *self,
    {
        Cleanup { due: self.due, job_id: self.job_id, path: self.path.clone() }
    }
}

/// The items of `s` that are due at `now`, in order.
pub open spec fn due_items(s: Seq<Cleanup>, now: u64) -> Seq<Cleanup>
    decreases s.len(),
{
    if s.len() == 0 {
        seq![]
    } else if s.last().due <= now {
        due_items(s.drop_last(), now).push(s.last())
    } else {
        due_items(s.drop_last(), now)
    }
}

/// The items of `s` that are not yet due at `now`, in order.
pub open spec fn pending_items(s: Seq<Cleanup>, now: u64) -> Seq<Cleanup>
    decreases s.len(),
{
    if s.len() == 0 {
        seq![]
    } else if s.last().due <= now {
        pending_items(s.drop_last(), now)
    } else {
        pending_items(s.drop_last(), now).push(s.last())
    }
}

/// `now + ttl`, or the end of time when that does not fit.
pub open spec fn deadline(now: u64, ttl: u64) -> u64 {
    if now as nat + ttl as nat > u64::MAX {
        u64::MAX
    } else {
        (now + ttl) as u64
    }
}

/// Reclamation work waiting for its time, polled by one sweeper.
#[derive(Debug)]
pub struct CleanupSchedule {
    items: Vec<Cleanup>,
}

impl View for CleanupSchedule {
    type V = Seq<Cleanup>;

    closed spec fn view(&self) -> Seq<Cleanup> {
        self.items@
    }
}

impl CleanupSchedule {
    pub fn new() -> (r: Self)
        ensures
            r@ == Seq::<Cleanup>::empty(),
    {
        CleanupSchedule { items: Vec::new() }
    }

    /// Arms the reclamation of `job_id` and `path` for `ttl` seconds after
    /// `now`.
    pub fn schedule(&mut self, now: u64, ttl: u64, job_id: u128, path: String)
        ensures
            final(self)@ == old(self)@.push(Cleanup { due: deadline(now, ttl), job_id, path }),
    {
        let due = now.saturating_add(ttl);
        self.items.push(Cleanup { due, job_id, path });
    }

    /// Number of items waiting.
    pub fn len(&self) -> (r: usize)
        ensures
            r == self@.len(),
    {
        self.items.len()
    }

    /// Takes out every item due at `now`, in the order they were armed; the
    /// others stay, in order.
    pub fn take_due(&mut self, now: u64) -> (r: Vec<Cleanup>)
        ensures
            r@ == due_items(old(self)@, now),
            final(self)@ == pending_items(old(self)@, now),
    {
        let mut due: Vec<Cleanup> = Vec::new();
        let mut pending: Vec<Cleanup> = Vec::new();
        let mut i: usize = 0;
        while i < self.items.len()
            invariant
                i <= self.items@.len(),
                self.items@ == old(self)@,
                due@ == due_items(self.items@.take(i as int), now),
                pending@ == pending_items(self.items@.take(i as int), now),
            decreases self.items.len() - i,
        {
            let c = self.items[i].snapshot();
            assert(self.items@.take(i + 1).drop_last() == self.items@.take(i as int));
            if c.due <= now {
                due.push(c);
            } else {
                pending.push(c);
            }
            i = i + 1;
        }
        assert(self.items@.take(i as int) == old(self)@);
        self.items = pending;
        due
    }
}

} // verus!
