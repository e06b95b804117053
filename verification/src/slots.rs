//! Fixed-capacity observation permits with exact age accounting.
//!
//! One permit is held from admission through delivery, so queued, active, and
//! completed observations together never exceed the capacity. Each permit
//! remembers its reservation time (monotonic microseconds), and the oldest
//! outstanding age spans exactly the live permits.

use crate::observation::ObservationError;
use vstd::prelude::*;

verus! {

/// Whole microseconds of a duration given as whole seconds plus its
/// sub-second microseconds, saturating at `u64::MAX`.
pub open spec fn spec_duration_micros(secs: u64, subsec_micros: u32) -> u64 {
    let total = secs as nat * 1_000_000 + subsec_micros as nat;
    if total > u64::MAX {
        u64::MAX
    } else {
        total as u64
    }
}

/// Returns the whole microseconds of a duration, saturating at `u64::MAX`.
pub fn duration_micros(secs: u64, subsec_micros: u32) -> (micros: u64)
    ensures
        micros == spec_duration_micros(secs, subsec_micros),
{
    if secs > (u64::MAX - subsec_micros as u64) / 1_000_000 {
        assert(secs * 1_000_000 + subsec_micros > u64::MAX) by (nonlinear_arith)
            requires
                secs > (u64::MAX - subsec_micros as u64) / 1_000_000,
                subsec_micros <= u32::MAX,
        ;
        u64::MAX
    } else {
        assert(secs * 1_000_000 + subsec_micros <= u64::MAX) by (nonlinear_arith)
            requires
                secs <= (u64::MAX - subsec_micros as u64) / 1_000_000,
                subsec_micros <= u32::MAX,
        ;
        secs * 1_000_000 + subsec_micros as u64
    }
}

/// Microseconds elapsed from `started_at` to `sampled_at`, zero if the
/// sample precedes the start.
pub open spec fn spec_elapsed_micros(sampled_at: u64, started_at: u64) -> u64 {
    if sampled_at >= started_at {
        (sampled_at - started_at) as u64
    } else {
        0
    }
}

/// Returns the microseconds elapsed between two monotonic timestamps.
pub fn elapsed_micros(sampled_at: u64, started_at: u64) -> (elapsed: u64)
    ensures
        elapsed == spec_elapsed_micros(sampled_at, started_at),
{
    if sampled_at >= started_at {
        sampled_at - started_at
    } else {
        0
    }
}

/// One outstanding observation permit.
pub struct ObservationPermit {
    id: u64,
}

impl ObservationPermit {
    /// The permit's identity.
    pub closed spec fn id(&self) -> u64 {
        self.id
    }
}

/// The earliest reservation time among `pending` (identity, time) records.
pub open spec fn min_reserved_at(pending: Seq<(u64, u64)>) -> u64
    decreases pending.len(),
{
    if pending.len() <= 1 {
        pending[0].1
    } else {
        let rest = min_reserved_at(pending.drop_last());
        if pending.last().1 < rest {
            pending.last().1
        } else {
            rest
        }
    }
}

/// Fixed-capacity permit accounting for outstanding observations.
pub struct ObservationSlots {
    capacity: u32,
    pending: Vec<(u64, u64)>,
    next_id: u64,
}

impl ObservationSlots {
    /// Fixed capacity.
    pub closed spec fn capacity_spec(&self) -> u32 {
        self.capacity
    }

    /// Live permits as (identity, reservation time), in reservation order
    /// except where releases reordered them.
    pub closed spec fn pending(&self) -> Seq<(u64, u64)> {
        self.pending@
    }

    /// Permits issued so far.
    pub closed spec fn issued(&self) -> u64 {
        self.next_id
    }

    /// The permit is live here.
    pub open spec fn holds(&self, permit: &ObservationPermit) -> bool {
        exists|i: int| 0 <= i < self.pending().len() && self.pending()[i].0 == permit.id()
    }

    /// Live permits within capacity, with distinct identities.
    pub closed spec fn wf(&self) -> bool {
        &&& self.pending@.len() <= self.capacity
        &&& forall|i: int, j: int|
            0 <= i < j < self.pending@.len() ==> #[trigger] self.pending@[i].0
                != #[trigger] self.pending@[j].0
        &&& forall|i: int| 0 <= i < self.pending@.len() ==> #[trigger] self.pending@[i].0 < self.next_id
    }

    /// Creates slots with no live permit.
    pub fn new(capacity: u32) -> (slots: Self)
        ensures
            slots.wf(),
            slots.capacity_spec() == capacity,
            slots.pending().len() == 0,
            slots.issued() == 0,
    {
        ObservationSlots { capacity, pending: Vec::new(), next_id: 0 }
    }

    /// Returns the fixed capacity.
    pub fn capacity(&self) -> (capacity: u32)
        ensures
            capacity == self.capacity_spec(),
    {
        self.capacity
    }

    /// Returns the number of live permits.
    pub fn in_use(&self) -> (in_use: u32)
        requires
            self.wf(),
        ensures
            in_use == self.pending().len(),
    {
        self.pending.len() as u32
    }

    /// Reserves one permit at `reserved_at_micros` unless every slot is taken.
    ///
    /// A permit also cannot be issued once `u64::MAX` permits were issued.
    pub fn try_acquire_at(&mut self, reserved_at_micros: u64) -> (permit: Option<ObservationPermit>)
        requires
            old(self).wf(),
        ensures
            final(self).wf(),
            final(self).capacity_spec() == old(self).capacity_spec(),
            old(self).pending().len() >= old(self).capacity_spec() ==> permit is None,
            permit is None ==> final(self).pending() == old(self).pending(),
            permit matches Some(p) ==> {
                &&& !old(self).holds(&p)
                &&& final(self).pending() == old(self).pending().push((p.id(), reserved_at_micros))
            },
            old(self).pending().len() < old(self).capacity_spec() && old(self).issued() < u64::MAX
                ==> permit is Some,
            permit is None ==> final(self).issued() == old(self).issued(),
            permit is Some ==> final(self).issued() == old(self).issued() + 1,
    {
        if self.pending.len() as u64 >= self.capacity as u64 || self.next_id == u64::MAX {
            return None;
        }
        let id = self.next_id;
        self.pending.push((id, reserved_at_micros));
        self.next_id = id + 1;
        Some(ObservationPermit { id })
    }

    /// Reserves one permit at `reserved_at_micros`, or reports the capacity
    /// that every live permit already fills.
    pub fn try_reserve_at(&mut self, reserved_at_micros: u64) -> (permit: Result<
        ObservationPermit,
        ObservationError,
    >)
        requires
            old(self).wf(),
        ensures
            final(self).wf(),
            final(self).capacity_spec() == old(self).capacity_spec(),
            permit is Err ==> {
                &&& permit == Err::<ObservationPermit, ObservationError>(
                    ObservationError::CapacityExceeded { capacity: old(self).capacity_spec() },
                )
                &&& final(self).pending() == old(self).pending()
            },
            permit matches Ok(p) ==> {
                &&& !old(self).holds(&p)
                &&& final(self).pending() == old(self).pending().push((p.id(), reserved_at_micros))
            },
            old(self).pending().len() >= old(self).capacity_spec() ==> permit is Err,
            old(self).pending().len() < old(self).capacity_spec() && old(self).issued() < u64::MAX
                ==> permit is Ok,
            permit is Err ==> final(self).issued() == old(self).issued(),
            permit is Ok ==> final(self).issued() == old(self).issued() + 1,
    {
        match self.try_acquire_at(reserved_at_micros) {
            Some(permit) => Ok(permit),
            None => Err(ObservationError::CapacityExceeded { capacity: self.capacity }),
        }
    }

    /// Releases one live permit; its slot and its age record end together.
    pub fn release(&mut self, permit: ObservationPermit)
        requires
            old(self).wf(),
            old(self).holds(&permit),
        ensures
            final(self).wf(),
            final(self).capacity_spec() == old(self).capacity_spec(),
            final(self).pending().len() == old(self).pending().len() - 1,
            final(self).issued() == old(self).issued(),
            !final(self).holds(&permit),
            exists|k: int|
                0 <= k < old(self).pending().len() && old(self).pending()[k].0 == permit.id()
                    && final(self).pending() == old(self).pending().update(
                    k,
                    old(self).pending().last(),
                ).drop_last(),
    {
        let mut i: usize = 0;
        let len = self.pending.len();
        while self.pending[i].0 != permit.id
            invariant
                len == self.pending@.len(),
                i < len,
                self.pending@ == old(self).pending@,
                forall|j: int| 0 <= j < i ==> self.pending@[j].0 != permit.id,
                exists|k: int| i <= k < self.pending@.len() && self.pending@[k].0 == permit.id,
            decreases self.pending@.len() - i,
        {
            i = i + 1;
        }
        let ghost before = self.pending@;
        self.pending.swap_remove(i);
        proof {
            assert forall|a: int, b: int|
                0 <= a < b < self.pending@.len() implies #[trigger] self.pending@[a].0
                != #[trigger] self.pending@[b].0 by {
                let ia = if a == i as int { before.len() - 1 } else { a };
                let ib = if b == i as int { before.len() - 1 } else { b };
                assert(self.pending@[a] == before[ia]);
                assert(self.pending@[b] == before[ib]);
            }
            assert forall|a: int| 0 <= a < self.pending@.len() implies #[trigger] self.pending@[a].0
                < self.next_id by {
                let ia = if a == i as int { before.len() - 1 } else { a };
                assert(self.pending@[a] == before[ia]);
            }
            if self.holds(&permit) {
                let a = choose|a: int| 0 <= a < self.pending@.len() && self.pending@[a].0 == permit.id;
                let ia = if a == i as int { before.len() - 1 } else { a };
                assert(self.pending@[a] == before[ia]);
            }
        }
    }

    /// Returns the number of live permits and, when any is live, the age of
    /// the oldest at `sampled_at_micros`.
    pub fn status_at(&self, sampled_at_micros: u64) -> (status: (u32, Option<u64>))
        requires
            self.wf(),
        ensures
            status.0 == self.pending().len(),
            self.pending().len() == 0 ==> status.1 is None,
            self.pending().len() > 0 ==> status.1 == Some(
                spec_elapsed_micros(sampled_at_micros, min_reserved_at(self.pending())),
            ),
    {
        let in_use = self.pending.len() as u32;
        if self.pending.len() == 0 {
            return (in_use, None);
        }
        let mut oldest = self.pending[0].1;
        let mut i: usize = 1;
        while i < self.pending.len()
            invariant
                1 <= i <= self.pending@.len(),
                oldest == min_reserved_at(self.pending@.subrange(0, i as int)),
            decreases self.pending@.len() - i,
        {
            let ghost prefix = self.pending@.subrange(0, i + 1);
            assert(prefix.drop_last() =~= self.pending@.subrange(0, i as int));
            if self.pending[i].1 < oldest {
                oldest = self.pending[i].1;
            }
            i = i + 1;
        }
        assert(self.pending@.subrange(0, self.pending@.len() as int) =~= self.pending@);
        (in_use, Some(elapsed_micros(sampled_at_micros, oldest)))
    }

    /// Returns the age of the oldest live permit at `sampled_at_micros`.
    pub fn oldest_age_micros_at(&self, sampled_at_micros: u64) -> (age: Option<u64>)
        requires
            self.wf(),
        ensures
            self.pending().len() == 0 ==> age is None,
            self.pending().len() > 0 ==> age == Some(
                spec_elapsed_micros(sampled_at_micros, min_reserved_at(self.pending())),
            ),
    {
        self.status_at(sampled_at_micros).1
    }
}


/// Releasing a permit right after acquiring it restores exactly the previous
/// live permits, and with them the previous count and oldest age: given the
/// live permits before the acquisition (the new identity not among them) and
/// the position the release found the new permit at, the swap-remove of that
/// position from the grown sequence is the sequence before it grew.
pub proof fn lemma_release_undoes_acquire(pending: Seq<(u64, u64)>, id: u64, reserved_at: u64, k: int)
    requires
        forall|i: int| 0 <= i < pending.len() ==> pending[i].0 != id,
        0 <= k < pending.len() + 1,
        pending.push((id, reserved_at))[k].0 == id,
    ensures
        pending.push((id, reserved_at)).update(k, pending.push((id, reserved_at)).last()).drop_last()
            == pending,
{
    let grown = pending.push((id, reserved_at));
    if k < pending.len() {
        assert(grown[k] == pending[k]);
    }
    assert(k == pending.len());
    assert(grown.update(k, grown.last()) =~= grown);
    assert(grown.drop_last() =~= pending);
}

} // verus!
