//! Main-context periodic timers.
//!
//! Timers are registered and unregistered only from the main context; the
//! table is never touched by the audio context. Each entry pairs a fresh
//! opaque identifier with its period and the time accumulated since it last
//! fired, all in milliseconds. A scheduler pass advances every entry by the
//! time elapsed since the previous pass and reports which timers became due;
//! the remainder past the period is preserved on reset, so firing does not
//! drift. The minimum remaining time-to-fire bounds the event loop's wait.

use vstd::prelude::*;

use crate::id::ClapId;

verus! {

/// Failures of timer registration: a zero period is rejected, and so is
/// registration once the identifier allocator is exhausted. An unregistration
/// of an identifier that is not in the table is reported with `UnknownTimer`.
#[derive(Copy, Clone, Debug, PartialEq, Eq, Structural)]
pub enum TimerError {
    InvalidPeriod,
    Capacity,
    UnknownTimer,
}

/// One registered timer: its identifier, its period, and the time
/// accumulated towards the next firing.
#[derive(Copy, Clone, Debug, PartialEq, Eq, Structural)]
pub struct TimerEntry {
    pub id: ClapId,
    pub period_ms: u32,
    pub elapsed_ms: u64,
}

/// Addition on accumulated milliseconds, saturating at the top of the
/// representable range.
pub open spec fn sat_add(a: u64, b: u64) -> u64 {
    if a + b > u64::MAX {
        u64::MAX
    } else {
        (a + b) as u64
    }
}

/// Whether an entry becomes due when advanced by `delta_ms`.
pub open spec fn fires(e: TimerEntry, delta_ms: u64) -> bool {
    sat_add(e.elapsed_ms, delta_ms) >= e.period_ms as u64
}

/// The entry after one scheduler pass of `delta_ms`: the accumulator
/// advances, and a due entry resets by subtracting its period once, keeping
/// the remainder so firings do not drift.
pub open spec fn ticked(e: TimerEntry, delta_ms: u64) -> TimerEntry {
    let advanced = sat_add(e.elapsed_ms, delta_ms);
    TimerEntry {
        id: e.id,
        period_ms: e.period_ms,
        elapsed_ms: if advanced >= e.period_ms as u64 {
            (advanced - e.period_ms as u64) as u64
        } else {
            advanced
        },
    }
}

/// The identifiers of the entries that become due when advanced by
/// `delta_ms`, in table order.
pub open spec fn fired_ids(entries: Seq<TimerEntry>, delta_ms: u64) -> Seq<ClapId>
    decreases entries.len(),
{
    if entries.len() == 0 {
        Seq::empty()
    } else {
        let rest = fired_ids(entries.drop_last(), delta_ms);
        if fires(entries.last(), delta_ms) {
            rest.push(entries.last().id)
        } else {
            rest
        }
    }
}

/// Whether some entry of the table carries `id`.
pub open spec fn has_id(entries: Seq<TimerEntry>, id: ClapId) -> bool {
    exists|i: int| 0 <= i < entries.len() && entries[i].id == id
}

/// The time until `e` next fires: zero once the accumulator has reached the
/// period.
pub open spec fn remaining_ms(e: TimerEntry) -> u64 {
    if e.elapsed_ms >= e.period_ms as u64 {
        0u64
    } else {
        (e.period_ms as u64 - e.elapsed_ms) as u64
    }
}

/// Well-formedness of a timer table: identifiers are unique, no period is
/// zero, and every identifier was drawn below the allocator's next raw
/// value, so freshly allocated identifiers never collide.
pub open spec fn entries_wf(entries: Seq<TimerEntry>, next_raw: u32) -> bool {
    &&& forall|i: int, j: int|
        0 <= i < j < entries.len() ==> entries[i].id != entries[j].id
    &&& forall|i: int| 0 <= i < entries.len() ==> entries[i].period_ms > 0
    &&& forall|i: int| 0 <= i < entries.len() ==> entries[i].id.raw() < next_raw
}

/// An identifier carried by no entry of a table is never reported as due:
/// a scheduler pass fires only identifiers that are registered.
pub proof fn lemma_unknown_id_never_fires(entries: Seq<TimerEntry>, delta_ms: u64, id: ClapId)
    requires
        !has_id(entries, id),
    ensures
        !fired_ids(entries, delta_ms).contains(id),
    decreases entries.len(),
{
    if entries.len() > 0 {
        let prefix = entries.drop_last();
        assert forall|i: int| 0 <= i < prefix.len() implies prefix[i].id != id by {
            assert(entries[i].id != id);
        }
        lemma_unknown_id_never_fires(prefix, delta_ms, id);
        let rest = fired_ids(prefix, delta_ms);
        let all = fired_ids(entries, delta_ms);
        assert(entries[entries.len() - 1].id != id);
        if fires(entries.last(), delta_ms) {
            assert forall|i: int| 0 <= i < all.len() implies all[i] != id by {
                if i < rest.len() {
                    assert(!rest.contains(id));
                    assert(rest[i] == all[i]);
                }
            }
        }
    }
}

/// With unique identifiers, one scheduler pass fires each timer at most
/// once: the reported identifiers carry no duplicates, however much time
/// elapsed. A backlog larger than one period is drained one firing per
/// pass, the remainder staying in the accumulator.
pub proof fn lemma_each_timer_fires_at_most_once(entries: Seq<TimerEntry>, delta_ms: u64)
    requires
        forall|i: int, j: int| 0 <= i < j < entries.len() ==> entries[i].id != entries[j].id,
    ensures
        forall|i: int, j: int|
            0 <= i < j < fired_ids(entries, delta_ms).len() ==> fired_ids(entries, delta_ms)[i]
                != fired_ids(entries, delta_ms)[j],
    decreases entries.len(),
{
    if entries.len() > 0 {
        let prefix = entries.drop_last();
        lemma_each_timer_fires_at_most_once(prefix, delta_ms);
        let last_id = entries.last().id;
        assert forall|i: int| 0 <= i < prefix.len() implies prefix[i].id != last_id by {
            assert(entries[i].id != entries[entries.len() - 1].id);
        }
        lemma_unknown_id_never_fires(prefix, delta_ms, last_id);
        let rest = fired_ids(prefix, delta_ms);
        let all = fired_ids(entries, delta_ms);
        if fires(entries.last(), delta_ms) {
            assert forall|i: int, j: int| 0 <= i < j < all.len() implies all[i] != all[j] by {
                if j < rest.len() {
                    assert(all[i] == rest[i] && all[j] == rest[j]);
                } else {
                    assert(all[j] == last_id);
                    assert(all[i] == rest[i]);
                    assert(!rest.contains(last_id));
                }
            }
        }
    }
}

/// The main context's timer table, together with the allocator that draws
/// fresh identifiers for it.
pub struct Timers {
    entries: Vec<TimerEntry>,
    next_raw: u32,
}

impl View for Timers {
    type V = Seq<TimerEntry>;

    closed spec fn view(&self) -> Seq<TimerEntry> {
        self.entries@
    }
}

impl Timers {
    /// The raw wire value the allocator will bias into the next fresh
    /// identifier.
    pub closed spec fn spec_next_raw(self) -> u32 {
        self.next_raw
    }

    /// Validity of the table and its allocator.
    pub open spec fn wf(self) -> bool {
        entries_wf(self@, self.spec_next_raw())
    }

    /// An empty timer table.
    pub fn new() -> (r: Timers)
        ensures
            r.wf(),
            r@ == Seq::<TimerEntry>::empty(),
            r.spec_next_raw() == 0,
    {
        Timers { entries: Vec::new(), next_raw: 0 }
    }

    /// Registers a periodic timer: a fresh identifier is allocated and an
    /// entry with zero accumulated time is appended. A zero period is an
    /// invalid argument; an exhausted identifier allocator is a capacity
    /// failure. Neither failure changes the table.
    pub fn register(&mut self, period_ms: u32) -> (r: Result<ClapId, TimerError>)
        requires
            old(self).wf(),
        ensures
            final(self).wf(),
            period_ms == 0 ==> r == Err::<ClapId, TimerError>(TimerError::InvalidPeriod)
                && *final(self) == *old(self),
            period_ms > 0 && old(self).spec_next_raw() == u32::MAX ==> r == Err::<
                ClapId,
                TimerError,
            >(TimerError::Capacity) && *final(self) == *old(self),
            period_ms > 0 && old(self).spec_next_raw() < u32::MAX ==> (r matches Ok(id) && {
                &&& id.raw() == old(self).spec_next_raw()
                &&& !has_id(old(self)@, id)
                &&& final(self)@ == old(self)@.push(
                    TimerEntry { id, period_ms, elapsed_ms: 0 },
                )
                &&& final(self).spec_next_raw() == old(self).spec_next_raw() + 1
            }),
    {
        if period_ms == 0 {
            return Err(TimerError::InvalidPeriod);
        }
        if self.next_raw == u32::MAX {
            return Err(TimerError::Capacity);
        }
        let id = match ClapId::new(self.next_raw) {
            Some(id) => id,
            None => {
                return Err(TimerError::Capacity);
            },
        };
        self.next_raw = self.next_raw + 1;
        self.entries.push(TimerEntry { id, period_ms, elapsed_ms: 0 });
        proof {
            assert forall|i: int| 0 <= i < old(self)@.len() implies old(self)@[i].id != id by {
                assert(old(self)@[i].id.raw() < id.raw());
            }
        }
        Ok(id)
    }

    /// Unregisters a timer by identifier: reports whether it was present,
    /// and removes it if so. An unknown identifier is a soft signal — the
    /// table is left unchanged. A removed identifier is gone: no entry
    /// carries it afterwards, so later scheduler passes never fire it.
    pub fn unregister(&mut self, id: ClapId) -> (r: bool)
        requires
            old(self).wf(),
        ensures
            final(self).wf(),
            final(self).spec_next_raw() == old(self).spec_next_raw(),
            r == has_id(old(self)@, id),
            !r ==> *final(self) == *old(self),
            r ==> exists|i: int|
                0 <= i < old(self)@.len() && old(self)@[i].id == id && final(self)@ == old(
                    self,
                )@.remove(i),
            !has_id(final(self)@, id),
    {
        let mut i: usize = 0;
        while i < self.entries.len()
            invariant
                *self == *old(self),
                old(self).wf(),
                0 <= i <= self@.len(),
                forall|j: int| 0 <= j < i ==> self@[j].id != id,
            decreases self@.len() - i,
        {
            if self.entries[i].id == id {
                self.entries.remove(i);
                proof {
                    let s0 = old(self)@;
                    let s1 = self@;
                    assert(s1 == s0.remove(i as int));
                    assert forall|a: int| 0 <= a < s1.len() implies s1[a]
                        == (if a < i { s0[a] } else { s0[a + 1] }) by {}
                    assert forall|a: int, b: int| 0 <= a < b < s1.len() implies s1[a].id
                        != s1[b].id by {}
                    assert forall|a: int| 0 <= a < s1.len() implies s1[a].id != id by {}
                }
                return true;
            }
            i += 1;
        }
        false
    }

    /// One scheduler pass: every entry's accumulator advances by `delta_ms`
    /// (saturating at the top of the range), each entry that reached its
    /// period resets by subtracting the period once, and the identifiers of
    /// the entries that became due are returned in table order.
    pub fn tick_all(&mut self, delta_ms: u64) -> (r: Vec<ClapId>)
        requires
            old(self).wf(),
        ensures
            final(self).wf(),
            final(self).spec_next_raw() == old(self).spec_next_raw(),
            final(self)@.len() == old(self)@.len(),
            forall|i: int|
                0 <= i < old(self)@.len() ==> final(self)@[i] == ticked(old(self)@[i], delta_ms),
            r@ == fired_ids(old(self)@, delta_ms),
    {
        let mut new_entries: Vec<TimerEntry> = Vec::new();
        let mut fired: Vec<ClapId> = Vec::new();
        let mut i: usize = 0;
        while i < self.entries.len()
            invariant
                *self == *old(self),
                old(self).wf(),
                0 <= i <= self@.len(),
                new_entries@.len() == i,
                forall|j: int| 0 <= j < i ==> new_entries@[j] == ticked(self@[j], delta_ms),
                fired@ == fired_ids(self@.take(i as int), delta_ms),
            decreases self@.len() - i,
        {
            let e = self.entries[i];
            let advanced: u64 = if e.elapsed_ms > u64::MAX - delta_ms {
                u64::MAX
            } else {
                e.elapsed_ms + delta_ms
            };
            let due = advanced >= e.period_ms as u64;
            let new_elapsed: u64 = if due {
                advanced - e.period_ms as u64
            } else {
                advanced
            };
            new_entries.push(TimerEntry { id: e.id, period_ms: e.period_ms, elapsed_ms: new_elapsed });
            if due {
                fired.push(e.id);
            }
            proof {
                assert(self@.take(i + 1).drop_last() =~= self@.take(i as int));
                assert(self@.take(i + 1).last() == self@[i as int]);
            }
            i += 1;
        }
        proof {
            assert(self@.take(self@.len() as int) =~= self@);
        }
        self.entries = new_entries;
        proof {
            let s0 = old(self)@;
            let s1 = self@;
            assert forall|a: int, b: int| 0 <= a < b < s1.len() implies s1[a].id != s1[b].id by {
                assert(s1[a].id == s0[a].id);
                assert(s1[b].id == s0[b].id);
            }
            assert forall|a: int| 0 <= a < s1.len() implies s1[a].period_ms > 0
                && s1[a].id.raw() < self.spec_next_raw() by {
                assert(s1[a].id == s0[a].id);
                assert(s1[a].period_ms == s0[a].period_ms);
            }
        }
        fired
    }

    /// The minimum remaining time-to-fire over the whole table, used to
    /// bound the event loop's wait; absent when no timer is registered, so
    /// the caller can fall back to a default poll interval.
    pub fn smallest_duration(&self) -> (r: Option<u64>)
        ensures
            r is None <==> self@.len() == 0,
            r matches Some(m) ==> (exists|i: int|
                0 <= i < self@.len() && m == remaining_ms(self@[i])) && (forall|i: int|
                0 <= i < self@.len() ==> m <= remaining_ms(self@[i])),
    {
        if self.entries.len() == 0 {
            return None;
        }
        let first = self.entries[0];
        let mut best: u64 = if first.elapsed_ms >= first.period_ms as u64 {
            0
        } else {
            first.period_ms as u64 - first.elapsed_ms
        };
        proof {
            assert(best == remaining_ms(self@[0]));
        }
        let mut i: usize = 1;
        while i < self.entries.len()
            invariant
                self@.len() > 0,
                1 <= i <= self@.len(),
                exists|j: int| 0 <= j < i && best == remaining_ms(self@[j]),
                forall|j: int| 0 <= j < i ==> best <= remaining_ms(self@[j]),
            decreases self@.len() - i,
        {
            let e = self.entries[i];
            let rem: u64 = if e.elapsed_ms >= e.period_ms as u64 {
                0
            } else {
                e.period_ms as u64 - e.elapsed_ms
            };
            if rem < best {
                best = rem;
            }
            i += 1;
        }
        Some(best)
    }
}

} // verus!
