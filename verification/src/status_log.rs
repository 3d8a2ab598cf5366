//! Fixed-capacity ring buffer of reachability transitions.
//!
//! The log is the monitor's only persisted state: the engine appends a
//! `StatusChange` whenever the classification flips, and the front door
//! snapshots it to render the log dump. When full, each append evicts the
//! chronologically oldest entry.

use vstd::prelude::*;

verus! {

/// Number of entries the log holds before evicting the oldest.
pub const LOG_SIZE: usize = 64;

/// A single reachability transition: the new classification and the
/// epoch-seconds timestamp at which it was observed.
#[derive(Clone, Copy, Debug, PartialEq, Eq, Structural)]
pub struct StatusChange {
    pub up: bool,
    pub time: u64,
}

/// Physical slot of the `i`-th oldest entry in a ring whose write cursor is
/// `head` and which holds `count` entries. The mapping from logical
/// (chronological) index to physical index stays inside this module.
spec fn ring_slot(head: int, count: int, i: int) -> int {
    let off = head + LOG_SIZE - count + i;
    if off >= LOG_SIZE {
        off - LOG_SIZE
    } else {
        off
    }
}

/// What one append does to the chronological contents: grow while below
/// capacity, otherwise drop the oldest entry to make room.
pub open spec fn pushed(s: Seq<StatusChange>, e: StatusChange) -> Seq<StatusChange> {
    if s.len() < LOG_SIZE {
        s.push(e)
    } else {
        s.skip(1).push(e)
    }
}

/// The contents of a fresh log after the given entries were pushed in order.
pub open spec fn log_of(entries: Seq<StatusChange>) -> Seq<StatusChange>
    decreases entries.len(),
{
    if entries.len() == 0 {
        Seq::empty()
    } else {
        pushed(log_of(entries.drop_last()), entries.last())
    }
}

/// Fixed-capacity ring of status changes. The view is the chronological
/// sequence of stored entries, oldest first.
pub struct StatusLog {
    buf: Vec<StatusChange>,
    head: usize,
    count: usize,
}

impl View for StatusLog {
    type V = Seq<StatusChange>;

    closed spec fn view(&self) -> Seq<StatusChange> {
        Seq::new(
            self.count as nat,
            |i: int| self.buf@[ring_slot(self.head as int, self.count as int, i)],
        )
    }
}

impl StatusLog {
    #[verifier::type_invariant]
    closed spec fn wf(self) -> bool {
        &&& self.buf@.len() == LOG_SIZE
        &&& self.head < LOG_SIZE
        &&& self.count <= LOG_SIZE
    }

    /// An empty log.
    pub fn new() -> (log: StatusLog)
        ensures
            log@ == Seq::<StatusChange>::empty(),
    {
        let mut buf: Vec<StatusChange> = Vec::new();
        while buf.len() < LOG_SIZE
            invariant
                buf@.len() <= LOG_SIZE,
            decreases LOG_SIZE - buf@.len(),
        {
            buf.push(StatusChange { up: false, time: 0 });
        }
        let log = StatusLog { buf, head: 0, count: 0 };
        proof {
            assert(log@ =~= Seq::<StatusChange>::empty());
        }
        log
    }

    /// Append-with-eviction: always succeeds, and when the log is full the
    /// oldest entry is dropped.
    pub fn push(&mut self, entry: StatusChange)
        ensures
            final(self)@ == pushed(old(self)@, entry),
    {
        proof {
            use_type_invariant(&*self);
        }
        let head = self.head;
        self.buf[head] = entry;
        self.head = if head + 1 == LOG_SIZE {
            0
        } else {
            head + 1
        };
        if self.count < LOG_SIZE {
            self.count = self.count + 1;
        }
        proof {
            assert(self@ =~= pushed(old(self)@, entry));
        }
    }

    /// Snapshot of the contents in chronological (insertion) order, oldest
    /// first, regardless of where the write cursor stands.
    pub fn iter(&self) -> (entries: Vec<StatusChange>)
        ensures
            entries@ == self@,
    {
        proof {
            use_type_invariant(self);
        }
        let mut entries: Vec<StatusChange> = Vec::new();
        let mut i: usize = 0;
        while i < self.count
            invariant
                self.wf(),
                i <= self.count,
                entries@ == self@.subrange(0, i as int),
            decreases self.count - i,
        {
            let off = self.head + LOG_SIZE - self.count + i;
            let idx = if off >= LOG_SIZE {
                off - LOG_SIZE
            } else {
                off
            };
            entries.push(self.buf[idx]);
            proof {
                assert(self@.subrange(0, i + 1 as int) =~= self@.subrange(0, i as int).push(
                    self@[i as int],
                ));
            }
            i = i + 1;
        }
        proof {
            assert(self@.subrange(0, self.count as int) =~= self@);
        }
        entries
    }
}

/// Bounded retention: after any sequence of pushes into a fresh log, the log
/// holds exactly the newest `min(N, LOG_SIZE)` entries in insertion order;
/// the oldest `N - LOG_SIZE` entries, if any, are gone.
pub proof fn lemma_log_of_keeps_newest(entries: Seq<StatusChange>)
    ensures
        entries.len() <= LOG_SIZE ==> log_of(entries) == entries,
        entries.len() > LOG_SIZE ==> log_of(entries) == entries.skip(
            entries.len() - LOG_SIZE,
        ),
    decreases entries.len(),
{
    if entries.len() == 0 {
        assert(log_of(entries) =~= entries);
    } else {
        let prefix = entries.drop_last();
        lemma_log_of_keeps_newest(prefix);
        if entries.len() <= LOG_SIZE {
            assert(log_of(entries) =~= entries);
        } else if entries.len() == LOG_SIZE + 1 {
            assert(log_of(entries) =~= entries.skip(1));
        } else {
            assert(log_of(entries) =~= entries.skip(entries.len() - LOG_SIZE));
        }
    }
}

/// Entry times are non-decreasing, oldest first.
pub open spec fn times_non_decreasing(s: Seq<StatusChange>) -> bool {
    forall|i: int| 0 <= i < s.len() - 1 ==> #[trigger] s[i].time <= s[i + 1].time
}

/// The writer only ever appends: pushing an entry no older than the newest
/// one keeps the log in non-decreasing time order, eviction included.
pub proof fn lemma_push_keeps_time_order(s: Seq<StatusChange>, e: StatusChange)
    requires
        s.len() <= LOG_SIZE,
        times_non_decreasing(s),
        s.len() > 0 ==> s.last().time <= e.time,
    ensures
        times_non_decreasing(pushed(s, e)),
{
    let t = pushed(s, e);
    assert forall|i: int| 0 <= i < t.len() - 1 implies #[trigger] t[i].time <= t[i + 1].time by {
        if s.len() < LOG_SIZE {
            if i + 1 < s.len() {
                assert(s[i].time <= s[i + 1].time);
            }
        } else {
            if i + 1 < t.len() - 1 {
                assert(s[i + 1].time <= s[i + 2].time);
            }
        }
    }
}

/// The log itself never deduplicates: pushing the same entry twice in a row
/// always yields two stored copies (collapsing repeats is the engine's job,
/// not the log's).
pub proof fn lemma_push_no_dedup(s: Seq<StatusChange>, e: StatusChange)
    requires
        s.len() <= LOG_SIZE,
    ensures
        pushed(pushed(s, e), e).len() == if s.len() + 2 <= LOG_SIZE {
            s.len() + 2
        } else {
            LOG_SIZE as nat
        },
        pushed(pushed(s, e), e).last() == e,
        pushed(pushed(s, e), e)[pushed(pushed(s, e), e).len() - 2] == e,
{
}

} // verus!
