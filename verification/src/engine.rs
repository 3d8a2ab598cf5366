//! The monitoring engine's decision core.
//!
//! The engine paces probes on a fixed cadence, keeps a small pipeline of
//! probes in flight, and records a `StatusChange` only when a probe outcome
//! differs from the last recorded status. Scheduling and probe I/O live with
//! the runtime; the debounce rule itself is here, as a function from the
//! engine's state and one observed outcome to the log update.

use vstd::prelude::*;
use crate::status_log::{pushed, StatusChange, StatusLog};

verus! {

/// Seconds between timer ticks; one new probe is launched per tick.
pub const TICK_SECS: u64 = 15;

/// Maximum number of probes concurrently in flight after warm-up.
pub const PIPELINE_DEPTH: usize = 2;

/// The engine's persistent decision state: the last recorded classification,
/// unset until the first probe completes so that the first outcome is always
/// recorded.
pub struct Engine {
    pub last_up: Option<bool>,
}

impl Engine {
    /// A fresh engine that has recorded nothing yet.
    pub fn new() -> (engine: Engine)
        ensures
            engine.last_up is None,
    {
        Engine { last_up: None }
    }

    /// Debounce rule: feed one probe outcome, observed at `time`, into the
    /// engine. The outcome is appended to the log exactly when it differs
    /// from the last recorded status (the very first outcome always does);
    /// steady-state repeats leave the log untouched.
    pub fn observe(&mut self, up: bool, time: u64, log: &mut StatusLog) -> (recorded: bool)
        ensures
            recorded == (old(self).last_up != Some(up)),
            final(self).last_up == Some(up),
            recorded ==> final(log)@ == pushed(old(log)@, StatusChange { up, time }),
            !recorded ==> final(log)@ == old(log)@,
    {
        let changed = match self.last_up {
            Some(prev) => prev != up,
            None => true,
        };
        if changed {
            log.push(StatusChange { up, time });
            self.last_up = Some(up);
        }
        changed
    }
}

/// No two consecutive log entries carry the same classification.
pub open spec fn alternating(s: Seq<StatusChange>) -> bool {
    forall|i: int| 0 <= i < s.len() - 1 ==> #[trigger] s[i].up != s[i + 1].up
}

/// The engine's state agrees with the log it writes: nothing recorded means
/// an empty log, and a recorded status is the newest entry's.
pub open spec fn consistent(last_up: Option<bool>, s: Seq<StatusChange>) -> bool {
    match last_up {
        None => s.len() == 0,
        Some(b) => s.len() > 0 && s.last().up == b,
    }
}

/// Debounce keeps the log free of steady-state repeats: when the engine
/// records an outcome (so it differs from the last recorded status), the log
/// still never holds two consecutive entries with the same classification,
/// and the engine's new state again agrees with the log. Together with
/// `Engine::observe`, which appends exactly under that condition, this is
/// the writer-enforced dedup invariant of the log's contents.
pub proof fn lemma_debounce_keeps_alternation(
    s: Seq<StatusChange>,
    last_up: Option<bool>,
    up: bool,
    time: u64,
)
    requires
        s.len() <= crate::status_log::LOG_SIZE,
        alternating(s),
        consistent(last_up, s),
        last_up != Some(up),
    ensures
        alternating(pushed(s, StatusChange { up, time })),
        consistent(Some(up), pushed(s, StatusChange { up, time })),
{
    let e = StatusChange { up, time };
    let t = pushed(s, e);
    assert forall|i: int| 0 <= i < t.len() - 1 implies #[trigger] t[i].up != t[i + 1].up by {
        if s.len() < crate::status_log::LOG_SIZE {
            if i + 1 < s.len() {
                assert(s[i].up != s[i + 1].up);
            }
        } else {
            if i + 1 < t.len() - 1 {
                assert(s[i + 1].up != s[i + 2].up);
            }
        }
    }
}

} // verus!
