//! Per-endpoint minimum-interval throttling.
//!
//! The limiter keeps, for each configured endpoint, the earliest instant at
//! which the next call may go out. Gating an endpoint reserves the next
//! eligibility window at once and reports how long to wait; the caller
//! sleeps outside any lock, so unrelated endpoints never wait on each other.
//! All times are in milliseconds.

use vstd::prelude::*;
use crate::kvlist::kv_find_index;
use crate::kvlist::kv_keys_unique;
use crate::kvlist::kv_upsert;
use crate::kvlist::kv_value;

verus! {

// ---------------------------------------------------------------------------
// The limiter itself.
// ---------------------------------------------------------------------------

/// The instant a gated call becomes eligible: the later of "now" and the
/// endpoint's recorded next allowed instant (or "now" when none is
/// recorded).
pub open spec fn gate_base(recorded: Option<u64>, now: u64) -> int {
    match recorded {
        Some(t) => if t > now {
            t as int
        } else {
            now as int
        },
        None => now as int,
    }
}

pub open spec fn sat_add_u64(a: int, b: int) -> int {
    if a + b > u64::MAX {
        u64::MAX as int
    } else {
        a + b
    }
}

/// How one gate call moves the limiter: an unconfigured endpoint is never
/// throttled; a configured one waits until its eligibility instant and
/// reserves the following window, touching no other endpoint's schedule.
pub open spec fn gate_transition(
    pre: RateLimiter,
    post: RateLimiter,
    name: Seq<char>,
    now: u64,
    wait: u64,
) -> bool {
    match pre.interval_of(name) {
        None => wait == 0 && forall|n: Seq<char>|
            post.next_allowed_of(n) == pre.next_allowed_of(n),
        Some(iv) => {
            let base = gate_base(pre.next_allowed_of(name), now);
            &&& wait == base - now
            &&& post.next_allowed_of(name) == Some(sat_add_u64(base, iv as int) as u64)
            &&& forall|n: Seq<char>|
                n != name ==> post.next_allowed_of(n) == pre.next_allowed_of(n)
        },
    }
}

/// Per-endpoint minimum-interval state: configured intervals, and each
/// endpoint's earliest next allowed instant.
#[derive(Debug)]
pub struct RateLimiter {
    intervals: Vec<(String, u64)>,
    next_allowed: Vec<(String, u64)>,
}

impl RateLimiter {
    pub closed spec fn wf(self) -> bool {
        kv_keys_unique(self.intervals@) && kv_keys_unique(self.next_allowed@)
    }

    /// The configured minimum interval for an endpoint, if any.
    pub closed spec fn interval_of(self, name: Seq<char>) -> Option<u64> {
        kv_value(self.intervals@, name)
    }

    /// The recorded earliest next allowed instant for an endpoint, if any.
    pub closed spec fn next_allowed_of(self, name: Seq<char>) -> Option<u64> {
        kv_value(self.next_allowed@, name)
    }

    /// A limiter that throttles nothing.
    pub fn new() -> (r: Self)
        ensures
            r.wf(),
            forall|n: Seq<char>| r.interval_of(n) is None,
            forall|n: Seq<char>| r.next_allowed_of(n) is None,
    {
        RateLimiter { intervals: Vec::new(), next_allowed: Vec::new() }
    }

    /// Configures the minimum interval between two calls of one endpoint.
    pub fn with_min_interval(self, api_name: &str, min_interval_ms: u64) -> (r: Self)
        requires
            self.wf(),
        ensures
            r.wf(),
            r.interval_of(api_name@) == Some(min_interval_ms),
            forall|n: Seq<char>| n != api_name@ ==> r.interval_of(n) == self.interval_of(n),
            forall|n: Seq<char>| r.next_allowed_of(n) == self.next_allowed_of(n),
    {
        let mut intervals = self.intervals;
        kv_upsert(&mut intervals, api_name.to_owned(), min_interval_ms);
        RateLimiter { intervals, next_allowed: self.next_allowed }
    }

    /// The atomic bookkeeping step of one gate call, at the given instant:
    /// computes how long the caller must wait and reserves the following
    /// eligibility window. The caller sleeps after this returns, outside
    /// any lock.
    pub fn plan(&mut self, api_name: &str, now_ms: u64) -> (wait: u64)
        requires
            old(self).wf(),
        ensures
            final(self).wf(),
            forall|n: Seq<char>|
                final(self).interval_of(n) == old(self).interval_of(n),
            gate_transition(*old(self), *final(self), api_name@, now_ms, wait),
    {
        let iv = match kv_find_index(&self.intervals, api_name) {
            Some(i) => self.intervals[i].1,
            None => {
                return 0;
            },
        };
        let recorded = match kv_find_index(&self.next_allowed, api_name) {
            Some(i) => self.next_allowed[i].1,
            None => now_ms,
        };
        let base = if recorded > now_ms {
            recorded
        } else {
            now_ms
        };
        let next = match base.checked_add(iv) {
            Some(x) => x,
            None => u64::MAX,
        };
        kv_upsert(&mut self.next_allowed, api_name.to_owned(), next);
        base - now_ms
    }

    /// Gates one endpoint against the wall clock: the caller proceeds
    /// after waiting the returned number of milliseconds.
    pub fn gate(&mut self, api_name: &str) -> (wait: u64)
        requires
            old(self).wf(),
        ensures
            final(self).wf(),
            forall|n: Seq<char>|
                final(self).interval_of(n) == old(self).interval_of(n),
            exists|now: u64| gate_transition(*old(self), *final(self), api_name@, now, wait),
    {
        let now_ms = now_millis();
        let wait = self.plan(api_name, now_ms);
        proof {
            assert(gate_transition(*old(self), *self, api_name@, now_ms, wait));
        }
        wait
    }
}

/// Relies on std::time::SystemTime::elapsed, applied to the Unix epoch:
/// the wall clock as milliseconds since the epoch; nothing is assumed
/// about the value itself.
#[verifier::external_body]
fn now_millis() -> u64 {
    match std::time::UNIX_EPOCH.elapsed() {
        Ok(d) => d.as_millis() as u64,
        Err(_) => 0,
    }
}

// ---------------------------------------------------------------------------
// Laws.
// ---------------------------------------------------------------------------

/// Law: two consecutive gates of the same endpoint are scheduled at least
/// its minimum interval apart. The first call becomes eligible at
/// `now1 + wait1` and reserves the following window; whenever the second
/// call arrives (not before the first), its eligibility instant
/// `now2 + wait2` lies at least `iv` later.
pub proof fn lemma_min_interval_spacing(recorded: Option<u64>, now1: u64, now2: u64, iv: u64)
    requires
        now1 <= now2,
        gate_base(recorded, now1) + iv <= u64::MAX,
    ensures
        ({
            let base1 = gate_base(recorded, now1);
            let next = sat_add_u64(base1, iv as int);
            let base2 = gate_base(Some(next as u64), now2);
            base2 >= base1 + iv
        }),
{
}

} // verus!
