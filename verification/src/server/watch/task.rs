//! The per-tick retry policy and the tick schedule of a watcher.
//!
//! At each tick a watcher works on a fresh copy of itself whose failure
//! counter starts at zero. It makes an attempt while the counter is at most
//! `WATCH_RETRY`; a failed attempt counts one more failure and waits
//! `retry_interval` seconds, a successful one ends the tick.

use vstd::prelude::*;
use crate::params::{WATCH_FIRST_TICK_DELAY, WATCH_RETRY};
use crate::server::watch::Worker;

verus! {

/// Whether a watcher whose failure counter is `retry` makes another attempt.
pub open spec fn may_attempt(retry: nat) -> bool {
    retry <= WATCH_RETRY
}

/// The failure counter after an attempt that `succeeded` or not.
pub open spec fn retry_after(retry: nat, succeeded: bool) -> nat {
    if succeeded { retry } else { retry + 1 }
}

/// The number of attempts a tick makes when its attempts turn out as
/// `outcomes` (`true` for a success), starting from the counter `retry`.
pub open spec fn attempts_made(retry: nat, outcomes: Seq<bool>) -> nat
    decreases outcomes.len(),
{
    if !may_attempt(retry) || outcomes.len() == 0 {
        0
    } else if outcomes[0] {
        1
    } else {
        1 + attempts_made(retry_after(retry, false), outcomes.drop_first())
    }
}

impl Worker {
    /// Whether another attempt is made in this tick.
    pub fn may_attempt(&self) -> (ok: bool)
        ensures
            ok == may_attempt(self.retry as nat),
    {
        self.retry <= WATCH_RETRY
    }

    /// Records the outcome of an attempt. After a failure the counter goes
    /// up by one and the watcher must wait the returned number of seconds,
    /// its retry interval; after a success nothing changes and there is no
    /// wait: the tick is over.
    pub fn after_attempt(&mut self, succeeded: bool) -> (wait: Option<u64>)
        requires
            may_attempt(old(self).retry as nat),
        ensures
            final(self).retry as nat == retry_after(old(self).retry as nat, succeeded),
            final(self).retry_interval == old(self).retry_interval,
            final(self).repo == old(self).repo,
            final(self).db == old(self).db,
            succeeded ==> wait is None,
            !succeeded ==> wait == Some(old(self).retry_interval),
    {
        if succeeded {
            None
        } else {
            self.update_retry_times();
            Some(self.retry_interval)
        }
    }
}

/// When a watcher checks its repository: the delay in seconds before the
/// first tick, then the period in seconds between ticks.
pub fn tick_schedule(period: u64) -> (res: (u64, u64))
    requires
        period > 0,
    ensures
        res == (WATCH_FIRST_TICK_DELAY, period),
{
    (WATCH_FIRST_TICK_DELAY, period)
}

/// A tick makes at most `WATCH_RETRY + 1` attempts, fewer when its counter
/// does not start at zero, and none once the counter is past `WATCH_RETRY`.
pub proof fn lemma_attempts_bounded(retry: nat, outcomes: Seq<bool>)
    ensures
        attempts_made(retry, outcomes) <= if retry <= WATCH_RETRY {
            WATCH_RETRY + 1 - retry
        } else {
            0
        },
        attempts_made(retry, outcomes) <= outcomes.len(),
    decreases outcomes.len(),
{
    if may_attempt(retry) && outcomes.len() > 0 && !outcomes[0] {
        lemma_attempts_bounded(retry + 1, outcomes.drop_first());
    }
}

/// A tick stops at its first success: every attempt but the last failed.
/// And it goes on after a failure while attempts are left: when it ends
/// short of `WATCH_RETRY + 1` attempts with outcomes to spare, its last
/// attempt succeeded.
pub proof fn lemma_attempts_stop_at_first_success(retry: nat, outcomes: Seq<bool>)
    ensures
        forall|i: int| 0 <= i < attempts_made(retry, outcomes) - 1 ==> !#[trigger] outcomes[i],
        retry <= WATCH_RETRY && attempts_made(retry, outcomes) < WATCH_RETRY + 1 - retry
            && attempts_made(retry, outcomes) < outcomes.len()
            ==> attempts_made(retry, outcomes) > 0 && outcomes[attempts_made(retry, outcomes) - 1],
    decreases outcomes.len(),
{
    if may_attempt(retry) && outcomes.len() > 0 && !outcomes[0] {
        let rest = outcomes.drop_first();
        lemma_attempts_stop_at_first_success(retry + 1, rest);
        lemma_attempts_bounded(retry + 1, rest);
        assert(attempts_made(retry, outcomes) == 1 + attempts_made(retry + 1, rest));
        assert forall|i: int| 0 <= i < attempts_made(retry, outcomes) - 1 implies !#[trigger] outcomes[i] by {
            if i > 0 {
                assert(outcomes[i] == rest[i - 1]);
            }
        }
        if retry <= WATCH_RETRY && attempts_made(retry, outcomes) < WATCH_RETRY + 1 - retry
            && attempts_made(retry, outcomes) < outcomes.len() {
            let k = attempts_made(retry + 1, rest);
            assert(outcomes[k as int] == rest[k - 1]);
        }
    }
}

} // verus!
