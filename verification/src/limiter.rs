//! Per-actor rate limiting: one timestamp per actor, a fixed cooldown
//! window, and an admit-or-deny decision taken before any expensive work.

use std::collections::HashMap;
use vstd::prelude::*;

verus! {

broadcast use vstd::std_specs::hash::group_hash_axioms;

/// The rate limiter's answer.
#[derive(PartialEq, Eq, Structural, Debug, Clone, Copy)]
pub enum AdmitDecision {
    /// The call may proceed; the actor's slot is now consumed.
    Admitted,
    /// The call must wait: the cooldown window has this many seconds left.
    Denied { retry_after: u64 },
}

/// Seconds elapsed from `prev` to `now`, clamped at zero.
pub open spec fn elapsed_secs(prev: u64, now: u64) -> int {
    if now >= prev {
        now - prev
    } else {
        0
    }
}

/// The decision `admit_call` takes for `actor` at time `now` over the recorded
/// last invocations `m`: a repeat call strictly inside the cooldown window
/// is denied with the window's remainder, anything else is admitted.
pub open spec fn admit_decision(cooldown: u64, m: Map<u64, u64>, actor: u64, now: u64) -> AdmitDecision {
    if m.contains_key(actor) && elapsed_secs(m[actor], now) < cooldown {
        AdmitDecision::Denied { retry_after: (cooldown - elapsed_secs(m[actor], now)) as u64 }
    } else {
        AdmitDecision::Admitted
    }
}

/// The recorded state after `admit_call`: an admitted call stamps the actor with
/// `now`; a denied call changes nothing.
pub open spec fn admit_record(cooldown: u64, m: Map<u64, u64>, actor: u64, now: u64) -> Map<u64, u64> {
    if admit_decision(cooldown, m, actor, now) is Admitted {
        m.insert(actor, now)
    } else {
        m
    }
}

/// Tracks the last admitted invocation per actor and enforces the cooldown.
pub struct RateLimiter {
    cooldown_secs: u64,
    last_call: HashMap<u64, u64>,
}

impl RateLimiter {
    /// The length of the cooldown window, in seconds.
    pub closed spec fn cooldown(&self) -> u64 {
        self.cooldown_secs
    }

    /// The recorded last invocation times, per actor.
    pub closed spec fn record(&self) -> Map<u64, u64> {
        self.last_call@
    }

    /// A fresh limiter with the given window and no recorded calls.
    pub fn new(cooldown_secs: u64) -> (r: Self)
        ensures
            r.cooldown() == cooldown_secs,
            r.record() == Map::<u64, u64>::empty(),
    {
        RateLimiter { cooldown_secs, last_call: HashMap::new() }
    }

    /// Admits or denies a call by `actor` at time `now`.  The timestamp is
    /// consumed at admission, before the expensive work runs, so overlapping
    /// calls from one actor cannot both pass the window.
    pub fn admit_call(&mut self, actor: u64, now: u64) -> (d: AdmitDecision)
        ensures
            d == admit_decision(old(self).cooldown(), old(self).record(), actor, now),
            final(self).record() == admit_record(
                old(self).cooldown(),
                old(self).record(),
                actor,
                now,
            ),
            final(self).cooldown() == old(self).cooldown(),
    {
        let prev: Option<&u64> = self.last_call.get(&actor);
        match prev {
            Some(p) => {
                let elapsed: u64 = if now >= *p {
                    now - *p
                } else {
                    0
                };
                if elapsed < self.cooldown_secs {
                    AdmitDecision::Denied { retry_after: self.cooldown_secs - elapsed }
                } else {
                    self.last_call.insert(actor, now);
                    AdmitDecision::Admitted
                }
            },
            None => {
                self.last_call.insert(actor, now);
                AdmitDecision::Admitted
            },
        }
    }
}

/// Cooldown monotonicity: once a call by an actor is admitted at `t1`, a
/// second call before the window has elapsed is denied, with a positive
/// remainder; so two admitted calls are always at least the cooldown apart.
pub proof fn lemma_cooldown_monotonic(cooldown: u64, m: Map<u64, u64>, actor: u64, t1: u64, t2: u64)
    requires
        admit_decision(cooldown, m, actor, t1) is Admitted,
        t1 <= t2,
        t2 - t1 < cooldown,
    ensures
        admit_record(cooldown, m, actor, t1).contains_key(actor),
        admit_decision(cooldown, admit_record(cooldown, m, actor, t1), actor, t2) matches AdmitDecision::Denied {
            retry_after,
        } && retry_after > 0 && retry_after == cooldown - (t2 - t1),
{
}

/// The contrapositive reading: when calls at `t1` and then `t2` are both
/// admitted, they are separated by at least the cooldown.
pub proof fn lemma_admitted_separation(cooldown: u64, m: Map<u64, u64>, actor: u64, t1: u64, t2: u64)
    requires
        admit_decision(cooldown, m, actor, t1) is Admitted,
        admit_decision(cooldown, admit_record(cooldown, m, actor, t1), actor, t2) is Admitted,
        t1 <= t2,
    ensures
        t2 - t1 >= cooldown,
{
}

} // verus!
