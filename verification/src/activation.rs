//! Bringing a window to the front and waiting until it is there.
//!
//! The system is asked once to make the window the foreground window. It
//! may refuse, and when it agrees the change still takes a while. So the
//! foreground window is looked at again and again, a fixed interval apart,
//! until it is the wanted one or too much time has passed:
//!
//! ```text
//! Requested --accepted--> Polling --foreground is the target--> Activated
//!     |                      |
//!     +--refused--> Denied   +--time is up--> TimedOut
//! ```
//!
//! All times are in nanoseconds.

use crate::resolver::WindowHandle;
use vstd::arithmetic::div_mod::{lemma_fundamental_div_mod, lemma_mod_bound};
use vstd::prelude::*;

verus! {

/// The usual time between two looks at the foreground window: 50 ms.
pub const POLL_INTERVAL: u64 = 50_000_000;

/// The usual time after which waiting for the window is given up: 2 s.
pub const ACTIVATION_TIMEOUT: u64 = 2_000_000_000;

/// The usual rest given to a window that has just come to the front, before
/// it is sent any input: 300 ms.
pub const SETTLE_DELAY: u64 = 300_000_000;

/// How long to wait, and how often to look.
#[derive(Clone, Copy, Debug, PartialEq, Eq, Structural)]
pub struct ActivationConfig {
    /// Time between two looks at the foreground window.
    pub poll_interval: u64,
    /// Waiting ends once more than this has passed since the request.
    pub timeout: u64,
    /// Rest after the window has come to the front.
    pub settle: u64,
}

/// One look at the foreground: which window is in front, and how much time
/// has passed since the request was accepted.
#[derive(Clone, Copy, Debug, PartialEq, Eq, Structural)]
pub struct Observation {
    pub foreground: WindowHandle,
    pub elapsed: u64,
}

/// Where an activation stands.
#[derive(Clone, Copy, Debug, PartialEq, Eq, Structural)]
pub enum ActivationState {
    /// The system has been asked; its answer is awaited.
    Requested,
    /// The system agreed; the window is not yet known to be in front.
    Polling,
    /// The window was seen in front.
    Activated,
    /// The window was not seen in front in time.
    TimedOut,
    /// The system refused the request.
    Denied,
}

impl ActivationConfig {
    /// The most looks that a timeout can take when time passes as it should:
    /// the timeout divided by the interval, rounded up, and one more.
    pub open spec fn max_polls(self) -> int
        recommends
            self.poll_interval > 0,
    {
        (self.timeout + self.poll_interval - 1) / (self.poll_interval as int) + 1
    }

    /// The usual configuration: look every 50 ms, give up after 2 s, rest
    /// for 300 ms.
    pub fn reference() -> (config: Self)
        ensures
            config == (ActivationConfig {
                poll_interval: POLL_INTERVAL,
                timeout: ACTIVATION_TIMEOUT,
                settle: SETTLE_DELAY,
            }),
    {
        ActivationConfig {
            poll_interval: POLL_INTERVAL,
            timeout: ACTIVATION_TIMEOUT,
            settle: SETTLE_DELAY,
        }
    }
}

impl ActivationState {
    /// The state after the system has answered the request.
    pub open spec fn after_request(self, accepted: bool) -> ActivationState {
        match self {
            ActivationState::Requested => if accepted {
                ActivationState::Polling
            } else {
                ActivationState::Denied
            },
            _ => self,
        }
    }

    /// The state after one look at the foreground.
    pub open spec fn after_observation(
        self,
        config: ActivationConfig,
        target: WindowHandle,
        seen: Observation,
    ) -> ActivationState {
        match self {
            ActivationState::Polling => if seen.foreground == target {
                ActivationState::Activated
            } else if seen.elapsed > config.timeout {
                ActivationState::TimedOut
            } else {
                ActivationState::Polling
            },
            _ => self,
        }
    }

    /// The state after several looks, one after the other.
    pub open spec fn after_observations(
        self,
        config: ActivationConfig,
        target: WindowHandle,
        seen: Seq<Observation>,
    ) -> ActivationState
        decreases seen.len(),
    {
        if seen.len() == 0 {
            self
        } else {
            self.after_observations(config, target, seen.drop_last()).after_observation(
                config,
                target,
                seen.last(),
            )
        }
    }

    /// Whether the activation has come to an end, good or bad.
    pub open spec fn is_settled(self) -> bool {
        self is Activated || self is TimedOut || self is Denied
    }

    /// Takes the system's answer to the request: from `Requested` on to
    /// `Polling` if it agreed and to `Denied` if it refused. In any other
    /// state the answer changes nothing.
    pub fn request_answered(self, accepted: bool) -> (next: ActivationState)
        ensures
            next == self.after_request(accepted),
    {
        match self {
            ActivationState::Requested => if accepted {
                ActivationState::Polling
            } else {
                ActivationState::Denied
            },
            _ => self,
        }
    }

    /// Takes one look at the foreground while `Polling`: `Activated` if the
    /// target is in front; else `TimedOut` if more than the timeout has
    /// passed; else still `Polling`. In any other state the look changes
    /// nothing.
    pub fn foreground_seen(
        self,
        config: &ActivationConfig,
        target: WindowHandle,
        seen: Observation,
    ) -> (next: ActivationState)
        ensures
            next == self.after_observation(*config, target, seen),
    {
        match self {
            ActivationState::Polling => if seen.foreground == target {
                ActivationState::Activated
            } else if seen.elapsed > config.timeout {
                ActivationState::TimedOut
            } else {
                ActivationState::Polling
            },
            _ => self,
        }
    }
}

/// The first `n` looks are the whole polling and it ends in a timeout: after
/// each of the first `n - 1` the state is still `Polling`, after the `n`-th
/// it is `TimedOut`.
pub open spec fn times_out_at(
    config: ActivationConfig,
    target: WindowHandle,
    seen: Seq<Observation>,
    n: int,
) -> bool {
    &&& 1 <= n <= seen.len()
    &&& ActivationState::Polling.after_observations(config, target, seen.take(n))
        is TimedOut
    &&& forall|m: int|
        0 <= m < n ==> (#[trigger] ActivationState::Polling.after_observations(
            config,
            target,
            seen.take(m),
        )) is Polling
}

/// The window is only ever taken to be in front because it was seen there.
pub proof fn lemma_activated_only_when_seen(
    state: ActivationState,
    config: ActivationConfig,
    target: WindowHandle,
    seen: Observation,
)
    ensures
        state.after_observation(config, target, seen) is Activated ==> state is Activated
            || seen.foreground == target,
        state.after_observation(config, target, seen) is TimedOut ==> state is TimedOut
            || seen.elapsed > config.timeout,
{
}

/// A settled activation stays as it is, whatever is seen or answered.
pub proof fn lemma_settled_is_final(
    state: ActivationState,
    config: ActivationConfig,
    target: WindowHandle,
    accepted: bool,
    seen: Observation,
)
    requires
        state.is_settled(),
    ensures
        state.after_request(accepted) == state,
        state.after_observation(config, target, seen) == state,
{
}

/// While the target is not in front and time is not up, polling goes on.
proof fn lemma_still_polling(
    config: ActivationConfig,
    target: WindowHandle,
    seen: Seq<Observation>,
    m: int,
)
    requires
        0 <= m <= seen.len(),
        forall|k: int|
            0 <= k < m ==> seen[k].foreground != target && seen[k].elapsed <= config.timeout,
    ensures
        ActivationState::Polling.after_observations(config, target, seen.take(m)) is Polling,
    decreases m,
{
    if m > 0 {
        lemma_still_polling(config, target, seen, m - 1);
        assert(seen.take(m).drop_last() =~= seen.take(m - 1));
    }
}

/// From look `j` on, a look at which time is up is found no later than at
/// index `late`.
proof fn lemma_late_look_found(
    config: ActivationConfig,
    target: WindowHandle,
    seen: Seq<Observation>,
    j: int,
    late: int,
)
    requires
        0 <= j <= late < seen.len(),
        seen[late].elapsed > config.timeout,
        forall|k: int| 0 <= k <= late ==> seen[k].foreground != target,
        forall|k: int| 0 <= k < j ==> seen[k].elapsed <= config.timeout,
    ensures
        exists|n: int| 1 <= n <= late + 1 && times_out_at(config, target, seen, n),
    decreases late - j,
{
    if seen[j].elapsed > config.timeout {
        let n = j + 1;
        lemma_still_polling(config, target, seen, j);
        assert(seen.take(n).drop_last() =~= seen.take(j));
        assert forall|m: int| 0 <= m < n implies (#[trigger] ActivationState::Polling.after_observations(
            config,
            target,
            seen.take(m),
        )) is Polling by {
            lemma_still_polling(config, target, seen, m);
        }
        assert(times_out_at(config, target, seen, n));
    } else {
        lemma_late_look_found(config, target, seen, j + 1, late);
    }
}

/// Polling does not outlast a late look. If the target is not in front at
/// any look up to the one with index `late`, and more than the timeout has
/// passed at that look, then polling has run into the timeout at that look
/// or at one before it.
pub proof fn lemma_timeout_by_late_look(
    config: ActivationConfig,
    target: WindowHandle,
    seen: Seq<Observation>,
    late: int,
)
    requires
        0 <= late < seen.len(),
        seen[late].elapsed > config.timeout,
        forall|k: int| 0 <= k <= late ==> seen[k].foreground != target,
    ensures
        exists|n: int| 1 <= n <= late + 1 && times_out_at(config, target, seen, n),
{
    lemma_late_look_found(config, target, seen, 0, late);
}

/// Polling ends. Let the target never be in front, and let time pass as it
/// should: the look with index `k` (the first has index 0) comes after `k`
/// intervals of waiting, so more than `k` intervals have passed when it is
/// made. Then polling runs into the timeout, and it does so with at most
/// `max_polls` looks.
pub proof fn lemma_timeout_within_max_polls(
    config: ActivationConfig,
    target: WindowHandle,
    seen: Seq<Observation>,
)
    requires
        config.poll_interval > 0,
        seen.len() >= config.max_polls(),
        forall|k: int| 0 <= k < seen.len() ==> seen[k].foreground != target,
        forall|k: int| 0 <= k < seen.len() ==> seen[k].elapsed > k * config.poll_interval,
    ensures
        exists|n: int| 1 <= n <= config.max_polls() && times_out_at(config, target, seen, n),
{
    let interval = config.poll_interval as int;
    let rounds = (config.timeout + interval - 1) / interval;
    assert(rounds * interval >= config.timeout && rounds >= 0) by {
        lemma_fundamental_div_mod(config.timeout + interval - 1, interval);
        lemma_mod_bound(config.timeout + interval - 1, interval);
        assert(interval * rounds >= config.timeout);
        assert(rounds * interval == interval * rounds) by (nonlinear_arith);
        assert(rounds >= 0) by (nonlinear_arith)
            requires
                interval * rounds >= 0,
                interval > 0,
        ;
    }
    assert(seen[rounds].elapsed > rounds * interval);
    lemma_timeout_by_late_look(config, target, seen, rounds);
}

} // verus!
