use vstd::prelude::*;

verus! {

/// The delay after `d`: doubled, but never above `max`.
pub open spec fn next_delay(d: u64, max: u64) -> u64 {
    if 2 * d > max {
        max
    } else {
        (2 * d) as u64
    }
}

/// The delay the `k`-th tick of a backoff made with `initial` and `max` waits,
/// counting from zero.
pub open spec fn delay_after(initial: u64, max: u64, k: nat) -> u64
    decreases k,
{
    if k == 0 {
        initial
    } else {
        next_delay(delay_after(initial, max, (k - 1) as nat), max)
    }
}

/// A backoff whose first delay is within its maximum waits a nondecreasing
/// sequence of delays, each within the maximum: the first is `initial`, and
/// each later one is the one before doubled and capped.
pub proof fn lemma_backoff_waits(initial: u64, max: u64, k: nat)
    requires
        initial <= max,
    ensures
        delay_after(initial, max, 0) == initial,
        delay_after(initial, max, k) <= delay_after(initial, max, k + 1) <= max,
        delay_after(initial, max, k + 1) == next_delay(delay_after(initial, max, k), max),
    decreases k,
{
    if k > 0 {
        lemma_backoff_waits(initial, max, (k - 1) as nat);
    }
}

/// A generator of growing, bounded delays, in milliseconds.
pub struct Backoff {
    max_ms: u64,
    delay_ms: u64,
    initial: Ghost<u64>,
    ticks: Ghost<nat>,
}

impl Backoff {
    pub closed spec fn spec_delay(&self) -> u64 {
        self.delay_ms
    }

    pub closed spec fn spec_max(&self) -> u64 {
        self.max_ms
    }

    pub closed spec fn spec_initial(&self) -> u64 {
        self.initial@
    }

    /// How many ticks have been taken.
    pub closed spec fn spec_ticks(&self) -> nat {
        self.ticks@
    }

    /// The current delay is the one the tick count calls for.
    pub closed spec fn wf(&self) -> bool {
        self.delay_ms == delay_after(self.initial@, self.max_ms, self.ticks@)
    }

    pub fn new(initial_ms: u64, max_ms: u64) -> (r: Backoff)
        ensures
            r.wf(),
            r.spec_delay() == initial_ms,
            r.spec_max() == max_ms,
            r.spec_initial() == initial_ms,
            r.spec_ticks() == 0,
    {
        Backoff { max_ms, delay_ms: initial_ms, initial: Ghost(initial_ms), ticks: Ghost(0) }
    }

    /// The delay the next tick waits.
    pub fn delay(&self) -> (r: u64)
        ensures
            r == self.spec_delay(),
    {
        self.delay_ms
    }

    /// Returns the delay to wait now and grows the next one: doubled, capped
    /// at the maximum. Within the maximum a delay never shrinks.
    pub fn tick(&mut self) -> (r: u64)
        requires
            old(self).wf(),
        ensures
            final(self).wf(),
            r == old(self).spec_delay(),
            r == delay_after(old(self).spec_initial(), old(self).spec_max(), old(self).spec_ticks()),
            final(self).spec_ticks() == old(self).spec_ticks() + 1,
            final(self).spec_initial() == old(self).spec_initial(),
            final(self).spec_max() == old(self).spec_max(),
            final(self).spec_delay() == next_delay(old(self).spec_delay(), old(self).spec_max()),
            old(self).spec_delay() <= old(self).spec_max() ==> old(self).spec_delay() <= final(self).spec_delay() <= final(self).spec_max(),
    {
        let d = self.delay_ms;
        if d > self.max_ms / 2 {
            self.delay_ms = self.max_ms;
        } else {
            self.delay_ms = 2 * d;
        }
        self.ticks = Ghost(self.ticks@ + 1);
        d
    }
}

} // verus!
