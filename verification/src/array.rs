//! The pacing controller: a thin wrapper over the shared state that
//! computes speed-scaled delays and exposes the pause check to the
//! thread driving the simulation loop.

use vstd::arithmetic::div_mod::lemma_div_denominator;
use vstd::prelude::*;

use crate::state::SharedState;

verus! {

/// The exact speed-scaled delay, in microseconds: a base delay of `ms`
/// milliseconds stretched or squeezed by a speed factor given in
/// thousandths — `ms * 1_000_000 / speed_permille`.
pub open spec fn scaled_delay_micros(ms: nat, speed_permille: nat) -> nat
    recommends
        speed_permille > 0,
{
    ms * 1_000_000 / speed_permille
}

/// The scaled delay clamped to what a `u64` can hold.
pub open spec fn saturated_delay_micros(ms: nat, speed_permille: nat) -> nat
    recommends
        speed_permille > 0,
{
    if scaled_delay_micros(ms, speed_permille) > u64::MAX {
        u64::MAX as nat
    } else {
        scaled_delay_micros(ms, speed_permille)
    }
}

/// Law: doubling the speed factor halves the pace. For every base
/// delay and every positive speed factor, the exact scaled delay at
/// twice the speed is half — by integer division, so up to one
/// microsecond — of the delay at the original speed.
pub proof fn lemma_double_speed_halves_delay(ms: nat, speed_permille: nat)
    requires
        speed_permille > 0,
    ensures
        scaled_delay_micros(ms, 2 * speed_permille) == scaled_delay_micros(ms, speed_permille) / 2,
{
    lemma_div_denominator((ms * 1_000_000) as int, speed_permille as int, 2);
}

/// Computes the effective delay for a base delay of `ms` milliseconds
/// at a speed factor given in thousandths: the exact scaled value,
/// saturated at `u64::MAX` microseconds.
pub fn effective_delay_micros(ms: u64, speed_permille: u64) -> (d: u64)
    requires
        speed_permille > 0,
    ensures
        d as nat == saturated_delay_micros(ms as nat, speed_permille as nat),
{
    let wide: u128 = (ms as u128) * 1_000_000u128 / (speed_permille as u128);
    if wide > u64::MAX as u128 {
        u64::MAX
    } else {
        wide as u64
    }
}

/// A convenience wrapper around a shared handle for the thread driving
/// the simulation loop. Every operation here holds the lock for as
/// short a time as possible, so that an observing thread can acquire
/// it as often as it needs to; in particular only the speed factor is
/// read under the lock, while the sleeping itself — and the blocking
/// while paused — is done by the caller with no lock held.
pub struct Array(pub SharedState);

impl Array {
    /// Creates a pacing controller over a copy of a shared handle.
    pub fn new(state: SharedState) -> Array {
        Array(state)
    }

    /// The first half of a throttled wait: reads the speed factor
    /// under a short-lived lock and computes the effective delay from
    /// it. The caller sleeps for the returned number of microseconds
    /// with no lock held, then re-checks `is_paused` and blocks while
    /// it returns true.
    pub fn delay_micros(&self, ms: u64) -> (d: u64)
        ensures
            exists|sp: nat| sp > 0 && d as nat == saturated_delay_micros(ms as nat, sp),
    {
        let speed = self.0.speed_permille();
        let d = effective_delay_micros(ms, speed);
        proof {
            assert(speed as nat > 0 && d as nat == saturated_delay_micros(
                ms as nat,
                speed as nat,
            ));
        }
        d
    }

    /// Whether the animation is paused, read under a short-lived
    /// lock; a driving thread that sees true parks until resumed.
    pub fn is_paused(&self) -> bool {
        self.0.is_paused()
    }

    /// The cell count of the board in the shared state, read under a
    /// short-lived lock.
    pub fn len(&self) -> usize {
        self.0.board_len()
    }
}

} // verus!
