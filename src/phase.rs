use vstd::arithmetic::div_mod::*;
use vstd::prelude::*;

verus! {

/// Number of phase units in one full turn of the oscillator (2π radians).
pub const PHASE_PERIOD: u64 = 4294967296;

/// The phase reached from `angle` after `k` increments of `speed`, wrapped
/// into one turn.
pub open spec fn phase_at(angle: int, speed: int, k: int) -> int {
    (angle + k * speed) % (PHASE_PERIOD as int)
}

/// `phase_at` as a phase value; it always fits, see `lemma_phase_in_turn`.
pub open spec fn phase_after(angle: u32, speed: u32, k: int) -> u32 {
    phase_at(angle as int, speed as int, k) as u32
}

/// Adds two phases modulo one turn.
pub fn phase_add(angle: u32, speed: u32) -> (r: u32)
    ensures
        r as int == (angle as int + speed as int) % (PHASE_PERIOD as int),
{
    ((angle as u64 + speed as u64) % PHASE_PERIOD) as u32
}

/// Successive blocks continue one another: `m` increments followed by `n`
/// more land on the same phase as `m + n` increments at once, so the k-th
/// sample counted over any sequence of blocks has the phase
/// `(angle + k * speed) mod PHASE_PERIOD`.
pub proof fn lemma_blocks_concatenate(angle: int, speed: int, m: int, n: int)
    ensures
        phase_at(phase_at(angle, speed, m), speed, n) == phase_at(
            angle,
            speed,
            m + n,
        ),
{
    let p = PHASE_PERIOD as int;
    lemma_add_mod_noop(angle + m * speed, n * speed, p);
    lemma_mod_twice(angle + m * speed, p);
    lemma_add_mod_noop((angle + m * speed) % p, n * speed, p);
    assert((angle + m * speed) + n * speed == angle + (m + n) * speed) by (nonlinear_arith);
}

/// One more increment: the phase after `k + 1` steps is the phase after `k`
/// steps plus `speed`, wrapped.
pub proof fn lemma_phase_step(angle: int, speed: int, k: int)
    ensures
        phase_at(angle, speed, k + 1) == (phase_at(angle, speed, k) + speed) % (
        PHASE_PERIOD as int),
{
    let p = PHASE_PERIOD as int;
    lemma_add_mod_noop(angle + k * speed, speed, p);
    lemma_mod_twice(angle + k * speed, p);
    lemma_add_mod_noop((angle + k * speed) % p, speed, p);
    assert(angle + k * speed + speed == angle + (k + 1) * speed) by (nonlinear_arith);
}

/// Every phase lies within one turn.
pub proof fn lemma_phase_in_turn(angle: int, speed: int, k: int)
    ensures
        0 <= phase_at(angle, speed, k) < PHASE_PERIOD,
{
    lemma_mod_bound(angle + k * speed, PHASE_PERIOD as int);
}

} // verus!
