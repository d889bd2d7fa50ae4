use crate::phase::{
    lemma_blocks_concatenate, lemma_phase_in_turn, lemma_phase_step, phase_add, phase_after,
    PHASE_PERIOD,
};
use crate::window::SampleWindow;
use vstd::prelude::*;

verus! {

/// A phase-accumulating oscillator: the phase it is at and the increment it
/// adds per sample, both in units of `PHASE_PERIOD` per turn.
///
/// Every value of this type holds a phase within one turn, since a phase is a
/// `u32` and `PHASE_PERIOD` is `2^32`. A negative increment is written as its
/// two's complement, which sweeps the phase backwards.
pub struct SineWave {
    angle: u32,
    speed: u32,
}

impl SineWave {
    /// The current phase.
    pub closed spec fn angle_of(&self) -> u32 {
        self.angle
    }

    /// The increment added per sample.
    pub closed spec fn speed_of(&self) -> u32 {
        self.speed
    }

    /// An oscillator at phase zero advancing by `speed` per sample.
    pub fn new(speed: u32) -> (r: Self)
        ensures
            r.angle_of() == 0,
            r.speed_of() == speed,
    {
        SineWave { angle: 0, speed }
    }

    /// Replaces the increment; the phase is left as it is. Any value is
    /// accepted, zero included, which holds the phase still.
    pub fn set_speed(&mut self, speed: u32)
        ensures
            final(self).speed_of() == speed,
            final(self).angle_of() == old(self).angle_of(),
    {
        self.speed = speed;
    }

    /// The current phase.
    pub fn angle(&self) -> (r: u32)
        ensures
            r == self.angle_of(),
    {
        self.angle
    }

    /// The increment added per sample.
    pub fn speed(&self) -> (r: u32)
        ensures
            r == self.speed_of(),
    {
        self.speed
    }

    /// Fills `out` with one block and records the same block in `window`.
    ///
    /// Sample `i` is `wave` applied to the phase reached after `i`
    /// increments; afterwards the phase is the one reached after
    /// `out.len()` increments. The window is replaced as a whole, so a
    /// reader that shares it under a lock held across this call only ever
    /// sees complete blocks. Each sample costs one call of `wave`, an
    /// addition and a remainder; nothing is allocated.
    pub fn advance<T: Copy, F: Fn(u32) -> T>(
        &mut self,
        out: &mut [T],
        window: &mut SampleWindow<T>,
        wave: &F,
    )
        requires
            old(out)@.len() == old(window).capacity_of(),
            forall|p: u32| #[trigger] wave.requires((p,)),
        ensures
            final(out)@.len() == old(out)@.len(),
            forall|i: int|
                0 <= i < final(out)@.len() ==> wave.ensures(
                    (phase_after(old(self).angle_of(), old(self).speed_of(), i),),
                    #[trigger] final(out)@[i],
                ),
            final(window)@ == final(out)@,
            final(window).capacity_of() == old(window).capacity_of(),
            final(self).speed_of() == old(self).speed_of(),
            final(self).angle_of() == phase_after(
                old(self).angle_of(),
                old(self).speed_of(),
                old(out)@.len() as int,
            ),
    {
        let ghost a0 = self.angle;
        let ghost s = self.speed;
        let n = out.len();
        let mut i: usize = 0;
        while i < n
            invariant
                i <= n,
                n == out@.len(),
                n == old(out)@.len(),
                self.speed == s,
                self.angle == phase_after(a0, s, i as int),
                forall|p: u32| #[trigger] wave.requires((p,)),
                forall|j: int|
                    0 <= j < i ==> wave.ensures(
                        (phase_after(a0, s, j),),
                        #[trigger] out@[j],
                    ),
            decreases n - i,
        {
            let value = wave(self.angle);
            out[i] = value;
            self.angle = phase_add(self.angle, self.speed);
            proof {
                lemma_phase_in_turn(a0 as int, s as int, i as int);
                lemma_phase_in_turn(a0 as int, s as int, i + 1);
                lemma_phase_step(a0 as int, s as int, i as int);
            }
            i += 1;
        }
        window.replace_all(out);
    }
}

/// Whatever sequence of `new`, `set_speed` and `advance` calls produced it,
/// and in whatever order calls from different threads were serialised, an
/// oscillator's phase lies within one turn.
pub proof fn lemma_angle_in_turn(w: SineWave)
    ensures
        w.angle_of() < PHASE_PERIOD,
{
}

/// At a constant increment `speed`, starting from phase zero, sample `i` of a
/// block that follows `m` earlier samples has the phase of sample `m + i`
/// counted from the start, namely `(m + i) * speed mod PHASE_PERIOD`: how the
/// samples were split into blocks does not matter.
pub proof fn lemma_sample_phase_across_blocks(speed: u32, m: int, i: int)
    requires
        0 <= m,
        0 <= i,
    ensures
        phase_after(phase_after(0, speed, m), speed, i) == phase_after(0, speed, m + i),
        phase_after(0, speed, m + i) as int == ((m + i) * speed) % (PHASE_PERIOD as int),
{
    lemma_phase_in_turn(0, speed as int, m);
    lemma_blocks_concatenate(0, speed as int, m, i);
}

} // verus!
