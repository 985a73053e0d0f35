//! Fixed-timestep scheduling.
//!
//! Time is counted in integer ticks whose length the caller chooses (for a
//! 120 Hz simulation, a tick of 1/120000 s gives a timestep of 1000 ticks).
//! Each rendered frame adds its measured duration to an accumulator; every
//! whole timestep held there is owed one simulation step and is taken out.
//! A step is owed as soon as the accumulator reaches a full timestep, so a
//! frame of exactly `k` timesteps yields exactly `k` steps.
use vstd::prelude::*;
use vstd::arithmetic::div_mod::lemma_fundamental_div_mod;
use vstd::arithmetic::div_mod::lemma_fundamental_div_mod_converse;

verus! {

/// Number of steps owed once `frame` ticks are added to `accumulated`.
pub open spec fn steps_owed(accumulated: int, frame: int, timestep: int) -> int {
    (accumulated + frame) / timestep
}

/// Ticks left over once the owed steps are taken out.
pub open spec fn residual_after(accumulated: int, frame: int, timestep: int) -> int {
    (accumulated + frame) % timestep
}

/// Accumulator of real time not yet turned into simulation steps.
pub struct FixedTimestep {
    timestep: u64,
    accumulated: u64,
}

impl FixedTimestep {
    /// Length of one simulation step, in ticks.
    pub closed spec fn timestep_spec(&self) -> int {
        self.timestep as int
    }

    /// Ticks held that do not yet make up a full step.
    pub closed spec fn accumulated_spec(&self) -> int {
        self.accumulated as int
    }

    /// The timestep is positive and less than one timestep is held.
    pub open spec fn wf(&self) -> bool {
        0 < self.timestep_spec() && 0 <= self.accumulated_spec() < self.timestep_spec()
    }

    /// A scheduler with an empty accumulator, or `None` for a zero timestep.
    pub fn new(timestep: u64) -> (r: Option<FixedTimestep>)
        ensures
            timestep == 0 <==> r is None,
            r matches Some(s) ==> s.wf() && s.timestep_spec() == timestep as int
                && s.accumulated_spec() == 0,
    {
        if timestep == 0 {
            None
        } else {
            Some(FixedTimestep { timestep, accumulated: 0 })
        }
    }

    /// Length of one simulation step, in ticks.
    pub fn timestep(&self) -> (r: u64)
        ensures
            r as int == self.timestep_spec(),
    {
        self.timestep
    }

    /// Ticks held that do not yet make up a full step.
    pub fn accumulated(&self) -> (r: u64)
        ensures
            r as int == self.accumulated_spec(),
    {
        self.accumulated
    }

    /// Adds a frame of `frame` ticks and returns how many simulation steps
    /// are now owed; those steps' worth of time leaves the accumulator.
    pub fn advance(&mut self, frame: u64) -> (steps: u64)
        requires
            old(self).wf(),
        ensures
            final(self).wf(),
            final(self).timestep_spec() == old(self).timestep_spec(),
            steps as int == steps_owed(
                old(self).accumulated_spec(),
                frame as int,
                old(self).timestep_spec(),
            ),
            final(self).accumulated_spec() == residual_after(
                old(self).accumulated_spec(),
                frame as int,
                old(self).timestep_spec(),
            ),
    {
        let ts = self.timestep;
        let acc = self.accumulated;
        let whole = frame / ts;
        let rest = frame % ts;
        proof {
            lemma_fundamental_div_mod(frame as int, ts as int);
            assert(frame == whole * ts + rest) by (nonlinear_arith)
                requires
                    frame == ts * whole + rest,
            ;
        }
        let gap = ts - rest;
        proof {
            if acc >= gap {
                assert(whole < u64::MAX) by (nonlinear_arith)
                    requires
                        ts >= 2,
                        frame == whole * ts + rest,
                        rest >= 0,
                        frame <= u64::MAX,
                ;
            }
        }
        let (steps, left) = if acc >= gap {
            (whole + 1, acc - gap)
        } else {
            (whole, acc + rest)
        };
        proof {
            assert(acc + frame == steps * ts + left) by (nonlinear_arith)
                requires
                    frame == whole * ts + rest,
                    gap == ts - rest,
                    acc >= gap ==> steps == whole + 1 && left == acc - gap,
                    acc < gap ==> steps == whole && left == acc + rest,
            ;
            lemma_fundamental_div_mod_converse(
                acc + frame,
                ts as int,
                steps as int,
                left as int,
            );
        }
        self.accumulated = left;
        steps
    }
}

/// A frame lasting exactly `k` timesteps (`k >= 1`) owes exactly `k` steps
/// and leaves the accumulator as it found it, below one timestep (empty for
/// a fresh scheduler).
pub proof fn lemma_whole_frames_catch_up(s: FixedTimestep, k: int)
    requires
        s.wf(),
        k >= 1,
    ensures
        steps_owed(s.accumulated_spec(), k * s.timestep_spec(), s.timestep_spec()) == k,
        residual_after(s.accumulated_spec(), k * s.timestep_spec(), s.timestep_spec())
            == s.accumulated_spec(),
        residual_after(s.accumulated_spec(), k * s.timestep_spec(), s.timestep_spec())
            < s.timestep_spec(),
{
    let ts = s.timestep_spec();
    let acc = s.accumulated_spec();
    assert(acc + k * ts == k * ts + acc);
    lemma_fundamental_div_mod_converse(acc + k * ts, ts, k, acc);
}

/// On an empty accumulator, a frame shorter than one timestep owes no step
/// and is kept whole in the accumulator.
pub proof fn lemma_short_frame_no_step(s: FixedTimestep, frame: int)
    requires
        s.wf(),
        s.accumulated_spec() == 0,
        0 <= frame < s.timestep_spec(),
    ensures
        steps_owed(s.accumulated_spec(), frame, s.timestep_spec()) == 0,
        residual_after(s.accumulated_spec(), frame, s.timestep_spec()) == frame,
{
    lemma_fundamental_div_mod_converse(frame, s.timestep_spec(), 0, frame);
}

} // verus!
