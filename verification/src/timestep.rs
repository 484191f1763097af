//! The fixed timestep: the simulation advances in ticks of one length, however long
//! the frames take.
//!
//! Time is measured in whole nanoseconds. Each frame adds the time that has passed
//! since the frame before to what is left over from it, but never more than
//! `MAX_FRAME_NANOS`, so that a long stall is not made up for tick by tick. Then one
//! tick is run for every `STEP_NANOS` of that time, and the rest is kept for the
//! next frame.

use vstd::prelude::*;

verus! {

/// The length of one tick of the simulation: a hundredth of a second.
pub const STEP_NANOS: u64 = 10_000_000;

/// The most that one frame adds to the time to be simulated: a quarter of a second.
pub const MAX_FRAME_NANOS: u64 = 250_000_000;

/// The most ticks that one frame runs.
pub const MAX_TICKS_PER_FRAME: u32 = 25;

/// The time that a frame of `frame` nanoseconds adds to the time to be simulated.
pub open spec fn clamped_frame(frame: int) -> int {
    if frame > MAX_FRAME_NANOS {
        MAX_FRAME_NANOS as int
    } else {
        frame
    }
}

/// The number of ticks that a frame of `frame` nanoseconds runs, with `pending`
/// nanoseconds left over from the frame before.
pub open spec fn ticks_due(pending: int, frame: int) -> int {
    (pending + clamped_frame(frame)) / (STEP_NANOS as int)
}

/// The time that is left over after the ticks of a frame of `frame` nanoseconds, with
/// `pending` nanoseconds left over from the frame before.
pub open spec fn pending_after(pending: int, frame: int) -> int {
    (pending + clamped_frame(frame)) % (STEP_NANOS as int)
}

/// No frame, however long, runs more than `MAX_TICKS_PER_FRAME` ticks, and a frame of
/// `MAX_FRAME_NANOS` or longer runs exactly that many. What the ticks leave over is
/// less than one tick, and no time is lost: the ticks and what is left over make up
/// what was there.
pub proof fn lemma_ticks_per_frame(pending: int, frame: int)
    requires
        0 <= pending < STEP_NANOS,
        0 <= frame,
    ensures
        0 <= ticks_due(pending, frame) <= MAX_TICKS_PER_FRAME,
        frame >= MAX_FRAME_NANOS ==> ticks_due(pending, frame) == MAX_TICKS_PER_FRAME,
        0 <= pending_after(pending, frame) < STEP_NANOS,
        ticks_due(pending, frame) * STEP_NANOS + pending_after(pending, frame) == pending
            + clamped_frame(frame),
{
}

/// The time that a frame of `frame_nanos` nanoseconds adds to the time to be
/// simulated: the time of the frame, but no more than `MAX_FRAME_NANOS`.
pub fn clamp_frame(frame_nanos: u64) -> (clamped: u64)
    ensures
        clamped == clamped_frame(frame_nanos as int),
{
    if frame_nanos > MAX_FRAME_NANOS {
        MAX_FRAME_NANOS
    } else {
        frame_nanos
    }
}

/// The accumulator of the fixed timestep: the time that has passed and has not been
/// simulated yet. Between frames it is less than one tick.
#[derive(Clone, Copy, Debug)]
pub struct FixedTimestep {
    accumulator: u64,
}

impl FixedTimestep {
    #[verifier::type_invariant]
    spec fn below_one_step(self) -> bool {
        self.accumulator < STEP_NANOS
    }

    /// The time, in nanoseconds, that has passed and has not been simulated yet.
    pub closed spec fn pending(self) -> nat {
        self.accumulator as nat
    }

    /// A timestep with nothing to simulate.
    pub fn new() -> (timestep: Self)
        ensures
            timestep.pending() == 0,
    {
        FixedTimestep { accumulator: 0 }
    }

    /// The time, in nanoseconds, that has passed and has not been simulated yet. The
    /// fraction of a tick that it makes up is what a renderer interpolates by.
    pub fn pending_nanos(&self) -> (nanos: u64)
        ensures
            nanos == self.pending(),
            nanos < STEP_NANOS,
    {
        proof {
            use_type_invariant(self);
        }
        self.accumulator
    }

    /// Takes in a frame that took `frame_nanos` nanoseconds, and says how many ticks
    /// the simulation is to run before the frame is rendered: one for every
    /// `STEP_NANOS` of the time that was pending and the time of the frame, of which no
    /// more than `MAX_FRAME_NANOS` count. What is left over stays pending. No frame runs
    /// more than `MAX_TICKS_PER_FRAME` ticks, and a frame of `MAX_FRAME_NANOS` or longer
    /// runs exactly that many.
    pub fn advance(&mut self, frame_nanos: u64) -> (ticks: u32)
        ensures
            ticks == ticks_due(old(self).pending() as int, frame_nanos as int),
            final(self).pending() == pending_after(old(self).pending() as int, frame_nanos as int),
            ticks <= MAX_TICKS_PER_FRAME,
            frame_nanos >= MAX_FRAME_NANOS ==> ticks == MAX_TICKS_PER_FRAME,
            old(self).pending() < STEP_NANOS,
            final(self).pending() < STEP_NANOS,
    {
        proof {
            use_type_invariant(&*self);
        }
        let frame_time: u64 = clamp_frame(frame_nanos);
        let mut accumulator: u64 = self.accumulator + frame_time;
        let ghost total = accumulator;
        let mut ticks: u32 = 0;
        while accumulator >= STEP_NANOS
            invariant
                ticks * STEP_NANOS + accumulator == total,
                total < STEP_NANOS + MAX_FRAME_NANOS,
            decreases accumulator,
        {
            ticks = ticks + 1;
            accumulator = accumulator - STEP_NANOS;
        }
        self.accumulator = accumulator;
        ticks
    }
}

} // verus!
