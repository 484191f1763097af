//! Counting the frames of each second.

use vstd::prelude::*;

verus! {

/// The length of the window over which frames are counted: one second.
pub const ONE_SECOND_NANOS: u64 = 1_000_000_000;

/// Counts the frames and the updates since the window began, and keeps the counts
/// of the window that ended last. Time is measured in whole nanoseconds.
///
/// `timer` is the time that has passed since the window began, `frames_counter` and
/// `update_counter` are the counts since then.
#[derive(Clone, Copy, Debug)]
pub struct FPSCounter {
    pub frames_per_second: i32,
    pub updates_per_second: i32,
    pub timer: u64,
    pub frames_counter: i32,
    pub update_counter: i32,
}

impl FPSCounter {
    /// Whether the counter can take in a frame of `elapsed` nanoseconds: neither the
    /// counts nor the timer leave the range of their types.
    pub open spec fn can_tick(&self, elapsed: int) -> bool {
        &&& self.frames_counter < i32::MAX
        &&& self.update_counter < i32::MAX
        &&& self.timer + elapsed <= u64::MAX
    }

    /// A counter that has seen no frame.
    pub fn new() -> (counter: Self)
        ensures
            counter.frames_per_second == 0,
            counter.updates_per_second == 0,
            counter.timer == 0,
            counter.frames_counter == 0,
            counter.update_counter == 0,
    {
        FPSCounter {
            frames_per_second: 0,
            updates_per_second: 0,
            timer: 0,
            frames_counter: 0,
            update_counter: 0,
        }
    }

    /// Whether the counter can take in a frame of `elapsed_nanos` nanoseconds.
    pub fn is_tickable(&self, elapsed_nanos: u64) -> (ok: bool)
        ensures
            ok == self.can_tick(elapsed_nanos as int),
    {
        self.frames_counter < i32::MAX && self.update_counter < i32::MAX && self.timer
            <= u64::MAX - elapsed_nanos
    }

    /// Takes in a frame that took `elapsed_nanos` nanoseconds, and says whether the
    /// window has ended with it.
    ///
    /// The window ends with the frame that brings the timer past one second. Its
    /// counts, this frame included, become the counts per second, the counts since
    /// the window began start again from zero, and the timer keeps what it has
    /// beyond the second.
    pub fn tick(&mut self, elapsed_nanos: u64) -> (ended: bool)
        requires
            old(self).can_tick(elapsed_nanos as int),
        ensures
            ended == (old(self).timer + elapsed_nanos > ONE_SECOND_NANOS),
            !ended ==> {
                &&& final(self).timer == old(self).timer + elapsed_nanos
                &&& final(self).frames_counter == old(self).frames_counter + 1
                &&& final(self).update_counter == old(self).update_counter + 1
                &&& final(self).frames_per_second == old(self).frames_per_second
                &&& final(self).updates_per_second == old(self).updates_per_second
            },
            ended ==> {
                &&& final(self).timer == old(self).timer + elapsed_nanos - ONE_SECOND_NANOS
                &&& final(self).frames_counter == 0
                &&& final(self).update_counter == 0
                &&& final(self).frames_per_second == old(self).frames_counter + 1
                &&& final(self).updates_per_second == old(self).update_counter + 1
            },
    {
        self.update_counter = self.update_counter + 1;
        self.frames_counter = self.frames_counter + 1;
        self.timer = self.timer + elapsed_nanos;
        if self.timer <= ONE_SECOND_NANOS {
            return false;
        }
        self.updates_per_second = self.update_counter;
        self.frames_per_second = self.frames_counter;
        self.update_counter = 0;
        self.frames_counter = 0;
        self.timer = self.timer - ONE_SECOND_NANOS;
        true
    }
}

} // verus!
