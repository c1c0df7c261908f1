//! The playback pacer: a pure calculator of how long the render loop
//! should wait so that frame emission keeps up with the source frame
//! rate. It only ever delays; when decoding falls behind real time it
//! yields zero and the loop silently runs late.

use vstd::prelude::*;

verus! {

pub const NANOS_PER_SEC: u64 = 1_000_000_000;

/// Frame counting against a fixed rational frame rate. The start
/// instant stays with the caller: elapsed wall time is handed in, so
/// the pacer is testable without a real clock.
pub struct Pacer {
    pub fps_num: u32,
    pub fps_den: u32,
    pub frame_count: u64,
}

impl Pacer {
    pub open spec fn wf(self) -> bool {
        self.fps_num > 0 && self.fps_den > 0
    }

    /// Where the wall clock ought to stand after `frame_count` frames:
    /// `frame_count / fps` seconds, in nanoseconds.
    pub open spec fn expected_elapsed_nanos(self) -> int {
        self.frame_count * NANOS_PER_SEC * self.fps_den / (self.fps_num as int)
    }

    /// How long to wait when `elapsed` nanoseconds have passed: the
    /// shortfall against the schedule, zero when on or behind it,
    /// saturated if it cannot be carried in nanoseconds.
    pub open spec fn spec_sleep_nanos(self, elapsed: int) -> int {
        let expected = self.expected_elapsed_nanos();
        if expected <= elapsed {
            0
        } else if expected - elapsed <= u64::MAX {
            expected - elapsed
        } else {
            u64::MAX as int
        }
    }

    /// A pacer for a source that declares `fps_num / fps_den` frames
    /// per second, with no frame seen yet.
    pub fn new(fps_num: u32, fps_den: u32) -> (p: Pacer)
        requires
            0 < fps_num,
            0 < fps_den,
        ensures
            p.wf(),
            p.fps_num == fps_num,
            p.fps_den == fps_den,
            p.frame_count == 0,
    {
        Pacer { fps_num, fps_den, frame_count: 0 }
    }

    /// Counts one more decoded frame. The count never moves backward.
    pub fn count_frame(&mut self)
        requires
            old(self).frame_count < u64::MAX,
        ensures
            final(self).frame_count == old(self).frame_count + 1,
            final(self).fps_num == old(self).fps_num,
            final(self).fps_den == old(self).fps_den,
    {
        self.frame_count = self.frame_count + 1;
    }

    /// The wait that keeps emission on schedule. The caller performs
    /// the actual sleep.
    pub fn sleep_nanos(&self, elapsed_nanos: u64) -> (wait: u64)
        requires
            self.wf(),
        ensures
            wait == self.spec_sleep_nanos(elapsed_nanos as int),
            self.expected_elapsed_nanos() <= elapsed_nanos ==> wait == 0,
    {
        proof {
            assert((self.frame_count as int) * (NANOS_PER_SEC as int) <= 0xffff_ffff_ffff_ffff
                * 1_000_000_000) by (nonlinear_arith)
                requires
                    0 <= self.frame_count <= 0xffff_ffff_ffff_ffff,
            ;
            assert((self.frame_count as int) * (NANOS_PER_SEC as int) * (self.fps_den as int)
                <= 0xffff_ffff_ffff_ffff * 1_000_000_000 * 0xffff_ffff) by (nonlinear_arith)
                requires
                    0 <= self.frame_count * NANOS_PER_SEC <= 0xffff_ffff_ffff_ffff
                        * 1_000_000_000,
                    0 <= self.fps_den <= 0xffff_ffff,
            ;
        }
        let scaled: u128 = (self.frame_count as u128) * (NANOS_PER_SEC as u128)
            * (self.fps_den as u128);
        let expected: u128 = scaled / (self.fps_num as u128);
        let elapsed: u128 = elapsed_nanos as u128;
        if elapsed < expected {
            let shortfall: u128 = expected - elapsed;
            if shortfall > (u64::MAX as u128) {
                u64::MAX
            } else {
                shortfall as u64
            }
        } else {
            0
        }
    }
}

} // verus!
