//! Frame-rate bookkeeping over caller-supplied clock readings.
//!
//! The counter keeps a bounded window of recent frame times, in milliseconds,
//! fed to it once per frame.  The rate is the number of retained frames per
//! second of wall-clock time spanned by the window, truncated to a whole
//! number; a window that spans no time, or a clock that stepped backwards,
//! reads as zero.

use vstd::prelude::*;

verus! {

/// What recording one frame time does to the window: the reading goes to the
/// back and, above capacity, the oldest (front) reading leaves.
pub open spec fn spec_record(times: Seq<u128>, now: u128, cap: nat) -> Seq<u128> {
    let s = times.push(now);
    if s.len() > cap {
        s.skip(1)
    } else {
        s
    }
}

/// The truncated frame rate read from a window: the number of readings,
/// scaled to frames per second by the window's span in milliseconds, zero
/// when fewer than two readings or a non-advancing clock leave no span.
pub open spec fn spec_fps(times: Seq<u128>) -> int {
    if times.len() < 2 {
        0
    } else {
        let diff = times.last() - times.first();
        if diff <= 0 {
            0
        } else {
            let q = (times.len() as int) * 1000 / diff;
            if q > usize::MAX as int {
                usize::MAX as int
            } else {
                q
            }
        }
    }
}

/// A frames-per-second counter over a bounded window of frame times.
pub struct FPS {
    pub frame_times: Vec<u128>,
    pub max_frames: usize,
    pub frame: usize,
}

impl FPS {
    /// Well-formedness: the window stays within its capacity.
    pub open spec fn wf(self) -> bool {
        self.frame_times@.len() <= self.max_frames as nat
    }

    /// A counter with an empty window of the given capacity.
    pub fn new(max_frames: usize) -> (r: FPS)
        ensures
            r.wf(),
            r.frame_times@ == Seq::<u128>::empty(),
            r.max_frames == max_frames,
            r.frame == 0,
    {
        FPS { frame_times: Vec::new(), max_frames, frame: 0 }
    }

    /// Record the current frame time, evicting the oldest reading when the
    /// window is full, and count the frame.
    pub fn update(&mut self, now_ms: u128)
        requires
            old(self).wf(),
            old(self).frame < usize::MAX,
        ensures
            final(self).wf(),
            final(self).max_frames == old(self).max_frames,
            final(self).frame == old(self).frame + 1,
            final(self).frame_times@ == spec_record(
                old(self).frame_times@,
                now_ms,
                old(self).max_frames as nat,
            ),
    {
        self.frame_times.push(now_ms);
        if self.frame_times.len() > self.max_frames {
            self.frame_times.remove(0);
            proof {
                assert(self.frame_times@ =~= old(self).frame_times@.push(now_ms).skip(1));
            }
        }
        self.frame = self.frame + 1;
    }

    /// The current truncated frames-per-second reading.
    pub fn fps(&self) -> (r: usize)
        ensures
            r as int == spec_fps(self.frame_times@),
    {
        let n: usize = self.frame_times.len();
        if n < 2 {
            return 0;
        }
        let back: u128 = self.frame_times[n - 1];
        let front: u128 = self.frame_times[0];
        if back <= front {
            return 0;
        }
        let diff: u128 = back - front;
        let q: u128 = (n as u128) * 1000 / diff;
        if q > usize::MAX as u128 {
            usize::MAX
        } else {
            q as usize
        }
    }

    /// The number of frames recorded since construction.
    pub fn frame(&self) -> (r: usize)
        ensures
            r == self.frame,
    {
        self.frame
    }
}

} // verus!
