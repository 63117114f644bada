//! The pace of the frame loop: how long to wait for input, how long to
//! rest at the end of a frame, and how many frames a second come out.
//! All times are in nanoseconds.

use vstd::prelude::*;

verus! {

/// The length a frame is meant to have where the launcher runs: 16
/// milliseconds.
pub const TARGET_FRAME: u64 = 16_000_000;

/// The length a frame is meant to have where the game runs alone: 33
/// milliseconds.
pub const TARGET_FRAME_GAME: u64 = 33_000_000;

/// The rate is taken over the frames that started last, at most this many
/// and one more.
pub const FRAME_WINDOW: usize = 10;

/// How the loop waits for input.
#[derive(Clone, Copy, Debug, PartialEq, Eq, Structural)]
pub enum InputWait {
    /// Wait for input for at most this long, then go on without.
    Poll(u64),
    /// Wait until input comes.
    Block,
}

/// The smaller of two numbers.
pub open spec fn smaller(a: int, b: int) -> int {
    if a <= b {
        a
    } else {
        b
    }
}

/// What is left of a frame of length `target` after `elapsed` of it has
/// been used: nothing where the frame has run over.
pub open spec fn rest_of(elapsed: int, target: int) -> int {
    if elapsed < target {
        target - elapsed
    } else {
        0
    }
}

/// The frame times after a frame has started at `now`: the oldest is
/// dropped where more than `FRAME_WINDOW` are held, and `now` comes last.
pub open spec fn recorded(times: Seq<u64>, now: u64) -> Seq<u64> {
    if times.len() > FRAME_WINDOW {
        times.drop_first().push(now)
    } else {
        times.push(now)
    }
}

/// The frame rate over `times`, in thousandths of a frame per second: the
/// number of frames after the first, over the time from the first to the
/// last, rounded down. It is zero where fewer than two frames are held or
/// no time has passed between the first and the last.
pub open spec fn rate(times: Seq<u64>) -> int {
    if times.len() > 1 && times.last() > times.first() {
        (times.len() - 1) * 1_000_000_000_000 / (times.last() - times.first())
    } else {
        0
    }
}

/// How long to wait for input in a frame that started `dt` after the one
/// before: as long as that, but no longer than the frame is meant to be.
pub fn poll_timeout(dt: u64, target: u64) -> (timeout: u64)
    ensures
        timeout == smaller(dt as int, target as int),
{
    if dt <= target {
        dt
    } else {
        target
    }
}

/// How long to rest at the end of a frame that has taken `elapsed`, so
/// that it lasts as long as it is meant to.
pub fn frame_rest(elapsed: u64, target: u64) -> (rest: u64)
    ensures
        rest == rest_of(elapsed as int, target as int),
        elapsed + rest >= target,
        elapsed >= target ==> rest == 0,
{
    if elapsed < target {
        target - elapsed
    } else {
        0
    }
}

/// The times at which the last frames started.
pub struct FrameTimes {
    times: Vec<u64>,
}

impl View for FrameTimes {
    type V = Seq<u64>;

    closed spec fn view(&self) -> Seq<u64> {
        self.times@
    }
}

impl FrameTimes {
    /// Whether no more times are held than the window and one.
    pub open spec fn wf(self) -> bool {
        self@.len() <= FRAME_WINDOW + 1
    }

    /// No frame has started yet.
    pub fn new() -> (times: Self)
        ensures
            times@ == Seq::<u64>::empty(),
            times.wf(),
    {
        FrameTimes { times: Vec::new() }
    }

    /// How many times are held.
    pub fn len(&self) -> (len: usize)
        ensures
            len == self@.len(),
    {
        self.times.len()
    }

    /// Notes that a frame has started at `now`.
    pub fn record(&mut self, now: u64)
        requires
            old(self).wf(),
        ensures
            final(self)@ == recorded(old(self)@, now),
            final(self).wf(),
    {
        if self.times.len() > FRAME_WINDOW {
            self.times.remove(0);
            assert(self.times@ =~= old(self)@.drop_first());
        }
        self.times.push(now);
    }

    /// The frame rate over the times held, in thousandths of a frame per
    /// second.
    pub fn rate(&self) -> (fps: u64)
        requires
            self.wf(),
        ensures
            fps == rate(self@),
    {
        let len: usize = self.times.len();
        if len < 2 {
            return 0;
        }
        let first: u64 = self.times[0];
        let last: u64 = self.times[len - 1];
        if last <= first {
            return 0;
        }
        let frames: u64 = (len - 1) as u64;
        frames * 1_000_000_000_000 / (last - first)
    }
}

} // verus!
