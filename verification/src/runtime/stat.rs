//! Frame pacing: the time that each simulation tick took.

use vstd::prelude::*;

verus! {

/// The clock could not be read.
#[derive(Debug, Clone, Copy, PartialEq, Eq, Structural)]
pub struct ClockError;

/// Count of the ticks so far, and the time of the last one. Times are
/// readings of a monotonic clock in microseconds.
#[derive(Debug, Clone, Copy, PartialEq, Eq, Structural)]
pub struct PerformanceStat {
    pub current_frame: u64,
    pub last_frame_time: u64,
}

impl PerformanceStat {
    /// The statistics before the first tick, which starts at `now`.
    pub fn new(now: u64) -> (stat: Self)
        ensures
            stat == (PerformanceStat { current_frame: 0, last_frame_time: now }),
    {
        PerformanceStat { current_frame: 0, last_frame_time: now }
    }

    /// Counts one tick and returns the time since the tick before, which is
    /// zero where the clock went backwards. A tick on which the clock could
    /// not be read is counted too, and the time of the last reading stays.
    pub fn tick(&mut self, now: Result<u64, ClockError>) -> (elapsed: Result<u64, ClockError>)
        requires
            old(self).current_frame < u64::MAX,
        ensures
            final(self).current_frame == old(self).current_frame + 1,
            final(self).last_frame_time == match now {
                Ok(time) => time,
                Err(_) => old(self).last_frame_time,
            },
            elapsed == match now {
                Ok(time) => Ok::<u64, ClockError>(
                    if time >= old(self).last_frame_time {
                        (time - old(self).last_frame_time) as u64
                    } else {
                        0
                    },
                ),
                Err(error) => Err(error),
            },
    {
        self.current_frame = self.current_frame + 1;
        match now {
            Ok(time) => {
                let last_frame_time = self.last_frame_time;
                self.last_frame_time = time;
                if time >= last_frame_time {
                    Ok(time - last_frame_time)
                } else {
                    Ok(0)
                }
            },
            Err(error) => Err(error),
        }
    }
}

} // verus!
