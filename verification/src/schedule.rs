//! The schedule-driven view of the computer: the scheduled power state
//! and the scheduled target load of each consumer at a time of day.

use vstd::prelude::*;

use crate::computer::{Consumer, LOAD_READY_USER};
use crate::machine::{first_window, in_window, lemma_first_window_at, lemma_first_window_some};
use crate::machine::{MachineState, LOAD_READY_SYSTEM};

verus! {

/// The seconds from a window's start during which the machine boots.
pub const BOOT_SECONDS: u32 = 10;

/// The seconds before a window's stop during which the machine shuts
/// down.
pub const SHUTDOWN_SECONDS: u32 = 10;

/// The scheduled `System` target load while booting.
pub const LOAD_BOOTING_SYSTEM: u32 = 900;

/// The scheduled `System` target load while shutting down.
pub const LOAD_SHUTTING_DOWN_SYSTEM: u32 = 750;

/// The usage schedule of the computer: a fixed list of times of day at
/// which the computer turns on, each for the same fixed duration.
#[derive(Debug)]
pub struct ComputerSchedule {
    /// The starts of the on-windows, in whole seconds from midnight.
    pub start: Vec<u32>,
    /// The length of each on-window, in whole seconds.
    pub duration: u32,
}

impl ComputerSchedule {
    /// Whether the computer is scheduled to be on at the given time of
    /// day, both window bounds inclusive.
    pub open spec fn spec_is_on(self, time: u32) -> bool {
        exists|i: int| 0 <= i < self.start@.len() && in_window(self.start@[i], self.duration, time)
    }

    /// The scheduled state of the computer at the given time of day: off
    /// outside every window; within a window, booting during the first
    /// seconds, shutting down during the last, and ready in between.
    pub open spec fn spec_state(self, time: u32) -> MachineState {
        match first_window(self.start@, self.duration, time) {
            None => MachineState::Off,
            Some(start) => if time < start + BOOT_SECONDS {
                MachineState::Booting
            } else if time + SHUTDOWN_SECONDS > start + self.duration {
                MachineState::ShuttingDown
            } else {
                MachineState::Ready
            },
        }
    }

    /// Create a new computer schedule from the template.
    pub fn new() -> (r: ComputerSchedule)
        ensures
            r.start@ == seq![
                52325u32,
                52920u32,
                53570u32,
                54180u32,
                54790u32,
                55400u32,
            ],
            r.duration == 60,
    {
        let start: Vec<u32> = vec![52325, 52920, 53570, 54180, 54790, 55400];
        proof {
            assert(start@ =~= seq![52325u32, 52920u32, 53570u32, 54180u32, 54790u32, 55400u32]);
        }
        ComputerSchedule { start, duration: 60 }
    }

    /// If the computer is currently on, return the time it was started
    /// and will stop. Otherwise return `None`.
    fn start_stop(&self, time: u32) -> (r: Option<(u32, u64)>)
        ensures
            match r {
                Some((start, stop)) => first_window(self.start@, self.duration, time) == Some(
                    start,
                ) && stop == start + self.duration,
                None => first_window(self.start@, self.duration, time) is None,
            },
    {
        let n = self.start.len();
        let mut i: usize = 0;
        while i < n
            invariant
                n == self.start@.len(),
                0 <= i <= n,
                forall|j: int|
                    0 <= j < i ==> !in_window(#[trigger] self.start@[j], self.duration, time),
            decreases n - i,
        {
            let start = self.start[i];
            let stop = start as u64 + self.duration as u64;
            if time as u64 >= start as u64 && time as u64 <= stop {
                proof {
                    lemma_first_window_at(self.start@, self.duration, time, i as int);
                }
                return Some((start, stop));
            }
            i = i + 1;
        }
        proof {
            lemma_first_window_some(self.start@, self.duration, time);
        }
        None
    }

    /// Provide the scheduled state of the computer.
    pub fn state(&self, time: u32) -> (r: MachineState)
        ensures
            r == self.spec_state(time),
    {
        let (start, stop) = match self.start_stop(time) {
            Some(x) => x,
            None => {
                return MachineState::Off;
            },
        };

        if (time as u64) < start as u64 + BOOT_SECONDS as u64 {
            MachineState::Booting
        } else if time as u64 + SHUTDOWN_SECONDS as u64 > stop {
            MachineState::ShuttingDown
        } else {
            MachineState::Ready
        }
    }

    /// Returns the current discrete target load of the computer at the
    /// specified time: state-dependent for `System`, fixed while ready
    /// for `User`, zero for every consumer outside the windows, and an
    /// error for consumers the schedule has no rule for.
    pub fn load(&self, consumer: &Consumer, time: u32) -> (r: Result<u32, &'static str>)
        ensures
            match first_window(self.start@, self.duration, time) {
                None => r == Ok::<u32, &'static str>(0u32),
                Some(_) => match *consumer {
                    Consumer::System => r == Ok::<u32, &'static str>(
                        match self.spec_state(time) {
                            MachineState::Booting => LOAD_BOOTING_SYSTEM,
                            MachineState::ShuttingDown => LOAD_SHUTTING_DOWN_SYSTEM,
                            MachineState::Ready => LOAD_READY_SYSTEM,
                            MachineState::Off => 0u32,
                        },
                    ),
                    Consumer::User => r == Ok::<u32, &'static str>(
                        if self.spec_state(time) == MachineState::Ready {
                            LOAD_READY_USER
                        } else {
                            0u32
                        },
                    ),
                    Consumer::Player | Consumer::Enemy => r is Err,
                },
            },
    {
        if self.start_stop(time).is_none() {
            return Ok(0);
        }

        match *consumer {
            Consumer::System => {
                match self.state(time) {
                    MachineState::Booting => Ok(LOAD_BOOTING_SYSTEM),
                    MachineState::ShuttingDown => Ok(LOAD_SHUTTING_DOWN_SYSTEM),
                    MachineState::Ready => Ok(LOAD_READY_SYSTEM),
                    _ => Ok(0),
                }
            },
            Consumer::User => {
                match self.state(time) {
                    MachineState::Ready => Ok(LOAD_READY_USER),
                    _ => Ok(0),
                }
            },
            _ => Err("Consumer not legal"),
        }
    }
}

} // verus!
