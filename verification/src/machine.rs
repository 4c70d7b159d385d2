//! The machine load engine: per-consumer loads under a shared capacity
//! bound, the power-state machine, and the usage schedule.

use vstd::prelude::*;

use crate::computer::Consumer;

verus! {

/// The number of whole seconds in one day; times of day are counted in
/// seconds from midnight.
pub const SECONDS_PER_DAY: u64 = 86400;

/// Work units the system must accumulate to finish booting.
pub const WORK_BOOTING: u32 = 9000;

/// Work units the system must accumulate to finish shutting down.
pub const WORK_SHUTTING_DOWN: u32 = 5000;

/// The steady system load while the machine is ready.
pub const LOAD_READY_SYSTEM: u32 = 100;

/// The load on a machine's resource: either an exact figure, or all spare
/// capacity minus a small random margin.
#[derive(Debug, Clone, Copy)]
pub enum Load {
    Max,
    Exact(u32),
}

/// The power state of the machine.
#[derive(Debug, PartialEq, Eq, Clone, Copy, Structural)]
pub enum MachineState {
    Off,
    Booting,
    Ready,
    ShuttingDown,
}

impl MachineState {
    /// The work required to complete the state, or `None` if the state is
    /// not one that completes.
    pub open spec fn spec_work(self) -> Option<u32> {
        match self {
            MachineState::Booting => Some(WORK_BOOTING),
            MachineState::ShuttingDown => Some(WORK_SHUTTING_DOWN),
            _ => None,
        }
    }

    /// Returns the work required to complete the state. If the returned
    /// value is `None` the state cannot be completed.
    pub fn work(state: &MachineState) -> (r: Option<u32>)
        ensures
            r == state.spec_work(),
    {
        match *state {
            MachineState::Booting => Some(WORK_BOOTING),
            MachineState::ShuttingDown => Some(WORK_SHUTTING_DOWN),
            _ => None,
        }
    }

    /// The text of the state, as a status label displays it.
    pub open spec fn spec_label(self) -> Seq<char> {
        match self {
            MachineState::Off => "Off"@,
            MachineState::Booting => "Booting"@,
            MachineState::Ready => "Ready"@,
            MachineState::ShuttingDown => "Shutting down"@,
        }
    }

    /// The text of the state, for a status label.
    pub fn label(&self) -> (r: &'static str)
        ensures
            r@ == self.spec_label(),
    {
        match *self {
            MachineState::Off => "Off",
            MachineState::Booting => "Booting",
            MachineState::Ready => "Ready",
            MachineState::ShuttingDown => "Shutting down",
        }
    }

    /// The continuous system load during this machine state.
    pub open spec fn spec_load(self) -> Load {
        match self {
            MachineState::Booting | MachineState::ShuttingDown => Load::Max,
            MachineState::Ready => Load::Exact(LOAD_READY_SYSTEM),
            _ => Load::Exact(0),
        }
    }

    /// Returns the continuous system load during different machine states.
    /// This is always present and added to the work of `work()`.
    pub fn load(state: &MachineState) -> (r: Load)
        ensures
            r == state.spec_load(),
    {
        match *state {
            MachineState::Booting | MachineState::ShuttingDown => Load::Max,
            MachineState::Ready => Load::Exact(LOAD_READY_SYSTEM),
            _ => Load::Exact(0),
        }
    }
}

/// A table holding one integer figure per consumer. Keeping one field per
/// consumer makes a missing entry impossible by construction.
#[derive(Debug, PartialEq, Eq, Clone, Copy, Structural)]
pub struct Loads {
    pub system: u32,
    pub user: u32,
    pub player: u32,
    pub enemy: u32,
}

impl Loads {
    /// The table with every entry zero.
    pub open spec fn zero() -> Loads {
        Loads { system: 0, user: 0, player: 0, enemy: 0 }
    }

    /// The entry of the given consumer.
    pub open spec fn spec_get(self, consumer: Consumer) -> u32 {
        match consumer {
            Consumer::System => self.system,
            Consumer::User => self.user,
            Consumer::Player => self.player,
            Consumer::Enemy => self.enemy,
        }
    }

    /// The table with the given consumer's entry replaced.
    pub open spec fn with(self, consumer: Consumer, value: u32) -> Loads {
        match consumer {
            Consumer::System => Loads { system: value, ..self },
            Consumer::User => Loads { user: value, ..self },
            Consumer::Player => Loads { player: value, ..self },
            Consumer::Enemy => Loads { enemy: value, ..self },
        }
    }

    /// The sum of all entries.
    pub open spec fn total(self) -> int {
        self.system + self.user + self.player + self.enemy
    }

    /// Create a table with every entry zero.
    pub fn new() -> (r: Loads)
        ensures
            r == Loads::zero(),
    {
        Loads { system: 0, user: 0, player: 0, enemy: 0 }
    }

    /// Read the entry of the given consumer.
    pub fn get(&self, consumer: &Consumer) -> (r: u32)
        ensures
            r == self.spec_get(*consumer),
    {
        match *consumer {
            Consumer::System => self.system,
            Consumer::User => self.user,
            Consumer::Player => self.player,
            Consumer::Enemy => self.enemy,
        }
    }

    /// Replace the entry of the given consumer.
    pub fn set(&mut self, consumer: &Consumer, value: u32)
        ensures
            *final(self) == old(self).with(*consumer, value),
    {
        match *consumer {
            Consumer::System => self.system = value,
            Consumer::User => self.user = value,
            Consumer::Player => self.player = value,
            Consumer::Enemy => self.enemy = value,
        }
    }
}

/// One step of spill reduction: if the total exceeds the capacity, the
/// given consumer's load is cut by the excess, at most down to zero.
pub open spec fn reduce_one(loads: Loads, cpu: int, consumer: Consumer) -> Loads {
    let spill = loads.total() - cpu;
    if spill > 0 {
        let cur = loads.spec_get(consumer) as int;
        let reduced = if spill < cur {
            cur - spill
        } else {
            0
        };
        loads.with(consumer, reduced as u32)
    } else {
        loads
    }
}

/// Full spill reduction, cutting consumers in fixed priority order:
/// `Player` first, then `User`, then `Enemy`. `System` is never cut.
pub open spec fn after_spill(loads: Loads, cpu: int) -> Loads {
    reduce_one(
        reduce_one(reduce_one(loads, cpu, Consumer::Player), cpu, Consumer::User),
        cpu,
        Consumer::Enemy,
    )
}

/// The machine after one load assignment: the consumer's load is
/// replaced, the spill is reduced in priority order, and, if the bound
/// still cannot be met, the machine crashes — every load drops to zero
/// and the state falls back to `Booting`.
pub open spec fn set_load_spec(m: Machine, consumer: Consumer, val: u32) -> Machine {
    let reduced = after_spill(m.load.with(consumer, val), m.cpu as int);
    if reduced.total() <= m.cpu {
        Machine { load: reduced, ..m }
    } else {
        Machine { load: Loads::zero(), state: MachineState::Booting, ..m }
    }
}

/// The hardware capabilities and its current, mutable condition.
#[derive(Debug)]
pub struct Machine {
    /// The capability of the CPU. The higher the number, the better is the
    /// CPU.
    pub cpu: u32,
    pub state: MachineState,
    pub work_done: Loads,
    /// The load each consumer currently puts on the hardware. Mutate it
    /// through `set_load`, which keeps the total within the capacity.
    pub load: Loads,
    /// The load each consumer wants to put on the hardware.
    pub load_target: Loads,
}

impl Machine {
    /// Create a machine with the given capacity, all loads and work zero,
    /// in the `Off` state.
    pub fn new(cpu: u32) -> (r: Machine)
        ensures
            r.cpu == cpu,
            r.state == MachineState::Off,
            r.work_done == Loads::zero(),
            r.load == Loads::zero(),
            r.load_target == Loads::zero(),
    {
        Machine {
            cpu,
            state: MachineState::Off,
            work_done: Loads::new(),
            load: Loads::new(),
            load_target: Loads::new(),
        }
    }

    /// Return the total load on the hardware.
    fn load_total(&self) -> (r: u64)
        ensures
            r == self.load.total(),
    {
        self.load.system as u64 + self.load.user as u64 + self.load.player as u64
            + self.load.enemy as u64
    }

    /// Return the load the given consumer is putting on the hardware.
    pub fn get_load(&self, consumer: &Consumer) -> (r: u32)
        ensures
            r == self.load.spec_get(*consumer),
    {
        self.load.get(consumer)
    }

    /// Cut the given consumer's load by the spill, at most down to zero.
    fn reduce_consumer(&mut self, consumer: &Consumer)
        ensures
            final(self).cpu == old(self).cpu,
            final(self).state == old(self).state,
            final(self).work_done == old(self).work_done,
            final(self).load_target == old(self).load_target,
            final(self).load == reduce_one(
                old(self).load,
                old(self).cpu as int,
                *consumer,
            ),
    {
        let total = self.load_total();
        if total > self.cpu as u64 {
            let spill = total - self.cpu as u64;
            let cur = self.load.get(consumer);
            let new_load: u32 = if spill < cur as u64 {
                cur - spill as u32
            } else {
                0
            };
            self.load.set(consumer, new_load);
        }
    }

    /// Set the load the given consumer is putting on the hardware. Since
    /// the total load of all consumers can never exceed the capacity, some
    /// consumer's load may be reduced; if even that cannot restore the
    /// bound, the machine crashes.
    pub fn set_load(&mut self, consumer: &Consumer, val: u32)
        ensures
            *final(self) == set_load_spec(*old(self), *consumer, val),
            final(self).load.total() <= final(self).cpu,
    {
        self.load.set(consumer, val);

        self.reduce_consumer(&Consumer::Player);
        self.reduce_consumer(&Consumer::User);
        self.reduce_consumer(&Consumer::Enemy);

        // If the system still has more load than capacity, it crashes.
        let total = self.load_total();
        if total > self.cpu as u64 {
            self.crash();
        }
    }

    /// Return the load the given consumer wants to put on the machine.
    pub fn get_load_target(&self, consumer: &Consumer) -> (r: u32)
        ensures
            r == self.load_target.spec_get(*consumer),
    {
        self.load_target.get(consumer)
    }

    /// Set the load the given consumer wants to put on the machine. It is
    /// not guaranteed that it can do so. To read the load the consumer
    /// actually puts on the machine see `get_load()`.
    pub fn set_load_target(&mut self, consumer: &Consumer, val: u32)
        ensures
            ({
                let retargeted = Machine {
                    load_target: old(self).load_target.with(*consumer, val),
                    ..*old(self)
                };
                *final(self) == set_load_spec(retargeted, *consumer, val)
            }),
            final(self).load.total() <= final(self).cpu,
    {
        self.load_target.set(consumer, val);
        self.set_load(consumer, val);
    }

    /// Crash the hardware.
    fn crash(&mut self)
        ensures
            final(self).cpu == old(self).cpu,
            final(self).work_done == old(self).work_done,
            final(self).load_target == old(self).load_target,
            final(self).load == Loads::zero(),
            final(self).state == MachineState::Booting,
    {
        self.load = Loads::new();
        self.state = MachineState::Booting;
    }
}

/// The clock holding the actual in-game time.
///
/// Time is held as plain integers: the date and time as microseconds since
/// the epoch, and the clock speed as thousandths, so that one second of
/// real-world time advances the in-game time by `speed / 1000` seconds.
#[derive(Debug, PartialEq, Eq, Clone, Copy, Structural)]
pub struct Clock {
    /// The in-game date and time, in microseconds since the epoch.
    pub datetime: i64,
    /// The speed of the clock, in thousandths. This is a factor between
    /// the real-world time and the in-game time.
    pub speed: u32,
}

impl Clock {
    /// The in-game time of day, in whole seconds from midnight.
    pub open spec fn spec_time(self) -> int {
        (self.datetime / 1_000_000) % (SECONDS_PER_DAY as int)
    }

    /// Advancing the in-game time by a certain duration, in microseconds.
    pub fn advance(&mut self, dur: i64)
        requires
            0 <= dur,
            old(self).datetime + dur <= i64::MAX,
        ensures
            final(self).datetime == old(self).datetime + dur,
            final(self).speed == old(self).speed,
    {
        self.datetime = self.datetime + dur;
    }

    /// The in-game time of day, in whole seconds from midnight.
    pub fn time(&self) -> (r: u32)
        requires
            0 <= self.datetime,
        ensures
            r == self.spec_time(),
            r < SECONDS_PER_DAY,
    {
        let micros = self.datetime as u64;
        ((micros / 1_000_000) % SECONDS_PER_DAY) as u32
    }
}

/// Whether a time of day falls within the window of the given start and
/// duration, both bounds inclusive.
pub open spec fn in_window(start: u32, duration: u32, time: u32) -> bool {
    start <= time <= start + duration
}

/// The start of the first window of `starts` that contains `time`, or
/// `None` if no window does.
pub open spec fn first_window(starts: Seq<u32>, duration: u32, time: u32) -> Option<u32>
    decreases starts.len(),
{
    if starts.len() == 0 {
        None
    } else if in_window(starts[0], duration, time) {
        Some(starts[0])
    } else {
        first_window(starts.drop_first(), duration, time)
    }
}

/// A window of `starts` contains `time` exactly when `first_window` finds
/// one.
pub proof fn lemma_first_window_some(starts: Seq<u32>, duration: u32, time: u32)
    ensures
        first_window(starts, duration, time) is Some <==> exists|i: int|
            0 <= i < starts.len() && in_window(starts[i], duration, time),
    decreases starts.len(),
{
    if starts.len() > 0 {
        lemma_first_window_some(starts.drop_first(), duration, time);
        if !in_window(starts[0], duration, time) {
            if first_window(starts, duration, time) is Some {
                let i = choose|i: int|
                    0 <= i < starts.drop_first().len() && in_window(
                        starts.drop_first()[i],
                        duration,
                        time,
                    );
                assert(starts.drop_first()[i] == starts[i + 1]);
            }
            if exists|i: int| 0 <= i < starts.len() && in_window(starts[i], duration, time) {
                let i = choose|i: int|
                    0 <= i < starts.len() && in_window(starts[i], duration, time);
                assert(starts.drop_first()[i - 1] == starts[i]);
            }
        }
    }
}

/// If no window among the first `i` contains `time` and window `i` does,
/// then window `i` is the first containing window.
pub proof fn lemma_first_window_at(starts: Seq<u32>, duration: u32, time: u32, i: int)
    requires
        0 <= i < starts.len(),
        forall|j: int| 0 <= j < i ==> !in_window(#[trigger] starts[j], duration, time),
        in_window(starts[i], duration, time),
    ensures
        first_window(starts, duration, time) == Some(starts[i]),
    decreases i,
{
    if i > 0 {
        assert(forall|j: int|
            0 <= j < i - 1 ==> starts.drop_first()[j] == #[trigger] starts[j + 1]);
        lemma_first_window_at(starts.drop_first(), duration, time, i - 1);
    }
}

/// A window's bounds are inclusive: it contains exactly its start and
/// exactly its stop, and not the second before or after either.
pub proof fn lemma_window_bounds_inclusive(start: u32, duration: u32)
    requires
        start + duration <= u32::MAX,
    ensures
        in_window(start, duration, start),
        in_window(start, duration, (start + duration) as u32),
        start >= 1 ==> !in_window(start, duration, (start - 1) as u32),
        start + duration + 1 <= u32::MAX ==> !in_window(
            start,
            duration,
            (start + duration + 1) as u32,
        ),
{
}

/// The usage schedule of the computer: a fixed list of times of day at
/// which the machine turns on, each for the same fixed duration.
#[derive(Debug)]
pub struct MachineSchedule {
    /// The starts of the on-windows, in whole seconds from midnight.
    pub start: Vec<u32>,
    /// The length of each on-window, in whole seconds.
    pub duration: u32,
}

impl MachineSchedule {
    /// Whether the machine is scheduled to be on at the given time of day,
    /// both window bounds inclusive.
    pub open spec fn spec_is_on(self, time: u32) -> bool {
        exists|i: int| 0 <= i < self.start@.len() && in_window(self.start@[i], self.duration, time)
    }

    /// Create a new computer schedule from the template.
    pub fn new() -> (r: MachineSchedule)
        ensures
            r.start@ == seq![
                52325u32,
                52920u32,
                53570u32,
                54180u32,
                54790u32,
                55400u32,
            ],
            r.duration == 60,
    {
        let start: Vec<u32> = vec![52325, 52920, 53570, 54180, 54790, 55400];
        proof {
            assert(start@ =~= seq![52325u32, 52920u32, 53570u32, 54180u32, 54790u32, 55400u32]);
        }
        MachineSchedule { start, duration: 60 }
    }

    /// If the computer is currently scheduled to be on, return the time it
    /// was scheduled to be started and scheduled to be shut down.
    /// Otherwise return `None`. At the stop time, the machine is scheduled
    /// to start the shut down process.
    fn start_stop(&self, time: u32) -> (r: Option<(u32, u64)>)
        ensures
            match r {
                Some((start, stop)) => first_window(self.start@, self.duration, time) == Some(
                    start,
                ) && stop == start + self.duration,
                None => first_window(self.start@, self.duration, time) is None,
            },
    {
        let n = self.start.len();
        let mut i: usize = 0;
        while i < n
            invariant
                n == self.start@.len(),
                0 <= i <= n,
                forall|j: int| 0 <= j < i ==> !in_window(#[trigger] self.start@[j], self.duration, time),
            decreases n - i,
        {
            let start = self.start[i];
            let stop = start as u64 + self.duration as u64;
            if time as u64 >= start as u64 && time as u64 <= stop {
                proof {
                    lemma_first_window_at(self.start@, self.duration, time, i as int);
                }
                return Some((start, stop));
            }
            i = i + 1;
        }
        proof {
            lemma_first_window_some(self.start@, self.duration, time);
        }
        None
    }

    /// The schedule reports on at exactly each window's start and at
    /// exactly its stop, the bounds being inclusive.
    pub proof fn lemma_schedule_boundary(self, i: int)
        requires
            0 <= i < self.start@.len(),
            self.start@[i] + self.duration <= u32::MAX,
        ensures
            self.spec_is_on(self.start@[i]),
            self.spec_is_on((self.start@[i] + self.duration) as u32),
    {
        lemma_window_bounds_inclusive(self.start@[i], self.duration);
    }

    /// Returns `true` if the machine is scheduled to be on, otherwise
    /// returns `false`.
    pub fn is_on(&self, time: u32) -> (r: bool)
        ensures
            r == self.spec_is_on(time),
    {
        proof {
            lemma_first_window_some(self.start@, self.duration, time);
        }
        self.start_stop(time).is_some()
    }
}

/// Spill reduction never touches the `System` consumer's load.
pub proof fn lemma_spill_preserves_system(loads: Loads, cpu: int)
    ensures
        after_spill(loads, cpu).system == loads.system,
{
}

/// Spill reduction fails to restore the capacity bound — that is, the
/// machine crashes — exactly when the `System` load alone exceeds the
/// capacity: every other consumer's load can be cut to zero.
pub proof fn lemma_crash_iff_system_over(loads: Loads, cpu: int)
    ensures
        after_spill(loads, cpu).total() > cpu <==> loads.system > cpu,
{
}

/// Spill reduction cuts consumers in priority order: the `User` load is
/// only cut once the `Player` load is exhausted, and the `Enemy` load only
/// once both are.
pub proof fn lemma_spill_priority(loads: Loads, cpu: int)
    ensures
        after_spill(loads, cpu).player <= loads.player,
        after_spill(loads, cpu).user <= loads.user,
        after_spill(loads, cpu).enemy <= loads.enemy,
        after_spill(loads, cpu).user < loads.user ==> after_spill(loads, cpu).player == 0,
        after_spill(loads, cpu).enemy < loads.enemy ==> after_spill(loads, cpu).player == 0
            && after_spill(loads, cpu).user == 0,
{
}

} // verus!
