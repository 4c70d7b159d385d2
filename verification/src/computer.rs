//! Load consumers and the per-tick usage driver.

use vstd::prelude::*;

use rand::Rng;

use crate::machine::{after_spill, set_load_spec, Clock, Load, Loads, Machine, MachineSchedule, MachineState};
use crate::machine::{WORK_BOOTING, WORK_SHUTTING_DOWN};
use crate::config::STEP_USAGE_MILLIS;

verus! {

/// The fixed target load of the `User` consumer while the machine is
/// ready.
pub const LOAD_READY_USER: u32 = 500;

/// The exclusive upper bound of the quick random jump of the smoothing
/// step.
pub const JUMP_QUICK_MAX: u32 = 32;

/// The exclusive upper bound of the slow random jump of the smoothing
/// step.
pub const JUMP_SLOW_MAX: u32 = 8;

/// A named category competing for machine load capacity.
#[derive(Debug, PartialEq, Eq, Hash, Clone, Copy, Structural)]
pub enum Consumer {
    System,
    User,
    Player,
    Enemy,
}

/// Relies on `rand::Rng::gen_range` over a half-open integer range: the
/// result is drawn uniformly from `[lo, hi)`; the call panics only on an
/// empty range, which the precondition rules out.
#[verifier::external_body]
fn random_in_range(lo: u32, hi: u32) -> (r: u32)
    requires
        lo < hi,
    ensures
        lo <= r < hi,
{
    rand::thread_rng().gen_range(lo..hi)
}

/// One smoothing step over unbounded integers: the next load after
/// nudging `current` toward `target` with the drawn jumps. Any reduction
/// uses the quick jump, whatever the distance; an increase uses the quick
/// jump far below the target and the slow jump near or at it.
pub open spec fn fuzz_next(target: int, current: int, jump_quick: int, jump_slow: int) -> int {
    let diff = target - current;
    if diff < 0 {
        if jump_quick < current {
            current - jump_quick
        } else {
            0
        }
    } else if diff > 8 {
        current + jump_quick
    } else {
        current + jump_slow
    }
}

/// This function fuzzies a number: it moves `current` one bounded random
/// step toward `target`.
pub fn fuzzying(target: u32, current: u32, jump_quick: u32, jump_slow: u32) -> (r: u32)
    requires
        1 <= jump_quick < JUMP_QUICK_MAX,
        1 <= jump_slow < JUMP_SLOW_MAX,
        current <= u32::MAX - 31,
    ensures
        r == fuzz_next(target as int, current as int, jump_quick as int, jump_slow as int),
        current < target ==> current < r <= current + 31,
        current > target ==> current - 31 <= r < current,
        current == target ==> current < r <= current + 7,
{
    let mut result: i64 = current as i64;
    let diff: i64 = target as i64 - result;
    if diff < -8 {
        let jump = if (jump_quick as i64) < result {
            jump_quick as i64
        } else {
            result
        };
        result = result - jump;
    } else if diff < 0 {
        let jump = if (jump_quick as i64) < result {
            jump_quick as i64
        } else {
            result
        };
        result = result - jump;
    } else if diff > 8 {
        result = result + jump_quick as i64;
    } else {
        result = result + jump_slow as i64;
    }
    result as u32
}

/// The load to apply for a target: an exact target of zero snaps straight
/// to zero, any other exact target is approached by one smoothing step,
/// and the `Max` sentinel lands just under the full capacity.
pub open spec fn next_load_spec(
    target: Load,
    current: u32,
    cpu: u32,
    jump_quick: u32,
    jump_slow: u32,
) -> int {
    match target {
        Load::Exact(x) => if x == 0 {
            0
        } else {
            fuzz_next(x as int, current as int, jump_quick as int, jump_slow as int)
        },
        Load::Max => cpu - jump_quick,
    }
}

/// Compute the load to apply for the given target load.
pub fn next_load(target: &Load, current: u32, cpu: u32, jump_quick: u32, jump_slow: u32) -> (r:
    u32)
    requires
        1 <= jump_quick < JUMP_QUICK_MAX,
        1 <= jump_slow < JUMP_SLOW_MAX,
        current <= u32::MAX - 31,
        target matches Load::Max ==> jump_quick <= cpu,
    ensures
        r == next_load_spec(*target, current, cpu, jump_quick, jump_slow),
        *target == Load::Exact(0u32) ==> r == 0,
{
    match *target {
        Load::Exact(x) => {
            if x == 0 {
                0
            } else {
                fuzzying(x, current, jump_quick, jump_slow)
            }
        },
        Load::Max => cpu - jump_quick,
    }
}

/// Whether a drawn pair of jumps lies within the smoothing step's ranges:
/// the quick jump in `[1, 32)` and the slow jump in `[1, 8)`.
pub open spec fn valid_draw(draw: (u32, u32)) -> bool {
    1 <= draw.0 < JUMP_QUICK_MAX && 1 <= draw.1 < JUMP_SLOW_MAX
}

/// Whether every drawn pair of a sequence is valid.
pub open spec fn valid_draws(draws: Seq<(u32, u32)>) -> bool {
    forall|i: int| 0 <= i < draws.len() ==> valid_draw(#[trigger] draws[i])
}

/// The load after applying the smoothing step toward `target` once per
/// drawn pair, starting from `start`.
pub open spec fn fuzz_iter(target: int, start: int, draws: Seq<(u32, u32)>) -> int
    decreases draws.len(),
{
    if draws.len() == 0 {
        start
    } else {
        fuzz_iter(
            target,
            fuzz_next(target, start, draws[0].0 as int, draws[0].1 as int),
            draws.drop_first(),
        )
    }
}

/// The settling band around a target: the interval the smoothed load
/// oscillates in once it has reached the target.
pub open spec fn in_band(target: int, v: int) -> bool {
    target - 30 <= v <= target + 31
}

/// One smoothing step toward a positive target never leaves a load
/// negative, keeps a load that is in the settling band inside it, and
/// strictly raises a load below the band without overshooting it.
pub proof fn lemma_fuzz_band(target: int, v: int, jump_quick: int, jump_slow: int)
    requires
        1 <= jump_quick < JUMP_QUICK_MAX,
        1 <= jump_slow < JUMP_SLOW_MAX,
        0 <= v,
        1 <= target,
    ensures
        0 <= fuzz_next(target, v, jump_quick, jump_slow),
        in_band(target, v) ==> in_band(target, fuzz_next(target, v, jump_quick, jump_slow)),
        v < target - 30 ==> v < fuzz_next(target, v, jump_quick, jump_slow) <= target + 31,
{
}

/// Once the smoothed load is in the settling band of a positive target,
/// any further sequence of valid draws keeps it there, and it never
/// becomes negative.
pub proof fn lemma_fuzz_stays(target: int, start: int, draws: Seq<(u32, u32)>)
    requires
        1 <= target,
        0 <= start,
        in_band(target, start),
        valid_draws(draws),
    ensures
        0 <= fuzz_iter(target, start, draws),
        in_band(target, fuzz_iter(target, start, draws)),
    decreases draws.len(),
{
    if draws.len() > 0 {
        lemma_fuzz_band(target, start, draws[0].0 as int, draws[0].1 as int);
        assert forall|i: int|
            0 <= i < draws.drop_first().len() implies valid_draw(
            #[trigger] draws.drop_first()[i],
        ) by {
            assert(draws.drop_first()[i] == draws[i + 1]);
        }
        lemma_fuzz_stays(
            target,
            fuzz_next(target, start, draws[0].0 as int, draws[0].1 as int),
            draws.drop_first(),
        );
    }
}

/// From below the settling band the smoothed load strictly climbs with
/// each valid draw, so it either enters the band, where it then stays, or
/// has grown by at least one per draw.
proof fn lemma_fuzz_climbs(target: int, start: int, draws: Seq<(u32, u32)>)
    requires
        1 <= target,
        0 <= start,
        start < target - 30,
        valid_draws(draws),
    ensures
        in_band(target, fuzz_iter(target, start, draws)) || (fuzz_iter(target, start, draws)
            >= start + draws.len() && fuzz_iter(target, start, draws) < target - 30),
        0 <= fuzz_iter(target, start, draws),
    decreases draws.len(),
{
    if draws.len() > 0 {
        let next = fuzz_next(target, start, draws[0].0 as int, draws[0].1 as int);
        lemma_fuzz_band(target, start, draws[0].0 as int, draws[0].1 as int);
        assert forall|i: int|
            0 <= i < draws.drop_first().len() implies valid_draw(
            #[trigger] draws.drop_first()[i],
        ) by {
            assert(draws.drop_first()[i] == draws[i + 1]);
        }
        if in_band(target, next) {
            lemma_fuzz_stays(target, next, draws.drop_first());
        } else {
            lemma_fuzz_climbs(target, next, draws.drop_first());
        }
    }
}

/// Repeatedly applying the smoothing step with a fixed positive target,
/// starting at or below it, brings the load into the settling band around
/// the target within as many draws as the target figure, keeps it there
/// from then on, and never lets it become negative.
pub proof fn lemma_fuzz_converges(target: int, start: int, draws: Seq<(u32, u32)>)
    requires
        1 <= target,
        0 <= start <= target,
        valid_draws(draws),
        draws.len() >= target,
    ensures
        0 <= fuzz_iter(target, start, draws),
        in_band(target, fuzz_iter(target, start, draws)),
{
    if in_band(target, start) {
        lemma_fuzz_stays(target, start, draws);
    } else {
        lemma_fuzz_climbs(target, start, draws);
    }
}

/// The work done by one update step under the given load: the load times
/// the step length times the clock speed, floored to whole work units.
pub open spec fn work_increment(load: int, speed: int) -> int {
    (load * STEP_USAGE_MILLIS * speed) / 1_000_000
}

/// Compute the work done by one update step under the given load, capped
/// at the largest representable figure.
fn work_increment_capped(load: u32, speed: u32) -> (r: u32)
    ensures
        r == if work_increment(load as int, speed as int) > u32::MAX {
            u32::MAX as int
        } else {
            work_increment(load as int, speed as int)
        },
{
    proof {
        assert((load as int) * (STEP_USAGE_MILLIS as int) * (speed as int) < u128::MAX)
            by (nonlinear_arith)
            requires
                load <= u32::MAX && speed <= u32::MAX && STEP_USAGE_MILLIS == 100;
    }
    let prod: u128 = load as u128 * STEP_USAGE_MILLIS as u128 * speed as u128;
    let w: u128 = prod / 1_000_000;
    if w > u32::MAX as u128 {
        u32::MAX
    } else {
        w as u32
    }
}

/// The target load of a consumer under the machine's current condition:
/// the `System` target follows the power state, the `User` target is
/// fixed while the machine is ready, and the `Player` and `Enemy` targets
/// are whatever was last asked for.
pub open spec fn target_for(m: Machine, consumer: Consumer) -> Load {
    match consumer {
        Consumer::System => m.state.spec_load(),
        Consumer::User => if m.state == MachineState::Ready {
            Load::Exact(LOAD_READY_USER)
        } else {
            Load::Exact(0)
        },
        Consumer::Player => Load::Exact(m.load_target.spec_get(Consumer::Player)),
        Consumer::Enemy => Load::Exact(m.load_target.spec_get(Consumer::Enemy)),
    }
}

/// The machine after one usage step of one consumer: the consumer's load
/// takes one smoothing step toward its target and is applied under the
/// capacity bound, and, if the machine is then booting or shutting down
/// and the consumer is `System`, the computed load's work is credited,
/// saturating at the largest representable figure.
pub open spec fn usage_step_spec(
    m: Machine,
    consumer: Consumer,
    jump_quick: u32,
    jump_slow: u32,
    speed: u32,
) -> Machine {
    let nl = next_load_spec(
        target_for(m, consumer),
        m.load.spec_get(consumer),
        m.cpu,
        jump_quick,
        jump_slow,
    ) as u32;
    let stepped = set_load_spec(m, consumer, nl);
    let accrues = (stepped.state == MachineState::Booting || stepped.state
        == MachineState::ShuttingDown) && consumer == Consumer::System;
    if accrues {
        let done = stepped.work_done.spec_get(Consumer::System) + work_increment(
            nl as int,
            speed as int,
        );
        let capped = if done > u32::MAX {
            u32::MAX as int
        } else {
            done
        };
        Machine { work_done: stepped.work_done.with(Consumer::System, capped as u32), ..stepped }
    } else {
        stepped
    }
}

/// Advance one consumer's load one smoothing step toward its target,
/// enforce the capacity bound, and, while the machine is booting or
/// shutting down, credit the `System` consumer's work.
pub fn usage_step(
    machine: &mut Machine,
    consumer: &Consumer,
    jump_quick: u32,
    jump_slow: u32,
    speed: u32,
)
    requires
        1 <= jump_quick < JUMP_QUICK_MAX,
        1 <= jump_slow < JUMP_SLOW_MAX,
        old(machine).load.total() <= old(machine).cpu,
        31 <= old(machine).cpu <= u32::MAX - 31,
    ensures
        *final(machine) == usage_step_spec(*old(machine), *consumer, jump_quick, jump_slow, speed),
        final(machine).load.total() <= final(machine).cpu,
{
    let target: Load = match *consumer {
        Consumer::System => MachineState::load(&machine.state),
        Consumer::User => match machine.state {
            MachineState::Ready => Load::Exact(LOAD_READY_USER),
            _ => Load::Exact(0),
        },
        _ => Load::Exact(machine.get_load_target(consumer)),
    };

    let current = machine.get_load(consumer);
    assert(machine.load.spec_get(*consumer) <= machine.load.total());
    let load = next_load(&target, current, machine.cpu, jump_quick, jump_slow);
    machine.set_load(consumer, load);

    // Record the amount of work already accomplished by the load.
    match machine.state {
        MachineState::Booting | MachineState::ShuttingDown => {
            match *consumer {
                Consumer::System => {
                    let work = work_increment_capped(load, speed);
                    let done = machine.work_done.get(&Consumer::System);
                    let new_done = if done > u32::MAX - work {
                        u32::MAX
                    } else {
                        done + work
                    };
                    machine.work_done.set(&Consumer::System, new_done);
                },
                _ => {},
            }
        },
        _ => {},
    }
}

/// While the machine is booting or shutting down, one usage step of the
/// `System` consumer can never crash the machine, and it credits at least
/// the work of a full-capacity load less the largest quick jump — so the
/// accumulated work grows by a fixed positive floor each tick whenever
/// that floor is positive, and the boot or shutdown phase completes.
pub proof fn lemma_boot_step_progress(m: Machine, jump_quick: u32, jump_slow: u32, speed: u32)
    requires
        1 <= jump_quick < JUMP_QUICK_MAX,
        1 <= jump_slow < JUMP_SLOW_MAX,
        m.load.total() <= m.cpu,
        31 <= m.cpu <= u32::MAX - 31,
        m.state == MachineState::Booting || m.state == MachineState::ShuttingDown,
    ensures
        ({
            let nl = next_load_spec(
                target_for(m, Consumer::System),
                m.load.spec_get(Consumer::System),
                m.cpu,
                jump_quick,
                jump_slow,
            ) as u32;
            let reduced = after_spill(m.load.with(Consumer::System, nl), m.cpu as int);
            &&& reduced.total() <= m.cpu
            &&& work_increment(nl as int, speed as int) >= work_increment(
                m.cpu - 31,
                speed as int,
            )
        }),
{
    let nl = next_load_spec(
        target_for(m, Consumer::System),
        m.load.spec_get(Consumer::System),
        m.cpu,
        jump_quick,
        jump_slow,
    ) as u32;
    assert(m.cpu - 31 <= nl <= m.cpu);
    crate::machine::lemma_crash_iff_system_over(m.load.with(Consumer::System, nl), m.cpu as int);
    assert((m.cpu - 31) * (STEP_USAGE_MILLIS as int) * (speed as int) <= (nl as int) * (
    STEP_USAGE_MILLIS as int) * (speed as int)) by (nonlinear_arith)
        requires
            0 <= m.cpu - 31 <= nl as int && 0 <= speed && STEP_USAGE_MILLIS == 100;
    vstd::arithmetic::div_mod::lemma_div_is_ordered(
        (m.cpu - 31) * (STEP_USAGE_MILLIS as int) * (speed as int),
        (nl as int) * (STEP_USAGE_MILLIS as int) * (speed as int),
        1_000_000,
    );
}

/// One gating tick of the machine against an open or closed window: one
/// usage step of the `System` consumer followed by the transition check.
/// Only the `System` consumer's steps accumulate work, so these ticks are
/// all that gates the state machine.
pub open spec fn system_tick_spec(
    m: Machine,
    jump_quick: u32,
    jump_slow: u32,
    speed: u32,
    on: bool,
) -> Machine {
    update_state_spec(usage_step_spec(m, Consumer::System, jump_quick, jump_slow, speed), on)
}

/// The machine after one gating tick per drawn pair, all against the same
/// window condition.
pub open spec fn system_tick_iter(
    m: Machine,
    draws: Seq<(u32, u32)>,
    speed: u32,
    on: bool,
) -> Machine
    decreases draws.len(),
{
    if draws.len() == 0 {
        m
    } else {
        system_tick_iter(
            system_tick_spec(m, draws[0].0, draws[0].1, speed, on),
            draws.drop_first(),
            speed,
            on,
        )
    }
}

/// Facts of one gating tick of a booting machine: the tick never crashes,
/// the capacity bound and the rest of the machine hold, and either the
/// boot completes — the state turns `Ready` with the work reset — or the
/// machine keeps booting with strictly more work, still short of the
/// threshold.
proof fn lemma_boot_tick(m: Machine, jump_quick: u32, jump_slow: u32, speed: u32, on: bool)
    requires
        1 <= jump_quick < JUMP_QUICK_MAX,
        1 <= jump_slow < JUMP_SLOW_MAX,
        m.load.total() <= m.cpu,
        31 <= m.cpu <= u32::MAX - 31,
        m.state == MachineState::Booting || m.state == MachineState::ShuttingDown,
        work_increment(m.cpu - 31, speed as int) >= 1,
    ensures
        ({
            let m2 = system_tick_spec(m, jump_quick, jump_slow, speed, on);
            let threshold = m.state.spec_work().unwrap();
            &&& m2.cpu == m.cpu
            &&& m2.load_target == m.load_target
            &&& m2.load.total() <= m2.cpu
            &&& (m2.state == m.state || (m2.state == update_state_spec_target(m.state)
                && m2.work_done.spec_get(Consumer::System) == 0))
            &&& (m2.state == m.state ==> m2.work_done.spec_get(Consumer::System)
                >= m.work_done.spec_get(Consumer::System) + work_increment(
                m.cpu - 31,
                speed as int,
            ) && m2.work_done.spec_get(Consumer::System) < threshold)
        }),
{
    lemma_boot_step_progress(m, jump_quick, jump_slow, speed);
    let nl = next_load_spec(
        target_for(m, Consumer::System),
        m.load.spec_get(Consumer::System),
        m.cpu,
        jump_quick,
        jump_slow,
    ) as u32;
    crate::machine::lemma_crash_iff_system_over(
        m.load.with(Consumer::System, nl),
        m.cpu as int,
    );
}

/// The state a boot or shutdown phase completes to.
pub open spec fn update_state_spec_target(state: MachineState) -> MachineState {
    match state {
        MachineState::Booting => MachineState::Ready,
        MachineState::ShuttingDown => MachineState::Off,
        _ => state,
    }
}

/// While the window stays open, gating ticks keep a ready machine ready:
/// the `System` load settles around its steady figure well under the
/// capacity, so no tick can crash the machine.
proof fn lemma_ready_stays(m: Machine, draws: Seq<(u32, u32)>, speed: u32)
    requires
        m.state == MachineState::Ready,
        m.load.total() <= m.cpu,
        131 <= m.cpu <= u32::MAX - 31,
        valid_draws(draws),
    ensures
        system_tick_iter(m, draws, speed, true).state == MachineState::Ready,
    decreases draws.len(),
{
    if draws.len() > 0 {
        let nl = next_load_spec(
            target_for(m, Consumer::System),
            m.load.spec_get(Consumer::System),
            m.cpu,
            draws[0].0,
            draws[0].1,
        ) as u32;
        assert(m.load.spec_get(Consumer::System) <= m.load.total());
        assert(nl <= m.cpu);
        crate::machine::lemma_crash_iff_system_over(
            m.load.with(Consumer::System, nl),
            m.cpu as int,
        );
        assert forall|i: int|
            0 <= i < draws.drop_first().len() implies valid_draw(
            #[trigger] draws.drop_first()[i],
        ) by {
            assert(draws.drop_first()[i] == draws[i + 1]);
        }
        lemma_ready_stays(
            system_tick_spec(m, draws[0].0, draws[0].1, speed, true),
            draws.drop_first(),
            speed,
        );
    }
}

/// While the window stays closed, gating ticks keep an off machine off:
/// the `System` target is zero, so its load snaps to zero and no work
/// accumulates.
proof fn lemma_off_stays(m: Machine, draws: Seq<(u32, u32)>, speed: u32)
    requires
        m.state == MachineState::Off,
        m.load.total() <= m.cpu,
        valid_draws(draws),
    ensures
        system_tick_iter(m, draws, speed, false).state == MachineState::Off,
    decreases draws.len(),
{
    if draws.len() > 0 {
        assert forall|i: int|
            0 <= i < draws.drop_first().len() implies valid_draw(
            #[trigger] draws.drop_first()[i],
        ) by {
            assert(draws.drop_first()[i] == draws[i + 1]);
        }
        lemma_off_stays(
            system_tick_spec(m, draws[0].0, draws[0].1, speed, false),
            draws.drop_first(),
            speed,
        );
    }
}

/// With the window open, an off machine starts booting on the very next
/// gating tick; with the window closed, a ready machine starts shutting
/// down on the very next gating tick.
pub proof fn lemma_window_transitions(m: Machine, jump_quick: u32, jump_slow: u32, speed: u32)
    requires
        1 <= jump_quick < JUMP_QUICK_MAX,
        1 <= jump_slow < JUMP_SLOW_MAX,
        m.load.total() <= m.cpu,
        131 <= m.cpu <= u32::MAX - 31,
    ensures
        m.state == MachineState::Off ==> system_tick_spec(m, jump_quick, jump_slow, speed, true)
            .state == MachineState::Booting,
        m.state == MachineState::Ready ==> system_tick_spec(
            m,
            jump_quick,
            jump_slow,
            speed,
            false,
        ).state == MachineState::ShuttingDown,
{
    let nl = next_load_spec(
        target_for(m, Consumer::System),
        m.load.spec_get(Consumer::System),
        m.cpu,
        jump_quick,
        jump_slow,
    ) as u32;
    assert(m.load.spec_get(Consumer::System) <= m.load.total());
    crate::machine::lemma_crash_iff_system_over(
        m.load.with(Consumer::System, nl),
        m.cpu as int,
    );
}

/// Starting to boot with the window open, the machine reaches `Ready`:
/// every gating tick credits at least one work unit — the clock speed and
/// the capacity make the per-tick work floor positive — so with at least
/// as many valid draws as missing work units the boot completes, and the
/// machine is then still ready.
pub proof fn lemma_booting_completes(m: Machine, draws: Seq<(u32, u32)>, speed: u32)
    requires
        m.state == MachineState::Booting,
        m.load.total() <= m.cpu,
        131 <= m.cpu <= u32::MAX - 31,
        work_increment(m.cpu - 31, speed as int) >= 1,
        valid_draws(draws),
        draws.len() >= WORK_BOOTING - m.work_done.spec_get(Consumer::System),
        draws.len() >= 1,
    ensures
        system_tick_iter(m, draws, speed, true).state == MachineState::Ready,
    decreases draws.len(),
{
    lemma_boot_tick(m, draws[0].0, draws[0].1, speed, true);
    let m1 = system_tick_spec(m, draws[0].0, draws[0].1, speed, true);
    assert forall|i: int|
        0 <= i < draws.drop_first().len() implies valid_draw(#[trigger] draws.drop_first()[i]) by {
        assert(draws.drop_first()[i] == draws[i + 1]);
    }
    if m1.state == MachineState::Ready {
        lemma_ready_stays(m1, draws.drop_first(), speed);
    } else {
        lemma_booting_completes(m1, draws.drop_first(), speed);
    }
}

/// Starting to shut down with the window closed, the machine reaches
/// `Off`: as while booting, every gating tick credits at least one work
/// unit, so with at least as many valid draws as missing work units the
/// shutdown completes, and the machine is then still off.
pub proof fn lemma_shutdown_completes(m: Machine, draws: Seq<(u32, u32)>, speed: u32)
    requires
        m.state == MachineState::ShuttingDown,
        m.load.total() <= m.cpu,
        31 <= m.cpu <= u32::MAX - 31,
        work_increment(m.cpu - 31, speed as int) >= 1,
        valid_draws(draws),
        draws.len() >= WORK_SHUTTING_DOWN - m.work_done.spec_get(Consumer::System),
        draws.len() >= 1,
    ensures
        system_tick_iter(m, draws, speed, false).state == MachineState::Off,
    decreases draws.len(),
{
    lemma_boot_tick(m, draws[0].0, draws[0].1, speed, false);
    let m1 = system_tick_spec(m, draws[0].0, draws[0].1, speed, false);
    assert forall|i: int|
        0 <= i < draws.drop_first().len() implies valid_draw(#[trigger] draws.drop_first()[i]) by {
        assert(draws.drop_first()[i] == draws[i + 1]);
    }
    if m1.state == MachineState::Off {
        lemma_off_stays(m1, draws.drop_first(), speed);
    } else {
        lemma_shutdown_completes(m1, draws.drop_first(), speed);
    }
}

/// The machine after one full usage update with the given draws: one
/// usage step per consumer, visited in the driver's fixed order.
pub open spec fn update_usage_spec(m: Machine, draws: Seq<(u32, u32)>, speed: u32) -> Machine {
    usage_step_spec(
        usage_step_spec(
            usage_step_spec(
                usage_step_spec(m, Consumer::System, draws[0].0, draws[0].1, speed),
                Consumer::User,
                draws[1].0,
                draws[1].1,
                speed,
            ),
            Consumer::Enemy,
            draws[2].0,
            draws[2].1,
            speed,
        ),
        Consumer::Player,
        draws[3].0,
        draws[3].1,
        speed,
    )
}

/// Update the computer usage: while the machine is off every load is
/// forced to zero; otherwise each consumer's load takes one random
/// smoothing step toward its target, visiting the consumers in a fixed
/// order, and system work is credited while booting or shutting down.
#[verifier::rlimit(50)]
pub fn update_usage(machine: &mut Machine, clock: &Clock)
    requires
        old(machine).load.total() <= old(machine).cpu,
        31 <= old(machine).cpu <= u32::MAX - 31,
    ensures
        final(machine).cpu == old(machine).cpu,
        final(machine).load_target == old(machine).load_target,
        final(machine).load.total() <= final(machine).cpu,
        final(machine).state == old(machine).state || final(machine).state
            == MachineState::Booting,
        old(machine).state == MachineState::Off ==> final(machine).load == Loads::zero()
            && final(machine).state == MachineState::Off && final(machine).work_done == old(
            machine,
        ).work_done,
        old(machine).state != MachineState::Off ==> exists|draws: Seq<(u32, u32)>|
            draws.len() == 4 && valid_draws(draws) && *final(machine) == update_usage_spec(
                *old(machine),
                draws,
                clock.speed,
            ),
{
    match machine.state {
        MachineState::Off => {
            machine.set_load(&Consumer::System, 0);
            machine.set_load(&Consumer::User, 0);
            machine.set_load(&Consumer::Player, 0);
            machine.set_load(&Consumer::Enemy, 0);
            return ;
        },
        _ => {},
    }

    let jump_quick_system = random_in_range(1, JUMP_QUICK_MAX);
    let jump_slow_system = random_in_range(1, JUMP_SLOW_MAX);
    usage_step(machine, &Consumer::System, jump_quick_system, jump_slow_system, clock.speed);
    let ghost m1 = *machine;

    let jump_quick_user = random_in_range(1, JUMP_QUICK_MAX);
    let jump_slow_user = random_in_range(1, JUMP_SLOW_MAX);
    usage_step(machine, &Consumer::User, jump_quick_user, jump_slow_user, clock.speed);
    let ghost m2 = *machine;

    let jump_quick_enemy = random_in_range(1, JUMP_QUICK_MAX);
    let jump_slow_enemy = random_in_range(1, JUMP_SLOW_MAX);
    usage_step(machine, &Consumer::Enemy, jump_quick_enemy, jump_slow_enemy, clock.speed);
    let ghost m3 = *machine;

    let jump_quick_player = random_in_range(1, JUMP_QUICK_MAX);
    let jump_slow_player = random_in_range(1, JUMP_SLOW_MAX);
    usage_step(machine, &Consumer::Player, jump_quick_player, jump_slow_player, clock.speed);

    proof {
        let d: Seq<(u32, u32)> = seq![
            (jump_quick_system, jump_slow_system),
            (jump_quick_user, jump_slow_user),
            (jump_quick_enemy, jump_slow_enemy),
            (jump_quick_player, jump_slow_player),
        ];
        assert(d[0] == (jump_quick_system, jump_slow_system));
        assert(d[1] == (jump_quick_user, jump_slow_user));
        assert(d[2] == (jump_quick_enemy, jump_slow_enemy));
        assert(d[3] == (jump_quick_player, jump_slow_player));
        assert forall|i: int| 0 <= i < d.len() implies valid_draw(#[trigger] d[i]) by {
            assert(i == 0 || i == 1 || i == 2 || i == 3);
        }
        assert(m1 == usage_step_spec(
            *old(machine),
            Consumer::System,
            jump_quick_system,
            jump_slow_system,
            clock.speed,
        ));
        assert(m2 == usage_step_spec(m1, Consumer::User, jump_quick_user, jump_slow_user, clock.speed));
        assert(m3 == usage_step_spec(
            m2,
            Consumer::Enemy,
            jump_quick_enemy,
            jump_slow_enemy,
            clock.speed,
        ));
        assert(*machine == usage_step_spec(
            m3,
            Consumer::Player,
            jump_quick_player,
            jump_slow_player,
            clock.speed,
        ));
        assert(*machine == update_usage_spec(*old(machine), d, clock.speed));
    }
}

/// The machine after one transition check against the schedule: the
/// machine boots when its window opens, is ready once the boot work is
/// done, shuts down when the window closes, and is off once the shutdown
/// work is done. The accumulated work resets to zero at each completed
/// phase.
pub open spec fn update_state_spec(m: Machine, on: bool) -> Machine {
    match m.state {
        MachineState::Off => if on {
            Machine { state: MachineState::Booting, ..m }
        } else {
            m
        },
        MachineState::Booting => if m.work_done.spec_get(Consumer::System) >= WORK_BOOTING {
            Machine {
                state: MachineState::Ready,
                work_done: m.work_done.with(Consumer::System, 0u32),
                ..m
            }
        } else {
            m
        },
        MachineState::Ready => if on {
            m
        } else {
            Machine { state: MachineState::ShuttingDown, ..m }
        },
        MachineState::ShuttingDown => if m.work_done.spec_get(Consumer::System)
            >= WORK_SHUTTING_DOWN {
            Machine {
                state: MachineState::Off,
                work_done: m.work_done.with(Consumer::System, 0u32),
                ..m
            }
        } else {
            m
        },
    }
}

/// Switch between operational states, per `update_state_spec`, against
/// whether the schedule says the machine's window is open at the clock's
/// time of day.
pub fn update_state(machine: &mut Machine, schedule: &MachineSchedule, clock: &Clock)
    requires
        0 <= clock.datetime,
    ensures
        *final(machine) == update_state_spec(
            *old(machine),
            schedule.spec_is_on(clock.spec_time() as u32),
        ),
{
    match machine.state {
        MachineState::Off => {
            if schedule.is_on(clock.time()) {
                machine.state = MachineState::Booting;
            }
        },
        MachineState::Booting => {
            match MachineState::work(&machine.state) {
                Some(x) => {
                    if machine.work_done.get(&Consumer::System) >= x {
                        machine.state = MachineState::Ready;
                        machine.work_done.set(&Consumer::System, 0);
                    }
                },
                None => {},
            }
        },
        MachineState::Ready => {
            if !schedule.is_on(clock.time()) {
                machine.state = MachineState::ShuttingDown;
            }
        },
        MachineState::ShuttingDown => {
            match MachineState::work(&machine.state) {
                Some(x) => {
                    if machine.work_done.get(&Consumer::System) >= x {
                        machine.state = MachineState::Off;
                        machine.work_done.set(&Consumer::System, 0);
                    }
                },
                None => {},
            }
        },
    }
}

} // verus!
