use computer_sim::computer::{fuzzying, next_load, update_state, update_usage, usage_step, Consumer};
use computer_sim::machine::{Clock, Load, Machine, MachineSchedule, MachineState};
use computer_sim::materials::CustomColor;
use computer_sim::ui::{change_load_by_button, computer_interaction_disabled};

fn total(m: &Machine) -> u64 {
    m.get_load(&Consumer::System) as u64 + m.get_load(&Consumer::User) as u64
        + m.get_load(&Consumer::Player) as u64 + m.get_load(&Consumer::Enemy) as u64
}

#[test]
fn fuzzying_climbs_quickly_far_below_the_target() {
    assert_eq!(fuzzying(500, 0, 31, 7), 31);
    assert_eq!(fuzzying(500, 460, 12, 3), 472);
}

#[test]
fn fuzzying_jitters_slowly_near_the_target() {
    assert_eq!(fuzzying(500, 496, 31, 7), 503);
    assert_eq!(fuzzying(500, 500, 31, 7), 507);
    assert_eq!(fuzzying(500, 492, 31, 2), 494);
}

#[test]
fn fuzzying_reduces_with_the_quick_jump_even_near_the_target() {
    // A known quirk of the algorithm: a small overshoot is cut back with
    // the quick jump, not the slow one.
    assert_eq!(fuzzying(100, 105, 3, 7), 102);
    assert_eq!(fuzzying(100, 105, 31, 7), 74);
}

#[test]
fn fuzzying_never_goes_below_zero() {
    assert_eq!(fuzzying(0, 20, 31, 7), 0);
    assert_eq!(fuzzying(5, 20, 31, 7), 0);
    assert_eq!(fuzzying(100, 150, 31, 7), 119);
}

#[test]
fn next_load_snaps_to_zero_on_a_zero_target() {
    assert_eq!(next_load(&Load::Exact(0), 777, 1000, 31, 7), 0);
    assert_eq!(next_load(&Load::Exact(0), 1, 1000, 1, 1), 0);
}

#[test]
fn next_load_max_lands_just_under_capacity() {
    assert_eq!(next_load(&Load::Max, 0, 1000, 31, 7), 969);
    assert_eq!(next_load(&Load::Max, 500, 1000, 1, 7), 999);
}

#[test]
fn fuzzying_converges_to_a_band_around_the_target() {
    // With fixed draws the trajectory is deterministic: from zero toward
    // 500 the load must enter the band around the target within 50 steps
    // and stay inside it.
    let mut value: u32 = 0;
    let mut entered_at: Option<u32> = None;
    for step in 0..50u32 {
        value = fuzzying(500, value, 31, 7);
        if entered_at.is_none() && value >= 470 {
            entered_at = Some(step);
        }
        if entered_at.is_some() {
            assert!((470..=531).contains(&value));
        }
    }
    assert!(entered_at.is_some());
    assert!(entered_at.unwrap() <= 17);
}

#[test]
fn usage_step_credits_system_work_while_booting() {
    let mut m = Machine::new(1000);
    m.state = MachineState::Booting;
    usage_step(&mut m, &Consumer::System, 31, 7, 1000);
    assert_eq!(m.get_load(&Consumer::System), 969);
    // One step of 0.1 seconds at full speed under a load of 969 is worth
    // 96 whole work units.
    assert_eq!(m.work_done.get(&Consumer::System), 96);
    usage_step(&mut m, &Consumer::System, 1, 7, 1000);
    assert_eq!(m.get_load(&Consumer::System), 999);
    assert_eq!(m.work_done.get(&Consumer::System), 96 + 99);
}

#[test]
fn usage_step_credits_no_work_while_ready() {
    let mut m = Machine::new(1000);
    m.state = MachineState::Ready;
    usage_step(&mut m, &Consumer::System, 31, 7, 1000);
    assert_eq!(m.work_done.get(&Consumer::System), 0);
}

#[test]
fn usage_step_scales_work_with_clock_speed() {
    let mut m = Machine::new(1000);
    m.state = MachineState::Booting;
    // At twice real speed the same load is worth twice the work.
    usage_step(&mut m, &Consumer::System, 31, 7, 2000);
    assert_eq!(m.work_done.get(&Consumer::System), 193);
}

#[test]
fn update_usage_clears_all_loads_while_off() {
    let mut m = Machine::new(1000);
    m.set_load(&Consumer::User, 300);
    m.set_load(&Consumer::Player, 200);
    m.set_load(&Consumer::Enemy, 100);
    assert_eq!(m.state, MachineState::Off);
    let clock = Clock { datetime: 0, speed: 1000 };
    update_usage(&mut m, &clock);
    assert_eq!(m.get_load(&Consumer::System), 0);
    assert_eq!(m.get_load(&Consumer::User), 0);
    assert_eq!(m.get_load(&Consumer::Player), 0);
    assert_eq!(m.get_load(&Consumer::Enemy), 0);
    assert_eq!(m.state, MachineState::Off);
}

#[test]
fn update_usage_respects_capacity_and_random_ranges() {
    let mut m = Machine::new(1000);
    m.state = MachineState::Booting;
    let clock = Clock { datetime: 0, speed: 1000 };
    for _ in 0..100 {
        update_usage(&mut m, &clock);
        assert!(total(&m) <= 1000);
        // The booting system load is the capacity minus a quick jump.
        let system = m.get_load(&Consumer::System);
        assert!((969..=999).contains(&system));
    }
}

#[test]
fn update_usage_converges_user_load_while_ready() {
    let mut m = Machine::new(1000);
    m.state = MachineState::Ready;
    let clock = Clock { datetime: 0, speed: 1000 };
    for _ in 0..500 {
        update_usage(&mut m, &clock);
        assert!(total(&m) <= 1000);
    }
    let user = m.get_load(&Consumer::User);
    assert!((470..=531).contains(&user));
    let system = m.get_load(&Consumer::System);
    assert!((70..=131).contains(&system));
}

#[test]
fn update_state_follows_the_transition_table() {
    let schedule = MachineSchedule::new();
    let on_clock = Clock { datetime: 52330 * 1_000_000, speed: 1000 };
    let off_clock = Clock { datetime: 52400 * 1_000_000, speed: 1000 };

    let mut m = Machine::new(1000);
    update_state(&mut m, &schedule, &off_clock);
    assert_eq!(m.state, MachineState::Off);
    update_state(&mut m, &schedule, &on_clock);
    assert_eq!(m.state, MachineState::Booting);

    m.work_done.set(&Consumer::System, 8999);
    update_state(&mut m, &schedule, &on_clock);
    assert_eq!(m.state, MachineState::Booting);
    assert_eq!(m.work_done.get(&Consumer::System), 8999);

    m.work_done.set(&Consumer::System, 9000);
    update_state(&mut m, &schedule, &on_clock);
    assert_eq!(m.state, MachineState::Ready);
    assert_eq!(m.work_done.get(&Consumer::System), 0);

    update_state(&mut m, &schedule, &on_clock);
    assert_eq!(m.state, MachineState::Ready);
    update_state(&mut m, &schedule, &off_clock);
    assert_eq!(m.state, MachineState::ShuttingDown);

    m.work_done.set(&Consumer::System, 4999);
    update_state(&mut m, &schedule, &off_clock);
    assert_eq!(m.state, MachineState::ShuttingDown);

    m.work_done.set(&Consumer::System, 5000);
    update_state(&mut m, &schedule, &off_clock);
    assert_eq!(m.state, MachineState::Off);
    assert_eq!(m.work_done.get(&Consumer::System), 0);
}

#[test]
fn full_run_boots_works_and_shuts_down() {
    // Start five seconds before the first scheduled window and drive the
    // simulation one tenth of a simulated second per tick.
    let schedule = MachineSchedule::new();
    let mut clock = Clock { datetime: 52320 * 1_000_000, speed: 1000 };
    let mut m = Machine::new(1000);
    let mut transitions: Vec<MachineState> = Vec::new();
    for _ in 0..2000 {
        clock.advance(100_000);
        let before = m.state;
        update_usage(&mut m, &clock);
        update_state(&mut m, &schedule, &clock);
        assert!(total(&m) <= 1000);
        if m.state != before {
            transitions.push(m.state);
            // The accumulated work resets to zero exactly when a boot or
            // a shutdown completes.
            if m.state == MachineState::Ready || (before == MachineState::ShuttingDown
                && m.state == MachineState::Off)
            {
                assert_eq!(m.work_done.get(&Consumer::System), 0);
            }
        }
        if transitions.len() == 4 {
            break;
        }
    }
    assert_eq!(
        transitions,
        vec![
            MachineState::Booting,
            MachineState::Ready,
            MachineState::ShuttingDown,
            MachineState::Off,
        ],
    );
}

#[test]
fn change_load_by_button_adds_and_clamps_at_zero() {
    let mut m = Machine::new(1000);
    change_load_by_button(&mut m, 50);
    assert_eq!(m.get_load_target(&Consumer::Player), 50);
    assert_eq!(m.get_load(&Consumer::Player), 50);
    change_load_by_button(&mut m, -20);
    assert_eq!(m.get_load_target(&Consumer::Player), 30);
    change_load_by_button(&mut m, -100);
    assert_eq!(m.get_load_target(&Consumer::Player), 0);
    assert_eq!(m.get_load(&Consumer::Player), 0);
}

#[test]
fn interaction_disabled_only_while_off() {
    assert!(computer_interaction_disabled(&MachineState::Off));
    assert!(!computer_interaction_disabled(&MachineState::Booting));
    assert!(!computer_interaction_disabled(&MachineState::Ready));
    assert!(!computer_interaction_disabled(&MachineState::ShuttingDown));
}

#[test]
fn palette_channels_in_thousandths() {
    assert_eq!(CustomColor::Normal.rgb_milli(), (0, 400, 0));
    assert_eq!(CustomColor::Hovered.rgb_milli(), (0, 450, 0));
    assert_eq!(CustomColor::Pressed.rgb_milli(), (0, 400, 0));
    assert_eq!(CustomColor::Disabled.rgb_milli(), (0, 450, 0));
    assert_eq!(CustomColor::Component.rgb_milli(), (100, 100, 100));
    assert_eq!(CustomColor::Player.rgb_milli(), (0, 500, 0));
    assert_eq!(CustomColor::System.rgb_milli(), (500, 0, 500));
    assert_eq!(CustomColor::User.rgb_milli(), (0, 0, 500));
    assert_eq!(CustomColor::Enemy.rgb_milli(), (500, 0, 0));
}
