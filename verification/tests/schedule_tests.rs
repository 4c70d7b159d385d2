use computer_sim::computer::Consumer;
use computer_sim::machine::MachineState;
use computer_sim::schedule::ComputerSchedule;

#[test]
fn scheduled_state_phases_of_a_window() {
    let schedule = ComputerSchedule::new();
    // The first window runs from 52325 to 52385, with ten seconds of
    // booting at the start and ten of shutting down before the stop.
    assert_eq!(schedule.state(52324), MachineState::Off);
    assert_eq!(schedule.state(52325), MachineState::Booting);
    assert_eq!(schedule.state(52334), MachineState::Booting);
    assert_eq!(schedule.state(52335), MachineState::Ready);
    assert_eq!(schedule.state(52375), MachineState::Ready);
    assert_eq!(schedule.state(52376), MachineState::ShuttingDown);
    assert_eq!(schedule.state(52385), MachineState::ShuttingDown);
    assert_eq!(schedule.state(52386), MachineState::Off);
}

#[test]
fn scheduled_system_load_follows_the_phase() {
    let schedule = ComputerSchedule::new();
    assert_eq!(schedule.load(&Consumer::System, 52330), Ok(900));
    assert_eq!(schedule.load(&Consumer::System, 52350), Ok(100));
    assert_eq!(schedule.load(&Consumer::System, 52380), Ok(750));
}

#[test]
fn scheduled_user_load_only_while_ready() {
    let schedule = ComputerSchedule::new();
    assert_eq!(schedule.load(&Consumer::User, 52330), Ok(0));
    assert_eq!(schedule.load(&Consumer::User, 52350), Ok(500));
    assert_eq!(schedule.load(&Consumer::User, 52380), Ok(0));
}

#[test]
fn scheduled_load_is_zero_for_everyone_outside_windows() {
    let schedule = ComputerSchedule::new();
    for consumer in [Consumer::System, Consumer::User, Consumer::Player, Consumer::Enemy] {
        assert_eq!(schedule.load(&consumer, 52400), Ok(0));
    }
}

#[test]
fn scheduled_load_rejects_unruled_consumers_in_a_window() {
    let schedule = ComputerSchedule::new();
    assert!(schedule.load(&Consumer::Player, 52350).is_err());
    assert!(schedule.load(&Consumer::Enemy, 52350).is_err());
}
