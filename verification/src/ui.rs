//! The computable part of the user interface: adjusting the player's
//! target load by a signed button delta.

use vstd::prelude::*;

use crate::computer::Consumer;
use crate::machine::{set_load_spec, Machine, MachineState};

verus! {

/// Whether the widgets that control the computer are disabled: they are
/// exactly while the machine is off.
pub fn computer_interaction_disabled(state: &MachineState) -> (r: bool)
    ensures
        r == (*state == MachineState::Off),
{
    match *state {
        MachineState::Off => true,
        _ => false,
    }
}

/// Change the `Player` consumer's target load by the given signed delta,
/// clamped at zero from below, and apply it to the machine.
pub fn change_load_by_button(machine: &mut Machine, value: i32)
    requires
        old(machine).load_target.spec_get(Consumer::Player) <= i32::MAX,
        old(machine).load_target.spec_get(Consumer::Player) + value <= i32::MAX,
    ensures
        ({
            let cur = old(machine).load_target.spec_get(Consumer::Player) as int;
            let val = (if cur + value >= 0 {
                cur + value
            } else {
                0
            }) as u32;
            let retargeted = Machine {
                load_target: old(machine).load_target.with(Consumer::Player, val),
                ..*old(machine)
            };
            *final(machine) == set_load_spec(retargeted, Consumer::Player, val)
        }),
        final(machine).load.total() <= final(machine).cpu,
{
    let mut load: i32 = machine.get_load_target(&Consumer::Player) as i32;
    let floor: i32 = -load;
    let delta: i32 = if value > floor {
        value
    } else {
        floor
    };
    load = load + delta;
    machine.set_load_target(&Consumer::Player, load as u32);
}

} // verus!
