//! When the running emulator is stepped.
use vstd::prelude::*;
use crate::ApplicationState;

verus! {

/// The pause in milliseconds between two steps of the running emulator: the speed setting
/// goes from 1 to 100 and is inverted, four milliseconds per unit below 101. Nothing is
/// stepped while the emulator is paused, while the instruction under the program counter
/// carries the breakpoint, or, when no breakpoint is set, once the program counter is out of
/// the program's range.
pub open spec fn spec_step_interval(state: ApplicationState) -> Option<u64> {
    if state.emulator_related_data.is_running && state.normalised_pc()
        != state.control_related_data.breakpoint {
        Some(((101 - state.emulator_related_data.execution_speed) * 4) as u64)
    } else {
        None
    }
}

/// The pause between two steps of the emulator, or `None` while it is not to be stepped.
pub fn interpreter_running(application_state: &ApplicationState) -> (interval: Option<u64>)
    requires
        application_state.emulator_related_data.execution_speed <= 101,
    ensures
        interval == spec_step_interval(*application_state),
{
    if !application_state.emulator_related_data.is_running {
        return None;
    }
    let at_breakpoint = match (
        application_state.get_normalised_pc(),
        application_state.control_related_data.breakpoint,
    ) {
        (Some(pc), Some(bp)) => pc == bp,
        (None, None) => true,
        _ => false,
    };
    if at_breakpoint {
        return None;
    }
    let units: u64 = (101 - application_state.emulator_related_data.execution_speed) as u64;
    assert(units << 2 == units * 4) by (bit_vector)
        requires
            units <= 101,
    ;
    Some(units << 2)
}

} // verus!
