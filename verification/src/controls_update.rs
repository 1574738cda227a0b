//! Breakpoints and the scrolling of the program listing.
use vstd::prelude::*;
use crate::{ApplicationState, ControlRelatedData, PC_START};

verus! {

/// How many rows of the program listing are left out when the scroll position is computed.
pub const SCROLL_OFFSET: usize = 10;

/// What the program listing should do after an update.
#[derive(Clone, Copy, Debug, PartialEq, Eq, Structural)]
pub enum ScrollAction {
    /// Leave the listing where it is.
    Stay,
    /// Scroll the listing to the relative position `index / span` of its height.
    SnapTo { index: usize, span: usize },
}

/// The scroll that follows the program counter: nothing when following is off, when the
/// program has no more rows than [`SCROLL_OFFSET`], or when the program counter lies before
/// the program; otherwise the position of the instruction under the program counter (or of
/// the first one) relative to the length of the program less [`SCROLL_OFFSET`].
pub open spec fn spec_scroll_to_pc(state: ApplicationState) -> ScrollAction {
    let len = state.emulator_related_data.current_program@.len();
    if !state.control_related_data.auto_scroll_pc {
        ScrollAction::Stay
    } else if len <= SCROLL_OFFSET {
        ScrollAction::Stay
    } else if state.emulator_related_data.emulator_state.program_counter >= PC_START {
        ScrollAction::SnapTo {
            index: match state.normalised_pc() {
                Some(i) => i,
                None => 0,
            },
            span: (len - SCROLL_OFFSET) as usize,
        }
    } else {
        ScrollAction::Stay
    }
}

/// The state with the breakpoint set at `bp`, or cleared if it was there.
pub open spec fn spec_toggle_breakpoint(state: ApplicationState, bp: usize) -> ApplicationState {
    ApplicationState {
        control_related_data: ControlRelatedData {
            breakpoint: if state.control_related_data.breakpoint == Some(bp) {
                None
            } else {
                Some(bp)
            },
            ..state.control_related_data
        },
        ..state
    }
}

/// Set the breakpoint at `bp`, or clear it if it is already there.
pub fn toggle_breakpoint(application_state: &mut ApplicationState, bp: usize)
    ensures
        *final(application_state) == spec_toggle_breakpoint(*old(application_state), bp),
{
    let is_set = match application_state.control_related_data.breakpoint {
        Some(current) => current == bp,
        None => false,
    };
    if is_set {
        application_state.control_related_data.breakpoint = None;
    } else {
        application_state.control_related_data.breakpoint = Some(bp);
    }
}

/// Where the program listing should scroll to follow the program counter.
pub fn scroll_to_pc(application_state: &ApplicationState) -> (action: ScrollAction)
    ensures
        action == spec_scroll_to_pc(*application_state),
{
    if !application_state.control_related_data.auto_scroll_pc {
        return ScrollAction::Stay;
    }
    let len = application_state.emulator_related_data.current_program.len();
    if len <= SCROLL_OFFSET {
        return ScrollAction::Stay;
    }
    let index = match application_state.get_normalised_pc() {
        Some(i) => i,
        None => 0,
    };
    if application_state.emulator_related_data.emulator_state.program_counter >= PC_START {
        ScrollAction::SnapTo { index, span: len - SCROLL_OFFSET }
    } else {
        ScrollAction::Stay
    }
}

/// The state with following the program counter switched on or off.
pub open spec fn spec_toggle_auto_scroll(state: ApplicationState) -> ApplicationState {
    ApplicationState {
        control_related_data: ControlRelatedData {
            auto_scroll_pc: !state.control_related_data.auto_scroll_pc,
            ..state.control_related_data
        },
        ..state
    }
}

/// Switch following the program counter on or off, and scroll as the new setting asks.
pub fn toggle_auto_scroll_to_pc(application_state: &mut ApplicationState) -> (action:
    ScrollAction)
    ensures
        *final(application_state) == spec_toggle_auto_scroll(*old(application_state)),
        action == spec_scroll_to_pc(*final(application_state)),
{
    application_state.control_related_data.auto_scroll_pc =
        !application_state.control_related_data.auto_scroll_pc;
    scroll_to_pc(application_state)
}

} // verus!
