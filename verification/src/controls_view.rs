//! What the program controls show: one row per instruction of the program.
use vstd::prelude::*;
use crate::{ApplicationState, PC_START};
use crate::instruction::{describe_instruction, instruction_text};

verus! {

/// The address of the instruction at index `i` of the program.
pub open spec fn spec_instruction_address(i: usize) -> int {
    i * 2 + PC_START
}

/// The address of the instruction at index `i` of the program.
pub fn instruction_address(i: usize) -> (address: usize)
    requires
        spec_instruction_address(i) <= usize::MAX,
    ensures
        address == spec_instruction_address(i),
{
    i * 2 + PC_START
}

/// One row of the program listing.
#[derive(Clone, Debug)]
pub struct InstructionRow {
    /// The address at which the instruction is loaded.
    pub address: usize,
    /// The emulator core's description of the instruction.
    pub description: String,
    /// The instruction is the one under the program counter.
    pub is_current: bool,
    /// The breakpoint sits on the instruction.
    pub has_breakpoint: bool,
}

/// The row of the program listing for the instruction at index `i`: its address, its
/// description, and whether the program counter or the breakpoint sits on it.
pub fn instruction_row(application_state: &ApplicationState, i: usize) -> (row:
    InstructionRow)
    requires
        i < application_state.emulator_related_data.current_program@.len(),
        spec_instruction_address(i) <= usize::MAX,
    ensures
        row.address == spec_instruction_address(i),
        row.description@ == instruction_text(
            application_state.emulator_related_data.current_program@[i as int],
        ),
        row.is_current == (application_state.normalised_pc() == Some(i)),
        row.has_breakpoint == (application_state.control_related_data.breakpoint == Some(i)),
{
    let is_current = match application_state.get_normalised_pc() {
        Some(pc) => pc == i,
        None => false,
    };
    let has_breakpoint = match application_state.control_related_data.breakpoint {
        Some(bp) => bp == i,
        None => false,
    };
    let description = describe_instruction(
        application_state.emulator_related_data.current_program[i],
    );
    InstructionRow { address: instruction_address(i), description, is_current, has_breakpoint }
}

/// The buttons and notice above the program listing.
#[derive(Clone, Debug)]
pub struct ControlsHeader {
    /// The run button shows pause while the emulator runs (styled as danger), play otherwise
    /// (styled as success).
    pub run_label: String,
    pub running: bool,
    /// The follow button names the setting; it is styled as success when on, danger when off.
    pub auto_scroll_label: String,
    pub auto_scroll: bool,
    /// "No program loaded" is shown while the program is empty.
    pub no_program_loaded: bool,
}

/// The buttons and notice above the program listing.
pub fn controls_header(application_state: &ApplicationState) -> (header: ControlsHeader)
    ensures
        header.running == application_state.emulator_related_data.is_running,
        header.run_label@ == if header.running {
            "\u{23f8}"@
        } else {
            "\u{25b6}"@
        },
        header.auto_scroll == application_state.control_related_data.auto_scroll_pc,
        header.auto_scroll_label@ == if header.auto_scroll {
            "Auto Scroll: ON"@
        } else {
            "Auto Scroll: OFF"@
        },
        header.no_program_loaded == (application_state.emulator_related_data.current_program@.len()
            == 0),
{
    let running = application_state.emulator_related_data.is_running;
    let auto_scroll = application_state.control_related_data.auto_scroll_pc;
    ControlsHeader {
        run_label: if running {
            String::from_str("\u{23f8}")
        } else {
            String::from_str("\u{25b6}")
        },
        running,
        auto_scroll_label: if auto_scroll {
            String::from_str("Auto Scroll: ON")
        } else {
            String::from_str("Auto Scroll: OFF")
        },
        auto_scroll,
        no_program_loaded: application_state.emulator_related_data.current_program.len() == 0,
    }
}

} // verus!
