//! The state, the update rules and the display decisions of a CHIP-8 debugger.
//!
//! The toolkit's widgets, the emulator core and all I/O live outside this crate: they hand
//! plain values in and act on the plain values that come back. The toolkit's pane grid is
//! held in the state, and the update rules work on it through the contracts of `pane_grid`.
use std::collections::HashMap;
use iced::widget::pane_grid::{Pane, State};
use vstd::prelude::*;

pub mod instruction;
pub mod controls_update;
pub mod emulator_update;
pub mod keyboard_update;
pub mod file_picker_update;
pub mod file_picker_view;
pub mod pane_grid;
pub mod main_pane_update;
pub mod subscriptions;
pub mod keypad_view;
pub mod metadata_view;
pub mod interpreter_screen_view;
pub mod controls_view;
pub mod main_pane_view;
pub mod laws;

verus! {

broadcast use vstd::std_specs::hash::group_hash_axioms;

/// Address at which a CHIP-8 program is loaded and starts executing.
pub const PC_START: usize = 0x200;

/// State of one pane of the pane grid.
#[derive(Clone, Copy, Debug, PartialEq, Eq, Structural)]
pub struct PaneState {
    pub id: usize,
    pub is_pinned: bool,
}

impl PaneState {
    /// A fresh, unpinned pane with the given id.
    pub fn new(id: usize) -> (pane: Self)
        ensures
            pane.id == id,
            !pane.is_pinned,
    {
        PaneState { id, is_pinned: false }
    }
}

/// What happened to an emulator key.
#[derive(Clone, Copy, Debug, PartialEq, Eq, Structural)]
pub enum EmulatorKeyEvent {
    Up,
    Down,
    Toggle,
}

/// Where a key event came from: a character typed on a US keyboard, or the index of a key of
/// the hexadecimal keypad.
#[derive(Clone, Copy, Debug, PartialEq, Eq, Structural)]
pub enum EmulatorKeyboardInputKind {
    UsKeyboardChar(char),
    HexKeyIndex(u8),
}

/// Where programs are picked from.
#[derive(Clone, Copy, Debug, PartialEq, Eq, Structural)]
pub enum ProgramPickerSource {
    Disk,
    Online,
}

/// The quirks modes that the debugger offers.
#[derive(Clone, Copy, Debug, PartialEq, Eq, Structural)]
pub enum SupportedQuirksModes {
    Chip8,
    SuperChip,
}

/// What a pane of the interpreter shows.
#[derive(Clone, Copy, Debug, PartialEq, Eq, Structural)]
pub enum InterpreterPaneViewKind {
    ScreenView,
    ControllerView,
    MetadataView,
    ProgramPickerView,
    Keypad,
}

impl ProgramPickerSource {
    /// The text under which the source is offered.
    pub fn label(&self) -> (s: String)
        ensures
            s@ == match self {
                ProgramPickerSource::Disk => "Select from Disk"@,
                ProgramPickerSource::Online => "Select from Online"@,
            },
    {
        match self {
            ProgramPickerSource::Disk => String::from_str("Select from Disk"),
            ProgramPickerSource::Online => String::from_str("Select from Online"),
        }
    }
}

impl SupportedQuirksModes {
    /// The text under which the mode is offered.
    pub fn label(&self) -> (s: String)
        ensures
            s@ == match self {
                SupportedQuirksModes::Chip8 => "Chip-8 Quirks"@,
                SupportedQuirksModes::SuperChip => "Super Chip Quirks"@,
            },
    {
        match self {
            SupportedQuirksModes::Chip8 => String::from_str("Chip-8 Quirks"),
            SupportedQuirksModes::SuperChip => String::from_str("Super Chip Quirks"),
        }
    }
}

impl InterpreterPaneViewKind {
    /// The text under which the view is offered.
    pub fn label(&self) -> (s: String)
        ensures
            s@ == match self {
                InterpreterPaneViewKind::ScreenView => "Screen View"@,
                InterpreterPaneViewKind::ControllerView => "Controller View"@,
                InterpreterPaneViewKind::MetadataView => "Metadata View"@,
                InterpreterPaneViewKind::Keypad => "Keypad"@,
                InterpreterPaneViewKind::ProgramPickerView => "Program Picker"@,
            },
    {
        match self {
            InterpreterPaneViewKind::ScreenView => String::from_str("Screen View"),
            InterpreterPaneViewKind::ControllerView => String::from_str("Controller View"),
            InterpreterPaneViewKind::MetadataView => String::from_str("Metadata View"),
            InterpreterPaneViewKind::Keypad => String::from_str("Keypad"),
            InterpreterPaneViewKind::ProgramPickerView => String::from_str("Program Picker"),
        }
    }
}

/// The views that a pane can show, in the order in which they are offered; the pane with id
/// `i` of the initial layout shows the `i`-th.
pub open spec fn spec_available_views() -> Seq<InterpreterPaneViewKind> {
    seq![
        InterpreterPaneViewKind::ScreenView,
        InterpreterPaneViewKind::MetadataView,
        InterpreterPaneViewKind::Keypad,
        InterpreterPaneViewKind::ControllerView,
        InterpreterPaneViewKind::ProgramPickerView,
    ]
}

/// The views that a pane can show, in the order in which they are offered.
pub fn available_views() -> (views: Vec<InterpreterPaneViewKind>)
    ensures
        views@ == spec_available_views(),
{
    vec![
        InterpreterPaneViewKind::ScreenView,
        InterpreterPaneViewKind::MetadataView,
        InterpreterPaneViewKind::Keypad,
        InterpreterPaneViewKind::ControllerView,
        InterpreterPaneViewKind::ProgramPickerView,
    ]
}

/// What the debugger shows of the emulator after a step: the parts of the emulator's state
/// that the views and the update rules read.
#[derive(Clone, Debug)]
pub struct EmulatorState {
    pub memory: Vec<u8>,
    pub stack: Vec<usize>,
    pub variable_registers: Vec<u8>,
    pub screen_buffer: Vec<u8>,
    pub index_register: usize,
    pub program_counter: usize,
    pub width: usize,
    pub height: usize,
}

/// Size of the emulator's memory in bytes.
pub const MEMORY_SIZE: usize = 0x1000;

impl EmulatorState {
    /// The state shown before the emulator has run: zeroed memory and registers, an empty
    /// stack and screen, the low resolution, and the program counter at `program_counter`.
    pub open spec fn is_blank(&self, program_counter: usize) -> bool {
        &&& self.memory@ == Seq::new(MEMORY_SIZE as nat, |i: int| 0u8)
        &&& self.stack@ == Seq::<usize>::empty()
        &&& self.variable_registers@ == Seq::new(16, |i: int| 0u8)
        &&& self.screen_buffer@ == Seq::<u8>::empty()
        &&& self.index_register == 0
        &&& self.program_counter == program_counter
        &&& self.width == 64
        &&& self.height == 32
    }

    /// The state shown before the emulator has run: zeroed memory and registers, an empty
    /// stack and screen, the low resolution, and the program counter at `program_counter`.
    pub fn blank(program_counter: usize) -> (state: Self)
        ensures
            state.is_blank(program_counter),
    {
        let state = EmulatorState {
            memory: vec![0u8; MEMORY_SIZE],
            stack: Vec::new(),
            variable_registers: vec![0u8; 16],
            screen_buffer: Vec::new(),
            index_register: 0,
            program_counter,
            width: 64,
            height: 32,
        };
        assert(state.memory@ =~= Seq::new(MEMORY_SIZE as nat, |i: int| 0u8));
        assert(state.variable_registers@ =~= Seq::new(16, |i: int| 0u8));
        state
    }
}

/// The emulator-related part of the state.
#[derive(Clone, Debug)]
pub struct EmulatorRelatedData {
    pub emulator_state: EmulatorState,
    pub is_running: bool,
    /// The loaded program, one opcode per instruction slot.
    pub current_program: Vec<u16>,
    pub quirks_mode: SupportedQuirksModes,
    pub execution_speed: u8,
}

/// The pane-related part of the state: the grid of panes, how many panes were made, which
/// pane has the focus, and which view each pane id shows.
#[derive(Debug)]
pub struct PaneRelatedData {
    pub panes: State<PaneState>,
    pub panes_created: usize,
    pub focus: Option<Pane>,
    pub pane_purposes: HashMap<usize, InterpreterPaneViewKind>,
}

impl PaneRelatedData {
    /// Every pane of the grid has an id below the count of panes made, and no two panes of
    /// the grid share an id.
    pub open spec fn pane_ids_wf(&self) -> bool {
        let panes = pane_grid::grid_panes(self.panes);
        &&& forall|p: Pane| #[trigger] panes.contains_key(p) ==> panes[p].id < self.panes_created
        &&& forall|p: Pane, q: Pane|
            #[trigger] panes.contains_key(p) && #[trigger] panes.contains_key(q) && p != q
                ==> panes[p].id != panes[q].id
    }
}

/// The state of the program controls.
#[derive(Clone, Copy, Debug, PartialEq, Eq, Structural)]
pub struct ControlRelatedData {
    pub auto_scroll_pc: bool,
    pub breakpoint: Option<usize>,
}

/// The state of the program picker. Paths are held as text.
#[derive(Clone, Debug)]
pub struct FilePickerRelatedData {
    pub program_source: ProgramPickerSource,
    pub program_path: String,
    pub current_search_term: String,
    pub current_dir: Vec<String>,
    pub parent_dir: Option<String>,
    pub fetching_data: bool,
}

/// What the metadata view highlights.
#[derive(Clone, Copy, Debug, PartialEq, Eq, Structural)]
pub struct MetadataRelatedData {
    pub register_x: Option<usize>,
    pub register_y: Option<usize>,
    pub draw_height: u8,
}

impl Default for MetadataRelatedData {
    fn default() -> (data: Self)
        ensures
            data.register_x is None,
            data.register_y is None,
            data.draw_height == 5,
    {
        MetadataRelatedData { register_x: None, register_y: None, draw_height: 5 }
    }
}

/// The whole state of the debugger that the update rules read and write.
#[derive(Debug)]
pub struct ApplicationState {
    pub emulator_related_data: EmulatorRelatedData,
    pub pane_related_data: PaneRelatedData,
    pub control_related_data: ControlRelatedData,
    pub file_picker_related_data: FilePickerRelatedData,
    pub metadata_related_data: MetadataRelatedData,
}

/// The index in the program of the instruction at address `pc`; `None` when `pc` lies out of
/// the program's range (before its start, or past its last instruction).
pub open spec fn spec_normalised_pc(pc: usize, program_len: nat) -> Option<usize> {
    if pc < PC_START || (pc - PC_START) / 2 >= program_len {
        None
    } else {
        Some(((pc - PC_START) / 2) as usize)
    }
}

/// Which view each pane of the initial layout shows: pane `i` the `i`-th available view.
pub open spec fn spec_initial_purposes() -> Map<usize, InterpreterPaneViewKind> {
    Map::new(
        |i: usize| i < spec_available_views().len(),
        |i: usize| spec_available_views()[i as int],
    )
}

impl ApplicationState {
    /// The state in which the debugger starts, browsing the directory `here` whose entries are
    /// `current_dir`: the emulator paused at the start of an empty program, running at speed
    /// 90 with the Chip-8 quirks; the grid `panes` (laid out by the caller), whose initial panes
    /// show the available views in order, none focused; the program counter followed, no breakpoint; programs picked online.
    pub fn initial(here: &str, current_dir: Vec<String>, panes: State<PaneState>) -> (state: Self)
        ensures
            state.pane_related_data.panes == panes,
            state.emulator_related_data.emulator_state.is_blank(PC_START),
            !state.emulator_related_data.is_running,
            state.emulator_related_data.current_program@ == Seq::<u16>::empty(),
            state.emulator_related_data.quirks_mode == SupportedQuirksModes::Chip8,
            state.emulator_related_data.execution_speed == 90,
            state.pane_related_data.panes_created == spec_available_views().len(),
            state.pane_related_data.focus is None,
            state.pane_related_data.pane_purposes@ == spec_initial_purposes(),
            state.control_related_data == (ControlRelatedData {
                auto_scroll_pc: true,
                breakpoint: None,
            }),
            state.file_picker_related_data.program_source == ProgramPickerSource::Online,
            state.file_picker_related_data.program_path@ == Seq::<char>::empty(),
            state.file_picker_related_data.current_search_term@ == Seq::<char>::empty(),
            state.file_picker_related_data.current_dir == current_dir,
            state.file_picker_related_data.parent_dir.deep_view() == file_picker_update::parent_path(
                here@,
            ),
            !state.file_picker_related_data.fetching_data,
            state.metadata_related_data == (MetadataRelatedData {
                register_x: None,
                register_y: None,
                draw_height: 5,
            }),
    {
        let views = available_views();
        let mut pane_purposes: HashMap<usize, InterpreterPaneViewKind> = HashMap::new();
        let mut id: usize = 0;
        while id < views.len()
            invariant
                views@ == spec_available_views(),
                id <= views@.len(),
                pane_purposes@ == Map::new(|i: usize| i < id, |i: usize| views@[i as int]),
            decreases views@.len() - id,
        {
            pane_purposes.insert(id, views[id]);
            id = id + 1;
            assert(pane_purposes@ =~= Map::new(|i: usize| i < id, |i: usize| views@[i as int]));
        }
        assert(pane_purposes@ =~= spec_initial_purposes());
        ApplicationState {
            emulator_related_data: EmulatorRelatedData {
                emulator_state: EmulatorState::blank(PC_START),
                is_running: false,
                current_program: Vec::new(),
                quirks_mode: SupportedQuirksModes::Chip8,
                execution_speed: 90,
            },
            pane_related_data: PaneRelatedData {
                panes,
                panes_created: views.len(),
                focus: None,
                pane_purposes,
            },
            control_related_data: ControlRelatedData { auto_scroll_pc: true, breakpoint: None },
            file_picker_related_data: FilePickerRelatedData {
                program_source: ProgramPickerSource::Online,
                program_path: String::new(),
                current_search_term: String::new(),
                current_dir,
                parent_dir: file_picker_update::path_parent(here),
                fetching_data: false,
            },
            metadata_related_data: MetadataRelatedData::default(),
        }
    }

    /// The index in the program of the instruction under the program counter.
    pub open spec fn normalised_pc(&self) -> Option<usize> {
        spec_normalised_pc(
            self.emulator_related_data.emulator_state.program_counter,
            self.emulator_related_data.current_program@.len(),
        )
    }

    /// The opcode under the program counter.
    pub open spec fn opcode_under_pc(&self) -> Option<u16> {
        match self.normalised_pc() {
            Some(i) => if i < self.emulator_related_data.current_program@.len() {
                Some(self.emulator_related_data.current_program@[i as int])
            } else {
                None
            },
            None => None,
        }
    }

    /// Convert the program counter value into an index in the current program.
    /// Returns `None` if the program counter is out of the program's range.
    pub fn get_normalised_pc(&self) -> (index: Option<usize>)
        ensures
            index == self.normalised_pc(),
    {
        let pc = self.emulator_related_data.emulator_state.program_counter;
        if pc < PC_START {
            return None;
        }
        let offset: usize = pc - PC_START;
        let index: usize = offset >> 1;
        assert(offset >> 1 == offset / 2) by (bit_vector);
        if index >= self.emulator_related_data.current_program.len() {
            return None;
        }
        Some(index)
    }

    /// The opcode of the instruction under the program counter, if there is one.
    pub fn get_instruction_under_pc(&self) -> (opcode: Option<u16>)
        ensures
            opcode == self.opcode_under_pc(),
    {
        match self.get_normalised_pc() {
            Some(i) => if i < self.emulator_related_data.current_program.len() {
                Some(self.emulator_related_data.current_program[i])
            } else {
                None
            },
            None => None,
        }
    }
}

} // verus!
