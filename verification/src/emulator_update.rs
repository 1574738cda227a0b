//! Stepping the emulator, its settings, and the keys of its keypad.
use vstd::prelude::*;
use crate::{
    ApplicationState, EmulatorKeyEvent, EmulatorKeyboardInputKind, EmulatorRelatedData,
    EmulatorState, FilePickerRelatedData, MetadataRelatedData, SupportedQuirksModes,
};
use crate::controls_update::{scroll_to_pc, spec_scroll_to_pc, ScrollAction};
use crate::instruction::{
    instruction_operands, instruction_text, program_opcodes, spec_operands, spec_program_opcodes,
};

verus! {

/// The predefined behaviour sets of the emulator core.
#[derive(Clone, Copy, Debug, PartialEq, Eq, Structural)]
pub enum QuirksPreset {
    Chip8,
    SuperChipModern,
    SuperChipLegacy,
}

/// The individual behaviours that the emulator core can be told to follow.
#[derive(Clone, Copy, Debug, PartialEq, Eq, Structural)]
pub struct QuirksFields {
    pub vf_reset: bool,
    pub memory: bool,
    pub disp_wait: bool,
    pub clipping: bool,
    pub shifting: bool,
    pub jumping: bool,
}

/// The behaviours of each preset, as the emulator core defines them.
pub open spec fn spec_preset_quirks(preset: QuirksPreset) -> QuirksFields {
    match preset {
        QuirksPreset::Chip8 => QuirksFields {
            vf_reset: true,
            memory: true,
            disp_wait: true,
            clipping: true,
            shifting: false,
            jumping: false,
        },
        QuirksPreset::SuperChipModern => QuirksFields {
            vf_reset: false,
            memory: false,
            disp_wait: true,
            clipping: true,
            shifting: true,
            jumping: true,
        },
        QuirksPreset::SuperChipLegacy => QuirksFields {
            vf_reset: false,
            memory: false,
            disp_wait: false,
            clipping: true,
            shifting: true,
            jumping: true,
        },
    }
}

/// The behaviours that the emulator core (`chip_eight::QuirksFields::from`) gives to a preset;
/// the contract restates the core's table for its three presets.
#[verifier::external_body]
fn preset_quirks(preset: QuirksPreset) -> (quirks: QuirksFields)
    ensures
        quirks == spec_preset_quirks(preset),
{
    let q = chip_eight::QuirksFields::from(match preset {
        QuirksPreset::Chip8 => chip_eight::QuirksMode::Chip8,
        QuirksPreset::SuperChipModern => chip_eight::QuirksMode::SuperChip(
            chip_eight::SuperChipBehaviour::Modern,
        ),
        QuirksPreset::SuperChipLegacy => chip_eight::QuirksMode::SuperChip(
            chip_eight::SuperChipBehaviour::Legacy,
        ),
    });
    QuirksFields { vf_reset: q.vf_reset, memory: q.memory, disp_wait: q.disp_wait, clipping: q.clipping, shifting: q.shifting, jumping: q.jumping }
}

/// The preset behind each quirks mode that the debugger offers.
pub open spec fn spec_mode_preset(mode: SupportedQuirksModes) -> QuirksPreset {
    match mode {
        SupportedQuirksModes::Chip8 => QuirksPreset::Chip8,
        SupportedQuirksModes::SuperChip => QuirksPreset::SuperChipModern,
    }
}

/// The behaviours that the debugger hands the emulator for a quirks mode: those of its preset,
/// without waiting for the display.
pub open spec fn spec_debugger_quirks(mode: SupportedQuirksModes) -> QuirksFields {
    QuirksFields { disp_wait: false, ..spec_preset_quirks(spec_mode_preset(mode)) }
}

/// The behaviours that the debugger hands the emulator for a quirks mode.
pub fn debugger_quirks(mode: SupportedQuirksModes) -> (quirks: QuirksFields)
    ensures
        quirks == spec_debugger_quirks(mode),
{
    let preset = match mode {
        SupportedQuirksModes::Chip8 => QuirksPreset::Chip8,
        SupportedQuirksModes::SuperChip => QuirksPreset::SuperChipModern,
    };
    let quirks = preset_quirks(preset);
    QuirksFields { disp_wait: false, ..quirks }
}

/// Select a quirks mode; returns the behaviours that the emulator is to follow from now on.
pub fn update_quirks_mode(
    application_state: &mut ApplicationState,
    new_mode: SupportedQuirksModes,
) -> (quirks: QuirksFields)
    ensures
        *final(application_state) == (ApplicationState {
            emulator_related_data: EmulatorRelatedData {
                quirks_mode: new_mode,
                ..old(application_state).emulator_related_data
            },
            ..*old(application_state)
        }),
        quirks == spec_debugger_quirks(new_mode),
{
    let quirks = debugger_quirks(new_mode);
    application_state.emulator_related_data.quirks_mode = new_mode;
    quirks
}

/// The state with the emulator started if it was paused, paused if it was running.
pub open spec fn spec_toggle_running(state: ApplicationState) -> ApplicationState {
    ApplicationState {
        emulator_related_data: EmulatorRelatedData {
            is_running: !state.emulator_related_data.is_running,
            ..state.emulator_related_data
        },
        ..state
    }
}

/// Start the emulator if it is paused, pause it if it is running.
pub fn toggle_running(application_state: &mut ApplicationState)
    ensures
        *final(application_state) == spec_toggle_running(*old(application_state)),
{
    application_state.emulator_related_data.is_running =
        !application_state.emulator_related_data.is_running;
}

/// Set how fast the emulator runs.
pub fn set_execution_speed(application_state: &mut ApplicationState, new_speed: u8)
    ensures
        *final(application_state) == (ApplicationState {
            emulator_related_data: EmulatorRelatedData {
                execution_speed: new_speed,
                ..old(application_state).emulator_related_data
            },
            ..*old(application_state)
        }),
{
    application_state.emulator_related_data.execution_speed = new_speed;
}

/// The metadata highlighted for the instruction encoded by `opcode` (or for no instruction):
/// the registers that it names, and the height of the sprite that it draws, a height of 0
/// standing for a 16-row sprite; without a draw, the height shown before stays.
pub open spec fn spec_metadata_for(previous: MetadataRelatedData, opcode: Option<u16>)
    -> MetadataRelatedData {
    match opcode {
        Some(op) => {
            let operands = spec_operands(instruction_text(op));
            MetadataRelatedData {
                register_x: operands.register_x,
                register_y: operands.register_y,
                draw_height: match operands.height {
                    Some(h) => if h == 0 {
                        16
                    } else {
                        h
                    },
                    None => previous.draw_height,
                },
            }
        },
        None => MetadataRelatedData {
            register_x: None,
            register_y: None,
            draw_height: previous.draw_height,
        },
    }
}

/// The state after the emulator has stepped: the emulator state that the step produced (if
/// any) is shown, and the metadata follows the instruction under the new program counter.
pub open spec fn spec_after_step(state: ApplicationState, stepped: Option<EmulatorState>)
    -> ApplicationState {
    let shown = ApplicationState {
        emulator_related_data: EmulatorRelatedData {
            emulator_state: match stepped {
                Some(s) => s,
                None => state.emulator_related_data.emulator_state,
            },
            ..state.emulator_related_data
        },
        ..state
    };
    ApplicationState {
        metadata_related_data: spec_metadata_for(
            state.metadata_related_data,
            shown.opcode_under_pc(),
        ),
        ..shown
    }
}

/// Take in the result of one step of the emulator; returns where the program listing scrolls.
pub fn next_instruction(
    application_state: &mut ApplicationState,
    stepped: Option<EmulatorState>,
) -> (action: ScrollAction)
    ensures
        *final(application_state) == spec_after_step(*old(application_state), stepped),
        action == spec_scroll_to_pc(*final(application_state)),
{
    if let Some(emulator_state) = stepped {
        application_state.emulator_related_data.emulator_state = emulator_state;
    }
    let instruction = application_state.get_instruction_under_pc();
    match instruction {
        Some(opcode) => {
            let operands = instruction_operands(opcode);
            application_state.metadata_related_data.register_x = operands.register_x;
            application_state.metadata_related_data.register_y = operands.register_y;
            if let Some(height) = operands.height {
                if height == 0 {
                    application_state.metadata_related_data.draw_height = 16;
                } else {
                    application_state.metadata_related_data.draw_height = height;
                }
            }
        },
        None => {
            application_state.metadata_related_data.register_x = None;
            application_state.metadata_related_data.register_y = None;
        },
    }
    scroll_to_pc(application_state)
}

/// What the emulator is to do once a program has been loaded.
#[derive(Clone, Copy, Debug, PartialEq, Eq, Structural)]
pub struct ProgramLoaded {
    /// The behaviours that the freshly reset emulator follows.
    pub quirks: QuirksFields,
    /// Where the program listing scrolls.
    pub scroll: ScrollAction,
}

/// Take in a freshly fetched program: fetching is over, and the listing shows the program's
/// opcodes. The emulator, reset with the program, follows the Chip-8 behaviours without
/// waiting for the display.
pub fn update_program(application_state: &mut ApplicationState, program: &Vec<u8>) -> (loaded:
    ProgramLoaded)
    ensures
        *final(application_state) == (ApplicationState {
            emulator_related_data: EmulatorRelatedData {
                current_program: final(application_state).emulator_related_data.current_program,
                ..old(application_state).emulator_related_data
            },
            file_picker_related_data: FilePickerRelatedData {
                fetching_data: false,
                ..old(application_state).file_picker_related_data
            },
            ..*old(application_state)
        }),
        final(application_state).emulator_related_data.current_program@ == spec_program_opcodes(
            program@,
        ),
        loaded.quirks == spec_debugger_quirks(SupportedQuirksModes::Chip8),
        loaded.scroll == spec_scroll_to_pc(*final(application_state)),
{
    application_state.file_picker_related_data.fetching_data = false;
    application_state.emulator_related_data.current_program = program_opcodes(program);
    let quirks = debugger_quirks(SupportedQuirksModes::Chip8);
    let scroll = scroll_to_pc(application_state);
    ProgramLoaded { quirks, scroll }
}

/// The keys of the keypad in the order of their hexadecimal index, as typed on a US keyboard.
pub open spec fn spec_character_map() -> Seq<char> {
    seq!['x', '1', '2', '3', 'q', 'w', 'e', 'a', 's', 'd', 'z', 'c', '4', 'r', 'f', 'v']
}

/// The keys of the keypad in the order of their hexadecimal index, as typed on a US keyboard.
pub fn character_map() -> (map: Vec<char>)
    ensures
        map@ == spec_character_map(),
{
    vec!['x', '1', '2', '3', 'q', 'w', 'e', 'a', 's', 'd', 'z', 'c', '4', 'r', 'f', 'v']
}

/// The code of a character after ASCII lower-casing.
pub open spec fn ascii_lowercase_code(c: char) -> u32 {
    let n = c as u32;
    if 65 <= n && n <= 90 {
        (n + 32) as u32
    } else {
        n
    }
}

/// The first index at or after `from` at which `map` holds the character with code `code`.
pub open spec fn position_from(map: Seq<char>, code: u32, from: int) -> Option<int>
    decreases map.len() - from,
{
    if from < 0 || from >= map.len() {
        None
    } else if map[from] as u32 == code {
        Some(from)
    } else {
        position_from(map, code, from + 1)
    }
}

/// The keypad key that a US keyboard character stands for, ignoring ASCII case.
pub open spec fn spec_char_key(c: char) -> Option<int> {
    position_from(spec_character_map(), ascii_lowercase_code(c), 0)
}

/// The keypad key that an input addresses: the key of a typed character, or the hexadecimal
/// index taken modulo 16.
pub open spec fn spec_key_slot(input: EmulatorKeyboardInputKind) -> Option<int> {
    match input {
        EmulatorKeyboardInputKind::UsKeyboardChar(c) => spec_char_key(c),
        EmulatorKeyboardInputKind::HexKeyIndex(i) => Some(i as int % 16),
    }
}

/// The state of a key after an event: released, pressed, or flipped between the two.
pub open spec fn spec_key_after(event: EmulatorKeyEvent, key: u8) -> u8 {
    match event {
        EmulatorKeyEvent::Up => 0,
        EmulatorKeyEvent::Down => 1,
        EmulatorKeyEvent::Toggle => if key == 0 {
            1
        } else {
            0
        },
    }
}

/// The keypad after an event: the addressed key changes, the others stay; a character that
/// stands for no key changes nothing.
pub open spec fn spec_keys_after(
    keys: Seq<u8>,
    event: EmulatorKeyEvent,
    input: EmulatorKeyboardInputKind,
) -> Seq<u8> {
    match spec_key_slot(input) {
        Some(i) => keys.update(i, spec_key_after(event, keys[i])),
        None => keys,
    }
}

pub(crate) proof fn lemma_position_from_range(map: Seq<char>, code: u32, from: int)
    ensures
        position_from(map, code, from) matches Some(i) ==> 0 <= from <= i < map.len() && map[i] as u32
            == code,
    decreases map.len() - from,
{
    if 0 <= from < map.len() && map[from] as u32 != code {
        lemma_position_from_range(map, code, from + 1);
    }
}

/// The keypad key that a US keyboard character stands for.
fn char_key(c: char) -> (key: Option<usize>)
    ensures
        match key {
            Some(k) => spec_char_key(c) == Some(k as int) && k < 16,
            None => spec_char_key(c) is None,
        },
{
    let map = character_map();
    let n = c as u32;
    let code: u32 = if 65 <= n && n <= 90 {
        n + 32
    } else {
        n
    };
    let mut i: usize = 0;
    while i < map.len()
        invariant
            map@ == spec_character_map(),
            code == ascii_lowercase_code(c),
            i <= map@.len(),
            spec_char_key(c) == position_from(map@, code, i as int),
        decreases map@.len() - i,
    {
        if map[i] as u32 == code {
            proof {
                lemma_position_from_range(map@, code, i as int);
            }
            return Some(i);
        }
        i = i + 1;
    }
    None
}

/// Press, release or flip the keypad key that an input addresses.
pub fn respond_to_key_event(
    keys: &mut [u8; 16],
    e: EmulatorKeyEvent,
    c: EmulatorKeyboardInputKind,
)
    ensures
        final(keys)@ == spec_keys_after(old(keys)@, e, c),
{
    let position: usize = match c {
        EmulatorKeyboardInputKind::UsKeyboardChar(ch) => match char_key(ch) {
            Some(k) => k,
            None => {
                return ;
            },
        },
        EmulatorKeyboardInputKind::HexKeyIndex(i) => {
            let p = (i & 0xF) as usize;
            assert(i & 0xF == i % 16) by (bit_vector);
            p
        },
    };
    let key = keys[position];
    let new_key: u8 = match e {
        EmulatorKeyEvent::Up => 0,
        EmulatorKeyEvent::Down => 1,
        EmulatorKeyEvent::Toggle => if key == 0 {
            1
        } else {
            0
        },
    };
    keys[position] = new_key;
}

} // verus!
