use chip_eight_debugger::controls_update::{
    scroll_to_pc, toggle_auto_scroll_to_pc, toggle_breakpoint, ScrollAction,
};
use chip_eight_debugger::controls_view::{controls_header, instruction_address, instruction_row};
use chip_eight_debugger::emulator_update::{
    debugger_quirks, next_instruction, respond_to_key_event, set_execution_speed, toggle_running,
    update_program, update_quirks_mode,
};
use chip_eight_debugger::file_picker_update::{
    enter_directory, load_program_from_online, program_fetch_error,
    set_current_search_term, set_program_picker_source, update_directory_listing,
    update_program_path,
};
use chip_eight_debugger::file_picker_view::{
    contains_text, default_games, dirs_first, entry_label, expand_home, fallback_games,
    game_name, picker_input, picker_submit, visible_games, PickerSubmit,
};
use chip_eight_debugger::instruction::{
    instruction_operands, operands_of_text, program_opcodes, Operands,
};
use chip_eight_debugger::interpreter_screen_view::screen_rgba;
use chip_eight_debugger::keyboard_update::{respond_to_user_event, KeyboardKey, UserEvent};
use chip_eight_debugger::keypad_view::{key_is_active, key_label, keypad_layout};
use chip_eight_debugger::main_pane_update::{
    new_pane_state, pane_clicked, pane_close, pane_close_focussed, pane_dragged,
    pane_focus_adjacent, pane_maximize, pane_restore, pane_set_active_view, pane_split,
    pane_split_focussed, pane_toggle_pin, pane_view,
};
use chip_eight_debugger::main_pane_view::{panel_controls, pin_label, MaximizeButton};
use chip_eight_debugger::metadata_view::{
    byte_bits, register_highlight, sprite_rows, RegisterHighlight,
};
use chip_eight_debugger::subscriptions::interpreter_running;
use chip_eight_debugger::pane_grid::{DropEdge, DropTarget};
use iced::widget::pane_grid::{self, Axis, Configuration, Direction, Node, Pane};
use chip_eight_debugger::{
    available_views, ApplicationState, EmulatorKeyEvent, EmulatorKeyboardInputKind,
    EmulatorState, InterpreterPaneViewKind, MetadataRelatedData, PaneState, ProgramPickerSource,
    SupportedQuirksModes, PC_START,
};

fn initial_grid() -> pane_grid::State<PaneState> {
    let leaf = |id: usize| Box::new(Configuration::Pane(PaneState::new(id)));
    pane_grid::State::with_configuration(Configuration::Split {
        axis: Axis::Vertical,
        ratio: 0.60,
        a: Box::new(Configuration::Split {
            axis: Axis::Horizontal,
            ratio: 0.60,
            a: leaf(0),
            b: Box::new(Configuration::Split {
                axis: Axis::Vertical,
                ratio: 0.75,
                a: leaf(1),
                b: leaf(2),
            }),
        }),
        b: Box::new(Configuration::Split {
            axis: Axis::Horizontal,
            ratio: 0.70,
            a: leaf(3),
            b: leaf(4),
        }),
    })
}

fn fresh() -> ApplicationState {
    ApplicationState::initial(
        "/home/user/games",
        vec!["/home/user/games/a.ch8".to_string()],
        initial_grid(),
    )
}

fn leaves_of(node: &Node, out: &mut Vec<Pane>) {
    match node {
        Node::Split { a, b, .. } => {
            leaves_of(a, out);
            leaves_of(b, out);
        }
        Node::Pane(pane) => out.push(*pane),
    }
}

/// The panes of the layout, first side of each split first.
fn leaves(state: &ApplicationState) -> Vec<Pane> {
    let mut out = vec![];
    leaves_of(state.pane_related_data.panes.layout(), &mut out);
    out
}

fn handle_of(state: &ApplicationState, id: usize) -> Pane {
    let found = state.pane_related_data.panes.iter().find(|(_, pane)| pane.id == id);
    *found.expect("a pane with that id").0
}

fn with_program(opcodes: Vec<u16>, pc: usize) -> ApplicationState {
    let mut state = fresh();
    state.emulator_related_data.current_program = opcodes;
    state.emulator_related_data.emulator_state.program_counter = pc;
    state
}

#[test]
fn pane_state_new_is_unpinned() {
    let pane = PaneState::new(7);
    assert_eq!(pane, PaneState { id: 7, is_pinned: false });
}

#[test]
fn initial_state_matches_the_debugger_start() {
    let state = fresh();
    assert_eq!(state.emulator_related_data.emulator_state.program_counter, PC_START);
    assert_eq!(state.emulator_related_data.emulator_state.memory.len(), 0x1000);
    assert!(!state.emulator_related_data.is_running);
    assert!(state.emulator_related_data.current_program.is_empty());
    assert_eq!(state.emulator_related_data.quirks_mode, SupportedQuirksModes::Chip8);
    assert_eq!(state.emulator_related_data.execution_speed, 90);
    assert_eq!(state.pane_related_data.panes_created, 5);
    assert_eq!(state.pane_related_data.focus, None);
    assert_eq!(state.pane_related_data.panes.len(), 5);
    let views = available_views();
    for (i, view) in views.iter().enumerate() {
        assert_eq!(state.pane_related_data.pane_purposes.get(&i), Some(view));
    }
    assert_eq!(state.pane_related_data.pane_purposes.len(), 5);
    assert!(state.control_related_data.auto_scroll_pc);
    assert_eq!(state.control_related_data.breakpoint, None);
    assert_eq!(state.file_picker_related_data.program_source, ProgramPickerSource::Online);
    assert_eq!(state.file_picker_related_data.parent_dir, Some("/home/user".to_string()));
    assert_eq!(state.file_picker_related_data.current_dir.len(), 1);
    assert!(!state.file_picker_related_data.fetching_data);
    assert_eq!(
        state.metadata_related_data,
        MetadataRelatedData { register_x: None, register_y: None, draw_height: 5 }
    );
}

#[test]
fn metadata_default_draws_five_rows() {
    let data = MetadataRelatedData::default();
    assert_eq!(data.draw_height, 5);
    assert_eq!(data.register_x, None);
}

#[test]
fn labels_of_the_choices() {
    assert_eq!(ProgramPickerSource::Disk.label(), "Select from Disk");
    assert_eq!(ProgramPickerSource::Online.label(), "Select from Online");
    assert_eq!(SupportedQuirksModes::Chip8.label(), "Chip-8 Quirks");
    assert_eq!(SupportedQuirksModes::SuperChip.label(), "Super Chip Quirks");
    assert_eq!(InterpreterPaneViewKind::ScreenView.label(), "Screen View");
    assert_eq!(InterpreterPaneViewKind::ProgramPickerView.label(), "Program Picker");
    assert_eq!(InterpreterPaneViewKind::Keypad.label(), "Keypad");
}

#[test]
fn normalised_pc_cases() {
    assert_eq!(with_program(vec![], 0x204).get_normalised_pc(), None);
    assert_eq!(with_program(vec![0x00E0], 0x1FE).get_normalised_pc(), None);
    assert_eq!(with_program(vec![0x00E0], 0x200).get_normalised_pc(), Some(0));
    assert_eq!(with_program(vec![0x00E0], 0x207).get_normalised_pc(), None);
    assert_eq!(with_program(vec![0x00E0, 0x1234], 0x203).get_normalised_pc(), Some(1));
    assert_eq!(with_program(vec![0x00E0, 0x1234], 0x204).get_normalised_pc(), None);
    assert_eq!(with_program(vec![0x00E0, 0x1234], 0x202).get_instruction_under_pc(), Some(0x1234));
    assert_eq!(with_program(vec![0x00E0], 0x202).get_instruction_under_pc(), None);
}

#[test]
fn program_bytes_become_opcodes() {
    assert_eq!(program_opcodes(&vec![0x12, 0x34, 0xAB, 0xCD]), vec![0x1234, 0xABCD]);
    assert_eq!(program_opcodes(&vec![0x12, 0x34, 0x56]), vec![0x1234, 0]);
    assert_eq!(program_opcodes(&vec![]), Vec::<u16>::new());
}

#[test]
fn decoder_descriptions() {
    let state = with_program(vec![0xD123, 0x00E0, 0, 0x8AB6], 0x200);
    assert_eq!(
        instruction_row(&state, 0).description,
        "Draw { x_register: 1, y_register: 2, height: 3 }"
    );
    assert_eq!(instruction_row(&state, 1).description, "ClearScreen");
    assert_eq!(instruction_row(&state, 2).description, "Unimplemented(0)");
    assert_eq!(
        instruction_row(&state, 3).description,
        "LogicalOperator { operator: Shift(Right), register_x: 10, register_y: 11 }"
    );
}

#[test]
fn operands_of_each_kind() {
    let none = Operands { register_x: None, register_y: None, height: None };
    assert_eq!(
        instruction_operands(0x7A05),
        Operands { register_x: Some(10), register_y: None, height: None }
    );
    assert_eq!(
        instruction_operands(0xF329),
        Operands { register_x: Some(3), register_y: None, height: None }
    );
    assert_eq!(
        instruction_operands(0xE19E),
        Operands { register_x: Some(1), register_y: None, height: None }
    );
    assert_eq!(
        instruction_operands(0xB234),
        Operands { register_x: Some(2), register_y: None, height: None }
    );
    assert_eq!(
        instruction_operands(0xC5FF),
        Operands { register_x: Some(5), register_y: None, height: None }
    );
    assert_eq!(
        instruction_operands(0x8AB4),
        Operands { register_x: Some(10), register_y: Some(11), height: None }
    );
    assert_eq!(
        instruction_operands(0x5120),
        Operands { register_x: Some(1), register_y: Some(2), height: None }
    );
    assert_eq!(
        instruction_operands(0x9340),
        Operands { register_x: Some(3), register_y: Some(4), height: None }
    );
    assert_eq!(
        instruction_operands(0xDEF5),
        Operands { register_x: Some(14), register_y: Some(15), height: Some(5) }
    );
    assert_eq!(instruction_operands(0x1234), none);
    assert_eq!(instruction_operands(0xA123), none);
    assert_eq!(instruction_operands(0x00E0), none);
    assert_eq!(instruction_operands(0x2345), none);
}

#[test]
fn operands_read_from_text() {
    assert_eq!(
        operands_of_text("SubCommand { register: 12, command: GetKey }"),
        Operands { register_x: Some(12), register_y: None, height: None }
    );
    assert_eq!(
        operands_of_text("LogicalOperator { operator: Shift(Left), register_x: 1, register_y: 2 }"),
        Operands { register_x: Some(1), register_y: Some(2), height: None }
    );
    assert_eq!(
        operands_of_text("Drawing { x_register: 1 }"),
        Operands { register_x: None, register_y: None, height: None }
    );
    assert_eq!(
        operands_of_text("Draw { x_register: 1, y_register: 2, height: 300 }"),
        Operands { register_x: Some(1), register_y: Some(2), height: None }
    );
    assert_eq!(
        operands_of_text("Draw { x_register: 99999999999999999999999, y_register: 2, height: 3 }"),
        Operands { register_x: None, register_y: Some(2), height: Some(3) }
    );
}

#[test]
fn stepping_updates_state_and_metadata() {
    let mut state = with_program(vec![0x6A12, 0xD120, 0x1200], 0x200);
    state.control_related_data.auto_scroll_pc = false;
    let mut stepped = EmulatorState::blank(0x202);
    stepped.index_register = 7;
    let action = next_instruction(&mut state, Some(stepped));
    assert_eq!(action, ScrollAction::Stay);
    assert_eq!(state.emulator_related_data.emulator_state.index_register, 7);
    assert_eq!(state.metadata_related_data.register_x, Some(1));
    assert_eq!(state.metadata_related_data.register_y, Some(2));
    assert_eq!(state.metadata_related_data.draw_height, 16);

    state.emulator_related_data.emulator_state.program_counter = 0x200;
    next_instruction(&mut state, None);
    assert_eq!(state.metadata_related_data.register_x, Some(10));
    assert_eq!(state.metadata_related_data.register_y, None);
    assert_eq!(state.metadata_related_data.draw_height, 16);

    state.emulator_related_data.emulator_state.program_counter = 0x300;
    next_instruction(&mut state, None);
    assert_eq!(state.metadata_related_data.register_x, None);
    assert_eq!(state.metadata_related_data.draw_height, 16);
}

#[test]
fn scrolling_follows_the_program_counter() {
    let state = with_program(vec![0; 20], 0x20A);
    assert_eq!(scroll_to_pc(&state), ScrollAction::SnapTo { index: 5, span: 10 });
    let past_end = with_program(vec![0; 20], 0x200 + 2 * 30);
    assert_eq!(scroll_to_pc(&past_end), ScrollAction::SnapTo { index: 0, span: 10 });
    let short = with_program(vec![0; 10], 0x20A);
    assert_eq!(scroll_to_pc(&short), ScrollAction::Stay);
    let before = with_program(vec![0; 20], 0x100);
    assert_eq!(scroll_to_pc(&before), ScrollAction::Stay);
    let mut off = with_program(vec![0; 20], 0x20A);
    let action = toggle_auto_scroll_to_pc(&mut off);
    assert!(!off.control_related_data.auto_scroll_pc);
    assert_eq!(action, ScrollAction::Stay);
    let action = toggle_auto_scroll_to_pc(&mut off);
    assert_eq!(action, ScrollAction::SnapTo { index: 5, span: 10 });
}

#[test]
fn breakpoint_toggles() {
    let mut state = fresh();
    toggle_breakpoint(&mut state, 3);
    assert_eq!(state.control_related_data.breakpoint, Some(3));
    toggle_breakpoint(&mut state, 5);
    assert_eq!(state.control_related_data.breakpoint, Some(5));
    toggle_breakpoint(&mut state, 5);
    assert_eq!(state.control_related_data.breakpoint, None);
}

#[test]
fn running_speed_and_quirks() {
    let mut state = fresh();
    toggle_running(&mut state);
    assert!(state.emulator_related_data.is_running);
    toggle_running(&mut state);
    assert!(!state.emulator_related_data.is_running);
    set_execution_speed(&mut state, 42);
    assert_eq!(state.emulator_related_data.execution_speed, 42);
    let quirks = update_quirks_mode(&mut state, SupportedQuirksModes::SuperChip);
    assert_eq!(state.emulator_related_data.quirks_mode, SupportedQuirksModes::SuperChip);
    assert!(!quirks.vf_reset && !quirks.memory && !quirks.disp_wait);
    assert!(quirks.clipping && quirks.shifting && quirks.jumping);
    let chip8 = debugger_quirks(SupportedQuirksModes::Chip8);
    assert!(chip8.vf_reset && chip8.memory && !chip8.disp_wait && chip8.clipping);
    assert!(!chip8.shifting && !chip8.jumping);
}

#[test]
fn key_events_on_the_keypad() {
    let mut keys = [0u8; 16];
    respond_to_key_event(&mut keys, EmulatorKeyEvent::Down, EmulatorKeyboardInputKind::UsKeyboardChar('Q'));
    assert_eq!(keys[4], 1);
    respond_to_key_event(&mut keys, EmulatorKeyEvent::Up, EmulatorKeyboardInputKind::UsKeyboardChar('q'));
    assert_eq!(keys, [0u8; 16]);
    respond_to_key_event(&mut keys, EmulatorKeyEvent::Down, EmulatorKeyboardInputKind::UsKeyboardChar('!'));
    assert_eq!(keys, [0u8; 16]);
    respond_to_key_event(&mut keys, EmulatorKeyEvent::Toggle, EmulatorKeyboardInputKind::HexKeyIndex(0x13));
    assert_eq!(keys[3], 1);
    respond_to_key_event(&mut keys, EmulatorKeyEvent::Toggle, EmulatorKeyboardInputKind::HexKeyIndex(3));
    assert_eq!(keys[3], 0);
    keys[9] = 5;
    respond_to_key_event(&mut keys, EmulatorKeyEvent::Toggle, EmulatorKeyboardInputKind::UsKeyboardChar('d'));
    assert_eq!(keys[9], 0);
    respond_to_key_event(&mut keys, EmulatorKeyEvent::Toggle, EmulatorKeyboardInputKind::UsKeyboardChar('D'));
    assert_eq!(keys[9], 1);
    respond_to_key_event(&mut keys, EmulatorKeyEvent::Down, EmulatorKeyboardInputKind::UsKeyboardChar('v'));
    assert_eq!(keys[15], 1);
}

#[test]
fn user_events() {
    let mut state = fresh();
    let mut keys = [0u8; 16];
    respond_to_user_event(&mut state, &mut keys, UserEvent::KeyPressed(KeyboardKey::Space));
    assert!(state.emulator_related_data.is_running);
    respond_to_user_event(&mut state, &mut keys, UserEvent::KeyReleased(KeyboardKey::Space));
    assert!(state.emulator_related_data.is_running);
    respond_to_user_event(&mut state, &mut keys, UserEvent::KeyPressed(KeyboardKey::Character("w".to_string())));
    assert_eq!(keys[5], 1);
    respond_to_user_event(&mut state, &mut keys, UserEvent::KeyReleased(KeyboardKey::Character("W".to_string())));
    assert_eq!(keys[5], 0);
    respond_to_user_event(&mut state, &mut keys, UserEvent::KeyPressed(KeyboardKey::Character("xyz".to_string())));
    assert_eq!(keys[0], 1);
    respond_to_user_event(&mut state, &mut keys, UserEvent::KeyPressed(KeyboardKey::Character(String::new())));
    respond_to_user_event(&mut state, &mut keys, UserEvent::KeyPressed(KeyboardKey::Other));
    respond_to_user_event(&mut state, &mut keys, UserEvent::Other);
    assert_eq!(keys.iter().map(|k| *k as u32).sum::<u32>(), 1);
    assert!(state.emulator_related_data.is_running);
}

#[test]
fn loading_a_program() {
    let mut state = fresh();
    state.file_picker_related_data.fetching_data = true;
    state.emulator_related_data.emulator_state.program_counter = 0x200;
    let loaded = update_program(&mut state, &vec![0x00, 0xE0, 0xA2, 0x2A, 0x60]);
    assert!(!state.file_picker_related_data.fetching_data);
    assert_eq!(state.emulator_related_data.current_program, vec![0x00E0, 0xA22A, 0]);
    assert!(loaded.quirks.vf_reset && !loaded.quirks.disp_wait);
    assert_eq!(loaded.scroll, ScrollAction::Stay);
}

#[test]
fn file_picker_updates() {
    let mut state = fresh();
    set_program_picker_source(&mut state, ProgramPickerSource::Disk);
    assert_eq!(state.file_picker_related_data.program_source, ProgramPickerSource::Disk);
    update_program_path(&mut state, "~/roms".to_string());
    assert_eq!(state.file_picker_related_data.program_path, "~/roms");
    set_current_search_term(&mut state, "logo".to_string());
    assert_eq!(state.file_picker_related_data.current_search_term, "logo");
    assert!(!load_program_from_online(&mut state, "not a url"));
    assert!(!state.file_picker_related_data.fetching_data);
    assert!(load_program_from_online(&mut state, "https://example.com/pong.ch8"));
    assert!(state.file_picker_related_data.fetching_data);
    program_fetch_error(&mut state);
    assert!(!state.file_picker_related_data.fetching_data);
    enter_directory(&mut state, "/home/user/games/chip8");
    assert_eq!(state.file_picker_related_data.parent_dir, Some("/home/user/games".to_string()));
    enter_directory(&mut state, "/");
    assert_eq!(state.file_picker_related_data.parent_dir, None);
    update_directory_listing(&mut state, vec!["a".to_string(), "b".to_string()]);
    assert_eq!(state.file_picker_related_data.current_dir, vec!["a".to_string(), "b".to_string()]);
}

#[test]
fn paths_typed_from_home() {
    assert_eq!(expand_home("~/roms/pong.ch8", "/home/me"), "/home/me/roms/pong.ch8");
    assert_eq!(expand_home("~~/x", "/home/me"), "/home/me/x");
    assert_eq!(expand_home("/abs/~", "/home/me"), "/abs/~");
    assert_eq!(expand_home("", "/home/me"), "");
}

#[test]
fn directory_listing_order_and_labels() {
    assert_eq!(dirs_first(&vec![true, false, true, false]), vec![1, 3, 0, 2]);
    assert_eq!(dirs_first(&vec![]), Vec::<usize>::new());
    assert_eq!(entry_label(Some("roms".to_string()), true), "roms/");
    assert_eq!(entry_label(Some("pong.ch8".to_string()), false), "pong.ch8");
    assert_eq!(entry_label(None, false), "invalid");
}

#[test]
fn online_programs() {
    let fallback = fallback_games();
    assert_eq!(fallback.len(), 9);
    let games = default_games(None);
    assert_eq!(games.len(), 9);
    assert_eq!(game_name(&games[3]), "3-corax+.ch8");
    assert_eq!(game_name(&games[0]), "rockto.ch8");
    let listed = default_games(Some(vec![
        "https://example.com/roms/tetris.ch8\n".to_string(),
        "nonsense\n".to_string(),
    ]));
    assert_eq!(listed.len(), 1);
    assert_eq!(listed[0].serialization, "https://example.com/roms/tetris.ch8");
    let empty_list = default_games(Some(vec!["nonsense".to_string()]));
    assert_eq!(empty_list.len(), 9);
    let shown = visible_games(&games, "LOGO");
    assert_eq!(shown.len(), 2);
    assert_eq!(shown[0].name, "1-chip8-logo.ch8");
    assert_eq!(shown[1].name, "2-ibm-logo.ch8");
    assert_eq!(visible_games(&games, "").len(), 9);
    assert_eq!(visible_games(&games, "zzz").len(), 0);
}

#[test]
fn outside_helpers() {
    let games = default_games(Some(vec![
        "ftp://x.org/a/b".to_string(),
        "https://x.org/dir/Space%20Invaders.ch8".to_string(),
        "https://X.org".to_string(),
    ]));
    assert_eq!(games.len(), 3);
    assert_eq!(games[0].path_segments, Some(vec!["a".to_string(), "b".to_string()]));
    assert_eq!(game_name(&games[0]), "b");
    assert_eq!(game_name(&games[1]), "Space Invaders.ch8");
    assert_eq!(games[2].serialization, "https://x.org/");
    assert_eq!(game_name(&games[2]), "");
    let shown = visible_games(&games, "SPACE inv");
    assert_eq!(shown.len(), 1);
    assert_eq!(shown[0].url, "https://x.org/dir/Space%20Invaders.ch8");
    assert!(contains_text("hello", "ll"));
    assert!(contains_text("hello", ""));
    assert!(!contains_text("hello", "lo!"));
}

#[test]
fn keypad_view() {
    let rows = keypad_layout();
    assert_eq!(rows, vec![
        vec![0x1, 0x2, 0x3, 0xC],
        vec![0x4, 0x5, 0x6, 0xD],
        vec![0x7, 0x8, 0x9, 0xE],
        vec![0xA, 0x0, 0xB, 0xF],
    ]);
    assert_eq!(key_label(0xC), "C");
    assert_eq!(key_label(7), "7");
    assert_eq!(key_label(0x1F), "1F");
    let mut keys = [0u8; 16];
    keys[0xA] = 2;
    assert!(key_is_active(&keys, 0xA));
    assert!(!key_is_active(&keys, 0xB));
    assert!(!key_is_active(&keys, 20));
}

#[test]
fn metadata_view() {
    assert_eq!(register_highlight(1, Some(1), Some(1)), RegisterHighlight::X);
    assert_eq!(register_highlight(2, Some(1), Some(2)), RegisterHighlight::Y);
    assert_eq!(register_highlight(3, Some(1), Some(2)), RegisterHighlight::Plain);
    let memory = vec![1u8, 2, 3, 4];
    assert_eq!(sprite_rows(&memory, 2, 4), vec![3, 4, 0, 0]);
    assert_eq!(byte_bits(0b1010_0001), vec![true, false, true, false, false, false, false, true]);
}

#[test]
fn screen_pixels() {
    let pixels = screen_rgba(&vec![0, 1, 3], [255, 255, 255, 255], [0, 0, 0, 255]);
    assert_eq!(pixels, vec![0, 0, 0, 255, 255, 255, 255, 255, 255, 255, 255, 255]);
}

#[test]
fn panel_controls_and_rows() {
    let c = panel_controls(1, false, false);
    assert_eq!(c.maximize, None);
    assert!(!c.close);
    let c = panel_controls(3, true, true);
    assert_eq!(c.maximize, Some(MaximizeButton::Restore));
    assert!(!c.close);
    let c = panel_controls(3, false, false);
    assert_eq!(c.maximize, Some(MaximizeButton::Maximize));
    assert!(c.close);
    assert_eq!(pin_label(true), "Unpin");
    assert_eq!(pin_label(false), "Pin");
    assert_eq!(instruction_address(3), 0x206);
    let mut state = with_program(vec![0; 4], 0x204);
    toggle_breakpoint(&mut state, 1);
    let row = instruction_row(&state, 2);
    assert_eq!(row.address, 0x204);
    assert!(row.is_current && !row.has_breakpoint);
    let row = instruction_row(&state, 1);
    assert!(!row.is_current && row.has_breakpoint);
}

#[test]
fn stepping_interval() {
    let mut state = with_program(vec![0; 4], 0x200);
    assert_eq!(interpreter_running(&state), None);
    toggle_running(&mut state);
    set_execution_speed(&mut state, 100);
    assert_eq!(interpreter_running(&state), Some(4));
    set_execution_speed(&mut state, 1);
    assert_eq!(interpreter_running(&state), Some(400));
    toggle_breakpoint(&mut state, 0);
    assert_eq!(interpreter_running(&state), None);
    let mut empty = with_program(vec![], 0x200);
    toggle_running(&mut empty);
    assert_eq!(interpreter_running(&empty), None);
    let mut past_end = with_program(vec![0; 4], 0x208);
    toggle_running(&mut past_end);
    assert_eq!(interpreter_running(&past_end), None);
    toggle_breakpoint(&mut past_end, 1);
    assert_eq!(interpreter_running(&past_end), Some(44));
}

#[test]
fn pane_decisions() {
    let mut state = fresh();
    let made = new_pane_state(&state);
    assert_eq!(made, PaneState { id: 5, is_pinned: false });
    assert_eq!(pane_split_focussed(&mut state, Axis::Vertical), None);
    assert_eq!(state.pane_related_data.panes_created, 5);
    assert_eq!(state.pane_related_data.panes.len(), 5);
    pane_focus_adjacent(&mut state, Direction::Left);
    assert_eq!(state.pane_related_data.focus, None);

    let first = handle_of(&state, 0);
    let split = pane_split(&mut state, Axis::Horizontal, first).expect("a new pane");
    assert_eq!(state.pane_related_data.focus, Some(split));
    assert_eq!(state.pane_related_data.panes_created, 6);
    assert_eq!(state.pane_related_data.panes.len(), 6);
    assert_eq!(state.pane_related_data.panes.get(split), Some(&PaneState { id: 5, is_pinned: false }));
    let second = pane_split_focussed(&mut state, Axis::Vertical).expect("a new pane");
    assert_eq!(state.pane_related_data.focus, Some(second));
    assert_eq!(state.pane_related_data.panes_created, 7);
    assert_eq!(state.pane_related_data.panes.get(second).map(|pane| pane.id), Some(6));

    pane_clicked(&mut state, first);
    assert_eq!(state.pane_related_data.focus, Some(first));
    pane_toggle_pin(&mut state, first);
    assert!(state.pane_related_data.panes.get(first).unwrap().is_pinned);
    assert_eq!(pane_close_focussed(&mut state), None);
    assert_eq!(state.pane_related_data.panes.len(), 7);
    pane_toggle_pin(&mut state, first);
    assert!(!state.pane_related_data.panes.get(first).unwrap().is_pinned);
    let sibling = pane_close_focussed(&mut state).expect("the pane closes");
    assert_eq!(state.pane_related_data.focus, Some(sibling));
    assert_eq!(state.pane_related_data.panes.len(), 6);
    assert!(state.pane_related_data.panes.get(first).is_none());
    assert_eq!(pane_close(&mut state, first), None);
    pane_toggle_pin(&mut state, first);
    assert_eq!(state.pane_related_data.panes.len(), 6);
    let closed = pane_close(&mut state, second);
    assert!(closed.is_some());
    assert_eq!(state.pane_related_data.focus, closed);
    assert_eq!(state.pane_related_data.panes.len(), 5);
    assert_eq!(state.pane_related_data.panes_created, 7);

    pane_maximize(&mut state, split);
    assert_eq!(state.pane_related_data.panes.maximized(), Some(split));
    pane_restore(&mut state);
    assert_eq!(state.pane_related_data.panes.maximized(), None);
    assert_eq!(state.pane_related_data.panes.len(), 5);
    pane_dragged(&mut state, split, DropTarget::GridEdge(DropEdge::Left));
    assert_eq!(leaves(&state)[0], split);
    assert_eq!(state.pane_related_data.panes.len(), 5);
    assert_eq!(state.pane_related_data.panes.get(split).map(|pane| pane.id), Some(5));

    pane_set_active_view(&mut state, InterpreterPaneViewKind::Keypad, 0);
    assert_eq!(pane_view(&state, 0), Some(InterpreterPaneViewKind::Keypad));
    assert_eq!(pane_view(&state, 99), None);
}

#[test]
fn pane_focus_moves_to_the_neighbour() {
    let (grid, left) = pane_grid::State::new(PaneState::new(0));
    let mut state = ApplicationState::initial("/home/user", vec![], grid);
    let right = pane_split(&mut state, Axis::Vertical, left).expect("a new pane");
    pane_clicked(&mut state, left);
    pane_focus_adjacent(&mut state, Direction::Right);
    assert_eq!(state.pane_related_data.focus, Some(right));
    pane_focus_adjacent(&mut state, Direction::Right);
    assert_eq!(state.pane_related_data.focus, Some(right));
    pane_focus_adjacent(&mut state, Direction::Left);
    assert_eq!(state.pane_related_data.focus, Some(left));
}

#[test]
fn picker_submit_and_input() {
    let mut state = fresh();
    assert_eq!(picker_input(&state).hint, "URL");
    set_program_picker_source(&mut state, ProgramPickerSource::Disk);
    update_program_path(&mut state, "~/roms".to_string());
    let action = picker_submit(&state, "/home/me", true);
    assert!(matches!(action, PickerSubmit::EnterDirectory(ref p) if p == "/home/me/roms"));
    let action = picker_submit(&state, "/home/me", false);
    assert!(matches!(action, PickerSubmit::LoadProgram(ref p) if p == "/home/me/roms"));
    let input = picker_input(&state);
    assert_eq!(input.hint, "File or Dir");
    assert!(input.accepts_input);
    set_program_picker_source(&mut state, ProgramPickerSource::Online);
    update_program_path(&mut state, "~/x.ch8".to_string());
    let action = picker_submit(&state, "/home/me", true);
    assert!(matches!(action, PickerSubmit::LoadProgramFromOnline(ref p) if p == "~/x.ch8"));
    assert_eq!(picker_input(&state).hint, "URL");
    update_program_path(&mut state, "https://x.org/a.ch8".to_string());
    assert!(load_program_from_online(&mut state, "https://x.org/a.ch8"));
    assert!(!picker_input(&state).accepts_input);
    program_fetch_error(&mut state);
    assert!(picker_input(&state).accepts_input);
}

#[test]
fn controls_header_labels() {
    let state = fresh();
    let header = controls_header(&state);
    assert_eq!(header.run_label, "\u{25b6}");
    assert!(!header.running);
    assert!(header.no_program_loaded);
    assert_eq!(header.auto_scroll_label, "Auto Scroll: ON");
    assert!(header.auto_scroll);
    let mut state = with_program(vec![0x00E0, 0x1200], PC_START);
    toggle_running(&mut state);
    toggle_auto_scroll_to_pc(&mut state);
    let header = controls_header(&state);
    assert_eq!(header.run_label, "\u{23f8}");
    assert!(header.running);
    assert!(!header.no_program_loaded);
    assert_eq!(header.auto_scroll_label, "Auto Scroll: OFF");
    assert!(!header.auto_scroll);
}

#[test]
fn pane_layout_moves() {
    let mut state = fresh();
    let ids = |state: &ApplicationState| -> Vec<usize> {
        leaves(state)
            .iter()
            .map(|p| state.pane_related_data.panes.get(*p).unwrap().id)
            .collect()
    };
    assert_eq!(ids(&state), vec![0, 1, 2, 3, 4]);
    let one = handle_of(&state, 1);
    let made = pane_split(&mut state, Axis::Vertical, one).expect("a new pane");
    assert_eq!(ids(&state), vec![0, 1, 5, 2, 3, 4]);
    assert_eq!(leaves(&state)[2], made);
    let four = handle_of(&state, 4);
    pane_dragged(&mut state, four, DropTarget::GridEdge(DropEdge::Top));
    assert_eq!(ids(&state), vec![4, 0, 1, 5, 2, 3]);
    pane_dragged(&mut state, four, DropTarget::GridEdge(DropEdge::Right));
    assert_eq!(ids(&state), vec![0, 1, 5, 2, 3, 4]);
    let two = handle_of(&state, 2);
    pane_dragged(&mut state, four, DropTarget::PaneEdge(two, DropEdge::Left));
    assert_eq!(ids(&state), vec![0, 1, 5, 4, 2, 3]);
    pane_dragged(&mut state, four, DropTarget::PaneEdge(two, DropEdge::Bottom));
    assert_eq!(ids(&state), vec![0, 1, 5, 2, 4, 3]);
    let zero = handle_of(&state, 0);
    pane_dragged(&mut state, four, DropTarget::PaneCenter(zero));
    assert_eq!(ids(&state), vec![4, 1, 5, 2, 0, 3]);
    assert_eq!(state.pane_related_data.panes.len(), 6);

    let missing = pane_close(&mut state, made);
    assert!(missing.is_some());
    assert_eq!(ids(&state), vec![4, 1, 2, 0, 3]);
    assert_eq!(pane_close(&mut state, made), None);
}

#[test]
fn last_pane_stays() {
    let (grid, only) = pane_grid::State::new(PaneState::new(0));
    let mut state = ApplicationState::initial("/home/user", vec![], grid);
    pane_clicked(&mut state, only);
    assert_eq!(pane_close_focussed(&mut state), None);
    assert_eq!(pane_close(&mut state, only), None);
    assert_eq!(state.pane_related_data.panes.len(), 1);
    assert_eq!(state.pane_related_data.focus, Some(only));
    pane_maximize(&mut state, only);
    assert_eq!(state.pane_related_data.panes.maximized(), Some(only));
    pane_restore(&mut state);
    assert_eq!(state.pane_related_data.panes.maximized(), None);
}

#[test]
fn sprite_rows_at_the_top_of_the_address_space() {
    let memory = vec![1u8, 2, 3];
    assert_eq!(sprite_rows(&memory, usize::MAX - 3, 4), vec![0, 0, 0, 0]);
    assert_eq!(sprite_rows(&memory, usize::MAX, 1), vec![0]);
    assert_eq!(sprite_rows(&memory, usize::MAX, 0), Vec::<u8>::new());
}
