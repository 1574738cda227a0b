//! Properties of the debugger that relate several operations or hold of every state.
use vstd::prelude::*;
use crate::{spec_normalised_pc, ApplicationState, EmulatorKeyEvent, EmulatorKeyboardInputKind,
    EmulatorState, PaneState, SupportedQuirksModes};
use crate::controls_update::{spec_scroll_to_pc, spec_toggle_auto_scroll, spec_toggle_breakpoint,
    ScrollAction};
use crate::controls_view::spec_instruction_address;
use crate::emulator_update::{
    ascii_lowercase_code, lemma_position_from_range, position_from, spec_after_step, spec_char_key, spec_character_map,
    spec_debugger_quirks, spec_key_slot, spec_keys_after, spec_toggle_running,
};
use crate::file_picker_view::{indices_with, spec_dirs_first};
use crate::main_pane_update::spec_toggle_pin;
use crate::subscriptions::spec_step_interval;
use crate::metadata_view::spec_byte_bits;
use crate::InterpreterPaneViewKind;
use crate::main_pane_view::{spec_panel_controls, MaximizeButton};
use crate::instruction::{
    digit_value, field_number, is_digit, lemma_first_occurrence, names_variant, occurs_at,
    spec_operands, spec_program_opcodes, decimal_value, digit_prefix_len, instruction_text,
    Operands,
};
use crate::MetadataRelatedData;
use crate::PC_START;
use crate::file_picker_update::UrlParts;
use crate::file_picker_view::{spec_game_matches, spec_game_name, spec_visible_games};

verus! {

/// Toggling the breakpoint twice at the same instruction leaves the state as it was, when no
/// breakpoint sat elsewhere (one that did is replaced by the first toggle).
pub proof fn law_toggle_breakpoint_twice(state: ApplicationState, bp: usize)
    requires
        state.control_related_data.breakpoint is None || state.control_related_data.breakpoint
            == Some(bp),
    ensures
        spec_toggle_breakpoint(spec_toggle_breakpoint(state, bp), bp) == state,
{
}

/// Toggling whether the emulator runs twice leaves the state as it was.
pub proof fn law_toggle_running_twice(state: ApplicationState)
    ensures
        spec_toggle_running(spec_toggle_running(state)) == state,
{
}

/// Toggling whether the listing follows the program counter twice leaves the state as it was.
pub proof fn law_toggle_auto_scroll_twice(state: ApplicationState)
    ensures
        spec_toggle_auto_scroll(spec_toggle_auto_scroll(state)) == state,
{
}

/// Pinning a pane twice leaves it as it was.
pub proof fn law_toggle_pin_twice(pane: PaneState)
    ensures
        spec_toggle_pin(spec_toggle_pin(pane)) == pane,
{
}

/// The scroll position is never computed by dividing by zero: a snap spans at least one row,
/// and it happens only while the program counter is followed.
pub proof fn law_scroll_span_positive(state: ApplicationState)
    requires
        state.emulator_related_data.current_program@.len() <= usize::MAX,
    ensures
        spec_scroll_to_pc(state) matches ScrollAction::SnapTo { index, span } ==> span >= 1
            && state.control_related_data.auto_scroll_pc,
{
}

/// The instruction listed at index `i` is the one found under the program counter when the
/// program counter holds the address shown for it.
pub proof fn law_address_under_pc(i: usize, program_len: nat)
    requires
        i < program_len,
        spec_instruction_address(i) <= usize::MAX,
    ensures
        spec_normalised_pc(spec_instruction_address(i) as usize, program_len) == Some(i),
{
}

proof fn lemma_key_slot_in_range(input: EmulatorKeyboardInputKind)
    ensures
        spec_key_slot(input) matches Some(i) ==> 0 <= i < 16,
{
    match input {
        EmulatorKeyboardInputKind::UsKeyboardChar(c) => {
            lemma_position_from_range(spec_character_map(), ascii_lowercase_code(c), 0);
        },
        EmulatorKeyboardInputKind::HexKeyIndex(i) => {},
    }
}

/// Toggling a key twice leaves the keypad as it was, while every key is released (0) or
/// pressed (1).
pub proof fn law_toggle_key_twice(keys: Seq<u8>, input: EmulatorKeyboardInputKind)
    requires
        keys.len() == 16,
        forall|i: int| 0 <= i < keys.len() ==> keys[i] <= 1,
    ensures
        spec_keys_after(
            spec_keys_after(keys, EmulatorKeyEvent::Toggle, input),
            EmulatorKeyEvent::Toggle,
            input,
        ) == keys,
{
    lemma_key_slot_in_range(input);
    if let Some(i) = spec_key_slot(input) {
        assert(spec_keys_after(
            spec_keys_after(keys, EmulatorKeyEvent::Toggle, input),
            EmulatorKeyEvent::Toggle,
            input,
        ) =~= keys);
    }
}

/// Releasing a key after pressing it leaves the keypad as releasing alone would.
pub proof fn law_press_then_release(keys: Seq<u8>, input: EmulatorKeyboardInputKind)
    requires
        keys.len() == 16,
    ensures
        spec_keys_after(spec_keys_after(keys, EmulatorKeyEvent::Down, input), EmulatorKeyEvent::Up, input)
            == spec_keys_after(keys, EmulatorKeyEvent::Up, input),
{
    lemma_key_slot_in_range(input);
    if let Some(i) = spec_key_slot(input) {
        assert(spec_keys_after(
            spec_keys_after(keys, EmulatorKeyEvent::Down, input),
            EmulatorKeyEvent::Up,
            input,
        ) =~= spec_keys_after(keys, EmulatorKeyEvent::Up, input));
    }
}

/// An event changes at most the key that it addresses.
pub proof fn law_key_event_frame(
    keys: Seq<u8>,
    event: EmulatorKeyEvent,
    input: EmulatorKeyboardInputKind,
    j: int,
)
    requires
        keys.len() == 16,
        0 <= j < 16,
        spec_key_slot(input) != Some(j),
    ensures
        spec_keys_after(keys, event, input).len() == 16,
        spec_keys_after(keys, event, input)[j] == keys[j],
{
    lemma_key_slot_in_range(input);
}

/// A typed letter addresses the same key whatever its ASCII case.
pub proof fn law_key_case_insensitive(c: char)
    requires
        65 <= c as u32 <= 90,
    ensures
        spec_char_key(c) == spec_char_key(((c as u32) + 32) as char),
{
    assert(ascii_lowercase_code(c) == ascii_lowercase_code(((c as u32) + 32) as char));
}

/// Every key of the keypad is addressed by its character of the character map.
pub proof fn law_character_map_reaches_every_key(i: int)
    requires
        0 <= i < 16,
    ensures
        spec_char_key(spec_character_map()[i]) == Some(i),
{
    reveal_with_fuel(position_from, 17);
    let m = spec_character_map();
    assert(!(65 <= #[trigger] (m[i] as u32) <= 90));
}

/// The faster the emulator is set to run, the shorter the pause between two steps.
pub proof fn law_faster_means_shorter_pause(slow: ApplicationState, fast: ApplicationState)
    requires
        slow.emulator_related_data.execution_speed <= fast.emulator_related_data.execution_speed
            <= 101,
        slow.emulator_related_data.is_running == fast.emulator_related_data.is_running,
        slow.normalised_pc() == fast.normalised_pc(),
        slow.control_related_data.breakpoint == fast.control_related_data.breakpoint,
    ensures
        spec_step_interval(fast) matches Some(f) ==> spec_step_interval(slow) matches Some(s) && f
            <= s,
{
}

/// A step never leaves the metadata view showing a sprite height of 0.
pub proof fn law_draw_height_never_zero(state: ApplicationState, stepped: Option<EmulatorState>)
    requires
        state.metadata_related_data.draw_height != 0,
    ensures
        spec_after_step(state, stepped).metadata_related_data.draw_height != 0,
{
}

/// The debugger never makes the emulator wait for the display, whatever the quirks mode.
pub proof fn law_no_display_wait(mode: SupportedQuirksModes)
    ensures
        !spec_debugger_quirks(mode).disp_wait,
{
}

proof fn lemma_indices_with(flags: Seq<bool>, want: bool, n: int)
    requires
        0 <= n <= flags.len(),
        n <= usize::MAX,
    ensures
        forall|k: int|
            0 <= k < indices_with(flags, want, n).len() ==> #[trigger] indices_with(
                flags,
                want,
                n,
            )[k] < n && flags[indices_with(flags, want, n)[k] as int] == want,
        forall|j: int, k: int|
            0 <= j < k < indices_with(flags, want, n).len() ==> indices_with(flags, want, n)[j]
                < indices_with(flags, want, n)[k],
        indices_with(flags, want, n).len() + indices_with(flags, !want, n).len() == n,
    decreases n,
{
    if n > 0 {
        lemma_indices_with(flags, want, n - 1);
        lemma_indices_with(flags, !want, n - 1);
        let prev = indices_with(flags, want, n - 1);
        let cur = indices_with(flags, want, n);
        if flags[n - 1] == want {
            assert(cur == prev.push((n - 1) as usize));
            assert forall|k: int| 0 <= k < cur.len() implies #[trigger] cur[k] < n && flags[cur[k] as int]
                == want by {
                if k < prev.len() {
                    assert(cur[k] == prev[k]);
                }
            }
            assert forall|j: int, k: int| 0 <= j < k < cur.len() implies cur[j] < cur[k] by {
                assert(cur[j] == prev[j]);
                if k < prev.len() {
                    assert(cur[k] == prev[k]);
                }
            }
        } else {
            assert(cur == prev);
        }
    }
}

/// The order of a directory listing is a stable partition: every entry is shown exactly once,
/// directories before files, and entries of the same kind keep the order of the listing.
pub proof fn law_dirs_first_stable_partition(is_file: Seq<bool>)
    requires
        is_file.len() <= usize::MAX,
    ensures
        spec_dirs_first(is_file).len() == is_file.len(),
        forall|k: int|
            0 <= k < is_file.len() ==> #[trigger] spec_dirs_first(is_file)[k] < is_file.len(),
        spec_dirs_first(is_file).no_duplicates(),
        forall|j: int, k: int|
            0 <= j < k < is_file.len() && is_file[spec_dirs_first(is_file)[j] as int]
                ==> is_file[spec_dirs_first(is_file)[k] as int],
        forall|j: int, k: int|
            0 <= j < k < is_file.len() && is_file[spec_dirs_first(is_file)[j] as int]
                == is_file[spec_dirs_first(is_file)[k] as int] ==> spec_dirs_first(is_file)[j]
                < spec_dirs_first(is_file)[k],
{
    let n = is_file.len() as int;
    let dirs = indices_with(is_file, false, n);
    let files = indices_with(is_file, true, n);
    lemma_indices_with(is_file, false, n);
    lemma_indices_with(is_file, true, n);
    let order = spec_dirs_first(is_file);
    assert(order == dirs + files);
    assert forall|k: int| 0 <= k < order.len() implies #[trigger] order[k] < n && is_file[order[k] as int]
        == (k >= dirs.len()) by {
        if k < dirs.len() {
            assert(order[k] == dirs[k]);
        } else {
            assert(order[k] == files[k - dirs.len()]);
        }
    }
    assert forall|j: int, k: int|
        0 <= j < k < order.len() && is_file[order[j] as int] == is_file[order[k] as int]
            implies order[j] < order[k] by {
        if k < dirs.len() {
            assert(order[j] == dirs[j] && order[k] == dirs[k]);
        } else if j >= dirs.len() {
            assert(order[j] == files[j - dirs.len()] && order[k] == files[k - dirs.len()]);
        }
    }
    assert(order.no_duplicates()) by {
        assert forall|j: int, k: int| 0 <= j < order.len() && 0 <= k < order.len() && j != k
            implies order[j] != order[k] by {
            if j < k {
                if is_file[order[j] as int] == is_file[order[k] as int] {
                } 
            } else {
                if is_file[order[j] as int] == is_file[order[k] as int] {
                }
            }
        }
    }
}

/// After a pane is told what to show, it shows exactly that; the other panes keep their views.
pub proof fn law_pane_view_after_set(
    purposes: Map<usize, InterpreterPaneViewKind>,
    key: usize,
    kind: InterpreterPaneViewKind,
    other: usize,
)
    requires
        other != key,
    ensures
        purposes.insert(key, kind).contains_key(key),
        purposes.insert(key, kind)[key] == kind,
        purposes.insert(key, kind).contains_key(other) == purposes.contains_key(other),
        purposes.contains_key(other) ==> purposes.insert(key, kind)[other] == purposes[other],
{
}

/// The bits shown for a byte determine the byte: different bytes show different bits.
pub proof fn law_byte_bits_determine_byte(a: u8, b: u8)
    requires
        spec_byte_bits(a) == spec_byte_bits(b),
    ensures
        a == b,
{
    let sa = spec_byte_bits(a);
    let sb = spec_byte_bits(b);
    assert(sa[0] == sb[0] && sa[1] == sb[1] && sa[2] == sb[2] && sa[3] == sb[3]);
    assert(sa[4] == sb[4] && sa[5] == sb[5] && sa[6] == sb[6] && sa[7] == sb[7]);
    assert(a == b) by (bit_vector)
        requires
            (a >> 7u8) & 1 == 1 <==> (b >> 7u8) & 1 == 1,
            (a >> 6u8) & 1 == 1 <==> (b >> 6u8) & 1 == 1,
            (a >> 5u8) & 1 == 1 <==> (b >> 5u8) & 1 == 1,
            (a >> 4u8) & 1 == 1 <==> (b >> 4u8) & 1 == 1,
            (a >> 3u8) & 1 == 1 <==> (b >> 3u8) & 1 == 1,
            (a >> 2u8) & 1 == 1 <==> (b >> 2u8) & 1 == 1,
            (a >> 1u8) & 1 == 1 <==> (b >> 1u8) & 1 == 1,
            (a >> 0u8) & 1 == 1 <==> (b >> 0u8) & 1 == 1,
    ;
}

/// With a program loaded at its start address, the opcode listed under an instruction-aligned
/// program counter is the one made of the two program bytes at that address, which the
/// emulator fetches next.
pub proof fn law_listing_matches_program_bytes(program: Seq<u8>, pc: usize)
    requires
        pc >= PC_START,
        (pc - PC_START) % 2 == 0,
        pc - PC_START + 1 < program.len(),
    ensures
        ({
            let opcodes = spec_program_opcodes(program);
            let i = spec_normalised_pc(pc, opcodes.len());
            &&& i == Some(((pc - PC_START) / 2) as usize)
            &&& opcodes[i.unwrap() as int] as int == program[pc - PC_START] as int * 256
                + program[pc - PC_START + 1] as int
        }),
{
    let opcodes = spec_program_opcodes(program);
    let k = (pc - PC_START) / 2;
    assert(2 * k == pc - PC_START);
    assert(opcodes.len() > 0);
    let v = program[2 * k] as int * 256 + program[2 * k + 1] as int;
    assert(0 <= v < 65536);
}

/// The listing scrolls to the row that it highlights as the one under the program counter, or
/// to its top when the program counter has run past the program.
pub proof fn law_scroll_targets_current_row(state: ApplicationState)
    ensures
        spec_scroll_to_pc(state) matches ScrollAction::SnapTo { index, span } ==> state.normalised_pc()
            == Some(index) || (state.normalised_pc() is None && index == 0),
{
}

/// A running emulator is not stepped while the instruction under the program counter carries
/// the breakpoint.
pub proof fn law_breakpoint_halts(state: ApplicationState)
    requires
        state.control_related_data.breakpoint is Some,
        state.normalised_pc() == state.control_related_data.breakpoint,
    ensures
        spec_step_interval(state) is None,
{
}

/// `entry` is the name and URL of a program of `games` whose name matches `search`.
pub open spec fn is_matching_game(
    games: Seq<UrlParts>,
    search: Seq<char>,
    entry: (Seq<char>, Seq<char>),
) -> bool {
    exists|j: int|
        0 <= j < games.len() && spec_game_matches(games[j], search) && entry == (
            spec_game_name(#[trigger] games[j]),
            games[j].0,
        )
}

/// The programs shown for a search term are programs of the list whose names match it:
/// never more than the list holds.
pub proof fn law_visible_games_filter(games: Seq<UrlParts>, search: Seq<char>)
    ensures
        spec_visible_games(games, search).len() <= games.len(),
        forall|k: int|
            0 <= k < spec_visible_games(games, search).len() ==> is_matching_game(
                games,
                search,
                #[trigger] spec_visible_games(games, search)[k],
            ),
    decreases games.len(),
{
    if games.len() > 0 {
        let rest = games.drop_last();
        law_visible_games_filter(rest, search);
        let shown = spec_visible_games(games, search);
        let shown_rest = spec_visible_games(rest, search);
        assert forall|k: int| 0 <= k < shown.len() implies is_matching_game(
            games,
            search,
            #[trigger] shown[k],
        ) by {
            if k < shown_rest.len() {
                assert(shown[k] == shown_rest[k]);
                assert(is_matching_game(rest, search, shown_rest[k]));
                let j = choose|j: int|
                    0 <= j < rest.len() && spec_game_matches(rest[j], search) && shown_rest[k] == (
                        spec_game_name(#[trigger] rest[j]),
                        rest[j].0,
                    );
                assert(games[j] == rest[j]);
            } else {
                let j = games.len() - 1;
                assert(games[j] == games.last());
            }
        }
    }
}

/// The running emulator is stepped every `(101 - speed) * 4` milliseconds whenever the
/// instruction under the program counter does not carry the breakpoint: before the breakpoint
/// and after it alike. It halts exactly at the breakpoint (and, with no breakpoint set, once
/// the program counter has left the program), and a paused emulator is never stepped.
pub proof fn law_steps_everywhere_but_the_breakpoint(state: ApplicationState, i: usize)
    requires
        state.emulator_related_data.execution_speed <= 101,
    ensures
        state.emulator_related_data.is_running && state.normalised_pc() == Some(i)
            && state.control_related_data.breakpoint != Some(i) ==> spec_step_interval(state)
            == Some(((101 - state.emulator_related_data.execution_speed) * 4) as u64),
        state.emulator_related_data.is_running && state.normalised_pc()
            != state.control_related_data.breakpoint ==> spec_step_interval(state) == Some(
            ((101 - state.emulator_related_data.execution_speed) * 4) as u64,
        ),
        state.normalised_pc() == state.control_related_data.breakpoint ==> spec_step_interval(
            state,
        ) is None,
        state.normalised_pc() == Some(i) && state.control_related_data.breakpoint == Some(i)
            ==> spec_step_interval(state) is None,
        !state.emulator_related_data.is_running ==> spec_step_interval(state) is None,
{
}

/// Typing the characters `x 1 2 3 q w e a s d z c 4 r f v` on a US keyboard addresses the keys
/// 0 to F in that order: the `i`-th of them presses key `i`, and only that key.
pub proof fn law_us_keyboard_layout(keys: Seq<u8>, i: int, j: int)
    requires
        keys.len() == 16,
        0 <= i < 16,
        0 <= j < 16,
    ensures
        spec_key_slot(EmulatorKeyboardInputKind::UsKeyboardChar(
            seq!['x', '1', '2', '3', 'q', 'w', 'e', 'a', 's', 'd', 'z', 'c', '4', 'r', 'f', 'v'][i],
        )) == Some(i),
        spec_keys_after(
            keys,
            EmulatorKeyEvent::Down,
            EmulatorKeyboardInputKind::UsKeyboardChar(
                seq!['x', '1', '2', '3', 'q', 'w', 'e', 'a', 's', 'd', 'z', 'c', '4', 'r', 'f', 'v'][i],
            ),
        )[j] == if j == i {
            1
        } else {
            keys[j]
        },
{
    assert(seq!['x', '1', '2', '3', 'q', 'w', 'e', 'a', 's', 'd', 'z', 'c', '4', 'r', 'f', 'v']
        =~= spec_character_map());
    law_character_map_reaches_every_key(i);
}

/// A snap of the listing places the row of the program counter at the relative position
/// `index / span`, where `span` is the length of the program less 10 rows: the rows before
/// the last 10 map onto the whole height (the offset never exceeds 1 there), and a snap is
/// made whenever the program counter is followed, the program has more than 10 rows, and the
/// program counter does not lie before the program.
pub proof fn law_scroll_span_is_program_less_offset(state: ApplicationState)
    requires
        state.emulator_related_data.current_program@.len() <= usize::MAX,
    ensures
        spec_scroll_to_pc(state) matches ScrollAction::SnapTo { index, span } ==> span + 10
            == state.emulator_related_data.current_program@.len() && (index + 10
            <= state.emulator_related_data.current_program@.len() <==> index <= span),
        state.control_related_data.auto_scroll_pc
            && state.emulator_related_data.current_program@.len() > 10
            && state.emulator_related_data.emulator_state.program_counter >= PC_START
            ==> spec_scroll_to_pc(state) is SnapTo,
{
}

/// A pane's title bar offers to close the pane exactly when the grid holds more than one pane
/// and the pane is not pinned, whether or not it is maximized; it offers to maximize a pane,
/// or to restore the grid when the pane is maximized, exactly when there is more than one
/// pane.
pub proof fn law_panel_controls(pane_count: usize, is_pinned: bool, is_maximized: bool)
    ensures
        spec_panel_controls(pane_count, is_pinned, is_maximized).close == (pane_count > 1
            && !is_pinned),
        spec_panel_controls(pane_count, is_pinned, true).close == spec_panel_controls(
            pane_count,
            is_pinned,
            false,
        ).close,
        spec_panel_controls(pane_count, is_pinned, is_maximized).maximize is Some <==> pane_count
            > 1,
        pane_count > 1 ==> spec_panel_controls(pane_count, is_pinned, is_maximized).maximize
            == Some(
            if is_maximized {
                MaximizeButton::Restore
            } else {
                MaximizeButton::Maximize
            },
        ),
{
}

/// The character of the decimal digit `d`.
pub open spec fn digit_char(d: nat) -> char {
    "0123456789"@[d as int]
}

/// The decimal numeral of `n`, most significant digit first, as `{:?}` writes an integer.
pub open spec fn decimal(n: nat) -> Seq<char>
    decreases n,
{
    if n < 10 {
        seq![digit_char(n)]
    } else {
        decimal(n / 10).push(digit_char(n % 10))
    }
}

proof fn lemma_digit_char(d: nat)
    requires
        d < 10,
    ensures
        is_digit(digit_char(d)),
        digit_value(digit_char(d)) == d,
{
    reveal_strlit("0123456789");
}

proof fn lemma_decimal(n: nat)
    ensures
        decimal(n).len() >= 1,
        forall|i: int| 0 <= i < decimal(n).len() ==> is_digit(#[trigger] decimal(n)[i]),
        decimal_value(decimal(n)) == n,
    decreases n,
{
    lemma_digit_char(n % 10);
    if n >= 10 {
        lemma_decimal(n / 10);
        assert(decimal(n).drop_last() =~= decimal(n / 10));
        assert(decimal(n).last() == digit_char(n % 10));
        assert(n == (n / 10) * 10 + n % 10) by (nonlinear_arith);
        assert(decimal_value(decimal(n)) == decimal_value(decimal(n / 10)) * 10 + digit_value(
            digit_char(n % 10),
        ));
    } else {
        assert(decimal(n).drop_last() =~= Seq::<char>::empty());
        assert(decimal(n).last() == digit_char(n));
        assert(decimal_value(Seq::<char>::empty()) == 0);
        assert(decimal_value(decimal(n)) == decimal_value(Seq::<char>::empty()) * 10 + digit_value(
            digit_char(n),
        ));
    }
}

proof fn lemma_digit_run(s: Seq<char>, post: Seq<char>)
    requires
        forall|i: int| 0 <= i < s.len() ==> is_digit(#[trigger] s[i]),
        post.len() == 0 || !is_digit(post[0]),
    ensures
        digit_prefix_len(s + post) == s.len(),
    decreases s.len(),
{
    if s.len() == 0 {
        assert(s + post =~= post);
    } else {
        assert((s + post).drop_first() =~= s.drop_first() + post);
        assert(forall|i: int| 0 <= i < s.drop_first().len() ==> #[trigger] s.drop_first()[i] == s[i + 1]);
        lemma_digit_run(s.drop_first(), post);
    }
}

/// The number after the first occurrence of `pat` in `text` is `v` when `text` is `pre`, then
/// `pat`, then the numeral of `v`, then something that does not start with a digit, and no
/// colon of `pre` ends an earlier occurrence of `pat`.
proof fn lemma_field(text: Seq<char>, pre: Seq<char>, pat: Seq<char>, v: nat, post: Seq<char>)
    requires
        text == pre + pat + decimal(v) + post,
        pat.len() >= 2,
        pat[pat.len() - 2] == ':',
        forall|i: int| 0 <= i < pat.len() - 2 ==> pat[i] != ':',
        post.len() == 0 || !is_digit(post[0]),
        forall|p: int|
            0 <= p < pre.len() && pre[p] == ':' && p >= pat.len() - 2 ==> !occurs_at(
                text,
                pat,
                p - (pat.len() - 2),
            ),
    ensures
        field_number(text, pat) == Some(v),
{
    let k = pre.len() as int;
    let ci = pat.len() - 2;
    assert(text.subrange(k, k + pat.len()) =~= pat);
    assert forall|j: int| 0 <= j < k implies !occurs_at(text, pat, j) by {
        if occurs_at(text, pat, j) {
            assert(text.subrange(j, j + pat.len())[ci] == pat[ci]);
            let p = j + ci;
            if p < k {
                assert(pre[p] == text[p]);
            } else {
                assert(text[p] == pat[p - k]);
            }
        }
    }
    lemma_first_occurrence(text, pat, k);
    lemma_decimal(v);
    let rest = text.skip(k + pat.len());
    assert(rest =~= decimal(v) + post);
    lemma_digit_run(decimal(v), post);
    assert(rest.take(decimal(v).len() as int) =~= decimal(v));
}

/// `text` does not describe the variant `name`: they differ at index `m`.
proof fn lemma_not_variant(text: Seq<char>, name: Seq<char>, m: int)
    requires
        0 <= m < name.len(),
        m < text.len(),
        text[m] != name[m],
    ensures
        !names_variant(text, name),
{
    if name.len() <= text.len() && text.subrange(0, name.len() as int) == name {
        assert(text.subrange(0, name.len() as int)[m] == text[m]);
    }
}

/// The register X of an opcode: its second nibble.
pub open spec fn nibble_x(opcode: u16) -> nat {
    ((opcode >> 8) & 0xF) as nat
}

/// The register Y of an opcode: its third nibble.
pub open spec fn nibble_y(opcode: u16) -> nat {
    ((opcode >> 4) & 0xF) as nat
}

/// The variant that the emulator core decodes from the opcodes 3XNN, 4XNN, 6XNN and 7XNN.
pub open spec fn register_value_variant(opcode: u16) -> Seq<char> {
    if opcode >> 12 == 3 {
        "SkipEqValueWithRegisterContents"@
    } else if opcode >> 12 == 4 {
        "SkipNotEqValueWithRegisterContents"@
    } else if opcode >> 12 == 6 {
        "SetGeneralRegister"@
    } else {
        "AddToRegister"@
    }
}

/// The `Debug` text of the instruction that the emulator core decodes from 3XNN, 4XNN, 6XNN
/// or 7XNN: its variant, the register X and the value NN.
pub open spec fn register_value_text(opcode: u16) -> Seq<char> {
    register_value_variant(opcode) + " {"@ + " register: "@ + decimal(nibble_x(opcode)) + ","@
        + " value: "@ + decimal((opcode & 0xFF) as nat) + " }"@
}

/// The instructions that compare a register with a value, set it or add to it (3XNN, 4XNN,
/// 6XNN, 7XNN) highlight register X, and no second register or height.
pub proof fn law_register_value_operands(opcode: u16)
    requires
        opcode >> 12 == 3 || opcode >> 12 == 4 || opcode >> 12 == 6 || opcode >> 12 == 7,
    ensures
        spec_operands(register_value_text(opcode)) == (Operands {
            register_x: Some(nibble_x(opcode) as usize),
            register_y: None,
            height: None,
        }),
{
    reveal_strlit("SkipEqValueWithRegisterContents");
    reveal_strlit("SkipNotEqValueWithRegisterContents");
    reveal_strlit("SetGeneralRegister");
    reveal_strlit("AddToRegister");
    reveal_strlit(" {");
    reveal_strlit(" register: ");
    reveal_strlit(",");
    reveal_strlit(" value: ");
    reveal_strlit(" }");
    let name = register_value_variant(opcode);
    let text = register_value_text(opcode);
    let pre = name + " {"@;
    let post = ","@ + " value: "@ + decimal((opcode & 0xFF) as nat) + " }"@;
    assert(text =~= pre + " register: "@ + decimal(nibble_x(opcode)) + post);
    assert(nibble_x(opcode) < 16) by (bit_vector)
        requires nibble_x(opcode) == ((opcode >> 8) & 0xF) as nat;
    lemma_field(text, pre, " register: "@, nibble_x(opcode), post);
    assert(text.subrange(0, name.len() as int) =~= name);
    assert(names_variant(text, name));
}

/// `pat` does not occur in `text` at `j`: they differ at `j + m`.
proof fn lemma_no_occurrence_at(text: Seq<char>, pat: Seq<char>, j: int, m: int)
    requires
        0 <= m < pat.len(),
        0 <= j,
        j + m < text.len(),
        text[j + m] != pat[m],
    ensures
        !occurs_at(text, pat, j),
{
    if occurs_at(text, pat, j) {
        assert(text.subrange(j, j + pat.len())[m] == text[j + m]);
    }
}

/// The `Debug` text of `SkipIfKey` as the emulator core decodes it from EX9E and EXA1 (and the
/// other EXNN): the register X, then the key state to check, written `state`.
pub open spec fn skip_if_key_text(opcode: u16, state: Seq<char>) -> Seq<char> {
    "SkipIfKey"@ + " {"@ + " register: "@ + decimal(nibble_x(opcode)) + ","@
        + " state_to_check: "@ + state + " }"@
}

/// The `Debug` text of `SubCommand` as the emulator core decodes it from FXNN: the register
/// X, then the sub-command, written `command`.
pub open spec fn sub_command_text(opcode: u16, command: Seq<char>) -> Seq<char> {
    "SubCommand"@ + " {"@ + " register: "@ + decimal(nibble_x(opcode)) + ","@ + " command: "@
        + command + " }"@
}

/// The key checks (EXNN) and the sub-commands (FXNN) highlight register X, whatever the
/// check or the sub-command.
pub proof fn law_key_and_sub_command_operands(opcode: u16, detail: Seq<char>)
    ensures
        spec_operands(skip_if_key_text(opcode, detail)) == (Operands {
            register_x: Some(nibble_x(opcode) as usize),
            register_y: None,
            height: None,
        }),
        spec_operands(sub_command_text(opcode, detail)) == (Operands {
            register_x: Some(nibble_x(opcode) as usize),
            register_y: None,
            height: None,
        }),
{
    reveal_strlit("SkipIfKey");
    reveal_strlit("SubCommand");
    reveal_strlit(" {");
    reveal_strlit(" register: ");
    reveal_strlit(",");
    reveal_strlit(" state_to_check: ");
    reveal_strlit(" command: ");
    reveal_strlit(" }");
    assert(nibble_x(opcode) < 16) by (bit_vector)
        requires nibble_x(opcode) == ((opcode >> 8) & 0xF) as nat;
    let d = decimal(nibble_x(opcode));
    let t1 = skip_if_key_text(opcode, detail);
    let post1 = ","@ + " state_to_check: "@ + detail + " }"@;
    assert(t1 =~= "SkipIfKey"@ + " {"@ + " register: "@ + d + post1);
    lemma_field(t1, "SkipIfKey"@ + " {"@, " register: "@, nibble_x(opcode), post1);
    assert(t1.subrange(0, 9) =~= "SkipIfKey"@);
    assert(names_variant(t1, "SkipIfKey"@));
    let t2 = sub_command_text(opcode, detail);
    let post2 = ","@ + " command: "@ + detail + " }"@;
    assert(t2 =~= "SubCommand"@ + " {"@ + " register: "@ + d + post2);
    lemma_field(t2, "SubCommand"@ + " {"@, " register: "@, nibble_x(opcode), post2);
    assert(t2.subrange(0, 10) =~= "SubCommand"@);
    assert(names_variant(t2, "SubCommand"@));
}

/// The `Debug` text of `JumpWithOffset` (BNNN) or `Random` (CXNN) as the emulator core decodes
/// them: the register X, then the address NNN or the mask NN.
pub open spec fn register_x_text(opcode: u16) -> Seq<char> {
    if opcode >> 12 == 0xB {
        "JumpWithOffset"@ + " {"@ + " register_x: "@ + decimal(nibble_x(opcode)) + ","@
            + " address: "@ + decimal((opcode & 0xFFF) as nat) + " }"@
    } else {
        "Random"@ + " {"@ + " register_x: "@ + decimal(nibble_x(opcode)) + ","@
            + " val_to_and: "@ + decimal((opcode & 0xFF) as nat) + " }"@
    }
}

/// The jump with offset (BNNN) and the random number (CXNN) highlight register X.
pub proof fn law_jump_with_offset_and_random_operands(opcode: u16)
    requires
        opcode >> 12 == 0xB || opcode >> 12 == 0xC,
    ensures
        spec_operands(register_x_text(opcode)) == (Operands {
            register_x: Some(nibble_x(opcode) as usize),
            register_y: None,
            height: None,
        }),
{
    reveal_strlit("JumpWithOffset");
    reveal_strlit("Random");
    reveal_strlit("AddToRegister");
    reveal_strlit("SetGeneralRegister");
    reveal_strlit("SkipEqValueWithRegisterContents");
    reveal_strlit("SkipIfKey");
    reveal_strlit("SkipNotEqValueWithRegisterContents");
    reveal_strlit("SubCommand");
    reveal_strlit(" {");
    reveal_strlit(" register_x: ");
    reveal_strlit(",");
    reveal_strlit(" address: ");
    reveal_strlit(" val_to_and: ");
    reveal_strlit(" }");
    assert(nibble_x(opcode) < 16) by (bit_vector)
        requires nibble_x(opcode) == ((opcode >> 8) & 0xF) as nat;
    let text = register_x_text(opcode);
    let name = if opcode >> 12 == 0xB {
        "JumpWithOffset"@
    } else {
        "Random"@
    };
    let post = if opcode >> 12 == 0xB {
        ","@ + " address: "@ + decimal((opcode & 0xFFF) as nat) + " }"@
    } else {
        ","@ + " val_to_and: "@ + decimal((opcode & 0xFF) as nat) + " }"@
    };
    assert(text =~= name + " {"@ + " register_x: "@ + decimal(nibble_x(opcode)) + post);
    lemma_field(text, name + " {"@, " register_x: "@, nibble_x(opcode), post);
    lemma_not_variant(text, "AddToRegister"@, 0);
    lemma_not_variant(text, "SetGeneralRegister"@, 0);
    lemma_not_variant(text, "SkipEqValueWithRegisterContents"@, 0);
    lemma_not_variant(text, "SkipIfKey"@, 0);
    lemma_not_variant(text, "SkipNotEqValueWithRegisterContents"@, 0);
    lemma_not_variant(text, "SubCommand"@, 0);
    assert(text.subrange(0, name.len() as int) =~= name);
    assert(names_variant(text, name));
}

/// The variant that the emulator core decodes from 5XY0 and 9XY0.
pub open spec fn two_register_variant(opcode: u16) -> Seq<char> {
    if opcode >> 12 == 5 {
        "SkipEqRegisters"@
    } else {
        "SkipNotEqRegisters"@
    }
}

/// The `Debug` text of the register comparisons 5XY0 and 9XY0 as the emulator core decodes
/// them: the registers X and Y.
pub open spec fn two_register_text(opcode: u16) -> Seq<char> {
    two_register_variant(opcode) + " {"@ + " register_x: "@ + decimal(nibble_x(opcode)) + ","@
        + " register_y: "@ + decimal(nibble_y(opcode)) + " }"@
}

/// The register comparisons (5XY0, 9XY0) highlight registers X and Y.
pub proof fn law_two_register_operands(opcode: u16)
    requires
        opcode >> 12 == 5 || opcode >> 12 == 9,
    ensures
        spec_operands(two_register_text(opcode)) == (Operands {
            register_x: Some(nibble_x(opcode) as usize),
            register_y: Some(nibble_y(opcode) as usize),
            height: None,
        }),
{
    reveal_strlit("SkipEqRegisters");
    reveal_strlit("SkipNotEqRegisters");
    reveal_strlit("JumpWithOffset");
    reveal_strlit("Random");
    reveal_strlit("AddToRegister");
    reveal_strlit("SetGeneralRegister");
    reveal_strlit("SkipEqValueWithRegisterContents");
    reveal_strlit("SkipIfKey");
    reveal_strlit("SkipNotEqValueWithRegisterContents");
    reveal_strlit("SubCommand");
    reveal_strlit(" {");
    reveal_strlit(" register_x: ");
    reveal_strlit(",");
    reveal_strlit(" register_y: ");
    reveal_strlit(" }");
    assert(nibble_x(opcode) < 16 && nibble_y(opcode) < 16) by (bit_vector)
        requires
            nibble_x(opcode) == ((opcode >> 8) & 0xF) as nat,
            nibble_y(opcode) == ((opcode >> 4) & 0xF) as nat,
    ;
    let name = two_register_variant(opcode);
    let text = two_register_text(opcode);
    let dx = decimal(nibble_x(opcode));
    let dy = decimal(nibble_y(opcode));
    lemma_decimal(nibble_x(opcode));
    let a = name + " {"@;
    let post1 = ","@ + " register_y: "@ + dy + " }"@;
    assert(text =~= a + " register_x: "@ + dx + post1);
    lemma_field(text, a, " register_x: "@, nibble_x(opcode), post1);
    let pre2 = a + " register_x: "@ + dx + ","@;
    assert(text =~= pre2 + " register_y: "@ + dy + " }"@);
    assert forall|p: int|
        0 <= p < pre2.len() && pre2[p] == ':' && p >= 11 implies !occurs_at(
        text,
        " register_y: "@,
        p - 11,
    ) by {
        assert(p == a.len() + 11);
        assert(text[a.len() as int + 10] == 'x');
        lemma_no_occurrence_at(text, " register_y: "@, p - 11, 10);
    }
    lemma_field(text, pre2, " register_y: "@, nibble_y(opcode), " }"@);
    if opcode >> 12 == 5 {
        lemma_not_variant(text, "SetGeneralRegister"@, 1);
        lemma_not_variant(text, "SkipEqValueWithRegisterContents"@, 6);
        lemma_not_variant(text, "SkipIfKey"@, 4);
        lemma_not_variant(text, "SkipNotEqValueWithRegisterContents"@, 4);
    } else {
        lemma_not_variant(text, "SetGeneralRegister"@, 1);
        lemma_not_variant(text, "SkipEqValueWithRegisterContents"@, 4);
        lemma_not_variant(text, "SkipIfKey"@, 4);
        lemma_not_variant(text, "SkipNotEqValueWithRegisterContents"@, 9);
    }
    lemma_not_variant(text, "AddToRegister"@, 0);
    lemma_not_variant(text, "SubCommand"@, 1);
    lemma_not_variant(text, "JumpWithOffset"@, 0);
    lemma_not_variant(text, "Random"@, 0);
    assert(text.subrange(0, name.len() as int) =~= name);
    assert(names_variant(text, name));
}

/// The `Debug` text of `LogicalOperator` as the emulator core decodes it from 8XYN: the
/// operator, written `operator`, then the registers X and Y.
pub open spec fn logical_operator_text(opcode: u16, operator: Seq<char>) -> Seq<char> {
    "LogicalOperator"@ + " {"@ + " operator: "@ + operator + ","@ + " register_x: "@ + decimal(
        nibble_x(opcode),
    ) + ","@ + " register_y: "@ + decimal(nibble_y(opcode)) + " }"@
}

/// The arithmetic and logic instructions (8XYN) highlight registers X and Y, whatever the
/// operator (whose `Debug` text holds no colon).
pub proof fn law_logical_operator_operands(opcode: u16, operator: Seq<char>)
    requires
        forall|i: int| 0 <= i < operator.len() ==> operator[i] != ':',
    ensures
        spec_operands(logical_operator_text(opcode, operator)) == (Operands {
            register_x: Some(nibble_x(opcode) as usize),
            register_y: Some(nibble_y(opcode) as usize),
            height: None,
        }),
{
    reveal_strlit("LogicalOperator");
    reveal_strlit("SkipEqRegisters");
    reveal_strlit("SkipNotEqRegisters");
    reveal_strlit("JumpWithOffset");
    reveal_strlit("Random");
    reveal_strlit("AddToRegister");
    reveal_strlit("SetGeneralRegister");
    reveal_strlit("SkipEqValueWithRegisterContents");
    reveal_strlit("SkipIfKey");
    reveal_strlit("SkipNotEqValueWithRegisterContents");
    reveal_strlit("SubCommand");
    reveal_strlit(" {");
    reveal_strlit(" operator: ");
    reveal_strlit(" register_x: ");
    reveal_strlit(",");
    reveal_strlit(" register_y: ");
    reveal_strlit(" }");
    assert(nibble_x(opcode) < 16 && nibble_y(opcode) < 16) by (bit_vector)
        requires
            nibble_x(opcode) == ((opcode >> 8) & 0xF) as nat,
            nibble_y(opcode) == ((opcode >> 4) & 0xF) as nat,
    ;
    let text = logical_operator_text(opcode, operator);
    let dx = decimal(nibble_x(opcode));
    let dy = decimal(nibble_y(opcode));
    lemma_decimal(nibble_x(opcode));
    let a = "LogicalOperator"@ + " {"@;
    let pre1 = a + " operator: "@ + operator + ","@;
    let post1 = ","@ + " register_y: "@ + dy + " }"@;
    assert(text =~= pre1 + " register_x: "@ + dx + post1);
    assert forall|p: int|
        0 <= p < pre1.len() && pre1[p] == ':' && p >= 11 implies !occurs_at(
        text,
        " register_x: "@,
        p - 11,
    ) by {
        assert(p == a.len() + 9);
        assert(text[a.len() as int - 1] == '{');
        lemma_no_occurrence_at(text, " register_x: "@, p - 11, 1);
    }
    lemma_field(text, pre1, " register_x: "@, nibble_x(opcode), post1);
    let pre2 = pre1 + " register_x: "@ + dx + ","@;
    assert(text =~= pre2 + " register_y: "@ + dy + " }"@);
    assert forall|p: int|
        0 <= p < pre2.len() && pre2[p] == ':' && p >= 11 implies !occurs_at(
        text,
        " register_y: "@,
        p - 11,
    ) by {
        if p == a.len() + 9 {
            assert(text[a.len() as int - 1] == '{');
            lemma_no_occurrence_at(text, " register_y: "@, p - 11, 1);
        } else {
            assert(p == pre1.len() + 11);
            assert(text[pre1.len() as int + 10] == 'x');
            lemma_no_occurrence_at(text, " register_y: "@, p - 11, 10);
        }
    }
    lemma_field(text, pre2, " register_y: "@, nibble_y(opcode), " }"@);
    lemma_not_variant(text, "AddToRegister"@, 0);
    lemma_not_variant(text, "SetGeneralRegister"@, 0);
    lemma_not_variant(text, "SkipEqValueWithRegisterContents"@, 0);
    lemma_not_variant(text, "SkipIfKey"@, 0);
    lemma_not_variant(text, "SkipNotEqValueWithRegisterContents"@, 0);
    lemma_not_variant(text, "SubCommand"@, 0);
    lemma_not_variant(text, "JumpWithOffset"@, 0);
    lemma_not_variant(text, "Random"@, 0);
    assert(text.subrange(0, 15) =~= "LogicalOperator"@);
    assert(names_variant(text, "LogicalOperator"@));
}

/// The `Debug` text of `Draw` as the emulator core decodes it from DXYN: the registers X and
/// Y and the height N.
pub open spec fn draw_text(opcode: u16) -> Seq<char> {
    "Draw"@ + " {"@ + " x_register: "@ + decimal(nibble_x(opcode)) + ","@ + " y_register: "@
        + decimal(nibble_y(opcode)) + ","@ + " height: "@ + decimal((opcode & 0xF) as nat)
        + " }"@
}

/// A draw (DXYN) highlights registers X and Y and the sprite height N.
pub proof fn law_draw_operands(opcode: u16)
    ensures
        spec_operands(draw_text(opcode)) == (Operands {
            register_x: Some(nibble_x(opcode) as usize),
            register_y: Some(nibble_y(opcode) as usize),
            height: Some((opcode & 0xF) as u8),
        }),
{
    reveal_strlit("Draw");
    reveal_strlit("LogicalOperator");
    reveal_strlit("SkipEqRegisters");
    reveal_strlit("SkipNotEqRegisters");
    reveal_strlit("JumpWithOffset");
    reveal_strlit("Random");
    reveal_strlit("AddToRegister");
    reveal_strlit("SetGeneralRegister");
    reveal_strlit("SkipEqValueWithRegisterContents");
    reveal_strlit("SkipIfKey");
    reveal_strlit("SkipNotEqValueWithRegisterContents");
    reveal_strlit("SubCommand");
    reveal_strlit(" {");
    reveal_strlit(" x_register: ");
    reveal_strlit(",");
    reveal_strlit(" y_register: ");
    reveal_strlit(" height: ");
    reveal_strlit(" }");
    assert(nibble_x(opcode) < 16 && nibble_y(opcode) < 16 && opcode & 0xF < 16) by (bit_vector)
        requires
            nibble_x(opcode) == ((opcode >> 8) & 0xF) as nat,
            nibble_y(opcode) == ((opcode >> 4) & 0xF) as nat,
    ;
    let text = draw_text(opcode);
    let dx = decimal(nibble_x(opcode));
    let dy = decimal(nibble_y(opcode));
    let dh = decimal((opcode & 0xF) as nat);
    lemma_decimal(nibble_x(opcode));
    lemma_decimal(nibble_y(opcode));
    let a = "Draw"@ + " {"@;
    let post1 = ","@ + " y_register: "@ + dy + ","@ + " height: "@ + dh + " }"@;
    assert(text =~= a + " x_register: "@ + dx + post1);
    lemma_field(text, a, " x_register: "@, nibble_x(opcode), post1);
    let pre2 = a + " x_register: "@ + dx + ","@;
    let post2 = ","@ + " height: "@ + dh + " }"@;
    assert(text =~= pre2 + " y_register: "@ + dy + post2);
    assert forall|p: int|
        0 <= p < pre2.len() && pre2[p] == ':' && p >= 11 implies !occurs_at(
        text,
        " y_register: "@,
        p - 11,
    ) by {
        assert(p == a.len() + 11);
        assert(text[a.len() as int + 1] == 'x');
        lemma_no_occurrence_at(text, " y_register: "@, p - 11, 1);
    }
    lemma_field(text, pre2, " y_register: "@, nibble_y(opcode), post2);
    let pre3 = pre2 + " y_register: "@ + dy + ","@;
    assert(text =~= pre3 + " height: "@ + dh + " }"@);
    assert forall|p: int|
        0 <= p < pre3.len() && pre3[p] == ':' && p >= 7 implies !occurs_at(
        text,
        " height: "@,
        p - 7,
    ) by {
        if p == a.len() + 11 {
            assert(text[a.len() as int + 4] == 'e');
        } else {
            assert(p == pre2.len() + 11);
            assert(text[pre2.len() as int + 4] == 'e');
        }
        lemma_no_occurrence_at(text, " height: "@, p - 7, 0);
    }
    lemma_field(text, pre3, " height: "@, (opcode & 0xF) as nat, " }"@);
    lemma_not_variant(text, "AddToRegister"@, 0);
    lemma_not_variant(text, "SetGeneralRegister"@, 0);
    lemma_not_variant(text, "SkipEqValueWithRegisterContents"@, 0);
    lemma_not_variant(text, "SkipIfKey"@, 0);
    lemma_not_variant(text, "SkipNotEqValueWithRegisterContents"@, 0);
    lemma_not_variant(text, "SubCommand"@, 0);
    lemma_not_variant(text, "JumpWithOffset"@, 0);
    lemma_not_variant(text, "Random"@, 0);
    lemma_not_variant(text, "SkipEqRegisters"@, 0);
    lemma_not_variant(text, "SkipNotEqRegisters"@, 0);
    lemma_not_variant(text, "LogicalOperator"@, 0);
    assert(text.subrange(0, 4) =~= "Draw"@);
    assert(names_variant(text, "Draw"@));
}

/// The `Debug` text of the instructions that name no register, as the emulator core decodes
/// them: the jump 1NNN, the call 2NNN and the index load ANNN with their address, the screen
/// clear 00E0 and the return 00EE.
pub open spec fn plain_text(opcode: u16) -> Seq<char> {
    if opcode >> 12 == 1 {
        "Jump("@ + decimal((opcode & 0xFFF) as nat) + ")"@
    } else if opcode >> 12 == 2 {
        "Call("@ + decimal((opcode & 0xFFF) as nat) + ")"@
    } else if opcode >> 12 == 0xA {
        "SetIndexRegister("@ + decimal((opcode & 0xFFF) as nat) + ")"@
    } else if opcode == 0x00E0 {
        "ClearScreen"@
    } else {
        "Return"@
    }
}

/// Jumps, calls, index loads, screen clears and returns highlight no register and no height.
pub proof fn law_plain_instructions_highlight_nothing(opcode: u16)
    requires
        opcode >> 12 == 1 || opcode >> 12 == 2 || opcode >> 12 == 0xA || opcode == 0x00E0
            || opcode == 0x00EE,
    ensures
        spec_operands(plain_text(opcode)) == (Operands {
            register_x: None,
            register_y: None,
            height: None,
        }),
{
    reveal_strlit("AddToRegister");
    reveal_strlit("SetGeneralRegister");
    reveal_strlit("SkipEqValueWithRegisterContents");
    reveal_strlit("SkipIfKey");
    reveal_strlit("SkipNotEqValueWithRegisterContents");
    reveal_strlit("SubCommand");
    reveal_strlit("JumpWithOffset");
    reveal_strlit("Random");
    reveal_strlit("SkipEqRegisters");
    reveal_strlit("SkipNotEqRegisters");
    reveal_strlit("LogicalOperator");
    reveal_strlit("Draw");
    reveal_strlit("Jump(");
    reveal_strlit("Call(");
    reveal_strlit("SetIndexRegister(");
    reveal_strlit("ClearScreen");
    reveal_strlit("Return");
    reveal_strlit(")");
    let text = plain_text(opcode);
    if opcode >> 12 == 1 {
        lemma_not_variant(text, "AddToRegister"@, 0);
        lemma_not_variant(text, "SetGeneralRegister"@, 0);
        lemma_not_variant(text, "SkipEqValueWithRegisterContents"@, 0);
        lemma_not_variant(text, "SkipIfKey"@, 0);
        lemma_not_variant(text, "SkipNotEqValueWithRegisterContents"@, 0);
        lemma_not_variant(text, "SubCommand"@, 0);
        lemma_not_variant(text, "JumpWithOffset"@, 4);
        lemma_not_variant(text, "Random"@, 0);
        lemma_not_variant(text, "SkipEqRegisters"@, 0);
        lemma_not_variant(text, "SkipNotEqRegisters"@, 0);
        lemma_not_variant(text, "LogicalOperator"@, 0);
        lemma_not_variant(text, "Draw"@, 0);
    } else if opcode >> 12 == 2 {
        lemma_not_variant(text, "AddToRegister"@, 0);
        lemma_not_variant(text, "SetGeneralRegister"@, 0);
        lemma_not_variant(text, "SkipEqValueWithRegisterContents"@, 0);
        lemma_not_variant(text, "SkipIfKey"@, 0);
        lemma_not_variant(text, "SkipNotEqValueWithRegisterContents"@, 0);
        lemma_not_variant(text, "SubCommand"@, 0);
        lemma_not_variant(text, "JumpWithOffset"@, 0);
        lemma_not_variant(text, "Random"@, 0);
        lemma_not_variant(text, "SkipEqRegisters"@, 0);
        lemma_not_variant(text, "SkipNotEqRegisters"@, 0);
        lemma_not_variant(text, "LogicalOperator"@, 0);
        lemma_not_variant(text, "Draw"@, 0);
    } else if opcode >> 12 == 0xA {
        lemma_not_variant(text, "AddToRegister"@, 0);
        lemma_not_variant(text, "SetGeneralRegister"@, 3);
        lemma_not_variant(text, "SkipEqValueWithRegisterContents"@, 1);
        lemma_not_variant(text, "SkipIfKey"@, 1);
        lemma_not_variant(text, "SkipNotEqValueWithRegisterContents"@, 1);
        lemma_not_variant(text, "SubCommand"@, 1);
        lemma_not_variant(text, "JumpWithOffset"@, 0);
        lemma_not_variant(text, "Random"@, 0);
        lemma_not_variant(text, "SkipEqRegisters"@, 1);
        lemma_not_variant(text, "SkipNotEqRegisters"@, 1);
        lemma_not_variant(text, "LogicalOperator"@, 0);
        lemma_not_variant(text, "Draw"@, 0);
    } else if opcode == 0x00E0 {
        lemma_not_variant(text, "AddToRegister"@, 0);
        lemma_not_variant(text, "SetGeneralRegister"@, 0);
        lemma_not_variant(text, "SkipEqValueWithRegisterContents"@, 0);
        lemma_not_variant(text, "SkipIfKey"@, 0);
        lemma_not_variant(text, "SkipNotEqValueWithRegisterContents"@, 0);
        lemma_not_variant(text, "SubCommand"@, 0);
        lemma_not_variant(text, "JumpWithOffset"@, 0);
        lemma_not_variant(text, "Random"@, 0);
        lemma_not_variant(text, "SkipEqRegisters"@, 0);
        lemma_not_variant(text, "SkipNotEqRegisters"@, 0);
        lemma_not_variant(text, "LogicalOperator"@, 0);
        lemma_not_variant(text, "Draw"@, 0);
    } else {
        lemma_not_variant(text, "AddToRegister"@, 0);
        lemma_not_variant(text, "SetGeneralRegister"@, 0);
        lemma_not_variant(text, "SkipEqValueWithRegisterContents"@, 0);
        lemma_not_variant(text, "SkipIfKey"@, 0);
        lemma_not_variant(text, "SkipNotEqValueWithRegisterContents"@, 0);
        lemma_not_variant(text, "SubCommand"@, 0);
        lemma_not_variant(text, "JumpWithOffset"@, 0);
        lemma_not_variant(text, "Random"@, 1);
        lemma_not_variant(text, "SkipEqRegisters"@, 0);
        lemma_not_variant(text, "SkipNotEqRegisters"@, 0);
        lemma_not_variant(text, "LogicalOperator"@, 0);
        lemma_not_variant(text, "Draw"@, 0);
    }
}

/// After a step, the metadata view highlights the registers that the next instruction's
/// opcode names in its bit fields: register X for 3XNN, 4XNN, 6XNN and 7XNN; X and Y for
/// 5XY0 and 9XY0; X, Y and the sprite height N (16 for N = 0) for DXYN, when the emulator
/// core describes the opcode in its `Debug` form.
pub proof fn law_step_highlights_opcode_registers(
    state: ApplicationState,
    stepped: Option<EmulatorState>,
    opcode: u16,
)
    requires
        spec_after_step(state, stepped).opcode_under_pc() == Some(opcode),
    ensures
        (opcode >> 12 == 3 || opcode >> 12 == 4 || opcode >> 12 == 6 || opcode >> 12 == 7)
            && instruction_text(opcode) == register_value_text(opcode) ==> spec_after_step(
            state,
            stepped,
        ).metadata_related_data.register_x == Some(nibble_x(opcode) as usize) && spec_after_step(
            state,
            stepped,
        ).metadata_related_data.register_y is None,
        (opcode >> 12 == 5 || opcode >> 12 == 9) && instruction_text(opcode) == two_register_text(
            opcode,
        ) ==> spec_after_step(state, stepped).metadata_related_data.register_x == Some(
            nibble_x(opcode) as usize,
        ) && spec_after_step(state, stepped).metadata_related_data.register_y == Some(
            nibble_y(opcode) as usize,
        ),
        instruction_text(opcode) == draw_text(opcode) ==> spec_after_step(
            state,
            stepped,
        ).metadata_related_data == (MetadataRelatedData {
            register_x: Some(nibble_x(opcode) as usize),
            register_y: Some(nibble_y(opcode) as usize),
            draw_height: if opcode & 0xF == 0 {
                16
            } else {
                (opcode & 0xF) as u8
            },
        }),
{
    if opcode >> 12 == 3 || opcode >> 12 == 4 || opcode >> 12 == 6 || opcode >> 12 == 7 {
        law_register_value_operands(opcode);
    }
    if opcode >> 12 == 5 || opcode >> 12 == 9 {
        law_two_register_operands(opcode);
    }
    law_draw_operands(opcode);
    assert(opcode & 0xF < 16) by (bit_vector);
}

} // verus!
