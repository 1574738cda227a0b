//! The hexadecimal keypad as it is drawn.
use vstd::prelude::*;

verus! {

/// The keys of the keypad, row by row, as they are laid out.
pub open spec fn spec_keypad_layout() -> Seq<Seq<u8>> {
    seq![
        seq![0x1u8, 0x2, 0x3, 0xC],
        seq![0x4u8, 0x5, 0x6, 0xD],
        seq![0x7u8, 0x8, 0x9, 0xE],
        seq![0xAu8, 0x0, 0xB, 0xF],
    ]
}

/// The keys of the keypad, row by row, as they are laid out.
pub fn keypad_layout() -> (rows: Vec<Vec<u8>>)
    ensures
        rows@.len() == spec_keypad_layout().len(),
        forall|r: int| 0 <= r < rows@.len() ==> #[trigger] rows@[r]@ == spec_keypad_layout()[r],
{
    let rows = vec![
        vec![0x1u8, 0x2, 0x3, 0xC],
        vec![0x4u8, 0x5, 0x6, 0xD],
        vec![0x7u8, 0x8, 0x9, 0xE],
        vec![0xAu8, 0x0, 0xB, 0xF],
    ];
    assert(rows@[0]@ =~= spec_keypad_layout()[0]);
    assert(rows@[1]@ =~= spec_keypad_layout()[1]);
    assert(rows@[2]@ =~= spec_keypad_layout()[2]);
    assert(rows@[3]@ =~= spec_keypad_layout()[3]);
    rows
}

/// The upper-case hexadecimal digits.
pub open spec fn hex_digits() -> Seq<char> {
    seq!['0', '1', '2', '3', '4', '5', '6', '7', '8', '9', 'A', 'B', 'C', 'D', 'E', 'F']
}

/// The label of a key: its value in upper-case hexadecimal, without leading zeros.
pub open spec fn spec_key_label(value: u8) -> Seq<char> {
    if value < 16 {
        seq![hex_digits()[value as int]]
    } else {
        seq![hex_digits()[value as int / 16], hex_digits()[value as int % 16]]
    }
}

/// The one-character text of a hexadecimal digit.
fn hex_digit_text(d: u8) -> (text: &'static str)
    requires
        d < 16,
    ensures
        text@ == seq![hex_digits()[d as int]],
{
    let digits = "0123456789ABCDEF";
    proof {
        reveal_strlit("0123456789ABCDEF");
        assert(digits@ =~= hex_digits());
    }
    let text = digits.substring_char(d as usize, d as usize + 1);
    assert(text@ =~= seq![hex_digits()[d as int]]);
    text
}

/// The label of a key: its value in upper-case hexadecimal.
pub fn key_label(value: u8) -> (label: String)
    ensures
        label@ == spec_key_label(value),
{
    if value < 16 {
        String::from_str(hex_digit_text(value))
    } else {
        let high = String::from_str(hex_digit_text(value / 16));
        let label = high.concat(hex_digit_text(value % 16));
        assert(label@ =~= spec_key_label(value));
        label
    }
}

/// A key is shown as pressed when the keypad holds a non-zero state for it.
pub open spec fn spec_key_is_active(keys: Seq<u8>, value: u8) -> bool {
    value < keys.len() && keys[value as int] > 0
}

/// Whether a key is shown as pressed.
pub fn key_is_active(keys: &[u8; 16], value: u8) -> (active: bool)
    ensures
        active == spec_key_is_active(keys@, value),
{
    if (value as usize) < 16 {
        keys[value as usize] > 0
    } else {
        false
    }
}

} // verus!
