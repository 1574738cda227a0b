//! What the metadata view shows of the registers and of the memory under the index register.
use vstd::prelude::*;

verus! {

/// How a variable register is highlighted.
#[derive(Clone, Copy, Debug, PartialEq, Eq, Structural)]
pub enum RegisterHighlight {
    /// The first register named by the instruction under the program counter.
    X,
    /// The second register named by that instruction.
    Y,
    /// Any other register.
    Plain,
}

/// The highlight of register `i`: `X` wins over `Y` when an instruction names it twice.
pub open spec fn spec_register_highlight(
    i: usize,
    register_x: Option<usize>,
    register_y: Option<usize>,
) -> RegisterHighlight {
    if register_x == Some(i) {
        RegisterHighlight::X
    } else if register_y == Some(i) {
        RegisterHighlight::Y
    } else {
        RegisterHighlight::Plain
    }
}

/// The highlight of register `i`.
pub fn register_highlight(i: usize, register_x: Option<usize>, register_y: Option<usize>) -> (h:
    RegisterHighlight)
    ensures
        h == spec_register_highlight(i, register_x, register_y),
{
    match register_x {
        Some(x) if x == i => RegisterHighlight::X,
        _ => match register_y {
            Some(y) if y == i => RegisterHighlight::Y,
            _ => RegisterHighlight::Plain,
        },
    }
}

/// The bytes of memory from the index register on, one per row of the sprite that would be
/// drawn; addresses past the end of memory show 0.
pub open spec fn spec_sprite_rows(memory: Seq<u8>, index: usize, height: u8) -> Seq<u8> {
    Seq::new(
        height as nat,
        |i: int|
            if index + i < memory.len() {
                memory[index + i]
            } else {
                0u8
            },
    )
}

/// The bytes of memory that a sprite of `height` rows at `index` is made of.
pub fn sprite_rows(memory: &Vec<u8>, index: usize, height: u8) -> (rows: Vec<u8>)
    requires
        height == 0 || index + (height - 1) <= usize::MAX,
    ensures
        rows@ == spec_sprite_rows(memory@, index, height),
{
    let mut rows: Vec<u8> = Vec::new();
    let mut i: u8 = 0;
    while i < height
        invariant
            i <= height,
            height == 0 || index + (height - 1) <= usize::MAX,
            rows@ =~= spec_sprite_rows(memory@, index, i),
        decreases height - i,
    {
        let address = index + i as usize;
        let byte: u8 = if address < memory.len() {
            memory[address]
        } else {
            0
        };
        rows.push(byte);
        i = i + 1;
    }
    rows
}

/// The bits of a byte, most significant first, as `{:08b}` writes them (`true` for `1`).
pub open spec fn spec_byte_bits(b: u8) -> Seq<bool> {
    Seq::new(8, |j: int| (b >> ((7 - j) as u8)) & 1 == 1)
}

/// The bits of a byte, most significant first.
pub fn byte_bits(b: u8) -> (bits: Vec<bool>)
    ensures
        bits@ == spec_byte_bits(b),
{
    let mut bits: Vec<bool> = Vec::new();
    let mut j: u8 = 0;
    while j < 8
        invariant
            j <= 8,
            bits@ =~= spec_byte_bits(b).take(j as int),
        decreases 8 - j,
    {
        let shift: u8 = 7 - j;
        bits.push((b >> shift) & 1 == 1);
        j = j + 1;
    }
    assert(spec_byte_bits(b).take(8) =~= spec_byte_bits(b));
    bits
}

} // verus!
