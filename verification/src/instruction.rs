//! Program bytes, opcodes, and the operands that the debugger highlights.
//!
//! Decoding an opcode is the emulator core's business. This module names the text in which the
//! core describes a decoded instruction (its `Debug` form), and reads from that text which
//! registers an instruction uses and how tall a sprite it draws.
use vstd::prelude::*;

verus! {

/// The opcode formed by the program bytes at `2 * i` and `2 * i + 1`; a lone trailing byte
/// gives the opcode 0 (which the core decodes as an unimplemented instruction with value 0).
pub open spec fn spec_opcode_at(program: Seq<u8>, i: int) -> u16 {
    if 2 * i + 1 < program.len() {
        (program[2 * i] as int * 256 + program[2 * i + 1] as int) as u16
    } else {
        0
    }
}

/// The opcodes of a program: one per pair of bytes, big-endian, with a lone trailing byte
/// giving the opcode 0.
pub open spec fn spec_program_opcodes(program: Seq<u8>) -> Seq<u16> {
    Seq::new(((program.len() + 1) / 2) as nat, |i: int| spec_opcode_at(program, i))
}

/// Split a program into opcodes, two bytes each, most significant byte first.
pub fn program_opcodes(program: &Vec<u8>) -> (opcodes: Vec<u16>)
    ensures
        opcodes@ == spec_program_opcodes(program@),
{
    let n = program.len();
    let count: usize = n / 2 + n % 2;
    let mut opcodes: Vec<u16> = Vec::new();
    let mut i: usize = 0;
    while i < count
        invariant
            n == program@.len(),
            count == (n + 1) / 2,
            i <= count,
            opcodes@.len() == i,
            forall|j: int| 0 <= j < i ==> opcodes@[j] == spec_opcode_at(program@, j),
        decreases count - i,
    {
        let opcode: u16 = if 2 * i + 1 < n {
            let a: u8 = program[2 * i];
            let b: u8 = program[2 * i + 1];
            let word: u16 = ((a as u16) << 8) | (b as u16);
            assert(((a as u16) << 8) | (b as u16) == a as u16 * 256 + b as u16) by (bit_vector);
            word
        } else {
            0
        };
        opcodes.push(opcode);
        i = i + 1;
    }
    assert(opcodes@ =~= spec_program_opcodes(program@));
    opcodes
}


/// A character that may appear in a Rust identifier of the ASCII range.
pub open spec fn is_ident_char(c: char) -> bool {
    let n = c as u32;
    (97 <= n && n <= 122) || (65 <= n && n <= 90) || (48 <= n && n <= 57) || n == 95
}

/// An ASCII decimal digit.
pub open spec fn is_digit(c: char) -> bool {
    48 <= (c as u32) && (c as u32) <= 57
}

/// The value of an ASCII decimal digit.
pub open spec fn digit_value(c: char) -> nat {
    ((c as u32) - 48) as nat
}

/// `text` describes an instruction of the variant `name`: it starts with `name`, followed by
/// the end of the text or by a character that cannot continue a name.
pub open spec fn names_variant(text: Seq<char>, name: Seq<char>) -> bool {
    &&& name.len() <= text.len()
    &&& text.subrange(0, name.len() as int) == name
    &&& (text.len() == name.len() || !is_ident_char(text[name.len() as int]))
}

/// `pattern` occurs in `text` at index `k`.
pub open spec fn occurs_at(text: Seq<char>, pattern: Seq<char>, k: int) -> bool {
    0 <= k && k + pattern.len() <= text.len() && text.subrange(k, k + pattern.len()) == pattern
}

/// The index of the first occurrence of `pattern` in `text`.
#[verifier::opaque]
pub open spec fn first_occurrence(text: Seq<char>, pattern: Seq<char>) -> Option<int> {
    if exists|k: int| occurs_at(text, pattern, k) {
        Some(choose|k: int| occurs_at(text, pattern, k)
            && forall|j: int| 0 <= j < k ==> !occurs_at(text, pattern, j))
    } else {
        None
    }
}

/// The number of decimal digits at the start of `s`.
pub open spec fn digit_prefix_len(s: Seq<char>) -> nat
    decreases s.len(),
{
    if s.len() > 0 && is_digit(s[0]) {
        1 + digit_prefix_len(s.drop_first())
    } else {
        0
    }
}

/// The value of a string of decimal digits.
pub open spec fn decimal_value(s: Seq<char>) -> nat
    decreases s.len(),
{
    if s.len() == 0 {
        0
    } else {
        decimal_value(s.drop_last()) * 10 + digit_value(s.last())
    }
}

/// The number written at index `start` of `text`, if at least one digit stands there.
pub open spec fn number_at(text: Seq<char>, start: int) -> Option<nat> {
    let rest = text.skip(start);
    let n = digit_prefix_len(rest);
    if n == 0 {
        None
    } else {
        Some(decimal_value(rest.take(n as int)))
    }
}

/// The number written right after the first occurrence of `pattern` in `text`, if there is
/// at least one digit there.
pub open spec fn field_number(text: Seq<char>, pattern: Seq<char>) -> Option<nat> {
    match first_occurrence(text, pattern) {
        Some(k) => number_at(text, k + pattern.len()),
        None => None,
    }
}

/// The field number, if it fits in a `usize`.
pub open spec fn field_usize(text: Seq<char>, pattern: Seq<char>) -> Option<usize> {
    match field_number(text, pattern) {
        Some(v) => if v <= usize::MAX {
            Some(v as usize)
        } else {
            None
        },
        None => None,
    }
}

/// The field number, if it fits in a `u8`.
pub open spec fn field_u8(text: Seq<char>, pattern: Seq<char>) -> Option<u8> {
    match field_number(text, pattern) {
        Some(v) => if v <= 255 {
            Some(v as u8)
        } else {
            None
        },
        None => None,
    }
}

/// The registers that an instruction names and the height of the sprite that it draws, as the
/// metadata view highlights them.
#[derive(Clone, Copy, Debug, PartialEq, Eq, Structural)]
pub struct Operands {
    pub register_x: Option<usize>,
    pub register_y: Option<usize>,
    pub height: Option<u8>,
}

/// The operands that the debugger reads from the description of an instruction: the register
/// of the instructions that name one register, the two registers of those that compare or
/// combine two, and both registers and the height of a draw; nothing for the others.
pub open spec fn spec_operands(text: Seq<char>) -> Operands {
    if names_variant(text, "AddToRegister"@) || names_variant(text, "SetGeneralRegister"@)
        || names_variant(text, "SkipEqValueWithRegisterContents"@)
        || names_variant(text, "SkipIfKey"@)
        || names_variant(text, "SkipNotEqValueWithRegisterContents"@)
        || names_variant(text, "SubCommand"@) {
        Operands { register_x: field_usize(text, " register: "@), register_y: None, height: None }
    } else if names_variant(text, "JumpWithOffset"@) || names_variant(text, "Random"@) {
        Operands { register_x: field_usize(text, " register_x: "@), register_y: None, height: None }
    } else if names_variant(text, "SkipEqRegisters"@) || names_variant(text, "SkipNotEqRegisters"@)
        || names_variant(text, "LogicalOperator"@) {
        Operands {
            register_x: field_usize(text, " register_x: "@),
            register_y: field_usize(text, " register_y: "@),
            height: None,
        }
    } else if names_variant(text, "Draw"@) {
        Operands {
            register_x: field_usize(text, " x_register: "@),
            register_y: field_usize(text, " y_register: "@),
            height: field_u8(text, " height: "@),
        }
    } else {
        Operands { register_x: None, register_y: None, height: None }
    }
}

/// The characters of a string.
pub(crate) fn chars_of(s: &str) -> (chars: Vec<char>)
    ensures
        chars@ == s@,
{
    let n = s.unicode_len();
    let mut chars: Vec<char> = Vec::new();
    let mut i: usize = 0;
    while i < n
        invariant
            n == s@.len(),
            i <= n,
            chars@ == s@.subrange(0, i as int),
        decreases n - i,
    {
        chars.push(s.get_char(i));
        i = i + 1;
        assert(chars@ =~= s@.subrange(0, i as int));
    }
    assert(chars@ =~= s@);
    chars
}

fn is_ident_char_exec(c: char) -> (b: bool)
    ensures
        b == is_ident_char(c),
{
    let n = c as u32;
    (97 <= n && n <= 122) || (65 <= n && n <= 90) || (48 <= n && n <= 57) || n == 95
}

fn is_digit_exec(c: char) -> (b: bool)
    ensures
        b == is_digit(c),
{
    48 <= (c as u32) && (c as u32) <= 57
}

/// Whether `pattern` occurs in `text` at index `k`.
fn occurs_at_exec(text: &Vec<char>, pattern: &Vec<char>, k: usize) -> (b: bool)
    ensures
        b == occurs_at(text@, pattern@, k as int),
{
    if pattern.len() > text.len() || k > text.len() - pattern.len() {
        return false;
    }
    let tl = text.len();
    let mut j: usize = 0;
    while j < pattern.len()
        invariant
            tl == text@.len(),
            k + pattern@.len() <= text@.len(),
            j <= pattern@.len(),
            forall|m: int| 0 <= m < j ==> text@[k + m] == pattern@[m],
        decreases pattern@.len() - j,
    {
        assert(k + j < text@.len());
        if text[k + j] != pattern[j] {
            assert(text@.subrange(k as int, k + pattern@.len())[j as int] != pattern@[j as int]);
            return false;
        }
        j = j + 1;
    }
    assert(text@.subrange(k as int, k + pattern@.len()) =~= pattern@);
    true
}

/// Whether `text` describes an instruction of the variant `name`.
fn names_variant_exec(text: &Vec<char>, name: &str) -> (b: bool)
    ensures
        b == names_variant(text@, name@),
{
    let name_chars = chars_of(name);
    if !occurs_at_exec(text, &name_chars, 0) {
        assert(!(text@.subrange(0, name@.len() as int) == name@) || name@.len() > text@.len());
        return false;
    }
    let n = name_chars.len();
    n == text.len() || !is_ident_char_exec(text[n])
}

/// The index of the first occurrence of `pattern` in `text`.
pub(crate) fn find_first(text: &Vec<char>, pattern: &Vec<char>) -> (found: Option<usize>)
    ensures
        match found {
            Some(k) => first_occurrence(text@, pattern@) == Some(k as int) && occurs_at(
                text@,
                pattern@,
                k as int,
            ),
            None => first_occurrence(text@, pattern@) is None,
        },
{
    if pattern.len() > text.len() {
        assert(forall|k: int| !occurs_at(text@, pattern@, k));
        reveal(first_occurrence);
        return None;
    }
    let last = text.len() - pattern.len();
    let mut k: usize = 0;
    loop
        invariant
            last + pattern@.len() == text@.len(),
            k <= last,
            forall|j: int| 0 <= j < k ==> !occurs_at(text@, pattern@, j),
        ensures
            forall|j: int| 0 <= j <= last ==> !occurs_at(text@, pattern@, j),
        decreases last - k,
    {
        if occurs_at_exec(text, pattern, k) {
            proof {
                lemma_first_occurrence(text@, pattern@, k as int);
            }
            return Some(k);
        }
        if k == last {
            break;
        }
        k = k + 1;
    }
    assert(forall|j: int| !occurs_at(text@, pattern@, j));
    reveal(first_occurrence);
    None
}

pub(crate) proof fn lemma_first_occurrence(text: Seq<char>, pattern: Seq<char>, k: int)
    requires
        occurs_at(text, pattern, k),
        forall|j: int| 0 <= j < k ==> !occurs_at(text, pattern, j),
    ensures
        first_occurrence(text, pattern) == Some(k),
{
    reveal(first_occurrence);
    let c = choose|c: int| occurs_at(text, pattern, c)
        && forall|j: int| 0 <= j < c ==> !occurs_at(text, pattern, j);
    assert(occurs_at(text, pattern, c));
    if c < k {
        assert(!occurs_at(text, pattern, c));
    } else if c > k {
        assert(!occurs_at(text, pattern, k));
    }
}

proof fn lemma_digit_prefix_step(s: Seq<char>, i: int)
    requires
        0 <= i < s.len(),
        is_digit(s[i]),
    ensures
        digit_prefix_len(s.skip(i)) == 1 + digit_prefix_len(s.skip(i + 1)),
{
    assert(s.skip(i).drop_first() =~= s.skip(i + 1));
}

proof fn lemma_digit_prefix_stop(s: Seq<char>, i: int)
    requires
        0 <= i <= s.len(),
        i == s.len() || !is_digit(s[i]),
    ensures
        digit_prefix_len(s.skip(i)) == 0,
{
}

proof fn lemma_decimal_value_monotone(s: Seq<char>, k: int)
    requires
        0 <= k <= s.len(),
    ensures
        decimal_value(s.take(k)) <= decimal_value(s),
    decreases s.len() - k,
{
    if k < s.len() {
        lemma_decimal_value_monotone(s, k + 1);
        assert(s.take(k + 1).drop_last() =~= s.take(k));
    } else {
        assert(s.take(k) =~= s);
    }
}

/// The number written at `start` in `text`, if at least one digit stands there and the
/// number fits in a `usize`.
fn parse_number_at(text: &Vec<char>, start: usize) -> (value: Option<usize>)
    requires
        start <= text@.len(),
    ensures
        value == match number_at(text@, start as int) {
            Some(v) => if v <= usize::MAX {
                Some(v as usize)
            } else {
                None
            },
            None => None,
        },
{
    let ghost rest = text@.skip(start as int);
    let mut i: usize = start;
    let mut v: usize = 0;
    let mut overflow = false;
    while i < text.len() && is_digit_exec(text[i])
        invariant
            start <= i <= text@.len(),
            rest == text@.skip(start as int),
            forall|m: int| start <= m < i ==> is_digit(text@[m]),
            digit_prefix_len(rest) == (i - start) + digit_prefix_len(text@.skip(i as int)),
            !overflow ==> v == decimal_value(rest.take(i - start)),
            overflow ==> decimal_value(rest.take(i - start)) > usize::MAX,
        decreases text@.len() - i,
    {
        let c = text[i];
        proof {
            lemma_digit_prefix_step(text@, i as int);
            assert(text@.skip(i as int) =~= text@.skip(start as int).skip(i - start));
            assert(rest.take(i - start + 1).drop_last() =~= rest.take(i - start));
            assert(rest.take(i - start + 1).last() == c);
        }
        let d: usize = ((c as u32) - 48) as usize;
        if !overflow {
            if v > (usize::MAX - d) / 10 {
                overflow = true;
            } else {
                v = v * 10 + d;
            }
        }
        i = i + 1;
    }
    proof {
        lemma_digit_prefix_stop(text@, i as int);
        assert(text@.skip(i as int) =~= text@.skip(start as int).skip(i - start));
    }
    if i == start || overflow {
        None
    } else {
        Some(v)
    }
}

/// The number after the first occurrence of `pattern` in `text`, if it fits in a `usize`.
fn field_usize_exec(text: &Vec<char>, pattern: &str) -> (value: Option<usize>)
    ensures
        value == field_usize(text@, pattern@),
{
    let p = chars_of(pattern);
    let tl = text.len();
    match find_first(text, &p) {
        Some(k) => {
            assert(k + p@.len() <= tl);
            let v = parse_number_at(text, k + p.len());
            assert(field_number(text@, pattern@) == number_at(text@, k + pattern@.len()));
            v
        },
        None => None,
    }
}

/// The number after the first occurrence of `pattern` in `text`, if it fits in a `u8`.
fn field_u8_exec(text: &Vec<char>, pattern: &str) -> (value: Option<u8>)
    ensures
        value == field_u8(text@, pattern@),
{
    match field_usize_exec(text, pattern) {
        Some(v) => if v <= 255 {
            Some(v as u8)
        } else {
            None
        },
        None => None,
    }
}

/// The operands that the debugger highlights for the instruction that `text` describes.
pub fn operands_of_text(text: &str) -> (operands: Operands)
    ensures
        operands == spec_operands(text@),
{
    let t = chars_of(text);
    if names_variant_exec(&t, "AddToRegister") || names_variant_exec(&t, "SetGeneralRegister")
        || names_variant_exec(&t, "SkipEqValueWithRegisterContents")
        || names_variant_exec(&t, "SkipIfKey")
        || names_variant_exec(&t, "SkipNotEqValueWithRegisterContents")
        || names_variant_exec(&t, "SubCommand") {
        Operands { register_x: field_usize_exec(&t, " register: "), register_y: None, height: None }
    } else if names_variant_exec(&t, "JumpWithOffset") || names_variant_exec(&t, "Random") {
        Operands {
            register_x: field_usize_exec(&t, " register_x: "),
            register_y: None,
            height: None,
        }
    } else if names_variant_exec(&t, "SkipEqRegisters") || names_variant_exec(
        &t,
        "SkipNotEqRegisters",
    ) || names_variant_exec(&t, "LogicalOperator") {
        Operands {
            register_x: field_usize_exec(&t, " register_x: "),
            register_y: field_usize_exec(&t, " register_y: "),
            height: None,
        }
    } else if names_variant_exec(&t, "Draw") {
        Operands {
            register_x: field_usize_exec(&t, " x_register: "),
            register_y: field_usize_exec(&t, " y_register: "),
            height: field_u8_exec(&t, " height: "),
        }
    } else {
        Operands { register_x: None, register_y: None, height: None }
    }
}

/// Name for the description that the emulator core gives of the instruction that it decodes
/// from `opcode`: the `Debug` text of `chip_eight::Instruction::from(opcode)`.
pub uninterp spec fn instruction_text(opcode: u16) -> Seq<char>;

/// Decodes `opcode` with the emulator core (`chip_eight::Instruction::from`) and describes the
/// instruction in its `Debug` form. The contract claims only that the result is the named
/// description of that opcode, so that equal opcodes are described alike.
#[verifier::external_body]
pub(crate) fn describe_instruction(opcode: u16) -> (text: String)
    ensures
        text@ == instruction_text(opcode),
{
    format!("{:?}", chip_eight::Instruction::from(opcode))
}

/// The operands that the debugger highlights for the instruction encoded by `opcode`.
pub fn instruction_operands(opcode: u16) -> (operands: Operands)
    ensures
        operands == spec_operands(instruction_text(opcode)),
{
    let text = describe_instruction(opcode);
    operands_of_text(text.as_str())
}

} // verus!
