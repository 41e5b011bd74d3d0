//! The fixed opcode vocabulary: byte tags, their decoded form, and the
//! classification of name bytes used by variable declarations.

use vstd::prelude::*;

verus! {

/// Tag of STOP: halts execution immediately.
pub const OP_STOP: u8 = 0;
/// Tag of PUSH: one literal operand byte, zero-extended and pushed.
pub const OP_PUSH: u8 = 1;
/// Tag of POP: discards the top of the operand stack.
pub const OP_POP: u8 = 2;
/// Tag of VREFSTART: opens a named-binding declaration.
pub const OP_VREFSTART: u8 = 3;
/// Tag of VREFNAMEEND: ends the name bytes of a declaration.
pub const OP_VREFNAMEEND: u8 = 4;
/// Tag of VREFEND: closes a declaration, after the index byte.
pub const OP_VREFEND: u8 = 5;
/// Tag of ADD.
pub const OP_ADD: u8 = 6;
/// Tag of SUB.
pub const OP_SUB: u8 = 7;
/// Tag of MUL.
pub const OP_MUL: u8 = 8;
/// Tag of DIV.
pub const OP_DIV: u8 = 9;
/// Tag of LOOPN: one repeat-count byte, then a body ended by LOOPEND.
pub const OP_LOOPN: u8 = 10;
/// Tag of LOOPEND: closes a LOOPN body.
pub const OP_LOOPEND: u8 = 11;
/// Tag of CALL: one callback-id operand byte.
pub const OP_CALL: u8 = 12;

/// The closed instruction vocabulary, one variant per byte tag.
#[derive(Clone, Copy, Debug, PartialEq, Eq, Structural)]
pub enum Opcode {
    Stop,
    Push,
    Pop,
    VRefStart,
    VRefNameEnd,
    VRefEnd,
    Add,
    Sub,
    Mul,
    Div,
    LoopN,
    LoopEnd,
    Call,
}

/// The opcode a byte stands for, or `None` for a byte outside the vocabulary.
pub open spec fn opcode_of(b: u8) -> Option<Opcode> {
    if b == OP_STOP {
        Some(Opcode::Stop)
    } else if b == OP_PUSH {
        Some(Opcode::Push)
    } else if b == OP_POP {
        Some(Opcode::Pop)
    } else if b == OP_VREFSTART {
        Some(Opcode::VRefStart)
    } else if b == OP_VREFNAMEEND {
        Some(Opcode::VRefNameEnd)
    } else if b == OP_VREFEND {
        Some(Opcode::VRefEnd)
    } else if b == OP_ADD {
        Some(Opcode::Add)
    } else if b == OP_SUB {
        Some(Opcode::Sub)
    } else if b == OP_MUL {
        Some(Opcode::Mul)
    } else if b == OP_DIV {
        Some(Opcode::Div)
    } else if b == OP_LOOPN {
        Some(Opcode::LoopN)
    } else if b == OP_LOOPEND {
        Some(Opcode::LoopEnd)
    } else if b == OP_CALL {
        Some(Opcode::Call)
    } else {
        None
    }
}

/// Decodes one byte of the stream into its opcode.
pub fn decode_opcode(b: u8) -> (r: Option<Opcode>)
    ensures
        r == opcode_of(b),
{
    if b == OP_STOP {
        Some(Opcode::Stop)
    } else if b == OP_PUSH {
        Some(Opcode::Push)
    } else if b == OP_POP {
        Some(Opcode::Pop)
    } else if b == OP_VREFSTART {
        Some(Opcode::VRefStart)
    } else if b == OP_VREFNAMEEND {
        Some(Opcode::VRefNameEnd)
    } else if b == OP_VREFEND {
        Some(Opcode::VRefEnd)
    } else if b == OP_ADD {
        Some(Opcode::Add)
    } else if b == OP_SUB {
        Some(Opcode::Sub)
    } else if b == OP_MUL {
        Some(Opcode::Mul)
    } else if b == OP_DIV {
        Some(Opcode::Div)
    } else if b == OP_LOOPN {
        Some(Opcode::LoopN)
    } else if b == OP_LOOPEND {
        Some(Opcode::LoopEnd)
    } else if b == OP_CALL {
        Some(Opcode::Call)
    } else {
        None
    }
}

/// Whether a byte may appear in a variable name: ASCII alphanumeric.
pub open spec fn is_name_byte(b: u8) -> bool {
    (48 <= b && b <= 57) || (65 <= b && b <= 90) || (97 <= b && b <= 122)
}

/// Tests whether a byte may appear in a variable name.
pub fn name_byte(b: u8) -> (r: bool)
    ensures
        r == is_name_byte(b),
{
    (48 <= b && b <= 57) || (65 <= b && b <= 90) || (97 <= b && b <= 122)
}

} // verus!
