//! The mathematical model of the interpreter: errors, the abstract machine
//! state, and a functional semantics of instruction windows.  The executable
//! machine in `machine` is proved to return exactly what these functions say.

use vstd::prelude::*;

use crate::opcode::{is_name_byte, opcode_of, Opcode, OP_VREFEND};

verus! {

/// The causes on which a run, or a later lookup, fails.  Every failure is
/// fatal for the run that raised it.  `pos` is the stream position of the
/// opcode being executed when the failure arose (for `StackUnderflow` raised
/// by a direct pop, the machine's cursor).
#[derive(Clone, Copy, Debug, PartialEq, Eq, Structural)]
pub enum VmError {
    /// Truncated or garbled encoding: an operand past end-of-stream, a
    /// non-alphanumeric name byte, a missing terminator, an unknown opcode.
    StreamMalformed { pos: usize },
    /// A pop or an arithmetic instruction found too few stack entries.
    StackUnderflow { pos: usize },
    /// Division by zero, or a result outside the unsigned 32-bit domain.
    ArithmeticFault { pos: usize },
    /// A CALL id at or beyond the callback table's length.
    UnknownCallback { pos: usize },
    /// A lookup of a name that was never declared.
    UnknownVariable,
    /// A declared name whose recorded index no longer addresses a live slot.
    DanglingReference,
}

/// What a run observes and changes: the operand stack, bottom to top, and the
/// declared bindings, in declaration order.
#[verifier::ext_equal]
pub ghost struct MachineState {
    pub data: Seq<u32>,
    pub vrefs: Seq<(Seq<u8>, usize)>,
}

/// The index bound to a name, scanning declarations from the latest back:
/// the last declaration of a name wins.
pub open spec fn lookup(vrefs: Seq<(Seq<u8>, usize)>, name: Seq<u8>) -> Option<usize>
    decreases vrefs.len(),
{
    if vrefs.len() == 0 {
        None
    } else if vrefs.last().0 == name {
        Some(vrefs.last().1)
    } else {
        lookup(vrefs.drop_last(), name)
    }
}

/// The count of name bytes from `p` up to a VREFNAMEEND marker before `end`,
/// or `None` when a byte is not alphanumeric or the marker is missing.
pub open spec fn name_len(code: Seq<u8>, p: int, end: int) -> Option<nat>
    decreases end - p,
{
    if p >= end {
        None
    } else if opcode_of(code[p]) == Some(Opcode::VRefNameEnd) {
        Some(0)
    } else if is_name_byte(code[p]) {
        match name_len(code, p + 1, end) {
            Some(k) => Some((k + 1) as nat),
            None => None,
        }
    } else {
        None
    }
}

/// The position of the LOOPEND that closes the body starting at `p`, skipping
/// whole instructions (so operand bytes are never mistaken for it) and the
/// bodies of `depth` enclosing unclosed LOOPNs; `None` when the window cannot
/// be parsed that far or no closing LOOPEND exists.
pub open spec fn loop_end_pos(code: Seq<u8>, p: int, end: int, depth: nat) -> Option<int>
    decreases end - p,
{
    if p >= end {
        None
    } else {
        match opcode_of(code[p]) {
            Some(Opcode::LoopEnd) => {
                if depth == 0 {
                    Some(p)
                } else {
                    loop_end_pos(code, p + 1, end, (depth - 1) as nat)
                }
            },
            Some(Opcode::LoopN) => {
                if p + 2 <= end {
                    loop_end_pos(code, p + 2, end, depth + 1)
                } else {
                    None
                }
            },
            Some(Opcode::Push) | Some(Opcode::Call) => {
                if p + 2 <= end {
                    loop_end_pos(code, p + 2, end, depth)
                } else {
                    None
                }
            },
            Some(Opcode::VRefStart) => {
                match name_len(code, p + 1, end) {
                    Some(k) => {
                        if p + 4 + k <= end {
                            loop_end_pos(code, p + 4 + k, end, depth)
                        } else {
                            None
                        }
                    },
                    None => None,
                }
            },
            Some(Opcode::Stop) | Some(Opcode::Pop) | Some(Opcode::Add) | Some(Opcode::Sub)
            | Some(Opcode::Mul) | Some(Opcode::Div) => loop_end_pos(code, p + 1, end, depth),
            Some(Opcode::VRefNameEnd) | Some(Opcode::VRefEnd) | None => None,
        }
    }
}

/// The value an arithmetic opcode leaves for operands `a` (below) and `b`
/// (top), or `None` on a fault: a difference below zero, a sum or product
/// past `u32::MAX`, a division by zero.
pub open spec fn arith_value(op: Opcode, a: u32, b: u32) -> Option<u32> {
    match op {
        Opcode::Add => if a + b <= u32::MAX {
            Some((a + b) as u32)
        } else {
            None
        },
        Opcode::Sub => if a >= b {
            Some((a - b) as u32)
        } else {
            None
        },
        Opcode::Mul => if a * b <= u32::MAX {
            Some((a * b) as u32)
        } else {
            None
        },
        Opcode::Div => if b != 0 {
            Some((a as int / b as int) as u32)
        } else {
            None
        },
        _ => None,
    }
}

/// Runs the instruction window `[pos, end)` of `code` from state `st` with
/// `ncb` registered callbacks.  `Ok((t, h))` is the state after a clean run,
/// with `h` true exactly when a STOP was decoded; `Err(e)` is the fault that
/// aborted it.  This is the dispatcher's transition rule, one instruction per
/// recursion step.
pub open spec fn window_result(
    code: Seq<u8>,
    pos: int,
    end: int,
    st: MachineState,
    ncb: nat,
) -> Result<(MachineState, bool), VmError>
    decreases end - pos, 0int,
{
    if pos >= end {
        Ok((st, false))
    } else {
        match opcode_of(code[pos]) {
            Some(Opcode::Stop) => Ok((st, true)),
            Some(Opcode::Push) => {
                if pos + 2 <= end {
                    window_result(
                        code,
                        pos + 2,
                        end,
                        MachineState { data: st.data.push(code[pos + 1] as u32), vrefs: st.vrefs },
                        ncb,
                    )
                } else {
                    Err(VmError::StreamMalformed { pos: pos as usize })
                }
            },
            Some(Opcode::Pop) => {
                if st.data.len() > 0 {
                    window_result(
                        code,
                        pos + 1,
                        end,
                        MachineState { data: st.data.drop_last(), vrefs: st.vrefs },
                        ncb,
                    )
                } else {
                    Err(VmError::StackUnderflow { pos: pos as usize })
                }
            },
            Some(Opcode::Add) | Some(Opcode::Sub) | Some(Opcode::Mul) | Some(Opcode::Div) => {
                if st.data.len() < 2 {
                    Err(VmError::StackUnderflow { pos: pos as usize })
                } else {
                    match arith_value(
                        opcode_of(code[pos]).unwrap(),
                        st.data[st.data.len() - 2],
                        st.data.last(),
                    ) {
                        Some(v) => window_result(
                            code,
                            pos + 1,
                            end,
                            MachineState {
                                data: st.data.drop_last().drop_last().push(v),
                                vrefs: st.vrefs,
                            },
                            ncb,
                        ),
                        None => Err(VmError::ArithmeticFault { pos: pos as usize }),
                    }
                }
            },
            Some(Opcode::Call) => {
                if pos + 2 <= end {
                    if (code[pos + 1] as nat) < ncb {
                        window_result(code, pos + 2, end, st, ncb)
                    } else {
                        Err(VmError::UnknownCallback { pos: pos as usize })
                    }
                } else {
                    Err(VmError::StreamMalformed { pos: pos as usize })
                }
            },
            Some(Opcode::VRefStart) => {
                match name_len(code, pos + 1, end) {
                    Some(k) => {
                        if pos + 4 + k <= end && code[pos + 3 + k] == OP_VREFEND {
                            window_result(
                                code,
                                pos + 4 + k,
                                end,
                                MachineState {
                                    data: st.data,
                                    vrefs: st.vrefs.push(
                                        (
                                            code.subrange(pos + 1, pos + 1 + k),
                                            code[pos + 2 + k] as usize,
                                        ),
                                    ),
                                },
                                ncb,
                            )
                        } else {
                            Err(VmError::StreamMalformed { pos: pos as usize })
                        }
                    },
                    None => Err(VmError::StreamMalformed { pos: pos as usize }),
                }
            },
            Some(Opcode::LoopN) => {
                if pos + 2 <= end {
                    match loop_end_pos(code, pos + 2, end, 0) {
                        Some(q) => {
                            if pos + 2 <= q && q < end {
                                match iterations_result(
                                    code,
                                    pos + 2,
                                    q,
                                    code[pos + 1] as nat,
                                    st,
                                    ncb,
                                ) {
                                    Ok((t, true)) => Ok((t, true)),
                                    Ok((t, false)) => window_result(code, q + 1, end, t, ncb),
                                    Err(e) => Err(e),
                                }
                            } else {
                                Err(VmError::StreamMalformed { pos: pos as usize })
                            }
                        },
                        None => Err(VmError::StreamMalformed { pos: pos as usize }),
                    }
                } else {
                    Err(VmError::StreamMalformed { pos: pos as usize })
                }
            },
            Some(Opcode::VRefNameEnd) | Some(Opcode::VRefEnd) | Some(Opcode::LoopEnd) | None => Err(
                VmError::StreamMalformed { pos: pos as usize },
            ),
        }
    }
}

/// Runs the window `[b, e)` from `st`, `n` times over, threading the state
/// through the iterations; a STOP inside an iteration ends the whole run.
pub open spec fn iterations_result(
    code: Seq<u8>,
    b: int,
    e: int,
    n: nat,
    st: MachineState,
    ncb: nat,
) -> Result<(MachineState, bool), VmError>
    decreases e - b, n,
{
    if n == 0 || e <= b {
        Ok((st, false))
    } else {
        match window_result(code, b, e, st, ncb) {
            Ok((t, true)) => Ok((t, true)),
            Ok((t, false)) => iterations_result(code, b, e, (n - 1) as nat, t, ncb),
            Err(e2) => Err(e2),
        }
    }
}

} // verus!
