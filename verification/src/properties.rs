//! Laws of the instruction set, stated and proved over the model.  Together
//! with the machine's contracts, which tie every run to the model, they hold
//! of the executable machine as well.

use vstd::prelude::*;

use crate::model::{lookup, window_result, MachineState, VmError};
use crate::opcode::{
    opcode_of, Opcode, OP_ADD, OP_CALL, OP_DIV, OP_LOOPEND, OP_LOOPN, OP_MUL, OP_POP, OP_PUSH,
    OP_STOP, OP_SUB, OP_VREFEND, OP_VREFNAMEEND, OP_VREFSTART,
};

verus! {

/// A fresh machine state: empty stack, no bindings.
pub open spec fn fresh_state() -> MachineState {
    MachineState { data: Seq::<u32>::empty(), vrefs: Seq::<(Seq<u8>, usize)>::empty() }
}

/// For every literal byte `v`, the program `[PUSH v, STOP]` halts and leaves
/// the operand stack equal to `[v]` exactly, whatever callbacks are on hand.
pub proof fn law_push_stop(v: u8, ncb: nat)
    ensures
        window_result(seq![OP_PUSH, v, OP_STOP], 0, 3, fresh_state(), ncb) == Ok::<
            (MachineState, bool),
            VmError,
        >((MachineState { data: seq![v as u32], vrefs: Seq::<(Seq<u8>, usize)>::empty() }, true)),
{
    let code = seq![OP_PUSH, v, OP_STOP];
    assert(seq![v as u32] =~= Seq::<u32>::empty().push(v as u32));
    assert(window_result(code, 0, 3, fresh_state(), ncb) == window_result(
        code,
        2,
        3,
        MachineState { data: seq![v as u32], vrefs: Seq::<(Seq<u8>, usize)>::empty() },
        ncb,
    ));
}

/// The state after `[PUSH a, PUSH b]` from a fresh state: the stack `[a, b]`.
proof fn lemma_two_pushes(code: Seq<u8>, a: u8, b: u8, ncb: nat)
    requires
        code.len() == 6,
        code[0] == OP_PUSH,
        code[1] == a,
        code[2] == OP_PUSH,
        code[3] == b,
    ensures
        window_result(code, 0, 6, fresh_state(), ncb) == window_result(
            code,
            4,
            6,
            MachineState {
                data: seq![a as u32, b as u32],
                vrefs: Seq::<(Seq<u8>, usize)>::empty(),
            },
            ncb,
        ),
{
    let s1 = MachineState {
        data: Seq::<u32>::empty().push(a as u32),
        vrefs: Seq::<(Seq<u8>, usize)>::empty(),
    };
    assert(window_result(code, 0, 6, fresh_state(), ncb) == window_result(code, 2, 6, s1, ncb));
    let s2 = MachineState { data: s1.data.push(b as u32), vrefs: Seq::<(Seq<u8>, usize)>::empty() };
    assert(window_result(code, 2, 6, s1, ncb) == window_result(code, 4, 6, s2, ncb));
    assert(s2 =~= MachineState {
        data: seq![a as u32, b as u32],
        vrefs: Seq::<(Seq<u8>, usize)>::empty(),
    });
}

/// For all bytes `a`, `b`, the program `[PUSH a, PUSH b, ADD, STOP]` halts
/// with the stack `[a + b]`: byte operands cannot overflow the 32-bit sum.
pub proof fn law_add_bytes(a: u8, b: u8, ncb: nat)
    ensures
        window_result(seq![OP_PUSH, a, OP_PUSH, b, OP_ADD, OP_STOP], 0, 6, fresh_state(), ncb)
            == Ok::<(MachineState, bool), VmError>(
            (
                MachineState {
                    data: seq![(a + b) as u32],
                    vrefs: Seq::<(Seq<u8>, usize)>::empty(),
                },
                true,
            ),
        ),
{
    let code = seq![OP_PUSH, a, OP_PUSH, b, OP_ADD, OP_STOP];
    lemma_two_pushes(code, a, b, ncb);
    let s2 = MachineState {
        data: seq![a as u32, b as u32],
        vrefs: Seq::<(Seq<u8>, usize)>::empty(),
    };
    let s3 = MachineState {
        data: s2.data.drop_last().drop_last().push((a + b) as u32),
        vrefs: Seq::<(Seq<u8>, usize)>::empty(),
    };
    assert(window_result(code, 4, 6, s2, ncb) == window_result(code, 5, 6, s3, ncb));
    assert(s3 =~= MachineState {
        data: seq![(a + b) as u32],
        vrefs: Seq::<(Seq<u8>, usize)>::empty(),
    });
}

/// For all bytes `a`, `b`, the program `[PUSH a, PUSH b, SUB, STOP]` halts
/// with the stack `[a - b]` when `a >= b`, and faults when `b > a`.
pub proof fn law_sub_bytes(a: u8, b: u8, ncb: nat)
    ensures
        a >= b ==> window_result(seq![OP_PUSH, a, OP_PUSH, b, OP_SUB, OP_STOP], 0, 6, fresh_state(), ncb)
            == Ok::<(MachineState, bool), VmError>(
            (
                MachineState {
                    data: seq![(a - b) as u32],
                    vrefs: Seq::<(Seq<u8>, usize)>::empty(),
                },
                true,
            ),
        ),
        a < b ==> window_result(seq![OP_PUSH, a, OP_PUSH, b, OP_SUB, OP_STOP], 0, 6, fresh_state(), ncb)
            == Err::<(MachineState, bool), VmError>(VmError::ArithmeticFault { pos: 4 }),
{
    let code = seq![OP_PUSH, a, OP_PUSH, b, OP_SUB, OP_STOP];
    lemma_two_pushes(code, a, b, ncb);
    let s2 = MachineState {
        data: seq![a as u32, b as u32],
        vrefs: Seq::<(Seq<u8>, usize)>::empty(),
    };
    if a >= b {
        let s3 = MachineState {
            data: s2.data.drop_last().drop_last().push((a - b) as u32),
            vrefs: Seq::<(Seq<u8>, usize)>::empty(),
        };
        assert(window_result(code, 4, 6, s2, ncb) == window_result(code, 5, 6, s3, ncb));
        assert(s3 =~= MachineState {
            data: seq![(a - b) as u32],
            vrefs: Seq::<(Seq<u8>, usize)>::empty(),
        });
    }
}

/// For all bytes `a`, `b`, the program `[PUSH a, PUSH b, MUL, STOP]` halts
/// with the stack `[a * b]`: byte operands cannot overflow the 32-bit product.
pub proof fn law_mul_bytes(a: u8, b: u8, ncb: nat)
    ensures
        window_result(seq![OP_PUSH, a, OP_PUSH, b, OP_MUL, OP_STOP], 0, 6, fresh_state(), ncb)
            == Ok::<(MachineState, bool), VmError>(
            (
                MachineState {
                    data: seq![(a * b) as u32],
                    vrefs: Seq::<(Seq<u8>, usize)>::empty(),
                },
                true,
            ),
        ),
{
    let code = seq![OP_PUSH, a, OP_PUSH, b, OP_MUL, OP_STOP];
    lemma_two_pushes(code, a, b, ncb);
    let s2 = MachineState {
        data: seq![a as u32, b as u32],
        vrefs: Seq::<(Seq<u8>, usize)>::empty(),
    };
    assert(a * b <= 255 * 255) by (nonlinear_arith)
        requires
            a <= 255,
            b <= 255,
    ;
    let s3 = MachineState {
        data: s2.data.drop_last().drop_last().push((a * b) as u32),
        vrefs: Seq::<(Seq<u8>, usize)>::empty(),
    };
    assert(window_result(code, 4, 6, s2, ncb) == window_result(code, 5, 6, s3, ncb));
    assert(s3 =~= MachineState {
        data: seq![(a * b) as u32],
        vrefs: Seq::<(Seq<u8>, usize)>::empty(),
    });
}

/// For all bytes `a`, `b`, the program `[PUSH a, PUSH b, DIV, STOP]` halts
/// with the stack `[a / b]` when `b != 0`, and faults when `b == 0`.
pub proof fn law_div_bytes(a: u8, b: u8, ncb: nat)
    ensures
        b != 0 ==> window_result(seq![OP_PUSH, a, OP_PUSH, b, OP_DIV, OP_STOP], 0, 6, fresh_state(), ncb)
            == Ok::<(MachineState, bool), VmError>(
            (
                MachineState {
                    data: seq![(a as int / b as int) as u32],
                    vrefs: Seq::<(Seq<u8>, usize)>::empty(),
                },
                true,
            ),
        ),
        b == 0 ==> window_result(seq![OP_PUSH, a, OP_PUSH, b, OP_DIV, OP_STOP], 0, 6, fresh_state(), ncb)
            == Err::<(MachineState, bool), VmError>(VmError::ArithmeticFault { pos: 4 }),
{
    let code = seq![OP_PUSH, a, OP_PUSH, b, OP_DIV, OP_STOP];
    lemma_two_pushes(code, a, b, ncb);
    let s2 = MachineState {
        data: seq![a as u32, b as u32],
        vrefs: Seq::<(Seq<u8>, usize)>::empty(),
    };
    if b != 0 {
        let s3 = MachineState {
            data: s2.data.drop_last().drop_last().push((a as int / b as int) as u32),
            vrefs: Seq::<(Seq<u8>, usize)>::empty(),
        };
        assert(window_result(code, 4, 6, s2, ncb) == window_result(code, 5, 6, s3, ncb));
        assert(s3 =~= MachineState {
            data: seq![(a as int / b as int) as u32],
            vrefs: Seq::<(Seq<u8>, usize)>::empty(),
        });
    }
}

/// From any state with at least one stack entry, the declaration
/// `[VREFSTART, 'x', VREFNAMEEND, 0, VREFEND]` runs cleanly, leaves the stack
/// alone, and binds the name "x" to index 0, so that a lookup of "x" resolves
/// to the value at stack index 0.
pub proof fn law_declare_resolve(st: MachineState, ncb: nat)
    requires
        st.data.len() >= 1,
    ensures
        (window_result(
            seq![OP_VREFSTART, 120u8, OP_VREFNAMEEND, 0u8, OP_VREFEND],
            0,
            5,
            st,
            ncb,
        ) matches Ok(p) && p.0.data == st.data && lookup(p.0.vrefs, seq![120u8]) == Some(0usize)
            && p.1 == false),
{
    let code = seq![OP_VREFSTART, 120u8, OP_VREFNAMEEND, 0u8, OP_VREFEND];
    assert(crate::model::name_len(code, 2, 5) == Some(0nat));
    assert(crate::model::name_len(code, 1, 5) == Some(1nat));
    let name = code.subrange(1, 2);
    assert(name =~= seq![120u8]);
    let st2 = MachineState { data: st.data, vrefs: st.vrefs.push((name, 0u8 as usize)) };
    assert(window_result(code, 0, 5, st, ncb) == window_result(code, 5, 5, st2, ncb));
    assert(st2.vrefs.last() == (seq![120u8], 0usize));
}

/// Iterating the body `[PUSH v]` of a loop `n` times appends `n` copies of
/// `v` to the stack, in sequence.
proof fn lemma_push_iterations(code: Seq<u8>, v: u8, n: nat, st: MachineState, ncb: nat)
    requires
        code.len() == 6,
        code[2] == OP_PUSH,
        code[3] == v,
    ensures
        crate::model::iterations_result(code, 2, 4, n, st, ncb) == Ok::<
            (MachineState, bool),
            VmError,
        >(
            (
                MachineState {
                    data: st.data + Seq::new(n, |i: int| v as u32),
                    vrefs: st.vrefs,
                },
                false,
            ),
        ),
    decreases n,
{
    if n == 0 {
        assert(st.data + Seq::new(0, |i: int| v as u32) =~= st.data);
        assert(MachineState { data: st.data + Seq::new(0, |i: int| v as u32), vrefs: st.vrefs }
            =~= st);
    } else {
        let st1 = MachineState { data: st.data.push(v as u32), vrefs: st.vrefs };
        assert(window_result(code, 2, 4, st, ncb) == window_result(code, 4, 4, st1, ncb));
        lemma_push_iterations(code, v, (n - 1) as nat, st1, ncb);
        assert(st1.data + Seq::new((n - 1) as nat, |i: int| v as u32) =~= st.data + Seq::new(
            n,
            |i: int| v as u32,
        ));
    }
}

/// For every count `n` and byte `v`, the program `[LOOPN n, PUSH v, LOOPEND,
/// STOP]` halts with exactly `n` copies of `v` appended to the stack: the
/// stack grows by exactly `n`.
pub proof fn law_loop_repeats(n: u8, v: u8, st: MachineState, ncb: nat)
    ensures
        window_result(seq![OP_LOOPN, n, OP_PUSH, v, OP_LOOPEND, OP_STOP], 0, 6, st, ncb) == Ok::<
            (MachineState, bool),
            VmError,
        >(
            (
                MachineState {
                    data: st.data + Seq::new(n as nat, |i: int| v as u32),
                    vrefs: st.vrefs,
                },
                true,
            ),
        ),
{
    let code = seq![OP_LOOPN, n, OP_PUSH, v, OP_LOOPEND, OP_STOP];
    assert(crate::model::loop_end_pos(code, 4, 6, 0) == Some(4int));
    assert(crate::model::loop_end_pos(code, 2, 6, 0) == Some(4int));
    lemma_push_iterations(code, v, n as nat, st, ncb);
    let st_end = MachineState {
        data: st.data + Seq::new(n as nat, |i: int| v as u32),
        vrefs: st.vrefs,
    };
    assert(window_result(code, 5, 6, st_end, ncb) == Ok::<(MachineState, bool), VmError>(
        (st_end, true),
    ));
}

/// A name that no declaration binds resolves to nothing.
pub proof fn law_lookup_undeclared(vrefs: Seq<(Seq<u8>, usize)>, name: Seq<u8>)
    requires
        forall|i: int| 0 <= i < vrefs.len() ==> vrefs[i].0 != name,
    ensures
        lookup(vrefs, name) is None,
    decreases vrefs.len(),
{
    if vrefs.len() > 0 {
        law_lookup_undeclared(vrefs.drop_last(), name);
    }
}

/// A stream that ends where an operand byte is owed — here a PUSH as the
/// final byte — is malformed, from any state.
pub proof fn law_truncated_operand(st: MachineState, ncb: nat)
    ensures
        window_result(seq![OP_PUSH], 0, 1, st, ncb) == Err::<(MachineState, bool), VmError>(
            VmError::StreamMalformed { pos: 0 },
        ),
{
}

/// A CALL whose id lies at or beyond the callback table's length fails with
/// `UnknownCallback`, from any state.
pub proof fn law_unknown_callback(id: u8, st: MachineState, ncb: nat)
    requires
        ncb <= id as nat,
    ensures
        window_result(seq![OP_CALL, id, OP_STOP], 0, 3, st, ncb) == Err::<
            (MachineState, bool),
            VmError,
        >(VmError::UnknownCallback { pos: 0 }),
{
}

/// A POP on an empty stack underflows.
pub proof fn law_pop_underflow(st: MachineState, ncb: nat)
    requires
        st.data.len() == 0,
    ensures
        window_result(seq![OP_POP], 0, 1, st, ncb) == Err::<(MachineState, bool), VmError>(
            VmError::StackUnderflow { pos: 0 },
        ),
{
}

/// Any arithmetic instruction on a stack with fewer than two entries
/// underflows.
pub proof fn law_arith_underflow(opb: u8, st: MachineState, ncb: nat)
    requires
        st.data.len() < 2,
        opb == OP_ADD || opb == OP_SUB || opb == OP_MUL || opb == OP_DIV,
    ensures
        window_result(seq![opb], 0, 1, st, ncb) == Err::<(MachineState, bool), VmError>(
            VmError::StackUnderflow { pos: 0 },
        ),
{
    assert(opcode_of(opb) matches Some(o) && (o == Opcode::Add || o == Opcode::Sub || o
        == Opcode::Mul || o == Opcode::Div));
}

} // verus!
