//! The executable machine: the instruction cursor, the operand stack, the
//! variable-reference table and the callback table, with an execution engine
//! proved to return exactly what the model in `model` says.

use vstd::prelude::*;

use crate::model::{
    arith_value, iterations_result, lookup, loop_end_pos, name_len, window_result, MachineState,
    VmError,
};
use crate::opcode::{decode_opcode, name_byte, Opcode, OP_VREFEND, OP_VREFNAMEEND};

verus! {

/// A host action the machine can invoke by id.  The engine takes no
/// dependency on what an action does, only that it returns.
pub trait HostCallback {
    /// Performs the host action.
    fn invoke(&self);
}

/// A callback that does nothing, for programs that call no host action.
pub struct NoCallback;

impl HostCallback for NoCallback {
    fn invoke(&self) {
    }
}

/// The interpreter: one instruction stream, one operand stack, one table of
/// named references and one of host callbacks, and a cursor.
pub struct VM<C> {
    code: Vec<u8>,
    data: Vec<u32>,
    vrefs: Vec<(Vec<u8>, usize)>,
    imports: Vec<C>,
    counter: usize,
}

impl<C: HostCallback> VM<C> {
    /// The instruction stream.
    pub closed spec fn code(&self) -> Seq<u8> {
        self.code@
    }

    /// The operand stack, bottom to top.
    pub closed spec fn data(&self) -> Seq<u32> {
        self.data@
    }

    /// The declared bindings, in declaration order.
    pub closed spec fn vrefs(&self) -> Seq<(Seq<u8>, usize)> {
        self.vrefs@.map_values(|p: (Vec<u8>, usize)| (p.0@, p.1))
    }

    /// The callback table, in the order the host supplied it: position is id.
    pub closed spec fn imports(&self) -> Seq<C> {
        self.imports@
    }

    /// How many callbacks the host registered.
    pub open spec fn n_callbacks(&self) -> nat {
        self.imports().len()
    }

    /// The cursor: the next position to execute.
    pub closed spec fn cursor(&self) -> nat {
        self.counter as nat
    }

    /// The abstract state the model runs on.
    pub open spec fn state(&self) -> MachineState {
        MachineState { data: self.data(), vrefs: self.vrefs() }
    }

    /// The cursor never lies past the end of the stream.
    pub open spec fn wf(&self) -> bool {
        self.cursor() <= self.code().len()
    }

    /// A machine over the given instruction stream and callback table, with
    /// an empty stack, no bindings, and the cursor at the first byte.
    pub fn new(code: Vec<u8>, imports: Vec<C>) -> (vm: Self)
        ensures
            vm.code() == code@,
            vm.data() == Seq::<u32>::empty(),
            vm.vrefs() == Seq::<(Seq<u8>, usize)>::empty(),
            vm.imports() == imports@,
            vm.cursor() == 0,
            vm.wf(),
    {
        let vm = VM { code, data: Vec::new(), vrefs: Vec::new(), imports, counter: 0 };
        proof {
            assert(vm.vrefs() =~= Seq::<(Seq<u8>, usize)>::empty());
        }
        vm
    }

    /// A read-only snapshot of the operand stack, bottom to top.
    pub fn data_peek(&self) -> (r: Vec<u32>)
        ensures
            r@ == self.data(),
    {
        let mut out: Vec<u32> = Vec::new();
        let mut i: usize = 0;
        while i < self.data.len()
            invariant
                i <= self.data.len(),
                out@ == self.data@.subrange(0, i as int),
            decreases self.data.len() - i,
        {
            out.push(self.data[i]);
            i = i + 1;
            proof {
                assert(out@ =~= self.data@.subrange(0, i as int));
            }
        }
        proof {
            assert(out@ =~= self.data@);
        }
        out
    }

    /// Removes and returns the top of the operand stack; underflow on an
    /// empty stack, reported at the cursor's position.
    pub fn data_pop(&mut self) -> (r: Result<u32, VmError>)
        ensures
            final(self).code() == old(self).code(),
            final(self).vrefs() == old(self).vrefs(),
            final(self).imports() == old(self).imports(),
            final(self).cursor() == old(self).cursor(),
            old(self).data().len() > 0 ==> r == Ok::<u32, VmError>(old(self).data().last())
                && final(self).data() == old(self).data().drop_last(),
            old(self).data().len() == 0 ==> r == Err::<u32, VmError>(
                VmError::StackUnderflow { pos: old(self).cursor() as usize },
            ) && final(self).data() == old(self).data(),
    {
        match self.data.pop() {
            Some(v) => Ok(v),
            None => Err(VmError::StackUnderflow { pos: self.counter }),
        }
    }

    /// The value at the stack slot a declared name is bound to:
    /// `UnknownVariable` for a name never declared, `DanglingReference` for a
    /// binding whose index no longer addresses a live slot.
    pub fn peek_var(&self, varname: &[u8]) -> (r: Result<u32, VmError>)
        ensures
            r == (match lookup(self.vrefs(), varname@) {
                Some(idx) => if idx < self.data().len() {
                    Ok::<u32, VmError>(self.data()[idx as int])
                } else {
                    Err::<u32, VmError>(VmError::DanglingReference)
                },
                None => Err::<u32, VmError>(VmError::UnknownVariable),
            }),
    {
        let mut i: usize = self.vrefs.len();
        proof {
            assert(self.vrefs().subrange(0, i as int) =~= self.vrefs());
        }
        while i > 0
            invariant
                i <= self.vrefs.len(),
                lookup(self.vrefs(), varname@) == lookup(
                    self.vrefs().subrange(0, i as int),
                    varname@,
                ),
            decreases i,
        {
            i = i - 1;
            let entry_name: &Vec<u8> = &self.vrefs[i].0;
            proof {
                assert(self.vrefs().subrange(0, i + 1).last() == (
                    self.vrefs@[i as int].0@,
                    self.vrefs@[i as int].1,
                ));
                assert(self.vrefs().subrange(0, i + 1).drop_last() =~= self.vrefs().subrange(
                    0,
                    i as int,
                ));
            }
            if bytes_equal(entry_name, varname) {
                let idx = self.vrefs[i].1;
                if idx < self.data.len() {
                    return Ok(self.data[idx]);
                } else {
                    return Err(VmError::DanglingReference);
                }
            }
        }
        proof {
            assert(self.vrefs().subrange(0, 0) =~= Seq::<(Seq<u8>, usize)>::empty());
        }
        Err(VmError::UnknownVariable)
    }

    /// Runs the stream from the cursor to a STOP or the end of the stream,
    /// returning exactly what the model says of that window: `Ok` on a clean
    /// run, with the machine holding the model's final stack and bindings and
    /// the cursor at the stream's end, or the model's error with the machine's
    /// stream and cursor untouched.
    pub fn execute(&mut self) -> (r: Result<(), VmError>)
        requires
            old(self).wf(),
        ensures
            final(self).code() == old(self).code(),
            final(self).imports() == old(self).imports(),
            final(self).wf(),
            match r {
                Ok(_) => (window_result(
                    old(self).code(),
                    old(self).cursor() as int,
                    old(self).code().len() as int,
                    old(self).state(),
                    old(self).n_callbacks(),
                ) matches Ok(p) && final(self).state() == p.0
                    && final(self).cursor() == final(self).code().len()),
                Err(e) => window_result(
                    old(self).code(),
                    old(self).cursor() as int,
                    old(self).code().len() as int,
                    old(self).state(),
                    old(self).n_callbacks(),
                ) == Err::<(MachineState, bool), VmError>(e)
                    && final(self).cursor() == old(self).cursor(),
            },
    {
        let end = self.code.len();
        let start = self.counter;
        match self.run_window(start, end) {
            Ok(_halted) => {
                self.counter = end;
                Ok(())
            },
            Err(e) => Err(e),
        }
    }

    /// Decodes and executes the instructions of `[pos, end)` in order,
    /// returning whether a STOP halted the run; the dispatcher of the model,
    /// one recursion step per instruction.
    fn run_window(&mut self, pos: usize, end: usize) -> (r: Result<bool, VmError>)
        requires
            pos <= end,
            end <= old(self).code().len(),
        ensures
            final(self).code() == old(self).code(),
            final(self).imports() == old(self).imports(),
            final(self).cursor() == old(self).cursor(),
            match r {
                Ok(h) => window_result(
                    old(self).code(),
                    pos as int,
                    end as int,
                    old(self).state(),
                    old(self).n_callbacks(),
                ) == Ok::<(MachineState, bool), VmError>((final(self).state(), h)),
                Err(e) => window_result(
                    old(self).code(),
                    pos as int,
                    end as int,
                    old(self).state(),
                    old(self).n_callbacks(),
                ) == Err::<(MachineState, bool), VmError>(e),
            },
        decreases end - pos, 0int,
    {
        if pos >= end {
            return Ok(false);
        }
        let ghost code = self.code();
        let ghost st0 = self.state();
        let b = self.code[pos];
        match decode_opcode(b) {
            Some(Opcode::Stop) => Ok(true),
            Some(Opcode::Push) => {
                if end - pos >= 2 {
                    let v = self.code[pos + 1];
                    self.data.push(v as u32);
                    proof {
                        assert(self.state() =~= MachineState {
                            data: st0.data.push(code[pos + 1] as u32),
                            vrefs: st0.vrefs,
                        });
                    }
                    self.run_window(pos + 2, end)
                } else {
                    Err(VmError::StreamMalformed { pos })
                }
            },
            Some(Opcode::Pop) => {
                if self.data.len() > 0 {
                    let _ = self.data.pop();
                    proof {
                        assert(self.state() =~= MachineState {
                            data: st0.data.drop_last(),
                            vrefs: st0.vrefs,
                        });
                    }
                    self.run_window(pos + 1, end)
                } else {
                    Err(VmError::StackUnderflow { pos })
                }
            },
            Some(Opcode::Add) => match self.arith_step(Opcode::Add, pos) {
                Ok(_) => self.run_window(pos + 1, end),
                Err(e) => Err(e),
            },
            Some(Opcode::Sub) => match self.arith_step(Opcode::Sub, pos) {
                Ok(_) => self.run_window(pos + 1, end),
                Err(e) => Err(e),
            },
            Some(Opcode::Mul) => match self.arith_step(Opcode::Mul, pos) {
                Ok(_) => self.run_window(pos + 1, end),
                Err(e) => Err(e),
            },
            Some(Opcode::Div) => match self.arith_step(Opcode::Div, pos) {
                Ok(_) => self.run_window(pos + 1, end),
                Err(e) => Err(e),
            },
            Some(Opcode::Call) => {
                if end - pos >= 2 {
                    let id = self.code[pos + 1];
                    if (id as usize) < self.imports.len() {
                        self.imports[id as usize].invoke();
                        self.run_window(pos + 2, end)
                    } else {
                        Err(VmError::UnknownCallback { pos })
                    }
                } else {
                    Err(VmError::StreamMalformed { pos })
                }
            },
            Some(Opcode::VRefStart) => {
                match self.scan_name(pos + 1, end) {
                    Some((name, np)) => {
                        if end - np >= 2 {
                            if self.code[np + 1] == OP_VREFEND {
                                let idx = self.code[np] as usize;
                                proof {
                                    let k = (np - pos - 2) as nat;
                                    assert(code.subrange(pos + 1, pos + 1 + k) == name@);
                                }
                                self.vrefs.push((name, idx));
                                proof {
                                    let k = (np - pos - 2) as nat;
                                    assert(self.state() =~= MachineState {
                                        data: st0.data,
                                        vrefs: st0.vrefs.push(
                                            (
                                                code.subrange(pos + 1, pos + 1 + k),
                                                code[pos + 2 + k] as usize,
                                            ),
                                        ),
                                    });
                                }
                                self.run_window(np + 2, end)
                            } else {
                                Err(VmError::StreamMalformed { pos })
                            }
                        } else {
                            Err(VmError::StreamMalformed { pos })
                        }
                    },
                    None => Err(VmError::StreamMalformed { pos }),
                }
            },
            Some(Opcode::LoopN) => {
                if end - pos >= 2 {
                    let n = self.code[pos + 1];
                    match self.find_loop_end(pos + 2, end) {
                        Some(q) => {
                            match self.run_iters(pos + 2, q, n) {
                                Ok(true) => Ok(true),
                                Ok(false) => self.run_window(q + 1, end),
                                Err(e) => Err(e),
                            }
                        },
                        None => Err(VmError::StreamMalformed { pos }),
                    }
                } else {
                    Err(VmError::StreamMalformed { pos })
                }
            },
            Some(Opcode::VRefNameEnd) | Some(Opcode::VRefEnd) | Some(Opcode::LoopEnd) | None => Err(
                VmError::StreamMalformed { pos },
            ),
        }
    }

    /// Runs the captured window `[b, e)` `n` times over, as the model's
    /// iteration rule says.
    fn run_iters(&mut self, b: usize, e: usize, n: u8) -> (r: Result<bool, VmError>)
        requires
            b <= e,
            e <= old(self).code().len(),
        ensures
            final(self).code() == old(self).code(),
            final(self).imports() == old(self).imports(),
            final(self).cursor() == old(self).cursor(),
            match r {
                Ok(h) => iterations_result(
                    old(self).code(),
                    b as int,
                    e as int,
                    n as nat,
                    old(self).state(),
                    old(self).n_callbacks(),
                ) == Ok::<(MachineState, bool), VmError>((final(self).state(), h)),
                Err(err) => iterations_result(
                    old(self).code(),
                    b as int,
                    e as int,
                    n as nat,
                    old(self).state(),
                    old(self).n_callbacks(),
                ) == Err::<(MachineState, bool), VmError>(err),
            },
        decreases e - b, n as int + 1,
    {
        if n == 0 {
            return Ok(false);
        }
        match self.run_window(b, e) {
            Ok(true) => Ok(true),
            Ok(false) => self.run_iters(b, e, n - 1),
            Err(err) => Err(err),
        }
    }

    /// Pops the two topmost operands, applies the arithmetic opcode `op` to
    /// them, and pushes the result; underflow and faults as the model says.
    fn arith_step(&mut self, op: Opcode, pos: usize) -> (r: Result<(), VmError>)
        ensures
            final(self).code() == old(self).code(),
            final(self).vrefs() == old(self).vrefs(),
            final(self).imports() == old(self).imports(),
            final(self).cursor() == old(self).cursor(),
            ({
                let d = old(self).data();
                if d.len() < 2 {
                    r == Err::<(), VmError>(VmError::StackUnderflow { pos }) && final(self).data()
                        == d
                } else {
                    match arith_value(op, d[d.len() - 2], d.last()) {
                        Some(v) => r == Ok::<(), VmError>(()) && final(self).data()
                            == d.drop_last().drop_last().push(v),
                        None => r == Err::<(), VmError>(VmError::ArithmeticFault { pos })
                            && final(self).data() == d,
                    }
                }
            }),
    {
        let n = self.data.len();
        if n < 2 {
            return Err(VmError::StackUnderflow { pos });
        }
        let top = self.data[n - 1];
        let below = self.data[n - 2];
        match arith_exec(op, below, top) {
            Some(v) => {
                self.data.truncate(n - 2);
                self.data.push(v);
                proof {
                    assert(self.data@ =~= old(self).data@.drop_last().drop_last().push(v));
                }
                Ok(())
            },
            None => Err(VmError::ArithmeticFault { pos }),
        }
    }

    /// Collects the alphanumeric name bytes from `pos` up to the
    /// VREFNAMEEND marker, returning the name and the position after the
    /// marker; `None` on a stray byte or a missing marker.
    fn scan_name(&self, pos: usize, end: usize) -> (r: Option<(Vec<u8>, usize)>)
        requires
            pos <= end,
            end <= self.code().len(),
        ensures
            match r {
                Some(p) => {
                    &&& pos < p.1 <= end
                    &&& name_len(self.code(), pos as int, end as int) == Some((p.1 - pos - 1) as nat)
                    &&& p.0@ == self.code().subrange(pos as int, p.1 - 1)
                },
                None => name_len(self.code(), pos as int, end as int) is None,
            },
    {
        let mut cur: usize = pos;
        let mut acc: Vec<u8> = Vec::new();
        proof {
            assert(acc@ =~= self.code().subrange(pos as int, pos as int));
        }
        while cur < end
            invariant
                pos <= cur <= end,
                end <= self.code().len(),
                acc@ == self.code().subrange(pos as int, cur as int),
                (match name_len(self.code(), cur as int, end as int) {
                    Some(k) => name_len(self.code(), pos as int, end as int) == Some(
                        (k + cur - pos) as nat,
                    ),
                    None => name_len(self.code(), pos as int, end as int) is None,
                }),
            decreases end - cur,
        {
            let b = self.code[cur];
            if b == OP_VREFNAMEEND {
                return Some((acc, cur + 1));
            }
            if !name_byte(b) {
                return None;
            }
            acc.push(b);
            cur = cur + 1;
            proof {
                assert(acc@ =~= self.code().subrange(pos as int, cur as int));
            }
        }
        None
    }

    /// The position of the LOOPEND that closes a body starting at `pos`,
    /// scanning whole instructions and balancing nested LOOPN/LOOPEND pairs.
    fn find_loop_end(&self, pos: usize, end: usize) -> (r: Option<usize>)
        requires
            pos <= end,
            end <= self.code().len(),
        ensures
            match r {
                Some(q) => loop_end_pos(self.code(), pos as int, end as int, 0) == Some(q as int)
                    && pos <= q < end,
                None => loop_end_pos(self.code(), pos as int, end as int, 0) is None,
            },
    {
        let mut cur: usize = pos;
        let mut depth: usize = 0;
        while cur < end
            invariant
                pos <= cur <= end,
                end <= self.code().len(),
                2 * depth <= cur - pos,
                loop_end_pos(self.code(), pos as int, end as int, 0) == loop_end_pos(
                    self.code(),
                    cur as int,
                    end as int,
                    depth as nat,
                ),
            decreases end - cur,
        {
            let b = self.code[cur];
            match decode_opcode(b) {
                Some(Opcode::LoopEnd) => {
                    if depth == 0 {
                        return Some(cur);
                    }
                    depth = depth - 1;
                    cur = cur + 1;
                },
                Some(Opcode::LoopN) => {
                    if end - cur >= 2 {
                        depth = depth + 1;
                        cur = cur + 2;
                    } else {
                        return None;
                    }
                },
                Some(Opcode::Push) | Some(Opcode::Call) => {
                    if end - cur >= 2 {
                        cur = cur + 2;
                    } else {
                        return None;
                    }
                },
                Some(Opcode::VRefStart) => {
                    match self.scan_name(cur + 1, end) {
                        Some((_name, np)) => {
                            if end - np >= 2 {
                                proof {
                                    let k = (np - cur - 2) as nat;
                                    assert(name_len(self.code(), cur + 1, end as int) == Some(k));
                                    assert(cur + 4 + k == np + 2);
                                }
                                cur = np + 2;
                            } else {
                                return None;
                            }
                        },
                        None => {
                            return None;
                        },
                    }
                },
                Some(Opcode::Stop) | Some(Opcode::Pop) | Some(Opcode::Add) | Some(Opcode::Sub)
                | Some(Opcode::Mul) | Some(Opcode::Div) => {
                    cur = cur + 1;
                },
                Some(Opcode::VRefNameEnd) | Some(Opcode::VRefEnd) | None => {
                    return None;
                },
            }
        }
        None
    }
}

/// Applies an arithmetic opcode to operands `a` (below) and `b` (top).
fn arith_exec(op: Opcode, a: u32, b: u32) -> (r: Option<u32>)
    ensures
        r == arith_value(op, a, b),
{
    match op {
        Opcode::Add => a.checked_add(b),
        Opcode::Sub => a.checked_sub(b),
        Opcode::Mul => a.checked_mul(b),
        Opcode::Div => a.checked_div(b),
        _ => None,
    }
}

/// Whether two byte strings hold the same bytes.
fn bytes_equal(a: &Vec<u8>, b: &[u8]) -> (r: bool)
    ensures
        r == (a@ == b@),
{
    if a.len() != b.len() {
        proof {
            assert(a@ != b@);
        }
        return false;
    }
    let mut i: usize = 0;
    while i < a.len()
        invariant
            i <= a.len(),
            a@.len() == b@.len(),
            forall|j: int| 0 <= j < i ==> a@[j] == b@[j],
        decreases a.len() - i,
    {
        if a[i] != b[i] {
            return false;
        }
        i = i + 1;
    }
    proof {
        assert(a@ =~= b@);
    }
    true
}

} // verus!
