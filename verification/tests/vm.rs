use std::cell::Cell;
use std::rc::Rc;

use stackvm::{
    HostCallback, NoCallback, VmError, OP_ADD, OP_CALL, OP_DIV, OP_LOOPEND, OP_LOOPN, OP_MUL,
    OP_POP, OP_PUSH, OP_STOP, OP_SUB, OP_VREFEND, OP_VREFNAMEEND, OP_VREFSTART, VM,
};

/// A callback that counts how often it was invoked.
struct Counter {
    hits: Rc<Cell<u32>>,
}

impl HostCallback for Counter {
    fn invoke(&self) {
        self.hits.set(self.hits.get() + 1);
    }
}

fn run(code: Vec<u8>) -> (VM<NoCallback>, Result<(), VmError>) {
    let mut vm: VM<NoCallback> = VM::new(code, vec![]);
    let r = vm.execute();
    (vm, r)
}

#[test]
fn push_stop_leaves_single_value() {
    let (vm, r) = run(vec![OP_PUSH, 7, OP_STOP]);
    assert_eq!(r, Ok(()));
    assert_eq!(vm.data_peek(), vec![7u32]);
}

#[test]
fn push_zero_and_max_byte() {
    let (vm, r) = run(vec![OP_PUSH, 0, OP_PUSH, 255, OP_STOP]);
    assert_eq!(r, Ok(()));
    assert_eq!(vm.data_peek(), vec![0u32, 255u32]);
}

#[test]
fn add_two_bytes() {
    let (vm, r) = run(vec![OP_PUSH, 200, OP_PUSH, 255, OP_ADD, OP_STOP]);
    assert_eq!(r, Ok(()));
    assert_eq!(vm.data_peek(), vec![455u32]);
}

#[test]
fn sub_pops_top_from_below() {
    let (vm, r) = run(vec![OP_PUSH, 9, OP_PUSH, 4, OP_SUB, OP_STOP]);
    assert_eq!(r, Ok(()));
    assert_eq!(vm.data_peek(), vec![5u32]);
}

#[test]
fn sub_below_zero_faults() {
    let (_, r) = run(vec![OP_PUSH, 4, OP_PUSH, 9, OP_SUB, OP_STOP]);
    assert_eq!(r, Err(VmError::ArithmeticFault { pos: 4 }));
}

#[test]
fn mul_two_bytes() {
    let (vm, r) = run(vec![OP_PUSH, 255, OP_PUSH, 255, OP_MUL, OP_STOP]);
    assert_eq!(r, Ok(()));
    assert_eq!(vm.data_peek(), vec![65025u32]);
}

#[test]
fn div_truncates() {
    let (vm, r) = run(vec![OP_PUSH, 9, OP_PUSH, 2, OP_DIV, OP_STOP]);
    assert_eq!(r, Ok(()));
    assert_eq!(vm.data_peek(), vec![4u32]);
}

#[test]
fn div_by_zero_faults() {
    let (_, r) = run(vec![OP_PUSH, 9, OP_PUSH, 0, OP_DIV, OP_STOP]);
    assert_eq!(r, Err(VmError::ArithmeticFault { pos: 4 }));
}

#[test]
fn pop_discards_top() {
    let (vm, r) = run(vec![OP_PUSH, 1, OP_PUSH, 2, OP_POP, OP_STOP]);
    assert_eq!(r, Ok(()));
    assert_eq!(vm.data_peek(), vec![1u32]);
}

#[test]
fn pop_on_empty_stack_underflows() {
    let (_, r) = run(vec![OP_POP, OP_STOP]);
    assert_eq!(r, Err(VmError::StackUnderflow { pos: 0 }));
}

#[test]
fn arith_with_one_entry_underflows() {
    for op in [OP_ADD, OP_SUB, OP_MUL, OP_DIV] {
        let (_, r) = run(vec![OP_PUSH, 3, op, OP_STOP]);
        assert_eq!(r, Err(VmError::StackUnderflow { pos: 2 }));
    }
}

#[test]
fn data_pop_on_empty_machine_underflows() {
    let mut vm: VM<NoCallback> = VM::new(vec![OP_STOP], vec![]);
    assert_eq!(vm.data_pop(), Err(VmError::StackUnderflow { pos: 0 }));
}

#[test]
fn data_pop_returns_top() {
    let (mut vm, r) = run(vec![OP_PUSH, 1, OP_PUSH, 2, OP_STOP]);
    assert_eq!(r, Ok(()));
    assert_eq!(vm.data_pop(), Ok(2));
    assert_eq!(vm.data_pop(), Ok(1));
    assert!(vm.data_pop().is_err());
}

#[test]
fn declare_and_resolve_variable() {
    let (vm, r) = run(vec![
        OP_PUSH,
        42,
        OP_VREFSTART,
        b'x',
        OP_VREFNAMEEND,
        0,
        OP_VREFEND,
        OP_STOP,
    ]);
    assert_eq!(r, Ok(()));
    assert_eq!(vm.peek_var(b"x"), Ok(42));
}

#[test]
fn undeclared_name_is_unknown() {
    let (vm, r) = run(vec![OP_PUSH, 42, OP_STOP]);
    assert_eq!(r, Ok(()));
    assert_eq!(vm.peek_var(b"x"), Err(VmError::UnknownVariable));
}

#[test]
fn last_declaration_wins() {
    let (vm, r) = run(vec![
        OP_PUSH,
        10,
        OP_PUSH,
        20,
        OP_VREFSTART,
        b'x',
        OP_VREFNAMEEND,
        0,
        OP_VREFEND,
        OP_VREFSTART,
        b'x',
        OP_VREFNAMEEND,
        1,
        OP_VREFEND,
        OP_STOP,
    ]);
    assert_eq!(r, Ok(()));
    assert_eq!(vm.peek_var(b"x"), Ok(20));
}

#[test]
fn popped_slot_leaves_dangling_reference() {
    let (vm, r) = run(vec![
        OP_PUSH,
        42,
        OP_VREFSTART,
        b'x',
        OP_VREFNAMEEND,
        0,
        OP_VREFEND,
        OP_POP,
        OP_STOP,
    ]);
    assert_eq!(r, Ok(()));
    assert_eq!(vm.peek_var(b"x"), Err(VmError::DanglingReference));
}

#[test]
fn bad_name_byte_is_malformed() {
    let (_, r) = run(vec![
        OP_PUSH,
        1,
        OP_VREFSTART,
        b'!',
        OP_VREFNAMEEND,
        0,
        OP_VREFEND,
        OP_STOP,
    ]);
    assert_eq!(r, Err(VmError::StreamMalformed { pos: 2 }));
}

#[test]
fn missing_vrefend_is_malformed() {
    let (_, r) = run(vec![OP_PUSH, 1, OP_VREFSTART, b'x', OP_VREFNAMEEND, 0, OP_STOP]);
    assert_eq!(r, Err(VmError::StreamMalformed { pos: 2 }));
}

#[test]
fn loop_pushes_five_copies() {
    let (vm, r) = run(vec![OP_LOOPN, 5, OP_PUSH, 5, OP_LOOPEND, OP_STOP]);
    assert_eq!(r, Ok(()));
    assert_eq!(vm.data_peek(), vec![5u32; 5]);
}

#[test]
fn loop_grows_stack_by_exactly_count() {
    let (vm, r) = run(vec![OP_PUSH, 9, OP_LOOPN, 3, OP_PUSH, 1, OP_LOOPEND, OP_STOP]);
    assert_eq!(r, Ok(()));
    assert_eq!(vm.data_peek().len(), 1 + 3);
}

#[test]
fn loop_with_zero_count_runs_nothing() {
    let (vm, r) = run(vec![OP_LOOPN, 0, OP_PUSH, 5, OP_LOOPEND, OP_STOP]);
    assert_eq!(r, Ok(()));
    assert_eq!(vm.data_peek(), Vec::<u32>::new());
}

#[test]
fn nested_loops_multiply() {
    let (vm, r) = run(vec![
        OP_LOOPN,
        2,
        OP_LOOPN,
        3,
        OP_PUSH,
        1,
        OP_LOOPEND,
        OP_LOOPEND,
        OP_STOP,
    ]);
    assert_eq!(r, Ok(()));
    assert_eq!(vm.data_peek(), vec![1u32; 6]);
}

#[test]
fn loopend_value_as_push_literal_is_data() {
    // The literal pushed equals the LOOPEND tag; the capture scan must skip
    // operand bytes and find the structural terminator instead.
    let (vm, r) = run(vec![OP_LOOPN, 2, OP_PUSH, OP_LOOPEND, OP_LOOPEND, OP_STOP]);
    assert_eq!(r, Ok(()));
    assert_eq!(vm.data_peek(), vec![OP_LOOPEND as u32; 2]);
}

#[test]
fn missing_loopend_is_malformed() {
    let (_, r) = run(vec![OP_LOOPN, 2, OP_PUSH, 1, OP_STOP]);
    assert_eq!(r, Err(VmError::StreamMalformed { pos: 0 }));
}

#[test]
fn truncated_push_is_malformed() {
    let (_, r) = run(vec![OP_PUSH]);
    assert_eq!(r, Err(VmError::StreamMalformed { pos: 0 }));
}

#[test]
fn unknown_opcode_is_malformed() {
    let (_, r) = run(vec![OP_PUSH, 1, 200, OP_STOP]);
    assert_eq!(r, Err(VmError::StreamMalformed { pos: 2 }));
}

#[test]
fn stray_loopend_is_malformed() {
    let (_, r) = run(vec![OP_PUSH, 1, OP_LOOPEND, OP_STOP]);
    assert_eq!(r, Err(VmError::StreamMalformed { pos: 2 }));
}

#[test]
fn stop_halts_before_later_instructions() {
    let (vm, r) = run(vec![OP_PUSH, 1, OP_STOP, OP_PUSH, 2]);
    assert_eq!(r, Ok(()));
    assert_eq!(vm.data_peek(), vec![1u32]);
}

#[test]
fn run_without_stop_ends_at_stream_end() {
    let (vm, r) = run(vec![OP_PUSH, 3, OP_PUSH, 4]);
    assert_eq!(r, Ok(()));
    assert_eq!(vm.data_peek(), vec![3u32, 4u32]);
}

#[test]
fn callback_invoked_once_per_call() {
    let hits = Rc::new(Cell::new(0u32));
    let cb = Counter { hits: Rc::clone(&hits) };
    let mut vm = VM::new(vec![OP_CALL, 0, OP_CALL, 0, OP_STOP], vec![cb]);
    assert_eq!(vm.execute(), Ok(()));
    assert_eq!(hits.get(), 2);
}

#[test]
fn callback_in_loop_runs_each_iteration() {
    let hits = Rc::new(Cell::new(0u32));
    let cb = Counter { hits: Rc::clone(&hits) };
    let mut vm = VM::new(vec![OP_LOOPN, 4, OP_CALL, 0, OP_LOOPEND, OP_STOP], vec![cb]);
    assert_eq!(vm.execute(), Ok(()));
    assert_eq!(hits.get(), 4);
}

#[test]
fn call_ids_pick_callbacks_by_position() {
    let first = Rc::new(Cell::new(0u32));
    let second = Rc::new(Cell::new(0u32));
    let table = vec![
        Counter { hits: Rc::clone(&first) },
        Counter { hits: Rc::clone(&second) },
    ];
    let mut vm = VM::new(vec![OP_CALL, 0, OP_CALL, 1, OP_CALL, 1, OP_STOP], table);
    assert_eq!(vm.execute(), Ok(()));
    assert_eq!(first.get(), 1);
    assert_eq!(second.get(), 2);
}

#[test]
fn out_of_range_callback_id_fails_without_invoking() {
    let hits = Rc::new(Cell::new(0u32));
    let cb = Counter { hits: Rc::clone(&hits) };
    let mut vm = VM::new(vec![OP_CALL, 1, OP_STOP], vec![cb]);
    assert_eq!(vm.execute(), Err(VmError::UnknownCallback { pos: 0 }));
    assert_eq!(hits.get(), 0);
}

#[test]
fn call_with_empty_table_fails() {
    let (_, r) = run(vec![OP_CALL, 0, OP_STOP]);
    assert_eq!(r, Err(VmError::UnknownCallback { pos: 0 }));
}

#[test]
fn full_program_with_arithmetic_binding_and_loop() {
    let code = vec![
        OP_PUSH,
        6,
        OP_PUSH,
        8,
        OP_PUSH,
        2,
        OP_DIV,
        OP_ADD,
        OP_VREFSTART,
        b'g',
        b'l',
        b'o',
        b'b',
        b'a',
        b'l',
        OP_VREFNAMEEND,
        0,
        OP_VREFEND,
        OP_PUSH,
        15,
        OP_ADD,
        OP_LOOPN,
        5,
        OP_PUSH,
        5,
        OP_LOOPEND,
        OP_STOP,
    ];
    let (vm, r) = run(code);
    assert_eq!(r, Ok(()));
    assert_eq!(vm.data_peek(), vec![25, 5, 5, 5, 5, 5]);
    assert_eq!(vm.peek_var(b"global"), Ok(25));
}
