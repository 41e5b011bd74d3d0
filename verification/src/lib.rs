//! A minimal stack-based bytecode interpreter.
//!
//! A program is a flat byte sequence: opcode tags interleaved with their
//! operand bytes.  The machine executes it against a single operand stack of
//! unsigned 32-bit values, keeps a table of named references into that stack,
//! supports a bounded repeat-loop over a captured instruction window, and can
//! invoke host-registered callbacks by numeric id.  Every malformed encoding
//! or runtime fault aborts the run with a specific error.

pub mod machine;
pub mod model;
pub mod opcode;
pub mod properties;

pub use machine::{HostCallback, NoCallback, VM};
pub use model::VmError;
pub use opcode::{
    Opcode, OP_ADD, OP_CALL, OP_DIV, OP_LOOPEND, OP_LOOPN, OP_MUL, OP_POP, OP_PUSH, OP_STOP,
    OP_SUB, OP_VREFEND, OP_VREFNAMEEND, OP_VREFSTART,
};
