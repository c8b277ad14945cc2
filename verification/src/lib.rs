//! A verified core for a register- and memory-access facade around a
//! dynamically configured CPU emulation engine.
//!
//! The engine itself (instruction translation, fault delivery, the actual
//! register and memory storage) stays outside this crate; the modules here
//! hold the logic that can be stated and proved over plain values: the
//! register catalog and its name-driven resolution table, variable-width
//! register read/write planning, the hook-identifier codec and registry,
//! the permission translator, and the run-loop state machine.

pub mod emulator;
pub mod hooks;
pub mod memory;
pub mod perm;
pub mod registers;
pub mod resolve;
