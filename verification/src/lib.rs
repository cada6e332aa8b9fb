//! The instruction-decode and register-state core of an 8-bit handheld-console
//! processor.
//!
//! * [`registers`]: the register file and the flag byte.
//! * [`instructions`]: the descriptor of each opcode, on the base page and
//!   behind the `0xCB` prefix.
//! * [`memory`]: the read-byte and write-byte capability that the processor
//!   works through.
//! * [`alu`]: what each arithmetic and logic operation computes.
//! * [`decode`]: fetching an opcode and its immediate operand.
//! * [`semantics`]: what each instruction does, as mathematics.
//! * [`cpu`]: the processor's state.
//! * [`execute`]: applying a decoded instruction, and stepping.
//! * [`interrupts`]: the processor's side of interrupt dispatch.
//!
//! A driver owns the loop: it calls [`execute::step`] once per instruction,
//! adds up the cycles that come back, and calls
//! [`interrupts::service_interrupt`] between instructions.

pub mod registers;
pub mod instructions;
pub mod memory;
pub mod alu;
pub mod decode;
pub mod semantics;
pub mod cpu;
pub mod execute;
pub mod interrupts;
