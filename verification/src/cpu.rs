//! The processor: the register file and the mode that lives beside it.

use vstd::prelude::*;
use crate::registers::{RegisterState, Registers};

verus! {

/// Mathematical model of the processor: the registers and the mode it is in.
pub struct CpuState {
    pub regs: RegisterState,
    pub halted: bool,
    pub stopped: bool,
    pub ime: bool,
    pub ime_pending: bool,
    pub halt_bug: bool,
}

/// The processor: the register file and the mode that lives beside it.
#[derive(Copy, Clone)]
pub struct CpuContext {
    pub regs: Registers,
    /// Set by HALT: the processor waits for an interrupt request.
    pub halted: bool,
    /// Set by STOP: the processor waits until the driver clears this.
    pub stopped: bool,
    /// The interrupt master enable.
    pub ime: bool,
    /// Set by EI: the interrupt master enable comes on once the next
    /// instruction has run.
    pub ime_pending: bool,
    /// Set by a HALT that did not take effect: the next fetch does not move
    /// the program counter past the opcode.
    pub halt_bug: bool,
}

impl View for CpuContext {
    type V = CpuState;

    open spec fn view(&self) -> CpuState {
        CpuState {
            regs: self.regs@,
            halted: self.halted,
            stopped: self.stopped,
            ime: self.ime,
            ime_pending: self.ime_pending,
            halt_bug: self.halt_bug,
        }
    }
}

impl CpuState {
    /// The processor as it stands once the boot program has run: running,
    /// with interrupts disabled.
    pub open spec fn power_on() -> CpuState {
        CpuState {
            regs: RegisterState::power_on(),
            halted: false,
            stopped: false,
            ime: false,
            ime_pending: false,
            halt_bug: false,
        }
    }
}

impl CpuContext {
    /// The processor as it stands once the boot program has run.
    pub fn new() -> (cpu: CpuContext)
        ensures
            cpu@ == CpuState::power_on(),
            cpu@.regs.wf(),
    {
        CpuContext {
            regs: Registers::new(),
            halted: false,
            stopped: false,
            ime: false,
            ime_pending: false,
            halt_bug: false,
        }
    }
}

} // verus!
