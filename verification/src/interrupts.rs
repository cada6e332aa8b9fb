//! The processor's side of interrupts: which lines are pending, which is
//! served first, and what serving it does. The enable byte is read at
//! `0xFFFF` and the request byte at `0xFF0F`; who sets the request bits is
//! not the processor's business.

use vstd::prelude::*;
use crate::cpu::{CpuContext, CpuState};
use crate::execute::push16;
use crate::memory::Mmu;
use crate::registers::{wrap16, RegType, RegisterState};
use crate::semantics::pushed16;

verus! {

/// The interrupt lines that are both requested, at `0xFF0F`, and enabled, at
/// `0xFFFF`; one bit for each of the five lines.
pub open spec fn pending_interrupts<M: Mmu>(m: M) -> u8 {
    m.peek(0xFFFF) & m.peek(0xFF0F) & 0x1F
}

/// Reads which interrupt lines are pending.
pub(crate) fn pending<M: Mmu>(mem: &M) -> (lines: u8)
    ensures
        lines == pending_interrupts(*mem),
{
    mem.read(0xFFFF) & mem.read(0xFF0F) & 0x1F
}

/// The number of the pending line that is served first: the lowest.
pub open spec fn first_line(pending: u8) -> u8 {
    if pending & 0x01 != 0 {
        0
    } else if pending & 0x02 != 0 {
        1
    } else if pending & 0x04 != 0 {
        2
    } else if pending & 0x08 != 0 {
        3
    } else {
        4
    }
}

/// The address of the handler of an interrupt line.
pub open spec fn handler(line: u8) -> u16 {
    (0x40 + 8 * line) as u16
}

/// What `service_interrupt` makes of the processor and memory, and the line
/// it served. Without a pending line nothing changes. A pending line wakes a
/// halted processor. Where the master enable is on, the first pending line is
/// served: its request bit is cleared, the master enable goes off, the
/// program counter is pushed and the handler entered. After a HALT that did
/// not take effect the program counter has not yet moved past the HALT, and
/// it is the address of the HALT that is pushed.
pub open spec fn serviced<M: Mmu>(c: CpuState, m: M) -> (CpuState, M, Option<u8>) {
    let lines = pending_interrupts(m);
    if lines == 0 {
        (c, m, None)
    } else if !c.ime {
        (CpuState { halted: false, ..c }, m, None)
    } else {
        let line = first_line(lines);
        let acknowledged = m.poke(0xFF0F, m.peek(0xFF0F) & !(1u8 << line));
        let resume = if c.halt_bug {
            wrap16(c.regs.pc - 1)
        } else {
            c.regs.pc
        };
        let (regs, mem) = pushed16(c.regs, acknowledged, resume);
        (
            CpuState {
                regs: RegisterState { pc: handler(line), ..regs },
                halted: false,
                ime: false,
                ime_pending: false,
                halt_bug: false,
                ..c
            },
            mem,
            Some(line),
        )
    }
}

/// The number of the lowest pending line.
fn lowest_line(lines: u8) -> (line: u8)
    ensures
        line == first_line(lines),
        line < 5,
{
    if lines & 0x01 != 0 {
        0
    } else if lines & 0x02 != 0 {
        1
    } else if lines & 0x04 != 0 {
        2
    } else if lines & 0x08 != 0 {
        3
    } else {
        4
    }
}

/// The processor's side of interrupt dispatch, for the driver to call
/// between instructions. Returns the line that was served, if one was.
pub fn service_interrupt<M: Mmu>(cpu: &mut CpuContext, mem: &mut M) -> (line: Option<u8>)
    ensures
        (final(cpu)@, *final(mem), line) == serviced(old(cpu)@, *old(mem)),
        old(cpu)@.regs.wf() ==> final(cpu)@.regs.wf(),
{
    let lines = pending(mem);
    if lines == 0 {
        return None;
    }
    cpu.halted = false;
    if !cpu.ime {
        return None;
    }
    let line = lowest_line(lines);
    let requests = mem.read(0xFF0F);
    mem.write(0xFF0F, requests & !(1u8 << line));
    let pc = cpu.regs.read(RegType::PC);
    let resume = if cpu.halt_bug {
        pc.wrapping_sub(1)
    } else {
        pc
    };
    push16(&mut cpu.regs, mem, resume);
    cpu.regs.write(RegType::PC, 0x40 + 8 * (line as u16));
    cpu.ime = false;
    cpu.ime_pending = false;
    cpu.halt_bug = false;
    Some(line)
}

} // verus!
