//! The execution engine: fetches one opcode from an instruction stream,
//! dispatches it to its handler, mutates the register file and advances the
//! cycle counter by the instruction's fixed cost.

use vstd::prelude::*;

use crate::registers::{Reg16, Reg8, Registers};

verus! {

/// A decoded instruction descriptor.
#[derive(Clone, Copy, Debug, PartialEq, Eq, Structural)]
pub enum Instr {
    /// Increment the named 16-bit pair by one, wrapping at 0xFFFF. Takes no
    /// operand bytes and affects no flags.
    Inc16(Reg16),
}

/// Why a `step` could not run an instruction.
#[derive(Clone, Copy, Debug, PartialEq, Eq, Structural)]
pub enum StepError {
    /// The fetched byte has no registered handler; the byte is carried so
    /// the caller can surface it. Never silently ignored.
    UnimplementedOpcode(u8),
    /// The instruction stream was exhausted before the opcode byte could be
    /// fetched.
    OutOfBoundsFetch,
}

/// The dispatch table: which instruction, if any, an opcode byte names.
/// 0x03, 0x13, 0x23 and 0x33 are the 16-bit increments of BC, DE, HL and SP.
pub open spec fn spec_decode(op: u8) -> Option<Instr> {
    if op == 0x03 {
        Some(Instr::Inc16(Reg16::BC))
    } else if op == 0x13 {
        Some(Instr::Inc16(Reg16::DE))
    } else if op == 0x23 {
        Some(Instr::Inc16(Reg16::HL))
    } else if op == 0x33 {
        Some(Instr::Inc16(Reg16::SP))
    } else {
        None
    }
}

/// The fixed cycle cost of an instruction: a function of the instruction
/// alone, never of the operand values it meets.
pub open spec fn spec_cost(i: Instr) -> u64 {
    match i {
        Instr::Inc16(_) => 8,
    }
}

/// 16-bit increment with wraparound: addition modulo 2^16.
pub open spec fn wrap_inc(v: u16) -> u16 {
    ((v + 1) % 0x10000) as u16
}

/// The register file after instruction `i` runs on `regs`.
pub open spec fn spec_apply(regs: Registers, i: Instr) -> Registers {
    match i {
        Instr::Inc16(p) => regs.with16(p, wrap_inc(regs.reg16(p))),
    }
}

/// What one step on opcode `op` from register file `regs` yields: the new
/// register file and the cycle cost, or nothing when `op` has no handler.
pub open spec fn spec_step(regs: Registers, op: u8) -> Option<(Registers, u64)> {
    match spec_decode(op) {
        Some(i) => Some((spec_apply(regs, i), spec_cost(i))),
        None => None,
    }
}

/// Decodes one opcode byte by exact match against the dispatch table.
pub fn decode(op: u8) -> (r: Option<Instr>)
    ensures
        r == spec_decode(op),
{
    match op {
        0x03 => Some(Instr::Inc16(Reg16::BC)),
        0x13 => Some(Instr::Inc16(Reg16::DE)),
        0x23 => Some(Instr::Inc16(Reg16::HL)),
        0x33 => Some(Instr::Inc16(Reg16::SP)),
        _ => None,
    }
}

/// Reports the fixed cycle cost of a decoded instruction.
pub fn cycle_cost(i: Instr) -> (c: u64)
    ensures
        c == spec_cost(i),
{
    match i {
        Instr::Inc16(_) => 8,
    }
}

/// One CPU instance: the register file it owns and the monotone count of
/// clock cycles consumed since reset. The counter is mutated only by the
/// execution engine.
pub struct Cpu {
    pub regs: Registers,
    cycles: u64,
}

impl Cpu {
    /// Total clock cycles consumed since reset.
    pub closed spec fn spec_cycles(self) -> u64 {
        self.cycles
    }

    /// The register file this CPU owns, as the contracts see it.
    pub closed spec fn spec_regs(self) -> Registers {
        self.regs
    }

    /// A fresh CPU at reset: registers at their reset values, no cycles
    /// consumed yet.
    pub fn new() -> (cpu: Cpu)
        ensures
            cpu.spec_regs() == Registers::reset(),
            cpu.spec_cycles() == 0,
    {
        Cpu { regs: Registers::new(), cycles: 0 }
    }

    /// The running total of clock cycles consumed since reset.
    pub fn clock_cycles(&self) -> (n: u64)
        ensures
            n == self.spec_cycles(),
    {
        self.cycles
    }

    /// Runs one decoded instruction: applies its register effect, advances
    /// the cycle counter by its fixed cost, and returns that cost. The
    /// precondition only keeps the cycle counter inside its machine width.
    pub fn execute(&mut self, i: Instr) -> (c: u64)
        requires
            old(self).spec_cycles() + spec_cost(i) <= u64::MAX,
        ensures
            final(self).spec_regs() == spec_apply(old(self).spec_regs(), i),
            final(self).spec_cycles() == old(self).spec_cycles() + c,
            c == spec_cost(i),
    {
        let c: u64 = match i {
            Instr::Inc16(p) => {
                let v: u16 = self.regs.read16(p);
                let next: u16 = v.wrapping_add(1);
                proof {
                    if v < 0xffff {
                        vstd::arithmetic::div_mod::lemma_small_mod((v + 1) as nat, 0x10000nat);
                    }
                    assert(next == wrap_inc(v));
                }
                self.regs.write16(p, next);
                8
            },
        };
        self.cycles = self.cycles + c;
        c
    }

    /// Seeds or overwrites one 16-bit pair before or between instructions;
    /// the cycle counter is untouched.
    pub fn write16(&mut self, p: Reg16, v: u16)
        ensures
            final(self).spec_regs() == old(self).spec_regs().with16(p, v),
            final(self).spec_cycles() == old(self).spec_cycles(),
    {
        self.regs.write16(p, v);
    }

    /// Reads one 16-bit pair for post-execution inspection.
    pub fn read16(&self, p: Reg16) -> (v: u16)
        ensures
            v == self.spec_regs().reg16(p),
    {
        self.regs.read16(p)
    }

    /// Seeds or overwrites one 8-bit register; the cycle counter is
    /// untouched.
    pub fn write8(&mut self, r: Reg8, v: u8)
        ensures
            final(self).spec_regs() == old(self).spec_regs().with8(r, v),
            final(self).spec_cycles() == old(self).spec_cycles(),
    {
        self.regs.write8(r, v);
    }

    /// Reads one 8-bit register for post-execution inspection.
    pub fn read8(&self, r: Reg8) -> (v: u8)
        ensures
            v == self.spec_regs().reg8(r),
    {
        self.regs.read8(r)
    }

    /// Reads the flag register for post-execution inspection.
    pub fn flags(&self) -> (v: u8)
        ensures
            v == self.spec_regs().f,
    {
        self.regs.flags()
    }

    /// Fetches the opcode at offset `pc` of the instruction stream,
    /// dispatches it, applies its effects and returns its cycle cost.
    /// Succeeds exactly when the fetch is in bounds and the opcode has a
    /// handler; on an error nothing changes. The precondition only keeps
    /// the cycle counter inside its machine width.
    pub fn step(&mut self, code: &[u8], pc: usize) -> (r: Result<u64, StepError>)
        requires
            old(self).spec_cycles() + 8 <= u64::MAX,
        ensures
            (match r {
                Ok(c) => {
                    &&& pc < code@.len()
                    &&& spec_step(old(self).spec_regs(), code@[pc as int]) == Some(
                        (final(self).spec_regs(), c),
                    )
                    &&& final(self).spec_cycles() == old(self).spec_cycles() + c
                },
                Err(StepError::OutOfBoundsFetch) => {
                    &&& pc >= code@.len()
                    &&& *final(self) == *old(self)
                },
                Err(StepError::UnimplementedOpcode(op)) => {
                    &&& pc < code@.len()
                    &&& op == code@[pc as int]
                    &&& spec_step(old(self).spec_regs(), op) is None
                    &&& *final(self) == *old(self)
                },
            }),
    {
        if pc >= code.len() {
            return Err(StepError::OutOfBoundsFetch);
        }
        let op: u8 = code[pc];
        match decode(op) {
            Some(i) => {
                let c: u64 = self.execute(i);
                Ok(c)
            },
            None => Err(StepError::UnimplementedOpcode(op)),
        }
    }
}

/// Law: for every pair `p` and every preset value `v`, the INC16 opcode for
/// `p` steps the pair to `v` incremented modulo 2^16 and costs 8 cycles.
pub proof fn lemma_inc16_effect(regs: Registers, op: u8, p: Reg16, v: u16)
    requires
        spec_decode(op) == Some(Instr::Inc16(p)),
        regs.reg16(p) == v,
    ensures
        spec_step(regs, op) matches Some((after, c)) && after.reg16(p) == wrap_inc(v) && c == 8,
{
    crate::registers::lemma_write16_read16(regs, p, wrap_inc(v));
}

/// Law: a pair holding 0xFFFF wraps to 0x0000 under its INC16 opcode, and
/// the cost is still 8 cycles.
pub proof fn lemma_inc16_wraparound(regs: Registers, op: u8, p: Reg16)
    requires
        spec_decode(op) == Some(Instr::Inc16(p)),
        regs.reg16(p) == 0xffff,
    ensures
        spec_step(regs, op) matches Some((after, c)) && after.reg16(p) == 0 && c == 8,
{
    lemma_inc16_effect(regs, op, p, 0xffff);
}

/// Law: whether an opcode steps at all, and what it costs, is the same for
/// every register file: the cycle cost depends on the opcode alone.
pub proof fn lemma_cost_operand_independent(op: u8, r1: Registers, r2: Registers)
    ensures
        (spec_step(r1, op) is Some) == (spec_step(r2, op) is Some),
        spec_step(r1, op) matches Some((_, c1)) ==> (spec_step(r2, op) matches Some((_, c2))
            && c1 == c2),
{
}

/// Law: an INC16 step for pair `p` alters no pair other than `p`, nor the
/// accumulator, nor the flag register.
pub proof fn lemma_inc16_isolated(regs: Registers, op: u8, p: Reg16, q: Reg16)
    requires
        spec_decode(op) == Some(Instr::Inc16(p)),
        q != p,
    ensures
        spec_step(regs, op) matches Some((after, _)) && after.reg16(q) == regs.reg16(q)
            && after.a == regs.a && after.f == regs.f,
{
    crate::registers::lemma_write16_isolated(regs, p, wrap_inc(regs.reg16(p)), q);
}

} // verus!
