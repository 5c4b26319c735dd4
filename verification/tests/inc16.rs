use cpu::engine::Cpu;
use cpu::registers::{Reg16, Reg8};

/// Seeds `reg` with `x`, runs the single opcode, and checks the stepped
/// value and the cycle cost.
fn test_inc16(opcode: u8, x: u16, reg: Reg16) -> bool {
    let mut cpu = Cpu::new();
    cpu.regs.write16(reg, x);
    let code = vec![opcode];
    let stepped = cpu.step(&code, 0);
    let expected: u16 = x.wrapping_add(1);
    stepped == Ok(8) && cpu.clock_cycles() == 8 && cpu.regs.read16(reg) == expected
}

#[test]
fn test_03_overflow() {
    assert!(test_inc16(0x03, 0xffff, Reg16::BC))
}

#[test]
fn test_13_overflow() {
    assert!(test_inc16(0x13, 0xffff, Reg16::DE))
}

#[test]
fn test_23_overflow() {
    assert!(test_inc16(0x23, 0xffff, Reg16::HL))
}

#[test]
fn test_33_overflow() {
    assert!(test_inc16(0x33, 0xffff, Reg16::SP))
}

#[test]
fn inc16_bc_all_values() {
    let mut x: u32 = 0;
    while x <= 0xffff {
        assert!(test_inc16(0x03, x as u16, Reg16::BC));
        x += 1;
    }
}

#[test]
fn inc16_de_all_values() {
    let mut x: u32 = 0;
    while x <= 0xffff {
        assert!(test_inc16(0x13, x as u16, Reg16::DE));
        x += 1;
    }
}

#[test]
fn inc16_hl_all_values() {
    let mut x: u32 = 0;
    while x <= 0xffff {
        assert!(test_inc16(0x23, x as u16, Reg16::HL));
        x += 1;
    }
}

#[test]
fn inc16_sp_all_values() {
    let mut x: u32 = 0;
    while x <= 0xffff {
        assert!(test_inc16(0x33, x as u16, Reg16::SP));
        x += 1;
    }
}

#[test]
fn scenario_inc_bc_carries_into_high_byte() {
    let mut cpu = Cpu::new();
    cpu.regs.write16(Reg16::BC, 0x00ff);
    let r = cpu.step(&vec![0x03], 0);
    assert_eq!(r, Ok(8));
    assert_eq!(cpu.regs.read16(Reg16::BC), 0x0100);
    assert_eq!(cpu.clock_cycles(), 8);
}

#[test]
fn scenario_inc_de_wraps_to_zero() {
    let mut cpu = Cpu::new();
    cpu.regs.write16(Reg16::DE, 0xffff);
    let r = cpu.step(&vec![0x13], 0);
    assert_eq!(r, Ok(8));
    assert_eq!(cpu.regs.read16(Reg16::DE), 0x0000);
    assert_eq!(cpu.clock_cycles(), 8);
}

#[test]
fn scenario_inc_hl_plain_value() {
    let mut cpu = Cpu::new();
    cpu.regs.write16(Reg16::HL, 0x1234);
    let r = cpu.step(&vec![0x23], 0);
    assert_eq!(r, Ok(8));
    assert_eq!(cpu.regs.read16(Reg16::HL), 0x1235);
    assert_eq!(cpu.clock_cycles(), 8);
}

#[test]
fn scenario_inc_sp_wraps_to_zero() {
    let mut cpu = Cpu::new();
    cpu.regs.write16(Reg16::SP, 0xffff);
    let r = cpu.step(&vec![0x33], 0);
    assert_eq!(r, Ok(8));
    assert_eq!(cpu.regs.read16(Reg16::SP), 0x0000);
    assert_eq!(cpu.clock_cycles(), 8);
}

#[test]
fn inc16_cost_ignores_operand_value() {
    let opcodes = [0x03u8, 0x13, 0x23, 0x33];
    let pairs = [Reg16::BC, Reg16::DE, Reg16::HL, Reg16::SP];
    let mut i: usize = 0;
    while i < 4 {
        let mut small = Cpu::new();
        small.regs.write16(pairs[i], 0x0005);
        let mut wrapping = Cpu::new();
        wrapping.regs.write16(pairs[i], 0xffff);
        assert_eq!(small.step(&vec![opcodes[i]], 0), Ok(8));
        assert_eq!(wrapping.step(&vec![opcodes[i]], 0), Ok(8));
        assert_eq!(small.clock_cycles(), wrapping.clock_cycles());
        i += 1;
    }
}

#[test]
fn inc16_leaves_other_state_alone() {
    let opcodes = [0x03u8, 0x13, 0x23, 0x33];
    let pairs = [Reg16::BC, Reg16::DE, Reg16::HL, Reg16::SP];
    let seeds = [0x1111u16, 0x2222, 0x3333, 0x4444];
    let mut i: usize = 0;
    while i < 4 {
        let mut cpu = Cpu::new();
        cpu.regs.write8(Reg8::A, 0x5a);
        let mut j: usize = 0;
        while j < 4 {
            cpu.regs.write16(pairs[j], seeds[j]);
            j += 1;
        }
        let flags_before = cpu.regs.flags();
        assert_eq!(cpu.step(&vec![opcodes[i]], 0), Ok(8));
        let mut k: usize = 0;
        while k < 4 {
            if k == i {
                assert_eq!(cpu.regs.read16(pairs[k]), seeds[k].wrapping_add(1));
            } else {
                assert_eq!(cpu.regs.read16(pairs[k]), seeds[k]);
            }
            k += 1;
        }
        assert_eq!(cpu.regs.read8(Reg8::A), 0x5a);
        assert_eq!(cpu.regs.flags(), flags_before);
        i += 1;
    }
}
