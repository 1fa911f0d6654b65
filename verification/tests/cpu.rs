use rust_boy::cpu::Cpu;
use rust_boy::memorymap::MemoryMap;
use rust_boy::registers::{FlagCond, IncDecReg, LoadReg, LoadRegnnn, StdReg};

fn fresh() -> Cpu {
    Cpu::load(MemoryMap::default())
}

fn reg_mut(cpu: &mut Cpu, reg: StdReg) -> &mut u8 {
    match reg {
        StdReg::A => &mut cpu.reg.a,
        StdReg::B => &mut cpu.reg.b,
        StdReg::C => &mut cpu.reg.c,
        StdReg::D => &mut cpu.reg.d,
        StdReg::E => &mut cpu.reg.e,
        StdReg::H => &mut cpu.reg.h,
        StdReg::L => &mut cpu.reg.l,
        StdReg::HL => panic!("not a register"),
    }
}

fn reg_of(cpu: &Cpu, reg: StdReg) -> u8 {
    match reg {
        StdReg::A => cpu.reg.a,
        StdReg::B => cpu.reg.b,
        StdReg::C => cpu.reg.c,
        StdReg::D => cpu.reg.d,
        StdReg::E => cpu.reg.e,
        StdReg::H => cpu.reg.h,
        StdReg::L => cpu.reg.l,
        StdReg::HL => panic!("not a register"),
    }
}

#[test]
fn nop() {
    let mut cpu = fresh();

    let pc1 = cpu.pc;
    let cycles = cpu.nop();
    let pc2 = cpu.pc;
    assert_eq!(pc2, pc1 + 1);
    assert_eq!(cycles, 4);
}

#[test]
fn rrca() {
    let mut cpu = fresh();

    cpu.reg.a = 0b0000_0001;
    let cycles = cpu.rrca();

    assert_eq!(cpu.reg.a, 0b1000_0000);
    assert_eq!(cpu.reg.is_c(), true);
    assert_eq!(cycles, 4);
}

#[test]
fn rr_n() {
    let mut cpu = fresh();

    for reg in [
        StdReg::A,
        StdReg::B,
        StdReg::C,
        StdReg::D,
        StdReg::E,
        StdReg::H,
        StdReg::L,
    ] {
        *reg_mut(&mut cpu, reg) = 0b0000_0001;
        assert_eq!(cpu.rr_n(reg), 4);
        assert_eq!(reg_of(&cpu, reg), 0b1000_0000);
        assert_eq!(cpu.reg.is_c(), true);
    }
}

#[test]
fn ret() {
    let mut cpu = fresh();

    let lo = 0x50;
    let hi = 0x80;

    cpu.push(lo, hi);
    let cycles = cpu.ret();

    assert_eq!(cpu.pc, 0x5080);
    assert_eq!(cycles, 16);
}

#[test]
fn ld_a_n() {
    let mut cpu = fresh();

    cpu.pc = 0x8050;
    cpu.reg.a = 0x00;
    cpu.reg.b = 0xFF;
    let cycles = cpu.ld_a_n(LoadReg::B);
    assert_eq!(cycles, 4);
    assert_eq!(cpu.reg.a, cpu.reg.b);
    assert_eq!(cpu.pc, 0x8051);

    cpu.reg.b = 0x80;
    cpu.reg.c = 0x80;
    cpu.mem.write_byte(0x8080, 0xFF).unwrap();
    cpu.reg.a = 0x00;
    let cycles = cpu.ld_a_n(LoadReg::MemBC);
    assert_eq!(cycles, 8);
    assert_eq!(cpu.reg.a, 0xFF);

    cpu.mem.write_byte(0x8080, 0xFF).unwrap();
    cpu.reg.a = 0x00;
    let cycles = cpu.ld_a_n(LoadReg::MemNN);
    assert_eq!(cycles, 16);
    assert_eq!(cpu.reg.a, 0x00);
}

#[test]
fn ld_n_nn() {
    let mut cpu = fresh();

    cpu.pc = 0x8200;
    cpu.mem.write_byte(cpu.pc + 1, 0xFF).unwrap();
    cpu.mem.write_byte(cpu.pc + 2, 0xAA).unwrap();
    assert_eq!(cpu.ld_n_nn(LoadRegnnn::BC), 3 * 4);
    assert_eq!(cpu.reg.get_bc(), 0xAAFF);
    cpu.pc = 0x8200;
    cpu.mem.write_byte(cpu.pc + 1, 0xFF).unwrap();
    cpu.mem.write_byte(cpu.pc + 2, 0xAA).unwrap();
    assert_eq!(cpu.ld_n_nn(LoadRegnnn::DE), 3 * 4);
    assert_eq!(cpu.reg.get_de(), 0xAAFF);
    cpu.pc = 0x8200;
    cpu.mem.write_byte(cpu.pc + 1, 0xFF).unwrap();
    cpu.mem.write_byte(cpu.pc + 2, 0xAA).unwrap();
    assert_eq!(cpu.ld_n_nn(LoadRegnnn::HL), 3 * 4);
    assert_eq!(cpu.reg.get_hl(), 0xAAFF);
    cpu.pc = 0x8200;
    cpu.mem.write_byte(cpu.pc + 1, 0xFF).unwrap();
    cpu.mem.write_byte(cpu.pc + 2, 0xAA).unwrap();
    assert_eq!(cpu.ld_n_nn(LoadRegnnn::SP), 3 * 4);
    assert_eq!(cpu.sp, 0xAAFF);
}

#[test]
fn ld_n_a() {
    let mut cpu = fresh();

    for reg in [
        LoadReg::A,
        LoadReg::B,
        LoadReg::C,
        LoadReg::D,
        LoadReg::E,
        LoadReg::H,
        LoadReg::L,
    ] {
        cpu.reg.a = 0xFF;
        cpu.reg.a = 0xDD;
        assert_eq!(cpu.ld_n_a(reg), 4);
        assert_eq!(cpu.reg.a, cpu.reg.a);
    }

    for (reg, cycles) in [
        (LoadReg::MemBC, 8),
        (LoadReg::MemDE, 8),
        (LoadReg::MemHL, 8),
        (LoadReg::MemNN, 16),
    ] {
        cpu.reg.a = 0xAA;
        match reg {
            LoadReg::MemBC => cpu.reg.set_bc(0x8100),
            LoadReg::MemDE => cpu.reg.set_de(0x8100),
            LoadReg::MemHL => cpu.reg.set_hl(0x8100),
            LoadReg::MemNN => {
                cpu.pc = 0x8500;
                cpu.mem.write_byte(cpu.pc + 1, 0x00).unwrap();
                cpu.mem.write_byte(cpu.pc + 2, 0x81).unwrap();
            }
            _ => cpu.reg.a = 0xAA,
        }
        cpu.mem.write_byte(0x8100, 0xAA).unwrap();
        assert_eq!(cpu.ld_n_a(reg), cycles);
        assert_eq!(cpu.mem.read_byte(0x8100).unwrap(), 0xAA);
    }
}

#[test]
fn ld_r_r() {
    let mut cpu = fresh();
    let regs = [
        StdReg::B,
        StdReg::C,
        StdReg::D,
        StdReg::E,
        StdReg::H,
        StdReg::L,
    ];

    for r1 in regs {
        for r2 in regs {
            *reg_mut(&mut cpu, r1) = 0xDD;
            *reg_mut(&mut cpu, r2) = 0xFF;
            assert_eq!(cpu.ld_r_r(r1, r2), 4);
            assert_eq!(reg_of(&cpu, r1), reg_of(&cpu, r2));
        }
    }

    for reg in [
        StdReg::B,
        StdReg::C,
        StdReg::D,
        StdReg::E,
        StdReg::L,
        StdReg::H,
    ] {
        *reg_mut(&mut cpu, reg) = 0xAA;
        cpu.reg.set_hl(0x8100);
        cpu.mem.write_byte(cpu.reg.get_hl(), 0xAA).unwrap();
        assert_eq!(cpu.ld_r_r(reg, StdReg::HL), 8);
        assert_eq!(reg_of(&cpu, reg), 0xAA);
    }

    for reg in [StdReg::B, StdReg::C, StdReg::D, StdReg::E] {
        *reg_mut(&mut cpu, reg) = 0xAA;
        cpu.reg.set_hl(0x8100);
        assert_eq!(cpu.ld_r_r(StdReg::HL, reg), 8);
        assert_eq!(cpu.mem.read_byte(0x8100).unwrap(), 0xAA);
    }
}

#[test]
fn dec_r() {
    let mut cpu = fresh();

    for reg in [
        StdReg::A,
        StdReg::B,
        StdReg::C,
        StdReg::D,
        StdReg::E,
        StdReg::H,
        StdReg::L,
    ] {
        cpu.reg.unset_z();
        cpu.reg.unset_h();
        cpu.reg.unset_n();
        *reg_mut(&mut cpu, reg) = 20;
        assert_eq!(cpu.dec_r(reg), 4);
        assert_eq!(reg_of(&cpu, reg), 19);
        assert_eq!(cpu.reg.is_z(), false);
        assert_eq!(cpu.reg.is_h(), false);
        assert_eq!(cpu.reg.is_n(), true);
    }

    cpu.reg.unset_z();
    cpu.reg.unset_h();
    cpu.reg.set_n();
    cpu.reg.a = 0x01;
    assert_eq!(cpu.dec_r(StdReg::A), 4);
    assert_eq!(cpu.reg.a, 0);
    assert_eq!(cpu.reg.is_z(), true);
    assert_eq!(cpu.reg.is_h(), false);
    assert_eq!(cpu.reg.is_n(), true);
}

#[test]
fn inc_reg() {
    let mut cpu = fresh();

    for (reg, inc) in [
        (StdReg::A, IncDecReg::A),
        (StdReg::B, IncDecReg::B),
        (StdReg::C, IncDecReg::C),
        (StdReg::D, IncDecReg::D),
        (StdReg::E, IncDecReg::E),
        (StdReg::H, IncDecReg::H),
        (StdReg::L, IncDecReg::L),
    ] {
        cpu.reg.unset_z();
        cpu.reg.unset_h();
        cpu.reg.set_n();
        *reg_mut(&mut cpu, reg) = 0b0000_1111;
        assert_eq!(cpu.inc_reg(inc), 4);
        assert_eq!(reg_of(&cpu, reg), 16);
        assert_eq!(cpu.reg.is_z(), false);
        assert_eq!(cpu.reg.is_h(), true);
        assert_eq!(cpu.reg.is_n(), false);
    }

    cpu.reg.unset_z();
    cpu.reg.unset_h();
    cpu.reg.set_n();
    cpu.reg.a = 0b1111_1111;
    assert_eq!(cpu.inc_reg(IncDecReg::A), 4);
    assert_eq!(cpu.reg.a, 0);
    assert_eq!(cpu.reg.is_z(), true);
    assert_eq!(cpu.reg.is_h(), true);
    assert_eq!(cpu.reg.is_n(), false);

    cpu.reg.set_bc(0x0FFF);
    assert_eq!(cpu.inc_reg(IncDecReg::BC), 8);
    assert_eq!(cpu.reg.get_bc(), 0x0FFF + 1);

    cpu.reg.set_hl(0x0FFF);
    assert_eq!(cpu.inc_reg(IncDecReg::HL), 8);
    assert_eq!(cpu.reg.get_hl(), 0x0FFF + 1);

    cpu.reg.set_de(0x0FFF);
    assert_eq!(cpu.inc_reg(IncDecReg::DE), 8);
    assert_eq!(cpu.reg.get_de(), 0x0FFF + 1);

    cpu.sp = 0x0FFF;
    assert_eq!(cpu.inc_reg(IncDecReg::SP), 8);
    assert_eq!(cpu.sp, 0x0FFF + 0x0001);
}

#[test]
fn ret_cc() {
    let mut cpu = fresh();

    let lo = 0x50;
    let hi = 0x80;
    cpu.push(lo, hi);

    cpu.pc = 0x0000;
    cpu.reg.set_z();
    let cycles = cpu.ret_cc(FlagCond::NZ);
    assert_eq!(cpu.pc, 0x0001);
    assert_eq!(cycles, 8);

    cpu.pc = 0x0000;
    cpu.reg.unset_z();
    let cycles = cpu.ret_cc(FlagCond::NZ);
    assert_eq!(cpu.pc, 0x5080);
    assert_eq!(cycles, 20);

    let lo = 0x50;
    let hi = 0x80;
    cpu.push(lo, hi);

    cpu.pc = 0x0000;
    cpu.reg.unset_z();
    let cycles = cpu.ret_cc(FlagCond::Z);
    assert_eq!(cpu.pc, 0x0001);
    assert_eq!(cycles, 8);

    cpu.pc = 0x0000;
    cpu.reg.set_z();
    let cycles = cpu.ret_cc(FlagCond::Z);
    assert_eq!(cpu.pc, 0x5080);
    assert_eq!(cycles, 20);

    let lo = 0x50;
    let hi = 0x80;
    cpu.push(lo, hi);

    cpu.pc = 0x0000;
    cpu.reg.set_c();
    let cycles = cpu.ret_cc(FlagCond::NC);
    assert_eq!(cpu.pc, 0x0001);
    assert_eq!(cycles, 8);

    cpu.pc = 0x0000;
    cpu.reg.unset_c();
    let cycles = cpu.ret_cc(FlagCond::NC);
    assert_eq!(cpu.pc, 0x5080);
    assert_eq!(cycles, 20);

    let lo = 0x50;
    let hi = 0x80;
    cpu.push(lo, hi);

    cpu.pc = 0x0000;
    cpu.reg.unset_c();
    let cycles = cpu.ret_cc(FlagCond::C);
    assert_eq!(cpu.pc, 0x0001);
    assert_eq!(cycles, 8);

    cpu.pc = 0x0000;
    cpu.reg.set_c();
    let cycles = cpu.ret_cc(FlagCond::C);
    assert_eq!(cpu.pc, 0x5080);
    assert_eq!(cycles, 20);
}

#[test]
fn pop_from_stack() {
    let mut cpu = fresh();

    let lo = 0xFF;
    let hi = 0xDD;

    let val = ((lo as u16) << 8) | hi as u16;

    cpu.push(lo, hi);
    let pop = cpu.pop();

    assert_eq!(pop, val);
}

#[test]
fn push_to_stack() {
    let mut cpu = fresh();

    let pc1 = cpu.mem.read_byte(cpu.pc).unwrap();
    let pc2 = cpu.mem.read_byte(cpu.pc + 1).unwrap();

    cpu.push(pc1, pc2);

    let sp1 = cpu.mem.read_byte(cpu.sp - 1).unwrap();
    let sp2 = cpu.mem.read_byte(cpu.sp - 2).unwrap();

    assert_eq!(pc1, sp1);
    assert_eq!(pc2, sp2);
}

#[test]
fn rst() {
    let mut cpu = fresh();

    assert_eq!(cpu.rst_00(), 16);
    assert_eq!(cpu.pc, 0x0000);
    assert_eq!(cpu.rst_08(), 16);
    assert_eq!(cpu.pc, 0x0008);
    assert_eq!(cpu.rst_10(), 16);
    assert_eq!(cpu.pc, 0x0010);
    assert_eq!(cpu.rst_18(), 16);
    assert_eq!(cpu.pc, 0x0018);
    assert_eq!(cpu.rst_20(), 16);
    assert_eq!(cpu.pc, 0x0020);
    assert_eq!(cpu.rst_28(), 16);
    assert_eq!(cpu.pc, 0x0028);
    assert_eq!(cpu.rst_30(), 16);
    assert_eq!(cpu.pc, 0x0030);
    assert_eq!(cpu.rst_38(), 16);
    assert_eq!(cpu.pc, 0x0038);
}

#[test]
fn call() {
    let mut cpu = fresh();

    cpu.pc = 0x8200;
    cpu.mem.write_byte(cpu.pc + 1, 0x88).unwrap();
    cpu.mem.write_byte(cpu.pc + 2, 0x99).unwrap();

    assert_eq!(cpu.call(), 24);
    assert_eq!(cpu.pc, 0x9988);
    assert_eq!(cpu.mem.read_byte(cpu.sp + 1).unwrap(), 0x82);
    assert_eq!(cpu.mem.read_byte(cpu.sp + 2).unwrap(), 0x00);
}

fn call_success(cpu: &mut Cpu, cond: FlagCond) {
    cpu.pc = 0x8200;
    cpu.sp = 0xDFFE;
    cpu.mem.write_byte(cpu.pc + 1, 0x88).unwrap();
    cpu.mem.write_byte(cpu.pc + 2, 0x99).unwrap();

    assert_eq!(cpu.call_cc(cond), 24);
    assert_eq!(cpu.pc, 0x9988);
    assert_eq!(cpu.mem.read_byte(cpu.sp + 1).unwrap(), 0x82);
    assert_eq!(cpu.mem.read_byte(cpu.sp + 2).unwrap(), 0x00);
}

fn call_fail(cpu: &mut Cpu) {
    cpu.pc = 0x8200;
    cpu.mem.write_byte(cpu.pc + 1, 0x88).unwrap();
    cpu.mem.write_byte(cpu.pc + 2, 0x99).unwrap();

    cpu.reg.unset_z();
    assert_eq!(cpu.call_cc(FlagCond::Z), 12);
    assert_eq!(cpu.pc, 0x8200 + 3);
}

#[test]
fn call_cc() {
    let mut cpu = fresh();

    cpu.reg.set_z();
    call_success(&mut cpu, FlagCond::Z);
    cpu.reg.unset_z();
    call_success(&mut cpu, FlagCond::NZ);
    cpu.reg.set_c();
    call_success(&mut cpu, FlagCond::C);
    cpu.reg.unset_c();
    call_success(&mut cpu, FlagCond::NC);

    cpu.reg.unset_z();
    call_fail(&mut cpu);
    cpu.reg.set_z();
    call_fail(&mut cpu);
    cpu.reg.unset_c();
    call_fail(&mut cpu);
    cpu.reg.set_c();
    call_fail(&mut cpu);
}

#[test]
fn cp_a_n() {
    let mut cpu = fresh();

    cpu.reg.unset_h();
    cpu.reg.unset_n();
    cpu.reg.a = 0b0001_0000;
    cpu.pc = 0x8100;
    cpu.mem.write_byte(cpu.pc + 0x0001, 0b0000_0001).unwrap();

    assert_eq!(cpu.cp_a_n(), 4);
    assert_eq!(cpu.reg.is_h(), true);
    assert_eq!(cpu.reg.is_n(), true);

    cpu.reg.unset_z();
    cpu.reg.unset_n();
    cpu.reg.a = 0b0000_0001;
    cpu.pc = 0x8100;
    cpu.mem.write_byte(cpu.pc + 0x0001, 0b0000_0001).unwrap();

    assert_eq!(cpu.cp_a_n(), 4);
    assert_eq!(cpu.reg.is_z(), true);
    assert_eq!(cpu.reg.is_n(), true);

    cpu.reg.unset_c();
    cpu.reg.unset_n();
    cpu.reg.a = 0b1000_0000;
    cpu.pc = 0x8100;
    cpu.mem.write_byte(cpu.pc + 0x0001, 0b1100_0000).unwrap();

    assert_eq!(cpu.cp_a_n(), 4);
    assert_eq!(cpu.reg.is_c(), true);
    assert_eq!(cpu.reg.is_n(), true);
}

#[test]
fn jr() {
    let mut cpu = fresh();

    let relative_amt: i16 = -0x000A;
    let amt = relative_amt.to_le_bytes();
    let pc = 0x8200;

    cpu.pc = pc;
    cpu.mem.write_byte(cpu.pc + 1, amt[0]).unwrap();
    cpu.mem.write_byte(cpu.pc + 2, amt[1]).unwrap();

    assert_eq!(cpu.jr(), 4 * 3);
    println!("{} {}", cpu.pc, pc);
    assert_eq!(cpu.pc, pc - 0x000A + 2);
}

#[test]
fn jr_cond() {
    let mut cpu = fresh();

    let relative_amt: i16 = -0x000A;
    let amt = relative_amt.to_le_bytes();
    let pc = 0x8200;

    cpu.pc = pc;
    cpu.mem.write_byte(cpu.pc + 1, amt[0]).unwrap();
    cpu.mem.write_byte(cpu.pc + 2, amt[1]).unwrap();

    cpu.reg.set_z();
    assert_eq!(cpu.jr_cond(FlagCond::NZ), 4 * 2);
    assert_eq!(cpu.pc, pc + 2);

    cpu.pc = pc;
    cpu.reg.unset_z();
    assert_eq!(cpu.jr_cond(FlagCond::NZ), 4 * 3);
    assert_eq!(cpu.pc, pc - 0x000A + 2);
}

#[test]
fn ld_mem_hl_a() {
    let mut cpu = fresh();

    cpu.reg.set_hl(0x8200);
    cpu.reg.a = 0xEE;

    assert_eq!(cpu.ld_mem_hl_a_dec(), 4 * 2);
    assert_eq!(cpu.mem.read_byte(cpu.reg.get_hl() + 1).unwrap(), 0xEE);
    assert_eq!(cpu.reg.get_hl(), 0x8200 - 1);

    cpu.reg.set_hl(0x8200);
    cpu.reg.a = 0xEE;

    assert_eq!(cpu.ld_mem_hl_a_inc(), 4 * 2);
    assert_eq!(cpu.mem.read_byte(cpu.reg.get_hl() - 1).unwrap(), 0xEE);
    assert_eq!(cpu.reg.get_hl(), 0x8200 + 1);
}
