use rust_boy::cpu::Cpu;
use rust_boy::memorymap::MemoryMap;
use rust_boy::registers::{FlagCond, IncDecReg, LoadReg, StdReg, StdRegN};

fn fresh() -> Cpu {
    Cpu::load(MemoryMap::default())
}

#[test]
fn load_starts_after_the_boot_rom() {
    let cpu = fresh();
    assert_eq!(cpu.pc, 0x0100);
    assert_eq!(cpu.sp, 0xFFFE);
    assert_eq!(cpu.reg.get_af(), 0x01B0);
    assert_eq!(cpu.reg.get_bc(), 0x0013);
    assert_eq!(cpu.reg.get_de(), 0x00D8);
    assert_eq!(cpu.reg.get_hl(), 0x014D);
    let expected: [(u16, u8); 31] = [
        (0xFF05, 0x00),
        (0xFF06, 0x00),
        (0xFF07, 0x00),
        (0xFF10, 0x80),
        (0xFF11, 0xBF),
        (0xFF12, 0xF3),
        (0xFF14, 0xBF),
        (0xFF16, 0x3F),
        (0xFF17, 0x00),
        (0xFF19, 0xBF),
        (0xFF1A, 0x7F),
        (0xFF1B, 0xFF),
        (0xFF1C, 0x9F),
        (0xFF1E, 0xBF),
        (0xFF20, 0xFF),
        (0xFF21, 0x00),
        (0xFF22, 0x00),
        (0xFF23, 0xBF),
        (0xFF24, 0x77),
        (0xFF25, 0xF3),
        (0xFF26, 0xF1),
        (0xFF40, 0x91),
        (0xFF42, 0x00),
        (0xFF43, 0x00),
        (0xFF45, 0x00),
        (0xFF47, 0xFC),
        (0xFF48, 0xFF),
        (0xFF49, 0xFF),
        (0xFF4A, 0x00),
        (0xFF4B, 0x00),
        (0xFFFF, 0x00),
    ];
    for (addr, value) in expected {
        assert_eq!(cpu.mem.read_byte(addr).unwrap(), value);
    }
}

#[test]
fn load_overwrites_the_io_registers_only() {
    let mut mem = MemoryMap::default();
    mem.write_byte(0xFF05, 0xEE).unwrap();
    mem.write_byte(0xFF13, 0xEE).unwrap();
    mem.write_byte(0xFFFF, 0xEE).unwrap();
    mem.write_byte(0x0100, 0xEE).unwrap();
    let cpu = Cpu::load(mem);
    assert_eq!(cpu.mem.read_byte(0xFF05).unwrap(), 0x00);
    assert_eq!(cpu.mem.read_byte(0xFF13).unwrap(), 0xEE);
    assert_eq!(cpu.mem.read_byte(0xFFFF).unwrap(), 0x00);
    assert_eq!(cpu.mem.read_byte(0x0100).unwrap(), 0xEE);
}

#[test]
fn snapshot_shows_the_bytes_at_the_program_counter() {
    let mut cpu = fresh();
    cpu.pc = 0xFFFE;
    cpu.sp = 0x1234;
    cpu.mem.write_byte(0xFFFE, 0x11).unwrap();
    cpu.mem.write_byte(0xFFFF, 0x22).unwrap();
    cpu.mem.write_byte(0x0000, 0x33).unwrap();
    cpu.mem.write_byte(0x0001, 0x44).unwrap();
    let d = cpu.get_cpu_data_debug();
    assert_eq!(d.a, 0x01);
    assert_eq!(d.f, 0xB0);
    assert_eq!(d.b, 0x00);
    assert_eq!(d.c, 0x13);
    assert_eq!(d.d, 0x00);
    assert_eq!(d.e, 0xD8);
    assert_eq!(d.h, 0x01);
    assert_eq!(d.l, 0x4D);
    assert_eq!(d.sp, 0x1234);
    assert_eq!(d.pc, 0xFFFE);
    assert_eq!(d.mem0, 0x11);
    assert_eq!(d.mem1, 0x22);
    assert_eq!(d.mem2, 0x33);
    assert_eq!(d.mem3, 0x44);
}

#[test]
fn di_and_ei_write_the_interrupt_enable_register() {
    let mut cpu = fresh();
    assert_eq!(cpu.ei(), 4);
    assert_eq!(cpu.mem.read_byte(0xFFFF).unwrap(), 0xFF);
    assert_eq!(cpu.pc, 0x0101);
    assert_eq!(cpu.di(), 4);
    assert_eq!(cpu.mem.read_byte(0xFFFF).unwrap(), 0x00);
    assert_eq!(cpu.pc, 0x0102);
}

#[test]
fn rrca_clears_the_other_flags() {
    let mut cpu = fresh();
    cpu.reg.f = 0xF0;
    cpu.reg.a = 0b0000_0010;
    assert_eq!(cpu.rrca(), 4);
    assert_eq!(cpu.reg.a, 0b0000_0001);
    assert_eq!(cpu.reg.f, 0x00);
    cpu.reg.a = 0b1000_0001;
    assert_eq!(cpu.rrca(), 4);
    assert_eq!(cpu.reg.a, 0b1100_0000);
    assert_eq!(cpu.reg.f, 0x10);
    assert_eq!(cpu.pc, 0x0102);
}

#[test]
fn rr_goes_through_the_carry() {
    let mut cpu = fresh();
    cpu.reg.f = 0x80;
    cpu.reg.b = 0b0000_0001;
    assert_eq!(cpu.rr_n(StdReg::B), 4);
    assert_eq!(cpu.reg.b, 0b0000_0000);
    assert_eq!(cpu.reg.f, 0x90);
    assert_eq!(cpu.rr_n(StdReg::B), 4);
    assert_eq!(cpu.reg.b, 0b1000_0000);
    assert_eq!(cpu.reg.f, 0x80);
    assert_eq!(cpu.pc, 0x0102);

    cpu.reg.set_hl(0xC000);
    cpu.mem.write_byte(0xC000, 0b0000_0110).unwrap();
    cpu.reg.set_c();
    assert_eq!(cpu.rr_n(StdReg::HL), 12);
    assert_eq!(cpu.mem.read_byte(0xC000).unwrap(), 0b1000_0011);
    assert_eq!(cpu.reg.is_c(), false);
}

#[test]
fn add_sets_and_clears_both_carries() {
    let mut cpu = fresh();
    cpu.reg.f = 0x00;
    cpu.reg.a = 0x0F;
    cpu.reg.b = 0x01;
    assert_eq!(cpu.add_a_r(StdReg::B), 4);
    assert_eq!(cpu.reg.a, 0x10);
    assert_eq!(cpu.reg.is_h(), true);
    assert_eq!(cpu.reg.is_c(), false);

    cpu.reg.a = 0xF0;
    cpu.reg.c = 0x20;
    assert_eq!(cpu.add_a_r(StdReg::C), 4);
    assert_eq!(cpu.reg.a, 0x10);
    assert_eq!(cpu.reg.is_h(), false);
    assert_eq!(cpu.reg.is_c(), true);

    cpu.reg.a = 0x01;
    cpu.reg.d = 0x01;
    assert_eq!(cpu.add_a_r(StdReg::D), 4);
    assert_eq!(cpu.reg.a, 0x02);
    assert_eq!(cpu.reg.f, 0x00);

    cpu.reg.f = 0xC0;
    cpu.reg.a = 0xFF;
    assert_eq!(cpu.add_a_r(StdReg::A), 4);
    assert_eq!(cpu.reg.a, 0xFE);
    assert_eq!(cpu.reg.f, 0xF0);
    assert_eq!(cpu.pc, 0x0104);
}

#[test]
fn add_takes_the_byte_at_hl() {
    let mut cpu = fresh();
    cpu.reg.set_hl(0xC123);
    cpu.mem.write_byte(0xC123, 0x22).unwrap();
    cpu.reg.a = 0x11;
    assert_eq!(cpu.add_a_r(StdReg::HL), 8);
    assert_eq!(cpu.reg.a, 0x33);
    assert_eq!(cpu.pc, 0x0101);
}

#[test]
fn adc_adds_the_carry() {
    let mut cpu = fresh();
    cpu.reg.f = 0x10;
    cpu.reg.a = 0x0F;
    cpu.reg.b = 0x00;
    assert_eq!(cpu.adc_a_n(StdRegN::B), 4);
    assert_eq!(cpu.reg.a, 0x10);
    assert_eq!(cpu.reg.is_h(), true);
    assert_eq!(cpu.reg.is_c(), false);

    cpu.reg.f = 0x10;
    cpu.reg.a = 0xFF;
    cpu.reg.c = 0x00;
    assert_eq!(cpu.adc_a_n(StdRegN::C), 4);
    assert_eq!(cpu.reg.a, 0x00);
    assert_eq!(cpu.reg.is_h(), true);
    assert_eq!(cpu.reg.is_c(), true);

    cpu.reg.f = 0x00;
    cpu.reg.a = 0x01;
    cpu.reg.d = 0x02;
    assert_eq!(cpu.adc_a_n(StdRegN::D), 4);
    assert_eq!(cpu.reg.a, 0x03);
    assert_eq!(cpu.reg.f, 0x00);
    assert_eq!(cpu.pc, 0x0103);
}

#[test]
fn adc_takes_memory_and_immediate_operands() {
    let mut cpu = fresh();
    cpu.reg.f = 0x10;
    cpu.reg.a = 0x01;
    cpu.reg.set_hl(0xC000);
    cpu.mem.write_byte(0xC000, 0x10).unwrap();
    assert_eq!(cpu.adc_a_n(StdRegN::HL), 8);
    assert_eq!(cpu.reg.a, 0x12);
    assert_eq!(cpu.pc, 0x0101);

    cpu.reg.f = 0x10;
    cpu.mem.write_byte(0x0102, 0x20).unwrap();
    assert_eq!(cpu.adc_a_n(StdRegN::N), 8);
    assert_eq!(cpu.reg.a, 0x33);
    assert_eq!(cpu.pc, 0x0103);
}

#[test]
fn or_and_xor_set_zero_on_the_result() {
    let mut cpu = fresh();
    cpu.reg.f = 0xF0;
    cpu.reg.a = 0x01;
    cpu.reg.b = 0x00;
    assert_eq!(cpu.or_a_r(StdReg::B), 4);
    assert_eq!(cpu.reg.a, 0x01);
    assert_eq!(cpu.reg.f, 0x00);

    cpu.reg.a = 0x00;
    assert_eq!(cpu.or_a_r(StdReg::B), 4);
    assert_eq!(cpu.reg.a, 0x00);
    assert_eq!(cpu.reg.f, 0x80);

    cpu.reg.a = 0xF0;
    cpu.reg.c = 0x0F;
    assert_eq!(cpu.or_a_r(StdReg::C), 4);
    assert_eq!(cpu.reg.a, 0xFF);
    assert_eq!(cpu.reg.f, 0x00);

    cpu.reg.f = 0x70;
    assert_eq!(cpu.xor_r(StdReg::A), 4);
    assert_eq!(cpu.reg.a, 0x00);
    assert_eq!(cpu.reg.f, 0x80);

    cpu.reg.a = 0b1010_1010;
    cpu.reg.d = 0b1111_0000;
    assert_eq!(cpu.xor_r(StdReg::D), 4);
    assert_eq!(cpu.reg.a, 0b0101_1010);
    assert_eq!(cpu.reg.f, 0x00);

    cpu.reg.set_hl(0xC000);
    cpu.mem.write_byte(0xC000, 0b0101_1010).unwrap();
    assert_eq!(cpu.xor_r(StdReg::HL), 8);
    assert_eq!(cpu.reg.a, 0x00);
    assert_eq!(cpu.reg.f, 0x80);
    cpu.mem.write_byte(0xC000, 0x0C).unwrap();
    assert_eq!(cpu.or_a_r(StdReg::HL), 8);
    assert_eq!(cpu.reg.a, 0x0C);
    assert_eq!(cpu.pc, 0x0107);
}

#[test]
fn compare_leaves_a_alone() {
    let mut cpu = fresh();
    cpu.reg.f = 0x00;
    cpu.reg.a = 0x10;
    cpu.reg.b = 0x20;
    assert_eq!(cpu.cp_a_r(StdReg::B), 4);
    assert_eq!(cpu.reg.a, 0x10);
    assert_eq!(cpu.reg.is_z(), false);
    assert_eq!(cpu.reg.is_n(), true);
    assert_eq!(cpu.reg.is_h(), false);
    assert_eq!(cpu.reg.is_c(), true);

    cpu.reg.c = 0x10;
    assert_eq!(cpu.cp_a_r(StdReg::C), 4);
    assert_eq!(cpu.reg.f, 0xC0);

    cpu.reg.d = 0x01;
    assert_eq!(cpu.cp_a_r(StdReg::D), 4);
    assert_eq!(cpu.reg.f, 0x60);

    assert_eq!(cpu.cp_a_r(StdReg::A), 4);
    assert_eq!(cpu.reg.f, 0xC0);

    cpu.reg.set_hl(0xC000);
    cpu.mem.write_byte(0xC000, 0x11).unwrap();
    assert_eq!(cpu.cp_a_r(StdReg::HL), 8);
    assert_eq!(cpu.reg.f, 0x70);
    assert_eq!(cpu.reg.a, 0x10);
    assert_eq!(cpu.pc, 0x0105);
}

#[test]
fn subtract_sets_the_flags_and_returns_the_difference() {
    let mut cpu = fresh();
    cpu.reg.f = 0x00;
    assert_eq!(cpu.substract_u8_from_u8(0x10, 0x01), 0x0F);
    assert_eq!(cpu.reg.f, 0x60);
    assert_eq!(cpu.substract_u8_from_u8(0x00, 0x01), 0xFF);
    assert_eq!(cpu.reg.f, 0x70);
    assert_eq!(cpu.substract_u8_from_u8(0x42, 0x42), 0x00);
    assert_eq!(cpu.reg.f, 0xC0);
    assert_eq!(cpu.pc, 0x0100);
}

#[test]
fn increment_leaves_the_carry_alone() {
    let mut cpu = fresh();
    cpu.reg.f = 0x10;
    cpu.reg.b = 0xFF;
    assert_eq!(cpu.inc_reg(IncDecReg::B), 4);
    assert_eq!(cpu.reg.b, 0x00);
    assert_eq!(cpu.reg.f, 0xB0);
    cpu.reg.f = 0x00;
    cpu.reg.b = 0x01;
    assert_eq!(cpu.inc_reg(IncDecReg::B), 4);
    assert_eq!(cpu.reg.f, 0x00);
}

#[test]
fn increment_of_the_byte_at_hl() {
    let mut cpu = fresh();
    cpu.reg.f = 0x50;
    cpu.reg.set_hl(0xC000);
    cpu.mem.write_byte(0xC000, 0xFF).unwrap();
    assert_eq!(cpu.inc_reg(IncDecReg::MemHL), 12);
    assert_eq!(cpu.mem.read_byte(0xC000).unwrap(), 0x00);
    assert_eq!(cpu.reg.f, 0xB0);
    assert_eq!(cpu.reg.get_hl(), 0xC000);
    assert_eq!(cpu.pc, 0x0101);

    assert_eq!(cpu.inc_reg(IncDecReg::MemHL), 12);
    assert_eq!(cpu.mem.read_byte(0xC000).unwrap(), 0x01);
    assert_eq!(cpu.reg.f, 0x10);
}

#[test]
fn sixteen_bit_increment_wraps_and_keeps_the_flags() {
    let mut cpu = fresh();
    cpu.reg.f = 0xF0;
    cpu.reg.set_hl(0xFFFF);
    assert_eq!(cpu.inc_reg(IncDecReg::HL), 8);
    assert_eq!(cpu.reg.get_hl(), 0x0000);
    cpu.reg.set_bc(0x00FF);
    assert_eq!(cpu.inc_reg(IncDecReg::BC), 8);
    assert_eq!(cpu.reg.get_bc(), 0x0100);
    cpu.sp = 0xFFFF;
    assert_eq!(cpu.inc_reg(IncDecReg::SP), 8);
    assert_eq!(cpu.sp, 0x0000);
    assert_eq!(cpu.reg.f, 0xF0);
    assert_eq!(cpu.pc, 0x0103);
}

#[test]
fn decrement_sets_half_carry_on_a_borrow() {
    let mut cpu = fresh();
    cpu.reg.f = 0x10;
    cpu.reg.c = 0x10;
    assert_eq!(cpu.dec_r(StdReg::C), 4);
    assert_eq!(cpu.reg.c, 0x0F);
    assert_eq!(cpu.reg.f, 0x70);
    cpu.reg.c = 0x00;
    assert_eq!(cpu.dec_r(StdReg::C), 4);
    assert_eq!(cpu.reg.c, 0xFF);
    assert_eq!(cpu.reg.f, 0x70);

    cpu.reg.set_hl(0xC000);
    cpu.mem.write_byte(0xC000, 0x01).unwrap();
    assert_eq!(cpu.dec_r(StdReg::HL), 12);
    assert_eq!(cpu.mem.read_byte(0xC000).unwrap(), 0x00);
    assert_eq!(cpu.reg.f, 0xD0);
    assert_eq!(cpu.pc, 0x0103);
}

#[test]
fn relative_jump_forward_and_round_the_end() {
    let mut cpu = fresh();
    cpu.pc = 0x8200;
    cpu.mem.write_byte(0x8201, 0x05).unwrap();
    assert_eq!(cpu.jr(), 12);
    assert_eq!(cpu.pc, 0x8207);

    cpu.pc = 0x0000;
    cpu.mem.write_byte(0x0001, 0x80).unwrap();
    assert_eq!(cpu.jr(), 12);
    assert_eq!(cpu.pc, 0xFF82);

    cpu.pc = 0xFFF0;
    cpu.mem.write_byte(0xFFF1, 0x7F).unwrap();
    assert_eq!(cpu.jr(), 12);
    assert_eq!(cpu.pc, 0x0071);

    cpu.pc = 0x8200;
    cpu.mem.write_byte(0x8201, 0xFE).unwrap();
    assert_eq!(cpu.jr(), 12);
    assert_eq!(cpu.pc, 0x8200);
}

#[test]
fn conditional_jump_on_carry() {
    let mut cpu = fresh();
    cpu.pc = 0x8200;
    cpu.mem.write_byte(0x8201, 0x10).unwrap();
    cpu.reg.f = 0x10;
    assert_eq!(cpu.jr_cond(FlagCond::C), 12);
    assert_eq!(cpu.pc, 0x8212);
    cpu.pc = 0x8200;
    assert_eq!(cpu.jr_cond(FlagCond::NC), 8);
    assert_eq!(cpu.pc, 0x8202);
    cpu.reg.f = 0x80;
    cpu.pc = 0x8200;
    assert_eq!(cpu.jr_cond(FlagCond::Z), 12);
    assert_eq!(cpu.pc, 0x8212);
}

#[test]
fn absolute_jump() {
    let mut cpu = fresh();
    cpu.mem.write_byte(0x0101, 0x50).unwrap();
    cpu.mem.write_byte(0x0102, 0x01).unwrap();
    assert_eq!(cpu.jp_nn(), 16);
    assert_eq!(cpu.pc, 0x0150);
}

#[test]
fn high_page_loads() {
    let mut cpu = fresh();
    cpu.reg.a = 0x5A;
    cpu.mem.write_byte(0x0101, 0x80).unwrap();
    assert_eq!(cpu.ld_ff00_a(), 12);
    assert_eq!(cpu.mem.read_byte(0xFF80).unwrap(), 0x5A);
    assert_eq!(cpu.pc, 0x0102);

    cpu.mem.write_byte(0x0103, 0xFE).unwrap();
    assert_eq!(cpu.ld_ff00_a(), 12);
    assert_eq!(cpu.mem.read_byte(0xFFFE).unwrap(), 0x5A);

    cpu.mem.write_byte(0x0105, 0xFF).unwrap();
    assert_eq!(cpu.ld_ff00_a(), 12);
    assert_eq!(cpu.mem.read_byte(0xFFFF).unwrap(), 0x00);
    assert_eq!(cpu.pc, 0x0106);

    cpu.mem.write_byte(0xFF10, 0x77).unwrap();
    cpu.mem.write_byte(0x0107, 0x10).unwrap();
    assert_eq!(cpu.ld_a_ff00(), 12);
    assert_eq!(cpu.reg.a, 0x77);

    cpu.mem.write_byte(0xFFFF, 0x99).unwrap();
    cpu.mem.write_byte(0x0109, 0xFF).unwrap();
    assert_eq!(cpu.ld_a_ff00(), 12);
    assert_eq!(cpu.reg.a, 0x77);
    assert_eq!(cpu.pc, 0x010A);
}

#[test]
fn load_between_a_and_the_other_registers() {
    let mut cpu = fresh();
    cpu.reg.a = 0x11;
    cpu.reg.h = 0x22;
    assert_eq!(cpu.ld_r_r(StdReg::A, StdReg::H), 4);
    assert_eq!(cpu.reg.a, 0x22);
    cpu.reg.a = 0x33;
    assert_eq!(cpu.ld_r_r(StdReg::E, StdReg::A), 4);
    assert_eq!(cpu.reg.e, 0x33);
    assert_eq!(cpu.pc, 0x0102);
}

#[test]
fn load_stores_l_at_hl() {
    let mut cpu = fresh();
    cpu.reg.a = 0x11;
    cpu.reg.set_hl(0xC0AB);
    assert_eq!(cpu.ld_r_r(StdReg::HL, StdReg::L), 8);
    assert_eq!(cpu.mem.read_byte(0xC0AB).unwrap(), 0xAB);
    assert_eq!(cpu.ld_r_r(StdReg::HL, StdReg::H), 8);
    assert_eq!(cpu.mem.read_byte(0xC0AB).unwrap(), 0xC0);
    assert_eq!(cpu.ld_r_r(StdReg::HL, StdReg::A), 8);
    assert_eq!(cpu.mem.read_byte(0xC0AB).unwrap(), 0x11);
    assert_eq!(cpu.pc, 0x0103);
}

#[test]
fn load_immediate_to_the_byte_at_hl() {
    let mut cpu = fresh();
    cpu.reg.set_hl(0xC000);
    cpu.mem.write_byte(0x0101, 0x5C).unwrap();
    assert_eq!(cpu.ld_r_r(StdReg::HL, StdReg::HL), 8);
    assert_eq!(cpu.mem.read_byte(0xC000).unwrap(), 0x5C);
    assert_eq!(cpu.pc, 0x0102);

    cpu.mem.write_byte(0x0103, 0x6D).unwrap();
    assert_eq!(cpu.ld_r_n(StdReg::HL), 12);
    assert_eq!(cpu.mem.read_byte(0xC000).unwrap(), 0x6D);
    assert_eq!(cpu.pc, 0x0104);
}

#[test]
fn load_immediate_to_a_register() {
    let mut cpu = fresh();
    cpu.mem.write_byte(0x0101, 0x42).unwrap();
    assert_eq!(cpu.ld_r_n(StdReg::C), 8);
    assert_eq!(cpu.reg.c, 0x42);
    assert_eq!(cpu.pc, 0x0102);
    cpu.mem.write_byte(0x0103, 0x43).unwrap();
    assert_eq!(cpu.ld_r_n(StdReg::A), 8);
    assert_eq!(cpu.reg.a, 0x43);
    cpu.mem.write_byte(0x0105, 0x44).unwrap();
    assert_eq!(cpu.ld_a_n(LoadReg::N), 8);
    assert_eq!(cpu.reg.a, 0x44);
    assert_eq!(cpu.pc, 0x0106);
}

#[test]
fn load_a_through_an_address() {
    let mut cpu = fresh();
    cpu.mem.write_byte(0x0101, 0x34).unwrap();
    cpu.mem.write_byte(0x0102, 0xC2).unwrap();
    cpu.mem.write_byte(0xC234, 0x99).unwrap();
    assert_eq!(cpu.ld_a_n(LoadReg::MemNN), 16);
    assert_eq!(cpu.reg.a, 0x99);
    assert_eq!(cpu.pc, 0x0103);

    cpu.reg.set_de(0xC234);
    cpu.reg.a = 0x00;
    assert_eq!(cpu.ld_a_n(LoadReg::MemDE), 8);
    assert_eq!(cpu.reg.a, 0x99);
    cpu.reg.set_hl(0xC234);
    cpu.reg.a = 0x00;
    assert_eq!(cpu.ld_a_n(LoadReg::MemHL), 8);
    assert_eq!(cpu.reg.a, 0x99);
    assert_eq!(cpu.pc, 0x0105);
}

#[test]
fn store_a_where_the_selector_says() {
    let mut cpu = fresh();
    cpu.reg.a = 0x77;
    assert_eq!(cpu.ld_n_a(LoadReg::B), 4);
    assert_eq!(cpu.reg.b, 0x77);
    assert_eq!(cpu.ld_n_a(LoadReg::L), 4);
    assert_eq!(cpu.reg.l, 0x77);
    assert_eq!(cpu.pc, 0x0102);

    cpu.mem.write_byte(0x0103, 0x00).unwrap();
    cpu.mem.write_byte(0x0104, 0xC1).unwrap();
    assert_eq!(cpu.ld_n_a(LoadReg::MemNN), 16);
    assert_eq!(cpu.mem.read_byte(0xC100).unwrap(), 0x77);
    assert_eq!(cpu.pc, 0x0105);

    let before = cpu.get_cpu_data_debug();
    assert_eq!(cpu.ld_n_a(LoadReg::N), 4);
    let after = cpu.get_cpu_data_debug();
    assert_eq!(after.pc, 0x0106);
    assert_eq!(after.a, before.a);
    assert_eq!(after.f, before.f);
    assert_eq!(after.sp, before.sp);
}

#[test]
fn load_with_increment_and_decrement() {
    let mut cpu = fresh();
    cpu.reg.set_hl(0xFFFF);
    cpu.mem.write_byte(0xFFFF, 0x3C).unwrap();
    assert_eq!(cpu.ldi_a_memhl(), 8);
    assert_eq!(cpu.reg.a, 0x3C);
    assert_eq!(cpu.reg.get_hl(), 0x0000);
    assert_eq!(cpu.pc, 0x0101);

    cpu.reg.a = 0x4D;
    assert_eq!(cpu.ld_mem_hl_a(), 8);
    assert_eq!(cpu.mem.read_byte(0x0000).unwrap(), 0x4D);
    assert_eq!(cpu.reg.get_hl(), 0x0000);
    assert_eq!(cpu.ld_mem_hl_a_dec(), 8);
    assert_eq!(cpu.reg.get_hl(), 0xFFFF);
    assert_eq!(cpu.ld_mem_hl_a_inc(), 8);
    assert_eq!(cpu.mem.read_byte(0xFFFF).unwrap(), 0x4D);
    assert_eq!(cpu.reg.get_hl(), 0x0000);
    assert_eq!(cpu.pc, 0x0104);
}

#[test]
fn restart_pushes_the_next_address() {
    let mut cpu = fresh();
    cpu.pc = 0x1234;
    assert_eq!(cpu.rst_08(), 16);
    assert_eq!(cpu.pc, 0x0008);
    assert_eq!(cpu.sp, 0xFFFC);
    assert_eq!(cpu.mem.read_byte(0xFFFD).unwrap(), 0x12);
    assert_eq!(cpu.mem.read_byte(0xFFFC).unwrap(), 0x35);
    assert_eq!(cpu.ret(), 16);
    assert_eq!(cpu.pc, 0x1235);
    assert_eq!(cpu.sp, 0xFFFE);

    cpu.pc = 0xFFFF;
    assert_eq!(cpu.rst(0x0038), 16);
    assert_eq!(cpu.pc, 0x0038);
    assert_eq!(cpu.pop(), 0x0000);
}

#[test]
fn push_and_pop_of_register_pairs() {
    let mut cpu = fresh();
    cpu.reg.set_bc(0x1234);
    assert_eq!(cpu.push_bc(), 16);
    assert_eq!(cpu.sp, 0xFFFC);
    assert_eq!(cpu.mem.read_byte(0xFFFD).unwrap(), 0x12);
    assert_eq!(cpu.mem.read_byte(0xFFFC).unwrap(), 0x34);
    assert_eq!(cpu.pop_de(), 12);
    assert_eq!(cpu.reg.get_de(), 0x1234);
    assert_eq!(cpu.sp, 0xFFFE);

    cpu.reg.set_hl(0xBEEF);
    assert_eq!(cpu.push_hl(), 16);
    assert_eq!(cpu.pop_bc(), 12);
    assert_eq!(cpu.reg.get_bc(), 0xBEEF);

    cpu.reg.set_de(0xCAFE);
    assert_eq!(cpu.push_de(), 16);
    assert_eq!(cpu.pop_hl(), 12);
    assert_eq!(cpu.reg.get_hl(), 0xCAFE);

    cpu.reg.set_af(0x12F0);
    assert_eq!(cpu.push_af(), 16);
    cpu.reg.set_af(0x0000);
    assert_eq!(cpu.pop_af(), 12);
    assert_eq!(cpu.reg.get_af(), 0x12F0);
    assert_eq!(cpu.pc, 0x0108);

    assert_eq!(cpu.push_rr(0xAB, 0xCD), 16);
    assert_eq!(cpu.pop(), 0xABCD);
    assert_eq!(cpu.pc, 0x0109);
}

#[test]
fn pop_af_drops_the_low_nibble_of_f() {
    let mut cpu = fresh();
    cpu.push(0x12, 0xFF);
    assert_eq!(cpu.pop_af(), 12);
    assert_eq!(cpu.reg.a, 0x12);
    assert_eq!(cpu.reg.f, 0xF0);
    cpu.push(0x34, 0x0F);
    assert_eq!(cpu.pop_af(), 12);
    assert_eq!(cpu.reg.get_af(), 0x3400);
}

#[test]
fn stack_wraps_round_the_address_space() {
    let mut cpu = fresh();
    cpu.sp = 0x0001;
    cpu.push(0xAA, 0xBB);
    assert_eq!(cpu.sp, 0xFFFF);
    assert_eq!(cpu.mem.read_byte(0x0000).unwrap(), 0xAA);
    assert_eq!(cpu.mem.read_byte(0xFFFF).unwrap(), 0xBB);
    assert_eq!(cpu.pop(), 0xAABB);
    assert_eq!(cpu.sp, 0x0001);
}

#[test]
fn conditional_return_with_the_high_byte_first() {
    let mut cpu = fresh();
    cpu.push(0x80, 0x50);

    cpu.pc = 0x0000;
    cpu.reg.set_z();
    assert_eq!(cpu.ret_cc(FlagCond::NZ), 8);
    assert_eq!(cpu.pc, 0x0001);
    assert_eq!(cpu.sp, 0xFFFC);

    cpu.reg.unset_z();
    assert_eq!(cpu.ret_cc(FlagCond::NZ), 20);
    assert_eq!(cpu.pc, 0x8050);
    assert_eq!(cpu.sp, 0xFFFE);
}

#[test]
fn call_and_return_round_trip() {
    let mut cpu = fresh();
    cpu.pc = 0x8200;
    cpu.mem.write_byte(0x8201, 0x88).unwrap();
    cpu.mem.write_byte(0x8202, 0x99).unwrap();
    assert_eq!(cpu.call(), 24);
    assert_eq!(cpu.pc, 0x9988);
    assert_eq!(cpu.sp, 0xFFFC);
    assert_eq!(cpu.mem.read_byte(0xFFFD).unwrap(), 0x82);
    assert_eq!(cpu.mem.read_byte(0xFFFC).unwrap(), 0x03);
    assert_eq!(cpu.ret(), 16);
    assert_eq!(cpu.pc, 0x8203);
    assert_eq!(cpu.sp, 0xFFFE);
}

#[test]
fn operands_are_read_after_the_opcode() {
    let mut cpu = fresh();
    cpu.mem.write_byte(0x0100, 0xEE).unwrap();
    cpu.mem.write_byte(0x0101, 0x12).unwrap();
    cpu.mem.write_byte(0x0102, 0x34).unwrap();
    assert_eq!(cpu.read_u8(), 0x12);
    assert_eq!(cpu.pc, 0x0102);
    cpu.pc = 0x0100;
    assert_eq!(cpu.read_u16(), 0x3412);
    assert_eq!(cpu.pc, 0x0103);
    cpu.pc = 0xFFFF;
    cpu.mem.write_byte(0x0000, 0x56).unwrap();
    cpu.mem.write_byte(0x0001, 0x78).unwrap();
    assert_eq!(cpu.read_u16(), 0x7856);
    assert_eq!(cpu.pc, 0x0002);
}

#[test]
fn snapshot_gives_the_pairs_and_the_flags() {
    let mut cpu = fresh();
    cpu.reg.set_bc(0x1234);
    cpu.reg.set_de(0x5678);
    cpu.reg.set_hl(0x9ABC);
    cpu.reg.set_af(0xDE50);
    let r = cpu.get_cpu_data_debug().registers();
    assert_eq!(r, cpu.reg);
    assert_eq!(r.get_af(), 0xDE50);
    assert_eq!(r.get_bc(), 0x1234);
    assert_eq!(r.get_de(), 0x5678);
    assert_eq!(r.get_hl(), 0x9ABC);
    assert_eq!(r.is_z(), false);
    assert_eq!(r.is_n(), true);
    assert_eq!(r.is_h(), false);
    assert_eq!(r.is_c(), true);
}
