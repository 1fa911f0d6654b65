//! The processor: its state, one routine per instruction, and the
//! dispatcher that fetches an opcode and runs the routine bound to it.
//!
//! Each routine expects the program counter on its opcode, moves it past
//! the instruction (or to the jump target) and returns the cycles taken,
//! in T-states.

use vstd::prelude::*;
use crate::interrupts::INTERRUPT_ENABLE;
use crate::laws::lemma_step_keeps_sound;
use crate::memorymap::MemoryMap;
use crate::registers::{
    dec,
    decrement,
    high_byte,
    increment,
    join,
    lemma_flag_alone,
    lemma_low_nibble,
    low_byte,
    will_borrow,
    will_carry,
    will_half_carry,
    FlagCond,
    IncDecReg,
    LoadReg,
    LoadRegnnn,
    Registers,
    StdReg,
    StdRegN,
};
use crate::state::{flags_add, shifted_right, State, PREFIX};

verus! {

/// A snapshot of the processor for tracing: the registers, the stack
/// pointer, the program counter and the four bytes at the program
/// counter.
#[derive(Debug, Clone, Copy, PartialEq, Eq)]
pub struct CpuDataDebug {
    pub a: u8,
    pub f: u8,
    pub b: u8,
    pub c: u8,
    pub d: u8,
    pub e: u8,
    pub h: u8,
    pub l: u8,
    pub sp: u16,
    pub pc: u16,
    pub mem0: u8,
    pub mem1: u8,
    pub mem2: u8,
    pub mem3: u8,
}

impl CpuDataDebug {
    /// The register file of the snapshot, from which the pairs and the
    /// four flags can be read.
    pub fn registers(&self) -> (r: Registers)
        ensures
            r == (Registers {
                a: self.a,
                f: self.f,
                b: self.b,
                c: self.c,
                d: self.d,
                e: self.e,
                h: self.h,
                l: self.l,
            }),
    {
        Registers {
            a: self.a,
            f: self.f,
            b: self.b,
            c: self.c,
            d: self.d,
            e: self.e,
            h: self.h,
            l: self.l,
        }
    }
}

/// Why the processor stopped.
#[derive(Debug, Clone, Copy, PartialEq, Eq)]
pub enum CpuError {
    /// No instruction is bound to `opcode`, found at `pc`; for an
    /// extended opcode the prefix is at `pc` and `prefixed` is true.
    Unimplemented { prefixed: bool, opcode: u8, pc: u16 },
}

/// The processor and the memory it runs on.
pub struct Cpu {
    pub reg: Registers,
    pub sp: u16,
    pub pc: u16,
    pub mem: MemoryMap,
}

impl State {
    /// The error of a step on an opcode that has no instruction.
    pub open spec fn fault(self) -> CpuError {
        if self.byte(self.pc) == PREFIX {
            CpuError::Unimplemented { prefixed: true, opcode: self.imm8(), pc: self.pc }
        } else {
            CpuError::Unimplemented { prefixed: false, opcode: self.byte(self.pc), pc: self.pc }
        }
    }
}

impl View for Cpu {
    type V = State;

    open spec fn view(&self) -> State {
        State { reg: self.reg, sp: self.sp, pc: self.pc, mem: self.mem@ }
    }
}

/// `v` moved one bit to the right, with `top` coming in as bit 7.
fn shift_right_in(v: u8, top: bool) -> (r: u8)
    ensures
        r == shifted_right(v, top),
{
    assert((v >> 1) == v / 2 && ((v >> 1) | 0x80) == (v >> 1) + 128) by (bit_vector);
    if top {
        (v >> 1) | 0x80
    } else {
        v >> 1
    }
}

/// Whether bit 0 of `v` is set.
fn low_bit(v: u8) -> (r: bool)
    ensures
        r == (v % 2 == 1),
{
    assert(v & 0x01 == v % 2) by (bit_vector);
    v & 0x01 == 0x01
}

impl Cpu {
    /// The processor as the boot ROM leaves it, on the given memory: the
    /// I/O registers are set, `PC` is 0x0100 and `SP` is 0xFFFE.
    pub fn load(mem: MemoryMap) -> (cpu: Self)
        ensures
            cpu@ == State::power_on(mem@),
            cpu@.sound(),
    {
        let mut mem = mem;
        mem.write_byte(0xFF05, 0x00).unwrap();
        mem.write_byte(0xFF06, 0x00).unwrap();
        mem.write_byte(0xFF07, 0x00).unwrap();
        mem.write_byte(0xFF10, 0x80).unwrap();
        mem.write_byte(0xFF11, 0xBF).unwrap();
        mem.write_byte(0xFF12, 0xF3).unwrap();
        mem.write_byte(0xFF14, 0xBF).unwrap();
        mem.write_byte(0xFF16, 0x3F).unwrap();
        mem.write_byte(0xFF17, 0x00).unwrap();
        mem.write_byte(0xFF19, 0xBF).unwrap();
        mem.write_byte(0xFF1A, 0x7F).unwrap();
        mem.write_byte(0xFF1B, 0xFF).unwrap();
        mem.write_byte(0xFF1C, 0x9F).unwrap();
        mem.write_byte(0xFF1E, 0xBF).unwrap();
        mem.write_byte(0xFF20, 0xFF).unwrap();
        mem.write_byte(0xFF21, 0x00).unwrap();
        mem.write_byte(0xFF22, 0x00).unwrap();
        mem.write_byte(0xFF23, 0xBF).unwrap();
        mem.write_byte(0xFF24, 0x77).unwrap();
        mem.write_byte(0xFF25, 0xF3).unwrap();
        mem.write_byte(0xFF26, 0xF1).unwrap();
        mem.write_byte(0xFF40, 0x91).unwrap();
        mem.write_byte(0xFF42, 0x00).unwrap();
        mem.write_byte(0xFF43, 0x00).unwrap();
        mem.write_byte(0xFF45, 0x00).unwrap();
        mem.write_byte(0xFF47, 0xFC).unwrap();
        mem.write_byte(0xFF48, 0xFF).unwrap();
        mem.write_byte(0xFF49, 0xFF).unwrap();
        mem.write_byte(0xFF4A, 0x00).unwrap();
        mem.write_byte(0xFF4B, 0x00).unwrap();
        mem.write_byte(0xFFFF, 0x00).unwrap();
        proof {
            mem.lemma_len();
        }
        Self { reg: Registers::dmg0(), sp: 0xFFFE, pc: 0x0100, mem }
    }

    /// The registers, `SP`, `PC` and the four bytes from `PC` on, the
    /// addresses wrapping after 0xFFFF.
    pub fn get_cpu_data_debug(&self) -> (d: CpuDataDebug)
        ensures
            d == (CpuDataDebug {
                a: self.reg.a,
                f: self.reg.f,
                b: self.reg.b,
                c: self.reg.c,
                d: self.reg.d,
                e: self.reg.e,
                h: self.reg.h,
                l: self.reg.l,
                sp: self.sp,
                pc: self.pc,
                mem0: self@.byte(self.pc),
                mem1: self@.byte(self.pc.wrapping_add(1)),
                mem2: self@.byte(self.pc.wrapping_add(2)),
                mem3: self@.byte(self.pc.wrapping_add(3)),
            }),
    {
        CpuDataDebug {
            a: self.reg.a,
            f: self.reg.f,
            b: self.reg.b,
            c: self.reg.c,
            d: self.reg.d,
            e: self.reg.e,
            h: self.reg.h,
            l: self.reg.l,
            sp: self.sp,
            pc: self.pc,
            mem0: self.peek(self.pc),
            mem1: self.peek(self.pc.wrapping_add(1)),
            mem2: self.peek(self.pc.wrapping_add(2)),
            mem3: self.peek(self.pc.wrapping_add(3)),
        }
    }

    /// The byte at `addr`.
    fn peek(&self, addr: u16) -> (r: u8)
        ensures
            r == self@.byte(addr),
    {
        self.mem.read_byte(addr).unwrap()
    }

    /// Writes `v` at `addr`.
    fn poke(&mut self, addr: u16, v: u8)
        ensures
            final(self)@ == old(self)@.store(addr, v),
    {
        self.mem.write_byte(addr, v).unwrap();
    }

    /// The value that `r` selects.
    fn operand(&self, r: StdReg) -> (v: u8)
        ensures
            v == self@.operand(r),
    {
        match r {
            StdReg::A => self.reg.a,
            StdReg::B => self.reg.b,
            StdReg::C => self.reg.c,
            StdReg::D => self.reg.d,
            StdReg::E => self.reg.e,
            StdReg::H => self.reg.h,
            StdReg::L => self.reg.l,
            StdReg::HL => self.peek(self.reg.get_hl()),
        }
    }

    /// Puts `v` where `r` selects.
    fn set_operand(&mut self, r: StdReg, v: u8)
        ensures
            final(self)@ == old(self)@.with_operand(r, v),
    {
        match r {
            StdReg::A => self.reg.a = v,
            StdReg::B => self.reg.b = v,
            StdReg::C => self.reg.c = v,
            StdReg::D => self.reg.d = v,
            StdReg::E => self.reg.e = v,
            StdReg::H => self.reg.h = v,
            StdReg::L => self.reg.l = v,
            StdReg::HL => {
                let hl: u16 = self.reg.get_hl();
                self.poke(hl, v);
            },
        }
    }

    /// `NOP`: 4 cycles.
    pub fn nop(&mut self) -> (cycles: u8)
        ensures
            (final(self)@, cycles) == old(self)@.nop(),
    {
        self.pc = self.pc.wrapping_add(1);
        4
    }

    /// `DI`: 4 cycles.
    pub fn di(&mut self) -> (cycles: u8)
        ensures
            (final(self)@, cycles) == old(self)@.di(),
    {
        self.pc = self.pc.wrapping_add(1);
        self.poke(INTERRUPT_ENABLE, 0x00);
        4
    }

    /// `EI`: 4 cycles.
    pub fn ei(&mut self) -> (cycles: u8)
        ensures
            (final(self)@, cycles) == old(self)@.ei(),
    {
        self.pc = self.pc.wrapping_add(1);
        self.poke(INTERRUPT_ENABLE, 0xFF);
        4
    }

    /// `RRCA`: 4 cycles.
    pub fn rrca(&mut self) -> (cycles: u8)
        ensures
            (final(self)@, cycles) == old(self)@.rrca(),
    {
        let out: bool = low_bit(self.reg.a);
        self.reg.a = shift_right_in(self.reg.a, out);
        self.reg.unset_all_flags();
        if out {
            proof {
                lemma_flag_alone();
            }
            self.reg.set_c();
        }
        self.pc = self.pc.wrapping_add(1);
        4
    }

    /// `ADD A,r`: 4 cycles on a register, 8 on the byte at `HL`.
    pub fn add_a_r(&mut self, reg: StdReg) -> (cycles: u8)
        ensures
            (final(self)@, cycles) == old(self)@.add_a_r(reg),
    {
        let v: u8 = self.operand(reg);
        self.add_to_a(v, 0);
        self.pc = self.pc.wrapping_add(1);
        match reg {
            StdReg::HL => 8,
            _ => 4,
        }
    }

    /// `ADC A,r`: 4 cycles on a register, 8 on the byte at `HL` or on
    /// the byte after the opcode.
    pub fn adc_a_n(&mut self, reg: StdRegN) -> (cycles: u8)
        ensures
            (final(self)@, cycles) == old(self)@.adc_a_n(reg),
    {
        let carry: u8 = self.reg.get_carry();
        let v: u8 = match reg {
            StdRegN::A => self.reg.a,
            StdRegN::B => self.reg.b,
            StdRegN::C => self.reg.c,
            StdRegN::D => self.reg.d,
            StdRegN::E => self.reg.e,
            StdRegN::H => self.reg.h,
            StdRegN::L => self.reg.l,
            StdRegN::HL => self.peek(self.reg.get_hl()),
            StdRegN::N => self.peek(self.pc.wrapping_add(1)),
        };
        self.add_to_a(v, carry);
        match reg {
            StdRegN::N => {
                self.pc = self.pc.wrapping_add(2);
                8
            },
            StdRegN::HL => {
                self.pc = self.pc.wrapping_add(1);
                8
            },
            _ => {
                self.pc = self.pc.wrapping_add(1);
                4
            },
        }
    }

    /// Adds `v` and a carry-in of 0 or 1 to `A` and sets Half-carry and
    /// Carry as the sum has them.
    fn add_to_a(&mut self, v: u8, carry: u8)
        requires
            carry <= 1,
        ensures
            final(self)@ == old(self)@.with_reg(
                Registers {
                    a: old(self).reg.a.wrapping_add(v).wrapping_add(carry),
                    ..flags_add(old(self).reg, old(self).reg.a, v, carry)
                },
            ),
    {
        let a: u8 = self.reg.a;
        let sum: u8 = a.wrapping_add(v);
        let half: bool = will_half_carry(a, v) || will_half_carry(sum, carry);
        let full: bool = will_carry(a, v) || will_carry(sum, carry);
        proof {
            lemma_low_nibble(a);
            lemma_low_nibble(v);
        }
        if half {
            self.reg.set_h();
        } else {
            self.reg.unset_h();
        }
        if full {
            self.reg.set_c();
        } else {
            self.reg.unset_c();
        }
        self.reg.a = sum.wrapping_add(carry);
    }

    /// `INC` on whatever `reg` selects: 4 cycles on an 8-bit register, 8
    /// on a 16-bit register, 12 on the byte at `HL`.
    pub fn inc_reg(&mut self, reg: IncDecReg) -> (cycles: u8)
        ensures
            (final(self)@, cycles) == old(self)@.inc_reg(reg),
    {
        let cycles: u8 = match reg {
            IncDecReg::A => self.inc8(StdReg::A),
            IncDecReg::B => self.inc8(StdReg::B),
            IncDecReg::C => self.inc8(StdReg::C),
            IncDecReg::D => self.inc8(StdReg::D),
            IncDecReg::E => self.inc8(StdReg::E),
            IncDecReg::H => self.inc8(StdReg::H),
            IncDecReg::L => self.inc8(StdReg::L),
            IncDecReg::MemHL => self.inc8(StdReg::HL),
            IncDecReg::HL => {
                let hl: u16 = self.reg.get_hl();
                self.reg.set_hl(hl.wrapping_add(1));
                8
            },
            IncDecReg::BC => {
                let bc: u16 = self.reg.get_bc();
                self.reg.set_bc(bc.wrapping_add(1));
                8
            },
            IncDecReg::DE => {
                let de: u16 = self.reg.get_de();
                self.reg.set_de(de.wrapping_add(1));
                8
            },
            IncDecReg::SP => {
                self.sp = self.sp.wrapping_add(1);
                8
            },
        };
        self.pc = self.pc.wrapping_add(1);
        cycles
    }

    /// The 8-bit increment without the move of the program counter.
    fn inc8(&mut self, r: StdReg) -> (cycles: u8)
        ensures
            (final(self)@.advance(1), cycles) == old(self)@.inc8(r),
    {
        let v: u8 = self.operand(r);
        let (res, half) = increment(v);
        if half {
            self.reg.set_h();
        } else {
            self.reg.unset_h();
        }
        if res == 0x00 {
            self.reg.set_z();
        } else {
            self.reg.unset_z();
        }
        self.reg.unset_n();
        self.set_operand(r, res);
        match r {
            StdReg::HL => 12,
            _ => 4,
        }
    }

    /// Sets the flags of `value - amt` and returns the difference.
    pub fn substract_u8_from_u8(&mut self, value: u8, amt: u8) -> (v: u8)
        ensures
            (final(self)@, v) == old(self)@.substract_u8_from_u8(value, amt),
    {
        let (v, half) = dec(value, amt);
        if v == 0x00 {
            self.reg.set_z();
        } else {
            self.reg.unset_z();
        }
        if half {
            self.reg.set_h();
        } else {
            self.reg.unset_h();
        }
        if will_borrow(value, amt) {
            self.reg.set_c();
        } else {
            self.reg.unset_c();
        }
        self.reg.set_n();
        v
    }

    /// `DEC r`: 4 cycles on a register, 12 on the byte at `HL`.
    pub fn dec_r(&mut self, reg: StdReg) -> (cycles: u8)
        ensures
            (final(self)@, cycles) == old(self)@.dec_r(reg),
    {
        let v: u8 = self.operand(reg);
        let (res, half) = decrement(v);
        if half {
            self.reg.set_h();
        } else {
            self.reg.unset_h();
        }
        if res == 0x00 {
            self.reg.set_z();
        } else {
            self.reg.unset_z();
        }
        self.reg.set_n();
        self.set_operand(reg, res);
        self.pc = self.pc.wrapping_add(1);
        match reg {
            StdReg::HL => 12,
            _ => 4,
        }
    }

    /// `CP r`: 4 cycles on a register, 8 on the byte at `HL`.
    pub fn cp_a_r(&mut self, reg: StdReg) -> (cycles: u8)
        ensures
            (final(self)@, cycles) == old(self)@.cp_a_r(reg),
    {
        let v: u8 = self.operand(reg);
        let a: u8 = self.reg.a;
        self.substract_u8_from_u8(a, v);
        self.pc = self.pc.wrapping_add(1);
        match reg {
            StdReg::HL => 8,
            _ => 4,
        }
    }

    /// `CP n`: 4 cycles.
    pub fn cp_a_n(&mut self) -> (cycles: u8)
        ensures
            (final(self)@, cycles) == old(self)@.cp_a_n(),
    {
        let n: u8 = self.read_u8();
        let a: u8 = self.reg.a;
        self.substract_u8_from_u8(a, n);
        4
    }

    /// `JR d`: 12 cycles.
    pub fn jr(&mut self) -> (cycles: u8)
        ensures
            (final(self)@, cycles) == old(self)@.jr(),
    {
        let v: u8 = self.read_u8();
        if v >= 0x80 {
            let back: u16 = 256 - v as u16;
            self.pc = self.pc.wrapping_sub(back);
        } else {
            self.pc = self.pc.wrapping_add(v as u16);
        }
        12
    }

    /// `JR cc,d`: 12 cycles if the jump is taken, 8 if not.
    pub fn jr_cond(&mut self, cond: FlagCond) -> (cycles: u8)
        ensures
            (final(self)@, cycles) == old(self)@.jr_cond(cond),
    {
        if cond.check(self.reg.f) {
            self.jr()
        } else {
            self.pc = self.pc.wrapping_add(2);
            8
        }
    }

    /// `JP nn`: 16 cycles.
    pub fn jp_nn(&mut self) -> (cycles: u8)
        ensures
            (final(self)@, cycles) == old(self)@.jp_nn(),
    {
        let loc: u16 = self.read_u16();
        self.pc = loc;
        16
    }

    /// `OR r`: 4 cycles on a register, 8 on the byte at `HL`.
    pub fn or_a_r(&mut self, reg: StdReg) -> (cycles: u8)
        ensures
            (final(self)@, cycles) == old(self)@.or_a_r(reg),
    {
        let v: u8 = self.operand(reg);
        self.reg.a = self.reg.a | v;
        self.reg.unset_all_flags();
        if self.reg.a == 0x00 {
            proof {
                lemma_flag_alone();
            }
            self.reg.set_z();
        }
        self.pc = self.pc.wrapping_add(1);
        match reg {
            StdReg::HL => 8,
            _ => 4,
        }
    }

    /// `XOR r`: 4 cycles on a register, 8 on the byte at `HL`.
    pub fn xor_r(&mut self, reg: StdReg) -> (cycles: u8)
        ensures
            (final(self)@, cycles) == old(self)@.xor_r(reg),
    {
        let v: u8 = self.operand(reg);
        self.reg.a = self.reg.a ^ v;
        self.reg.unset_all_flags();
        if self.reg.a == 0x00 {
            proof {
                lemma_flag_alone();
            }
            self.reg.set_z();
        }
        self.pc = self.pc.wrapping_add(1);
        match reg {
            StdReg::HL => 8,
            _ => 4,
        }
    }

    /// `LDH (n),A`: 12 cycles.
    pub fn ld_ff00_a(&mut self) -> (cycles: u8)
        ensures
            (final(self)@, cycles) == old(self)@.ld_ff00_a(),
    {
        let n: u8 = self.read_u8();
        let b: u16 = 0xFF00 + n as u16;
        if 0xFF00 <= b && b < 0xFFFF {
            let a: u8 = self.reg.a;
            self.poke(b, a);
        }
        12
    }

    /// `LDH A,(n)`: 12 cycles.
    pub fn ld_a_ff00(&mut self) -> (cycles: u8)
        ensures
            (final(self)@, cycles) == old(self)@.ld_a_ff00(),
    {
        let n: u8 = self.read_u8();
        let b: u16 = 0xFF00 + n as u16;
        if 0xFF00 <= b && b < 0xFFFF {
            self.reg.a = self.peek(b);
        }
        12
    }

    /// `LD r1,r2`: 4 cycles between registers, 8 if either side is the
    /// byte at `HL`. With `HL` on both sides the byte after the opcode
    /// is stored at `HL`, in 8 cycles.
    pub fn ld_r_r(&mut self, r1: StdReg, r2: StdReg) -> (cycles: u8)
        ensures
            (final(self)@, cycles) == old(self)@.ld_r_r(r1, r2),
    {
        match (r1, r2) {
            (StdReg::HL, StdReg::HL) => {
                let n: u8 = self.read_u8();
                let hl: u16 = self.reg.get_hl();
                self.poke(hl, n);
                8
            },
            (StdReg::HL, _) => {
                let v: u8 = self.operand(r2);
                self.set_operand(r1, v);
                self.pc = self.pc.wrapping_add(1);
                8
            },
            (_, StdReg::HL) => {
                let v: u8 = self.operand(r2);
                self.set_operand(r1, v);
                self.pc = self.pc.wrapping_add(1);
                8
            },
            _ => {
                let v: u8 = self.operand(r2);
                self.set_operand(r1, v);
                self.pc = self.pc.wrapping_add(1);
                4
            },
        }
    }

    /// `LD A,(HL+)`: 8 cycles.
    pub fn ldi_a_memhl(&mut self) -> (cycles: u8)
        ensures
            (final(self)@, cycles) == old(self)@.ldi_a_memhl(),
    {
        let hl: u16 = self.reg.get_hl();
        self.reg.a = self.peek(hl);
        self.reg.set_hl(hl.wrapping_add(1));
        self.pc = self.pc.wrapping_add(1);
        8
    }

    /// `LD (HL),A`: 8 cycles.
    pub fn ld_mem_hl_a(&mut self) -> (cycles: u8)
        ensures
            (final(self)@, cycles) == old(self)@.ld_mem_hl_a(),
    {
        let hl: u16 = self.reg.get_hl();
        let a: u8 = self.reg.a;
        self.poke(hl, a);
        self.pc = self.pc.wrapping_add(1);
        8
    }

    /// `LD (HL-),A`: 8 cycles.
    pub fn ld_mem_hl_a_dec(&mut self) -> (cycles: u8)
        ensures
            (final(self)@, cycles) == old(self)@.ld_mem_hl_a_dec(),
    {
        let cycles: u8 = self.ld_mem_hl_a();
        let hl: u16 = self.reg.get_hl();
        self.reg.set_hl(hl.wrapping_sub(1));
        cycles
    }

    /// `LD (HL+),A`: 8 cycles.
    pub fn ld_mem_hl_a_inc(&mut self) -> (cycles: u8)
        ensures
            (final(self)@, cycles) == old(self)@.ld_mem_hl_a_inc(),
    {
        let cycles: u8 = self.ld_mem_hl_a();
        let hl: u16 = self.reg.get_hl();
        self.reg.set_hl(hl.wrapping_add(1));
        cycles
    }

    /// `LD A,x`: 4 cycles from a register, 8 from memory at a register
    /// pair or from the byte after the opcode, 16 from memory at the
    /// address after the opcode.
    pub fn ld_a_n(&mut self, reg: LoadReg) -> (cycles: u8)
        ensures
            (final(self)@, cycles) == old(self)@.ld_a_n(reg),
    {
        match reg {
            LoadReg::A => {
                self.pc = self.pc.wrapping_add(1);
                4
            },
            LoadReg::B => {
                self.reg.a = self.reg.b;
                self.pc = self.pc.wrapping_add(1);
                4
            },
            LoadReg::C => {
                self.reg.a = self.reg.c;
                self.pc = self.pc.wrapping_add(1);
                4
            },
            LoadReg::D => {
                self.reg.a = self.reg.d;
                self.pc = self.pc.wrapping_add(1);
                4
            },
            LoadReg::E => {
                self.reg.a = self.reg.e;
                self.pc = self.pc.wrapping_add(1);
                4
            },
            LoadReg::H => {
                self.reg.a = self.reg.h;
                self.pc = self.pc.wrapping_add(1);
                4
            },
            LoadReg::L => {
                self.reg.a = self.reg.l;
                self.pc = self.pc.wrapping_add(1);
                4
            },
            LoadReg::MemBC => {
                self.reg.a = self.peek(self.reg.get_bc());
                self.pc = self.pc.wrapping_add(1);
                8
            },
            LoadReg::MemDE => {
                self.reg.a = self.peek(self.reg.get_de());
                self.pc = self.pc.wrapping_add(1);
                8
            },
            LoadReg::MemHL => {
                self.reg.a = self.peek(self.reg.get_hl());
                self.pc = self.pc.wrapping_add(1);
                8
            },
            LoadReg::MemNN => {
                let loc: u16 = self.read_u16();
                self.reg.a = self.peek(loc);
                16
            },
            LoadReg::N => {
                self.reg.a = self.read_u8();
                8
            },
        }
    }

    /// `LD x,A`: 4 cycles into a register, 8 into memory at a register
    /// pair, 16 into memory at the address after the opcode.
    pub fn ld_n_a(&mut self, reg: LoadReg) -> (cycles: u8)
        ensures
            (final(self)@, cycles) == old(self)@.ld_n_a(reg),
    {
        let a: u8 = self.reg.a;
        match reg {
            LoadReg::A => {
                self.pc = self.pc.wrapping_add(1);
                4
            },
            LoadReg::B => {
                self.reg.b = a;
                self.pc = self.pc.wrapping_add(1);
                4
            },
            LoadReg::C => {
                self.reg.c = a;
                self.pc = self.pc.wrapping_add(1);
                4
            },
            LoadReg::D => {
                self.reg.d = a;
                self.pc = self.pc.wrapping_add(1);
                4
            },
            LoadReg::E => {
                self.reg.e = a;
                self.pc = self.pc.wrapping_add(1);
                4
            },
            LoadReg::H => {
                self.reg.h = a;
                self.pc = self.pc.wrapping_add(1);
                4
            },
            LoadReg::L => {
                self.reg.l = a;
                self.pc = self.pc.wrapping_add(1);
                4
            },
            LoadReg::MemBC => {
                let bc: u16 = self.reg.get_bc();
                self.poke(bc, a);
                self.pc = self.pc.wrapping_add(1);
                8
            },
            LoadReg::MemDE => {
                let de: u16 = self.reg.get_de();
                self.poke(de, a);
                self.pc = self.pc.wrapping_add(1);
                8
            },
            LoadReg::MemHL => {
                let hl: u16 = self.reg.get_hl();
                self.poke(hl, a);
                self.pc = self.pc.wrapping_add(1);
                8
            },
            LoadReg::MemNN => {
                let loc: u16 = self.read_u16();
                self.poke(loc, a);
                16
            },
            LoadReg::N => {
                self.pc = self.pc.wrapping_add(1);
                4
            },
        }
    }

    /// `LD rr,nn`: 12 cycles.
    pub fn ld_n_nn(&mut self, reg: LoadRegnnn) -> (cycles: u8)
        ensures
            (final(self)@, cycles) == old(self)@.ld_n_nn(reg),
    {
        let nn: u16 = self.read_u16();
        match reg {
            LoadRegnnn::BC => self.reg.set_bc(nn),
            LoadRegnnn::DE => self.reg.set_de(nn),
            LoadRegnnn::HL => self.reg.set_hl(nn),
            LoadRegnnn::SP => self.sp = nn,
        }
        12
    }

    /// `LD r,n`: 8 cycles into a register, 12 into the byte at `HL`.
    pub fn ld_r_n(&mut self, reg: StdReg) -> (cycles: u8)
        ensures
            (final(self)@, cycles) == old(self)@.ld_r_n(reg),
    {
        let n: u8 = self.read_u8();
        self.set_operand(reg, n);
        match reg {
            StdReg::HL => 12,
            _ => 8,
        }
    }

    /// `RST`: pushes the address of the next instruction and jumps to
    /// `pc`, in 16 cycles.
    pub fn rst(&mut self, pc: u16) -> (cycles: u8)
        ensures
            (final(self)@, cycles) == old(self)@.rst(pc),
    {
        let back: u16 = self.pc.wrapping_add(1);
        self.push(high_byte(back), low_byte(back));
        self.pc = pc;
        16
    }

    /// `RST 00H`.
    pub fn rst_00(&mut self) -> (cycles: u8)
        ensures
            (final(self)@, cycles) == old(self)@.rst(0x0000),
    {
        self.rst(0x0000)
    }

    /// `RST 08H`.
    pub fn rst_08(&mut self) -> (cycles: u8)
        ensures
            (final(self)@, cycles) == old(self)@.rst(0x0008),
    {
        self.rst(0x0008)
    }

    /// `RST 10H`.
    pub fn rst_10(&mut self) -> (cycles: u8)
        ensures
            (final(self)@, cycles) == old(self)@.rst(0x0010),
    {
        self.rst(0x0010)
    }

    /// `RST 18H`.
    pub fn rst_18(&mut self) -> (cycles: u8)
        ensures
            (final(self)@, cycles) == old(self)@.rst(0x0018),
    {
        self.rst(0x0018)
    }

    /// `RST 20H`.
    pub fn rst_20(&mut self) -> (cycles: u8)
        ensures
            (final(self)@, cycles) == old(self)@.rst(0x0020),
    {
        self.rst(0x0020)
    }

    /// `RST 28H`.
    pub fn rst_28(&mut self) -> (cycles: u8)
        ensures
            (final(self)@, cycles) == old(self)@.rst(0x0028),
    {
        self.rst(0x0028)
    }

    /// `RST 30H`.
    pub fn rst_30(&mut self) -> (cycles: u8)
        ensures
            (final(self)@, cycles) == old(self)@.rst(0x0030),
    {
        self.rst(0x0030)
    }

    /// `RST 38H`.
    pub fn rst_38(&mut self) -> (cycles: u8)
        ensures
            (final(self)@, cycles) == old(self)@.rst(0x0038),
    {
        self.rst(0x0038)
    }

    /// `RR r`: 4 cycles on a register, 12 on the byte at `HL`.
    pub fn rr_n(&mut self, reg: StdReg) -> (cycles: u8)
        ensures
            (final(self)@, cycles) == old(self)@.rr_n(reg),
    {
        let v: u8 = self.operand(reg);
        let res: u8 = shift_right_in(v, self.reg.is_c());
        self.set_operand(reg, res);
        if low_bit(v) {
            self.reg.set_c();
        } else {
            self.reg.unset_c();
        }
        self.pc = self.pc.wrapping_add(1);
        match reg {
            StdReg::HL => 12,
            _ => 4,
        }
    }

    /// Takes the 16-bit value off the top of the stack: the low byte
    /// from `SP`, the high byte from `SP + 1`.
    pub fn pop(&mut self) -> (v: u16)
        ensures
            (final(self)@, v) == old(self)@.pop(),
    {
        let lo: u8 = self.peek(self.sp);
        self.sp = self.sp.wrapping_add(1);
        let hi: u8 = self.peek(self.sp);
        self.sp = self.sp.wrapping_add(1);
        join(hi, lo)
    }

    /// `POP BC`: 12 cycles.
    pub fn pop_bc(&mut self) -> (cycles: u8)
        ensures
            (final(self)@, cycles) == old(self)@.pop_bc(),
    {
        let v: u16 = self.pop();
        self.reg.set_bc(v);
        self.pc = self.pc.wrapping_add(1);
        12
    }

    /// `POP DE`: 12 cycles.
    pub fn pop_de(&mut self) -> (cycles: u8)
        ensures
            (final(self)@, cycles) == old(self)@.pop_de(),
    {
        let v: u16 = self.pop();
        self.reg.set_de(v);
        self.pc = self.pc.wrapping_add(1);
        12
    }

    /// `POP AF`: 12 cycles.
    pub fn pop_af(&mut self) -> (cycles: u8)
        ensures
            (final(self)@, cycles) == old(self)@.pop_af(),
    {
        let v: u16 = self.pop();
        self.reg.set_af(v);
        self.pc = self.pc.wrapping_add(1);
        12
    }

    /// `POP HL`: 12 cycles.
    pub fn pop_hl(&mut self) -> (cycles: u8)
        ensures
            (final(self)@, cycles) == old(self)@.pop_hl(),
    {
        let v: u16 = self.pop();
        self.reg.set_hl(v);
        self.pc = self.pc.wrapping_add(1);
        12
    }

    /// Pushes two bytes: `hi` goes to `SP - 1` and `lo` to `SP - 2`.
    pub fn push(&mut self, hi: u8, lo: u8)
        ensures
            final(self)@ == old(self)@.push(hi, lo),
    {
        self.sp = self.sp.wrapping_sub(1);
        self.poke(self.sp, hi);
        self.sp = self.sp.wrapping_sub(1);
        self.poke(self.sp, lo);
    }

    /// `PUSH rr` of the pair made of `hi` and `lo`: 16 cycles.
    pub fn push_rr(&mut self, hi: u8, lo: u8) -> (cycles: u8)
        ensures
            (final(self)@, cycles) == old(self)@.push_rr(hi, lo),
    {
        self.push(hi, lo);
        self.pc = self.pc.wrapping_add(1);
        16
    }

    /// `PUSH BC`.
    pub fn push_bc(&mut self) -> (cycles: u8)
        ensures
            (final(self)@, cycles) == old(self)@.push_rr(old(self).reg.b, old(self).reg.c),
    {
        self.push_rr(self.reg.b, self.reg.c)
    }

    /// `PUSH DE`.
    pub fn push_de(&mut self) -> (cycles: u8)
        ensures
            (final(self)@, cycles) == old(self)@.push_rr(old(self).reg.d, old(self).reg.e),
    {
        self.push_rr(self.reg.d, self.reg.e)
    }

    /// `PUSH HL`.
    pub fn push_hl(&mut self) -> (cycles: u8)
        ensures
            (final(self)@, cycles) == old(self)@.push_rr(old(self).reg.h, old(self).reg.l),
    {
        self.push_rr(self.reg.h, self.reg.l)
    }

    /// `PUSH AF`.
    pub fn push_af(&mut self) -> (cycles: u8)
        ensures
            (final(self)@, cycles) == old(self)@.push_rr(old(self).reg.a, old(self).reg.f),
    {
        self.push_rr(self.reg.a, self.reg.f)
    }

    /// Reads the byte after the opcode and moves the program counter
    /// past both.
    pub fn read_u8(&mut self) -> (b: u8)
        ensures
            (final(self)@, b) == old(self)@.read_u8(),
    {
        self.pc = self.pc.wrapping_add(1);
        let b: u8 = self.peek(self.pc);
        self.pc = self.pc.wrapping_add(1);
        b
    }

    /// Reads the two bytes after the opcode, low byte first, and moves
    /// the program counter past all three.
    pub fn read_u16(&mut self) -> (v: u16)
        ensures
            (final(self)@, v) == old(self)@.read_u16(),
    {
        self.pc = self.pc.wrapping_add(1);
        let low: u8 = self.peek(self.pc);
        self.pc = self.pc.wrapping_add(1);
        let high: u8 = self.peek(self.pc);
        self.pc = self.pc.wrapping_add(1);
        self.reg.get_nn(low, high)
    }

    /// `RET`: 16 cycles.
    pub fn ret(&mut self) -> (cycles: u8)
        ensures
            (final(self)@, cycles) == old(self)@.ret(),
    {
        self.pc = self.pop();
        16
    }

    /// `RET cc`: 20 cycles if it returns, 8 if not.
    pub fn ret_cc(&mut self, cond: FlagCond) -> (cycles: u8)
        ensures
            (final(self)@, cycles) == old(self)@.ret_cc(cond),
    {
        if cond.check(self.reg.f) {
            self.pc = self.pop();
            20
        } else {
            self.pc = self.pc.wrapping_add(1);
            8
        }
    }

    /// `CALL cc,nn`: 24 cycles if it calls, 12 if not.
    pub fn call_cc(&mut self, cond: FlagCond) -> (cycles: u8)
        ensures
            (final(self)@, cycles) == old(self)@.call_cc(cond),
    {
        if cond.check(self.reg.f) {
            self.call()
        } else {
            self.pc = self.pc.wrapping_add(3);
            12
        }
    }

    /// `CALL nn`: 24 cycles.
    pub fn call(&mut self) -> (cycles: u8)
        ensures
            (final(self)@, cycles) == old(self)@.call(),
    {
        let jp: u16 = self.read_u16();
        self.push(high_byte(self.pc), low_byte(self.pc));
        self.pc = jp;
        24
    }

    /// Runs the instruction at the program counter and returns its
    /// cycles. An opcode that has no instruction is an error, and the
    /// processor is left as it was. The low nibble of `F`, once zero,
    /// stays zero.
    pub fn step(&mut self) -> (r: Result<u8, CpuError>)
        ensures
            match old(self)@.step() {
                Some((s, cycles)) => r == Ok::<u8, CpuError>(cycles) && final(self)@ == s,
                None => r == Err::<u8, CpuError>(old(self)@.fault()) && final(self)@ == old(self)@,
            },
            old(self).reg.wf() ==> final(self).reg.wf(),
    {
        proof {
            self.mem.lemma_len();
            if self@.step() is Some && self.reg.wf() {
                lemma_step_keeps_sound(self@);
            }
        }
        let opcode: u8 = self.peek(self.pc);
        if opcode == PREFIX {
            self.step_extended()
        } else {
            self.step_primary(opcode)
        }
    }

    /// Runs the instruction bound to a primary opcode.
    fn step_primary(&mut self, opcode: u8) -> (r: Result<u8, CpuError>)
        requires
            opcode == old(self)@.byte(old(self).pc),
            opcode != PREFIX,
        ensures
            match old(self)@.run_primary(opcode) {
                Some((s, cycles)) => r == Ok::<u8, CpuError>(cycles) && final(self)@ == s,
                None => r == Err::<u8, CpuError>(old(self)@.fault()) && final(self)@ == old(self)@,
            },
    {
        let done: Option<u8> = if opcode < 0x40 {
            self.step_low(opcode)
        } else if opcode < 0x80 {
            self.step_loads(opcode)
        } else if opcode < 0xC0 {
            self.step_arithmetic(opcode)
        } else {
            self.step_high(opcode)
        };
        match done {
            Some(cycles) => Ok(cycles),
            None => Err(CpuError::Unimplemented { prefixed: false, opcode, pc: self.pc }),
        }
    }

    /// Opcodes 0x00 to 0x3F: immediate loads, increments, decrements,
    /// rotates and relative jumps.
    fn step_low(&mut self, opcode: u8) -> (r: Option<u8>)
        ensures
            match old(self)@.run_low(opcode) {
                Some((s, cycles)) => r == Some(cycles) && final(self)@ == s,
                None => r.is_none() && final(self)@ == old(self)@,
            },
    {
        match opcode {
            0x00 => Some(self.nop()),
            0x01 => Some(self.ld_n_nn(LoadRegnnn::BC)),
            0x02 => Some(self.ld_n_a(LoadReg::MemBC)),
            0x03 => Some(self.inc_reg(IncDecReg::BC)),
            0x04 => Some(self.inc_reg(IncDecReg::B)),
            0x05 => Some(self.dec_r(StdReg::B)),
            0x06 => Some(self.ld_r_n(StdReg::B)),
            0x0A => Some(self.ld_a_n(LoadReg::MemBC)),
            0x0C => Some(self.inc_reg(IncDecReg::C)),
            0x0D => Some(self.dec_r(StdReg::C)),
            0x0E => Some(self.ld_r_n(StdReg::C)),
            0x0F => Some(self.rrca()),
            0x11 => Some(self.ld_n_nn(LoadRegnnn::DE)),
            0x12 => Some(self.ld_n_a(LoadReg::MemDE)),
            0x13 => Some(self.inc_reg(IncDecReg::DE)),
            0x14 => Some(self.inc_reg(IncDecReg::D)),
            0x15 => Some(self.dec_r(StdReg::D)),
            0x16 => Some(self.ld_r_n(StdReg::D)),
            0x18 => Some(self.jr()),
            0x1A => Some(self.ld_a_n(LoadReg::MemDE)),
            0x1C => Some(self.inc_reg(IncDecReg::E)),
            0x1D => Some(self.dec_r(StdReg::E)),
            0x1E => Some(self.ld_r_n(StdReg::E)),
            0x1F => Some(self.rr_n(StdReg::A)),
            0x20 => Some(self.jr_cond(FlagCond::NZ)),
            0x21 => Some(self.ld_n_nn(LoadRegnnn::HL)),
            0x22 => Some(self.ld_mem_hl_a_inc()),
            0x23 => Some(self.inc_reg(IncDecReg::HL)),
            0x24 => Some(self.inc_reg(IncDecReg::H)),
            0x25 => Some(self.dec_r(StdReg::H)),
            0x26 => Some(self.ld_r_n(StdReg::H)),
            0x28 => Some(self.jr_cond(FlagCond::Z)),
            0x2A => Some(self.ldi_a_memhl()),
            0x2C => Some(self.inc_reg(IncDecReg::L)),
            0x2D => Some(self.dec_r(StdReg::L)),
            0x2E => Some(self.ld_r_n(StdReg::L)),
            0x30 => Some(self.jr_cond(FlagCond::NC)),
            0x31 => Some(self.ld_n_nn(LoadRegnnn::SP)),
            0x32 => Some(self.ld_mem_hl_a_dec()),
            0x33 => Some(self.inc_reg(IncDecReg::SP)),
            0x34 => Some(self.inc_reg(IncDecReg::MemHL)),
            0x35 => Some(self.dec_r(StdReg::HL)),
            0x36 => Some(self.ld_r_r(StdReg::HL, StdReg::HL)),
            0x38 => Some(self.jr_cond(FlagCond::C)),
            0x3C => Some(self.inc_reg(IncDecReg::A)),
            0x3D => Some(self.dec_r(StdReg::A)),
            0x3E => Some(self.ld_a_n(LoadReg::N)),
            _ => None,
        }
    }

    /// Opcodes 0x40 to 0x7F: loads between registers and the byte at
    /// `HL`.
    fn step_loads(&mut self, opcode: u8) -> (r: Option<u8>)
        ensures
            match old(self)@.run_loads(opcode) {
                Some((s, cycles)) => r == Some(cycles) && final(self)@ == s,
                None => r.is_none() && final(self)@ == old(self)@,
            },
    {
        match opcode {
            0x40 => Some(self.ld_r_r(StdReg::B, StdReg::B)),
            0x41 => Some(self.ld_r_r(StdReg::B, StdReg::C)),
            0x42 => Some(self.ld_r_r(StdReg::B, StdReg::D)),
            0x43 => Some(self.ld_r_r(StdReg::B, StdReg::E)),
            0x44 => Some(self.ld_r_r(StdReg::B, StdReg::H)),
            0x45 => Some(self.ld_r_r(StdReg::B, StdReg::L)),
            0x46 => Some(self.ld_r_r(StdReg::B, StdReg::HL)),
            0x47 => Some(self.ld_n_a(LoadReg::B)),
            0x48 => Some(self.ld_r_r(StdReg::C, StdReg::B)),
            0x49 => Some(self.ld_r_r(StdReg::C, StdReg::C)),
            0x4A => Some(self.ld_r_r(StdReg::C, StdReg::D)),
            0x4B => Some(self.ld_r_r(StdReg::C, StdReg::E)),
            0x4C => Some(self.ld_r_r(StdReg::C, StdReg::H)),
            0x4D => Some(self.ld_r_r(StdReg::C, StdReg::L)),
            0x4E => Some(self.ld_r_r(StdReg::C, StdReg::HL)),
            0x4F => Some(self.ld_n_a(LoadReg::C)),
            0x50 => Some(self.ld_r_r(StdReg::D, StdReg::B)),
            0x51 => Some(self.ld_r_r(StdReg::D, StdReg::C)),
            0x52 => Some(self.ld_r_r(StdReg::D, StdReg::D)),
            0x53 => Some(self.ld_r_r(StdReg::D, StdReg::E)),
            0x54 => Some(self.ld_r_r(StdReg::D, StdReg::H)),
            0x55 => Some(self.ld_r_r(StdReg::D, StdReg::L)),
            0x56 => Some(self.ld_r_r(StdReg::D, StdReg::HL)),
            0x57 => Some(self.ld_n_a(LoadReg::D)),
            0x58 => Some(self.ld_r_r(StdReg::E, StdReg::B)),
            0x59 => Some(self.ld_r_r(StdReg::E, StdReg::C)),
            0x5A => Some(self.ld_r_r(StdReg::E, StdReg::D)),
            0x5B => Some(self.ld_r_r(StdReg::E, StdReg::E)),
            0x5C => Some(self.ld_r_r(StdReg::E, StdReg::H)),
            0x5D => Some(self.ld_r_r(StdReg::E, StdReg::L)),
            0x5E => Some(self.ld_r_r(StdReg::E, StdReg::HL)),
            0x5F => Some(self.ld_n_a(LoadReg::E)),
            0x60 => Some(self.ld_r_r(StdReg::H, StdReg::B)),
            0x61 => Some(self.ld_r_r(StdReg::H, StdReg::C)),
            0x62 => Some(self.ld_r_r(StdReg::H, StdReg::D)),
            0x63 => Some(self.ld_r_r(StdReg::H, StdReg::E)),
            0x64 => Some(self.ld_r_r(StdReg::H, StdReg::H)),
            0x65 => Some(self.ld_r_r(StdReg::H, StdReg::L)),
            0x66 => Some(self.ld_r_r(StdReg::H, StdReg::HL)),
            0x67 => Some(self.ld_n_a(LoadReg::H)),
            0x68 => Some(self.ld_r_r(StdReg::L, StdReg::B)),
            0x69 => Some(self.ld_r_r(StdReg::L, StdReg::C)),
            0x6A => Some(self.ld_r_r(StdReg::L, StdReg::D)),
            0x6B => Some(self.ld_r_r(StdReg::L, StdReg::E)),
            0x6C => Some(self.ld_r_r(StdReg::L, StdReg::H)),
            0x6D => Some(self.ld_r_r(StdReg::L, StdReg::L)),
            0x6E => Some(self.ld_r_r(StdReg::L, StdReg::HL)),
            0x6F => Some(self.ld_n_a(LoadReg::L)),
            0x70 => Some(self.ld_r_r(StdReg::HL, StdReg::B)),
            0x71 => Some(self.ld_r_r(StdReg::HL, StdReg::C)),
            0x72 => Some(self.ld_r_r(StdReg::HL, StdReg::D)),
            0x73 => Some(self.ld_r_r(StdReg::HL, StdReg::E)),
            0x74 => Some(self.ld_r_r(StdReg::HL, StdReg::H)),
            0x75 => Some(self.ld_r_r(StdReg::HL, StdReg::L)),
            0x77 => Some(self.ld_n_a(LoadReg::MemHL)),
            0x78 => Some(self.ld_a_n(LoadReg::B)),
            0x79 => Some(self.ld_a_n(LoadReg::C)),
            0x7A => Some(self.ld_a_n(LoadReg::D)),
            0x7B => Some(self.ld_a_n(LoadReg::E)),
            0x7C => Some(self.ld_a_n(LoadReg::H)),
            0x7D => Some(self.ld_a_n(LoadReg::L)),
            0x7E => Some(self.ld_a_n(LoadReg::MemHL)),
            0x7F => Some(self.ld_a_n(LoadReg::A)),
            _ => None,
        }
    }

    /// Opcodes 0x80 to 0xBF: arithmetic and logic on `A`.
    fn step_arithmetic(&mut self, opcode: u8) -> (r: Option<u8>)
        ensures
            match old(self)@.run_arithmetic(opcode) {
                Some((s, cycles)) => r == Some(cycles) && final(self)@ == s,
                None => r.is_none() && final(self)@ == old(self)@,
            },
    {
        match opcode {
            0x80 => Some(self.add_a_r(StdReg::B)),
            0x81 => Some(self.add_a_r(StdReg::C)),
            0x82 => Some(self.add_a_r(StdReg::D)),
            0x83 => Some(self.add_a_r(StdReg::E)),
            0x84 => Some(self.add_a_r(StdReg::H)),
            0x85 => Some(self.add_a_r(StdReg::L)),
            0x86 => Some(self.add_a_r(StdReg::HL)),
            0x87 => Some(self.add_a_r(StdReg::A)),
            0x88 => Some(self.adc_a_n(StdRegN::B)),
            0x89 => Some(self.adc_a_n(StdRegN::C)),
            0x8A => Some(self.adc_a_n(StdRegN::D)),
            0x8B => Some(self.adc_a_n(StdRegN::E)),
            0x8C => Some(self.adc_a_n(StdRegN::H)),
            0x8D => Some(self.adc_a_n(StdRegN::L)),
            0x8E => Some(self.adc_a_n(StdRegN::HL)),
            0x8F => Some(self.adc_a_n(StdRegN::A)),
            0xA8 => Some(self.xor_r(StdReg::B)),
            0xA9 => Some(self.xor_r(StdReg::C)),
            0xAA => Some(self.xor_r(StdReg::D)),
            0xAB => Some(self.xor_r(StdReg::E)),
            0xAC => Some(self.xor_r(StdReg::H)),
            0xAD => Some(self.xor_r(StdReg::L)),
            0xAE => Some(self.xor_r(StdReg::HL)),
            0xAF => Some(self.xor_r(StdReg::A)),
            0xB0 => Some(self.or_a_r(StdReg::B)),
            0xB1 => Some(self.or_a_r(StdReg::C)),
            0xB2 => Some(self.or_a_r(StdReg::D)),
            0xB3 => Some(self.or_a_r(StdReg::E)),
            0xB4 => Some(self.or_a_r(StdReg::H)),
            0xB5 => Some(self.or_a_r(StdReg::L)),
            0xB6 => Some(self.or_a_r(StdReg::HL)),
            0xB7 => Some(self.or_a_r(StdReg::A)),
            0xB8 => Some(self.cp_a_r(StdReg::B)),
            0xB9 => Some(self.cp_a_r(StdReg::C)),
            0xBA => Some(self.cp_a_r(StdReg::D)),
            0xBB => Some(self.cp_a_r(StdReg::E)),
            0xBC => Some(self.cp_a_r(StdReg::H)),
            0xBD => Some(self.cp_a_r(StdReg::L)),
            0xBE => Some(self.cp_a_r(StdReg::HL)),
            0xBF => Some(self.cp_a_r(StdReg::A)),
            _ => None,
        }
    }

    /// Opcodes 0xC0 to 0xFF: calls, returns, jumps, the stack, and the
    /// rest.
    fn step_high(&mut self, opcode: u8) -> (r: Option<u8>)
        ensures
            match old(self)@.run_high(opcode) {
                Some((s, cycles)) => r == Some(cycles) && final(self)@ == s,
                None => r.is_none() && final(self)@ == old(self)@,
            },
    {
        match opcode {
            0xC0 => Some(self.ret_cc(FlagCond::NZ)),
            0xC1 => Some(self.pop_bc()),
            0xC3 => Some(self.jp_nn()),
            0xC4 => Some(self.call_cc(FlagCond::NZ)),
            0xC5 => Some(self.push_bc()),
            0xC7 => Some(self.rst_00()),
            0xC8 => Some(self.ret_cc(FlagCond::Z)),
            0xC9 => Some(self.ret()),
            0xCC => Some(self.call_cc(FlagCond::Z)),
            0xCD => Some(self.call()),
            0xCE => Some(self.adc_a_n(StdRegN::N)),
            0xCF => Some(self.rst_08()),
            0xD0 => Some(self.ret_cc(FlagCond::NC)),
            0xD1 => Some(self.pop_de()),
            0xD4 => Some(self.call_cc(FlagCond::NC)),
            0xD5 => Some(self.push_de()),
            0xD7 => Some(self.rst_10()),
            0xD8 => Some(self.ret_cc(FlagCond::C)),
            0xDC => Some(self.call_cc(FlagCond::C)),
            0xDF => Some(self.rst_18()),
            0xE0 => Some(self.ld_ff00_a()),
            0xE1 => Some(self.pop_hl()),
            0xE5 => Some(self.push_hl()),
            0xE7 => Some(self.rst_20()),
            0xEA => Some(self.ld_n_a(LoadReg::MemNN)),
            0xEF => Some(self.rst_28()),
            0xF0 => Some(self.ld_a_ff00()),
            0xF1 => Some(self.pop_af()),
            0xF3 => Some(self.di()),
            0xF5 => Some(self.push_af()),
            0xF7 => Some(self.rst_30()),
            0xFA => Some(self.ld_a_n(LoadReg::MemNN)),
            0xFB => Some(self.ei()),
            0xFE => Some(self.cp_a_n()),
            0xFF => Some(self.rst_38()),
            _ => None,
        }
    }

    /// Runs the instruction bound to the extended opcode that follows
    /// the prefix.
    fn step_extended(&mut self) -> (r: Result<u8, CpuError>)
        requires
            old(self)@.byte(old(self).pc) == PREFIX,
        ensures
            match old(self)@.step() {
                Some((s, cycles)) => r == Ok::<u8, CpuError>(cycles) && final(self)@ == s,
                None => r == Err::<u8, CpuError>(old(self)@.fault()) && final(self)@ == old(self)@,
            },
    {
        let opcode: u8 = self.peek(self.pc.wrapping_add(1));
        let operand: Option<StdReg> = match opcode {
            0x18 => Some(StdReg::B),
            0x19 => Some(StdReg::C),
            0x1A => Some(StdReg::D),
            0x1B => Some(StdReg::E),
            0x1C => Some(StdReg::H),
            0x1D => Some(StdReg::L),
            0x1E => Some(StdReg::HL),
            0x1F => Some(StdReg::A),
            _ => None,
        };
        match operand {
            Some(reg) => {
                self.pc = self.pc.wrapping_add(1);
                let cycles: u8 = self.rr_n(reg);
                Ok(cycles + 4)
            },
            None => Err(CpuError::Unimplemented { prefixed: true, opcode, pc: self.pc }),
        }
    }
}

} // verus!
