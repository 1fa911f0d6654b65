//! The machine as a mathematical value, and what each instruction does
//! to it.
//!
//! Every instruction is a function from the state before it to the state
//! after it and the cycles it takes. Cycles are T-states: 4 per machine
//! cycle. The program counter and the stack pointer wrap modulo 0x10000.

use vstd::prelude::*;
use crate::interrupts::INTERRUPT_ENABLE;
use crate::registers::{
    FlagCond,
    IncDecReg,
    LoadReg,
    LoadRegnnn,
    Registers,
    StdReg,
    StdRegN,
    carry_in,
    half_borrow,
    half_carry,
    half_carry_in,
    high,
    low,
    pair,
    FLAG_C,
    FLAG_Z,
};

verus! {

/// The opcode that introduces the extended instruction set.
pub const PREFIX: u8 = 0xCB;

/// Registers, stack pointer, program counter and the 64 KiB of memory.
#[verifier::ext_equal]
pub ghost struct State {
    pub reg: Registers,
    pub sp: u16,
    pub pc: u16,
    pub mem: Seq<u8>,
}

/// `v` moved one bit to the right, with `top` coming in as bit 7.
pub open spec fn shifted_right(v: u8, top: bool) -> u8 {
    (v / 2 + if top {
        128int
    } else {
        0int
    }) as u8
}

/// The address `d` away from `pc`, where `d` is a displacement in two's
/// complement: from 0x80 on it stands for `d - 256`.
pub open spec fn displaced(pc: u16, d: u8) -> u16 {
    if d >= 0x80 {
        pc.wrapping_sub((256 - d) as u16)
    } else {
        pc.wrapping_add(d as u16)
    }
}

/// The flags after an 8-bit increment of `v`: Half-carry and Zero as the
/// result has them, Subtract off, Carry untouched.
pub open spec fn flags_inc(reg: Registers, v: u8) -> Registers {
    reg.with_half(half_carry(v, 1)).with_zero(v.wrapping_add(1) == 0).with_subtract(false)
}

/// The flags after an 8-bit decrement of `v`: Half-carry and Zero as the
/// result has them, Subtract on, Carry untouched.
pub open spec fn flags_dec(reg: Registers, v: u8) -> Registers {
    reg.with_half(half_borrow(v, 1)).with_zero(v.wrapping_sub(1) == 0).with_subtract(true)
}

/// The flags after `value - amt`: Zero if they are equal, Half-carry and
/// Carry on a borrow, Subtract on.
pub open spec fn flags_sub(reg: Registers, value: u8, amt: u8) -> Registers {
    reg.with_zero(value.wrapping_sub(amt) == 0).with_half(half_borrow(value, amt)).with_carry(
        amt > value,
    ).with_subtract(true)
}

/// The flags after `v1 + v2 + c`: Half-carry and Carry as the sum has
/// them, Zero and Subtract untouched.
pub open spec fn flags_add(reg: Registers, v1: u8, v2: u8, c: u8) -> Registers {
    reg.with_half(half_carry_in(v1, v2, c)).with_carry(carry_in(v1, v2, c))
}

/// The flag byte after a logical operation: Zero if the result is 0 and
/// nothing else.
pub open spec fn flags_logic(result: u8) -> u8 {
    if result == 0 {
        FLAG_Z
    } else {
        0
    }
}

/// Memory after the boot ROM has run: the sound, video and interrupt
/// registers hold their power-on values.
pub open spec fn booted(mem: Seq<u8>) -> Seq<u8> {
    mem.update(0xFF05, 0x00u8).update(0xFF06, 0x00u8).update(0xFF07, 0x00u8).update(
        0xFF10,
        0x80u8,
    ).update(0xFF11, 0xBFu8).update(0xFF12, 0xF3u8).update(0xFF14, 0xBFu8).update(
        0xFF16,
        0x3Fu8,
    ).update(0xFF17, 0x00u8).update(0xFF19, 0xBFu8).update(0xFF1A, 0x7Fu8).update(
        0xFF1B,
        0xFFu8,
    ).update(0xFF1C, 0x9Fu8).update(0xFF1E, 0xBFu8).update(0xFF20, 0xFFu8).update(
        0xFF21,
        0x00u8,
    ).update(0xFF22, 0x00u8).update(0xFF23, 0xBFu8).update(0xFF24, 0x77u8).update(
        0xFF25,
        0xF3u8,
    ).update(0xFF26, 0xF1u8).update(0xFF40, 0x91u8).update(0xFF42, 0x00u8).update(
        0xFF43,
        0x00u8,
    ).update(0xFF45, 0x00u8).update(0xFF47, 0xFCu8).update(0xFF48, 0xFFu8).update(
        0xFF49,
        0xFFu8,
    ).update(0xFF4A, 0x00u8).update(0xFF4B, 0x00u8).update(0xFFFF, 0x00u8)
}

impl State {
    /// Memory holds exactly 0x10000 bytes.
    pub open spec fn wf(self) -> bool {
        self.mem.len() == 0x10000
    }

    /// Memory has its size and the low nibble of `F` is zero.
    pub open spec fn sound(self) -> bool {
        self.wf() && self.reg.wf()
    }

    /// The machine at power-on, over the given memory.
    pub open spec fn power_on(mem: Seq<u8>) -> State {
        State {
            reg: Registers {
                a: 0x01,
                f: 0xB0,
                b: 0x00,
                c: 0x13,
                d: 0x00,
                e: 0xD8,
                h: 0x01,
                l: 0x4D,
            },
            sp: 0xFFFE,
            pc: 0x0100,
            mem: booted(mem),
        }
    }

    /// The byte at `addr`.
    pub open spec fn byte(self, addr: u16) -> u8 {
        self.mem[addr as int]
    }

    /// The state with `v` written at `addr`.
    pub open spec fn store(self, addr: u16, v: u8) -> State {
        State { mem: self.mem.update(addr as int, v), ..self }
    }

    /// The state with the program counter moved on by `n`.
    pub open spec fn advance(self, n: u16) -> State {
        State { pc: self.pc.wrapping_add(n), ..self }
    }

    /// The state with the program counter set to `pc`.
    pub open spec fn at(self, pc: u16) -> State {
        State { pc, ..self }
    }

    /// The state with other registers.
    pub open spec fn with_reg(self, reg: Registers) -> State {
        State { reg, ..self }
    }

    /// The byte that follows the opcode.
    pub open spec fn imm8(self) -> u8 {
        self.byte(self.pc.wrapping_add(1))
    }

    /// The two bytes that follow the opcode, low byte first.
    pub open spec fn imm16(self) -> u16 {
        pair(self.byte(self.pc.wrapping_add(2)), self.byte(self.pc.wrapping_add(1)))
    }

    /// The value that `r` selects: a register, or the byte at `HL`.
    pub open spec fn operand(self, r: StdReg) -> u8 {
        match r {
            StdReg::A => self.reg.a,
            StdReg::B => self.reg.b,
            StdReg::C => self.reg.c,
            StdReg::D => self.reg.d,
            StdReg::E => self.reg.e,
            StdReg::H => self.reg.h,
            StdReg::L => self.reg.l,
            StdReg::HL => self.byte(self.reg.hl()),
        }
    }

    /// The state with `v` put where `r` selects: in a register, or in
    /// the byte at `HL`.
    pub open spec fn with_operand(self, r: StdReg, v: u8) -> State {
        match r {
            StdReg::A => self.with_reg(Registers { a: v, ..self.reg }),
            StdReg::B => self.with_reg(Registers { b: v, ..self.reg }),
            StdReg::C => self.with_reg(Registers { c: v, ..self.reg }),
            StdReg::D => self.with_reg(Registers { d: v, ..self.reg }),
            StdReg::E => self.with_reg(Registers { e: v, ..self.reg }),
            StdReg::H => self.with_reg(Registers { h: v, ..self.reg }),
            StdReg::L => self.with_reg(Registers { l: v, ..self.reg }),
            StdReg::HL => self.store(self.reg.hl(), v),
        }
    }

    /// Cycles of an instruction that costs `register` on a register and
    /// `memory` on the byte at `HL`.
    pub open spec fn cost(r: StdReg, register: u8, memory: u8) -> u8 {
        match r {
            StdReg::HL => memory,
            _ => register,
        }
    }

    /// The state with `A` set to `v`.
    pub open spec fn with_a(self, v: u8) -> State {
        self.with_reg(Registers { a: v, ..self.reg })
    }

    /// Two bytes pushed: `hi` goes to `SP - 1`, `lo` to `SP - 2`, and
    /// `SP` ends two lower.
    pub open spec fn push(self, hi: u8, lo: u8) -> State {
        State {
            sp: self.sp.wrapping_sub(2),
            mem: self.mem.update(self.sp.wrapping_sub(1) as int, hi).update(
                self.sp.wrapping_sub(2) as int,
                lo,
            ),
            ..self
        }
    }

    /// The 16-bit value on top of the stack: low byte at `SP`, high byte
    /// at `SP + 1`.
    pub open spec fn top(self) -> u16 {
        pair(self.byte(self.sp.wrapping_add(1)), self.byte(self.sp))
    }

    /// The state with the top of the stack taken off, and the value that
    /// was there.
    pub open spec fn pop(self) -> (State, u16) {
        (State { sp: self.sp.wrapping_add(2), ..self }, self.top())
    }

    /// `NOP`.
    pub open spec fn nop(self) -> (State, u8) {
        (self.advance(1), 4)
    }

    /// `DI`: clears the interrupt-enable register.
    pub open spec fn di(self) -> (State, u8) {
        (self.store(INTERRUPT_ENABLE, 0x00).advance(1), 4)
    }

    /// `EI`: sets every bit of the interrupt-enable register.
    pub open spec fn ei(self) -> (State, u8) {
        (self.store(INTERRUPT_ENABLE, 0xFF).advance(1), 4)
    }

    /// `RRCA`: `A` turns right by one bit; bit 0 goes to bit 7 and to
    /// Carry, the other flags are cleared.
    pub open spec fn rrca(self) -> (State, u8) {
        let a: u8 = self.reg.a;
        let out = a % 2 == 1;
        let reg = Registers {
            a: shifted_right(a, out),
            f: if out {
                FLAG_C
            } else {
                0
            },
            ..self.reg
        };
        (self.with_reg(reg).advance(1), 4)
    }

    /// `ADD A,r`.
    pub open spec fn add_a_r(self, r: StdReg) -> (State, u8) {
        let a: u8 = self.reg.a;
        let v: u8 = self.operand(r);
        let reg = Registers { a: a.wrapping_add(v), ..flags_add(self.reg, a, v, 0) };
        (self.with_reg(reg).advance(1), Self::cost(r, 4, 8))
    }

    /// The operand of `ADC`: a register, the byte at `HL`, or the byte
    /// after the opcode.
    pub open spec fn operand_n(self, r: StdRegN) -> u8 {
        match r {
            StdRegN::A => self.reg.a,
            StdRegN::B => self.reg.b,
            StdRegN::C => self.reg.c,
            StdRegN::D => self.reg.d,
            StdRegN::E => self.reg.e,
            StdRegN::H => self.reg.h,
            StdRegN::L => self.reg.l,
            StdRegN::HL => self.byte(self.reg.hl()),
            StdRegN::N => self.imm8(),
        }
    }

    /// `ADC A,r`: adds the operand and the Carry flag to `A`.
    pub open spec fn adc_a_n(self, r: StdRegN) -> (State, u8) {
        let a: u8 = self.reg.a;
        let v: u8 = self.operand_n(r);
        let c: u8 = self.reg.carry_bit();
        let reg = Registers {
            a: a.wrapping_add(v).wrapping_add(c),
            ..flags_add(self.reg, a, v, c)
        };
        match r {
            StdRegN::N => (self.with_reg(reg).advance(2), 8),
            StdRegN::HL => (self.with_reg(reg).advance(1), 8),
            _ => (self.with_reg(reg).advance(1), 4),
        }
    }

    /// `INC` on whatever `r` selects. The 16-bit forms leave the flags
    /// alone.
    pub open spec fn inc_reg(self, r: IncDecReg) -> (State, u8) {
        match r {
            IncDecReg::A => self.inc8(StdReg::A),
            IncDecReg::B => self.inc8(StdReg::B),
            IncDecReg::C => self.inc8(StdReg::C),
            IncDecReg::D => self.inc8(StdReg::D),
            IncDecReg::E => self.inc8(StdReg::E),
            IncDecReg::H => self.inc8(StdReg::H),
            IncDecReg::L => self.inc8(StdReg::L),
            IncDecReg::MemHL => self.inc8(StdReg::HL),
            IncDecReg::HL => (
                self.with_reg(self.reg.with_hl(self.reg.hl().wrapping_add(1))).advance(1),
                8,
            ),
            IncDecReg::BC => (
                self.with_reg(self.reg.with_bc(self.reg.bc().wrapping_add(1))).advance(1),
                8,
            ),
            IncDecReg::DE => (
                self.with_reg(self.reg.with_de(self.reg.de().wrapping_add(1))).advance(1),
                8,
            ),
            IncDecReg::SP => ((State { sp: self.sp.wrapping_add(1), ..self }).advance(1), 8),
        }
    }

    /// The 8-bit increment: 4 cycles on a register, 12 on the byte at
    /// `HL`.
    pub open spec fn inc8(self, r: StdReg) -> (State, u8) {
        let v: u8 = self.operand(r);
        (
            self.with_reg(flags_inc(self.reg, v)).with_operand(r, v.wrapping_add(1)).advance(1),
            Self::cost(r, 4, 12),
        )
    }

    /// The flags of `value - amt` and the difference.
    pub open spec fn substract_u8_from_u8(self, value: u8, amt: u8) -> (State, u8) {
        (self.with_reg(flags_sub(self.reg, value, amt)), value.wrapping_sub(amt))
    }

    /// `DEC r`: 4 cycles on a register, 12 on the byte at `HL`.
    pub open spec fn dec_r(self, r: StdReg) -> (State, u8) {
        let v: u8 = self.operand(r);
        (
            self.with_reg(flags_dec(self.reg, v)).with_operand(r, v.wrapping_sub(1)).advance(1),
            Self::cost(r, 4, 12),
        )
    }

    /// `CP r`: the flags of `A - r`; `A` stays.
    pub open spec fn cp_a_r(self, r: StdReg) -> (State, u8) {
        (
            self.with_reg(flags_sub(self.reg, self.reg.a, self.operand(r))).advance(1),
            Self::cost(r, 4, 8),
        )
    }

    /// `CP n`: the flags of `A - n`, where `n` follows the opcode.
    pub open spec fn cp_a_n(self) -> (State, u8) {
        (self.with_reg(flags_sub(self.reg, self.reg.a, self.imm8())).advance(2), 4)
    }

    /// `JR d`: jumps `d` away from the end of the instruction.
    pub open spec fn jr(self) -> (State, u8) {
        (self.at(displaced(self.pc.wrapping_add(2), self.imm8())), 12)
    }

    /// `JR cc,d`.
    pub open spec fn jr_cond(self, cond: FlagCond) -> (State, u8) {
        if cond.holds(self.reg.f) {
            self.jr()
        } else {
            (self.advance(2), 8)
        }
    }

    /// `JP nn`.
    pub open spec fn jp_nn(self) -> (State, u8) {
        (self.at(self.imm16()), 16)
    }

    /// `OR r`.
    pub open spec fn or_a_r(self, r: StdReg) -> (State, u8) {
        let a: u8 = self.reg.a | self.operand(r);
        (
            self.with_reg(Registers { a, f: flags_logic(a), ..self.reg }).advance(1),
            Self::cost(r, 4, 8),
        )
    }

    /// `XOR r`.
    pub open spec fn xor_r(self, r: StdReg) -> (State, u8) {
        let a: u8 = self.reg.a ^ self.operand(r);
        (
            self.with_reg(Registers { a, f: flags_logic(a), ..self.reg }).advance(1),
            Self::cost(r, 4, 8),
        )
    }

    /// The address 0xFF00 + `n`.
    pub open spec fn high_page(n: u8) -> u16 {
        (0xFF00 + n) as u16
    }

    /// `LDH (n),A`: stores `A` at 0xFF00 + `n`, unless that is 0xFFFF.
    pub open spec fn ld_ff00_a(self) -> (State, u8) {
        let n: u8 = self.imm8();
        if n == 0xFF {
            (self.advance(2), 12)
        } else {
            (self.store(Self::high_page(n), self.reg.a).advance(2), 12)
        }
    }

    /// `LDH A,(n)`: loads `A` from 0xFF00 + `n`, unless that is 0xFFFF.
    pub open spec fn ld_a_ff00(self) -> (State, u8) {
        let n: u8 = self.imm8();
        if n == 0xFF {
            (self.advance(2), 12)
        } else {
            (self.with_a(self.byte(Self::high_page(n))).advance(2), 12)
        }
    }

    /// `LD r1,r2`. With `HL` for both it is `LD (HL),n`: the byte after
    /// the opcode goes to the byte at `HL`.
    pub open spec fn ld_r_r(self, r1: StdReg, r2: StdReg) -> (State, u8) {
        match (r1, r2) {
            (StdReg::HL, StdReg::HL) => (self.store(self.reg.hl(), self.imm8()).advance(2), 8),
            (StdReg::HL, _) => (self.with_operand(r1, self.operand(r2)).advance(1), 8),
            (_, StdReg::HL) => (self.with_operand(r1, self.operand(r2)).advance(1), 8),
            _ => (self.with_operand(r1, self.operand(r2)).advance(1), 4),
        }
    }

    /// `LD A,(HL+)`.
    pub open spec fn ldi_a_memhl(self) -> (State, u8) {
        let hl: u16 = self.reg.hl();
        let reg = Registers { a: self.byte(hl), ..self.reg.with_hl(hl.wrapping_add(1)) };
        (self.with_reg(reg).advance(1), 8)
    }

    /// `LD (HL),A`.
    pub open spec fn ld_mem_hl_a(self) -> (State, u8) {
        (self.store(self.reg.hl(), self.reg.a).advance(1), 8)
    }

    /// `LD (HL-),A`.
    pub open spec fn ld_mem_hl_a_dec(self) -> (State, u8) {
        let s = self.ld_mem_hl_a().0;
        (s.with_reg(s.reg.with_hl(s.reg.hl().wrapping_sub(1))), 8)
    }

    /// `LD (HL+),A`.
    pub open spec fn ld_mem_hl_a_inc(self) -> (State, u8) {
        let s = self.ld_mem_hl_a().0;
        (s.with_reg(s.reg.with_hl(s.reg.hl().wrapping_add(1))), 8)
    }

    /// `LD A,x`.
    pub open spec fn ld_a_n(self, r: LoadReg) -> (State, u8) {
        match r {
            LoadReg::A => (self.advance(1), 4),
            LoadReg::B => (self.with_a(self.reg.b).advance(1), 4),
            LoadReg::C => (self.with_a(self.reg.c).advance(1), 4),
            LoadReg::D => (self.with_a(self.reg.d).advance(1), 4),
            LoadReg::E => (self.with_a(self.reg.e).advance(1), 4),
            LoadReg::H => (self.with_a(self.reg.h).advance(1), 4),
            LoadReg::L => (self.with_a(self.reg.l).advance(1), 4),
            LoadReg::MemBC => (self.with_a(self.byte(self.reg.bc())).advance(1), 8),
            LoadReg::MemDE => (self.with_a(self.byte(self.reg.de())).advance(1), 8),
            LoadReg::MemHL => (self.with_a(self.byte(self.reg.hl())).advance(1), 8),
            LoadReg::MemNN => (self.with_a(self.byte(self.imm16())).advance(3), 16),
            LoadReg::N => (self.with_a(self.imm8()).advance(2), 8),
        }
    }

    /// `LD x,A`. An immediate cannot be written to: `N` changes nothing
    /// but the program counter.
    pub open spec fn ld_n_a(self, r: LoadReg) -> (State, u8) {
        let a: u8 = self.reg.a;
        match r {
            LoadReg::A => (self.advance(1), 4),
            LoadReg::B => (self.with_operand(StdReg::B, a).advance(1), 4),
            LoadReg::C => (self.with_operand(StdReg::C, a).advance(1), 4),
            LoadReg::D => (self.with_operand(StdReg::D, a).advance(1), 4),
            LoadReg::E => (self.with_operand(StdReg::E, a).advance(1), 4),
            LoadReg::H => (self.with_operand(StdReg::H, a).advance(1), 4),
            LoadReg::L => (self.with_operand(StdReg::L, a).advance(1), 4),
            LoadReg::MemBC => (self.store(self.reg.bc(), a).advance(1), 8),
            LoadReg::MemDE => (self.store(self.reg.de(), a).advance(1), 8),
            LoadReg::MemHL => (self.store(self.reg.hl(), a).advance(1), 8),
            LoadReg::MemNN => (self.store(self.imm16(), a).advance(3), 16),
            LoadReg::N => (self.advance(1), 4),
        }
    }

    /// `LD rr,nn`.
    pub open spec fn ld_n_nn(self, r: LoadRegnnn) -> (State, u8) {
        let nn: u16 = self.imm16();
        match r {
            LoadRegnnn::BC => (self.with_reg(self.reg.with_bc(nn)).advance(3), 12),
            LoadRegnnn::DE => (self.with_reg(self.reg.with_de(nn)).advance(3), 12),
            LoadRegnnn::HL => (self.with_reg(self.reg.with_hl(nn)).advance(3), 12),
            LoadRegnnn::SP => ((State { sp: nn, ..self }).advance(3), 12),
        }
    }

    /// `LD r,n`: 8 cycles into a register, 12 into the byte at `HL`.
    pub open spec fn ld_r_n(self, r: StdReg) -> (State, u8) {
        (self.with_operand(r, self.imm8()).advance(2), Self::cost(r, 8, 12))
    }

    /// `RST`: pushes the address of the next instruction and jumps to
    /// `vector`.
    pub open spec fn rst(self, vector: u16) -> (State, u8) {
        let back: u16 = self.pc.wrapping_add(1);
        (self.push(high(back), low(back)).at(vector), 16)
    }

    /// `RR r`: turns right through Carry. The old Carry comes in as bit
    /// 7, bit 0 becomes the new Carry, the other flags stay. 4 cycles on
    /// a register, 12 on the byte at `HL`.
    pub open spec fn rr_n(self, r: StdReg) -> (State, u8) {
        let v: u8 = self.operand(r);
        let res: u8 = shifted_right(v, self.reg.carry());
        let s = self.with_operand(r, res);
        (s.with_reg(s.reg.with_carry(v % 2 == 1)).advance(1), Self::cost(r, 4, 12))
    }

    /// `POP BC`.
    pub open spec fn pop_bc(self) -> (State, u8) {
        let (s, v) = self.pop();
        (s.with_reg(s.reg.with_bc(v)).advance(1), 12)
    }

    /// `POP DE`.
    pub open spec fn pop_de(self) -> (State, u8) {
        let (s, v) = self.pop();
        (s.with_reg(s.reg.with_de(v)).advance(1), 12)
    }

    /// `POP HL`.
    pub open spec fn pop_hl(self) -> (State, u8) {
        let (s, v) = self.pop();
        (s.with_reg(s.reg.with_hl(v)).advance(1), 12)
    }

    /// `POP AF`: the low nibble of `F` stays zero.
    pub open spec fn pop_af(self) -> (State, u8) {
        let (s, v) = self.pop();
        (s.with_reg(s.reg.with_af(v)).advance(1), 12)
    }

    /// `PUSH rr` of the pair made of `hi` and `lo`.
    pub open spec fn push_rr(self, hi: u8, lo: u8) -> (State, u8) {
        (self.push(hi, lo).advance(1), 16)
    }

    /// Reads the byte after the opcode and moves past both.
    pub open spec fn read_u8(self) -> (State, u8) {
        (self.advance(2), self.imm8())
    }

    /// Reads the two bytes after the opcode and moves past all three.
    pub open spec fn read_u16(self) -> (State, u16) {
        (self.advance(3), self.imm16())
    }

    /// `RET`.
    pub open spec fn ret(self) -> (State, u8) {
        let (s, v) = self.pop();
        (s.at(v), 16)
    }

    /// `RET cc`.
    pub open spec fn ret_cc(self, cond: FlagCond) -> (State, u8) {
        if cond.holds(self.reg.f) {
            (self.ret().0, 20)
        } else {
            (self.advance(1), 8)
        }
    }

    /// `CALL nn`: pushes the address of the next instruction and jumps
    /// to `nn`.
    pub open spec fn call(self) -> (State, u8) {
        let back: u16 = self.pc.wrapping_add(3);
        (self.push(high(back), low(back)).at(self.imm16()), 24)
    }

    /// `CALL cc,nn`.
    pub open spec fn call_cc(self, cond: FlagCond) -> (State, u8) {
        if cond.holds(self.reg.f) {
            self.call()
        } else {
            (self.advance(3), 12)
        }
    }

    /// Opcodes 0x00 to 0x3F: immediate loads, increments, decrements,
    /// rotates and relative jumps.
    pub open spec fn run_low(self, opcode: u8) -> Option<(State, u8)> {
        match opcode {
            0x00 => Some(self.nop()),
            0x01 => Some(self.ld_n_nn(LoadRegnnn::BC)),
            0x02 => Some(self.ld_n_a(LoadReg::MemBC)),
            0x03 => Some(self.inc_reg(IncDecReg::BC)),
            0x04 => Some(self.inc_reg(IncDecReg::B)),
            0x05 => Some(self.dec_r(StdReg::B)),
            0x06 => Some(self.ld_r_n(StdReg::B)),
            0x0A => Some(self.ld_a_n(LoadReg::MemBC)),
            0x0C => Some(self.inc_reg(IncDecReg::C)),
            0x0D => Some(self.dec_r(StdReg::C)),
            0x0E => Some(self.ld_r_n(StdReg::C)),
            0x0F => Some(self.rrca()),
            0x11 => Some(self.ld_n_nn(LoadRegnnn::DE)),
            0x12 => Some(self.ld_n_a(LoadReg::MemDE)),
            0x13 => Some(self.inc_reg(IncDecReg::DE)),
            0x14 => Some(self.inc_reg(IncDecReg::D)),
            0x15 => Some(self.dec_r(StdReg::D)),
            0x16 => Some(self.ld_r_n(StdReg::D)),
            0x18 => Some(self.jr()),
            0x1A => Some(self.ld_a_n(LoadReg::MemDE)),
            0x1C => Some(self.inc_reg(IncDecReg::E)),
            0x1D => Some(self.dec_r(StdReg::E)),
            0x1E => Some(self.ld_r_n(StdReg::E)),
            0x1F => Some(self.rr_n(StdReg::A)),
            0x20 => Some(self.jr_cond(FlagCond::NZ)),
            0x21 => Some(self.ld_n_nn(LoadRegnnn::HL)),
            0x22 => Some(self.ld_mem_hl_a_inc()),
            0x23 => Some(self.inc_reg(IncDecReg::HL)),
            0x24 => Some(self.inc_reg(IncDecReg::H)),
            0x25 => Some(self.dec_r(StdReg::H)),
            0x26 => Some(self.ld_r_n(StdReg::H)),
            0x28 => Some(self.jr_cond(FlagCond::Z)),
            0x2A => Some(self.ldi_a_memhl()),
            0x2C => Some(self.inc_reg(IncDecReg::L)),
            0x2D => Some(self.dec_r(StdReg::L)),
            0x2E => Some(self.ld_r_n(StdReg::L)),
            0x30 => Some(self.jr_cond(FlagCond::NC)),
            0x31 => Some(self.ld_n_nn(LoadRegnnn::SP)),
            0x32 => Some(self.ld_mem_hl_a_dec()),
            0x33 => Some(self.inc_reg(IncDecReg::SP)),
            0x34 => Some(self.inc_reg(IncDecReg::MemHL)),
            0x35 => Some(self.dec_r(StdReg::HL)),
            0x36 => Some(self.ld_r_r(StdReg::HL, StdReg::HL)),
            0x38 => Some(self.jr_cond(FlagCond::C)),
            0x3C => Some(self.inc_reg(IncDecReg::A)),
            0x3D => Some(self.dec_r(StdReg::A)),
            0x3E => Some(self.ld_a_n(LoadReg::N)),
            _ => None,
        }
    }

    /// Opcodes 0x40 to 0x7F: loads between registers and the byte at
    /// `HL`.
    pub open spec fn run_loads(self, opcode: u8) -> Option<(State, u8)> {
        match opcode {
            0x40 => Some(self.ld_r_r(StdReg::B, StdReg::B)),
            0x41 => Some(self.ld_r_r(StdReg::B, StdReg::C)),
            0x42 => Some(self.ld_r_r(StdReg::B, StdReg::D)),
            0x43 => Some(self.ld_r_r(StdReg::B, StdReg::E)),
            0x44 => Some(self.ld_r_r(StdReg::B, StdReg::H)),
            0x45 => Some(self.ld_r_r(StdReg::B, StdReg::L)),
            0x46 => Some(self.ld_r_r(StdReg::B, StdReg::HL)),
            0x47 => Some(self.ld_n_a(LoadReg::B)),
            0x48 => Some(self.ld_r_r(StdReg::C, StdReg::B)),
            0x49 => Some(self.ld_r_r(StdReg::C, StdReg::C)),
            0x4A => Some(self.ld_r_r(StdReg::C, StdReg::D)),
            0x4B => Some(self.ld_r_r(StdReg::C, StdReg::E)),
            0x4C => Some(self.ld_r_r(StdReg::C, StdReg::H)),
            0x4D => Some(self.ld_r_r(StdReg::C, StdReg::L)),
            0x4E => Some(self.ld_r_r(StdReg::C, StdReg::HL)),
            0x4F => Some(self.ld_n_a(LoadReg::C)),
            0x50 => Some(self.ld_r_r(StdReg::D, StdReg::B)),
            0x51 => Some(self.ld_r_r(StdReg::D, StdReg::C)),
            0x52 => Some(self.ld_r_r(StdReg::D, StdReg::D)),
            0x53 => Some(self.ld_r_r(StdReg::D, StdReg::E)),
            0x54 => Some(self.ld_r_r(StdReg::D, StdReg::H)),
            0x55 => Some(self.ld_r_r(StdReg::D, StdReg::L)),
            0x56 => Some(self.ld_r_r(StdReg::D, StdReg::HL)),
            0x57 => Some(self.ld_n_a(LoadReg::D)),
            0x58 => Some(self.ld_r_r(StdReg::E, StdReg::B)),
            0x59 => Some(self.ld_r_r(StdReg::E, StdReg::C)),
            0x5A => Some(self.ld_r_r(StdReg::E, StdReg::D)),
            0x5B => Some(self.ld_r_r(StdReg::E, StdReg::E)),
            0x5C => Some(self.ld_r_r(StdReg::E, StdReg::H)),
            0x5D => Some(self.ld_r_r(StdReg::E, StdReg::L)),
            0x5E => Some(self.ld_r_r(StdReg::E, StdReg::HL)),
            0x5F => Some(self.ld_n_a(LoadReg::E)),
            0x60 => Some(self.ld_r_r(StdReg::H, StdReg::B)),
            0x61 => Some(self.ld_r_r(StdReg::H, StdReg::C)),
            0x62 => Some(self.ld_r_r(StdReg::H, StdReg::D)),
            0x63 => Some(self.ld_r_r(StdReg::H, StdReg::E)),
            0x64 => Some(self.ld_r_r(StdReg::H, StdReg::H)),
            0x65 => Some(self.ld_r_r(StdReg::H, StdReg::L)),
            0x66 => Some(self.ld_r_r(StdReg::H, StdReg::HL)),
            0x67 => Some(self.ld_n_a(LoadReg::H)),
            0x68 => Some(self.ld_r_r(StdReg::L, StdReg::B)),
            0x69 => Some(self.ld_r_r(StdReg::L, StdReg::C)),
            0x6A => Some(self.ld_r_r(StdReg::L, StdReg::D)),
            0x6B => Some(self.ld_r_r(StdReg::L, StdReg::E)),
            0x6C => Some(self.ld_r_r(StdReg::L, StdReg::H)),
            0x6D => Some(self.ld_r_r(StdReg::L, StdReg::L)),
            0x6E => Some(self.ld_r_r(StdReg::L, StdReg::HL)),
            0x6F => Some(self.ld_n_a(LoadReg::L)),
            0x70 => Some(self.ld_r_r(StdReg::HL, StdReg::B)),
            0x71 => Some(self.ld_r_r(StdReg::HL, StdReg::C)),
            0x72 => Some(self.ld_r_r(StdReg::HL, StdReg::D)),
            0x73 => Some(self.ld_r_r(StdReg::HL, StdReg::E)),
            0x74 => Some(self.ld_r_r(StdReg::HL, StdReg::H)),
            0x75 => Some(self.ld_r_r(StdReg::HL, StdReg::L)),
            0x77 => Some(self.ld_n_a(LoadReg::MemHL)),
            0x78 => Some(self.ld_a_n(LoadReg::B)),
            0x79 => Some(self.ld_a_n(LoadReg::C)),
            0x7A => Some(self.ld_a_n(LoadReg::D)),
            0x7B => Some(self.ld_a_n(LoadReg::E)),
            0x7C => Some(self.ld_a_n(LoadReg::H)),
            0x7D => Some(self.ld_a_n(LoadReg::L)),
            0x7E => Some(self.ld_a_n(LoadReg::MemHL)),
            0x7F => Some(self.ld_a_n(LoadReg::A)),
            _ => None,
        }
    }

    /// Opcodes 0x80 to 0xBF: arithmetic and logic on `A`.
    pub open spec fn run_arithmetic(self, opcode: u8) -> Option<(State, u8)> {
        match opcode {
            0x80 => Some(self.add_a_r(StdReg::B)),
            0x81 => Some(self.add_a_r(StdReg::C)),
            0x82 => Some(self.add_a_r(StdReg::D)),
            0x83 => Some(self.add_a_r(StdReg::E)),
            0x84 => Some(self.add_a_r(StdReg::H)),
            0x85 => Some(self.add_a_r(StdReg::L)),
            0x86 => Some(self.add_a_r(StdReg::HL)),
            0x87 => Some(self.add_a_r(StdReg::A)),
            0x88 => Some(self.adc_a_n(StdRegN::B)),
            0x89 => Some(self.adc_a_n(StdRegN::C)),
            0x8A => Some(self.adc_a_n(StdRegN::D)),
            0x8B => Some(self.adc_a_n(StdRegN::E)),
            0x8C => Some(self.adc_a_n(StdRegN::H)),
            0x8D => Some(self.adc_a_n(StdRegN::L)),
            0x8E => Some(self.adc_a_n(StdRegN::HL)),
            0x8F => Some(self.adc_a_n(StdRegN::A)),
            0xA8 => Some(self.xor_r(StdReg::B)),
            0xA9 => Some(self.xor_r(StdReg::C)),
            0xAA => Some(self.xor_r(StdReg::D)),
            0xAB => Some(self.xor_r(StdReg::E)),
            0xAC => Some(self.xor_r(StdReg::H)),
            0xAD => Some(self.xor_r(StdReg::L)),
            0xAE => Some(self.xor_r(StdReg::HL)),
            0xAF => Some(self.xor_r(StdReg::A)),
            0xB0 => Some(self.or_a_r(StdReg::B)),
            0xB1 => Some(self.or_a_r(StdReg::C)),
            0xB2 => Some(self.or_a_r(StdReg::D)),
            0xB3 => Some(self.or_a_r(StdReg::E)),
            0xB4 => Some(self.or_a_r(StdReg::H)),
            0xB5 => Some(self.or_a_r(StdReg::L)),
            0xB6 => Some(self.or_a_r(StdReg::HL)),
            0xB7 => Some(self.or_a_r(StdReg::A)),
            0xB8 => Some(self.cp_a_r(StdReg::B)),
            0xB9 => Some(self.cp_a_r(StdReg::C)),
            0xBA => Some(self.cp_a_r(StdReg::D)),
            0xBB => Some(self.cp_a_r(StdReg::E)),
            0xBC => Some(self.cp_a_r(StdReg::H)),
            0xBD => Some(self.cp_a_r(StdReg::L)),
            0xBE => Some(self.cp_a_r(StdReg::HL)),
            0xBF => Some(self.cp_a_r(StdReg::A)),
            _ => None,
        }
    }

    /// Opcodes 0xC0 to 0xFF: calls, returns, jumps, the stack, and the
    /// rest.
    pub open spec fn run_high(self, opcode: u8) -> Option<(State, u8)> {
        match opcode {
            0xC0 => Some(self.ret_cc(FlagCond::NZ)),
            0xC1 => Some(self.pop_bc()),
            0xC3 => Some(self.jp_nn()),
            0xC4 => Some(self.call_cc(FlagCond::NZ)),
            0xC5 => Some(self.push_rr(self.reg.b, self.reg.c)),
            0xC7 => Some(self.rst(0x0000)),
            0xC8 => Some(self.ret_cc(FlagCond::Z)),
            0xC9 => Some(self.ret()),
            0xCC => Some(self.call_cc(FlagCond::Z)),
            0xCD => Some(self.call()),
            0xCE => Some(self.adc_a_n(StdRegN::N)),
            0xCF => Some(self.rst(0x0008)),
            0xD0 => Some(self.ret_cc(FlagCond::NC)),
            0xD1 => Some(self.pop_de()),
            0xD4 => Some(self.call_cc(FlagCond::NC)),
            0xD5 => Some(self.push_rr(self.reg.d, self.reg.e)),
            0xD7 => Some(self.rst(0x0010)),
            0xD8 => Some(self.ret_cc(FlagCond::C)),
            0xDC => Some(self.call_cc(FlagCond::C)),
            0xDF => Some(self.rst(0x0018)),
            0xE0 => Some(self.ld_ff00_a()),
            0xE1 => Some(self.pop_hl()),
            0xE5 => Some(self.push_rr(self.reg.h, self.reg.l)),
            0xE7 => Some(self.rst(0x0020)),
            0xEA => Some(self.ld_n_a(LoadReg::MemNN)),
            0xEF => Some(self.rst(0x0028)),
            0xF0 => Some(self.ld_a_ff00()),
            0xF1 => Some(self.pop_af()),
            0xF3 => Some(self.di()),
            0xF5 => Some(self.push_rr(self.reg.a, self.reg.f)),
            0xF7 => Some(self.rst(0x0030)),
            0xFA => Some(self.ld_a_n(LoadReg::MemNN)),
            0xFB => Some(self.ei()),
            0xFE => Some(self.cp_a_n()),
            0xFF => Some(self.rst(0x0038)),
            _ => None,
        }
    }

    /// The instruction that a primary opcode stands for, run on this
    /// state; `None` for an opcode that has none.
    pub open spec fn run_primary(self, opcode: u8) -> Option<(State, u8)> {
        if opcode < 0x40 {
            self.run_low(opcode)
        } else if opcode < 0x80 {
            self.run_loads(opcode)
        } else if opcode < 0xC0 {
            self.run_arithmetic(opcode)
        } else {
            self.run_high(opcode)
        }
    }

    /// The operand of the extended instruction `RR`, by its opcode.
    pub open spec fn rr_operand(opcode: u8) -> Option<StdReg> {
        match opcode {
            0x18 => Some(StdReg::B),
            0x19 => Some(StdReg::C),
            0x1A => Some(StdReg::D),
            0x1B => Some(StdReg::E),
            0x1C => Some(StdReg::H),
            0x1D => Some(StdReg::L),
            0x1E => Some(StdReg::HL),
            0x1F => Some(StdReg::A),
            _ => None,
        }
    }

    /// The instruction that an extended opcode stands for, run on this
    /// state, whose program counter is on that opcode; `None` for an
    /// opcode that has none. The cycles are those of the instruction
    /// alone, without the prefix.
    pub open spec fn run_extended(self, opcode: u8) -> Option<(State, u8)> {
        match Self::rr_operand(opcode) {
            Some(r) => Some(self.rr_n(r)),
            None => None,
        }
    }

    /// One instruction: the state after it and its cycles, or `None` if
    /// the opcode at the program counter has no instruction. After the
    /// prefix 0xCB the next byte is an extended opcode, and the prefix
    /// costs 4 cycles more.
    pub open spec fn step(self) -> Option<(State, u8)> {
        let opcode: u8 = self.byte(self.pc);
        if opcode == PREFIX {
            match self.advance(1).run_extended(self.imm8()) {
                Some((s, cycles)) => Some((s, (cycles + 4) as u8)),
                None => None,
            }
        } else {
            self.run_primary(opcode)
        }
    }
}

} // verus!
