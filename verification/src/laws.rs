//! What holds of the machine whatever its state: round trips, the
//! straight run of `NOP`, and the invariants that every instruction
//! keeps.

use vstd::prelude::*;
use crate::registers::{
    carry,
    carry_in,
    half_borrow,
    half_carry,
    half_carry_in,
    lemma_af_keeps_high_bits,
    lemma_low_nibble,
    lemma_with_flag,
    lemma_with_flag_keeps_low_nibble,
    pair,
    FlagCond,
    IncDecReg,
    LoadReg,
    LoadRegnnn,
    Registers,
    StdReg,
    StdRegN,
    FLAG_C,
    FLAG_H,
    FLAG_N,
    FLAG_Z,
};
use crate::state::{
    displaced,
    flags_add,
    flags_dec,
    flags_inc,
    flags_sub,
    shifted_right,
    State,
};

verus! {

/// A register pair reads back what was written to it. `AF` reads back
/// the value without the low nibble of `F`, which stays zero.
pub proof fn lemma_pair_round_trip(r: Registers, v: u16)
    ensures
        r.with_hl(v).hl() == v,
        r.with_bc(v).bc() == v,
        r.with_de(v).de() == v,
        r.with_af(v).af() == v & 0xFFF0,
        r.with_af(v).wf(),
{
    lemma_af_keeps_high_bits(v);
}

/// An 8-bit increment of `v` sets Half-carry if the low nibble of `v` is
/// 15 and Zero if `v` is 255, clears Subtract, and leaves Carry, the low
/// nibble of `F` and the other registers as they were.
pub proof fn lemma_flags_inc(reg: Registers, v: u8)
    ensures
        flags_inc(reg, v).half() == (v % 16 == 15),
        flags_inc(reg, v).zero() == (v == 255),
        !flags_inc(reg, v).subtract(),
        flags_inc(reg, v).carry() == reg.carry(),
        flags_inc(reg, v).f & 0x0F == reg.f & 0x0F,
        flags_inc(reg, v) == (Registers { f: flags_inc(reg, v).f, ..reg }),
{
    lemma_low_nibble(v);
    lemma_low_nibble(1);
    let r1 = reg.with_half(half_carry(v, 1));
    let r2 = r1.with_zero(v.wrapping_add(1) == 0);
    lemma_with_flag(reg.f, FLAG_H, half_carry(v, 1));
    lemma_with_flag(r1.f, FLAG_Z, v.wrapping_add(1) == 0);
    lemma_with_flag(r2.f, FLAG_N, false);
}

/// An 8-bit decrement of `v` sets Half-carry if the low nibble of `v` is
/// 0 and Zero if `v` is 1, sets Subtract, and leaves Carry, the low
/// nibble of `F` and the other registers as they were.
pub proof fn lemma_flags_dec(reg: Registers, v: u8)
    ensures
        flags_dec(reg, v).half() == (v % 16 == 0),
        flags_dec(reg, v).zero() == (v == 1),
        flags_dec(reg, v).subtract(),
        flags_dec(reg, v).carry() == reg.carry(),
        flags_dec(reg, v).f & 0x0F == reg.f & 0x0F,
        flags_dec(reg, v) == (Registers { f: flags_dec(reg, v).f, ..reg }),
{
    lemma_low_nibble(v);
    lemma_low_nibble(1);
    let r1 = reg.with_half(half_borrow(v, 1));
    let r2 = r1.with_zero(v.wrapping_sub(1) == 0);
    lemma_with_flag(reg.f, FLAG_H, half_borrow(v, 1));
    lemma_with_flag(r1.f, FLAG_Z, v.wrapping_sub(1) == 0);
    lemma_with_flag(r2.f, FLAG_N, true);
}

/// A comparison of `value` with `amt` sets Zero if they are equal,
/// Half-carry if the low nibble of `value` is the smaller, Carry if
/// `value` is the smaller, and Subtract; the low nibble of `F` and the
/// other registers stay as they were.
pub proof fn lemma_flags_sub(reg: Registers, value: u8, amt: u8)
    ensures
        flags_sub(reg, value, amt).zero() == (value == amt),
        flags_sub(reg, value, amt).half() == (value % 16 < amt % 16),
        flags_sub(reg, value, amt).carry() == (value < amt),
        flags_sub(reg, value, amt).subtract(),
        flags_sub(reg, value, amt).f & 0x0F == reg.f & 0x0F,
        flags_sub(reg, value, amt) == (Registers { f: flags_sub(reg, value, amt).f, ..reg }),
{
    lemma_low_nibble(value);
    lemma_low_nibble(amt);
    let r1 = reg.with_zero(value.wrapping_sub(amt) == 0);
    let r2 = r1.with_half(half_borrow(value, amt));
    let r3 = r2.with_carry(amt > value);
    lemma_with_flag(reg.f, FLAG_Z, value.wrapping_sub(amt) == 0);
    lemma_with_flag(r1.f, FLAG_H, half_borrow(value, amt));
    lemma_with_flag(r2.f, FLAG_C, amt > value);
    lemma_with_flag(r3.f, FLAG_N, true);
}

/// An addition of `v1`, `v2` and a carry-in `c` of 0 or 1 sets
/// Half-carry if the low nibbles and `c` add up to more than 15 and Carry
/// if the sum is more than 255; Zero, Subtract, the low nibble of `F` and
/// the other registers stay as they were.
pub proof fn lemma_flags_add(reg: Registers, v1: u8, v2: u8, c: u8)
    ensures
        flags_add(reg, v1, v2, c).half() == (v1 % 16 + v2 % 16 + c > 15),
        flags_add(reg, v1, v2, c).carry() == (v1 + v2 + c > 255),
        flags_add(reg, v1, v2, c).zero() == reg.zero(),
        flags_add(reg, v1, v2, c).subtract() == reg.subtract(),
        flags_add(reg, v1, v2, c).f & 0x0F == reg.f & 0x0F,
        flags_add(reg, v1, v2, c) == (Registers { f: flags_add(reg, v1, v2, c).f, ..reg }),
        half_carry_in(v1, v2, 0) == half_carry(v1, v2),
        carry_in(v1, v2, 0) == carry(v1, v2),
{
    lemma_low_nibble(v1);
    lemma_low_nibble(v2);
    let r1 = reg.with_half(half_carry_in(v1, v2, c));
    lemma_with_flag(reg.f, FLAG_H, half_carry_in(v1, v2, c));
    lemma_with_flag(r1.f, FLAG_C, carry_in(v1, v2, c));
}

/// The two branch conditions on one flag are each other's negation.
pub proof fn lemma_conditions_are_opposite(flags: u8)
    ensures
        FlagCond::NZ.holds(flags) == !FlagCond::Z.holds(flags),
        FlagCond::NC.holds(flags) == !FlagCond::C.holds(flags),
{
}

/// What is pushed is what is popped, and the stack pointer is back
/// where it was.
pub proof fn lemma_push_pop(s: State, hi: u8, lo: u8)
    requires
        s.wf(),
    ensures
        s.push(hi, lo).pop().1 == pair(hi, lo),
        s.push(hi, lo).pop().0.sp == s.sp,
        s.push(hi, lo).pop().0.reg == s.reg,
        s.push(hi, lo).pop().0.pc == s.pc,
{
}

/// A call followed by a return comes back to the instruction after the
/// call, with the stack pointer and the registers as before the call.
pub proof fn lemma_call_ret(s: State)
    requires
        s.wf(),
    ensures
        s.call().0.ret().0.pc == s.pc.wrapping_add(3),
        s.call().0.ret().0.sp == s.sp,
        s.call().0.ret().0.reg == s.reg,
        s.call().1 == 24,
        s.call().0.ret().1 == 16,
{
}

impl State {
    /// `n` instructions in a row: the state after them and the cycles
    /// they take together, or `None` if one of them is not implemented.
    pub open spec fn steps(self, n: nat) -> Option<(State, nat)>
        decreases n,
    {
        if n == 0 {
            Some((self, 0nat))
        } else {
            match self.step() {
                Some((s, cycles)) => match s.steps((n - 1) as nat) {
                    Some((t, total)) => Some((t, total + cycles as nat)),
                    None => None,
                },
                None => None,
            }
        }
    }

    /// The address `k` bytes after the program counter.
    pub open spec fn ahead(self, k: int) -> int {
        (self.pc + k) % 0x10000
    }
}

/// Over a stretch of `n` bytes of `NOP`, `n` steps move the program
/// counter on by `n` and change nothing else, in 4 cycles each.
pub proof fn lemma_nops(s: State, n: nat)
    requires
        s.wf(),
        forall|k: int| 0 <= k < n ==> s.mem[#[trigger] s.ahead(k)] == 0,
    ensures
        s.steps(n) == Some((State { pc: s.ahead(n as int) as u16, ..s }, 4 * n)),
    decreases n,
{
    if n > 0 {
        assert(s.mem[s.ahead(0)] == 0);
        let s1 = s.step().unwrap().0;
        assert forall|k: int| 0 <= k < n - 1 implies s1.mem[#[trigger] s1.ahead(k)] == 0 by {
            assert(s1.ahead(k) == s.ahead(k + 1));
        }
        lemma_nops(s1, (n - 1) as nat);
    }
}

/// Loads, stores and jumps keep a sound state sound.
pub proof fn lemma_moves_keep_sound(s: State)
    requires
        s.sound(),
    ensures
        s.nop().0.sound(),
        s.di().0.sound(),
        s.ei().0.sound(),
        s.jr().0.sound(),
        s.jp_nn().0.sound(),
        s.ld_ff00_a().0.sound(),
        s.ld_a_ff00().0.sound(),
        s.ldi_a_memhl().0.sound(),
        s.ld_mem_hl_a().0.sound(),
        s.ld_mem_hl_a_dec().0.sound(),
        s.ld_mem_hl_a_inc().0.sound(),
        forall|c: FlagCond| (#[trigger] s.jr_cond(c)).0.sound(),
        forall|r1: StdReg, r2: StdReg| (#[trigger] s.ld_r_r(r1, r2)).0.sound(),
        forall|r: LoadReg| (#[trigger] s.ld_a_n(r)).0.sound(),
        forall|r: LoadReg| (#[trigger] s.ld_n_a(r)).0.sound(),
        forall|r: LoadRegnnn| (#[trigger] s.ld_n_nn(r)).0.sound(),
        forall|r: StdReg| (#[trigger] s.ld_r_n(r)).0.sound(),
{
}

/// Arithmetic, logic and rotates keep a sound state sound.
pub proof fn lemma_arithmetic_keeps_sound(s: State)
    requires
        s.sound(),
    ensures
        s.rrca().0.sound(),
        s.cp_a_n().0.sound(),
        forall|r: StdReg| (#[trigger] s.add_a_r(r)).0.sound(),
        forall|r: StdRegN| (#[trigger] s.adc_a_n(r)).0.sound(),
        forall|r: IncDecReg| (#[trigger] s.inc_reg(r)).0.sound(),
        forall|r: StdReg| (#[trigger] s.dec_r(r)).0.sound(),
        forall|r: StdReg| (#[trigger] s.cp_a_r(r)).0.sound(),
        forall|r: StdReg| (#[trigger] s.or_a_r(r)).0.sound(),
        forall|r: StdReg| (#[trigger] s.xor_r(r)).0.sound(),
        forall|r: StdReg| (#[trigger] s.rr_n(r)).0.sound(),
{
    broadcast use lemma_with_flag_keeps_low_nibble;

    assert(FLAG_C & 0x0F == 0 && FLAG_Z & 0x0F == 0 && 0u8 & 0x0F == 0) by (bit_vector);
}

/// Calls, returns and the stack keep a sound state sound.
pub proof fn lemma_stack_keeps_sound(s: State)
    requires
        s.sound(),
    ensures
        s.ret().0.sound(),
        s.call().0.sound(),
        s.pop_bc().0.sound(),
        s.pop_de().0.sound(),
        s.pop_hl().0.sound(),
        s.pop_af().0.sound(),
        forall|c: FlagCond| (#[trigger] s.ret_cc(c)).0.sound(),
        forall|c: FlagCond| (#[trigger] s.call_cc(c)).0.sound(),
        forall|hi: u8, lo: u8| (#[trigger] s.push_rr(hi, lo)).0.sound(),
        forall|v: u16| (#[trigger] s.rst(v)).0.sound(),
{
    lemma_pair_round_trip(s.pop().0.reg, s.pop().1);
}

/// Every instruction keeps memory at its size and the low nibble of `F`
/// at zero.
pub proof fn lemma_step_keeps_sound(s: State)
    requires
        s.sound(),
        s.step() is Some,
    ensures
        s.step().unwrap().0.sound(),
{
    let opcode: u8 = s.byte(s.pc);
    if opcode == 0xCB {
        lemma_arithmetic_keeps_sound(s.advance(1));
    } else {
        lemma_moves_keep_sound(s);
        lemma_arithmetic_keeps_sound(s);
        lemma_stack_keeps_sound(s);
        if opcode < 0x40 {
            assert(s.run_low(opcode).unwrap().0.sound());
        } else if opcode < 0x80 {
            assert(s.run_loads(opcode).unwrap().0.sound());
        } else if opcode < 0xC0 {
            assert(s.run_arithmetic(opcode).unwrap().0.sound());
        } else {
            assert(s.run_high(opcode).unwrap().0.sound());
        }
    }
}

/// A turn to the right, bit by bit: bits 7 to 1 move down by one, and
/// `top` comes in as bit 7. With bit 0 coming in it is a rotation.
pub proof fn lemma_shifted_right(v: u8, top: bool)
    ensures
        shifted_right(v, top) == (v >> 1) | (if top {
            0x80u8
        } else {
            0u8
        }),
        shifted_right(v, v % 2 == 1) == (v >> 1) | (v << 7),
{
    assert(v / 2 + 128 == (v >> 1) | 0x80u8 && v / 2 == (v >> 1) | 0u8) by (bit_vector);
    assert(v % 2 == 1 ==> (v >> 1) | (v << 7) == (v >> 1) | 0x80u8) by (bit_vector);
    assert(v % 2 != 1 ==> (v >> 1) | (v << 7) == (v >> 1) | 0u8) by (bit_vector);
}

/// A displacement is a signed byte: the target is `pc + d` for `d` up to
/// 127 and `pc + d - 256` from 128 on, modulo 0x10000.
pub proof fn lemma_displaced(pc: u16, d: u8)
    ensures
        d < 0x80 ==> displaced(pc, d) == (pc + d) % 0x10000,
        d >= 0x80 ==> displaced(pc, d) == (pc + d - 256) % 0x10000,
{
}

impl State {
    /// The bytes that the instruction starting with `opcode` takes, the
    /// opcode and its operands, as the opcode table of the processor
    /// gives them.
    pub open spec fn length(opcode: u8) -> u16 {
        match opcode {
            0x01 | 0x08 | 0x11 | 0x21 | 0x31 => 3,
            0xC2 | 0xC3 | 0xC4 | 0xCA | 0xCC | 0xCD => 3,
            0xD2 | 0xD4 | 0xDA | 0xDC | 0xEA | 0xFA => 3,
            0x06 | 0x0E | 0x16 | 0x1E | 0x26 | 0x2E | 0x36 | 0x3E => 2,
            0x10 | 0x18 | 0x20 | 0x28 | 0x30 | 0x38 => 2,
            0xC6 | 0xCE | 0xD6 | 0xDE | 0xE6 | 0xEE | 0xF6 | 0xFE => 2,
            0xCB | 0xE0 | 0xE8 | 0xF0 | 0xF8 => 2,
            _ => 1,
        }
    }

    /// Whether the instruction at the program counter goes elsewhere: a
    /// jump, a call, a return or a restart, taken.
    pub open spec fn jumps(self) -> bool {
        match self.byte(self.pc) {
            0x18 | 0xC3 | 0xC9 | 0xCD => true,
            0xC7 | 0xCF | 0xD7 | 0xDF | 0xE7 | 0xEF | 0xF7 | 0xFF => true,
            0x20 | 0xC0 | 0xC4 => FlagCond::NZ.holds(self.reg.f),
            0x28 | 0xC8 | 0xCC => FlagCond::Z.holds(self.reg.f),
            0x30 | 0xD0 | 0xD4 => FlagCond::NC.holds(self.reg.f),
            0x38 | 0xD8 | 0xDC => FlagCond::C.holds(self.reg.f),
            _ => false,
        }
    }
}

/// An instruction that does not jump leaves the program counter on the
/// byte after itself.
pub proof fn lemma_straight_line(s: State)
    requires
        s.step() is Some,
        !s.jumps(),
    ensures
        s.step().unwrap().0.pc == s.pc.wrapping_add(State::length(s.byte(s.pc))),
{
    let opcode: u8 = s.byte(s.pc);
    if opcode == 0xCB {
    } else if opcode < 0x40 {
        assert(s.run_low(opcode).unwrap().0.pc == s.pc.wrapping_add(State::length(opcode)));
    } else if opcode < 0x80 {
        assert(s.run_loads(opcode).unwrap().0.pc == s.pc.wrapping_add(State::length(opcode)));
    } else if opcode < 0xC0 {
        assert(s.run_arithmetic(opcode).unwrap().0.pc == s.pc.wrapping_add(
            State::length(opcode),
        ));
    } else {
        assert(s.run_high(opcode).unwrap().0.pc == s.pc.wrapping_add(State::length(opcode)));
    }
}

/// An instruction takes 4, 8, 12, 16, 20 or 24 cycles.
pub proof fn lemma_step_cycles(s: State)
    requires
        s.step() is Some,
    ensures
        s.step().unwrap().1 % 4 == 0,
        4 <= s.step().unwrap().1 <= 24,
{
    let opcode: u8 = s.byte(s.pc);
    if opcode == 0xCB {
    } else if opcode < 0x40 {
        assert(4 <= s.run_low(opcode).unwrap().1 <= 24);
    } else if opcode < 0x80 {
        assert(4 <= s.run_loads(opcode).unwrap().1 <= 24);
    } else if opcode < 0xC0 {
        assert(4 <= s.run_arithmetic(opcode).unwrap().1 <= 24);
    } else {
        assert(4 <= s.run_high(opcode).unwrap().1 <= 24);
    }
}

} // verus!
