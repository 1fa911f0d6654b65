//! The register file, the condition flags and the flag arithmetic.
//!
//! `F` keeps its four flags in the high nibble: bit 7 is Zero, bit 6 is
//! Subtract, bit 5 is Half-carry and bit 4 is Carry. Register pairs are
//! big-endian: the first register of a pair holds bits 15..8.

use vstd::prelude::*;

verus! {

/// Mask of the Zero flag in `F`.
pub const FLAG_Z: u8 = 0x80;

/// Mask of the Subtract flag in `F`.
pub const FLAG_N: u8 = 0x40;

/// Mask of the Half-carry flag in `F`.
pub const FLAG_H: u8 = 0x20;

/// Mask of the Carry flag in `F`.
pub const FLAG_C: u8 = 0x10;

/// Operand selector: an 8-bit register, the byte at `HL`, or an immediate.
#[derive(Debug, Clone, Copy)]
pub enum StdRegN {
    A,
    B,
    C,
    D,
    E,
    H,
    L,
    HL,
    N,
}

/// Operand selector: an 8-bit register or the byte at `HL`.
#[derive(Debug, Clone, Copy)]
pub enum StdReg {
    A,
    B,
    C,
    D,
    E,
    H,
    L,
    HL,
}

/// Target selector of an increment: an 8-bit register, a 16-bit register
/// or the byte at `HL`.
#[derive(Debug, Clone, Copy)]
pub enum IncDecReg {
    A,
    B,
    C,
    D,
    E,
    H,
    L,
    HL,
    BC,
    DE,
    SP,
    MemHL,
}

/// The other side of a load that involves `A`.
#[derive(Debug, Clone, Copy)]
pub enum LoadReg {
    A,
    B,
    C,
    D,
    E,
    H,
    L,
    MemBC,
    MemDE,
    MemHL,
    MemNN,
    N,
}

/// Target selector of a 16-bit immediate load.
#[derive(Debug, Clone, Copy)]
pub enum LoadRegnnn {
    BC,
    DE,
    HL,
    SP,
}

/// A branch condition.
#[derive(Debug, Clone, Copy)]
pub enum FlagCond {
    NZ,
    Z,
    NC,
    C,
}

/// Whether every bit of `mask` is set in `flags`.
pub open spec fn flag_set(flags: u8, mask: u8) -> bool {
    flags & mask == mask
}

/// `flags` with the bits of `mask` switched on or off.
pub open spec fn with_flag(flags: u8, mask: u8, on: bool) -> u8 {
    if on {
        flags | mask
    } else {
        flags & !mask
    }
}

/// The flag byte selected by position: 0 is bit 7, 1 is bit 6, and so
/// on, going round after eight positions.
pub open spec fn flag_bit(pos: u32) -> u8 {
    0x80u8 >> (pos % 8)
}

/// Positions 0 to 3 select Zero, Subtract, Half-carry and Carry.
pub proof fn lemma_flag_bits()
    ensures
        flag_bit(0) == FLAG_Z,
        flag_bit(1) == FLAG_N,
        flag_bit(2) == FLAG_H,
        flag_bit(3) == FLAG_C,
{
    assert(0x80u8 >> 0u32 == 0x80u8 && 0x80u8 >> 1u32 == 0x40u8 && 0x80u8 >> 2u32 == 0x20u8
        && 0x80u8 >> 3u32 == 0x10u8) by (bit_vector);
}

/// Switching one of the four flags changes that flag and nothing else:
/// the other three flags and the low nibble stay as they were.
pub proof fn lemma_with_flag(flags: u8, mask: u8, on: bool)
    by (bit_vector)
    requires
        mask == FLAG_Z || mask == FLAG_N || mask == FLAG_H || mask == FLAG_C,
    ensures
        flag_set(with_flag(flags, mask, on), mask) == on,
        mask != FLAG_Z ==> flag_set(with_flag(flags, mask, on), FLAG_Z) == flag_set(flags, FLAG_Z),
        mask != FLAG_N ==> flag_set(with_flag(flags, mask, on), FLAG_N) == flag_set(flags, FLAG_N),
        mask != FLAG_H ==> flag_set(with_flag(flags, mask, on), FLAG_H) == flag_set(flags, FLAG_H),
        mask != FLAG_C ==> flag_set(with_flag(flags, mask, on), FLAG_C) == flag_set(flags, FLAG_C),
        with_flag(flags, mask, on) & 0x0F == flags & 0x0F,
{
}

/// Switched on in an empty flag byte, a flag is the whole byte.
pub proof fn lemma_flag_alone()
    ensures
        with_flag(0, FLAG_Z, true) == FLAG_Z,
        with_flag(0, FLAG_N, true) == FLAG_N,
        with_flag(0, FLAG_H, true) == FLAG_H,
        with_flag(0, FLAG_C, true) == FLAG_C,
{
    assert(0u8 | 0x80u8 == 0x80u8 && 0u8 | 0x40u8 == 0x40u8 && 0u8 | 0x20u8 == 0x20u8 && 0u8
        | 0x10u8 == 0x10u8) by (bit_vector);
}

/// Switching one of the four flags leaves the low nibble as it was.
pub broadcast proof fn lemma_with_flag_keeps_low_nibble(flags: u8, mask: u8, on: bool)
    requires
        mask == FLAG_Z || mask == FLAG_N || mask == FLAG_H || mask == FLAG_C,
    ensures
        (#[trigger] with_flag(flags, mask, on)) & 0x0F == flags & 0x0F,
{
    lemma_with_flag(flags, mask, on);
}

/// A flag byte is made of its four flags and its low nibble: two bytes
/// that agree on all five are equal.
pub proof fn lemma_flags_determine_byte(f: u8, g: u8)
    by (bit_vector)
    requires
        flag_set(f, FLAG_Z) == flag_set(g, FLAG_Z),
        flag_set(f, FLAG_N) == flag_set(g, FLAG_N),
        flag_set(f, FLAG_H) == flag_set(g, FLAG_H),
        flag_set(f, FLAG_C) == flag_set(g, FLAG_C),
        f & 0x0F == g & 0x0F,
    ensures
        f == g,
{
}

/// Returns `flag` with the bit at `pos` set, position 0 being bit 7.
pub fn set_flag(flag: u8, pos: u32) -> (r: u8)
    ensures
        r == flag | flag_bit(pos),
{
    let shift: u32 = pos % 8;
    flag | (0x80u8 >> shift)
}

/// Returns `flag` with the bit at `pos` cleared, position 0 being bit 7.
pub fn clear_flag(flag: u8, pos: u32) -> (r: u8)
    ensures
        r == flag & !flag_bit(pos),
{
    let shift: u32 = pos % 8;
    flag & !(0x80u8 >> shift)
}

/// Adding the low nibbles of `v1` and `v2` carries out of bit 3.
pub open spec fn half_carry(v1: u8, v2: u8) -> bool {
    (v1 & 0x0F) + (v2 & 0x0F) > 0x0F
}

/// Subtracting `v2` from `v1` borrows from bit 4.
pub open spec fn half_borrow(v1: u8, v2: u8) -> bool {
    (v1 & 0x0F) < (v2 & 0x0F)
}

/// Adding `v1` and `v2` carries out of bit 7.
pub open spec fn carry(v1: u8, v2: u8) -> bool {
    v1 + v2 > 0xFF
}

/// Subtracting `v2` from `v1` borrows.
pub open spec fn borrow(v1: u8, v2: u8) -> bool {
    v1 < v2
}

/// Adding `v1`, `v2` and a carry-in of 0 or 1 carries out of bit 3.
pub open spec fn half_carry_in(v1: u8, v2: u8, carry_in: u8) -> bool {
    (v1 & 0x0F) + (v2 & 0x0F) + carry_in > 0x0F
}

/// Adding `v1`, `v2` and a carry-in of 0 or 1 carries out of bit 7.
pub open spec fn carry_in(v1: u8, v2: u8, carry_in: u8) -> bool {
    v1 + v2 + carry_in > 0xFF
}

/// The low nibble of a byte is its remainder modulo 16.
pub proof fn lemma_low_nibble(v: u8)
    by (bit_vector)
    ensures
        v & 0x0Fu8 == v % 16u8,
        v & 0x0Fu8 <= 15u8,
{
}

/// Returns true if adding `v1` and `v2` sets the half-carry flag.
pub fn will_half_carry(v1: u8, v2: u8) -> (r: bool)
    ensures
        r == half_carry(v1, v2),
        r == (v1 % 16 + v2 % 16 > 15),
{
    proof {
        lemma_low_nibble(v1);
        lemma_low_nibble(v2);
    }
    (v1 & 0x0F) + (v2 & 0x0F) > 0x0F
}

/// Returns true if subtracting `v2` from `v1` sets the half-carry flag.
pub fn will_half_borrow(v1: u8, v2: u8) -> (r: bool)
    ensures
        r == half_borrow(v1, v2),
        r == (v1 % 16 < v2 % 16),
{
    proof {
        lemma_low_nibble(v1);
        lemma_low_nibble(v2);
    }
    (v1 & 0x0F) < (v2 & 0x0F)
}

/// Returns true if adding `v1` and `v2` sets the carry flag.
pub fn will_carry(v1: u8, v2: u8) -> (r: bool)
    ensures
        r == carry(v1, v2),
{
    v1 > 0xFF - v2
}

/// Returns true if subtracting `v2` from `v1` sets the carry flag.
pub fn will_borrow(v1: u8, v2: u8) -> (r: bool)
    ensures
        r == borrow(v1, v2),
{
    v1 < v2
}

/// `value + 1` modulo 256, and whether the addition half-carries.
pub fn increment(value: u8) -> (r: (u8, bool))
    ensures
        r.0 == (value + 1) % 256,
        r.0 == value.wrapping_add(1),
        r.1 == half_carry(value, 1),
        r.1 == (value % 16 == 15),
{
    (value.wrapping_add(1), will_half_carry(value, 1))
}

/// `value - 1` modulo 256, and whether the subtraction half-borrows.
pub fn decrement(value: u8) -> (r: (u8, bool))
    ensures
        r.0 == (value - 1) % 256,
        r.0 == value.wrapping_sub(1),
        r.1 == half_borrow(value, 1),
        r.1 == (value % 16 == 0),
{
    (value.wrapping_sub(1), will_half_borrow(value, 1))
}

/// `value - amt` modulo 256, and whether the subtraction half-borrows.
pub fn dec(value: u8, amt: u8) -> (r: (u8, bool))
    ensures
        r.0 == (value - amt) % 256,
        r.0 == value.wrapping_sub(amt),
        r.1 == half_borrow(value, amt),
{
    (value.wrapping_sub(amt), will_half_borrow(value, amt))
}

/// The 16-bit value whose high byte is `hi` and whose low byte is `lo`.
pub open spec fn pair(hi: u8, lo: u8) -> u16 {
    (hi as int * 256 + lo as int) as u16
}

/// The high byte of a 16-bit value.
pub open spec fn high(v: u16) -> u8 {
    (v / 256) as u8
}

/// The low byte of a 16-bit value.
pub open spec fn low(v: u16) -> u8 {
    (v % 256) as u8
}

/// Splitting a 16-bit value and pairing the halves gives it back, and
/// the halves of a pair are the bytes it was made of.
pub proof fn lemma_pair_split(v: u16, hi: u8, lo: u8)
    ensures
        pair(high(v), low(v)) == v,
        high(pair(hi, lo)) == hi,
        low(pair(hi, lo)) == lo,
{
}

/// Pairing the high byte of `v` with its low byte less the low nibble
/// gives `v` less its low nibble.
pub proof fn lemma_af_keeps_high_bits(v: u16)
    ensures
        pair(high(v), low(v) & 0xF0) == v & 0xFFF0,
        (low(v) & 0xF0) & 0x0F == 0,
{
    let lo: u8 = low(v);
    let hi: u8 = high(v);
    assert((lo & 0xF0u8) & 0x0Fu8 == 0u8) by (bit_vector);
    assert((hi as u16) * 256 + ((lo & 0xF0u8) as u16) == v & 0xFFF0u16) by (bit_vector)
        requires
            lo == (v % 256) as u8,
            hi == (v / 256) as u8,
    ;
}

/// Joins two bytes into a 16-bit value.
pub fn join(hi: u8, lo: u8) -> (r: u16)
    ensures
        r == pair(hi, lo),
{
    assert(((hi as u16) << 8) | (lo as u16) == (hi as u16) * 256 + (lo as u16)) by (bit_vector);
    ((hi as u16) << 8) | (lo as u16)
}

/// The high byte of `v`.
pub fn high_byte(v: u16) -> (r: u8)
    ensures
        r == high(v),
{
    assert((v >> 8) == v / 256) by (bit_vector);
    (v >> 8) as u8
}

/// The low byte of `v`.
pub fn low_byte(v: u16) -> (r: u8)
    ensures
        r == low(v),
{
    assert((v & 0xFF) == v % 256) by (bit_vector);
    (v & 0xFF) as u8
}

impl FlagCond {
    /// Whether the condition holds of the flag byte `flags`.
    pub open spec fn holds(&self, flags: u8) -> bool {
        match self {
            FlagCond::NZ => !flag_set(flags, FLAG_Z),
            FlagCond::Z => flag_set(flags, FLAG_Z),
            FlagCond::NC => !flag_set(flags, FLAG_C),
            FlagCond::C => flag_set(flags, FLAG_C),
        }
    }

    /// Checks the condition against the flag byte: `NZ` and `Z` look at
    /// the Zero flag, `NC` and `C` at the Carry flag.
    pub fn check(&self, flags: u8) -> (r: bool)
        ensures
            r == self.holds(flags),
    {
        match self {
            FlagCond::NZ => flags & FLAG_Z != FLAG_Z,
            FlagCond::Z => flags & FLAG_Z == FLAG_Z,
            FlagCond::NC => flags & FLAG_C != FLAG_C,
            FlagCond::C => flags & FLAG_C == FLAG_C,
        }
    }
}

/// The eight 8-bit registers.
#[derive(Debug, Clone, Copy, PartialEq, Eq)]
pub struct Registers {
    pub a: u8,
    pub f: u8,
    pub b: u8,
    pub c: u8,
    pub d: u8,
    pub e: u8,
    pub h: u8,
    pub l: u8,
}

impl Default for Registers {
    fn default() -> (r: Registers)
        ensures
            r == (Registers { a: 0, f: 0, b: 0, c: 0, d: 0, e: 0, h: 0, l: 0 }),
            r.wf(),
    {
        assert(0u8 & 0x0Fu8 == 0u8) by (bit_vector);
        Registers { a: 0, f: 0, b: 0, c: 0, d: 0, e: 0, h: 0, l: 0 }
    }
}

impl Registers {
    /// The low nibble of `F` is zero.
    pub open spec fn wf(&self) -> bool {
        self.f & 0x0F == 0
    }

    /// The pair `AF`.
    pub open spec fn af(&self) -> u16 {
        pair(self.a, self.f)
    }

    /// The pair `BC`.
    pub open spec fn bc(&self) -> u16 {
        pair(self.b, self.c)
    }

    /// The pair `DE`.
    pub open spec fn de(&self) -> u16 {
        pair(self.d, self.e)
    }

    /// The pair `HL`.
    pub open spec fn hl(&self) -> u16 {
        pair(self.h, self.l)
    }

    /// The registers after `AF` is set: `F` takes the low byte without
    /// its low nibble.
    pub open spec fn with_af(self, val: u16) -> Registers {
        Registers { a: high(val), f: low(val) & 0xF0, ..self }
    }

    /// The registers after `BC` is set.
    pub open spec fn with_bc(self, val: u16) -> Registers {
        Registers { b: high(val), c: low(val), ..self }
    }

    /// The registers after `DE` is set.
    pub open spec fn with_de(self, val: u16) -> Registers {
        Registers { d: high(val), e: low(val), ..self }
    }

    /// The registers after `HL` is set.
    pub open spec fn with_hl(self, val: u16) -> Registers {
        Registers { h: high(val), l: low(val), ..self }
    }

    /// The Zero flag.
    pub open spec fn zero(&self) -> bool {
        flag_set(self.f, FLAG_Z)
    }

    /// The Subtract flag.
    pub open spec fn subtract(&self) -> bool {
        flag_set(self.f, FLAG_N)
    }

    /// The Half-carry flag.
    pub open spec fn half(&self) -> bool {
        flag_set(self.f, FLAG_H)
    }

    /// The Carry flag.
    pub open spec fn carry(&self) -> bool {
        flag_set(self.f, FLAG_C)
    }

    /// The Carry flag as a number: 1 if it is set, 0 if not.
    pub open spec fn carry_bit(&self) -> u8 {
        if self.carry() {
            1
        } else {
            0
        }
    }

    /// The registers with the Zero flag switched on or off.
    pub open spec fn with_zero(self, on: bool) -> Registers {
        Registers { f: with_flag(self.f, FLAG_Z, on), ..self }
    }

    /// The registers with the Subtract flag switched on or off.
    pub open spec fn with_subtract(self, on: bool) -> Registers {
        Registers { f: with_flag(self.f, FLAG_N, on), ..self }
    }

    /// The registers with the Half-carry flag switched on or off.
    pub open spec fn with_half(self, on: bool) -> Registers {
        Registers { f: with_flag(self.f, FLAG_H, on), ..self }
    }

    /// The registers with the Carry flag switched on or off.
    pub open spec fn with_carry(self, on: bool) -> Registers {
        Registers { f: with_flag(self.f, FLAG_C, on), ..self }
    }

    /// The register values once the boot ROM has run.
    pub fn dmg0() -> (r: Self)
        ensures
            r == (Registers {
                a: 0x01,
                f: 0xB0,
                b: 0x00,
                c: 0x13,
                d: 0x00,
                e: 0xD8,
                h: 0x01,
                l: 0x4D,
            }),
            r.wf(),
    {
        assert(0xB0u8 & 0x0Fu8 == 0u8) by (bit_vector);
        Self { a: 0x01, f: 0xB0, b: 0x00, c: 0x13, d: 0x00, e: 0xD8, h: 0x01, l: 0x4D }
    }

    /// The pair `AF`.
    pub fn get_af(&self) -> (r: u16)
        ensures
            r == self.af(),
    {
        join(self.a, self.f)
    }

    /// Sets `A` to the high byte and `F` to the low byte, whose low
    /// nibble is dropped.
    pub fn set_af(&mut self, val: u16)
        ensures
            *final(self) == old(self).with_af(val),
            final(self).af() == val & 0xFFF0,
            final(self).wf(),
    {
        proof {
            lemma_af_keeps_high_bits(val);
        }
        self.a = high_byte(val);
        self.f = low_byte(val) & 0xF0;
    }

    /// The pair `HL`.
    pub fn get_hl(&self) -> (r: u16)
        ensures
            r == self.hl(),
    {
        join(self.h, self.l)
    }

    /// Sets `H` to the high byte and `L` to the low byte.
    pub fn set_hl(&mut self, val: u16)
        ensures
            *final(self) == old(self).with_hl(val),
            final(self).hl() == val,
    {
        self.h = high_byte(val);
        self.l = low_byte(val);
    }

    /// The pair `BC`.
    pub fn get_bc(&self) -> (r: u16)
        ensures
            r == self.bc(),
    {
        join(self.b, self.c)
    }

    /// Sets `B` to the high byte and `C` to the low byte.
    pub fn set_bc(&mut self, val: u16)
        ensures
            *final(self) == old(self).with_bc(val),
            final(self).bc() == val,
    {
        self.b = high_byte(val);
        self.c = low_byte(val);
    }

    /// The pair `DE`.
    pub fn get_de(&self) -> (r: u16)
        ensures
            r == self.de(),
    {
        join(self.d, self.e)
    }

    /// Sets `D` to the high byte and `E` to the low byte.
    pub fn set_de(&mut self, val: u16)
        ensures
            *final(self) == old(self).with_de(val),
            final(self).de() == val,
    {
        self.d = high_byte(val);
        self.e = low_byte(val);
    }

    /// The 16-bit value read from two bytes in little-endian order.
    pub fn get_nn(&self, low: u8, high: u8) -> (r: u16)
        ensures
            r == pair(high, low),
    {
        join(high, low)
    }

    /// Whether the Zero flag is set.
    pub fn is_z(&self) -> (r: bool)
        ensures
            r == self.zero(),
    {
        self.f & FLAG_Z == FLAG_Z
    }

    /// Whether the Subtract flag is set.
    pub fn is_n(&self) -> (r: bool)
        ensures
            r == self.subtract(),
    {
        self.f & FLAG_N == FLAG_N
    }

    /// Whether the Half-carry flag is set.
    pub fn is_h(&self) -> (r: bool)
        ensures
            r == self.half(),
    {
        self.f & FLAG_H == FLAG_H
    }

    /// Whether the Carry flag is set.
    pub fn is_c(&self) -> (r: bool)
        ensures
            r == self.carry(),
    {
        self.f & FLAG_C == FLAG_C
    }

    /// The Carry flag as a number: 1 if it is set, 0 if not.
    pub fn get_carry(&self) -> (r: u8)
        ensures
            r == self.carry_bit(),
    {
        if self.is_c() {
            0x01
        } else {
            0x00
        }
    }

    /// Sets the Zero flag.
    pub fn set_z(&mut self)
        ensures
            *final(self) == old(self).with_zero(true),
            old(self).wf() ==> final(self).wf(),
    {
        proof {
            lemma_flag_bits();
            lemma_with_flag(self.f, FLAG_Z, true);
        }
        self.f = set_flag(self.f, 0);
    }

    /// Clears the Zero flag.
    pub fn unset_z(&mut self)
        ensures
            *final(self) == old(self).with_zero(false),
            old(self).wf() ==> final(self).wf(),
    {
        proof {
            lemma_flag_bits();
            lemma_with_flag(self.f, FLAG_Z, false);
        }
        self.f = clear_flag(self.f, 0);
    }

    /// Sets the Subtract flag.
    pub fn set_n(&mut self)
        ensures
            *final(self) == old(self).with_subtract(true),
            old(self).wf() ==> final(self).wf(),
    {
        proof {
            lemma_flag_bits();
            lemma_with_flag(self.f, FLAG_N, true);
        }
        self.f = set_flag(self.f, 1);
    }

    /// Clears the Subtract flag.
    pub fn unset_n(&mut self)
        ensures
            *final(self) == old(self).with_subtract(false),
            old(self).wf() ==> final(self).wf(),
    {
        proof {
            lemma_flag_bits();
            lemma_with_flag(self.f, FLAG_N, false);
        }
        self.f = clear_flag(self.f, 1);
    }

    /// Sets the Half-carry flag.
    pub fn set_h(&mut self)
        ensures
            *final(self) == old(self).with_half(true),
            old(self).wf() ==> final(self).wf(),
    {
        proof {
            lemma_flag_bits();
            lemma_with_flag(self.f, FLAG_H, true);
        }
        self.f = set_flag(self.f, 2);
    }

    /// Clears the Half-carry flag.
    pub fn unset_h(&mut self)
        ensures
            *final(self) == old(self).with_half(false),
            old(self).wf() ==> final(self).wf(),
    {
        proof {
            lemma_flag_bits();
            lemma_with_flag(self.f, FLAG_H, false);
        }
        self.f = clear_flag(self.f, 2);
    }

    /// Sets the Carry flag.
    pub fn set_c(&mut self)
        ensures
            *final(self) == old(self).with_carry(true),
            old(self).wf() ==> final(self).wf(),
    {
        proof {
            lemma_flag_bits();
            lemma_with_flag(self.f, FLAG_C, true);
        }
        self.f = set_flag(self.f, 3);
    }

    /// Clears the Carry flag.
    pub fn unset_c(&mut self)
        ensures
            *final(self) == old(self).with_carry(false),
            old(self).wf() ==> final(self).wf(),
    {
        proof {
            lemma_flag_bits();
            lemma_with_flag(self.f, FLAG_C, false);
        }
        self.f = clear_flag(self.f, 3);
    }

    /// Clears `F`.
    pub fn unset_all_flags(&mut self)
        ensures
            *final(self) == (Registers { f: 0, ..*old(self) }),
            final(self).wf(),
    {
        assert(0u8 & 0x0Fu8 == 0u8) by (bit_vector);
        self.f = 0x00;
    }
}

} // verus!
