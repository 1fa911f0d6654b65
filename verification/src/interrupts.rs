//! The interrupt registers, decoded into their five sources.

use vstd::prelude::*;
use crate::memorymap::MemoryMap;

verus! {

/// Address of the interrupt-flag register.
pub const INTERRUPT_FLAGS: u16 = 0xFF0F;

/// Address of the interrupt-enable register.
pub const INTERRUPT_ENABLE: u16 = 0xFFFF;

/// Whether every bit of `mask` is set in `byte`.
pub open spec fn hot(byte: u8, mask: u8) -> bool {
    byte & mask == mask
}

/// One interrupt register: a bit for each source.
#[derive(Debug, Clone, Copy, PartialEq, Eq)]
pub struct Interrupt {
    pub vblank: bool,
    pub lcd_stat: bool,
    pub timer: bool,
    pub serial: bool,
    pub joypad: bool,
}

impl Default for Interrupt {
    /// No source is set.
    fn default() -> (r: Interrupt)
        ensures
            r == Interrupt::decoded(0),
    {
        assert(!hot(0, 0x01) && !hot(0, 0x02) && !hot(0, 0x04) && !hot(0, 0x08) && !hot(0, 0x10))
            by (bit_vector);
        Interrupt { vblank: false, lcd_stat: false, timer: false, serial: false, joypad: false }
    }
}

impl Interrupt {
    /// The sources that `byte` sets: bit 0 is the vertical blank, bit 1
    /// the LCD status, bit 2 the timer, bit 3 the serial link and bit 4
    /// the joypad.
    pub open spec fn decoded(byte: u8) -> Interrupt {
        Interrupt {
            vblank: hot(byte, 0x01),
            lcd_stat: hot(byte, 0x02),
            timer: hot(byte, 0x04),
            serial: hot(byte, 0x08),
            joypad: hot(byte, 0x10),
        }
    }

    /// Whether every bit of `mask` is set in `byte`.
    pub fn is_hot(&self, byte: &u8, mask: u8) -> (r: bool)
        ensures
            r == hot(*byte, mask),
    {
        *byte & mask == mask
    }

    /// Takes the five sources from the low bits of `byte`.
    pub fn decode(&mut self, byte: &u8)
        ensures
            *final(self) == Interrupt::decoded(*byte),
    {
        let vblank: bool = self.is_hot(byte, 0x01);
        let lcd_stat: bool = self.is_hot(byte, 0x02);
        let timer: bool = self.is_hot(byte, 0x04);
        let serial: bool = self.is_hot(byte, 0x08);
        let joypad: bool = self.is_hot(byte, 0x10);
        self.vblank = vblank;
        self.lcd_stat = lcd_stat;
        self.timer = timer;
        self.serial = serial;
        self.joypad = joypad;
    }
}

/// The two interrupt registers of a memory, decoded.
pub struct InterruptHandler<'m> {
    pub mem: &'m MemoryMap,
    pub interrupt_enable: Interrupt,
    pub interrupt_flags: Interrupt,
}

impl<'m> InterruptHandler<'m> {
    /// A handler on `mem` with no source enabled and none requested.
    pub fn new(mem: &'m MemoryMap) -> (h: Self)
        ensures
            h.mem == mem,
            h.interrupt_enable == Interrupt::decoded(0),
            h.interrupt_flags == Interrupt::decoded(0),
    {
        Self { mem, interrupt_enable: Interrupt::default(), interrupt_flags: Interrupt::default() }
    }

    /// The address of the routine to run next. Dispatch is not modelled:
    /// it is always 0.
    pub fn service(&self) -> (r: u16)
        ensures
            r == 0,
    {
        0
    }

    /// Decodes the interrupt-enable register, at 0xFFFF.
    pub fn update_ie(&mut self)
        ensures
            final(self).interrupt_enable == Interrupt::decoded(
                old(self).mem@[INTERRUPT_ENABLE as int],
            ),
            final(self).interrupt_flags == old(self).interrupt_flags,
            final(self).mem == old(self).mem,
    {
        let byte: u8 = self.mem.read_byte(INTERRUPT_ENABLE).unwrap();
        self.interrupt_enable.decode(&byte);
    }

    /// Decodes the interrupt-flag register, at 0xFF0F.
    pub fn update_if(&mut self)
        ensures
            final(self).interrupt_flags == Interrupt::decoded(
                old(self).mem@[INTERRUPT_FLAGS as int],
            ),
            final(self).interrupt_enable == old(self).interrupt_enable,
            final(self).mem == old(self).mem,
    {
        let byte: u8 = self.mem.read_byte(INTERRUPT_FLAGS).unwrap();
        self.interrupt_flags.decode(&byte);
    }
}

} // verus!
