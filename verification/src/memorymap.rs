//! The flat 64 KiB address space.

use vstd::prelude::*;
use crate::cartridge::Cartridge;
use crate::tile::Tile;

verus! {

/// Why a memory access was refused.
#[derive(Debug, Clone, Copy, PartialEq, Eq)]
pub enum MemoryError {
    /// The address lies outside the address space.
    OutOfBounds,
}

/// The regions of the address space.
#[derive(Debug, Clone, Copy)]
pub enum MemSectors {
    RomBank0,
    RomBank1,
    VRam,
    ExtRam,
    WorkRam0,
    WorkRam1,
    EchoRam,
    OAM,
    Unused,
    IOReg,
    HRam,
    IE,
}

impl MemSectors {
    /// The first address of the region.
    pub open spec fn start(&self) -> u16 {
        match *self {
            MemSectors::RomBank0 => 0x0000,
            MemSectors::RomBank1 => 0x4000,
            MemSectors::VRam => 0x8000,
            MemSectors::ExtRam => 0xA000,
            MemSectors::WorkRam0 => 0xC000,
            MemSectors::WorkRam1 => 0xD000,
            MemSectors::EchoRam => 0xE000,
            MemSectors::OAM => 0xFE00,
            MemSectors::Unused => 0xFEA0,
            MemSectors::IOReg => 0xFF00,
            MemSectors::HRam => 0xFF80,
            MemSectors::IE => 0xFFFF,
        }
    }

    /// The first address of the region.
    pub fn val(&self) -> (r: u16)
        ensures
            r == self.start(),
    {
        match *self {
            MemSectors::RomBank0 => 0x0000,
            MemSectors::RomBank1 => 0x4000,
            MemSectors::VRam => 0x8000,
            MemSectors::ExtRam => 0xA000,
            MemSectors::WorkRam0 => 0xC000,
            MemSectors::WorkRam1 => 0xD000,
            MemSectors::EchoRam => 0xE000,
            MemSectors::OAM => 0xFE00,
            MemSectors::Unused => 0xFEA0,
            MemSectors::IOReg => 0xFF00,
            MemSectors::HRam => 0xFF80,
            MemSectors::IE => 0xFFFF,
        }
    }
}

/// Memory once a cartridge is in: its bytes from address 0 on, and 0
/// wherever the cartridge has none.
pub open spec fn cartridge_image(data: Seq<u8>) -> Seq<u8> {
    Seq::new(
        0x10000,
        |i: int|
            if i < data.len() {
                data[i]
            } else {
                0u8
            },
    )
}

/// The 65536-byte address space of the machine.
pub struct MemoryMap {
    memory: [u8; 0x10000],
}

impl View for MemoryMap {
    type V = Seq<u8>;

    closed spec fn view(&self) -> Seq<u8> {
        self.memory@
    }
}

impl Default for MemoryMap {
    /// Memory that holds 0 everywhere.
    fn default() -> (r: MemoryMap)
        ensures
            r@ == Seq::new(0x10000, |i: int| 0u8),
    {
        let m = MemoryMap { memory: [0; 0x10000] };
        assert(m@ =~= Seq::new(0x10000, |i: int| 0u8));
        m
    }
}

impl MemoryMap {
    /// Memory always holds exactly 0x10000 bytes.
    pub broadcast proof fn lemma_len(&self)
        ensures
            #[trigger] self@.len() == 0x10000,
    {
    }

    /// Fills memory from the cartridge: its bytes from address 0 on, and
    /// 0 wherever the cartridge has none.
    pub fn load_cartridge(&mut self, cartridge: &Cartridge)
        ensures
            final(self)@ == cartridge_image(cartridge.data@),
    {
        let mut pos: usize = 0;
        while pos < 0x10000
            invariant
                pos <= 0x10000,
                forall|i: int| 0 <= i < pos ==> self@[i] == cartridge_image(cartridge.data@)[i],
            decreases 0x10000 - pos,
        {
            let ghost before = self@;
            let byte: u8 = if pos >= cartridge.data.len() {
                0x00
            } else {
                cartridge.data[pos]
            };
            self.memory[pos] = byte;
            assert(self@ == before.update(pos as int, byte));
            pos += 1;
        }
        assert(self@ =~= cartridge_image(cartridge.data@));
    }

    /// The tile whose 16 bytes start at `pos`.
    pub fn read_tile(&self, pos: u16) -> (t: Tile)
        requires
            pos <= 0xFFF0,
        ensures
            t.data@ == self@.subrange(pos as int, pos + 16),
    {
        let mut data: Vec<u8> = Vec::new();
        let mut i: u16 = 0;
        while i < 16
            invariant
                i <= 16,
                pos <= 0xFFF0,
                data@ == self@.subrange(pos as int, pos + i),
            decreases 16 - i,
        {
            let byte: u8 = self.memory[(pos + i) as usize];
            data.push(byte);
            assert(data@ =~= self@.subrange(pos as int, pos + i + 1));
            i += 1;
        }
        Tile::new(data)
    }

    /// The byte at `pos`. Every 16-bit address is in bounds.
    pub fn read_byte(&self, pos: u16) -> (r: Result<u8, MemoryError>)
        ensures
            r == Ok::<u8, MemoryError>(self@[pos as int]),
    {
        if pos > MemSectors::IE.val() {
            Err(MemoryError::OutOfBounds)
        } else {
            Ok(self.memory[pos as usize])
        }
    }

    /// Writes `byte` at `pos` and hands it back. No region is
    /// write-protected.
    pub fn write_byte(&mut self, pos: u16, byte: u8) -> (r: Result<u8, MemoryError>)
        ensures
            r == Ok::<u8, MemoryError>(byte),
            final(self)@ == old(self)@.update(pos as int, byte),
    {
        self.memory[pos as usize] = byte;
        Ok(byte)
    }
}

} // verus!
