//! The object attribute memory: 40 sprites of four bytes each, from
//! 0xFE00 on.

use vstd::prelude::*;
use crate::memorymap::MemoryMap;

verus! {

/// The first address of the sprite table.
pub const OAM_START: u16 = 0xFE00;

/// The number of sprites in the table.
pub const SPRITES: usize = 40;

/// The flags of a sprite.
#[derive(Debug, Clone, Copy, PartialEq, Eq)]
pub struct SpriteFlags {
    pub bg_over_obj: bool,
    pub y_flip: bool,
    pub x_flip: bool,
    pub palette: bool,
}

impl SpriteFlags {
    /// The flags of a sprite. The flag byte is not decoded: every flag
    /// is set, whatever the byte.
    pub fn new(flags: u8) -> (f: Self)
        ensures
            f == (SpriteFlags { bg_over_obj: true, y_flip: true, x_flip: true, palette: true }),
    {
        Self { bg_over_obj: true, y_flip: true, x_flip: true, palette: true }
    }
}

/// One entry of the sprite table.
#[derive(Debug, Clone, Copy, PartialEq, Eq)]
pub struct SpriteAttribute {
    pub y_pos: u8,
    pub x_pos: u8,
    pub index: u8,
    pub flags: SpriteFlags,
}

/// The entry of sprite `n` in memory `mem`.
pub open spec fn sprite_at(mem: Seq<u8>, n: int) -> SpriteAttribute {
    SpriteAttribute {
        y_pos: mem[0xFE00 + 4 * n],
        x_pos: mem[0xFE00 + 4 * n + 1],
        index: mem[0xFE00 + 4 * n + 2],
        flags: SpriteFlags { bg_over_obj: true, y_flip: true, x_flip: true, palette: true },
    }
}

/// The sprite table of a memory.
pub struct Oam<'m> {
    pub mem: &'m MemoryMap,
    pub attrs: Vec<SpriteAttribute>,
}

impl<'m> Oam<'m> {
    /// An empty table on `mem`.
    pub fn new(mem: &'m MemoryMap) -> (oam: Self)
        ensures
            oam.mem == mem,
            oam.attrs@ == Seq::<SpriteAttribute>::empty(),
    {
        Self { mem, attrs: Vec::new() }
    }

    /// Walks the 40 entries of the table and returns the tile index of
    /// each, in order. The entries are not kept: `attrs` stays as it is.
    pub fn load(&mut self) -> (indexes: Vec<u8>)
        ensures
            indexes@ == Seq::new(40, |n: int| sprite_at(old(self).mem@, n).index),
            final(self).attrs@ == old(self).attrs@,
            final(self).mem == old(self).mem,
    {
        let mut indexes: Vec<u8> = Vec::new();
        let mut n: usize = 0;
        while n < SPRITES
            invariant
                n <= SPRITES,
                self.mem == old(self).mem,
                self.attrs@ == old(self).attrs@,
                indexes@.len() == n,
                forall|k: int| 0 <= k < n ==> indexes@[k] == sprite_at(self.mem@, k).index,
            decreases SPRITES - n,
        {
            let x: u16 = OAM_START + 4 * (n as u16);
            let y_pos: u8 = self.mem.read_byte(x).unwrap();
            let x_pos: u8 = self.mem.read_byte(x + 1).unwrap();
            let index: u8 = self.mem.read_byte(x + 2).unwrap();
            let f: u8 = self.mem.read_byte(x + 3).unwrap();
            let attr: SpriteAttribute = SpriteAttribute {
                y_pos,
                x_pos,
                index,
                flags: SpriteFlags::new(f),
            };
            indexes.push(attr.index);
            n += 1;
        }
        assert(indexes@ =~= Seq::new(40, |n: int| sprite_at(old(self).mem@, n).index));
        indexes
    }
}

} // verus!
