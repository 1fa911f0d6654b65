//! A tile: 8 rows of 8 pixels, two bits per pixel, in 16 bytes.

use vstd::prelude::*;
use vstd::string::StringExecFns;

verus! {

/// Whether bit `n` of `v` is set, bit 0 being the lowest.
pub open spec fn bit_at(v: u8, n: u32) -> bool {
    v & (1u8 << n) != 0
}

/// The character that stands for a pixel, by its two bits: `first` from
/// the first byte of the row and `second` from the second.
pub open spec fn shade(first: bool, second: bool) -> char {
    if second {
        if first {
            '▓'
        } else {
            '▒'
        }
    } else {
        if first {
            '░'
        } else {
            ' '
        }
    }
}

/// The picture of a tile: 8 lines, each of 8 pixels that are two equal
/// characters wide, and a line feed. Row `r` is made of bytes `2r` and
/// `2r + 1`, and bit 0 comes first.
pub open spec fn tile_text(data: Seq<u8>) -> Seq<char> {
    Seq::new(
        136,
        |k: int|
            if k % 17 == 16 {
                '\n'
            } else {
                shade(
                    bit_at(data[2 * (k / 17)], ((k % 17) / 2) as u32),
                    bit_at(data[2 * (k / 17) + 1], ((k % 17) / 2) as u32),
                )
            },
    )
}

/// The 16 bytes of a tile.
pub struct Tile {
    pub data: Vec<u8>,
}

impl Tile {
    /// A tile of exactly 16 bytes.
    pub fn new(data: Vec<u8>) -> (t: Self)
        requires
            data.len() == 16,
        ensures
            t.data == data,
    {
        Self { data }
    }

    /// The picture of the tile as text.
    pub fn to_text(&self) -> (s: String)
        requires
            self.data.len() == 16,
        ensures
            s@ == tile_text(self.data@),
    {
        let mut row: String = String::new();
        let mut r: usize = 0;
        while r < 8
            invariant
                r <= 8,
                self.data.len() == 16,
                row@.len() == 17 * r,
                forall|k: int| 0 <= k < 17 * r ==> row@[k] == tile_text(self.data@)[k],
            decreases 8 - r,
        {
            let first: u8 = self.data[2 * r];
            let second: u8 = self.data[2 * r + 1];
            let mut p: u32 = 0;
            while p < 8
                invariant
                    p <= 8,
                    r < 8,
                    self.data.len() == 16,
                    first == self.data@[2 * r as int],
                    second == self.data@[2 * r as int + 1],
                    row@.len() == 17 * r + 2 * p,
                    forall|k: int|
                        0 <= k < 17 * r + 2 * p ==> row@[k] == tile_text(self.data@)[k],
                decreases 8 - p,
            {
                let hb: bool = first & (1u8 << p) != 0;
                let lb: bool = second & (1u8 << p) != 0;
                proof {
                    reveal_strlit("▓");
                    reveal_strlit("▒");
                    reveal_strlit("░");
                    reveal_strlit(" ");
                }
                let c: &str = if lb {
                    if hb {
                        "▓"
                    } else {
                        "▒"
                    }
                } else {
                    if hb {
                        "░"
                    } else {
                        " "
                    }
                };
                row.append(c);
                row.append(c);
                p += 1;
            }
            proof {
                reveal_strlit("\n");
            }
            row.append("\n");
            r += 1;
        }
        assert(row@ =~= tile_text(self.data@));
        row
    }
}

} // verus!
