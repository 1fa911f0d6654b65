//! The cartridge header: the fields that a ROM image keeps at 0x0104 to
//! 0x014D.

use vstd::prelude::*;
use vstd::slice::{slice_subrange, slice_to_vec};
use vstd::utf8::{decode_utf8, valid_utf8};
use vstd::string::StringExecFns;
use crate::text::string_from_utf8;

verus! {

/// Where the cartridge was meant to be sold.
#[derive(Debug, Clone, Copy, PartialEq, Eq)]
pub enum DestinationCode {
    Japanese,
    NonJapanese,
    Unknown(u8),
}

/// The memory bank controller on the cartridge.
#[derive(Debug, Clone, Copy, PartialEq, Eq)]
pub enum CartridgeType {
    RomOnly,
    MBC1,
    MBC2,
    RomRam,
    MMM01,
    MBC3,
    MBC5,
    MBC6,
    MBC7,
    Unknown,
}

/// The cartridge type that the byte at 0x0147 stands for.
pub open spec fn cartridge_type_of(value: u8) -> CartridgeType {
    if value == 0x00 {
        CartridgeType::RomOnly
    } else if 0x01 <= value <= 0x03 {
        CartridgeType::MBC1
    } else if 0x05 <= value <= 0x06 {
        CartridgeType::MBC2
    } else if 0x08 <= value <= 0x09 {
        CartridgeType::RomRam
    } else if 0x0B <= value <= 0x0D {
        CartridgeType::MMM01
    } else if 0x0F <= value <= 0x13 {
        CartridgeType::MBC3
    } else if 0x19 <= value <= 0x1E {
        CartridgeType::MBC5
    } else if value == 0x20 {
        CartridgeType::MBC6
    } else if value == 0x22 {
        CartridgeType::MBC7
    } else {
        CartridgeType::Unknown
    }
}

/// The destination that the byte at 0x014A stands for.
pub open spec fn destination_of(value: u8) -> DestinationCode {
    if value == 0x00 {
        DestinationCode::Japanese
    } else if value == 0x01 {
        DestinationCode::NonJapanese
    } else {
        DestinationCode::Unknown(value)
    }
}

/// Reads the cartridge type from the byte at 0x0147.
pub fn parse_cartridge_type(value: u8) -> (t: CartridgeType)
    ensures
        t == cartridge_type_of(value),
{
    match value {
        0x00 => CartridgeType::RomOnly,
        0x01..=0x03 => CartridgeType::MBC1,
        0x05..=0x06 => CartridgeType::MBC2,
        0x08..=0x09 => CartridgeType::RomRam,
        0x0B..=0x0D => CartridgeType::MMM01,
        0x0F..=0x13 => CartridgeType::MBC3,
        0x19..=0x1E => CartridgeType::MBC5,
        0x20 => CartridgeType::MBC6,
        0x22 => CartridgeType::MBC7,
        _ => CartridgeType::Unknown,
    }
}

/// The byte of the logo that column `k` of line `y` is drawn from.
pub open spec fn logo_index(y: int, k: int) -> int {
    (y / 2) % 2 + (y / 4) * 24 + 2 * k
}

/// The half of `byte` that line `y` draws: the high nibble on even
/// lines, the low nibble on odd ones.
pub open spec fn logo_nibble(y: int, byte: u8) -> u8 {
    if y % 2 == 0 {
        byte >> 4
    } else {
        byte & 0x0F
    }
}

/// The logo as text: 8 lines of 48 pixels and a line feed. Each byte
/// gives four pixels to each of two lines, highest bit first; a set bit
/// is a block and a clear one a blank.
pub open spec fn logo_picture(logo: Seq<u8>) -> Seq<char> {
    Seq::new(
        392,
        |n: int|
            if n % 49 == 48 {
                '\n'
            } else if (logo_nibble(n / 49, logo[logo_index(n / 49, (n % 49) / 4)]) >> ((3 - (n % 49)
                % 4) as u32)) & 1 == 0 {
                ' '
            } else {
                '▓'
            },
    )
}

/// The fields of the cartridge header.
pub struct Header {
    pub logo: Vec<u8>,
    pub title: String,
    pub new_licensee_code: u16,
    pub old_licensee_code: u8,
    pub sgb_flag: bool,
    pub cartridge_type: CartridgeType,
    pub rom_size: u8,
    pub ram_size: u8,
    pub destination_code: DestinationCode,
    pub rom_version_num: u8,
    pub header_checksum: u8,
    pub global_checksum: u16,
}

impl Header {
    /// The first address after the header.
    pub const END: usize = 0x014E;

    /// The bytes of the title, 0x0134 to 0x0143.
    pub open spec fn title_bytes(data: Seq<u8>) -> Seq<u8> {
        data.subrange(0x0134, 0x0144)
    }

    /// Whether a header can be read from `data`: it reaches to the end
    /// of the header and its title is well-formed UTF-8.
    pub open spec fn readable(data: Seq<u8>) -> bool {
        data.len() >= 0x014E && valid_utf8(Self::title_bytes(data))
    }

    /// Whether this is the header that `data` holds. The licensee codes,
    /// the Super Game Boy flag and the global checksum are not read:
    /// they are 0 and false.
    pub open spec fn read_from(&self, data: Seq<u8>) -> bool {
        &&& self.logo@ == data.subrange(0x0104, 0x0134)
        &&& self.title@ == decode_utf8(Self::title_bytes(data))
        &&& self.new_licensee_code == 0
        &&& self.old_licensee_code == 0
        &&& self.sgb_flag == false
        &&& self.cartridge_type == cartridge_type_of(data[0x0147])
        &&& self.rom_size == data[0x0148]
        &&& self.ram_size == data[0x0149]
        &&& self.destination_code == destination_of(data[0x014A])
        &&& self.rom_version_num == data[0x014C]
        &&& self.header_checksum == data[0x014D]
        &&& self.global_checksum == 0
    }

    /// Reads the header of a ROM image, if there is one to read.
    pub fn parse(data: &Vec<u8>) -> (r: Option<Self>)
        ensures
            r is Some <==> Self::readable(data@),
            r matches Some(h) ==> h.read_from(data@),
    {
        if data.len() < Self::END {
            return None;
        }
        let logo: Vec<u8> = slice_to_vec(slice_subrange(data.as_slice(), 0x0104, 0x0134));
        let title_bytes: Vec<u8> = slice_to_vec(slice_subrange(data.as_slice(), 0x0134, 0x0144));
        let title: String = match string_from_utf8(title_bytes) {
            Some(t) => t,
            None => {
                return None;
            },
        };
        let destination_code: DestinationCode = match data[0x014A] {
            0x00 => DestinationCode::Japanese,
            0x01 => DestinationCode::NonJapanese,
            _ => DestinationCode::Unknown(data[0x014A]),
        };
        Some(
            Header {
                logo,
                title,
                new_licensee_code: 0,
                old_licensee_code: 0,
                sgb_flag: false,
                cartridge_type: parse_cartridge_type(data[0x0147]),
                rom_size: data[0x0148],
                ram_size: data[0x0149],
                destination_code,
                rom_version_num: data[0x014C],
                header_checksum: data[0x014D],
                global_checksum: 0,
            },
        )
    }

    /// Reads the header of a ROM image that has one.
    pub fn new(data: &Vec<u8>) -> (h: Self)
        requires
            Self::readable(data@),
        ensures
            h.read_from(data@),
    {
        Self::parse(data).unwrap()
    }

    /// Whether the cartridge can run here: only those without a memory
    /// bank controller can.
    pub fn is_compatible(&self) -> (r: bool)
        ensures
            r == (self.cartridge_type == CartridgeType::RomOnly),
    {
        match self.cartridge_type {
            CartridgeType::RomOnly => true,
            _ => false,
        }
    }

    /// The logo as text.
    pub fn logo_text(&self) -> (s: String)
        requires
            self.logo.len() >= 48,
        ensures
            s@ == logo_picture(self.logo@),
    {
        let mut logo_str: String = String::new();
        let mut y: usize = 0;
        while y < 8
            invariant
                y <= 8,
                self.logo.len() >= 48,
                logo_str@.len() == 49 * y,
                forall|n: int| 0 <= n < 49 * y ==> logo_str@[n] == logo_picture(self.logo@)[n],
            decreases 8 - y,
        {
            let mut i: usize = ((y / 2) % 2) + (y / 4) * 24;
            let mut k: usize = 0;
            while k < 12
                invariant
                    k <= 12,
                    y < 8,
                    self.logo.len() >= 48,
                    i == logo_index(y as int, k as int),
                    logo_str@.len() == 49 * y + 4 * k,
                    forall|n: int|
                        0 <= n < 49 * y + 4 * k ==> logo_str@[n] == logo_picture(self.logo@)[n],
                decreases 12 - k,
            {
                let nibble: u8 = if (y % 2) == 0 {
                    self.logo[i] >> 4
                } else {
                    self.logo[i] & 0x0F
                };
                let mut j: u32 = 0;
                while j < 4
                    invariant
                        j <= 4,
                        k < 12,
                        y < 8,
                        i == logo_index(y as int, k as int),
                        self.logo.len() >= 48,
                        nibble == logo_nibble(y as int, self.logo@[i as int]),
                        logo_str@.len() == 49 * y + 4 * k + j,
                        forall|n: int|
                            0 <= n < 49 * y + 4 * k + j ==> logo_str@[n] == logo_picture(
                                self.logo@,
                            )[n],
                    decreases 4 - j,
                {
                    let b: u32 = 3 - j;
                    proof {
                        reveal_strlit(" ");
                        reveal_strlit("▓");
                    }
                    if (nibble >> b) & 1 == 0 {
                        logo_str.append(" ");
                    } else {
                        logo_str.append("▓");
                    }
                    j += 1;
                }
                i += 2;
                k += 1;
            }
            proof {
                reveal_strlit("\n");
            }
            logo_str.append("\n");
            y += 1;
        }
        assert(logo_str@ =~= logo_picture(self.logo@));
        logo_str
    }
}

} // verus!
