//! A cartridge: the raw bytes of a ROM image.

use vstd::prelude::*;

verus! {

/// The bytes of a ROM image, in address order.
pub struct Cartridge {
    pub data: Vec<u8>,
}

impl Cartridge {
    /// The cartridge whose ROM image is `data`.
    pub fn load(data: Vec<u8>) -> (cartridge: Self)
        ensures
            cartridge.data == data,
    {
        Self { data }
    }
}

} // verus!
