//! A minimal carrier for a boot image alongside a scratch RAM buffer, for
//! drivers that stage the boot bytes before handing them to the bus.

use vstd::prelude::*;

verus! {

/// Bytes in a boot image.
pub const BOOT_ROM_SIZE: usize = 256;
/// Bytes of scratch RAM.
pub const RAM_SIZE: usize = 8192;

/// A staged boot image with its scratch RAM.
pub struct Interconnect {
    pub boot_rom: Vec<u8>,
    pub wram: Vec<u8>,
}

impl Interconnect {
    /// Hold the given boot image beside zeroed scratch RAM.
    pub fn new(boot_rom: Vec<u8>) -> (r: Self)
        requires
            boot_rom@.len() == BOOT_ROM_SIZE,
        ensures
            r.boot_rom@ == boot_rom@,
            r.wram@.len() == RAM_SIZE,
            forall|i: int| 0 <= i < RAM_SIZE ==> r.wram@[i] == 0u8,
    {
        let mut wram: Vec<u8> = Vec::new();
        let mut k: usize = 0;
        while k < RAM_SIZE
            invariant
                k <= RAM_SIZE,
                wram@.len() == k,
                forall|i: int| 0 <= i < k ==> wram@[i] == 0u8,
            decreases RAM_SIZE - k,
        {
            wram.push(0u8);
            k = k + 1;
        }
        Interconnect { boot_rom, wram }
    }
}

} // verus!
