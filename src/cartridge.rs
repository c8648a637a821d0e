//! Game cartridges.
use vstd::prelude::*;
use crate::bus::ROM_SIZE;

verus! {

/// Game cartridge of the Atari 2600 gaming console.
///
/// A cartridge holds up to 4 KiB of ROM, which the console maps into the
/// window 0x1000 to 0x1FFF of its address space.
pub struct Cartridge {
    pub name: String,
    pub manufacturer: String,
    pub model: String,
    pub rarity: String,
    pub notes: String,
    pub memory: Vec<u8>,
}

/// The byte at offset `i` of the ROM window: a shorter image is padded with
/// zeroes and a longer one is cut at 4 KiB.
pub open spec fn rom_byte(memory: Seq<u8>, i: int) -> u8 {
    if i < memory.len() { memory[i] } else { 0 }
}

impl Cartridge {
    /// A cartridge whose ROM is `memory`, with empty descriptive fields.
    pub fn new(memory: Vec<u8>) -> (r: Cartridge)
        ensures
            r.memory@ == memory@,
            r.name@.len() == 0 && r.manufacturer@.len() == 0 && r.model@.len() == 0,
            r.rarity@.len() == 0 && r.notes@.len() == 0,
    {
        Cartridge {
            name: String::new(),
            manufacturer: String::new(),
            model: String::new(),
            rarity: String::new(),
            notes: String::new(),
            memory,
        }
    }

    /// The 4 KiB image mapped into the ROM window.
    pub fn rom_image(&self) -> (r: Vec<u8>)
        ensures
            r@.len() == ROM_SIZE,
            forall|i: int| 0 <= i < ROM_SIZE ==> r@[i] == rom_byte(self.memory@, i),
    {
        let mut r: Vec<u8> = Vec::new();
        while r.len() < ROM_SIZE
            invariant
                r.len() <= ROM_SIZE,
                forall|i: int| 0 <= i < r.len() ==> r@[i] == rom_byte(self.memory@, i),
            decreases ROM_SIZE - r.len(),
        {
            let i = r.len();
            if i < self.memory.len() {
                r.push(self.memory[i]);
            } else {
                r.push(0);
            }
        }
        r
    }
}

} // verus!
