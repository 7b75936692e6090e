//! ROM images and the PRG program format.

use vstd::prelude::*;

verus! {

/// The six ROM images of a PET 4032: three 4 KiB BASIC ROMs, the 2 KiB
/// editor ROM, the 4 KiB kernal ROM, and the character generator ROM.
pub struct RomData {
    pub basic_b000: Vec<u8>,
    pub basic_c000: Vec<u8>,
    pub basic_d000: Vec<u8>,
    pub kernal_f000: Vec<u8>,
    pub editor_e000: Vec<u8>,
    pub char_rom: Vec<u8>,
}

impl RomData {
    /// The images fill their address windows exactly, so every decoded
    /// ROM read has a byte to return. The character ROM is read only by
    /// the screen sampler, which tolerates any length.
    pub open spec fn wf(&self) -> bool {
        self.basic_b000@.len() == 0x1000 && self.basic_c000@.len() == 0x1000
            && self.basic_d000@.len() == 0x1000 && self.kernal_f000@.len() == 0x1000
            && self.editor_e000@.len() == 0x800
    }
}

/// Splits a PRG image into its little-endian load address (first two
/// bytes) and its payload. Images shorter than two bytes are rejected.
pub fn parse_prg(data: &[u8]) -> (r: Option<(u16, Vec<u8>)>)
    ensures
        (r is Some) <==> data@.len() >= 2,
        data@.len() >= 2 ==> r->Some_0.0 == ((data@[1] as u16) << 8) | (data@[0] as u16),
        data@.len() >= 2 ==> r->Some_0.1@ == data@.subrange(2, data@.len() as int),
{
    if data.len() < 2 {
        return None;
    }
    let load_addr: u16 = ((data[1] as u16) << 8) | (data[0] as u16);
    let mut payload: Vec<u8> = Vec::new();
    let mut i: usize = 2;
    while i < data.len()
        invariant
            2 <= i <= data@.len(),
            payload@ == data@.subrange(2, i as int),
        decreases data@.len() - i,
    {
        payload.push(data[i]);
        proof {
            assert(payload@ =~= data@.subrange(2, i + 1));
        }
        i = i + 1;
    }
    Some((load_addr, payload))
}

} // verus!
