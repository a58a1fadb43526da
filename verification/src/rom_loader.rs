//! Cartridge image handling for the iNES container format: header
//! validation and placement of the program banks into a full 64KB image.
//! Reading the file itself is a collaborator's business; this module works
//! on the raw bytes.
use vstd::prelude::*;

verus! {

/// A cartridge image was malformed (`InesFormat`) or asks for a feature
/// this loader does not support (`Unsupported`).
#[derive(Debug)]
pub enum InesError {
    InesFormat(String),
    Unsupported(String),
}

/// The fixed 16-byte iNES header; seven trailing padding bytes are not
/// kept.
pub struct InesHeader {
    pub ines_identifier: u32,
    pub prg_rom_banks: u8,
    pub chr_rom_banks: u8,
    pub flags_6: u8,
    pub flags_7: u8,
    pub prg_ram_units: u8,
}

/// Size of one program bank.
pub const PRG_BANK_SIZE: usize = 0x4000;

/// The little-endian magic identifier in the header's first four bytes:
/// the bytes `NES` followed by 0x1A.
pub const INES_MAGIC: u32 = 0x1A53454E;

/// The header's four identifier bytes read as a little-endian 32-bit
/// value.
pub open spec fn spec_ines_id(data: Seq<u8>) -> int {
    data[0] + 0x100 * data[1] + 0x10000 * data[2] + 0x1000000 * data[3]
}

/// Whether `v` is the 64KB image that placing `data`'s program banks
/// produces: everything below the cartridge space is zero, the first bank
/// sits at 0x8000, and 0xC000 holds the second bank, or a mirror of the
/// first for a single-bank image.
pub open spec fn spec_image_ok(data: Seq<u8>, v: Seq<u8>) -> bool {
    &&& v.len() == 0x10000
    &&& forall|i: int| 0 <= i < 0x8000 ==> v[i] == 0u8
    &&& forall|i: int| #![trigger v[0x8000 + i]] 0 <= i < 0x4000 ==> v[0x8000 + i] == data[16 + i]
    &&& forall|i: int|
        #![trigger v[0xC000 + i]]
        0 <= i < 0x4000 ==> v[0xC000 + i] == (if data[4] == 1 {
            data[16 + i]
        } else {
            data[16 + 0x4000 + i]
        })
}

/// Validate an iNES cartridge image and return the 65536-byte memory
/// image with the program banks placed at the standard load addresses,
/// mirrored into both halves for a single-bank image. Fails with a format
/// error on a short file or a missing magic identifier, and with an
/// unsupported-feature error on a nonzero header version byte, a
/// trainer-data request, or a bank count needing a mapper.
pub fn load_ines(data: &[u8]) -> (r: Result<Vec<u8>, InesError>)
    ensures
        ({
            if data@.len() < 16 {
                r matches Err(InesError::InesFormat(t))
                    && t@ == "File is smaller than the ines header."@
            } else if spec_ines_id(data@) != INES_MAGIC {
                r matches Err(InesError::InesFormat(t))
                    && t@ == "Did not find ines header identifier"@
            } else if data@[7] != 0 {
                r matches Err(InesError::Unsupported(t))
                    && t@ == "This version of the ines format is not supported"@
            } else if data@[6] & 4 != 0 {
                r matches Err(InesError::Unsupported(t))
                    && t@ == "Loading trainers is not supported"@
            } else if data@[4] == 0 || data@[4] > 2 {
                r matches Err(InesError::Unsupported(t))
                    && t@ == "This count of prg-rom banks is not supported"@
            } else if data@.len() < 16 + 0x4000 * data@[4] {
                r matches Err(InesError::InesFormat(t))
                    && t@ == "File is smaller than its prg-rom banks."@
            } else {
                r is Ok && spec_image_ok(data@, r->Ok_0@)
            }
        }),
{
    if data.len() < 16 {
        return Err(InesError::InesFormat("File is smaller than the ines header.".to_owned()));
    }
    let header = InesHeader {
        ines_identifier: (data[0] as u32) + (data[1] as u32) * 0x100 + (data[2] as u32) * 0x10000
            + (data[3] as u32) * 0x1000000,
        prg_rom_banks: data[4],
        chr_rom_banks: data[5],
        flags_6: data[6],
        flags_7: data[7],
        prg_ram_units: data[8],
    };
    if header.ines_identifier != INES_MAGIC {
        return Err(InesError::InesFormat("Did not find ines header identifier".to_owned()));
    }
    if header.flags_7 != 0 {
        return Err(
            InesError::Unsupported("This version of the ines format is not supported".to_owned()),
        );
    }
    if header.flags_6 & 4 != 0 {
        return Err(InesError::Unsupported("Loading trainers is not supported".to_owned()));
    }
    if header.prg_rom_banks == 0 || header.prg_rom_banks > 2 {
        return Err(
            InesError::Unsupported("This count of prg-rom banks is not supported".to_owned()),
        );
    }
    if data.len() < 16 + PRG_BANK_SIZE * (header.prg_rom_banks as usize) {
        return Err(InesError::InesFormat("File is smaller than its prg-rom banks.".to_owned()));
    }
    let mut nes_bytes: Vec<u8> = Vec::new();
    while nes_bytes.len() < 0x10000
        invariant
            nes_bytes@.len() <= 0x10000,
            forall|i: int| 0 <= i < nes_bytes@.len() ==> nes_bytes@[i] == 0u8,
        decreases 0x10000 - nes_bytes@.len(),
    {
        nes_bytes.push(0u8);
    }
    // second bank source: the bank after the first, or the first again
    // for a single-bank image, which mirrors it into both halves
    let second: usize = if header.prg_rom_banks == 1 {
        16
    } else {
        16 + PRG_BANK_SIZE
    };
    let mut i: usize = 0;
    while i < PRG_BANK_SIZE
        invariant
            i <= PRG_BANK_SIZE,
            16 + PRG_BANK_SIZE <= data@.len(),
            nes_bytes@.len() == 0x10000,
            forall|j: int| 0 <= j < 0x8000 ==> nes_bytes@[j] == 0u8,
            forall|j: int| #![trigger nes_bytes@[0x8000 + j]] 0 <= j < i ==> nes_bytes@[0x8000 + j] == data@[16 + j],
            forall|j: int| 0x8000 + i <= j < 0x10000 ==> nes_bytes@[j] == 0u8,
        decreases PRG_BANK_SIZE - i,
    {
        let b = data[16 + i];
        let ghost prev = nes_bytes@;
        nes_bytes[0x8000 + i] = b;
        proof {
            assert(nes_bytes@ == prev.update(0x8000 + i, b));
        }
        i = i + 1;
    }
    let mut i2: usize = 0;
    while i2 < PRG_BANK_SIZE
        invariant
            i2 <= PRG_BANK_SIZE,
            second == 16 || second == 16 + PRG_BANK_SIZE,
            second == 16 <==> data@[4] == 1,
            second + PRG_BANK_SIZE <= data@.len(),
            nes_bytes@.len() == 0x10000,
            forall|j: int| 0 <= j < 0x8000 ==> nes_bytes@[j] == 0u8,
            forall|j: int| #![trigger nes_bytes@[0x8000 + j]] 0 <= j < 0x4000 ==> nes_bytes@[0x8000 + j] == data@[16 + j],
            forall|j: int| #![trigger nes_bytes@[0xC000 + j]] 0 <= j < i2 ==> nes_bytes@[0xC000 + j] == data@[second + j],
        decreases PRG_BANK_SIZE - i2,
    {
        let b = data[second + i2];
        let ghost prev = nes_bytes@;
        nes_bytes[0xC000 + i2] = b;
        proof {
            assert(nes_bytes@ == prev.update(0xC000 + i2, b));
        }
        i2 = i2 + 1;
    }
    Ok(nes_bytes)
}

} // verus!
