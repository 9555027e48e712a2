use vstd::prelude::*;

use crate::rom::rom_info::{CGBMode, ROMInfo};

verus! {

/// Why a cartridge image is refused.
#[derive(Clone, Copy, Debug, PartialEq, Eq, Structural)]
pub enum HeaderError {
    /// The image is not longer than the 0x150-byte header.
    TooShort,
    /// Bytes 0x104..=0x133 are not the logo signature.
    MissingLogo,
    /// The ROM-size code at 0x148 is too large for the bank count to fit in 16 bits.
    BadRomSize(u8),
    /// The checksum over 0x134..=0x14C does not match byte 0x14D.
    BadHeaderChecksum,
}

/// Length of the cartridge header.
pub const HEADER_SIZE: usize = 0x150;

/// The logo signature that every cartridge holds at 0x104..=0x133.
pub open spec fn nintendo_logo() -> Seq<u8> {
    seq![
        0xCEu8, 0xED, 0x66, 0x66, 0xCC, 0x0D, 0x00, 0x0B, 0x03, 0x73, 0x00, 0x83, 0x00, 0x0C, 0x00,
        0x0D, 0x00, 0x08, 0x11, 0x1F, 0x88, 0x89, 0x00, 0x0E, 0xDC, 0xCC, 0x6E, 0xE6, 0xDD, 0xDD,
        0xD9, 0x99, 0xBB, 0xBB, 0x67, 0x63, 0x6E, 0x0E, 0xEC, 0xCC, 0xDD, 0xDC, 0x99, 0x9F, 0xBB,
        0xB9, 0x33, 0x3E,
    ]
}

/// The header checksum of `s`: starting from 0, each byte `b` takes the sum to `sum - b - 1`,
/// modulo 256.
pub open spec fn header_checksum_of(s: Seq<u8>) -> u8
    decreases s.len(),
{
    if s.len() == 0 {
        0
    } else {
        ((header_checksum_of(s.drop_last()) - s.last() - 1 + 512) % 256) as u8
    }
}

/// Colour support from the flag at 0x143.
pub open spec fn cgb_mode_of(flag: u8) -> CGBMode {
    if flag == 0x80 {
        CGBMode::Color { exclusive: false }
    } else if flag == 0xC0 {
        CGBMode::Color { exclusive: true }
    } else {
        CGBMode::Monochrome
    }
}

/// External-RAM banks from the code at 0x149.
pub open spec fn ram_banks_of(code: u8) -> u16 {
    if code == 1 {
        1
    } else if code == 3 {
        4
    } else if code == 4 {
        16
    } else if code == 5 {
        8
    } else {
        0
    }
}

/// The text that a byte sequence decodes to as UTF-8, each invalid sequence replaced by
/// U+FFFD.
pub uninterp spec fn utf8_lossy(b: Seq<u8>) -> Seq<char>;

/// Why `rom` is refused, if it is: checked in the order length, logo, ROM-size code, header
/// checksum.
pub open spec fn header_error(rom: Seq<u8>) -> Option<HeaderError> {
    if rom.len() <= 0x150 {
        Some(HeaderError::TooShort)
    } else if rom.subrange(0x104, 0x134) != nintendo_logo() {
        Some(HeaderError::MissingLogo)
    } else if rom[0x148] > 14 {
        Some(HeaderError::BadRomSize(rom[0x148]))
    } else if header_checksum_of(rom.subrange(0x134, 0x14D)) != rom[0x14D] {
        Some(HeaderError::BadHeaderChecksum)
    } else {
        None
    }
}

/// `info` holds what the header of `rom` declares.
pub open spec fn describes(info: ROMInfo, rom: Seq<u8>) -> bool {
    &&& info.title@ == utf8_lossy(rom.subrange(0x134, 0x143))
    &&& info.cgb == cgb_mode_of(rom[0x143])
    &&& info.sgb == (rom[0x146] == 3)
    &&& info.cartridge_type == rom[0x147]
    &&& info.rom_banks == (2u16 << rom[0x148] as u16)
    &&& info.mem_banks == ram_banks_of(rom[0x149])
    &&& info.header_checksum == rom[0x14D]
    &&& info.rom_checksum == rom[0x14E] as u16 * 256 + rom[0x14F] as u16
}

/// Relies on `String::from_utf8_lossy`: the text of the bytes, each invalid UTF-8 sequence
/// replaced by U+FFFD, which depends on the bytes alone.
#[verifier::external_body]
fn lossy_text(bytes: &Vec<u8>) -> (r: String)
    ensures
        r@ == utf8_lossy(bytes@),
{
    String::from_utf8_lossy(bytes).into_owned()
}

fn logo() -> (v: Vec<u8>)
    ensures
        v@ == nintendo_logo(),
{
    let v: Vec<u8> = vec![
        0xCE, 0xED, 0x66, 0x66, 0xCC, 0x0D, 0x00, 0x0B, 0x03, 0x73, 0x00, 0x83, 0x00, 0x0C, 0x00,
        0x0D, 0x00, 0x08, 0x11, 0x1F, 0x88, 0x89, 0x00, 0x0E, 0xDC, 0xCC, 0x6E, 0xE6, 0xDD, 0xDD,
        0xD9, 0x99, 0xBB, 0xBB, 0x67, 0x63, 0x6E, 0x0E, 0xEC, 0xCC, 0xDD, 0xDC, 0x99, 0x9F, 0xBB,
        0xB9, 0x33, 0x3E,
    ];
    assert(v@ =~= nintendo_logo());
    v
}

/// Whether bytes 0x104..=0x133 of `rom` are the logo signature.
pub fn validate_rom(rom: &Vec<u8>) -> (r: bool)
    requires
        rom.len() >= 0x134,
    ensures
        r == (rom@.subrange(0x104, 0x134) == nintendo_logo()),
{
    let expected = logo();
    let mut i: usize = 0;
    while i < 48
        invariant
            i <= 48,
            rom.len() >= 0x134,
            expected@ == nintendo_logo(),
            forall|j: int| 0 <= j < i ==> rom@[0x104 + j] == expected@[j],
        decreases 48 - i,
    {
        if rom[0x104 + i] != expected[i] {
            assert(rom@.subrange(0x104, 0x134)[i as int] != nintendo_logo()[i as int]);
            return false;
        }
        i = i + 1;
    }
    assert(rom@.subrange(0x104, 0x134) =~= nintendo_logo());
    true
}

/// The header checksum over 0x134..=0x14C, compared with `checksum`.
pub fn validate_header_checksum(rom: &Vec<u8>, checksum: u8) -> (r: bool)
    requires
        rom.len() >= 0x14D,
    ensures
        r == (header_checksum_of(rom@.subrange(0x134, 0x14D)) == checksum),
{
    let mut calculated: u8 = 0;
    let mut i: usize = 0x134;
    while i < 0x14D
        invariant
            0x134 <= i <= 0x14D,
            rom.len() >= 0x14D,
            calculated == header_checksum_of(rom@.subrange(0x134, i as int)),
        decreases 0x14D - i,
    {
        assert(rom@.subrange(0x134, i + 1).drop_last() =~= rom@.subrange(0x134, i as int));
        calculated = ((calculated as u16 + 512 - rom[i] as u16 - 1) % 256) as u8;
        i = i + 1;
    }
    calculated == checksum
}

/// Reads the cartridge header of `rom`, refusing an image that is too short, lacks the logo
/// signature, declares a ROM size whose bank count does not fit 16 bits, or fails the header
/// checksum.
pub fn parse_rom_header(rom: &Vec<u8>) -> (r: Result<ROMInfo, HeaderError>)
    ensures
        match header_error(rom@) {
            Some(e) => r matches Err(x) && x == e,
            None => r matches Ok(info) && describes(info, rom@),
        },
{
    if rom.len() <= HEADER_SIZE {
        return Err(HeaderError::TooShort);
    }
    if !validate_rom(rom) {
        return Err(HeaderError::MissingLogo);
    }
    let mut title_bytes: Vec<u8> = Vec::new();
    let mut i: usize = 0x134;
    while i < 0x143
        invariant
            0x134 <= i <= 0x143,
            rom.len() > 0x150,
            title_bytes@ =~= rom@.subrange(0x134, i as int),
        decreases 0x143 - i,
    {
        title_bytes.push(rom[i]);
        i = i + 1;
    }
    let title = lossy_text(&title_bytes);
    let cgb = match rom[0x143] {
        0x80 => CGBMode::Color { exclusive: false },
        0xC0 => CGBMode::Color { exclusive: true },
        _ => CGBMode::Monochrome,
    };
    let sgb = rom[0x146] == 0x3;
    let cartridge_type = rom[0x147];
    let size_code = rom[0x148];
    if size_code > 14 {
        return Err(HeaderError::BadRomSize(size_code));
    }
    let rom_banks: u16 = 2u16 << size_code as u16;
    let mem_banks: u16 = match rom[0x149] {
        0x1 => 1,
        0x3 => 4,
        0x4 => 16,
        0x5 => 8,
        _ => 0,
    };
    let header_checksum = rom[0x14D];
    if !validate_header_checksum(rom, header_checksum) {
        return Err(HeaderError::BadHeaderChecksum);
    }
    let rom_checksum = (rom[0x14E] as u16) * 256 + rom[0x14F] as u16;
    Ok(
        ROMInfo {
            title,
            cgb,
            sgb,
            cartridge_type,
            rom_banks,
            mem_banks,
            header_checksum,
            rom_checksum,
        },
    )
}

} // verus!
