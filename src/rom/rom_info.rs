use vstd::prelude::*;

verus! {

/// Colour support that a cartridge declares.
#[derive(Clone, Copy, Debug, PartialEq, Eq, Structural)]
pub enum CGBMode {
    Monochrome,
    Color { exclusive: bool },
}

impl CGBMode {
    /// How the mode is shown to a user.
    pub open spec fn label_spec(self) -> Seq<char> {
        match self {
            CGBMode::Color { exclusive: true } => "Exclusive"@,
            CGBMode::Color { exclusive: false } => "Compatible"@,
            CGBMode::Monochrome => "Monochrome"@,
        }
    }

    /// "Exclusive" or "Compatible" for colour cartridges, "Monochrome" otherwise.
    pub fn label(&self) -> (r: &'static str)
        ensures
            r@ == self.label_spec(),
    {
        match self {
            CGBMode::Color { exclusive: true } => "Exclusive",
            CGBMode::Color { exclusive: false } => "Compatible",
            CGBMode::Monochrome => "Monochrome",
        }
    }
}

impl Default for CGBMode {
    fn default() -> (r: CGBMode)
        ensures
            r == (CGBMode::Color { exclusive: false }),
    {
        CGBMode::Color { exclusive: false }
    }
}

/// What a cartridge header declares. The core reads `mem_banks`, the number of external-RAM
/// banks; the other fields are informational.
#[derive(Debug)]
pub struct ROMInfo {
    pub title: String,
    pub cgb: CGBMode,
    pub sgb: bool,
    pub cartridge_type: u8,
    pub rom_banks: u16,
    pub mem_banks: u16,
    pub header_checksum: u8,
    pub rom_checksum: u16,
}

impl Default for ROMInfo {
    fn default() -> (r: ROMInfo)
        ensures
            r.title@ == Seq::<char>::empty(),
            r.cgb == (CGBMode::Color { exclusive: false }),
            r.sgb,
            r.cartridge_type == 0x10,
            r.rom_banks == 1,
            r.mem_banks == 3,
            r.header_checksum == 0,
            r.rom_checksum == 0,
    {
        ROMInfo {
            title: String::new(),
            cgb: CGBMode::Color { exclusive: false },
            sgb: true,
            cartridge_type: 0x10,
            rom_banks: 1,
            mem_banks: 0x3,
            header_checksum: 0,
            rom_checksum: 0,
        }
    }
}

} // verus!
