use vstd::prelude::*;

use crate::cpu::clock::Clock;
use crate::error::EmuError;
use crate::rom::rom_info::ROMInfo;

verus! {

/// Size of one ROM bank.
pub const ROM_BANK: usize = 0x4000;

/// Size of one video-RAM bank.
pub const VRAM_BANK: usize = 0x2000;

/// Size of one external-RAM bank.
pub const ERAM_BANK: usize = 0x2000;

/// Size of one work-RAM bank.
pub const WRAM_BANK: usize = 0x1000;

/// What the memory map holds: each banked region as one sequence of equal-sized banks, the
/// active bank of each, and the unbanked regions.
pub ghost struct MemState {
    pub rom: Seq<u8>,
    pub active_rom: int,
    pub vram: Seq<u8>,
    pub active_vram: int,
    pub eram: Seq<u8>,
    pub active_eram: int,
    pub wram: Seq<u8>,
    pub active_wram: int,
    pub oam: Seq<u8>,
    pub io: Seq<u8>,
    pub hram: Seq<u8>,
    pub ie: u8,
}

/// The byte at offset `off` of bank `bank`, where `s` holds `s.len() / size` whole banks.
pub open spec fn bank_byte_spec(s: Seq<u8>, size: int, bank: int, off: int, addr: u16) -> Result<
    u8,
    EmuError,
> {
    if 0 <= bank < s.len() as int / size {
        Ok(s[bank * size + off])
    } else {
        Err(EmuError::OutOfBounds(addr))
    }
}

/// `s` with the byte at offset `off` of bank `bank` replaced by `v`.
pub open spec fn bank_put_spec(s: Seq<u8>, size: int, bank: int, off: int, v: u8, addr: u16) -> Result<
    Seq<u8>,
    EmuError,
> {
    if 0 <= bank < s.len() as int / size {
        Ok(s.update(bank * size + off, v))
    } else {
        Err(EmuError::OutOfBounds(addr))
    }
}

/// The byte at offset `off` of an unbanked region.
pub open spec fn plain_byte_spec(s: Seq<u8>, off: int, addr: u16) -> Result<u8, EmuError> {
    if 0 <= off < s.len() {
        Ok(s[off])
    } else {
        Err(EmuError::OutOfBounds(addr))
    }
}

/// An unbanked region with the byte at offset `off` replaced by `v`.
pub open spec fn plain_put_spec(s: Seq<u8>, off: int, v: u8, addr: u16) -> Result<
    Seq<u8>,
    EmuError,
> {
    if 0 <= off < s.len() {
        Ok(s.update(off, v))
    } else {
        Err(EmuError::OutOfBounds(addr))
    }
}

/// `n` zero bytes.
pub open spec fn zeros(n: nat) -> Seq<u8> {
    Seq::new(n, |i: int| 0u8)
}

/// The first `n` bytes of `s`, followed by zeros where `s` is shorter.
pub open spec fn padded(s: Seq<u8>, n: nat) -> Seq<u8> {
    Seq::new(n, |i: int| if i < s.len() { s[i] } else { 0u8 })
}

/// Number of ROM banks made from a buffer of `len` bytes: enough 16 KiB banks to hold it, and
/// at least two, so that bank 0 and the switchable bank both exist.
pub open spec fn rom_bank_count(len: nat) -> nat {
    if len <= 2 * 0x4000 {
        2
    } else {
        ((len + 0x3FFF) / 0x4000) as nat
    }
}

impl MemState {
    /// The byte that a read of `addr` gives, or why there is none.
    pub open spec fn read(self, addr: u16) -> Result<u8, EmuError> {
        let a = addr as int;
        if a <= 0x3FFF {
            bank_byte_spec(self.rom, 0x4000, 0, a, addr)
        } else if a <= 0x7FFF {
            bank_byte_spec(self.rom, 0x4000, self.active_rom, a - 0x4000, addr)
        } else if a <= 0x9FFF {
            bank_byte_spec(self.vram, 0x2000, self.active_vram, a - 0x8000, addr)
        } else if a <= 0xBFFF {
            bank_byte_spec(self.eram, 0x2000, self.active_eram, a - 0xA000, addr)
        } else if a <= 0xCFFF {
            bank_byte_spec(self.wram, 0x1000, 0, a - 0xC000, addr)
        } else if a <= 0xDFFF {
            bank_byte_spec(self.wram, 0x1000, self.active_wram, a - 0xD000, addr)
        } else if a <= 0xEFFF {
            bank_byte_spec(self.wram, 0x1000, 0, a - 0xE000, addr)
        } else if a <= 0xFDFF {
            bank_byte_spec(self.wram, 0x1000, self.active_wram, a - 0xF000, addr)
        } else if a <= 0xFE9F {
            plain_byte_spec(self.oam, a - 0xFE00, addr)
        } else if a <= 0xFEFF {
            Ok(0)
        } else if a <= 0xFF7F {
            plain_byte_spec(self.io, a - 0xFF00, addr)
        } else if a <= 0xFFFE {
            plain_byte_spec(self.hram, a - 0xFF80, addr)
        } else {
            Ok(self.ie)
        }
    }

    /// What the memory holds after writing `v` to `addr`, or why the write fails.
    pub open spec fn write(self, addr: u16, v: u8) -> Result<MemState, EmuError> {
        let a = addr as int;
        if a <= 0x7FFF {
            Err(EmuError::ReadOnlyWrite(addr))
        } else if a <= 0x9FFF {
            match bank_put_spec(self.vram, 0x2000, self.active_vram, a - 0x8000, v, addr) {
                Ok(s) => Ok(MemState { vram: s, ..self }),
                Err(e) => Err(e),
            }
        } else if a <= 0xBFFF {
            match bank_put_spec(self.eram, 0x2000, self.active_eram, a - 0xA000, v, addr) {
                Ok(s) => Ok(MemState { eram: s, ..self }),
                Err(e) => Err(e),
            }
        } else if a <= 0xFDFF {
            let (bank, off) = if a <= 0xCFFF {
                (0, a - 0xC000)
            } else if a <= 0xDFFF {
                (self.active_wram, a - 0xD000)
            } else if a <= 0xEFFF {
                (0, a - 0xE000)
            } else {
                (self.active_wram, a - 0xF000)
            };
            match bank_put_spec(self.wram, 0x1000, bank, off, v, addr) {
                Ok(s) => Ok(MemState { wram: s, ..self }),
                Err(e) => Err(e),
            }
        } else if a <= 0xFE9F {
            match plain_put_spec(self.oam, a - 0xFE00, v, addr) {
                Ok(s) => Ok(MemState { oam: s, ..self }),
                Err(e) => Err(e),
            }
        } else if a <= 0xFEFF {
            Err(EmuError::ProhibitedRegion(addr))
        } else if a <= 0xFF7F {
            match plain_put_spec(self.io, a - 0xFF00, v, addr) {
                Ok(s) => Ok(MemState { io: s, ..self }),
                Err(e) => Err(e),
            }
        } else if a <= 0xFFFE {
            match plain_put_spec(self.hram, a - 0xFF80, v, addr) {
                Ok(s) => Ok(MemState { hram: s, ..self }),
                Err(e) => Err(e),
            }
        } else {
            Ok(MemState { ie: v, ..self })
        }
    }

    /// Every region has its full size and every active bank exists, so that every address
    /// reads.
    pub open spec fn wf(self) -> bool {
        &&& self.rom.len() % 0x4000 == 0
        &&& 2 <= self.rom.len() / 0x4000
        &&& 1 <= self.active_rom < self.rom.len() / 0x4000
        &&& self.vram.len() == 2 * 0x2000
        &&& 0 <= self.active_vram < 2
        &&& self.wram.len() == 8 * 0x1000
        &&& 1 <= self.active_wram < 8
        &&& self.oam.len() == 0x100
        &&& self.io.len() == 0x80
        &&& self.hram.len() == 0x7F
    }
}

/// The address space: ROM banks, video RAM, external RAM, work RAM, object-attribute memory,
/// I/O registers, high RAM and the interrupt-enable byte.
#[derive(Debug)]
pub struct MemoryMap {
    pub rom_banks: Vec<u8>,
    pub active_rom_bank: usize,
    pub vram: Vec<u8>,
    pub active_vram: usize,
    pub eram: Vec<u8>,
    pub active_eram: usize,
    pub wram: Vec<u8>,
    pub active_wram: usize,
    pub oam: Vec<u8>,
    pub io: Vec<u8>,
    pub hram: Vec<u8>,
    pub ie: u8,
}

impl View for MemoryMap {
    type V = MemState;

    open spec fn view(&self) -> MemState {
        MemState {
            rom: self.rom_banks@,
            active_rom: self.active_rom_bank as int,
            vram: self.vram@,
            active_vram: self.active_vram as int,
            eram: self.eram@,
            active_eram: self.active_eram as int,
            wram: self.wram@,
            active_wram: self.active_wram as int,
            oam: self.oam@,
            io: self.io@,
            hram: self.hram@,
            ie: self.ie,
        }
    }
}

proof fn lemma_bank_index(len: int, size: int, bank: int, off: int)
    requires
        0 < size,
        0 <= bank < len / size,
        0 <= off < size,
    ensures
        bank * size + off < len,
{
    assert(bank * size + off < len) by (nonlinear_arith)
        requires
            0 < size,
            0 <= bank < len / size,
            0 <= off < size,
    ;
}

fn bank_byte(s: &Vec<u8>, size: usize, bank: usize, off: usize, addr: u16) -> (r: Result<
    u8,
    EmuError,
>)
    requires
        0 < size,
        off < size,
    ensures
        r == bank_byte_spec(s@, size as int, bank as int, off as int, addr),
{
    if bank < s.len() / size {
        proof {
            lemma_bank_index(s.len() as int, size as int, bank as int, off as int);
        }
        Ok(s[bank * size + off])
    } else {
        Err(EmuError::OutOfBounds(addr))
    }
}

fn bank_put(s: &mut Vec<u8>, size: usize, bank: usize, off: usize, v: u8, addr: u16) -> (r: Result<
    (),
    EmuError,
>)
    requires
        0 < size,
        off < size,
    ensures
        match bank_put_spec(old(s)@, size as int, bank as int, off as int, v, addr) {
            Ok(n) => r == Ok::<(), EmuError>(()) && final(s)@ == n,
            Err(e) => r == Err::<(), EmuError>(e) && final(s)@ == old(s)@,
        },
{
    if bank < s.len() / size {
        proof {
            lemma_bank_index(s.len() as int, size as int, bank as int, off as int);
        }
        s.set(bank * size + off, v);
        Ok(())
    } else {
        Err(EmuError::OutOfBounds(addr))
    }
}

fn plain_put(s: &mut Vec<u8>, off: usize, v: u8, addr: u16) -> (r: Result<(), EmuError>)
    ensures
        match plain_put_spec(old(s)@, off as int, v, addr) {
            Ok(n) => r == Ok::<(), EmuError>(()) && final(s)@ == n,
            Err(e) => r == Err::<(), EmuError>(e) && final(s)@ == old(s)@,
        },
{
    if off < s.len() {
        s.set(off, v);
        Ok(())
    } else {
        Err(EmuError::OutOfBounds(addr))
    }
}

fn zeroed(n: usize) -> (v: Vec<u8>)
    ensures
        v@ == zeros(n as nat),
{
    let mut v: Vec<u8> = Vec::new();
    let mut i: usize = 0;
    while i < n
        invariant
            i <= n,
            v@ =~= zeros(i as nat),
        decreases n - i,
    {
        v.push(0);
        i = i + 1;
    }
    v
}

fn padded_copy(src: &Vec<u8>, n: usize) -> (v: Vec<u8>)
    ensures
        v@ == padded(src@, n as nat),
{
    let mut v: Vec<u8> = Vec::new();
    let mut i: usize = 0;
    while i < n
        invariant
            i <= n,
            v@ =~= padded(src@, i as nat),
        decreases n - i,
    {
        if i < src.len() {
            v.push(src[i]);
        } else {
            v.push(0);
        }
        i = i + 1;
    }
    v
}

impl MemoryMap {
    /// The memory map that `init_rom` builds from the image `rom` with `mem_banks` external-RAM
    /// banks.
    pub open spec fn init_rom_spec(rom: Seq<u8>, mem_banks: u16) -> MemState {
        MemState {
            rom: padded(rom, rom_bank_count(rom.len()) * 0x4000),
            active_rom: 1,
            vram: zeros(2 * 0x2000),
            active_vram: 0,
            eram: zeros(mem_banks as nat * 0x2000),
            active_eram: 1,
            wram: zeros(8 * 0x1000),
            active_wram: 1,
            oam: zeros(0x100),
            io: zeros(0x80),
            hram: zeros(0x7F),
            ie: 0,
        }
    }

    /// Builds the memory map from a cartridge image and the header's external-RAM bank count.
    /// The image is cut into 16 KiB ROM banks, the last one padded with zeros, with at least
    /// two banks; every RAM region starts zeroed. Active banks: ROM 1, video RAM 0, external
    /// RAM 1, work RAM 1.
    pub fn init_rom(rom: Vec<u8>, header_data: ROMInfo) -> (r: MemoryMap)
        requires
            rom.len() + 0x8000 <= usize::MAX,
        ensures
            r@ == MemoryMap::init_rom_spec(rom@, header_data.mem_banks),
            r@.wf(),
    {
        let len = rom.len();
        let banks: usize = if len <= 2 * ROM_BANK {
            2
        } else {
            (len + 0x3FFF) / ROM_BANK
        };
        assert(banks * 0x4000 <= len + 0x8000) by (nonlinear_arith)
            requires
                banks == (if len <= 2 * 0x4000 { 2 } else { (len + 0x3FFF) / 0x4000 }),
        ;
        let rom_banks = padded_copy(&rom, banks * ROM_BANK);
        assert((banks * 0x4000) as int % 0x4000 == 0 && (banks * 0x4000) as int / 0x4000 == banks)
            by (nonlinear_arith);
        let eram_len: usize = header_data.mem_banks as usize * ERAM_BANK;
        MemoryMap {
            rom_banks,
            active_rom_bank: 1,
            vram: zeroed(2 * VRAM_BANK),
            active_vram: 0,
            eram: zeroed(eram_len),
            active_eram: 1,
            wram: zeroed(8 * WRAM_BANK),
            active_wram: 1,
            oam: zeroed(0x100),
            io: zeroed(0x80),
            hram: zeroed(0x7F),
            ie: 0,
        }
    }

    /// Reads the byte at `addr`. The clock advances one machine cycle whether or not the read
    /// succeeds.
    pub fn read(&self, clock: &mut Clock, addr: u16) -> (r: Result<u8, EmuError>)
        requires
            old(clock).room(1),
        ensures
            r == self@.read(addr),
            *final(clock) == old(clock).ticked(),
    {
        clock.tick();
        let a = addr as usize;
        if a <= 0x3FFF {
            bank_byte(&self.rom_banks, ROM_BANK, 0, a, addr)
        } else if a <= 0x7FFF {
            bank_byte(&self.rom_banks, ROM_BANK, self.active_rom_bank, a - 0x4000, addr)
        } else if a <= 0x9FFF {
            bank_byte(&self.vram, VRAM_BANK, self.active_vram, a - 0x8000, addr)
        } else if a <= 0xBFFF {
            bank_byte(&self.eram, ERAM_BANK, self.active_eram, a - 0xA000, addr)
        } else if a <= 0xCFFF {
            bank_byte(&self.wram, WRAM_BANK, 0, a - 0xC000, addr)
        } else if a <= 0xDFFF {
            bank_byte(&self.wram, WRAM_BANK, self.active_wram, a - 0xD000, addr)
        } else if a <= 0xEFFF {
            bank_byte(&self.wram, WRAM_BANK, 0, a - 0xE000, addr)
        } else if a <= 0xFDFF {
            bank_byte(&self.wram, WRAM_BANK, self.active_wram, a - 0xF000, addr)
        } else if a <= 0xFE9F {
            let off = a - 0xFE00;
            if off < self.oam.len() {
                Ok(self.oam[off])
            } else {
                Err(EmuError::OutOfBounds(addr))
            }
        } else if a <= 0xFEFF {
            Ok(0)
        } else if a <= 0xFF7F {
            let off = a - 0xFF00;
            if off < self.io.len() {
                Ok(self.io[off])
            } else {
                Err(EmuError::OutOfBounds(addr))
            }
        } else if a <= 0xFFFE {
            let off = a - 0xFF80;
            if off < self.hram.len() {
                Ok(self.hram[off])
            } else {
                Err(EmuError::OutOfBounds(addr))
            }
        } else {
            Ok(self.ie)
        }
    }

    /// Writes `value` at `addr`. ROM and the prohibited region refuse writes. The clock
    /// advances one machine cycle whether or not the write succeeds; a failed write changes no
    /// memory.
    pub fn write(&mut self, clock: &mut Clock, addr: u16, value: u8) -> (r: Result<(), EmuError>)
        requires
            old(clock).room(1),
        ensures
            match old(self)@.write(addr, value) {
                Ok(s) => r == Ok::<(), EmuError>(()) && final(self)@ == s,
                Err(e) => r == Err::<(), EmuError>(e) && final(self)@ == old(self)@,
            },
            *final(clock) == old(clock).ticked(),
    {
        clock.tick();
        let a = addr as usize;
        if a <= 0x3FFF {
            Err(EmuError::ReadOnlyWrite(addr))
        } else if a <= 0x7FFF {
            Err(EmuError::ReadOnlyWrite(addr))
        } else if a <= 0x9FFF {
            bank_put(&mut self.vram, VRAM_BANK, self.active_vram, a - 0x8000, value, addr)
        } else if a <= 0xBFFF {
            bank_put(&mut self.eram, ERAM_BANK, self.active_eram, a - 0xA000, value, addr)
        } else if a <= 0xCFFF {
            bank_put(&mut self.wram, WRAM_BANK, 0, a - 0xC000, value, addr)
        } else if a <= 0xDFFF {
            bank_put(&mut self.wram, WRAM_BANK, self.active_wram, a - 0xD000, value, addr)
        } else if a <= 0xEFFF {
            bank_put(&mut self.wram, WRAM_BANK, 0, a - 0xE000, value, addr)
        } else if a <= 0xFDFF {
            bank_put(&mut self.wram, WRAM_BANK, self.active_wram, a - 0xF000, value, addr)
        } else if a <= 0xFE9F {
            plain_put(&mut self.oam, a - 0xFE00, value, addr)
        } else if a <= 0xFEFF {
            Err(EmuError::ProhibitedRegion(addr))
        } else if a <= 0xFF7F {
            plain_put(&mut self.io, a - 0xFF00, value, addr)
        } else if a <= 0xFFFE {
            plain_put(&mut self.hram, a - 0xFF80, value, addr)
        } else {
            self.ie = value;
            Ok(())
        }
    }
}

/// ROM refuses every write, the prohibited region reads as zero and refuses every write,
/// whatever the memory holds.
pub proof fn lemma_region_rules(s: MemState, addr: u16, v: u8)
    ensures
        addr <= 0x7FFF ==> s.write(addr, v) == Err::<MemState, EmuError>(
            EmuError::ReadOnlyWrite(addr),
        ),
        0xFEA0 <= addr <= 0xFEFF ==> s.read(addr) == Ok::<u8, EmuError>(0),
        0xFEA0 <= addr <= 0xFEFF ==> s.write(addr, v) == Err::<MemState, EmuError>(
            EmuError::ProhibitedRegion(addr),
        ),
{
}

/// A write that succeeds keeps the memory map well-formed.
pub proof fn lemma_write_keeps_wf()
    ensures
        forall|s: MemState, addr: u16, v: u8|
            s.wf() && (#[trigger] s.write(addr, v)) is Ok ==> s.write(addr, v)->Ok_0.wf(),
{
}

/// In a well-formed memory map every address outside the external-RAM window reads; that window
/// reads only where the cartridge has the active bank.
pub proof fn lemma_wf_reads(s: MemState, addr: u16)
    requires
        s.wf(),
    ensures
        !(0xA000 <= addr <= 0xBFFF) ==> s.read(addr) is Ok,
{
    let a = addr as int;
    assert(s.vram.len() as int / 0x2000 == 2);
    assert(s.wram.len() as int / 0x1000 == 8);
    if a <= 0x3FFF {
        lemma_bank_index(s.rom.len() as int, 0x4000, 0, a);
    } else if a <= 0x7FFF {
        lemma_bank_index(s.rom.len() as int, 0x4000, s.active_rom, a - 0x4000);
    } else if a <= 0x9FFF {
        lemma_bank_index(s.vram.len() as int, 0x2000, s.active_vram, a - 0x8000);
    } else if a <= 0xBFFF {
    } else if a <= 0xCFFF {
        lemma_bank_index(s.wram.len() as int, 0x1000, 0, a - 0xC000);
    } else if a <= 0xDFFF {
        lemma_bank_index(s.wram.len() as int, 0x1000, s.active_wram, a - 0xD000);
    } else if a <= 0xEFFF {
        lemma_bank_index(s.wram.len() as int, 0x1000, 0, a - 0xE000);
    } else if a <= 0xFDFF {
        lemma_bank_index(s.wram.len() as int, 0x1000, s.active_wram, a - 0xF000);
    }
}

} // verus!
