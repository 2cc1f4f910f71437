use vstd::prelude::*;
use vstd::arithmetic::power2::{pow2, lemma_pow2_pos};
use vstd::bits::{low_bits_mask, lemma_usize_low_bits_mask_is_mod};

verus! {

pub const BIOS_SIZE: usize = 16 * 1024;
pub const EWRAM_SIZE: usize = 256 * 1024;
pub const IWRAM_SIZE: usize = 32 * 1024;
pub const IO_SIZE: usize = 1024;
pub const PALETTE_SIZE: usize = 1024;
pub const VRAM_SIZE: usize = 96 * 1024;
pub const OAM_SIZE: usize = 1024;

/// The regions of the address space, chosen by the top byte of an address.
pub enum Region {
    Bios,
    Ewram,
    Iwram,
    Io,
    Palette,
    Vram,
    Oam,
    Rom,
    Sram,
    Unmapped,
}

/// The region that `addr` falls in: its top byte 0x00 is the BIOS, 0x02 to
/// 0x07 the on-board memories, 0x08 to 0x0D the cartridge ROM (three mirrors
/// of two pages each), 0x0E and 0x0F the cartridge SRAM; nothing else is
/// mapped.
pub open spec fn region_of(addr: u32) -> Region {
    let top: nat = addr as nat / 0x100_0000;
    if top == 0x00 {
        Region::Bios
    } else if top == 0x02 {
        Region::Ewram
    } else if top == 0x03 {
        Region::Iwram
    } else if top == 0x04 {
        Region::Io
    } else if top == 0x05 {
        Region::Palette
    } else if top == 0x06 {
        Region::Vram
    } else if top == 0x07 {
        Region::Oam
    } else if 0x08 <= top <= 0x0D {
        Region::Rom
    } else if top == 0x0E || top == 0x0F {
        Region::Sram
    } else {
        Region::Unmapped
    }
}

/// The offset into VRAM that `addr` reaches: VRAM repeats every 128 KiB, and
/// within each repetition the top 32 KiB mirror the 32 KiB below them.
pub open spec fn vram_offset(addr: u32) -> nat {
    let offset: nat = addr as nat % 0x20000;
    if offset >= 0x18000 {
        (offset - 0x8000) as nat
    } else {
        offset
    }
}

/// The offset into the cartridge ROM that `addr` reaches (a 32 MiB window).
pub open spec fn rom_offset(addr: u32) -> nat {
    addr as nat % 0x200_0000
}

/// The memory bus: the GBA's memories and the loaded cartridge, as the CPU
/// reads them.
pub struct Bus {
    pub bios: [u8; BIOS_SIZE],
    pub ewram: [u8; EWRAM_SIZE],
    pub iwram: [u8; IWRAM_SIZE],
    pub io: [u8; IO_SIZE],
    pub palette: [u8; PALETTE_SIZE],
    pub vram: [u8; VRAM_SIZE],
    pub oam: [u8; OAM_SIZE],
    pub rom: Vec<u8>,
    pub sram: Vec<u8>,
}

impl Bus {
    /// The byte that an 8-bit read of `addr` gives. The on-board memories
    /// repeat across their page; a ROM read past the loaded image, a read of
    /// empty SRAM and a read of an unmapped address give 0; SRAM repeats by
    /// masking the offset with its size minus one.
    pub open spec fn byte_at(self, addr: u32) -> u8 {
        match region_of(addr) {
            Region::Bios => self.bios@[(addr as nat % BIOS_SIZE as nat) as int],
            Region::Ewram => self.ewram@[(addr as nat % EWRAM_SIZE as nat) as int],
            Region::Iwram => self.iwram@[(addr as nat % IWRAM_SIZE as nat) as int],
            Region::Io => self.io@[(addr as nat % IO_SIZE as nat) as int],
            Region::Palette => self.palette@[(addr as nat % PALETTE_SIZE as nat) as int],
            Region::Vram => self.vram@[vram_offset(addr) as int],
            Region::Oam => self.oam@[(addr as nat % OAM_SIZE as nat) as int],
            Region::Rom => if rom_offset(addr) < self.rom@.len() {
                self.rom@[rom_offset(addr) as int]
            } else {
                0
            },
            Region::Sram => if self.sram@.len() == 0 {
                0
            } else {
                self.sram@[((addr as usize) & ((self.sram@.len() - 1) as usize)) as int]
            },
            Region::Unmapped => 0,
        }
    }

    /// Every on-board memory holds only zeros.
    pub open spec fn memories_cleared(self) -> bool {
        &&& forall|i: int| 0 <= i < BIOS_SIZE ==> self.bios@[i] == 0
        &&& forall|i: int| 0 <= i < EWRAM_SIZE ==> self.ewram@[i] == 0
        &&& forall|i: int| 0 <= i < IWRAM_SIZE ==> self.iwram@[i] == 0
        &&& forall|i: int| 0 <= i < IO_SIZE ==> self.io@[i] == 0
        &&& forall|i: int| 0 <= i < PALETTE_SIZE ==> self.palette@[i] == 0
        &&& forall|i: int| 0 <= i < VRAM_SIZE ==> self.vram@[i] == 0
        &&& forall|i: int| 0 <= i < OAM_SIZE ==> self.oam@[i] == 0
    }

    /// A bus with cleared memories, the given cartridge ROM and the given SRAM
    /// contents.
    pub fn new(rom: Vec<u8>, sram: Vec<u8>) -> (r: Self)
        ensures
            r.memories_cleared(),
            r.rom@ == rom@,
            r.sram@ == sram@,
    {
        Self {
            bios: [0; BIOS_SIZE],
            ewram: [0; EWRAM_SIZE],
            iwram: [0; IWRAM_SIZE],
            io: [0; IO_SIZE],
            palette: [0; PALETTE_SIZE],
            vram: [0; VRAM_SIZE],
            oam: [0; OAM_SIZE],
            rom,
            sram,
        }
    }

    /// Single source of truth for checking if an address is in the SRAM region
    fn is_sram(addr: u32) -> (r: bool)
        ensures
            r == (region_of(addr) is Sram),
    {
        let top: u32 = addr >> 24;
        proof {
            assert(addr >> 24 == addr / 0x100_0000) by (bit_vector);
        }
        top == 0x0E || top == 0x0F
    }

    /// Reads the byte at `addr`.
    pub fn read8(&self, addr: u32) -> (r: u8)
        ensures
            r == self.byte_at(addr),
    {
        let a: usize = addr as usize;
        proof {
            assert(addr >> 24 == addr / 0x100_0000) by (bit_vector);
            assert(a & 0x3FFF == a % 0x4000) by (bit_vector);
            assert(a & 0x3FFFF == a % 0x40000) by (bit_vector);
            assert(a & 0x7FFF == a % 0x8000) by (bit_vector);
            assert(a & 0x3FF == a % 0x400) by (bit_vector);
            assert(a & 0x1FFFF == a % 0x20000) by (bit_vector);
            assert(a & 0x01FFFFFF == a % 0x200_0000) by (bit_vector);
        }
        match addr >> 24 {
            0x00 => self.bios[(addr as usize) & (BIOS_SIZE - 1)],
            0x02 => self.ewram[(addr as usize) & (EWRAM_SIZE - 1)],
            0x03 => self.iwram[(addr as usize) & (IWRAM_SIZE - 1)],
            0x04 => self.io[(addr as usize) & (IO_SIZE - 1)],
            0x05 => self.palette[(addr as usize) & (PALETTE_SIZE - 1)],
            0x06 => {
                let offset: usize = (addr as usize) & 0x1FFFF; // 128KB mirror period
                if offset >= 0x18000 {
                    // Top 32KB mirrors the 0x10000 - 0x17FFF range
                    self.vram[offset - 0x8000]
                } else {
                    self.vram[offset]
                }
            }
            0x07 => self.oam[(addr as usize) & (OAM_SIZE - 1)],
            0x08 | 0x09 | 0x0A | 0x0B | 0x0C | 0x0D => {
                if self.rom.is_empty() {
                    return 0;
                }
                let offset: usize = (addr as usize) & 0x01FFFFFF;
                if offset < self.rom.len() {
                    self.rom[offset]
                } else {
                    // Out of bounds for the loaded ROM
                    0
                }
            }
            0x0E | 0x0F => {
                if self.sram.is_empty() {
                    return 0;
                }
                // SRAM mirrors across its loaded size (usually a power of 2, like 32K or 64K)
                let mask: usize = self.sram.len() - 1;
                proof {
                    assert(a & mask <= mask) by (bit_vector);
                }
                self.sram[(addr as usize) & mask]
            }
            _ => 0,
        }
    }

    /// The halfword that a 16-bit read of `addr` gives: SRAM has an 8-bit
    /// bus, so there the byte at `addr` fills both halves; elsewhere the bytes
    /// at `addr` and `addr + 1`, little-endian.
    pub open spec fn halfword_at(self, addr: u32) -> int {
        if region_of(addr) is Sram {
            self.byte_at(addr) * 0x0101
        } else {
            self.byte_at(addr) + 0x100 * self.byte_at((addr + 1) as u32)
        }
    }

    /// The word that a 32-bit read of `addr` gives: in SRAM the byte at
    /// `addr` in all four places; elsewhere the bytes at `addr` to `addr + 3`,
    /// little-endian.
    pub open spec fn word_at(self, addr: u32) -> int {
        if region_of(addr) is Sram {
            self.byte_at(addr) * 0x01010101
        } else {
            self.byte_at(addr) + 0x100 * self.byte_at((addr + 1) as u32) + 0x1_0000
                * self.byte_at((addr + 2) as u32) + 0x100_0000 * self.byte_at((addr + 3) as u32)
        }
    }

    // Misaligned-address rotation is a CPU-side LDR/LDRH concern, not
    // handled here: the CPU rotates these results if misaligned.
    /// Reads the little-endian halfword at `addr`. Outside SRAM the address
    /// must leave room for the second byte.
    pub fn read16(&self, addr: u32) -> (r: u16)
        requires
            region_of(addr) is Sram || addr < u32::MAX,
        ensures
            r as int == self.halfword_at(addr),
    {
        if Self::is_sram(addr) {
            return (self.read8(addr) as u16) * 0x0101;
        }
        let lo: u8 = self.read8(addr);
        let hi: u8 = self.read8(addr + 1);
        (lo as u16) + (hi as u16) * 0x100
    }

    /// Reads the little-endian word at `addr`. Outside SRAM the address must
    /// leave room for the three following bytes.
    pub fn read32(&self, addr: u32) -> (r: u32)
        requires
            region_of(addr) is Sram || addr <= u32::MAX - 3,
        ensures
            r as int == self.word_at(addr),
    {
        if Self::is_sram(addr) {
            return (self.read8(addr) as u32) * 0x01010101;
        }
        let b0: u8 = self.read8(addr);
        let b1: u8 = self.read8(addr + 1);
        let b2: u8 = self.read8(addr + 2);
        let b3: u8 = self.read8(addr + 3);
        (b0 as u32) + (b1 as u32) * 0x100 + (b2 as u32) * 0x1_0000 + (b3 as u32) * 0x100_0000
    }
}

/// How often the contents of a region repeat across its addresses; the
/// period of SRAM depends on the loaded size, and unmapped addresses all
/// read alike.
pub open spec fn mirror_period(region: Region) -> nat {
    match region {
        Region::Bios => BIOS_SIZE as nat,
        Region::Ewram => EWRAM_SIZE as nat,
        Region::Iwram => IWRAM_SIZE as nat,
        Region::Io => IO_SIZE as nat,
        Region::Palette => PALETTE_SIZE as nat,
        Region::Vram => 0x20000,
        Region::Oam => OAM_SIZE as nat,
        Region::Rom => 0x200_0000,
        Region::Sram => 0,
        Region::Unmapped => 1,
    }
}

/// Mirroring: two addresses of one region (SRAM aside) that agree modulo the
/// region's period read the same byte.
pub proof fn lemma_region_mirroring(bus: Bus, a1: u32, a2: u32)
    requires
        region_of(a1) == region_of(a2),
        !(region_of(a1) is Sram),
        a1 as nat % mirror_period(region_of(a1)) == a2 as nat % mirror_period(region_of(a1)),
    ensures
        bus.byte_at(a1) == bus.byte_at(a2),
{
}

/// Within each 128 KiB of VRAM addresses, the top 32 KiB read the same bytes
/// as the 32 KiB below them.
pub proof fn lemma_vram_upper_mirror(bus: Bus, addr: u32)
    requires
        region_of(addr) is Vram,
        addr as nat % 0x20000 >= 0x18000,
    ensures
        region_of((addr - 0x8000) as u32) is Vram,
        bus.byte_at(addr) == bus.byte_at((addr - 0x8000) as u32),
        bus.byte_at(addr) == bus.vram@[(addr as nat % 0x20000 - 0x8000) as int],
{
}

/// SRAM whose size is a power of two repeats with that size as its period.
pub proof fn lemma_sram_mirroring(bus: Bus, addr: u32, k: nat)
    requires
        region_of(addr) is Sram,
        bus.sram@.len() == pow2(k),
        k < usize::BITS,
    ensures
        bus.byte_at(addr) == bus.sram@[(addr as nat % pow2(k)) as int],
{
    lemma_pow2_pos(k);
    lemma_usize_low_bits_mask_is_mod(addr as usize, k);
    assert(low_bits_mask(k) == bus.sram@.len() - 1);
    assert(bus.sram@.len() == bus.sram.len());
    assert(pow2(k) as usize == pow2(k));
}

/// Reads of the on-board memories of a bus with cleared memories give 0, and
/// so do unmapped addresses, ROM addresses past the loaded image and SRAM
/// addresses when no SRAM is loaded.
pub proof fn lemma_zero_reads(bus: Bus, addr: u32)
    ensures
        bus.memories_cleared() && !(region_of(addr) is Rom) && !(region_of(addr) is Sram)
            ==> bus.byte_at(addr) == 0,
        region_of(addr) is Unmapped ==> bus.byte_at(addr) == 0,
        region_of(addr) is Rom && rom_offset(addr) >= bus.rom@.len() ==> bus.byte_at(addr) == 0,
        region_of(addr) is Sram && bus.sram@.len() == 0 ==> bus.byte_at(addr) == 0,
{
}

/// Outside SRAM, a 32-bit read is the little-endian join of the two 16-bit
/// reads at `addr` and `addr + 2`, provided the second one is not in SRAM
/// either.
pub proof fn lemma_word_is_two_halfwords(bus: Bus, addr: u32)
    requires
        addr <= u32::MAX - 3,
        !(region_of(addr) is Sram),
        !(region_of((addr + 2) as u32) is Sram),
    ensures
        bus.word_at(addr) == bus.halfword_at(addr) + 0x1_0000 * bus.halfword_at((addr + 2) as u32),
{
    assert(((addr + 2) as u32 + 1) as u32 == (addr + 3) as u32);
}

/// The memory map, read by the top byte of the address: 0x00 BIOS, 0x02
/// EWRAM, 0x03 IWRAM, 0x04 I/O, 0x05 palette, 0x06 VRAM and 0x07 OAM, each
/// repeating across its page with the memory's size as period (VRAM with a
/// 128 KiB period whose top 32 KiB repeat the 32 KiB below); 0x08 to 0x0D the
/// ROM image at the address modulo 32 MiB, 0 past its end; 0x0E and 0x0F the
/// SRAM at the address masked by its size minus one, 0 when there is none;
/// 0 everywhere else.
pub proof fn lemma_memory_map(bus: Bus, addr: u32)
    ensures
        addr / 0x100_0000 == 0x00 ==> bus.byte_at(addr) == bus.bios@[(addr % 0x4000) as int],
        addr / 0x100_0000 == 0x02 ==> bus.byte_at(addr) == bus.ewram@[(addr % 0x4_0000) as int],
        addr / 0x100_0000 == 0x03 ==> bus.byte_at(addr) == bus.iwram@[(addr % 0x8000) as int],
        addr / 0x100_0000 == 0x04 ==> bus.byte_at(addr) == bus.io@[(addr % 0x400) as int],
        addr / 0x100_0000 == 0x05 ==> bus.byte_at(addr) == bus.palette@[(addr % 0x400) as int],
        addr / 0x100_0000 == 0x06 && addr % 0x2_0000 < 0x1_8000 ==> bus.byte_at(addr)
            == bus.vram@[(addr % 0x2_0000) as int],
        addr / 0x100_0000 == 0x06 && addr % 0x2_0000 >= 0x1_8000 ==> bus.byte_at(addr)
            == bus.vram@[addr % 0x2_0000 - 0x8000],
        addr / 0x100_0000 == 0x07 ==> bus.byte_at(addr) == bus.oam@[(addr % 0x400) as int],
        0x08 <= addr / 0x100_0000 <= 0x0D && addr % 0x200_0000 < bus.rom@.len() ==> bus.byte_at(
            addr,
        ) == bus.rom@[(addr % 0x200_0000) as int],
        0x08 <= addr / 0x100_0000 <= 0x0D && addr % 0x200_0000 >= bus.rom@.len() ==> bus.byte_at(
            addr,
        ) == 0,
        0x0E <= addr / 0x100_0000 <= 0x0F && bus.sram@.len() > 0 ==> bus.byte_at(addr)
            == bus.sram@[((addr as usize) & ((bus.sram@.len() - 1) as usize)) as int],
        0x0E <= addr / 0x100_0000 <= 0x0F && bus.sram@.len() == 0 ==> bus.byte_at(addr) == 0,
        addr / 0x100_0000 == 0x01 || addr / 0x100_0000 >= 0x10 ==> bus.byte_at(addr) == 0,
{
}

/// Wide reads are built from byte reads: in SRAM (top byte 0x0E or 0x0F) the
/// byte at the address fills every byte lane; elsewhere a halfword is the
/// byte at the address plus 256 times the next one, and a word is the four
/// bytes from the address on, least significant first.
pub proof fn lemma_wide_reads_from_bytes(bus: Bus, addr: u32)
    ensures
        0x0E <= addr / 0x100_0000 <= 0x0F ==> bus.halfword_at(addr) == bus.byte_at(addr) * 0x101
            && bus.word_at(addr) == bus.byte_at(addr) * 0x0101_0101,
        !(0x0E <= addr / 0x100_0000 <= 0x0F) && addr < u32::MAX ==> bus.halfword_at(addr)
            == bus.byte_at(addr) + 0x100 * bus.byte_at((addr + 1) as u32),
        !(0x0E <= addr / 0x100_0000 <= 0x0F) && addr <= u32::MAX - 3 ==> bus.word_at(addr)
            == bus.byte_at(addr) + 0x100 * bus.byte_at((addr + 1) as u32) + 0x1_0000
            * bus.byte_at((addr + 2) as u32) + 0x100_0000 * bus.byte_at((addr + 3) as u32),
        0 <= bus.halfword_at(addr) < 0x1_0000,
        0 <= bus.word_at(addr) < 0x1_0000_0000,
{
}

} // verus!
