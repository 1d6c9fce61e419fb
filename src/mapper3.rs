use vstd::prelude::*;
use crate::bus::Device;

verus! {

/// A cartridge with fixed program storage (16KB or 32KB) and switchable
/// 8KB graphics banks selected by any processor write at 0x8000 and above.
pub struct Mapper3 {
    pub has_32kb_prg_rom: bool,
    pub chr_bank: u8,
    pub chr_count: u8,
    pub is_chr_ram: bool,
}

/// Storage offset of processor address `address` (0x8000 and above): the
/// low 15 bits with 32KB of storage, the low 14 bits with 16KB, whose
/// upper half mirrors the lower.
pub open spec fn prg_offset(has_32kb: bool, address: u16) -> int {
    if has_32kb {
        address - 0x8000
    } else {
        (address - 0x8000) % 0x4000
    }
}

/// The bank a processor write of `data` selects on a cartridge with
/// `chr_count` graphics banks: only the low two bits when it has 4 or fewer.
pub open spec fn selected_bank(chr_count: u8, data: u8) -> u8 {
    if chr_count <= 4 {
        data % 4
    } else {
        data
    }
}

impl Mapper3 {
    pub fn new() -> (r: Self)
        ensures
            !r.has_32kb_prg_rom,
            r.chr_bank == 0,
            r.chr_count == 0,
            !r.is_chr_ram,
    {
        Mapper3 { has_32kb_prg_rom: false, chr_bank: 0, chr_count: 0, is_chr_ram: false }
    }

    /// Configures the cartridge: one or two 16KB program banks, never with
    /// persistent RAM.
    pub fn init(
        &mut self,
        prg_count: u8,
        is_chr_ram: bool,
        chr_count: u8,
        contain_sram: bool,
        _sram_count: u8,
    )
        requires
            prg_count == 1 || prg_count == 2,
            !contain_sram,
        ensures
            *final(self) == (Mapper3 {
                has_32kb_prg_rom: prg_count == 2,
                chr_count,
                is_chr_ram,
                chr_bank: old(self).chr_bank,
            }),
    {
        self.has_32kb_prg_rom = prg_count == 2;
        self.chr_count = chr_count;
        self.is_chr_ram = is_chr_ram;
    }

    /// Translates a read address into `(mapped, storage offset)`.
    pub fn map_read(&self, address: u16, device: Device) -> (r: (bool, usize))
        requires
            device == Device::CPU ==> address >= 0x6000,
            device == Device::PPU ==> address < 0x2000 && self.chr_bank <= self.chr_count,
        ensures
            device == Device::CPU ==> r == (if address < 0x8000 {
                (false, 0usize)
            } else {
                (true, prg_offset(self.has_32kb_prg_rom, address) as usize)
            }),
            device == Device::PPU ==> r == (true, (0x2000 * self.chr_bank + address) as usize),
    {
        match device {
            Device::CPU => {
                if address < 0x8000 {
                    (false, 0)
                } else if self.has_32kb_prg_rom {
                    assert(address & 0x7FFF == address - 0x8000) by (bit_vector)
                        requires
                            address >= 0x8000,
                    ;
                    (true, (address & 0x7FFF) as usize)
                } else {
                    assert(address & 0xBFFF & 0x7FFF == (address - 0x8000) % 0x4000)
                        by (bit_vector)
                        requires
                            address >= 0x8000,
                    ;
                    (true, (address & 0xBFFF & 0x7FFF) as usize)
                }
            },
            Device::PPU => {
                assert(address & 0x1FFF == address) by (bit_vector)
                    requires
                        address < 0x2000,
                ;
                let start_of_bank = 0x2000 * self.chr_bank as usize;
                (true, start_of_bank + (address & 0x1FFF) as usize)
            },
        }
    }

    /// A write: from the processor at 0x8000 and above it selects the
    /// graphics bank; from the picture unit it is accepted only into
    /// graphics RAM.
    pub fn map_write(&mut self, address: u16, data: u8, device: Device) -> (r: (bool, usize))
        ensures
            device == Device::CPU ==> r == (false, 0usize) && *final(self) == (if address >= 0x8000 {
                Mapper3 { chr_bank: selected_bank(old(self).chr_count, data), ..*old(self) }
            } else {
                *old(self)
            }),
            device == Device::PPU ==> *final(self) == *old(self) && r == (if old(self).is_chr_ram
                && address <= 0x1FFF {
                (true, address as usize)
            } else {
                (false, 0usize)
            }),
    {
        match device {
            Device::CPU => {
                if address >= 0x8000 {
                    if self.chr_count <= 4 {
                        assert(data & 3 == data % 4) by (bit_vector);
                        self.chr_bank = data & 0b11;
                    } else {
                        self.chr_bank = data;
                    }
                }
                (false, 0)
            },
            Device::PPU => {
                if self.is_chr_ram && address <= 0x1FFF {
                    (true, address as usize)
                } else {
                    (false, 0)
                }
            },
        }
    }

    /// Nametable mirroring is fixed by the board's wiring.
    pub fn is_hardwired_mirrored(&self) -> (r: bool)
        ensures
            r,
    {
        true
    }

    /// This board never requests an interrupt.
    pub fn is_irq_pin_state_changed_requested(&self) -> (r: bool)
        ensures
            !r,
    {
        false
    }

    /// Nothing to acknowledge on this board.
    pub fn clear_irq_request_pin(&mut self)
        ensures
            *final(self) == *old(self),
    {
    }
}

/// With 16KB of program storage the upper 16KB of the processor window
/// mirrors the lower; with 32KB the two halves are distinct.
pub proof fn lemma_prg_mirroring(address: u16)
    requires
        0x8000 <= address < 0xC000,
    ensures
        prg_offset(false, address) == prg_offset(false, (address + 0x4000) as u16),
        prg_offset(true, address) != prg_offset(true, (address + 0x4000) as u16),
{
}

} // verus!
