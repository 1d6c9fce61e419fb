use vstd::prelude::*;

verus! {

/// The control register: raw byte with named bit-fields.
#[derive(Clone, Copy, Debug, PartialEq, Eq, Structural)]
pub struct ControlReg {
    pub bits: u8,
}

/// Bits 0-1: base nametable select.
pub const BASE_NAMETABLE: u8 = 0x03;

/// Bit 2: VRAM address step (0: 1, 1: 32).
pub const VRAM_INCREMENT: u8 = 0x04;

/// Bit 3: sprite pattern table select.
pub const SPRITE_PATTERN_ADDRESS: u8 = 0x08;

/// Bit 4: background pattern table select.
pub const BACKGROUND_PATTERN_ADDRESS: u8 = 0x10;

/// Bit 7: raise the interrupt line at the start of vertical blank.
pub const GENERATE_NMI_ENABLE: u8 = 0x80;

/// Status bit 5: sprite overflow.
pub const SPRITE_OVERFLOW: u8 = 0x20;

/// Status bit 6: sprite-0 hit.
pub const SPRITE_0_HIT: u8 = 0x40;

/// Status bit 7: vertical blank in progress.
pub const VERTICAL_BLANK: u8 = 0x80;

/// Is bit `i` (0 to 7) of `b` set.
pub open spec fn bit_set(b: u8, i: u8) -> bool {
    (b >> i) & 1 == 1
}

impl ControlReg {
    pub open spec fn nametable_select(self) -> nat {
        self.bits as nat % 4
    }

    pub open spec fn spec_vram_increment(self) -> u16 {
        if bit_set(self.bits, 2) {
            32
        } else {
            1
        }
    }

    pub open spec fn spec_nmi_enabled(self) -> bool {
        bit_set(self.bits, 7)
    }

    pub open spec fn spec_background_pattern_address(self) -> u16 {
        if bit_set(self.bits, 4) {
            0x1000
        } else {
            0
        }
    }

    pub fn from_bits(bits: u8) -> (r: ControlReg)
        ensures
            r.bits == bits,
    {
        ControlReg { bits }
    }

    /// 0x2000, 0x2400, 0x2800 or 0x2C00 after the two select bits.
    pub fn base_nametable_address(&self) -> (r: u16)
        ensures
            r == 0x2000 + 0x400 * self.nametable_select(),
    {
        let b = self.bits;
        let r = 0x2000u16 | ((b & BASE_NAMETABLE) as u16) << 10u16;
        assert(0x2000u16 | ((b & 3u8) as u16) << 10u16 == 0x2000 + 0x400 * (b % 4)) by (bit_vector);
        r
    }

    /// The step applied to the VRAM address after a data access.
    pub fn vram_increment(&self) -> (r: u16)
        ensures
            r == self.spec_vram_increment(),
            r == 1 || r == 32,
    {
        let b = self.bits;
        assert((b & 4u8 != 0) == ((b >> 2u8) & 1u8 == 1u8)) by (bit_vector);
        if b & VRAM_INCREMENT != 0 {
            32
        } else {
            1
        }
    }

    /// Pattern table base for sprites: 0x0000 or 0x1000.
    pub fn sprite_pattern_address(&self) -> (r: u16)
        ensures
            r == (if bit_set(self.bits, 3) {
                0x1000u16
            } else {
                0u16
            }),
    {
        let b = self.bits;
        assert(((b & 8u8) as u16) << 9u16 == (if (b >> 3u8) & 1u8 == 1u8 {
            0x1000u16
        } else {
            0u16
        })) by (bit_vector);
        ((b & SPRITE_PATTERN_ADDRESS) as u16) << 9u16
    }

    /// Pattern table base for the background: 0x0000 or 0x1000.
    pub fn background_pattern_address(&self) -> (r: u16)
        ensures
            r == self.spec_background_pattern_address(),
    {
        let b = self.bits;
        assert(((b & 16u8) as u16) << 8u16 == (if (b >> 4u8) & 1u8 == 1u8 {
            0x1000u16
        } else {
            0u16
        })) by (bit_vector);
        ((b & BACKGROUND_PATTERN_ADDRESS) as u16) << 8u16
    }

    pub fn nmi_enabled(&self) -> (r: bool)
        ensures
            r == self.spec_nmi_enabled(),
    {
        let b = self.bits;
        assert((b & 0x80u8 != 0) == ((b >> 7u8) & 1u8 == 1u8)) by (bit_vector);
        b & GENERATE_NMI_ENABLE != 0
    }
}

} // verus!
