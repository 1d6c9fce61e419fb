use vstd::prelude::*;
use crate::bus::{Bus, Device};
use crate::registers::{ControlReg, VERTICAL_BLANK};

verus! {

/// Last dot of a scanline.
pub const LAST_DOT: u16 = 340;

/// Last scanline of a frame: the pre-render line.
pub const PRE_RENDER_LINE: u16 = 261;

/// The only scanline of the post-render idle phase.
pub const POST_RENDER_LINE: u16 = 240;

/// The scanline on which vertical blank starts.
pub const VBLANK_LINE: u16 = 241;

/// Base of the palette window on the graphics bus.
pub const PALETTE_BASE: u16 = 0x3F00;

/// Processor-visible registers of the picture unit.
#[derive(Clone, Copy, Debug, PartialEq, Eq, Structural)]
pub enum Register {
    Control,
    Mask,
    Status,
    OmaAddress,
    OmaData,
    Scroll,
    PPUAddress,
    PPUData,
    DmaOma,
}

/// One pixel produced by a tick: position on screen and a 6-bit color.
#[derive(Clone, Copy, Debug, PartialEq, Eq, Structural)]
pub struct Pixel {
    pub x: u32,
    pub y: u32,
    pub color: u8,
}

/// One access the picture unit made on the bus: the address, the byte read
/// or written, and which of the two it was.
#[derive(Clone, Copy, Debug, PartialEq, Eq, Structural)]
pub struct BusAccess {
    pub write: bool,
    pub address: u16,
    pub data: u8,
}

/// A read of `address` that returned `data`.
pub open spec fn read_of(address: int, data: u8) -> BusAccess {
    BusAccess { write: false, address: address as u16, data }
}

/// The picture unit: register file, address/scroll unit, background
/// pipeline and the scanline/dot scheduler.
pub struct PPU2C02<T: Bus> {
    pub reg_control: ControlReg,
    pub reg_mask: u8,
    pub reg_status: u8,
    pub reg_oma_addr: u8,
    pub reg_oma_data: u8,
    pub reg_oma_dma: u8,
    pub scanline: u16,
    pub cycle: u16,
    /// Current VRAM address ("v"), 15 bits.
    pub vram_address_cur: u16,
    /// Temporary VRAM address ("t"), 15 bits.
    pub vram_address_tmp: u16,
    pub x_scroll: u8,
    pub y_scroll: u8,
    /// Write latch ("w"): true while awaiting the second write.
    pub w_toggle: bool,
    pub bg_pattern_lo: u16,
    pub bg_pattern_hi: u16,
    pub bg_attribute_cur: u8,
    pub bg_attribute_next: u8,
    pub nmi_pin_status: bool,
    pub bus: T,
    /// Every access this unit has made on the bus, oldest first.
    pub bus_log: Ghost<Seq<BusAccess>>,
}

/// `v` with its coarse-X field (bits 0-4) replaced by the low 5 bits of `cx`.
pub open spec fn with_coarse_x(v: u16, cx: u16) -> u16 {
    (v & 0x7FE0) | (cx & 0x1F)
}

/// `v` with its coarse-Y field (bits 5-9) replaced by the low 5 bits of `cy`.
pub open spec fn with_coarse_y(v: u16, cy: u16) -> u16 {
    (v & 0x7C1F) | ((cy & 0x1F) << 5u16)
}

/// `v` with its nametable-select field (bits 10-11) replaced by `nt`'s low 2 bits.
pub open spec fn with_nametable(v: u16, nt: u16) -> u16 {
    (v & 0x73FF) | ((nt & 3) << 10u16)
}

/// The dot that follows `(scanline, dot)`.
pub open spec fn next_position(scanline: u16, dot: u16) -> (u16, u16) {
    if dot < LAST_DOT {
        (scanline, (dot + 1) as u16)
    } else if scanline < PRE_RENDER_LINE {
        ((scanline + 1) as u16, 0u16)
    } else {
        (0u16, 0u16)
    }
}

/// Lines 0 to 239 are drawn.
pub open spec fn is_visible_line(scanline: u16) -> bool {
    scanline <= 239
}

/// A dot on which a pixel is emitted.
pub open spec fn is_pixel_dot(scanline: u16, dot: u16) -> bool {
    is_visible_line(scanline) && 1 <= dot <= 256
}

/// A pixel dot on which the next tile is fetched.
pub open spec fn is_fetch_dot(scanline: u16, dot: u16) -> bool {
    is_pixel_dot(scanline, dot) && dot % 8 == 0
}

/// Moves the coarse-X position one tile on: in the address, within its
/// 5-bit field; in the X scroll, by 8 pixels modulo 256.
pub open spec fn step_coarse_x(v: u16, x: u8) -> (u16, u8) {
    (with_coarse_x(v, (v + 1) as u16), ((x + 8) % 256) as u8)
}

/// Bit `i` of `reg`, as 0 or 1.
pub open spec fn bit_of(reg: u16, i: u16) -> u16 {
    (reg >> i) & 1
}

/// Address of one pattern row: 16 bytes per tile, the upper plane 8 bytes
/// after the lower, one byte per fine-Y row.
pub open spec fn spec_pattern_address(table: u16, tile: u8, upper: bool, fine_y: u8) -> int {
    table + 16 * tile + (if upper {
        8int
    } else {
        0int
    }) + fine_y % 8
}

/// Address of the attribute byte covering the tile under `v`: the last 64
/// bytes of the selected nametable, one per 4x4 block of tiles.
pub open spec fn spec_attribute_address(v: u16) -> int {
    0x23C0 + 0x400 * ((v / 0x400) % 4) + 8 * (((v / 32) % 32) / 4) + (v % 32) / 4
}

/// Which 2-bit palette selector of an attribute byte applies: the quadrant
/// given by bit 1 of the X and Y scroll.
pub open spec fn quadrant(x_scroll: u8, y_scroll: u8) -> int {
    2 * ((y_scroll / 2) % 2) + (x_scroll / 2) % 2
}

/// Palette entry of a background pixel: 4 colors per palette, the color
/// made of one bit of each pattern plane at the fine-X offset.
pub open spec fn spec_palette_address(lo: u16, hi: u16, attribute: u8, x_scroll: u8, y_scroll: u8) -> int {
    let fine_x = (x_scroll % 8) as u16;
    let palette = (attribute as int / pow4(quadrant(x_scroll, y_scroll))) % 4;
    PALETTE_BASE + 4 * palette + 2 * bit_of(hi, fine_x) + bit_of(lo, fine_x)
}

/// 4 to the power `n`, for `n` from 0 to 3.
pub open spec fn pow4(n: int) -> int {
    if n <= 0 {
        1
    } else if n == 1 {
        4
    } else if n == 2 {
        16
    } else {
        64
    }
}

/// The VRAM address after a data-register access.
pub open spec fn data_access_address(v: u16, scanline: u16, step: u16) -> u16 {
    if scanline > POST_RENDER_LINE {
        ((v + step) as u16) & 0x7FFF
    } else {
        v
    }
}

/// Address and scroll state `(v, x, y)` after the render sub-cycle at `dot`
/// of a visible line, `t` being the temporary address.
pub open spec fn render_scroll_effect(dot: u16, t: u16, v: u16, x: u8, y: u8) -> (u16, u8, u8) {
    if 1 <= dot <= 256 && dot % 8 == 0 {
        if dot != 256 {
            let (v2, x2) = step_coarse_x(v, x);
            (v2, x2, y)
        } else {
            let y2 = ((y + 1) % 256) as u8;
            (with_coarse_y(v, (y2 >> 3u8) as u16), x, y2)
        }
    } else if dot == 257 {
        (v, (((t & 0x1F) << 3u16) as u8) | (x & 7), y)
    } else if dot == 321 {
        let (v1, x1) = step_coarse_x(v, x);
        let (v2, x2) = step_coarse_x(v1, x1);
        (v2, x2, y)
    } else {
        (v, x, y)
    }
}

/// Both pattern registers of the background shifters `(lo, hi, current
/// attribute, pending attribute)` shifted right by one pixel.
pub open spec fn shifted(bg: (u16, u16, u8, u8)) -> (u16, u16, u8, u8) {
    (bg.0 >> 1u16, bg.1 >> 1u16, bg.2, bg.3)
}

/// The shifters after loading a fetched tile: its two planes into the low
/// bytes of the pattern registers, the pending attribute into place, and
/// the fetched attribute pending.
pub open spec fn load_low(bg: (u16, u16, u8, u8), lo: u8, hi: u8, attribute: u8) -> (u16, u16, u8, u8) {
    ((bg.0 & 0xFF00) | (lo as u16), (bg.1 & 0xFF00) | (hi as u16), bg.3, attribute)
}

/// The shifters after loading the second tile of the pre-load: its planes
/// into the high bytes, behind the first tile, which stays in the low bytes.
pub open spec fn load_high(bg: (u16, u16, u8, u8), lo: u8, hi: u8, attribute: u8) -> (u16, u16, u8, u8) {
    (
        (bg.0 & 0x00FF) | ((lo as u16) << 8u16),
        (bg.1 & 0x00FF) | ((hi as u16) << 8u16),
        bg.3,
        attribute,
    )
}

/// The four reads of one tile fetch at address `v`: the nametable byte
/// `tile`, its two pattern planes, and the attribute byte.
pub open spec fn tile_reads(v: u16, table: u16, fine_y: u8, tile: u8, lo: u8, hi: u8, a: u8) -> Seq<BusAccess> {
    seq![
        read_of(v as int, tile),
        read_of(spec_pattern_address(table, tile, false, fine_y), lo),
        read_of(spec_pattern_address(table, tile, true, fine_y), hi),
        read_of(spec_attribute_address(v), a),
    ]
}

/// Address of a row of a background pattern.
pub fn pattern_address(table: u16, tile: u8, upper: bool, fine_y: u8) -> (r: u16)
    requires
        table == 0 || table == 0x1000,
    ensures
        r == spec_pattern_address(table, tile, upper, fine_y),
{
    let t = tile as u16;
    let f = (fine_y & 7) as u16;
    let p: u16 = if upper {
        8
    } else {
        0
    };
    assert(table | (t << 4u16) | p | f == table + 16 * t + p + f && f == fine_y % 8) by (bit_vector)
        requires
            table == 0 || table == 0x1000,
            t < 256,
            p == 0 || p == 8,
            f == (fine_y & 7) as u16,
    ;
    table | (t << 4u16) | p | f
}

/// Address of the attribute byte for the tile under the current address.
pub fn attribute_address(v: u16) -> (r: u16)
    requires
        v < 0x8000,
    ensures
        r == spec_attribute_address(v),
{
    let r = 0x23C0 | (v & 0x0C00) | ((v >> 4u16) & 0x38) | ((v >> 2u16) & 0x07);
    assert(r == 0x23C0 + 0x400 * ((v / 0x400) % 4) + 8 * (((v / 32) % 32) / 4) + (v % 32) / 4)
        by (bit_vector)
        requires
            r == 0x23C0 | (v & 0x0C00) | ((v >> 4u16) & 0x38) | ((v >> 2u16) & 0x07),
    ;
    r
}

/// Palette entry of the next background pixel.
pub fn palette_address(lo: u16, hi: u16, attribute: u8, x_scroll: u8, y_scroll: u8) -> (r: u16)
    ensures
        r == spec_palette_address(lo, hi, attribute, x_scroll, y_scroll),
{
    let x = x_scroll;
    let y = y_scroll;
    let fine_x = (x & 7) as u16;
    assert(fine_x < 8 && fine_x == x % 8) by (bit_vector)
        requires
            fine_x == (x & 7) as u16,
    ;
    assert((lo >> fine_x) & 1 < 2 && (hi >> fine_x) & 1 < 2) by (bit_vector);
    let low_bit = ((lo >> fine_x) & 1) as u8;
    let high_bit = ((hi >> fine_x) & 1) as u8;
    let q = (((y >> 1u8) & 1) << 1u8) | ((x >> 1u8) & 1);
    assert(q < 4 && q == 2 * ((y / 2) % 2) + (x / 2) % 2) by (bit_vector)
        requires
            q == (((y >> 1u8) & 1) << 1u8) | ((x >> 1u8) & 1),
    ;
    let a = attribute;
    let palette = (a >> (2 * q)) & 3;
    assert(palette == (a / (if q == 0 {
        1u8
    } else if q == 1 {
        4u8
    } else if q == 2 {
        16u8
    } else {
        64u8
    })) % 4) by (bit_vector)
        requires
            q < 4,
            palette == (a >> (2 * q)) & 3,
    ;
    let color_bit = (high_bit << 1u8) | low_bit;
    assert(color_bit == 2 * high_bit + low_bit) by (bit_vector)
        requires
            high_bit < 2,
            low_bit < 2,
            color_bit == (high_bit << 1u8) | low_bit,
    ;
    let pa = palette as u16;
    let cb = color_bit as u16;
    assert(PALETTE_BASE | (pa << 2u16) | cb == 0x3F00 + 4 * pa + cb) by (bit_vector)
        requires
            pa < 4,
            cb < 4,
    ;
    PALETTE_BASE | (pa << 2u16) | cb
}

/// The 6-bit color of a palette entry holding `palette_byte`.
pub fn pixel_color(palette_byte: u8) -> (r: u8)
    ensures
        r == palette_byte % 64,
{
    let r = palette_byte & 0x3F;
    assert(r == palette_byte % 64) by (bit_vector)
        requires
            r == palette_byte & 0x3F,
    ;
    r
}

impl<T: Bus> PPU2C02<T> {
    /// The read of the palette entry for the next pixel, which returned `c`.
    pub open spec fn pixel_read(self, c: u8) -> BusAccess {
        read_of(
            spec_palette_address(
                self.bg_pattern_lo,
                self.bg_pattern_hi,
                self.bg_attribute_cur,
                self.x_scroll,
                self.y_scroll,
            ),
            c,
        )
    }

    /// The reads of a tile fetch at the current address.
    pub open spec fn fetch_reads(self, tile: u8, lo: u8, hi: u8, a: u8) -> Seq<BusAccess> {
        tile_reads(
            self.vram_address_cur,
            self.reg_control.spec_background_pattern_address(),
            self.y_scroll,
            tile,
            lo,
            hi,
            a,
        )
    }

    /// The log after a pixel read returning `c` and a tile fetch.
    pub open spec fn fetch_dot_log(self, c: u8, tile: u8, lo: u8, hi: u8, a: u8) -> Seq<BusAccess> {
        self.bus_log@.push(self.pixel_read(c)) + self.fetch_reads(tile, lo, hi, a)
    }

    /// The log after the two fetches of the pre-load, the second one a tile
    /// further on.
    pub open spec fn preload_log(
        self,
        t1: u8,
        lo1: u8,
        hi1: u8,
        a1: u8,
        t2: u8,
        lo2: u8,
        hi2: u8,
        a2: u8,
    ) -> Seq<BusAccess> {
        let next_v = step_coarse_x(self.vram_address_cur, self.x_scroll).0;
        self.bus_log@ + self.fetch_reads(t1, lo1, hi1, a1) + tile_reads(
            next_v,
            self.reg_control.spec_background_pattern_address(),
            self.y_scroll,
            t2,
            lo2,
            hi2,
            a2,
        )
    }

    /// The background shifters as one value.
    pub open spec fn background(self) -> (u16, u16, u8, u8) {
        (self.bg_pattern_lo, self.bg_pattern_hi, self.bg_attribute_cur, self.bg_attribute_next)
    }
    /// The state invariant: positions in range, addresses 15 bits wide.
    pub open spec fn wf(&self) -> bool {
        &&& self.scanline <= PRE_RENDER_LINE
        &&& self.cycle <= LAST_DOT
        &&& self.vram_address_cur < 0x8000
        &&& self.vram_address_tmp < 0x8000
    }

    /// The state after one tick, but for the background shift registers,
    /// which hold what the bus returned.
    pub open spec fn after_tick(self) -> Self {
        let s = self.scanline;
        let d = self.cycle;
        let t = self.vram_address_tmp;
        let v = self.vram_address_cur;
        let (ns, nd) = next_position(s, d);
        let moved = PPU2C02 { scanline: ns, cycle: nd, ..self };
        if s == PRE_RENDER_LINE {
            if d == 1 {
                PPU2C02 {
                    y_scroll: (self.y_scroll & 7) | ((((t >> 5u16) & 0x1F) << 3u16) as u8),
                    vram_address_cur: with_coarse_y(v, t >> 5u16),
                    reg_status: self.reg_status & 0x7F,
                    ..moved
                }
            } else {
                moved
            }
        } else if is_visible_line(s) {
            let (v2, x2, y2) = render_scroll_effect(d, t, v, self.x_scroll, self.y_scroll);
            PPU2C02 { vram_address_cur: v2, x_scroll: x2, y_scroll: y2, ..moved }
        } else if s == VBLANK_LINE && d == 1 {
            PPU2C02 {
                reg_status: self.reg_status | VERTICAL_BLANK,
                nmi_pin_status: self.nmi_pin_status || self.reg_control.spec_nmi_enabled(),
                ..moved
            }
        } else {
            moved
        }
    }

    /// What a tick does to the background shifters and which bus reads it
    /// makes. A pixel reads its palette entry and shifts both pattern
    /// registers right by one; on a fetch dot a tile is then fetched and
    /// loaded into the low bytes; the pre-load fetches two tiles, the first
    /// into the low bytes and the second into the high bytes; any other dot
    /// reads nothing and leaves the shifters alone.
    pub open spec fn background_after_tick(self, next: Self) -> bool {
        let s = self.scanline;
        let d = self.cycle;
        let bg = self.background();
        if is_fetch_dot(s, d) {
            exists|c: u8, t: u8, lo: u8, hi: u8, a: u8|
                next.background() == load_low(shifted(bg), lo, hi, a) && next.bus_log@
                    == #[trigger] self.fetch_dot_log(c, t, lo, hi, a)
        } else if is_pixel_dot(s, d) {
            next.background() == shifted(bg) && exists|c: u8|
                next.bus_log@ == self.bus_log@.push(#[trigger] self.pixel_read(c))
        } else if is_visible_line(s) && d == 321 {
            exists|t1: u8, lo1: u8, hi1: u8, a1: u8, t2: u8, lo2: u8, hi2: u8, a2: u8|
                next.background() == load_high(load_low(bg, lo1, hi1, a1), lo2, hi2, a2)
                    && next.bus_log@ == #[trigger] self.preload_log(
                    t1,
                    lo1,
                    hi1,
                    a1,
                    t2,
                    lo2,
                    hi2,
                    a2,
                )
        } else {
            next.background() == bg && next.bus_log == self.bus_log
        }
    }

    /// What a processor read of `reg` returns.
    pub open spec fn read_result(self, reg: Register) -> u8
        recommends
            reg != Register::PPUData,
    {
        match reg {
            Register::Status => self.reg_status,
            Register::OmaData => self.reg_oma_data,
            _ => 0,
        }
    }

    /// The state after a processor read of `reg` (the bus is left as it is).
    pub open spec fn after_read(self, reg: Register) -> Self {
        match reg {
            Register::Status => PPU2C02 {
                reg_status: self.reg_status & 0x7F,
                w_toggle: false,
                ..self
            },
            Register::PPUData => PPU2C02 {
                vram_address_cur: data_access_address(
                    self.vram_address_cur,
                    self.scanline,
                    self.reg_control.spec_vram_increment(),
                ),
                ..self
            },
            _ => self,
        }
    }

    /// The state after a processor write of `data` to `reg`, but for the
    /// bus, which a data-register write hands the byte to.
    pub open spec fn after_write(self, reg: Register, data: u8) -> Self {
        let t = self.vram_address_tmp;
        let w = self.w_toggle;
        match reg {
            Register::Control => PPU2C02 {
                reg_control: ControlReg { bits: data },
                vram_address_tmp: with_nametable(t, data as u16),
                ..self
            },
            Register::Mask => PPU2C02 { reg_mask: data, ..self },
            Register::OmaAddress => PPU2C02 { reg_oma_addr: data, ..self },
            Register::OmaData => PPU2C02 { reg_oma_data: data, ..self },
            Register::DmaOma => PPU2C02 { reg_oma_dma: data, ..self },
            Register::Scroll => if w {
                PPU2C02 {
                    x_scroll: data,
                    vram_address_tmp: with_coarse_x(t, (data >> 3u8) as u16),
                    w_toggle: false,
                    ..self
                }
            } else {
                PPU2C02 {
                    y_scroll: data,
                    vram_address_tmp: with_coarse_y(t, (data >> 3u8) as u16),
                    w_toggle: true,
                    ..self
                }
            },
            Register::PPUAddress => if w {
                let t2 = (t & 0x7F00) | (data as u16);
                PPU2C02 {
                    vram_address_tmp: t2,
                    vram_address_cur: t2,
                    w_toggle: false,
                    ..self
                }
            } else {
                PPU2C02 {
                    vram_address_tmp: (t & 0x00FF) | (((data & 0x7F) as u16) << 8u16),
                    w_toggle: true,
                    ..self
                }
            },
            Register::PPUData => PPU2C02 {
                vram_address_cur: data_access_address(
                    self.vram_address_cur,
                    self.scanline,
                    self.reg_control.spec_vram_increment(),
                ),
                ..self
            },
            Register::Status => self,
        }
    }
    /// Power-on state: counters on the pre-render line, everything else clear.
    pub fn new(bus: T) -> (r: Self)
        ensures
            r.wf(),
            r.scanline == PRE_RENDER_LINE,
            r.cycle == 0,
            r.reg_control.bits == 0,
            r.reg_status == 0,
            r.vram_address_cur == 0,
            r.vram_address_tmp == 0,
            r.x_scroll == 0,
            r.y_scroll == 0,
            !r.w_toggle,
            !r.nmi_pin_status,
            r.reg_mask == 0,
            r.reg_oma_addr == 0,
            r.reg_oma_data == 0,
            r.reg_oma_dma == 0,
            r.background() == (0u16, 0u16, 0u8, 0u8),
            r.bus == bus,
            r.bus_log@ == Seq::<BusAccess>::empty(),
    {
        PPU2C02 {
            reg_control: ControlReg { bits: 0 },
            reg_mask: 0,
            reg_status: 0,
            reg_oma_addr: 0,
            reg_oma_data: 0,
            reg_oma_dma: 0,
            scanline: PRE_RENDER_LINE,
            cycle: 0,
            vram_address_cur: 0,
            vram_address_tmp: 0,
            x_scroll: 0,
            y_scroll: 0,
            w_toggle: false,
            bg_pattern_lo: 0,
            bg_pattern_hi: 0,
            bg_attribute_cur: 0,
            bg_attribute_next: 0,
            nmi_pin_status: false,
            bus,
            bus_log: Ghost(Seq::empty()),
        }
    }

    fn read_bus(&mut self, address: u16) -> (r: u8)
        ensures
            final(self).bus_log@ == old(self).bus_log@.push(read_of(address as int, r)),
            *final(self) == (PPU2C02 { bus_log: final(self).bus_log, ..*old(self) }),
    {
        let r = self.bus.read(address, Device::PPU);
        self.bus_log = Ghost(self.bus_log@.push(BusAccess { write: false, address, data: r }));
        r
    }

    fn write_bus(&mut self, address: u16, data: u8)
        ensures
            final(self).bus_log@ == old(self).bus_log@.push(
                BusAccess { write: true, address, data },
            ),
            *final(self) == (PPU2C02 { bus: final(self).bus, bus_log: final(self).bus_log, ..*old(self) }),
    {
        self.bus.write(address, data, Device::PPU);
        self.bus_log = Ghost(self.bus_log@.push(BusAccess { write: true, address, data }));
    }

    /// The current VRAM address after a data-register access.
    fn advance_after_data_access(&mut self)
        requires
            old(self).wf(),
        ensures
            *final(self) == (PPU2C02 {
                vram_address_cur: data_access_address(
                    old(self).vram_address_cur,
                    old(self).scanline,
                    old(self).reg_control.spec_vram_increment(),
                ),
                ..*old(self)
            }),
            final(self).wf(),
    {
        if self.scanline > POST_RENDER_LINE {
            let step = self.reg_control.vram_increment();
            let v = self.vram_address_cur;
            let sum = v + step;
            let nv = sum & 0x7FFF;
            assert(nv < 0x8000) by (bit_vector)
                requires
                    nv == sum & 0x7FFF,
            ;
            self.vram_address_cur = nv;
        }
    }

    /// A processor read of one register, with its side effects.
    pub fn read_register(&mut self, register: Register) -> (r: u8)
        requires
            old(self).wf(),
        ensures
            final(self).wf(),
            *final(self) == (PPU2C02 { bus_log: final(self).bus_log, ..old(self).after_read(register) }),
            register != Register::PPUData ==> r == old(self).read_result(register),
            final(self).bus_log@ == (if register == Register::PPUData {
                old(self).bus_log@.push(read_of(old(self).vram_address_cur as int, r))
            } else {
                old(self).bus_log@
            }),
    {
        match register {
            Register::Status => {
                let result = self.reg_status;
                self.w_toggle = false;
                self.reg_status = result & 0x7F;
                result
            },
            Register::OmaData => self.reg_oma_data,
            Register::PPUData => {
                let v = self.vram_address_cur;
                let result = self.read_bus(v);
                self.advance_after_data_access();
                result
            },
            _ => 0,
        }
    }

    /// A processor write of one register, with its side effects.
    pub fn write_register(&mut self, register: Register, data: u8)
        requires
            old(self).wf(),
        ensures
            final(self).wf(),
            *final(self) == (PPU2C02 {
                bus: final(self).bus,
                bus_log: final(self).bus_log,
                ..old(self).after_write(register, data)
            }),
            final(self).bus_log@ == (if register == Register::PPUData {
                old(self).bus_log@.push(
                    BusAccess { write: true, address: old(self).vram_address_cur, data },
                )
            } else {
                old(self).bus_log@
            }),
            register != Register::PPUData ==> final(self).bus == old(self).bus,
    {
        let t = self.vram_address_tmp;
        match register {
            Register::Control => {
                self.reg_control = ControlReg { bits: data };
                let nt = data as u16;
                let nt2 = (t & 0x73FF) | ((nt & 3) << 10u16);
                assert(nt2 < 0x8000) by (bit_vector)
                    requires
                        nt2 == (t & 0x73FF) | ((nt & 3) << 10u16),
                        t < 0x8000,
                ;
                self.vram_address_tmp = nt2;
            },
            Register::Mask => self.reg_mask = data,
            Register::OmaAddress => self.reg_oma_addr = data,
            Register::OmaData => self.reg_oma_data = data,
            Register::DmaOma => self.reg_oma_dma = data,
            Register::Scroll => {
                let coarse = (data >> 3u8) as u16;
                if self.w_toggle {
                    self.x_scroll = data;
                    let t2 = (t & 0x7FE0) | (coarse & 0x1F);
                    assert(t2 < 0x8000) by (bit_vector)
                        requires
                            t2 == (t & 0x7FE0) | (coarse & 0x1F),
                            t < 0x8000,
                    ;
                    self.vram_address_tmp = t2;
                } else {
                    self.y_scroll = data;
                    let t2 = (t & 0x7C1F) | ((coarse & 0x1F) << 5u16);
                    assert(t2 < 0x8000) by (bit_vector)
                        requires
                            t2 == (t & 0x7C1F) | ((coarse & 0x1F) << 5u16),
                            t < 0x8000,
                    ;
                    self.vram_address_tmp = t2;
                }
                self.w_toggle = !self.w_toggle;
            },
            Register::PPUAddress => {
                if self.w_toggle {
                    let t2 = (t & 0x7F00) | (data as u16);
                    let d = data as u16;
                    assert(((t & 0x7F00) | d) < 0x8000) by (bit_vector)
                        requires
                            d < 256,
                            t < 0x8000,
                    ;
                    self.vram_address_tmp = t2;
                    self.vram_address_cur = t2;
                } else {
                    let t2 = (t & 0x00FF) | (((data & 0x7F) as u16) << 8u16);
                    let hi = (data & 0x7F) as u16;
                    assert(hi < 128) by (bit_vector)
                        requires
                            hi == (data & 0x7F) as u16,
                    ;
                    assert(((t & 0x00FF) | (hi << 8u16)) < 0x8000) by (bit_vector)
                        requires
                            hi < 128,
                    ;
                    self.vram_address_tmp = t2;
                }
                self.w_toggle = !self.w_toggle;
            },
            Register::PPUData => {
                let v = self.vram_address_cur;
                self.write_bus(v, data);
                self.advance_after_data_access();
            },
            Register::Status => {},
        }
    }
    /// Moves the coarse-X position one tile on.
    fn increment_coarse_x(&mut self)
        requires
            old(self).wf(),
        ensures
            final(self).wf(),
            (final(self).vram_address_cur, final(self).x_scroll) == step_coarse_x(
                old(self).vram_address_cur,
                old(self).x_scroll,
            ),
            *final(self) == (PPU2C02 {
                vram_address_cur: final(self).vram_address_cur,
                x_scroll: final(self).x_scroll,
                ..*old(self)
            }),
    {
        let v = self.vram_address_cur;
        let v1 = v + 1;
        let nv = (v & 0x7FE0) | (v1 & 0x1F);
        assert(nv < 0x8000) by (bit_vector)
            requires
                nv == (v & 0x7FE0) | (v1 & 0x1F),
                v < 0x8000,
        ;
        self.vram_address_cur = nv;
        let x = self.x_scroll;
        self.x_scroll = if x >= 248 {
            x - 248
        } else {
            x + 8
        };
    }

    /// Loads a fetched tile into the low bytes of the shifters.
    fn load_tile(&mut self, low_plane: u8, high_plane: u8, attribute: u8)
        ensures
            final(self).bg_pattern_lo == (old(self).bg_pattern_lo & 0xFF00) | (low_plane as u16),
            final(self).bg_pattern_hi == (old(self).bg_pattern_hi & 0xFF00) | (high_plane as u16),
            final(self).bg_attribute_cur == old(self).bg_attribute_next,
            final(self).bg_attribute_next == attribute,
            final(self).background() == load_low(old(self).background(), low_plane, high_plane, attribute),
            *final(self) == (PPU2C02 {
                bg_pattern_lo: final(self).bg_pattern_lo,
                bg_pattern_hi: final(self).bg_pattern_hi,
                bg_attribute_cur: final(self).bg_attribute_cur,
                bg_attribute_next: final(self).bg_attribute_next,
                ..*old(self)
            }),
    {
        self.bg_pattern_lo = (self.bg_pattern_lo & 0xFF00) | (low_plane as u16);
        self.bg_pattern_hi = (self.bg_pattern_hi & 0xFF00) | (high_plane as u16);
        self.bg_attribute_cur = self.bg_attribute_next;
        self.bg_attribute_next = attribute;
    }

    /// Loads the second pre-loaded tile into the high bytes of the shifters.
    fn load_next_tile(&mut self, low_plane: u8, high_plane: u8, attribute: u8)
        ensures
            final(self).bg_pattern_lo == (old(self).bg_pattern_lo & 0x00FF) | ((low_plane as u16) << 8u16),
            final(self).bg_pattern_hi == (old(self).bg_pattern_hi & 0x00FF) | ((high_plane as u16) << 8u16),
            final(self).bg_attribute_cur == old(self).bg_attribute_next,
            final(self).bg_attribute_next == attribute,
            final(self).background() == load_high(old(self).background(), low_plane, high_plane, attribute),
            *final(self) == (PPU2C02 {
                bg_pattern_lo: final(self).bg_pattern_lo,
                bg_pattern_hi: final(self).bg_pattern_hi,
                bg_attribute_cur: final(self).bg_attribute_cur,
                bg_attribute_next: final(self).bg_attribute_next,
                ..*old(self)
            }),
    {
        self.bg_pattern_lo = (self.bg_pattern_lo & 0x00FF) | ((low_plane as u16) << 8u16);
        self.bg_pattern_hi = (self.bg_pattern_hi & 0x00FF) | ((high_plane as u16) << 8u16);
        self.bg_attribute_cur = self.bg_attribute_next;
        self.bg_attribute_next = attribute;
    }

    /// Fetches the tile under the current address: its nametable byte, the
    /// two pattern planes and the attribute byte. Returns the planes and the
    /// attribute, which are loaded into the high bytes of the shifters when
    /// `second` is set, else into the low bytes.
    fn fetch_tile(&mut self, second: bool) -> (r: (u8, u8, u8, u8))
        requires
            old(self).wf(),
        ensures
            final(self).background() == (if second {
                load_high(old(self).background(), r.1, r.2, r.3)
            } else {
                load_low(old(self).background(), r.1, r.2, r.3)
            }),
            final(self).bus_log@ == old(self).bus_log@ + old(self).fetch_reads(r.0, r.1, r.2, r.3),
            *final(self) == (PPU2C02 {
                bus_log: final(self).bus_log,
                bg_pattern_lo: final(self).bg_pattern_lo,
                bg_pattern_hi: final(self).bg_pattern_hi,
                bg_attribute_cur: final(self).bg_attribute_cur,
                bg_attribute_next: final(self).bg_attribute_next,
                ..*old(self)
            }),
    {
        let ghost log0 = self.bus_log@;
        let v = self.vram_address_cur;
        let tile = self.read_bus(v);
        let table = self.reg_control.background_pattern_address();
        let low_plane = self.read_bus(pattern_address(table, tile, false, self.y_scroll));
        let high_plane = self.read_bus(pattern_address(table, tile, true, self.y_scroll));
        let attribute = self.read_bus(attribute_address(v));
        assert(self.bus_log@ =~= log0 + tile_reads(v, table, self.y_scroll, tile, low_plane, high_plane, attribute));
        if second {
            self.load_next_tile(low_plane, high_plane, attribute);
        } else {
            self.load_tile(low_plane, high_plane, attribute);
        }
        (tile, low_plane, high_plane, attribute)
    }

    /// Composes the color of the next pixel and shifts the pattern registers.
    fn next_pixel_color(&mut self) -> (r: u8)
        ensures
            r < 64,
            final(self).background() == shifted(old(self).background()),
            final(self).bus_log@ == old(self).bus_log@.push(old(self).pixel_read(final(self).bus_log@.last().data)),
            r == final(self).bus_log@.last().data % 64,
            *final(self) == (PPU2C02 {
                bus_log: final(self).bus_log,
                bg_pattern_lo: old(self).bg_pattern_lo >> 1u16,
                bg_pattern_hi: old(self).bg_pattern_hi >> 1u16,
                ..*old(self)
            }),
    {
        let address = palette_address(
            self.bg_pattern_lo,
            self.bg_pattern_hi,
            self.bg_attribute_cur,
            self.x_scroll,
            self.y_scroll,
        );
        let color = self.read_bus(address);
        self.bg_pattern_lo = self.bg_pattern_lo >> 1u16;
        self.bg_pattern_hi = self.bg_pattern_hi >> 1u16;
        pixel_color(color)
    }

    /// The render sub-cycle of a visible line.
    fn run_render_cycle(&mut self) -> (r: Option<Pixel>)
        requires
            old(self).wf(),
            is_visible_line(old(self).scanline),
        ensures
            final(self).wf(),
            ({
                let (v2, x2, y2) = render_scroll_effect(
                    old(self).cycle,
                    old(self).vram_address_tmp,
                    old(self).vram_address_cur,
                    old(self).x_scroll,
                    old(self).y_scroll,
                );
                *final(self) == (PPU2C02 {
                    bus_log: final(self).bus_log,
                    vram_address_cur: v2,
                    x_scroll: x2,
                    y_scroll: y2,
                    bg_pattern_lo: final(self).bg_pattern_lo,
                    bg_pattern_hi: final(self).bg_pattern_hi,
                    bg_attribute_cur: final(self).bg_attribute_cur,
                    bg_attribute_next: final(self).bg_attribute_next,
                    ..*old(self)
                })
            }),
            old(self).background_after_tick(*final(self)),
            r.is_some() == is_pixel_dot(old(self).scanline, old(self).cycle),
            r matches Some(p) ==> p.x == old(self).cycle - 1 && p.y == old(self).scanline
                && p.color < 64 && old(self).bus_log@.len() < final(self).bus_log@.len()
                && final(self).bus_log@[old(self).bus_log@.len() as int] == old(self).pixel_read(final(self).bus_log@[old(self).bus_log@.len() as int].data)
                && p.color == final(self).bus_log@[old(self).bus_log@.len() as int].data % 64,
    {
        let dot = self.cycle;
        let ghost bg = self.background();
        let ghost s0 = *self;
        if dot == 0 {
            None
        } else if dot <= 256 {
            let color = self.next_pixel_color();
            let ghost c = self.bus_log@.last().data;
            assert(self.bus_log@[s0.bus_log@.len() as int] == s0.pixel_read(c));
            let pixel = Pixel { x: (dot - 1) as u32, y: self.scanline as u32, color };
            if dot % 8 == 0 {
                let f = self.fetch_tile(false);
                assert(self.background() == load_low(shifted(bg), f.1, f.2, f.3));
                assert(self.bus_log@ == s0.fetch_dot_log(c, f.0, f.1, f.2, f.3));
                assert(self.bus_log@[s0.bus_log@.len() as int] == s0.pixel_read(c));
                if dot != 256 {
                    self.increment_coarse_x();
                } else {
                    let y = self.y_scroll;
                    let y2: u8 = if y == 255 {
                        0
                    } else {
                        y + 1
                    };
                    self.y_scroll = y2;
                    let v = self.vram_address_cur;
                    let cy = (y2 >> 3u8) as u16;
                    let nv = (v & 0x7C1F) | ((cy & 0x1F) << 5u16);
                    assert(nv < 0x8000) by (bit_vector)
                        requires
                            nv == (v & 0x7C1F) | ((cy & 0x1F) << 5u16),
                            v < 0x8000,
                    ;
                    self.vram_address_cur = nv;
                }
            }
            Some(pixel)
        } else if dot <= 320 {
            if dot == 257 {
                let fine_x = self.x_scroll & 7;
                let t = self.vram_address_tmp;
                assert((t & 0x1F) << 3u16 < 256) by (bit_vector);
                let coarse = ((t & 0x1F) << 3u16) as u8;
                self.x_scroll = coarse | fine_x;
            }
            None
        } else if dot <= LAST_DOT {
            if dot == 321 {
                let f1 = self.fetch_tile(false);
                self.increment_coarse_x();
                let f2 = self.fetch_tile(true);
                self.increment_coarse_x();
                assert(self.background() == load_high(load_low(bg, f1.1, f1.2, f1.3), f2.1, f2.2, f2.3));
                assert(self.bus_log@ == s0.preload_log(f1.0, f1.1, f1.2, f1.3, f2.0, f2.1, f2.2, f2.3));
            }
            None
        } else {
            vstd::pervasive::unreached()
        }
    }

    /// One pixel clock: does this dot's work and moves to the next dot.
    /// Returns the pixel emitted on this dot, if any.
    pub fn run_cycle(&mut self) -> (r: Option<Pixel>)
        requires
            old(self).wf(),
        ensures
            final(self).wf(),
            *final(self) == (PPU2C02 {
                bus_log: final(self).bus_log,
                bg_pattern_lo: final(self).bg_pattern_lo,
                bg_pattern_hi: final(self).bg_pattern_hi,
                bg_attribute_cur: final(self).bg_attribute_cur,
                bg_attribute_next: final(self).bg_attribute_next,
                ..old(self).after_tick()
            }),
            old(self).background_after_tick(*final(self)),
            r.is_some() == is_pixel_dot(old(self).scanline, old(self).cycle),
            r matches Some(p) ==> p.x == old(self).cycle - 1 && p.y == old(self).scanline
                && p.color < 64 && old(self).bus_log@.len() < final(self).bus_log@.len()
                && final(self).bus_log@[old(self).bus_log@.len() as int] == old(self).pixel_read(final(self).bus_log@[old(self).bus_log@.len() as int].data)
                && p.color == final(self).bus_log@[old(self).bus_log@.len() as int].data % 64,
    {
        let s = self.scanline;
        let mut pixel: Option<Pixel> = None;
        if s == PRE_RENDER_LINE {
            if self.cycle == 1 {
                let t = self.vram_address_tmp;
                let v = self.vram_address_cur;
                let coarse_y = ((t >> 5u16) & 0x1F) << 3u16;
                self.y_scroll = (self.y_scroll & 7) | (coarse_y as u8);
                let nv = (v & 0x7C1F) | (((t >> 5u16) & 0x1F) << 5u16);
                assert(nv < 0x8000) by (bit_vector)
                    requires
                        nv == (v & 0x7C1F) | (((t >> 5u16) & 0x1F) << 5u16),
                        v < 0x8000,
                ;
                self.vram_address_cur = nv;
                self.reg_status = self.reg_status & 0x7F;
            }
        } else if s <= 239 {
            pixel = self.run_render_cycle();
        } else if s == POST_RENDER_LINE {
        } else if s <= 260 {
            if s == VBLANK_LINE && self.cycle == 1 {
                self.reg_status = self.reg_status | VERTICAL_BLANK;
                if self.reg_control.nmi_enabled() {
                    self.nmi_pin_status = true;
                }
            }
        } else {
            vstd::pervasive::unreached::<()>();
        }
        if self.cycle < LAST_DOT {
            self.cycle = self.cycle + 1;
        } else {
            self.cycle = 0;
            if self.scanline < PRE_RENDER_LINE {
                self.scanline = self.scanline + 1;
            } else {
                self.scanline = 0;
            }
        }
        pixel
    }

    /// Whether the interrupt line toward the processor is raised.
    pub fn is_nmi_pin_set(&self) -> (r: bool)
        ensures
            r == self.nmi_pin_status,
    {
        self.nmi_pin_status
    }

    /// Acknowledges the interrupt: lowers the line.
    pub fn clear_nmi_pin(&mut self)
        ensures
            *final(self) == (PPU2C02 { nmi_pin_status: false, ..*old(self) }),
    {
        self.nmi_pin_status = false;
    }
}


/// Reading the status register clears exactly the vertical-blank bit and
/// keeps sprite overflow and sprite-0 hit; a second read at once sees
/// vertical blank clear.
pub proof fn lemma_status_read_clears_vblank<T: Bus>(p: PPU2C02<T>)
    ensures
        p.read_result(Register::Status) == p.reg_status,
        p.after_read(Register::Status).reg_status & 0x80 == 0,
        p.after_read(Register::Status).reg_status & 0x7F == p.reg_status & 0x7F,
        p.after_read(Register::Status).read_result(Register::Status) & 0x80 == 0,
{
    let s = p.reg_status;
    assert((s & 0x7F) & 0x80 == 0 && (s & 0x7F) & 0x7F == s & 0x7F) by (bit_vector);
}

/// `p` after the processor writes `ws`, in order.
pub open spec fn apply_writes<T: Bus>(p: PPU2C02<T>, ws: Seq<(Register, u8)>) -> PPU2C02<T>
    decreases ws.len(),
{
    if ws.len() == 0 {
        p
    } else {
        apply_writes(p.after_write(ws[0].0, ws[0].1), ws.drop_first())
    }
}

/// Each scroll or address write flips the write latch: after an odd number
/// of them it has flipped, after an even number it is as before.
pub proof fn lemma_write_latch_parity<T: Bus>(p: PPU2C02<T>, ws: Seq<(Register, u8)>)
    requires
        forall|i: int|
            0 <= i < ws.len() ==> (#[trigger] ws[i]).0 == Register::Scroll || ws[i].0
                == Register::PPUAddress,
    ensures
        apply_writes(p, ws).w_toggle == (p.w_toggle != (ws.len() % 2 == 1)),
    decreases ws.len(),
{
    if ws.len() > 0 {
        let rest = ws.drop_first();
        assert forall|i: int| 0 <= i < rest.len() implies (#[trigger] rest[i]).0 == Register::Scroll
            || rest[i].0 == Register::PPUAddress by {
            assert(rest[i] == ws[i + 1]);
        }
        lemma_write_latch_parity(p.after_write(ws[0].0, ws[0].1), rest);
    }
}

/// A status read resets the write latch whatever its state, so the next two
/// scroll writes land in Y, then X.
pub proof fn lemma_status_read_resets_latch<T: Bus>(p: PPU2C02<T>, first: u8, second: u8)
    ensures
        !p.after_read(Register::Status).w_toggle,
        p.after_read(Register::Status).after_write(Register::Scroll, first).y_scroll == first,
        p.after_read(Register::Status).after_write(Register::Scroll, first).after_write(
            Register::Scroll,
            second,
        ).x_scroll == second,
        p.after_read(Register::Status).after_write(Register::Scroll, first).after_write(
            Register::Scroll,
            second,
        ).y_scroll == first,
{
}

/// The interrupt line rises on a tick only at (241, 1) with interrupts
/// enabled in the control register, and no tick or register access lowers it.
pub proof fn lemma_interrupt_line<T: Bus>(p: PPU2C02<T>, reg: Register, data: u8)
    ensures
        p.after_tick().nmi_pin_status == (p.nmi_pin_status || (p.scanline == VBLANK_LINE
            && p.cycle == 1 && p.reg_control.spec_nmi_enabled())),
        p.after_read(reg).nmi_pin_status == p.nmi_pin_status,
        p.after_write(reg, data).nmi_pin_status == p.nmi_pin_status,
{
}

/// A data-register access steps the current address by 1, or by 32 when
/// control bit 2 is set, modulo 15 bits, and only after line 240.
pub proof fn lemma_data_access_step<T: Bus>(p: PPU2C02<T>, data: u8)
    requires
        p.wf(),
    ensures
        p.after_read(Register::PPUData).vram_address_cur == p.after_write(
            Register::PPUData,
            data,
        ).vram_address_cur,
        p.after_read(Register::PPUData).vram_address_cur == (if p.scanline > POST_RENDER_LINE {
            (p.vram_address_cur + (if (p.reg_control.bits >> 2u8) & 1 == 1 {
                32int
            } else {
                1int
            })) % 0x8000
        } else {
            p.vram_address_cur as int
        }),
{
    let v = p.vram_address_cur;
    let step = p.reg_control.spec_vram_increment();
    assert(((v + step) as u16) & 0x7FFF == (v + step) % 0x8000) by (bit_vector)
        requires
            v < 0x8000,
            step <= 32,
    ;
}

/// Position in the frame counted from the start of the pre-render line.
pub open spec fn frame_index(scanline: u16, dot: u16) -> int {
    ((scanline + 1) % 262) * 341 + dot
}

/// Dots in one frame.
pub open spec fn frame_dots() -> int {
    341int * 262int
}

/// The position reached from `(scanline, dot)` after `n` ticks.
pub open spec fn position_after(scanline: u16, dot: u16, n: nat) -> (u16, u16)
    decreases n,
{
    if n == 0 {
        (scanline, dot)
    } else {
        let (s, d) = next_position(scanline, dot);
        position_after(s, d, (n - 1) as nat)
    }
}

proof fn lemma_next_index(scanline: u16, dot: u16)
    requires
        scanline <= PRE_RENDER_LINE,
        dot <= LAST_DOT,
    ensures
        next_position(scanline, dot).0 <= PRE_RENDER_LINE,
        next_position(scanline, dot).1 <= LAST_DOT,
        frame_index(next_position(scanline, dot).0, next_position(scanline, dot).1) == (
        frame_index(scanline, dot) + 1) % frame_dots(),
{
    let a = (scanline + 1) % 262;
    assert(0 <= a * 341 <= 261 * 341) by (nonlinear_arith)
        requires
            0 <= a < 262,
    ;
    let i = frame_index(scanline, dot);
    if dot < LAST_DOT {
        assert(i + 1 < frame_dots());
        assert((i + 1) % frame_dots() == i + 1);
    } else if scanline < 260 {
        assert(a == scanline + 1);
        assert((scanline + 2) % 262 == a + 1);
        assert((a + 1) * 341 == a * 341 + 341) by (nonlinear_arith);
        assert(i + 1 < frame_dots());
        assert((i + 1) % frame_dots() == i + 1);
    } else if scanline == 260 {
        assert(a == 261);
        assert(i + 1 == frame_dots());
        assert((i + 1) % frame_dots() == 0);
    } else {
        assert(a == 0);
        assert(i == 340);
        assert((i + 1) % frame_dots() == 341);
    }
}

proof fn lemma_index_after(scanline: u16, dot: u16, n: nat)
    requires
        scanline <= PRE_RENDER_LINE,
        dot <= LAST_DOT,
    ensures
        position_after(scanline, dot, n).0 <= PRE_RENDER_LINE,
        position_after(scanline, dot, n).1 <= LAST_DOT,
        frame_index(position_after(scanline, dot, n).0, position_after(scanline, dot, n).1) == (
        frame_index(scanline, dot) + n) % frame_dots(),
    decreases n,
{
    lemma_next_index(scanline, dot);
    let a = (scanline + 1) % 262;
    assert(a * 341 <= 261 * 341) by (nonlinear_arith)
        requires
            0 <= a < 262,
    ;
    if n > 0 {
        let (s, d) = next_position(scanline, dot);
        lemma_index_after(s, d, (n - 1) as nat);
        let i = frame_index(scanline, dot);
        assert(((i + 1) % frame_dots() + (n - 1)) % frame_dots() == (i + n) % frame_dots()) by {
            vstd::arithmetic::div_mod::lemma_add_mod_noop(i + 1, n - 1, frame_dots());
            vstd::arithmetic::div_mod::lemma_mod_twice(n - 1, frame_dots());
        }
    }
}

proof fn lemma_index_injective(s1: u16, d1: u16, s2: u16, d2: u16)
    requires
        s1 <= PRE_RENDER_LINE,
        d1 <= LAST_DOT,
        s2 <= PRE_RENDER_LINE,
        d2 <= LAST_DOT,
        frame_index(s1, d1) == frame_index(s2, d2),
    ensures
        s1 == s2,
        d1 == d2,
{
    let a = (s1 + 1) % 262;
    let b = (s2 + 1) % 262;
    assert(a == b && d1 == d2) by (nonlinear_arith)
        requires
            a * 341 + d1 == b * 341 + d2,
            0 <= d1 < 341,
            0 <= d2 < 341,
    ;
}

/// After 341 × 262 ticks the scheduler is back where it started, whatever
/// valid position that was: in particular, from power-on at (261, 0).
pub proof fn lemma_frame_closure(scanline: u16, dot: u16)
    requires
        scanline <= PRE_RENDER_LINE,
        dot <= LAST_DOT,
    ensures
        position_after(scanline, dot, 89342) == (scanline, dot),
{
    lemma_frame_period(scanline, dot, 89342);
}

/// The scheduler's period is exactly one frame: from any valid position,
/// `n` ticks lead back to it if and only if `n` is a multiple of 341 × 262.
pub proof fn lemma_frame_period(scanline: u16, dot: u16, n: nat)
    requires
        scanline <= PRE_RENDER_LINE,
        dot <= LAST_DOT,
    ensures
        (position_after(scanline, dot, n) == (scanline, dot)) == (n % 89342 == 0),
{
    lemma_index_after(scanline, dot, n);
    let a = (scanline + 1) % 262;
    assert(a * 341 <= 261 * 341) by (nonlinear_arith)
        requires
            0 <= a < 262,
    ;
    let i = frame_index(scanline, dot);
    let m = frame_dots();
    assert(0 <= i < m);
    vstd::arithmetic::div_mod::lemma_add_mod_noop(i, n as int, m);
    vstd::arithmetic::div_mod::lemma_small_mod(i as nat, m as nat);
    let k = (n as int) % m;
    assert(0 <= k < m);
    let (s, d) = position_after(scanline, dot, n);
    if k == 0 {
        vstd::arithmetic::div_mod::lemma_small_mod(i as nat, m as nat);
        assert((i + n) % m == i);
        lemma_index_injective(s, d, scanline, dot);
    } else {
        if i + k < m {
            vstd::arithmetic::div_mod::lemma_small_mod((i + k) as nat, m as nat);
        } else {
            vstd::arithmetic::div_mod::lemma_mod_add_multiples_vanish(i + k - m, m);
            vstd::arithmetic::div_mod::lemma_small_mod((i + k - m) as nat, m as nat);
        }
        assert((i + n) % m != i);
    }
}

} // verus!
