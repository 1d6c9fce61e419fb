use ppu2c02::bus::{Bus, Device};
use ppu2c02::ppu::{attribute_address, palette_address, pattern_address, Pixel, Register, PPU2C02};
use ppu2c02::registers::ControlReg;
use std::cell::RefCell;

struct Memory {
    bytes: Vec<u8>,
    reads: RefCell<Vec<u16>>,
    writes: Vec<(u16, u8)>,
}

impl Memory {
    fn new() -> Memory {
        Memory { bytes: vec![0; 0x8000], reads: RefCell::new(Vec::new()), writes: Vec::new() }
    }
}

impl Bus for Memory {
    fn read(&self, address: u16, device: Device) -> u8 {
        assert_eq!(device, Device::PPU);
        self.reads.borrow_mut().push(address);
        self.bytes[(address & 0x7FFF) as usize]
    }

    fn write(&mut self, address: u16, data: u8, device: Device) {
        assert_eq!(device, Device::PPU);
        self.writes.push((address, data));
        self.bytes[(address & 0x7FFF) as usize] = data;
    }
}

fn fresh() -> PPU2C02<Memory> {
    PPU2C02::new(Memory::new())
}

fn tick_to(p: &mut PPU2C02<Memory>, scanline: u16, dot: u16) {
    while !(p.scanline == scanline && p.cycle == dot) {
        p.run_cycle();
    }
}

#[test]
fn control_base_nametable_address() {
    assert_eq!(ControlReg::from_bits(0).base_nametable_address(), 0x2000);
    assert_eq!(ControlReg::from_bits(1).base_nametable_address(), 0x2400);
    assert_eq!(ControlReg::from_bits(2).base_nametable_address(), 0x2800);
    assert_eq!(ControlReg::from_bits(0xFF).base_nametable_address(), 0x2C00);
}

#[test]
fn control_vram_increment() {
    assert_eq!(ControlReg::from_bits(0).vram_increment(), 1);
    assert_eq!(ControlReg::from_bits(0b100).vram_increment(), 32);
    assert_eq!(ControlReg::from_bits(0xFB).vram_increment(), 1);
}

#[test]
fn control_pattern_addresses() {
    let sprite = ControlReg::from_bits(0b0000_1000);
    assert_eq!(sprite.sprite_pattern_address(), 0x1000);
    assert_eq!(sprite.background_pattern_address(), 0);
    let background = ControlReg::from_bits(0b0001_0000);
    assert_eq!(background.sprite_pattern_address(), 0);
    assert_eq!(background.background_pattern_address(), 0x1000);
}

#[test]
fn control_nmi_enabled() {
    assert!(ControlReg::from_bits(0x80).nmi_enabled());
    assert!(!ControlReg::from_bits(0x7F).nmi_enabled());
}

#[test]
fn power_on_state() {
    let p = fresh();
    assert_eq!((p.scanline, p.cycle), (261, 0));
    assert!(!p.is_nmi_pin_set());
    assert!(!p.w_toggle);
}

#[test]
fn status_read_clears_only_vblank() {
    let mut p = fresh();
    p.reg_status = 0xE0;
    assert_eq!(p.read_register(Register::Status), 0xE0);
    assert_eq!(p.reg_status, 0x60);
    assert_eq!(p.read_register(Register::Status) & 0x80, 0);
    assert_eq!(p.read_register(Register::Status), 0x60);
}

#[test]
fn odd_number_of_latch_writes_leaves_latch_set() {
    let mut p = fresh();
    p.write_register(Register::Scroll, 1);
    assert!(p.w_toggle);
    p.write_register(Register::PPUAddress, 2);
    assert!(!p.w_toggle);
    p.write_register(Register::PPUAddress, 3);
    assert!(p.w_toggle);
}

#[test]
fn status_read_restarts_scroll_order() {
    let mut p = fresh();
    p.write_register(Register::Scroll, 0x11);
    assert_eq!(p.y_scroll, 0x11);
    p.read_register(Register::Status);
    assert!(!p.w_toggle);
    p.write_register(Register::Scroll, 0x22);
    assert_eq!(p.y_scroll, 0x22);
    p.write_register(Register::Scroll, 0x33);
    assert_eq!(p.x_scroll, 0x33);
    assert_eq!(p.y_scroll, 0x22);
}

#[test]
fn scroll_writes_fill_coarse_fields() {
    let mut p = fresh();
    p.write_register(Register::Scroll, 0b1010_1111);
    assert_eq!(p.vram_address_tmp, 0b10101 << 5);
    p.write_register(Register::Scroll, 0b0110_0101);
    assert_eq!(p.vram_address_tmp, (0b10101 << 5) | 0b01100);
}

#[test]
fn control_write_sets_nametable_bits_only() {
    let mut p = fresh();
    p.write_register(Register::PPUAddress, 0x21);
    p.write_register(Register::PPUAddress, 0x23);
    assert_eq!(p.vram_address_tmp, 0x2123);
    p.write_register(Register::Control, 0b11);
    assert_eq!(p.vram_address_tmp, 0x2D23);
    p.write_register(Register::Control, 0);
    assert_eq!(p.vram_address_tmp, 0x2123);
}

#[test]
fn address_writes_copy_to_current() {
    let mut p = fresh();
    p.write_register(Register::PPUAddress, 0xFF);
    assert_eq!(p.vram_address_tmp, 0x7F00);
    assert_eq!(p.vram_address_cur, 0);
    p.write_register(Register::PPUAddress, 0x45);
    assert_eq!(p.vram_address_tmp, 0x7F45);
    assert_eq!(p.vram_address_cur, 0x7F45);
}

#[test]
fn data_access_steps_by_one_outside_rendering() {
    let mut p = fresh();
    p.write_register(Register::PPUAddress, 0x20);
    p.write_register(Register::PPUAddress, 0x00);
    p.bus.bytes[0x2000] = 0x5A;
    assert_eq!(p.read_register(Register::PPUData), 0x5A);
    assert_eq!(p.vram_address_cur, 0x2001);
    p.write_register(Register::PPUData, 0x77);
    assert_eq!(p.bus.writes, vec![(0x2001, 0x77)]);
    assert_eq!(p.vram_address_cur, 0x2002);
}

#[test]
fn data_access_steps_by_thirty_two() {
    let mut p = fresh();
    p.write_register(Register::Control, 0b100);
    p.write_register(Register::PPUAddress, 0x20);
    p.write_register(Register::PPUAddress, 0x00);
    p.read_register(Register::PPUData);
    assert_eq!(p.vram_address_cur, 0x2020);
    p.write_register(Register::PPUData, 1);
    assert_eq!(p.vram_address_cur, 0x2040);
}

#[test]
fn data_access_during_rendering_keeps_address() {
    let mut p = fresh();
    p.write_register(Register::PPUAddress, 0x20);
    p.write_register(Register::PPUAddress, 0x10);
    tick_to(&mut p, 240, 5);
    let v = p.vram_address_cur;
    p.read_register(Register::PPUData);
    assert_eq!(p.vram_address_cur, v);
    p.write_register(Register::PPUData, 9);
    assert_eq!(p.vram_address_cur, v);
}

#[test]
fn data_address_wraps_at_fifteen_bits() {
    let mut p = fresh();
    p.write_register(Register::PPUAddress, 0x7F);
    p.write_register(Register::PPUAddress, 0xFF);
    p.read_register(Register::PPUData);
    assert_eq!(p.vram_address_cur, 0);
}

#[test]
fn unreadable_registers_read_zero() {
    let mut p = fresh();
    p.write_register(Register::Control, 0xFF);
    p.write_register(Register::Mask, 0xFF);
    assert_eq!(p.read_register(Register::Control), 0);
    assert_eq!(p.read_register(Register::Mask), 0);
    assert_eq!(p.read_register(Register::Scroll), 0);
    p.write_register(Register::OmaData, 0x42);
    assert_eq!(p.read_register(Register::OmaData), 0x42);
}

#[test]
fn interrupt_raised_at_vblank_start_when_enabled() {
    let mut p = fresh();
    p.write_register(Register::Control, 0x80);
    tick_to(&mut p, 241, 1);
    assert!(!p.is_nmi_pin_set());
    assert_eq!(p.reg_status & 0x80, 0);
    p.run_cycle();
    assert!(p.is_nmi_pin_set());
    assert_eq!(p.reg_status & 0x80, 0x80);
    for _ in 0..1000 {
        p.run_cycle();
    }
    assert!(p.is_nmi_pin_set());
    p.clear_nmi_pin();
    assert!(!p.is_nmi_pin_set());
}

#[test]
fn interrupt_not_raised_when_disabled() {
    let mut p = fresh();
    for _ in 0..2 * 89342 {
        p.run_cycle();
        assert!(!p.is_nmi_pin_set());
    }
}

#[test]
fn interrupt_raised_once_per_frame() {
    let mut p = fresh();
    p.write_register(Register::Control, 0x80);
    let mut raised = Vec::new();
    for _ in 0..89342 {
        let at = (p.scanline, p.cycle);
        p.run_cycle();
        if p.is_nmi_pin_set() {
            raised.push(at);
            p.clear_nmi_pin();
        }
    }
    assert_eq!(raised, vec![(241, 1)]);
}

#[test]
fn pre_render_clears_vblank() {
    let mut p = fresh();
    p.reg_status = 0xC0;
    p.run_cycle();
    p.run_cycle();
    assert_eq!(p.reg_status, 0x40);
}

#[test]
fn full_frame_returns_to_start() {
    let mut p = fresh();
    for _ in 0..341 * 262 {
        p.run_cycle();
    }
    assert_eq!((p.scanline, p.cycle), (261, 0));
    p.run_cycle();
    assert_eq!((p.scanline, p.cycle), (261, 1));
}

#[test]
fn position_wraps_line_and_frame() {
    let mut p = fresh();
    tick_to(&mut p, 261, 340);
    p.run_cycle();
    assert_eq!((p.scanline, p.cycle), (0, 0));
    tick_to(&mut p, 0, 340);
    p.run_cycle();
    assert_eq!((p.scanline, p.cycle), (1, 0));
}

#[test]
fn pixels_emitted_in_raster_order() {
    let mut p = fresh();
    let mut pixels: Vec<Pixel> = Vec::new();
    for _ in 0..89342 {
        if let Some(px) = p.run_cycle() {
            pixels.push(px);
        }
    }
    assert_eq!(pixels.len(), 256 * 240);
    assert_eq!((pixels[0].x, pixels[0].y), (0, 0));
    assert_eq!((pixels[255].x, pixels[255].y), (255, 0));
    assert_eq!((pixels[256].x, pixels[256].y), (0, 1));
    assert_eq!((pixels[61439].x, pixels[61439].y), (255, 239));
}

#[test]
fn pixel_color_comes_from_palette() {
    let mut mem = Memory::new();
    mem.bytes[0x3F00] = 0x2A;
    let mut p = PPU2C02::new(mem);
    tick_to(&mut p, 0, 1);
    let px = p.run_cycle().unwrap();
    assert_eq!(px, Pixel { x: 0, y: 0, color: 0x2A });
}

#[test]
fn pixel_color_is_six_bits() {
    let mut mem = Memory::new();
    mem.bytes[0x3F00] = 0xFF;
    let mut p = PPU2C02::new(mem);
    tick_to(&mut p, 0, 1);
    assert_eq!(p.run_cycle().unwrap().color, 0x3F);
}

#[test]
fn pixel_combines_pattern_bits_and_palette() {
    let mut p = fresh();
    tick_to(&mut p, 0, 1);
    p.bg_pattern_lo = 0b1;
    p.bg_pattern_hi = 0b1;
    p.bg_attribute_cur = 0b10;
    p.bus.bytes[0x3F0B] = 0x15;
    assert_eq!(p.run_cycle().unwrap().color, 0x15);
    assert_eq!(p.bg_pattern_lo, 0);
    assert_eq!(p.bg_pattern_hi, 0);
}

#[test]
fn tile_fetch_reads_nametable_pattern_and_attribute() {
    let mut p = fresh();
    p.write_register(Register::Control, 0b0001_0000);
    p.write_register(Register::PPUAddress, 0x20);
    p.write_register(Register::PPUAddress, 0x00);
    p.bus.bytes[0x2000] = 0x12;
    p.bus.bytes[0x1123] = 0xAB;
    p.bus.bytes[0x112B] = 0xCD;
    p.bus.bytes[0x23C0] = 0x99;
    tick_to(&mut p, 0, 8);
    p.y_scroll = 3;
    p.bg_pattern_lo = 0xFF00;
    p.bg_pattern_hi = 0xEE00;
    p.bg_attribute_next = 0x44;
    p.bus.reads.borrow_mut().clear();
    p.run_cycle();
    let reads = p.bus.reads.borrow().clone();
    assert_eq!(&reads[1..], &[0x2000, 0x1123, 0x112B, 0x23C0]);
    assert_eq!(p.bg_pattern_lo, 0x7F00 | 0xAB);
    assert_eq!(p.bg_pattern_hi, 0x7700 | 0xCD);
    assert_eq!(p.bg_attribute_cur, 0x44);
    assert_eq!(p.bg_attribute_next, 0x99);
    assert_eq!(p.vram_address_cur, 0x2001);
}

#[test]
fn coarse_x_wraps_within_field() {
    let mut p = fresh();
    p.write_register(Register::PPUAddress, 0x20);
    p.write_register(Register::PPUAddress, 0x1F);
    tick_to(&mut p, 0, 8);
    p.x_scroll = 250;
    p.run_cycle();
    assert_eq!(p.vram_address_cur, 0x2000);
    assert_eq!(p.x_scroll, 2);
}

#[test]
fn end_of_line_steps_y_and_restores_x() {
    let mut p = fresh();
    p.write_register(Register::Scroll, 0b0101_0000);
    p.write_register(Register::Scroll, 0);
    tick_to(&mut p, 0, 256);
    p.y_scroll = 7;
    p.x_scroll = 0b1111_1101;
    p.run_cycle();
    assert_eq!(p.y_scroll, 8);
    assert_eq!((p.vram_address_cur >> 5) & 0x1F, 1);
    p.write_register(Register::Scroll, 0);
    p.write_register(Register::Scroll, 0b0001_0000);
    p.x_scroll = 0b1111_1101;
    p.run_cycle();
    assert_eq!(p.x_scroll, 0b0001_0101);
}

#[test]
fn pre_render_reloads_vertical_scroll() {
    let mut p = fresh();
    p.write_register(Register::Scroll, 0b1011_0110);
    p.write_register(Register::Scroll, 0);
    p.y_scroll = 0b0000_0101;
    p.run_cycle();
    p.run_cycle();
    assert_eq!(p.y_scroll, 0b1011_0101);
    assert_eq!((p.vram_address_cur >> 5) & 0x1F, 0b10110);
}

#[test]
fn pattern_address_layout() {
    assert_eq!(pattern_address(0, 0, false, 0), 0);
    assert_eq!(pattern_address(0x1000, 0x12, false, 3), 0x1123);
    assert_eq!(pattern_address(0x1000, 0x12, true, 3), 0x112B);
    assert_eq!(pattern_address(0, 0xFF, true, 0xFF), 0x0FFF);
}

#[test]
fn attribute_address_layout() {
    assert_eq!(attribute_address(0), 0x23C0);
    assert_eq!(attribute_address(0x001F), 0x23C7);
    assert_eq!(attribute_address(0x03E0), 0x23F8);
    assert_eq!(attribute_address(0x0C00 | 0x0084), 0x2FC9);
    assert_eq!(attribute_address(0x7FFF), 0x2FFF);
}

#[test]
fn palette_address_layout() {
    assert_eq!(palette_address(0, 0, 0, 0, 0), 0x3F00);
    assert_eq!(palette_address(1, 0, 0, 0, 0), 0x3F01);
    assert_eq!(palette_address(0, 1, 0, 0, 0), 0x3F02);
    assert_eq!(palette_address(0b100, 0b100, 0, 2, 0), 0x3F03);
    assert_eq!(palette_address(0, 0, 0b11_10_01_00, 0, 0), 0x3F00);
    assert_eq!(palette_address(0, 0, 0b11_10_01_00, 2, 0), 0x3F04);
    assert_eq!(palette_address(0, 0, 0b11_10_01_00, 0, 2), 0x3F08);
    assert_eq!(palette_address(0, 0, 0b11_10_01_00, 2, 2), 0x3F0C);
}

#[test]
fn address_register_writes_flip_latch() {
    let mut p = fresh();
    for n in 1..=5 {
        p.write_register(Register::PPUAddress, 0x3F);
        assert_eq!(p.w_toggle, n % 2 == 1);
    }
    p.read_register(Register::Status);
    assert!(!p.w_toggle);
    p.write_register(Register::PPUAddress, 0x21);
    p.write_register(Register::PPUAddress, 0x08);
    assert_eq!(p.vram_address_cur, 0x2108);
}

#[test]
fn preload_keeps_both_tiles() {
    let mut p = fresh();
    p.write_register(Register::PPUAddress, 0x20);
    p.write_register(Register::PPUAddress, 0x00);
    p.bus.bytes[0x2000] = 1;
    p.bus.bytes[0x2001] = 2;
    p.bus.bytes[0x0010] = 0xAA;
    p.bus.bytes[0x0018] = 0xBB;
    p.bus.bytes[0x0020] = 0xCC;
    p.bus.bytes[0x0028] = 0xDD;
    p.bus.bytes[0x23C0] = 0x55;
    tick_to(&mut p, 0, 321);
    p.y_scroll = 0;
    p.vram_address_cur = 0x2000;
    p.bus.reads.borrow_mut().clear();
    p.run_cycle();
    let reads = p.bus.reads.borrow().clone();
    assert_eq!(reads, vec![0x2000, 0x0010, 0x0018, 0x23C0, 0x2001, 0x0020, 0x0028, 0x23C0]);
    assert_eq!(p.bg_pattern_lo, 0xCCAA);
    assert_eq!(p.bg_pattern_hi, 0xDDBB);
    assert_eq!(p.bg_attribute_cur, 0x55);
    assert_eq!(p.bg_attribute_next, 0x55);
    assert_eq!(p.vram_address_cur, 0x2002);
}

#[test]
fn power_on_background_is_clear() {
    let p = fresh();
    assert_eq!((p.bg_pattern_lo, p.bg_pattern_hi), (0, 0));
    assert_eq!((p.bg_attribute_cur, p.bg_attribute_next), (0, 0));
    assert_eq!((p.reg_mask, p.reg_oma_addr, p.reg_oma_data, p.reg_oma_dma), (0, 0, 0, 0));
}

#[test]
fn pixel_color_masks_to_six_bits() {
    assert_eq!(ppu2c02::ppu::pixel_color(0xFF), 0x3F);
    assert_eq!(ppu2c02::ppu::pixel_color(0x41), 0x01);
    assert_eq!(ppu2c02::ppu::pixel_color(0x2A), 0x2A);
}
