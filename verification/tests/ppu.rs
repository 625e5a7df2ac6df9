use fearless_nes::cartridge::Cartridge;
use fearless_nes::mapper::BaseMapper;
use fearless_nes::ppu::{mapper_answers, palette_rgb, Ppu};

const EMPTY_DB: &str = "<database></database>";

/// An NROM cartridge with 16 KB of PRG ROM and 8 KB of CHR ROM whose bytes hold their
/// 1 KB bank number.
fn nrom() -> BaseMapper {
    let mut r = vec![0x4E, 0x45, 0x53, 0x1A, 1, 1, 0, 0, 0, 0, 0, 0, 0, 0, 0, 0];
    r.extend(std::iter::repeat(0u8).take(0x4000));
    for i in 0..0x2000 {
        r.push((i / 0x400) as u8);
    }
    BaseMapper::new(Cartridge::from_rom(&r, EMPTY_DB).unwrap()).unwrap()
}

fn write(ppu: &mut Ppu, m: &mut BaseMapper, addr: usize, val: u8) {
    ppu.write_reg(m, addr, val);
}

fn read(ppu: &mut Ppu, m: &BaseMapper, addr: usize) -> u8 {
    let mut nmi = false;
    ppu.read_reg(m, addr, &mut nmi)
}

#[test]
fn power_on_state() {
    let ppu = Ppu::new();
    assert_eq!(ppu.pos.xpos, 0);
    assert_eq!(ppu.pos.scanline, 0);
    assert_eq!(ppu.regs.sp_size, 8);
    assert_eq!(ppu.regs.nt_base_addr, 0x2000);
    assert_eq!(ppu.palettes[0], 0x09);
    assert_eq!(ppu.palettes[31], 0x08);
    assert!(ppu.regs.ignore_writes);
    let frame = ppu.frame_rgb();
    assert_eq!(frame.len(), 256 * 240);
    assert_eq!(frame[0], (0x7C, 0x7C, 0x7C));
    assert_eq!(palette_rgb(0x21), (0x3C, 0xBC, 0xFC));
    assert!(mapper_answers(&nrom()));
}

#[test]
fn control_writes_wait_for_enable() {
    let mut m = nrom();
    let mut ppu = Ppu::new();
    write(&mut ppu, &mut m, 0x2000, 0xBE);
    assert!(!ppu.regs.nmi_on_vblank);
    ppu.enable_writes();
    write(&mut ppu, &mut m, 0x2000, 0xBE);
    assert!(ppu.regs.nmi_on_vblank);
    assert_eq!(ppu.regs.nt_base_addr, 0x2800);
    assert_eq!(ppu.regs.addr_increment, 32);
    assert_eq!(ppu.regs.sp_pattern_table_addr, 0x1000);
    assert_eq!(ppu.regs.bg_pattern_table_addr, 0x1000);
    assert_eq!(ppu.regs.sp_size, 16);
    assert_eq!(ppu.scroll.temp_vram_addr, 0x800);
    // the latch keeps the last value written
    assert_eq!(read(&mut ppu, &m, 0x2000), 0xBE);
}

#[test]
fn scroll_and_address_writes() {
    let mut m = nrom();
    let mut ppu = Ppu::new();
    ppu.enable_writes();
    write(&mut ppu, &mut m, 0x2005, 0x7D);
    assert_eq!(ppu.scroll.x_fine_scroll, 5);
    assert_eq!(ppu.scroll.temp_vram_addr, 0x0F);
    write(&mut ppu, &mut m, 0x2005, 0x5E);
    assert_eq!(ppu.scroll.temp_vram_addr, 0x6000 | (11 << 5) | 0x0F);
    assert!(!ppu.scroll.write_toggle);
    write(&mut ppu, &mut m, 0x2006, 0x3F);
    write(&mut ppu, &mut m, 0x2006, 0x10);
    assert_eq!(ppu.scroll.vram_addr, 0x3F10);
}

#[test]
fn palette_writes_mirror_the_backdrop() {
    let mut m = nrom();
    let mut ppu = Ppu::new();
    ppu.enable_writes();
    write(&mut ppu, &mut m, 0x2006, 0x3F);
    write(&mut ppu, &mut m, 0x2006, 0x10);
    write(&mut ppu, &mut m, 0x2007, 0xEA);
    assert_eq!(ppu.palettes[0x10], 0x2A);
    assert_eq!(ppu.palettes[0x00], 0x2A);
    assert_eq!(ppu.scroll.vram_addr, 0x3F11);
    write(&mut ppu, &mut m, 0x2007, 0x05);
    assert_eq!(ppu.palettes[0x11], 0x05);
    assert_eq!(ppu.palettes[0x01], 0x01);
}

#[test]
fn ppudata_reads_are_buffered() {
    let mut m = nrom();
    let mut ppu = Ppu::new();
    ppu.enable_writes();
    write(&mut ppu, &mut m, 0x2006, 0x20);
    write(&mut ppu, &mut m, 0x2006, 0x00);
    write(&mut ppu, &mut m, 0x2007, 0x55);
    assert_eq!(m.read_nametable(0), 0x55);
    write(&mut ppu, &mut m, 0x2006, 0x20);
    write(&mut ppu, &mut m, 0x2006, 0x00);
    assert_eq!(read(&mut ppu, &m, 0x2007), 0);
    assert_eq!(read(&mut ppu, &m, 0x2007), 0x55);
    // pattern tables come from the cartridge: $0C00 lies in 1 KB bank 3
    write(&mut ppu, &mut m, 0x2006, 0x0C);
    write(&mut ppu, &mut m, 0x2006, 0x00);
    read(&mut ppu, &m, 0x2007);
    assert_eq!(read(&mut ppu, &m, 0x2007), 3);
}

#[test]
fn oam_writes_mask_attribute_bytes() {
    let mut m = nrom();
    let mut ppu = Ppu::new();
    write(&mut ppu, &mut m, 0x2003, 2);
    write(&mut ppu, &mut m, 0x2004, 0xFF);
    assert_eq!(ppu.oam[2], 0xE3);
    assert_eq!(ppu.io.oamaddr, 3);
    write(&mut ppu, &mut m, 0x2003, 2);
    assert_eq!(read(&mut ppu, &m, 0x2004), 0xE3);
}

#[test]
fn dots_lines_and_the_vertical_blank() {
    let m = nrom();
    let mut m2 = nrom();
    let mut ppu = Ppu::new();
    ppu.enable_writes();
    write(&mut ppu, &mut m2, 0x2000, 0x80);
    let mut nmi = false;
    for _ in 0..341 {
        ppu.tick(&m, &mut nmi);
    }
    assert_eq!(ppu.pos.scanline, 1);
    assert_eq!(ppu.pos.xpos, 0);
    // run up to and through dot 1 of line 241
    while !(ppu.pos.scanline == 241 && ppu.pos.xpos == 2) {
        ppu.tick(&m, &mut nmi);
    }
    assert!(nmi);
    assert_eq!(ppu.io.ppustatus & 0x80, 0x80);
    let mut nmi2 = nmi;
    let status = ppu.read_reg(&m, 0x2002, &mut nmi2);
    assert_eq!(status & 0x80, 0x80);
    assert_eq!(ppu.io.ppustatus & 0x80, 0);
    // the vertical blank ends with line 260; the pre-render line clears the flag
    while ppu.pos.scanline != 261 || ppu.pos.xpos != 2 {
        ppu.tick(&m, &mut nmi);
    }
    assert!(!nmi);
    assert!(!ppu.pos.frame_ready);
    while ppu.pos.scanline != 0 || ppu.pos.xpos != 0 {
        ppu.tick(&m, &mut nmi);
    }
    assert!(ppu.pos.frame_ready);
}
