use fearless_nes::cartridge::{Cartridge, Mirroring};
use fearless_nes::error::NesError;
use fearless_nes::mapper::{BaseMapper, MapperChip};

const EMPTY_DB: &str = "<database></database>";

/// A ROM whose every byte of PRG ROM holds its 8 KB bank number, and whose CHR ROM bytes
/// hold their 1 KB bank number.
fn banked_rom(mapper: u8, prg_16k: u8, chr_8k: u8, flags6: u8) -> Vec<u8> {
    let mut r = vec![
        0x4E,
        0x45,
        0x53,
        0x1A,
        prg_16k,
        chr_8k,
        flags6 | (mapper << 4),
        mapper & 0xF0,
        0,
        0,
        0,
        0,
        0,
        0,
        0,
        0,
    ];
    for i in 0..(prg_16k as usize * 0x4000) {
        r.push((i / 0x2000) as u8);
    }
    for i in 0..(chr_8k as usize * 0x2000) {
        r.push((i / 0x400) as u8);
    }
    r
}

fn mapper(rom: &[u8]) -> BaseMapper {
    BaseMapper::new(Cartridge::from_rom(rom, EMPTY_DB).unwrap()).unwrap()
}

#[test]
fn unsupported_mapper() {
    let c = Cartridge::from_rom(&banked_rom(5, 1, 1, 0), EMPTY_DB).unwrap();
    assert_eq!(BaseMapper::new(c).err(), Some(NesError::UnSupportedMapper(5)));
}

#[test]
fn nrom_mirrors_16k() {
    let m = mapper(&banked_rom(0, 1, 1, 1));
    assert!(matches!(m.chip, MapperChip::_0Nrom(_)));
    assert_eq!(m.cpu_read(0x8000, 0xEE), 0);
    assert_eq!(m.cpu_read(0xC000 + 0x2001, 0xEE), 1);
    assert_eq!(m.cpu_read(0x6000, 0xEE), 0);
    assert_eq!(m.cpu_read(0x5000, 0xEE), 0xEE);
    assert!(m.mirroring() == Mirroring::Vertical);
    assert_eq!(m.read_chr(0x0C00), 3);
}

#[test]
fn nrom_ignores_chr_rom_writes() {
    let mut m = mapper(&banked_rom(0, 1, 1, 0));
    m.write_chr(0x0400, 0x99);
    assert_eq!(m.read_chr(0x0400), 1);
    let mut ram = mapper(&banked_rom(0, 1, 0, 0));
    ram.write_chr(0x0400, 0x99);
    assert_eq!(ram.read_chr(0x0400), 0x99);
}

#[test]
fn nametable_ram() {
    let mut m = mapper(&banked_rom(0, 1, 1, 0));
    assert_eq!(m.read_nametable(0x0FFF), 0);
    m.write_nametable(0x0FFF, 0x42);
    assert_eq!(m.read_nametable(0x0FFF), 0x42);
}

#[test]
fn uxrom_switches_low_bank() {
    let mut m = mapper(&banked_rom(2, 4, 0, 0));
    let mut irq = false;
    assert_eq!(m.cpu_read(0xC000, 0), 6);
    m.cpu_write(0x8000, 2, 1, &mut irq);
    assert_eq!(m.cpu_read(0x8000, 0), 4);
    assert_eq!(m.cpu_read(0xC000, 0), 6);
}

#[test]
fn cnrom_switches_chr() {
    let mut m = mapper(&banked_rom(3, 1, 4, 0));
    let mut irq = false;
    m.cpu_write(0x8000, 2, 1, &mut irq);
    assert_eq!(m.read_chr(0x0000), 16);
}

#[test]
fn axrom_selects_32k_and_nametable() {
    let mut m = mapper(&banked_rom(7, 8, 0, 0));
    let mut irq = false;
    assert!(m.mirroring() == Mirroring::SingleScreenLow);
    m.cpu_write(0x8000, 0x13, 1, &mut irq);
    assert_eq!(m.cpu_read(0x8000, 0), 12);
    assert!(m.mirroring() == Mirroring::SingleScreenHigh);
}

/// Loads an MMC1 register through its serial port, one bit per write on separate cycles.
fn mmc1_load(m: &mut BaseMapper, addr: usize, val: u8, cycle: &mut u64) {
    let mut irq = false;
    for i in 0..5 {
        *cycle += 2;
        m.cpu_write(addr, (val >> i) & 1, *cycle, &mut irq);
    }
}

#[test]
fn mmc1_serial_port() {
    let mut m = mapper(&banked_rom(1, 8, 2, 0));
    let mut cycle = 10;
    // power-up: the last bank is fixed at $C000
    assert_eq!(m.cpu_read(0xC000, 0), 14);
    mmc1_load(&mut m, 0xE000, 3, &mut cycle);
    assert_eq!(m.cpu_read(0x8000, 0), 6);
    // control: vertical mirroring, PRG mode 2 (first bank fixed at $8000)
    mmc1_load(&mut m, 0x8000, 0b01010, &mut cycle);
    assert!(m.mirroring() == Mirroring::Vertical);
    mmc1_load(&mut m, 0xE000, 5, &mut cycle);
    assert_eq!(m.cpu_read(0x8000, 0), 0);
    assert_eq!(m.cpu_read(0xC000, 0), 10);
}

#[test]
fn mmc1_ignores_consecutive_writes_and_resets() {
    let mut m = mapper(&banked_rom(1, 8, 2, 0));
    let mut irq = false;
    m.cpu_write(0xE000, 1, 100, &mut irq);
    // a write on the next cycle (as a read-modify-write makes) is ignored
    m.cpu_write(0xE000, 1, 101, &mut irq);
    for c in [103u64, 105, 107, 109] {
        m.cpu_write(0xE000, 0, c, &mut irq);
    }
    assert_eq!(m.cpu_read(0x8000, 0), 2);
    // bit 7 clears the shift register
    m.cpu_write(0xE000, 1, 120, &mut irq);
    m.cpu_write(0xE000, 0x80, 122, &mut irq);
    for c in [124u64, 126, 128, 130, 132] {
        m.cpu_write(0xE000, 0, c, &mut irq);
    }
    assert_eq!(m.cpu_read(0x8000, 0), 0);
}

#[test]
fn mmc3_banks_and_irq() {
    let mut m = mapper(&banked_rom(4, 4, 2, 0));
    let mut irq = false;
    // the last two 8 KB banks are fixed at $C000 and $E000 in PRG mode 0
    assert_eq!(m.cpu_read(0xE000, 0), 7);
    assert_eq!(m.cpu_read(0xC000, 0), 6);
    // R6 = bank 3 at $8000
    m.cpu_write(0x8000, 6, 0, &mut irq);
    m.cpu_write(0x8001, 3, 0, &mut irq);
    assert_eq!(m.cpu_read(0x8000, 0), 3);
    // PRG mode 1 swaps $8000 and $C000
    m.cpu_write(0x8000, 0x46, 0, &mut irq);
    assert_eq!(m.cpu_read(0x8000, 0), 6);
    assert_eq!(m.cpu_read(0xC000, 0), 3);
    // R0 = 2 KB CHR bank 4 at $0000
    m.cpu_write(0x8000, 0, 0, &mut irq);
    m.cpu_write(0x8001, 4, 0, &mut irq);
    assert_eq!(m.read_chr(0x0000), 4);
    assert_eq!(m.read_chr(0x0400), 5);
    // mirroring register
    m.cpu_write(0xA000, 1, 0, &mut irq);
    assert!(m.mirroring() == Mirroring::Horizontal);
    // IRQ latch 1, reload, enable
    m.cpu_write(0xC000, 1, 0, &mut irq);
    m.cpu_write(0xC001, 0, 0, &mut irq);
    m.cpu_write(0xE001, 0, 0, &mut irq);
    let mut cycle = 100;
    // the first rising edge only arms the filter; the next two clock the counter
    for _ in 0..3 {
        m.notify_a12(0x0000, cycle, &mut irq);
        cycle += 20;
        m.notify_a12(0x1000, cycle, &mut irq);
        cycle += 20;
    }
    assert!(irq);
    // acknowledging
    m.cpu_write(0xE000, 0, 0, &mut irq);
    assert!(!irq);
}

#[test]
fn fme7_irq_counter() {
    let mut m = mapper(&banked_rom(69, 4, 1, 0));
    let mut irq = false;
    // counter low = 2, high = 0, then enable counting and IRQs
    m.cpu_write(0x8000, 0xE, 0, &mut irq);
    m.cpu_write(0xA000, 2, 0, &mut irq);
    m.cpu_write(0x8000, 0xF, 0, &mut irq);
    m.cpu_write(0xA000, 0, 0, &mut irq);
    m.cpu_write(0x8000, 0xD, 0, &mut irq);
    m.cpu_write(0xA000, 0x81, 0, &mut irq);
    for _ in 0..3 {
        assert!(!irq);
        m.cpu_clock(&mut irq);
    }
    assert!(irq);
    // the last 8 KB bank is fixed at $E000
    assert_eq!(m.cpu_read(0xE000, 0), 7);
}

#[test]
fn prg_ram_reads_back_what_was_written() {
    let mut irq = false;
    let mut m = mapper(&banked_rom(4, 2, 1, 0));
    m.cpu_write(0x6123, 0x5A, 0, &mut irq);
    assert_eq!(m.cpu_read(0x6123, 0xEE), 0x5A);
    assert_eq!(m.cpu_read(0x6124, 0xEE), 0);
    let mut n = mapper(&banked_rom(0, 1, 1, 0));
    n.cpu_write(0x7FFF, 0x17, 0, &mut irq);
    assert_eq!(n.cpu_read(0x7FFF, 0xEE), 0x17);
}

#[test]
fn chr_ram_reads_back_what_was_written() {
    let mut m = mapper(&banked_rom(2, 2, 0, 0));
    m.write_chr(0x1FFF, 0x33);
    assert_eq!(m.read_chr(0x1FFF), 0x33);
    assert_eq!(m.read_chr(0x1FFE), 0);
}

#[test]
fn mmc1_prg_ram_follows_prg_register_bit_4() {
    let mut m = mapper(&banked_rom(1, 8, 2, 0));
    let mut irq = false;
    let mut cycle = 10;
    // disabled after power-up: open bus
    assert_eq!(m.cpu_read(0x6000, 0xEE), 0xEE);
    mmc1_load(&mut m, 0xE000, 0x00, &mut cycle);
    m.cpu_write(0x6010, 0x42, 1000, &mut irq);
    assert_eq!(m.cpu_read(0x6010, 0xEE), 0x42);
    // bit 4 set disables the RAM again
    mmc1_load(&mut m, 0xE000, 0x10, &mut cycle);
    assert_eq!(m.cpu_read(0x6010, 0xEE), 0xEE);
    // a load of another register leaves it as it is
    mmc1_load(&mut m, 0xA000, 0x01, &mut cycle);
    assert_eq!(m.cpu_read(0x6010, 0xEE), 0xEE);
}

#[test]
fn mmc1_8k_chr_bank_ignores_low_bit() {
    let mut m = mapper(&banked_rom(1, 8, 2, 0));
    let mut cycle = 10;
    mmc1_load(&mut m, 0xA000, 3, &mut cycle);
    // bank 3 with its low bit ignored: 8 KB from CHR offset 0x2000 (1 KB banks 8 to 15)
    assert_eq!(m.read_chr(0x0000), 8);
    assert_eq!(m.read_chr(0x0FFF), 11);
    assert_eq!(m.read_chr(0x1000), 12);
    assert_eq!(m.read_chr(0x1FFF), 15);
}

#[test]
fn mmc3_r6_r7_wrap_and_mirroring_register() {
    let mut m = mapper(&banked_rom(4, 4, 2, 1));
    let mut irq = false;
    assert!(m.mirroring() == Mirroring::Vertical);
    // R7 = bank 2 at $A000
    m.cpu_write(0x8000, 7, 0, &mut irq);
    m.cpu_write(0x8001, 2, 0, &mut irq);
    assert_eq!(m.cpu_read(0xA000, 0), 2);
    // R6 = bank 9, wrapped around the 8 banks
    m.cpu_write(0x8000, 6, 0, &mut irq);
    m.cpu_write(0x8001, 9, 0, &mut irq);
    assert_eq!(m.cpu_read(0x8000, 0), 1);
    assert_eq!(m.cpu_read(0xA000, 0), 2);
    // the odd address of the pair and other registers leave the mirroring alone
    m.cpu_write(0xA001, 1, 0, &mut irq);
    m.cpu_write(0xC000, 1, 0, &mut irq);
    assert!(m.mirroring() == Mirroring::Vertical);
    m.cpu_write(0xBFFE, 1, 0, &mut irq);
    assert!(m.mirroring() == Mirroring::Horizontal);
    m.cpu_write(0xA000, 0, 0, &mut irq);
    assert!(m.mirroring() == Mirroring::Vertical);
}

#[test]
fn fme7_command_8_and_c() {
    let mut m = mapper(&banked_rom(69, 4, 1, 0));
    let mut irq = false;
    assert!(m.mirroring() == Mirroring::Vertical);
    // command 8: ROM bank 9 (wrapped around 8 banks) at $6000
    m.cpu_write(0x8000, 8, 0, &mut irq);
    m.cpu_write(0xA000, 9, 0, &mut irq);
    assert_eq!(m.cpu_read(0x6000, 0xEE), 1);
    // RAM selected but not enabled: open bus
    m.cpu_write(0xA000, 0x40, 0, &mut irq);
    assert_eq!(m.cpu_read(0x6000, 0xEE), 0xEE);
    // RAM selected and enabled
    m.cpu_write(0xA000, 0xC0, 0, &mut irq);
    m.cpu_write(0x6001, 0x77, 0, &mut irq);
    assert_eq!(m.cpu_read(0x6001, 0xEE), 0x77);
    // command C: mirroring
    m.cpu_write(0x8000, 0xC, 0, &mut irq);
    m.cpu_write(0xA000, 1, 0, &mut irq);
    assert!(m.mirroring() == Mirroring::Horizontal);
    m.cpu_write(0xA000, 3, 0, &mut irq);
    assert!(m.mirroring() == Mirroring::SingleScreenHigh);
    m.cpu_write(0xA000, 2, 0, &mut irq);
    assert!(m.mirroring() == Mirroring::SingleScreenLow);
}
