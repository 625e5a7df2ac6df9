use fearless_nes::cartridge::gamedb::{XmlAttribute, XmlElement, XmlNode};
use fearless_nes::cartridge::{
    BankSize, Cartridge, ConsoleType, Header, HeaderSource, Mirroring, Region,
};
use fearless_nes::error::NesError;
use fearless_nes::text::{arr_to_hex, parse_u32};
use sha1::Digest;

const EMPTY_DB: &str = "<database></database>";

fn ines(prg_16k: u8, chr_8k: u8, flags6: u8, flags7: u8, prg_ram: u8, flags9: u8) -> Vec<u8> {
    vec![
        0x4E, 0x45, 0x53, 0x1A, prg_16k, chr_8k, flags6, flags7, prg_ram, flags9, 0, 0, 0, 0, 0,
        0,
    ]
}

fn rom(prg_16k: u8, chr_8k: u8, flags6: u8, flags7: u8) -> Vec<u8> {
    let mut r = ines(prg_16k, chr_8k, flags6, flags7, 0, 0);
    for i in 0..(prg_16k as usize * 0x4000) {
        r.push((i % 251) as u8);
    }
    for i in 0..(chr_8k as usize * 0x2000) {
        r.push((i % 241) as u8);
    }
    r
}

#[test]
fn ines_header_fields() {
    let h = Header::from_ines(&ines(2, 1, 0x13, 0x40, 0, 0)).unwrap();
    assert!(h.source == HeaderSource::Ines1);
    assert_eq!(h.name, "");
    assert_eq!(h.prg_rom_size, 0x8000);
    assert_eq!(h.chr_rom_size, Some(0x2000));
    assert_eq!(h.chr_ram_size, None);
    assert_eq!(h.prg_ram_size, Some(0x2000));
    assert_eq!(h.prg_nvram_size, None);
    assert_eq!(h.mapper, 0x41);
    assert_eq!(h.submapper, 0);
    assert!(h.mirroring == Mirroring::Vertical);
    assert!(h.battery);
    assert!(h.console_typ == ConsoleType::Standard);
    assert!(h.region == Region::Ntsc);
    assert_eq!(h.expansion, 1);
}

#[test]
fn ines_header_chr_ram_four_screen_pal() {
    let h = Header::from_ines(&ines(1, 0, 0x08, 0x01, 3, 1)).unwrap();
    assert_eq!(h.chr_rom_size, None);
    assert_eq!(h.chr_ram_size, Some(0x2000));
    assert_eq!(h.prg_ram_size, Some(0x6000));
    assert!(h.mirroring == Mirroring::FourScreen);
    assert!(h.console_typ == ConsoleType::VsSystem);
    assert!(h.region == Region::Pal);
}

#[test]
fn ines_header_errors() {
    let mut bad = ines(1, 1, 0, 0, 0, 0);
    bad[3] = 0;
    assert_eq!(Header::from_ines(&bad).err(), Some(NesError::InvalidInesFormat));
    assert_eq!(
        Header::from_ines(&ines(1, 1, 0x04, 0, 0, 0)).err(),
        Some(NesError::TrainerUnsupported)
    );
    assert_eq!(
        Header::from_ines(&ines(1, 1, 0, 0x08, 0, 0)).err(),
        Some(NesError::Ines2Unsupported)
    );
    assert_eq!(
        Header::from_ines(&ines(1, 1, 0, 0x03, 0, 0)).err(),
        Some(NesError::InvalidInesFormat)
    );
    assert_eq!(
        Header::from_ines(&ines(1, 1, 0, 0, 0, 2)).err(),
        Some(NesError::InvalidInesFormat)
    );
}

#[test]
fn bank_sizes_and_counts() {
    assert_eq!(BankSize::Kb1.bytes(), 0x400);
    assert_eq!(BankSize::Kb32.bytes(), 0x8000);
    assert_eq!(Cartridge::map_bank(3, BankSize::Kb16), 0xC000);
    let c = Cartridge::from_rom(&rom(2, 1, 0, 0), EMPTY_DB).unwrap();
    assert_eq!(c.prg_rom_count(BankSize::Kb8), 4);
    assert_eq!(c.prg_ram_count(BankSize::Kb8), Some(1));
    assert_eq!(c.prg_nvram_count(BankSize::Kb8), None);
    assert_eq!(c.chr_rom_count(BankSize::Kb1), Some(8));
    assert_eq!(c.chr_ram_count(BankSize::Kb1), None);
    assert!(!c.has_chr_ram());
    assert_eq!(c.map_bank_prg_wrap(5, BankSize::Kb16), 0x4000);
}

#[test]
fn from_rom_without_database_entry() {
    let r = rom(1, 1, 0x01, 0);
    let c = Cartridge::from_rom(&r, EMPTY_DB).unwrap();
    assert!(c.header.source == HeaderSource::Ines1);
    assert_eq!(c.prg_rom.len(), 0x4000);
    assert_eq!(c.read_prg_rom(0x100), r[16 + 0x100]);
    assert_eq!(c.read_chr(0x33), r[16 + 0x4000 + 0x33]);
    assert_eq!(c.prg_wram.as_ref().map(|w| w.len()), Some(0x2000));
    assert_eq!(c.read_prg_ram(0x10), Some(0));
}

#[test]
fn from_rom_chr_ram_and_writes() {
    let mut c = Cartridge::from_rom(&rom(1, 0, 0, 0), EMPTY_DB).unwrap();
    assert!(c.has_chr_ram());
    assert_eq!(c.chr.len(), 0x2000);
    c.write_chr(0x1FFF, 0xAB);
    assert_eq!(c.read_chr(0x1FFF), 0xAB);
    c.write_prg_ram(0x1FFF, 0x5A);
    assert_eq!(c.read_prg_ram(0x1FFF), Some(0x5A));
}

#[test]
fn from_rom_errors() {
    assert_eq!(
        Cartridge::from_rom(&[0x4E, 0x45, 0x53], EMPTY_DB).err(),
        Some(NesError::InvalidInesFormat)
    );
    let mut short = rom(1, 1, 0, 0);
    short.truncate(16 + 0x4000 + 10);
    assert_eq!(Cartridge::from_rom(&short, EMPTY_DB).err(), Some(NesError::RomCorrupted));
    let mut short_prg = rom(1, 0, 0, 0);
    short_prg.truncate(100);
    assert_eq!(Cartridge::from_rom(&short_prg, EMPTY_DB).err(), Some(NesError::RomCorrupted));
    assert_eq!(
        Cartridge::from_rom(&rom(1, 1, 0, 0x01), EMPTY_DB).err(),
        Some(NesError::ConsoleUnsupported(ConsoleType::VsSystem))
    );
    let mut pal = rom(1, 1, 0, 0);
    pal[9] = 1;
    assert_eq!(
        Cartridge::from_rom(&pal, EMPTY_DB).err(),
        Some(NesError::RegionUnsupported(Region::Pal))
    );
    assert_eq!(
        Cartridge::from_rom(&rom(1, 1, 0, 0), "<database><game>").err(),
        Some(NesError::GameDbFormat)
    );
}

/// The SHA-1 digest of "abc".
const ABC_SHA1: &str = "A9993E364706816ABA3E25717850C26C9CD0D89D";

fn game_entry(prg_sha1: &str, extra: &str, region: &str) -> String {
    format!(
        "<database>\
         <game>\
         <!--Licensed\\Super Test Game (USA).nes.nes-->\
         <prgrom size=\"3\" sha1=\"{}\"/>\
         {}\
         <prgram size=\"+8192\"/>\
         <pcb mapper=\"1\" submapper=\"0\" mirroring=\"V\" battery=\"1\"/>\
         <console type=\"0\" region=\"{}\"/>\
         <expansion type=\"1\"/>\
         </game>\
         </database>",
        prg_sha1, extra, region
    )
}

#[test]
fn sha1_lookup_finds_game() {
    let db = game_entry(ABC_SHA1, "<chrram size=\"8192\"/>", "0");
    let h = Header::from_prg_chr(&db, b"abc", None).unwrap().unwrap();
    assert!(h.source == HeaderSource::GameDb);
    assert_eq!(h.name, "Super Test Game (USA)");
    assert_eq!(h.prg_rom_size, 3);
    assert_eq!(h.chr_rom_size, None);
    assert_eq!(h.chr_ram_size, Some(8192));
    assert_eq!(h.prg_ram_size, Some(8192));
    assert_eq!(h.prg_nvram_size, None);
    assert_eq!(h.mapper, 1);
    assert!(h.mirroring == Mirroring::Vertical);
    assert!(h.battery);
    assert!(h.region == Region::Ntsc);
    assert_eq!(h.expansion, 1);
    // a different PRG ROM is not in the database
    assert!(Header::from_prg_chr(&db, b"abd", None).unwrap().is_none());
}

#[test]
fn find_game_needs_matching_chr() {
    let db = game_entry("00", "<chrrom size=\"8192\" sha1=\"11\"/>", "0");
    assert!(Header::find_game(&db, "00", Some("11")).unwrap().is_some());
    assert!(Header::find_game(&db, "00", Some("12")).unwrap().is_none());
    assert!(Header::find_game(&db, "00", None).unwrap().is_some());
}

#[test]
fn malformed_entry_is_an_error() {
    let db = "<database><game><!-- a\\b --><prgrom size=\"x\" sha1=\"00\"/>\
              <console type=\"0\" region=\"0\"/></game></database>";
    assert_eq!(Header::find_game(db, "00", None).err(), Some(NesError::GameDbFormat));
}

#[test]
fn database_header_wins() {
    let prg_len = 0x4000;
    let r = rom(1, 0, 0, 0);
    // the database describes this PRG ROM as a PAL game
    let prg = r[16..16 + prg_len].to_vec();
    let digest = sha1::Sha1::digest(&prg).to_vec();
    let db = game_entry(&arr_to_hex(&digest), "<chrram size=\"8192\"/>", "1");
    assert_eq!(
        Cartridge::from_rom(&r, &db).err(),
        Some(NesError::RegionUnsupported(Region::Pal))
    );
    // both CHR ROM and CHR RAM
    let db = game_entry(
        &arr_to_hex(&digest),
        "<chrram size=\"8192\"/><chrrom size=\"8192\" sha1=\"00\"/>",
        "0",
    );
    assert_eq!(
        Cartridge::from_rom(&r, &db).err(),
        Some(NesError::ChrRomAndRamUnsupported)
    );
    // CHR ROM that the file does not have
    let db = game_entry(&arr_to_hex(&digest), "<chrrom size=\"8192\" sha1=\"00\"/>", "0");
    assert!(Cartridge::try_from_rom(&r, &db).is_none());
    // a multi-region game loads, with the database's header
    let db = game_entry(&arr_to_hex(&digest), "<chrram size=\"4096\"/>", "2");
    let c = Cartridge::try_from_rom(&r, &db).unwrap().unwrap();
    assert!(c.header.source == HeaderSource::GameDb);
    assert_eq!(c.chr.len(), 4096);
    assert!(c.header.region == Region::Multi);
}

#[test]
fn parse_game_info_by_hand() {
    let node = |tag: &str, attrs: &[(&str, &str)]| XmlNode {
        tag: tag.to_owned(),
        is_comment: false,
        text: None,
        attributes: attrs
            .iter()
            .map(|(n, v)| XmlAttribute {
                name: n.to_string(),
                namespaced: false,
                value: v.to_string(),
            })
            .collect(),
    };
    let comment = XmlNode {
        tag: String::new(),
        is_comment: true,
        text: Some(" dir\\Game.nes ".to_owned()),
        attributes: vec![],
    };
    let game = XmlElement {
        tag: "game".to_owned(),
        children: vec![
            comment,
            node("prgrom", &[("size", "32768")]),
            node("chrrom", &[("size", "8192")]),
            node("pcb", &[("mapper", "4"), ("submapper", "1"), ("mirroring", "4"), ("battery", "0")]),
            node("console", &[("type", "0"), ("region", "3")]),
            node("expansion", &[("type", "2")]),
        ],
    };
    let h = Header::parse_game_info(&game).unwrap();
    assert_eq!(h.name, "Game.nes ");
    assert_eq!(h.prg_rom_size, 32768);
    assert_eq!(h.chr_rom_size, Some(8192));
    assert_eq!(h.mapper, 4);
    assert_eq!(h.submapper, 1);
    assert!(h.mirroring == Mirroring::FourScreen);
    assert!(!h.battery);
    assert!(h.region == Region::Dendy);
    assert_eq!(h.expansion, 2);
}

#[test]
fn enums_from_database_text() {
    assert!(Mirroring::try_from_str("H").unwrap() == Mirroring::Horizontal);
    assert_eq!(Mirroring::try_from_str("h").err(), Some(NesError::GameDbFormat));
    assert!(ConsoleType::try_from_str("3").unwrap() == ConsoleType::Extended);
    assert_eq!(ConsoleType::try_from_str("4").err(), Some(NesError::GameDbFormat));
    assert!(Region::try_from_str("2").unwrap() == Region::Multi);
    assert_eq!(Region::try_from_str("").err(), Some(NesError::GameDbFormat));
}

#[test]
fn decimal_numbers() {
    assert_eq!(parse_u32("0"), Some(0));
    assert_eq!(parse_u32("+42"), Some(42));
    assert_eq!(parse_u32("0007"), Some(7));
    assert_eq!(parse_u32("4294967295"), Some(u32::MAX));
    assert_eq!(parse_u32("4294967296"), None);
    assert_eq!(parse_u32("99999999999"), None);
    assert_eq!(parse_u32("-1"), None);
    assert_eq!(parse_u32(""), None);
    assert_eq!(parse_u32("+"), None);
    assert_eq!(parse_u32("1 2"), None);
    assert_eq!(parse_u32("١"), None);
}

#[test]
fn hex_digits() {
    assert_eq!(arr_to_hex(&[]), "");
    assert_eq!(arr_to_hex(&[0x00, 0x0F, 0xA9, 0xFF]), "000FA9FF");
}

#[test]
fn names_of_console_types_regions_and_sources() {
    assert_eq!(ConsoleType::Standard.to_string(), "NES / Famicom");
    assert_eq!(ConsoleType::VsSystem.to_string(), "Vs. System");
    assert_eq!(Region::Multi.to_string(), "Multi-region");
    assert_eq!(Region::Dendy.to_string(), "Dendy");
    assert_eq!(HeaderSource::GameDb.to_string(), "NES 2.0 XML Database");
}
