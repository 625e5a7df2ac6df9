use vstd::prelude::*;

use vstd::slice::{slice_subrange, slice_to_vec};

use crate::error::NesError;
use self::gamedb::{db_lookup, lookup_model};

pub mod gamedb;

verus! {

/// Size of the iNES header, in bytes.
pub const HEADER_SIZE: usize = 16;

/// How the PPU nametables are mirrored.
#[derive(Clone, Copy, Debug, PartialEq, Eq, Structural)]
pub enum Mirroring {
    Horizontal,
    Vertical,
    FourScreen,
    SingleScreenLow,
    SingleScreenHigh,
}

/// Sizes of the memory banks that mappers switch.
#[derive(Clone, Copy, Debug, PartialEq, Eq, Structural)]
pub enum BankSize {
    Kb1,
    Kb2,
    Kb4,
    Kb8,
    Kb16,
    Kb32,
}

impl BankSize {
    /// The number of bytes in a bank of this size.
    pub open spec fn spec_bytes(self) -> nat {
        match self {
            BankSize::Kb1 => 0x400,
            BankSize::Kb2 => 0x800,
            BankSize::Kb4 => 0x1000,
            BankSize::Kb8 => 0x2000,
            BankSize::Kb16 => 0x4000,
            BankSize::Kb32 => 0x8000,
        }
    }

    /// The number of bytes in a bank of this size.
    pub fn bytes(self) -> (r: u32)
        ensures
            r == self.spec_bytes(),
    {
        match self {
            BankSize::Kb1 => 0x400,
            BankSize::Kb2 => 0x800,
            BankSize::Kb4 => 0x1000,
            BankSize::Kb8 => 0x2000,
            BankSize::Kb16 => 0x4000,
            BankSize::Kb32 => 0x8000,
        }
    }
}

/// Where the information of a header comes from.
#[derive(Clone, Copy, Debug, PartialEq, Eq, Structural)]
pub enum HeaderSource {
    Ines1,
    Ines2,
    GameDb,
}

impl HeaderSource {
    /// The name that is shown for it.
    pub open spec fn name_spec(self) -> Seq<char> {
        match self {
            HeaderSource::Ines1 => "iNES 1. header"@,
            HeaderSource::Ines2 => "iNES 2. header"@,
            HeaderSource::GameDb => "NES 2.0 XML Database"@,
        }
    }

    /// The name that is shown for it.
    pub fn to_string(&self) -> (r: String)
        ensures
            r@ == self.name_spec(),
    {
        match self {
            HeaderSource::Ines1 => "iNES 1. header".to_owned(),
            HeaderSource::Ines2 => "iNES 2. header".to_owned(),
            HeaderSource::GameDb => "NES 2.0 XML Database".to_owned(),
        }
    }
}

/// The console a game was made for.
#[derive(Clone, Copy, Debug, PartialEq, Eq, Structural)]
pub enum ConsoleType {
    /// NES / Famicom
    Standard,
    VsSystem,
    Playchoice,
    Extended,
}

impl ConsoleType {
    /// The name that is shown for it.
    pub open spec fn name_spec(self) -> Seq<char> {
        match self {
            ConsoleType::Standard => "NES / Famicom"@,
            ConsoleType::VsSystem => "Vs. System"@,
            ConsoleType::Playchoice => "Playchoice 10"@,
            ConsoleType::Extended => "Extended console type..."@,
        }
    }

    /// The name that is shown for it.
    pub fn to_string(&self) -> (r: String)
        ensures
            r@ == self.name_spec(),
    {
        match self {
            ConsoleType::Standard => "NES / Famicom".to_owned(),
            ConsoleType::VsSystem => "Vs. System".to_owned(),
            ConsoleType::Playchoice => "Playchoice 10".to_owned(),
            ConsoleType::Extended => "Extended console type...".to_owned(),
        }
    }
}

/// The TV system a game was made for.
#[derive(Clone, Copy, Debug, PartialEq, Eq, Structural)]
pub enum Region {
    Ntsc,
    Pal,
    Multi,
    Dendy,
}

impl Region {
    /// The name that is shown for it.
    pub open spec fn name_spec(self) -> Seq<char> {
        match self {
            Region::Ntsc => "NTSC"@,
            Region::Pal => "PAL"@,
            Region::Multi => "Multi-region"@,
            Region::Dendy => "Dendy"@,
        }
    }

    /// The name that is shown for it.
    pub fn to_string(&self) -> (r: String)
        ensures
            r@ == self.name_spec(),
    {
        match self {
            Region::Ntsc => "NTSC".to_owned(),
            Region::Pal => "PAL".to_owned(),
            Region::Multi => "Multi-region".to_owned(),
            Region::Dendy => "Dendy".to_owned(),
        }
    }
}

/// What a cartridge declares about itself: memory sizes, mapper, mirroring, console and region.
pub struct Header {
    /// Whether this information comes from iNES 1/2 or the NES 2.0 game database
    pub source: HeaderSource,
    pub name: String,
    pub prg_rom_size: u32,
    pub chr_rom_size: Option<u32>,
    pub chr_ram_size: Option<u32>,
    pub prg_ram_size: Option<u32>,
    pub prg_nvram_size: Option<u32>,
    pub mapper: u32,
    pub submapper: u32,
    pub mirroring: Mirroring,
    /// "Battery" means that a cartridge has either a battery or non-volatile RAM
    pub battery: bool,
    pub console_typ: ConsoleType,
    pub region: Region,
    pub expansion: u32,
}

/// A header as a value, with its name as a sequence of characters.
pub struct HeaderModel {
    pub source: HeaderSource,
    pub name: Seq<char>,
    pub prg_rom_size: u32,
    pub chr_rom_size: Option<u32>,
    pub chr_ram_size: Option<u32>,
    pub prg_ram_size: Option<u32>,
    pub prg_nvram_size: Option<u32>,
    pub mapper: u32,
    pub submapper: u32,
    pub mirroring: Mirroring,
    pub battery: bool,
    pub console_typ: ConsoleType,
    pub region: Region,
    pub expansion: u32,
}

impl View for Header {
    type V = HeaderModel;

    open spec fn view(&self) -> HeaderModel {
        HeaderModel {
            source: self.source,
            name: self.name@,
            prg_rom_size: self.prg_rom_size,
            chr_rom_size: self.chr_rom_size,
            chr_ram_size: self.chr_ram_size,
            prg_ram_size: self.prg_ram_size,
            prg_nvram_size: self.prg_nvram_size,
            mapper: self.mapper,
            submapper: self.submapper,
            mirroring: self.mirroring,
            battery: self.battery,
            console_typ: self.console_typ,
            region: self.region,
            expansion: self.expansion,
        }
    }
}

/// The nametable mirroring that byte 6 of an iNES header selects.
pub open spec fn ines_mirroring(flags6: u8) -> Mirroring {
    if flags6 & 8 != 0 {
        Mirroring::FourScreen
    } else if flags6 & 1 != 0 {
        Mirroring::Vertical
    } else {
        Mirroring::Horizontal
    }
}

/// The mapper number that bytes 6 and 7 of an iNES header select.
pub open spec fn ines_mapper(flags6: u8, flags7: u8) -> u32 {
    ((flags6 >> 4u8) | (flags7 & 0xF0u8)) as u32
}

/// The error an iNES header raises, if any, in the order in which its fields are checked.
pub open spec fn ines_error(b: Seq<u8>) -> Option<NesError> {
    if b[0] != 0x4E || b[1] != 0x45 || b[2] != 0x53 || b[3] != 0x1A {
        Some(NesError::InvalidInesFormat)
    } else if b[6] & 4 != 0 {
        Some(NesError::TrainerUnsupported)
    } else if b[7] & 0xC == 8 {
        Some(NesError::Ines2Unsupported)
    } else if b[7] & 3 == 3 {
        Some(NesError::InvalidInesFormat)
    } else if b[9] > 1 {
        Some(NesError::InvalidInesFormat)
    } else {
        None
    }
}

/// The console type that byte 7 of a valid iNES header selects.
pub open spec fn ines_console(flags7: u8) -> ConsoleType {
    if flags7 & 3 == 0 {
        ConsoleType::Standard
    } else if flags7 & 3 == 1 {
        ConsoleType::VsSystem
    } else {
        ConsoleType::Playchoice
    }
}

/// The header that the valid iNES header `b` describes.
pub open spec fn ines_header(b: Seq<u8>) -> HeaderModel {
    HeaderModel {
        source: HeaderSource::Ines1,
        name: Seq::empty(),
        prg_rom_size: (b[4] * 0x4000) as u32,
        chr_rom_size: if b[5] == 0 { None } else { Some((b[5] * 0x2000) as u32) },
        chr_ram_size: if b[5] == 0 { Some(0x2000u32) } else { None },
        prg_ram_size: if b[8] == 0 { Some(0x2000u32) } else { Some((b[8] * 0x2000) as u32) },
        prg_nvram_size: None,
        mapper: ines_mapper(b[6], b[7]),
        submapper: 0,
        mirroring: ines_mirroring(b[6]),
        battery: b[6] & 2 != 0,
        console_typ: ines_console(b[7]),
        region: if b[9] == 0 { Region::Ntsc } else { Region::Pal },
        expansion: 1,
    }
}

/// The region that byte 9 of an iNES header selects.
pub fn region_from_ines(value: u8) -> (r: Result<Region, NesError>)
    ensures
        value == 0 ==> r == Ok::<Region, NesError>(Region::Ntsc),
        value == 1 ==> r == Ok::<Region, NesError>(Region::Pal),
        value > 1 ==> r == Err::<Region, NesError>(NesError::InvalidInesFormat),
{
    match value {
        0 => Ok(Region::Ntsc),
        1 => Ok(Region::Pal),
        _ => Err(NesError::InvalidInesFormat),
    }
}

impl Header {
    /// Parses an iNES 1 header.
    pub fn from_ines(ines: &[u8]) -> (r: Result<Header, NesError>)
        requires
            ines@.len() >= 10,
        ensures
            match r {
                Ok(h) => ines_error(ines@) is None && h@ == ines_header(ines@),
                Err(e) => ines_error(ines@) == Some(e),
            },
    {
        if ines[0] != 0x4E || ines[1] != 0x45 || ines[2] != 0x53 || ines[3] != 0x1A {
            return Err(NesError::InvalidInesFormat);
        }
        let flags6 = ines[6];
        let flags7 = ines[7];
        let mirroring = if flags6 & 8 != 0 {
            Mirroring::FourScreen
        } else if flags6 & 1 != 0 {
            Mirroring::Vertical
        } else {
            Mirroring::Horizontal
        };

        let battery = flags6 & 2 != 0;
        if flags6 & 4 != 0 {
            return Err(NesError::TrainerUnsupported);
        }

        let mapper = ((flags6 >> 4u8) | (flags7 & 0xF0u8)) as u32;

        if flags7 & 0xC == 8 {
            return Err(NesError::Ines2Unsupported);
        }

        let (chr_rom_size, chr_ram_size) = if ines[5] == 0 {
            (None, Some(BankSize::Kb8.bytes()))
        } else {
            (Some(ines[5] as u32 * 0x2000), None)
        };

        let prg_ram_size = if ines[8] == 0 {
            Some(BankSize::Kb8.bytes())
        } else {
            Some(ines[8] as u32 * 0x2000)
        };

        let console_typ = if flags7 & 3 == 0 {
            ConsoleType::Standard
        } else if flags7 & 3 == 1 {
            ConsoleType::VsSystem
        } else if flags7 & 3 == 2 {
            ConsoleType::Playchoice
        } else {
            assert(flags7 & 3 == 3) by (bit_vector)
                requires
                    flags7 & 3 != 0 && flags7 & 3 != 1 && flags7 & 3 != 2,
            ;
            return Err(NesError::InvalidInesFormat);
        };

        let region = match region_from_ines(ines[9]) {
            Ok(region) => region,
            Err(e) => return Err(e),
        };

        Ok(Header {
            mirroring,
            source: HeaderSource::Ines1,
            name: String::new(),
            prg_rom_size: ines[4] as u32 * 0x4000,
            chr_rom_size,
            chr_ram_size,
            prg_ram_size,
            prg_nvram_size: None,
            mapper,
            submapper: 0,
            battery,
            console_typ,
            region,
            expansion: 1,
        })
    }
}

/// A loaded game: its header, its PRG ROM, its PRG RAM (if it has any) and its CHR memory.
pub struct Cartridge {
    pub header: Header,
    pub prg_rom: Vec<u8>,
    pub prg_wram: Option<Vec<u8>>,
    pub chr: Vec<u8>,
}

/// A cartridge as values.
pub struct CartridgeModel {
    pub header: HeaderModel,
    pub prg: Seq<u8>,
    pub wram: Option<Seq<u8>>,
    pub chr: Seq<u8>,
}

impl View for Cartridge {
    type V = CartridgeModel;

    open spec fn view(&self) -> CartridgeModel {
        CartridgeModel {
            header: self.header@,
            prg: self.prg(),
            wram: self.wram(),
            chr: self.chr_mem(),
        }
    }
}

/// `n` zero bytes.
pub open spec fn zeros(n: nat) -> Seq<u8> {
    Seq::new(n, |i: int| 0u8)
}

/// The PRG RAM that a header asks for: zeroed RAM of the size of its PRG RAM or of its PRG
/// NVRAM, none if it has neither, an error if it has both.
pub open spec fn wram_for(h: HeaderModel) -> Result<Option<Seq<u8>>, NesError> {
    match (h.prg_ram_size, h.prg_nvram_size) {
        (Some(size), None) => Ok(Some(zeros(size as nat))),
        (None, Some(size)) => Ok(Some(zeros(size as nat))),
        (None, None) => Ok(None),
        (Some(_), Some(_)) => Err(NesError::ChrRomAndRamUnsupported),
    }
}

/// The CHR memory that a header asks for: the CHR ROM of the file, or zeroed CHR RAM; an
/// error if it asks for both or for neither.
pub open spec fn chr_for(h: HeaderModel, chr_rom: Option<Seq<u8>>) -> Result<Seq<u8>, NesError> {
    match (h.chr_ram_size, h.chr_rom_size) {
        (None, Some(_)) => Ok(chr_rom->0),
        (Some(size), None) => Ok(zeros(size as nat)),
        (Some(_), Some(_)) => Err(NesError::ChrRomAndRamUnsupported),
        (None, None) => Err(NesError::RomCorrupted),
    }
}

/// Whether a header asks for CHR ROM where the file has none.
pub open spec fn chr_rom_missing(h: HeaderModel, chr_rom: Option<Seq<u8>>) -> bool {
    wram_for(h) is Ok && h.chr_ram_size is None && h.chr_rom_size is Some && chr_rom is None
}

/// The cartridge that a header and the PRG ROM and CHR ROM of a file make, or the error they
/// raise: only standard NES games for the NTSC region, or for any region, are accepted.
pub open spec fn cartridge_from_parts(h: HeaderModel, prg: Seq<u8>, chr_rom: Option<Seq<u8>>) -> Result<CartridgeModel, NesError> {
    match wram_for(h) {
        Err(e) => Err(e),
        Ok(wram) => match chr_for(h, chr_rom) {
            Err(e) => Err(e),
            Ok(chr) => if h.console_typ != ConsoleType::Standard {
                Err(NesError::ConsoleUnsupported(h.console_typ))
            } else if h.region != Region::Ntsc && h.region != Region::Multi {
                Err(NesError::RegionUnsupported(h.region))
            } else {
                Ok(CartridgeModel { header: h, prg, wram, chr })
            },
        },
    }
}

/// The PRG ROM and, if the header has one, the CHR ROM that follow the iNES header in a file;
/// nothing if the file is too short for them.
pub open spec fn rom_portions(ines: HeaderModel, body: Seq<u8>) -> Option<(Seq<u8>, Option<Seq<u8>>)> {
    let prg_end = ines.prg_rom_size as int;
    if prg_end > body.len() {
        None
    } else {
        match ines.chr_rom_size {
            Some(size) => if prg_end + size > body.len() {
                None
            } else {
                Some((body.subrange(0, prg_end), Some(body.subrange(prg_end, prg_end + size))))
            },
            None => Some((body.subrange(0, prg_end), None)),
        }
    }
}

/// The header that a ROM file ends up with, with its PRG ROM and CHR ROM: the game
/// database's header when the database knows the game, the iNES header otherwise.
pub open spec fn rom_parts(rom: Seq<u8>, gamedb: Seq<char>) -> Result<(HeaderModel, Seq<u8>, Option<Seq<u8>>), NesError> {
    if rom.len() < HEADER_SIZE {
        Err(NesError::InvalidInesFormat)
    } else {
        let b = rom.subrange(0, HEADER_SIZE as int);
        match ines_error(b) {
            Some(e) => Err(e),
            None => match rom_portions(ines_header(b), rom.subrange(HEADER_SIZE as int, rom.len() as int)) {
                None => Err(NesError::RomCorrupted),
                Some((prg, chr)) => match db_lookup(gamedb, prg, chr) {
                    Err(e) => Err(e),
                    Ok(Some(h)) => Ok((h, prg, chr)),
                    Ok(None) => Ok((ines_header(b), prg, chr)),
                },
            },
        }
    }
}

/// What loading the ROM file `rom` with the game database `gamedb` gives.
pub open spec fn rom_result(rom: Seq<u8>, gamedb: Seq<char>) -> Result<CartridgeModel, NesError> {
    match rom_parts(rom, gamedb) {
        Err(e) => Err(e),
        Ok((h, prg, chr)) => cartridge_from_parts(h, prg, chr),
    }
}

/// Whether the game database asks for CHR ROM that the ROM file does not have.
pub open spec fn rom_chr_missing(rom: Seq<u8>, gamedb: Seq<char>) -> bool {
    match rom_parts(rom, gamedb) {
        Err(_) => false,
        Ok((h, prg, chr)) => chr_rom_missing(h, chr),
    }
}

/// The view of a byte slice that may be missing.
pub open spec fn opt_bytes(b: Option<&[u8]>) -> Option<Seq<u8>> {
    match b {
        Some(b) => Some(b@),
        None => None,
    }
}

/// The result of loading a cartridge, with the cartridge taken by its view.
pub open spec fn result_model(r: Result<Cartridge, NesError>) -> Result<CartridgeModel, NesError> {
    match r {
        Ok(c) => Ok(c@),
        Err(e) => Err(e),
    }
}

/// Splits a ROM file into the header it ends up with and its PRG ROM and CHR ROM.
fn split_rom<'a>(rom: &'a [u8], gamedb: &str) -> (r: Result<(Header, &'a [u8], Option<&'a [u8]>), NesError>)
    ensures
        match r {
            Ok((h, prg, chr)) => rom_parts(rom@, gamedb@) == Ok::<_, NesError>((h@, prg@, opt_bytes(chr))),
            Err(e) => rom_parts(rom@, gamedb@) == Err::<(HeaderModel, Seq<u8>, Option<Seq<u8>>), _>(e),
        },
{
    if rom.len() < HEADER_SIZE {
        return Err(NesError::InvalidInesFormat);
    }
    let ines_bytes = slice_subrange(rom, 0, HEADER_SIZE);
    let body = slice_subrange(rom, HEADER_SIZE, rom.len());
    let ines = match Header::from_ines(ines_bytes) {
        Ok(h) => h,
        Err(e) => return Err(e),
    };
    let prg_end = ines.prg_rom_size as usize;
    if prg_end > body.len() {
        return Err(NesError::RomCorrupted);
    }
    let prg = slice_subrange(body, 0, prg_end);
    let chr = match ines.chr_rom_size {
        Some(size) => {
            assert(ines.prg_rom_size <= 255 * 0x4000 && size <= 255 * 0x2000);
            let chr_end = prg_end + size as usize;
            if chr_end > body.len() {
                return Err(NesError::RomCorrupted);
            }
            Some(slice_subrange(body, prg_end, chr_end))
        },
        None => None,
    };
    match Header::from_prg_chr(gamedb, prg, chr) {
        Ok(Some(h)) => Ok((h, prg, chr)),
        Ok(None) => Ok((ines, prg, chr)),
        Err(e) => Err(e),
    }
}

impl Cartridge {
    /// Makes a cartridge of a header and the PRG ROM and CHR ROM of a file.
    pub fn from_header(header: Header, prg_rom: &[u8], chr_rom: Option<&[u8]>) -> (r: Result<Cartridge, NesError>)
        requires
            !chr_rom_missing(header@, opt_bytes(chr_rom)),
        ensures
            result_model(r) == cartridge_from_parts(header@, prg_rom@, opt_bytes(chr_rom)),
    {
        let prg_wram = match (header.prg_ram_size, header.prg_nvram_size) {
            (Some(size), None) | (None, Some(size)) => {
                let ram: Vec<u8> = vec![0; size as usize];
                assert(ram@ =~= zeros(size as nat));
                Some(ram)
            },
            (None, None) => None,
            (Some(_), Some(_)) => return Err(NesError::ChrRomAndRamUnsupported),
        };
        let chr = match (header.chr_ram_size, header.chr_rom_size) {
            (None, Some(_)) => match chr_rom {
                Some(c) => slice_to_vec(c),
                None => {
                    assert(false);
                    Vec::new()
                },
            },
            (Some(size), None) => {
                let ram: Vec<u8> = vec![0; size as usize];
                assert(ram@ =~= zeros(size as nat));
                ram
            },
            (Some(_), Some(_)) => return Err(NesError::ChrRomAndRamUnsupported),
            (None, None) => return Err(NesError::RomCorrupted),
        };
        if header.console_typ != ConsoleType::Standard {
            return Err(NesError::ConsoleUnsupported(header.console_typ));
        }
        if header.region != Region::Ntsc && header.region != Region::Multi {
            return Err(NesError::RegionUnsupported(header.region));
        }
        Ok(Cartridge { header, prg_rom: slice_to_vec(prg_rom), prg_wram, chr })
    }

    /// Loads a ROM file: first parses its iNES header, then looks the game up in the game
    /// database `gamedb`, an XML text, whose header wins where it knows the game.
    pub fn from_rom(rom: &[u8], gamedb: &str) -> (r: Result<Cartridge, NesError>)
        requires
            !rom_chr_missing(rom@, gamedb@),
        ensures
            result_model(r) == rom_result(rom@, gamedb@),
    {
        match split_rom(rom, gamedb) {
            Ok((header, prg, chr)) => Self::from_header(header, prg, chr),
            Err(e) => Err(e),
        }
    }

    /// Like `from_rom`, but gives nothing where the game database asks for CHR ROM that the
    /// file does not have, on which `from_rom` cannot be called.
    pub fn try_from_rom(rom: &[u8], gamedb: &str) -> (r: Option<Result<Cartridge, NesError>>)
        ensures
            match r {
                Some(res) => !rom_chr_missing(rom@, gamedb@) && result_model(res) == rom_result(rom@, gamedb@),
                None => rom_chr_missing(rom@, gamedb@),
            },
    {
        let missing = match split_rom(rom, gamedb) {
            Ok((header, _prg, chr)) => {
                let wram_ok = !(header.prg_ram_size.is_some() && header.prg_nvram_size.is_some());
                wram_ok && header.chr_ram_size.is_none() && header.chr_rom_size.is_some() && chr.is_none()
            },
            Err(_) => false,
        };
        if missing {
            None
        } else {
            Some(Self::from_rom(rom, gamedb))
        }
    }

    /// The contents of the PRG ROM.
    pub open spec fn prg(&self) -> Seq<u8> {
        self.prg_rom@
    }

    /// The contents of the PRG RAM, if the cartridge has any.
    pub open spec fn wram(&self) -> Option<Seq<u8>> {
        match &self.prg_wram {
            Some(v) => Some(v@),
            None => None,
        }
    }

    /// The contents of the CHR memory (ROM or RAM).
    pub open spec fn chr_mem(&self) -> Seq<u8> {
        self.chr@
    }

    /// The memories of a cartridge are `Vec`s, so their sizes fit in a `usize`.
    pub proof fn lemma_sizes_fit(&self)
        ensures
            self.prg().len() <= usize::MAX,
            self.chr_mem().len() <= usize::MAX,
            self.wram() matches Some(w) ==> w.len() <= usize::MAX,
    {
        assert(self.prg_rom.len() == self.prg_rom@.len());
        assert(self.chr.len() == self.chr@.len());
        if let Some(w) = &self.prg_wram {
            assert(w.len() == w@.len());
        }
    }

    /// Whether `addr` lies inside the PRG RAM, or the cartridge has no PRG RAM.
    pub open spec fn wram_addr_ok(&self, addr: int) -> bool {
        self.wram() matches Some(w) ==> 0 <= addr < w.len()
    }

    /// The byte a read of the PRG RAM at `addr` gives, if there is PRG RAM.
    pub open spec fn wram_read(&self, addr: int) -> Option<u8> {
        match self.wram() {
            Some(w) => Some(w[addr]),
            None => None,
        }
    }

    /// Banks are indexed from 0: bank `bank` of size `bank_size` starts at this offset.
    pub fn map_bank(bank: u8, bank_size: BankSize) -> (r: usize)
        ensures
            r == bank * bank_size.spec_bytes(),
    {
        let size = bank_size.bytes();
        assert(bank * size <= 255 * 0x8000) by (nonlinear_arith)
            requires
                size <= 0x8000,
        ;
        bank as usize * size as usize
    }

    /// Like `map_bank`, but bank numbers wrap around the number of PRG ROM banks of that size.
    pub fn map_bank_prg_wrap(&self, bank: u8, bank_size: BankSize) -> (r: usize)
        requires
            self.header.prg_rom_size as nat / bank_size.spec_bytes() > 0,
        ensures
            r == (bank as nat % (self.header.prg_rom_size as nat / bank_size.spec_bytes())) * bank_size.spec_bytes(),
    {
        let count = self.prg_rom_count(bank_size);
        let size = bank_size.bytes();
        let b = bank as u32 % count;
        assert(b <= bank) by (nonlinear_arith)
            requires
                b == bank as u32 % count,
                count > 0,
        ;
        assert(b * size <= 255 * 0x8000) by (nonlinear_arith)
            requires
                size <= 0x8000,
                b <= bank,
        ;
        b as usize * size as usize
    }

    #[inline]
    pub fn read_prg_rom(&self, addr: usize) -> (r: u8)
        requires
            addr < self.prg().len(),
        ensures
            r == self.prg()[addr as int],
    {
        self.prg_rom[addr]
    }

    #[inline]
    pub fn read_prg_ram(&self, addr: usize) -> (r: Option<u8>)
        requires
            self.wram_addr_ok(addr as int),
        ensures
            r == self.wram_read(addr as int),
    {
        match &self.prg_wram {
            Some(prg_ram) => Some(prg_ram[addr]),
            None => None,
        }
    }

    #[inline]
    pub fn write_prg_ram(&mut self, addr: usize, val: u8)
        requires
            old(self).wram_addr_ok(addr as int),
        ensures
            final(self).header == old(self).header,
            final(self).prg() == old(self).prg(),
            final(self).chr_mem() == old(self).chr_mem(),
            final(self).wram() == (match old(self).wram() {
                Some(w) => Some(w.update(addr as int, val)),
                None => None,
            }),
    {
        if let Some(mut prg_ram) = self.prg_wram.take() {
            prg_ram.set(addr, val);
            self.prg_wram = Some(prg_ram);
        }
    }

    #[inline]
    pub fn read_chr(&self, addr: usize) -> (r: u8)
        requires
            addr < self.chr_mem().len(),
        ensures
            r == self.chr_mem()[addr as int],
    {
        self.chr[addr]
    }

    #[inline]
    pub fn write_chr(&mut self, addr: usize, val: u8)
        requires
            addr < old(self).chr_mem().len(),
        ensures
            final(self).header == old(self).header,
            final(self).prg() == old(self).prg(),
            final(self).wram() == old(self).wram(),
            final(self).chr_mem() == old(self).chr_mem().update(addr as int, val),
    {
        self.chr.set(addr, val);
    }

    // The counts are rounded down.
    #[inline]
    pub fn prg_rom_count(&self, unit: BankSize) -> (r: u32)
        ensures
            r == self.header.prg_rom_size as nat / unit.spec_bytes(),
    {
        self.header.prg_rom_size / unit.bytes()
    }

    #[inline]
    pub fn prg_ram_count(&self, unit: BankSize) -> (r: Option<u32>)
        ensures
            r == count_in(self.header.prg_ram_size, unit),
    {
        match self.header.prg_ram_size {
            Some(size) => Some(size / unit.bytes()),
            None => None,
        }
    }

    #[inline]
    pub fn prg_nvram_count(&self, unit: BankSize) -> (r: Option<u32>)
        ensures
            r == count_in(self.header.prg_nvram_size, unit),
    {
        match self.header.prg_nvram_size {
            Some(size) => Some(size / unit.bytes()),
            None => None,
        }
    }

    #[inline]
    pub fn chr_rom_count(&self, unit: BankSize) -> (r: Option<u32>)
        ensures
            r == count_in(self.header.chr_rom_size, unit),
    {
        match self.header.chr_rom_size {
            Some(size) => Some(size / unit.bytes()),
            None => None,
        }
    }

    #[inline]
    pub fn chr_ram_count(&self, unit: BankSize) -> (r: Option<u32>)
        ensures
            r == count_in(self.header.chr_ram_size, unit),
    {
        match self.header.chr_ram_size {
            Some(size) => Some(size / unit.bytes()),
            None => None,
        }
    }

    /// Whether the CHR memory is RAM.
    pub open spec fn has_chr_ram_spec(&self) -> bool {
        self.header.chr_ram_size is Some
    }

    #[inline]
    pub fn has_chr_ram(&self) -> (r: bool)
        ensures
            r == self.has_chr_ram_spec(),
    {
        self.header.chr_ram_size.is_some()
    }
}

/// How many whole banks of size `unit` fit in `size` bytes, if there is such memory.
pub open spec fn count_in(size: Option<u32>, unit: BankSize) -> Option<u32> {
    match size {
        Some(s) => Some((s as nat / unit.spec_bytes()) as u32),
        None => None,
    }
}

} // verus!
