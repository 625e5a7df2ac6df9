//! The picture processing unit: its registers, the dot-by-dot background and sprite fetches,
//! sprite evaluation, the vertical blank and its NMI, and the frame of palette indices it draws.

use vstd::prelude::*;

use crate::mapper::BaseMapper;

verus! {

/// The number of pixels of a frame.
pub const FRAME_PIXELS: usize = 61440;

/// A sprite fetched for the next line.
#[derive(Clone, Copy, Debug, PartialEq, Eq, Structural)]
pub struct Sprite {
    pub y: u8,
    pub x: u8,
    pub index: u16,
    pub palette: u8,
    /// false: in front of the background; true: behind it
    pub priority: bool,
    pub horizontal_flip: bool,
    pub vertical_flip: bool,
    pub tile_low: u8,
    pub tile_high: u8,
}

impl Sprite {
    /// A sprite with every field cleared.
    pub open spec fn cleared() -> Sprite {
        Sprite {
            y: 0,
            x: 0,
            index: 0,
            palette: 0,
            priority: false,
            horizontal_flip: false,
            vertical_flip: false,
            tile_low: 0,
            tile_high: 0,
        }
    }

    pub fn new() -> (r: Sprite)
        ensures
            r == Sprite::cleared(),
    {
        Sprite {
            y: 0,
            x: 0,
            index: 0,
            palette: 0,
            priority: false,
            horizontal_flip: false,
            vertical_flip: false,
            tile_low: 0,
            tile_high: 0,
        }
    }
}

/// PPUCTRL and PPUMASK as the PPU uses them, and whether writes to them are taken yet.
#[derive(Clone, Copy)]
pub struct PpuRegs {
    /// The base nametable address.
    pub nt_base_addr: usize,
    /// The VRAM address increment per PPUDATA access.
    pub addr_increment: usize,
    /// The sprite pattern table address.
    pub sp_pattern_table_addr: usize,
    /// The background pattern table address.
    pub bg_pattern_table_addr: usize,
    /// The sprite height.
    pub sp_size: u8,
    /// An NMI is signalled at the start of the vertical blank.
    pub nmi_on_vblank: bool,
    pub greyscale: bool,
    pub bg_leftmost_8: bool,
    pub sp_leftmost_8: bool,
    pub show_bg: bool,
    pub show_sp: bool,
    /// Background or sprites are shown.
    pub rendering_enabled: bool,
    pub emphasize_red: bool,
    pub emphasize_green: bool,
    pub emphasize_blue: bool,
    /// Writes to the control, mask, scroll and address registers are ignored after power-up.
    pub ignore_writes: bool,
}

/// The scroll registers: v, t, fine X and the write toggle w.
#[derive(Clone, Copy)]
pub struct Scroll {
    pub vram_addr: usize,
    pub temp_vram_addr: usize,
    pub x_fine_scroll: u8,
    pub write_toggle: bool,
}

/// The status, the I/O latch, the read buffer, OAMADDR and the NMI bookkeeping.
#[derive(Clone, Copy)]
pub struct PpuIo {
    pub ppustatus: u8,
    pub latch: u8,
    pub read_buffer: u8,
    pub oamaddr: u8,
    /// The OAM byte read on the last odd dot of sprite evaluation.
    pub oamdata_buffer: u8,
    /// A status read just before the vertical blank suppresses its flag.
    pub suppress_vbl: bool,
    /// Whether the NMI condition held on the previous dot of the vertical blank.
    pub prev_nmi: bool,
}

/// Sprite evaluation and sprite fetching bookkeeping.
#[derive(Clone, Copy)]
pub struct SpriteEval {
    /// The sprite number n.
    pub sprite_eval_count: u8,
    /// The step of the evaluation.
    pub sprite_eval_state: u8,
    /// The byte number m.
    pub sprite_fetch_step: u8,
    pub sprite_in_range: bool,
    /// Sprites copied to secondary OAM.
    pub sprites_found: u8,
    /// The sprite being fetched.
    pub sprite_index: u8,
}

/// The background fetch pipeline.
#[derive(Clone, Copy)]
pub struct BgPipe {
    pub nametable_byte: u8,
    pub attr_table_byte: u8,
    pub next_attr_table_byte: u8,
    pub tile_addr: usize,
    pub tile_lb: u8,
    pub tile_hb: u8,
    pub shift_low: u16,
    pub shift_high: u16,
}

/// The dot, the line, the frame parity, and whether a frame was completed.
#[derive(Clone, Copy)]
pub struct Position {
    pub xpos: u16,
    pub scanline: u16,
    pub odd_frame: bool,
    pub frame_ready: bool,
}

/// The PPU.
pub struct Ppu {
    pub regs: PpuRegs,
    pub scroll: Scroll,
    pub io: PpuIo,
    pub eval: SpriteEval,
    pub bg: BgPipe,
    pub pos: Position,
    /// The palette index of each pixel of the frame being drawn, row by row.
    pub output_buffer: Vec<u8>,
    /// Object attribute memory: 64 sprites of 4 bytes.
    pub oam: Vec<u8>,
    /// The up to 8 sprites found for the next line.
    pub secondary_oam: Vec<u8>,
    /// Palette RAM.
    pub palettes: Vec<u8>,
    /// The sprites fetched for the line.
    pub sprite_buffer: Vec<Sprite>,
}

/// The PPU as a value: its memories as sequences.
pub struct PpuState {
    pub regs: PpuRegs,
    pub scroll: Scroll,
    pub io: PpuIo,
    pub eval: SpriteEval,
    pub bg: BgPipe,
    pub pos: Position,
    pub output_buffer: Seq<u8>,
    pub oam: Seq<u8>,
    pub secondary_oam: Seq<u8>,
    pub palettes: Seq<u8>,
    pub sprite_buffer: Seq<Sprite>,
}

impl View for Ppu {
    type V = PpuState;

    open spec fn view(&self) -> PpuState {
        PpuState {
            regs: self.regs,
            scroll: self.scroll,
            io: self.io,
            eval: self.eval,
            bg: self.bg,
            pos: self.pos,
            output_buffer: self.output_buffer@,
            oam: self.oam@,
            secondary_oam: self.secondary_oam@,
            palettes: self.palettes@,
            sprite_buffer: self.sprite_buffer@,
        }
    }
}

/// The mapper answers every PPU read: 4 KB of nametable RAM and every pattern table address
/// mapped inside the CHR memory.
pub open spec fn mapper_ok(m: BaseMapper) -> bool {
    &&& m.nt_ram@.len() == 0x1000
    &&& forall|a: int| 0 <= a <= 0x1FFF ==> 0 <= #[trigger] m.chr_offset(a) < m.cartridge.chr_mem().len()
}

/// Whether the mapper answers every PPU read (see `mapper_ok`).
pub fn mapper_answers(m: &BaseMapper) -> (r: bool)
    ensures
        r == mapper_ok(*m),
{
    m.nt_ram.len() == 0x1000 && m.chr_mapped()
}

/// Whether a PPUDATA read can be made in the state `ppu` (see `ppudata_read_ok`).
pub fn ppudata_read_allowed(ppu: &Ppu) -> (r: bool)
    ensures
        r == ppudata_read_ok(ppu@),
{
    let v = ppu.scroll.vram_addr;
    !((v & 0x3FFF) >= 0x3F00) || v < 0x4000
}

proof fn lemma_ppu_bits()
    by (bit_vector)
    ensures
        forall|x: usize| #[trigger] (x & 0x3FFF) <= 0x3FFF,
        forall|x: usize| #[trigger] (x & 0x1F) <= 0x1F,
        forall|x: usize| x <= 0x1F ==> #[trigger] (x & !0x10usize) <= 0x1F,
        forall|x: usize| #[trigger] (((x >> 4usize) & 4) | (x & 2)) <= 6,
        forall|x: usize| #[trigger] ((x & 0x3E0) >> 5usize) <= 31,
        forall|x: u8| #[trigger] (x & 0x3F) < 64,
        forall|x: u8| #[trigger] (x & 0x30) < 64,
        forall|x: u8| #[trigger] (x & 7) < 8,
        forall|x: u16| #[trigger] (x & 0x8000) <= 0x8000,
        0x2006usize & 7 == 6,
        0x2002usize & 7 == 2,
        forall|x: u8| #[trigger] ((x & 0x7F) & 0x80) == 0,
        forall|x: u8| #[trigger] ((x | 0x80) & 0x80) != 0,
        forall|t: usize, v: usize|
            t <= 0x7FFF ==> #[trigger] ((t & !0xC00usize) | ((v & 3) << 10usize)) <= 0x7FFF,
        forall|t: usize, v: usize|
            t <= 0x7FFF ==> #[trigger] ((t & !0x73E0usize) | ((v & 0xF8) << 2usize) | ((v & 7) << 12usize))
                <= 0x7FFF,
        forall|t: usize, v: usize|
            t <= 0x7FFF && v <= 0xFF ==> #[trigger] ((t & !0x1Fusize) | (v >> 3usize)) <= 0x7FFF,
        forall|t: usize, v: usize| t <= 0x7FFF && v <= 0xFF ==> #[trigger] ((t & !0xFFusize) | v) <= 0x7FFF,
        forall|t: usize, v: usize|
            t <= 0x7FFF ==> #[trigger] ((t & !0xFF00usize) | ((v & 0x3F) << 8usize)) <= 0x7FFF,
        forall|t: usize, hi: usize, lo: usize|
            t <= 0x7FFF && lo <= 0xFF ==> #[trigger] ((((t & !0xFF00usize) | ((hi & 0x3F) << 8usize)) & !0xFFusize)
                | lo) == (((hi & 0x3F) << 8usize) | lo),
{
}

/// `x + y` on a byte, wrapping around.
pub open spec fn add8(x: u8, y: u8) -> u8 {
    vstd::wrapping::u8_specs::wrapping_add(x, y)
}

/// `x + y` on an address, wrapping around.
pub open spec fn add_addr(x: usize, y: usize) -> usize {
    vstd::wrapping::usize_specs::wrapping_add(x, y)
}

/// The OAM address during sprite evaluation: byte `m` of sprite `n`.
pub open spec fn oam_address(n: u8, m: u8) -> u8 {
    ((4 * n + m) % 256) as u8
}

/// The attribute table address of the tile that `v` points at.
pub open spec fn attr_table_addr(v: usize) -> usize {
    0x23C0 | (v & 0xC00) | ((v >> 4usize) & 0x38) | ((v >> 2usize) & 7)
}

/// The nametable address of the tile that `v` points at.
pub open spec fn nametable_addr(v: usize) -> usize {
    0x2000 | (v & 0xFFF)
}

/// The palette RAM at power-up.
pub open spec fn power_on_palettes() -> Seq<u8> {
    seq![
        0x09u8, 0x01, 0x00, 0x01, 0x00, 0x02, 0x02, 0x0D, 0x08, 0x10, 0x08, 0x24, 0x00, 0x00,
        0x04, 0x2C, 0x09, 0x01, 0x34, 0x03, 0x00, 0x04, 0x00, 0x14, 0x08, 0x3A, 0x00, 0x02,
        0x00, 0x20, 0x2C, 0x08,
    ]
}

impl PpuState {
    /// The invariant: the sizes of the memories, the position inside a frame, the sprite
    /// being fetched, the sprite height and evaluation bookkeeping, and palette indices of
    /// six bits.
    pub open spec fn wf(self) -> bool {
        &&& self.output_buffer.len() == FRAME_PIXELS
        &&& self.oam.len() == 0x100
        &&& self.secondary_oam.len() == 0x20
        &&& self.palettes.len() == 0x20
        &&& self.sprite_buffer.len() == 8
        &&& self.pos.scanline <= 261
        &&& self.pos.xpos <= 340
        &&& self.eval.sprite_index < 8
        &&& self.scroll.x_fine_scroll < 8
        &&& self.scroll.temp_vram_addr <= 0x7FFF
        &&& (self.regs.sp_size == 8 || self.regs.sp_size == 16)
        &&& self.eval.sprites_found <= 8
        &&& (self.eval.sprite_eval_state == 5 ==> self.eval.sprites_found < 8 && 1 <= self.eval.sprite_fetch_step <= 3)
        &&& forall|i: int| 0 <= i < 0x20 ==> #[trigger] self.palettes[i] < 64
        &&& forall|i: int| 0 <= i < FRAME_PIXELS ==> #[trigger] self.output_buffer[i] < 64
    }

    /// The PPU at power-up.
    pub open spec fn power_on() -> PpuState {
        PpuState { output_buffer: Seq::new(FRAME_PIXELS as nat, |_i: int| 0u8), oam: Seq::new(0x100, |_i: int| 0u8), secondary_oam: Seq::new(0x20, |_i: int| 0u8), palettes: power_on_palettes(), sprite_buffer: Seq::new(8, |_i: int| Sprite::cleared()), regs: PpuRegs { ignore_writes: true, nt_base_addr: 0x2000, addr_increment: 1, sp_pattern_table_addr: 0, bg_pattern_table_addr: 0, sp_size: 8, nmi_on_vblank: false, greyscale: false, bg_leftmost_8: false, sp_leftmost_8: false, show_bg: false, show_sp: false, rendering_enabled: false, emphasize_red: false, emphasize_green: false, emphasize_blue: false }, scroll: Scroll { vram_addr: 0, temp_vram_addr: 0, x_fine_scroll: 0, write_toggle: false }, io: PpuIo { prev_nmi: false, oamdata_buffer: 0, suppress_vbl: false, ppustatus: 0, oamaddr: 0, latch: 0, read_buffer: 0 }, eval: SpriteEval { sprite_eval_count: 0, sprite_eval_state: 1, sprite_fetch_step: 0, sprite_in_range: false, sprites_found: 0, sprite_index: 0 }, bg: BgPipe { nametable_byte: 0, attr_table_byte: 0, next_attr_table_byte: 0, tile_addr: 0, tile_lb: 0, tile_hb: 0, shift_low: 0, shift_high: 0 }, pos: Position { frame_ready: false, xpos: 0, scanline: 0, odd_frame: false } }
    }

    /// A write of `val` to palette RAM at `addr`: six bits are kept, and the backdrop entries
    /// of the background and sprite palettes mirror each other.
    pub open spec fn palette_written(self, addr: usize, val: u8) -> PpuState {
        let a = addr & 0x1F;
        let v = val & 0x3F;
        let p = self.palettes;
        let p2 = if a == 0 || a == 0x10 {
            p.update(0, v).update(0x10, v)
        } else if a == 4 || a == 0x14 {
            p.update(4, v).update(0x14, v)
        } else if a == 8 || a == 0x18 {
            p.update(8, v).update(0x18, v)
        } else if a == 0xC || a == 0x1C {
            p.update(0xC, v).update(0x1C, v)
        } else {
            p.update(a as int, v)
        };
        PpuState { palettes: p2, ..self }
    }

    /// A read of palette RAM at `addr` (greyscale keeps the two high bits).
    pub open spec fn palette_value(self, addr: usize) -> u8 {
        let a = addr & 0x1F;
        let a2 = if a == 0x10 || a == 0x14 || a == 0x18 || a == 0x1C { a & !0x10usize } else { a };
        let index = self.palettes[a2 as int];
        if self.regs.greyscale { index & 0x30 } else { index }
    }

    /// A read of the PPU's address space: pattern tables through the mapper, nametables
    /// ($3000-$3EFF mirroring $2000-$2EFF), palettes.
    pub open spec fn mem_read(self, m: BaseMapper, addr: usize) -> u8 {
        let a = addr & 0x3FFF;
        if a <= 0x1FFF {
            m.cartridge.chr_mem()[m.chr_offset(a as int)]
        } else if a <= 0x2FFF {
            m.nt_ram@[a - 0x2000]
        } else if a <= 0x3EFF {
            m.nt_ram@[a - 0x3000]
        } else {
            self.palette_value(a)
        }
    }

    /// A write to the PPU's address space: the pattern tables are not written, nametables go
    /// to the mapper's RAM `nt`, palettes to palette RAM.
    pub open spec fn mem_written(self, nt: Seq<u8>, addr: usize, val: u8) -> (PpuState, Seq<u8>) {
        let a = addr & 0x3FFF;
        if a <= 0x1FFF {
            (self, nt)
        } else if a <= 0x2FFF {
            (self, nt.update(a - 0x2000, val))
        } else if a <= 0x3EFF {
            (self, nt.update(a - 0x3000, val))
        } else {
            (self.palette_written(a, val), nt)
        }
    }

    /// PPUCTRL from the latch: nametable select (also into t), address increment, pattern
    /// tables, sprite size, NMI on vertical blank.
    pub open spec fn ctrl_written(self) -> PpuState {
        let val = self.io.latch;
        PpuState { regs: PpuRegs { nt_base_addr: if val & 3 == 0 {
                0x2000
            } else if val & 3 == 1 {
                0x2400
            } else if val & 3 == 2 {
                0x2800
            } else {
                0x2C00
            }, addr_increment: if val & 4 == 0 { 1 } else { 32 }, sp_pattern_table_addr: if val & 8 == 0 { 0 } else { 0x1000 }, bg_pattern_table_addr: if val & 0x10 == 0 { 0 } else { 0x1000 }, sp_size: if val & 0x20 == 0 { 8 } else { 16 }, nmi_on_vblank: val & 0x80 != 0, ..self.regs }, scroll: Scroll { temp_vram_addr: (self.scroll.temp_vram_addr & !0xC00usize) | (((val as usize) & 3) << 10usize), ..self.scroll }, ..self }
    }

    /// PPUMASK from the latch.
    pub open spec fn mask_written(self) -> PpuState {
        let val = self.io.latch;
        PpuState { regs: PpuRegs { greyscale: val & 1 != 0, bg_leftmost_8: val & 2 != 0, sp_leftmost_8: val & 4 != 0, show_bg: val & 8 != 0, show_sp: val & 0x10 != 0, emphasize_red: val & 0x20 != 0, emphasize_green: val & 0x40 != 0, emphasize_blue: val & 0x80 != 0, rendering_enabled: val & 8 != 0 || val & 0x10 != 0, ..self.regs }, ..self }
    }

    /// A read of PPUSTATUS: the latch takes the status, the vertical blank flag and the write
    /// toggle clear; a read on the dots around the start of the vertical blank races with it.
    pub open spec fn status_read(self, nmi: bool) -> (PpuState, bool) {
        let s = PpuState { scroll: Scroll { write_toggle: false, ..self.scroll }, io: PpuIo { latch: self.io.ppustatus, ppustatus: self.io.ppustatus & 0x7F, ..self.io }, ..self };
        if self.pos.scanline == 241 && (self.pos.xpos == 2 || self.pos.xpos == 3) {
            (PpuState { io: PpuIo { latch: self.io.ppustatus | 0x80, ..s.io }, ..s }, false)
        } else if self.pos.scanline == 241 && self.pos.xpos == 1 {
            (PpuState { io: PpuIo { latch: self.io.ppustatus & 0x7F, suppress_vbl: true, ..s.io }, ..s }, nmi)
        } else {
            (s, nmi)
        }
    }

    /// A read of OAMDATA: during rendering the byte sprite evaluation read, otherwise OAM.
    pub open spec fn oamdata_read(self) -> PpuState {
        if self.pos.scanline <= 239 && self.regs.rendering_enabled {
            PpuState { io: PpuIo { latch: self.io.oamdata_buffer, ..self.io }, ..self }
        } else {
            PpuState { io: PpuIo { latch: self.oam[self.io.oamaddr as int], ..self.io }, ..self }
        }
    }

    /// A write of OAMDATA: during rendering only the address moves on (by 4); otherwise the
    /// byte is stored (attribute bytes without their unused bits) and the address moves on.
    pub open spec fn oamdata_written(self) -> PpuState {
        if self.regs.rendering_enabled && (self.pos.scanline <= 239 || self.pos.scanline == 261) {
            PpuState { io: PpuIo { oamaddr: add8(self.io.oamaddr, 4), ..self.io }, ..self }
        } else {
            let val = if self.io.oamaddr & 3 == 2 { self.io.latch & 0xE3 } else { self.io.latch };
            PpuState { oam: self.oam.update(self.io.oamaddr as int, val), io: PpuIo { oamaddr: add8(self.io.oamaddr, 1), ..self.io }, ..self }
        }
    }

    /// A write of PPUSCROLL: coarse and fine X, then coarse and fine Y, into t and x.
    pub open spec fn scroll_written(self) -> PpuState {
        let val = self.io.latch;
        let s = if self.scroll.write_toggle {
            PpuState { scroll: Scroll { temp_vram_addr: (self.scroll.temp_vram_addr & !0x73E0usize) | (((val as usize) & 0xF8) << 2usize)
                    | (((val as usize) & 7) << 12usize), ..self.scroll }, ..self }
        } else {
            PpuState { scroll: Scroll { temp_vram_addr: (self.scroll.temp_vram_addr & !0x1Fusize) | ((val as usize) >> 3usize), x_fine_scroll: val & 7, ..self.scroll }, ..self }
        };
        PpuState { scroll: Scroll { write_toggle: !self.scroll.write_toggle, ..s.scroll }, ..s }
    }

    /// A write of PPUADDR: the high six bits, then the low byte, which also loads v from t.
    pub open spec fn addr_written(self) -> PpuState {
        let val = self.io.latch;
        let s = if self.scroll.write_toggle {
            let t = (self.scroll.temp_vram_addr & !0xFFusize) | (val as usize);
            PpuState { scroll: Scroll { temp_vram_addr: t, vram_addr: t, ..self.scroll }, ..self }
        } else {
            PpuState { scroll: Scroll { temp_vram_addr: (self.scroll.temp_vram_addr & !0xFF00usize) | (((val as usize) & 0x3F) << 8usize), ..self.scroll }, ..self }
        };
        PpuState { scroll: Scroll { write_toggle: !self.scroll.write_toggle, ..s.scroll }, ..s }
    }

    /// Coarse X moves to the next tile, crossing into the next horizontal nametable.
    pub open spec fn coarse_x_incremented(self) -> PpuState {
        let v = self.scroll.vram_addr;
        if v & 0x1F == 31 {
            PpuState { scroll: Scroll { vram_addr: (v & !0x1Fusize) ^ 0x400, ..self.scroll }, ..self }
        } else {
            PpuState { scroll: Scroll { vram_addr: add_addr(v, 1), ..self.scroll }, ..self }
        }
    }

    /// While rendering, fine Y moves to the next row, then coarse Y to the next tile row,
    /// crossing into the next vertical nametable after row 29.
    pub open spec fn y_incremented(self) -> PpuState {
        let v = self.scroll.vram_addr;
        if !self.regs.rendering_enabled {
            self
        } else if (v & 0x7000) != 0x7000 {
            PpuState { scroll: Scroll { vram_addr: add_addr(v, 0x1000), ..self.scroll }, ..self }
        } else {
            let v1 = v & !0x7000usize;
            let y = (v1 & 0x3E0) >> 5usize;
            let v2 = if y == 29 { v1 ^ 0x800 } else { v1 };
            let y2: usize = if y == 29 || y == 31 { 0 } else { (y + 1) as usize };
            PpuState { scroll: Scroll { vram_addr: (v2 & !0x3E0usize) | (y2 << 5usize), ..self.scroll }, ..self }
        }
    }

    /// The VRAM address after a PPUDATA access: during rendering on a visible line both
    /// increments happen, otherwise the address moves on by the increment.
    pub open spec fn data_advanced(self) -> PpuState {
        if self.regs.rendering_enabled && self.pos.scanline < 240 {
            self.coarse_x_incremented().y_incremented()
        } else {
            PpuState { scroll: Scroll { vram_addr: add_addr(self.scroll.vram_addr, self.regs.addr_increment), ..self.scroll }, ..self }
        }
    }

    /// A read of PPUDATA: the buffered byte, the buffer refilled; palettes are read at once,
    /// the buffer taking the nametable byte underneath.
    pub open spec fn ppudata_read(self, m: BaseMapper) -> PpuState {
        let v = self.scroll.vram_addr;
        let s = if (v & 0x3FFF) >= 0x3F00 {
            PpuState { io: PpuIo { latch: self.mem_read(m, v), read_buffer: m.nt_ram@[v - 0x3000], ..self.io }, ..self }
        } else {
            PpuState { io: PpuIo { latch: self.io.read_buffer, read_buffer: self.mem_read(m, v), ..self.io }, ..self }
        };
        s.data_advanced()
    }

    /// A write of PPUDATA: the latch goes to VRAM at v, which moves on.
    pub open spec fn ppudata_written(self, nt: Seq<u8>) -> (PpuState, Seq<u8>) {
        let (s, nt2) = self.mem_written(nt, self.scroll.vram_addr, self.io.latch);
        (s.data_advanced(), nt2)
    }

    /// A read of the register `addr & 7`; the value read is the latch afterwards.
    pub open spec fn reg_read(self, m: BaseMapper, addr: usize, nmi: bool) -> (PpuState, bool) {
        let r = addr & 7;
        if r == 2 {
            self.status_read(nmi)
        } else if r == 4 {
            (self.oamdata_read(), nmi)
        } else if r == 7 {
            (self.ppudata_read(m), nmi)
        } else {
            (self, nmi)
        }
    }

    /// A write of `val` to the register `addr & 7`: the latch takes it; PPUCTRL, PPUMASK,
    /// PPUSCROLL and PPUADDR ignore it until writes are enabled.
    pub open spec fn reg_written(self, nt: Seq<u8>, addr: usize, val: u8) -> (PpuState, Seq<u8>) {
        let s = PpuState { io: PpuIo { latch: val, ..self.io }, ..self };
        let r = addr & 7;
        if r == 0 && !s.regs.ignore_writes {
            (s.ctrl_written(), nt)
        } else if r == 1 && !s.regs.ignore_writes {
            (s.mask_written(), nt)
        } else if r == 3 {
            (PpuState { io: PpuIo { oamaddr: s.io.latch, ..s.io }, ..s }, nt)
        } else if r == 4 {
            (s.oamdata_written(), nt)
        } else if r == 5 && !s.regs.ignore_writes {
            (s.scroll_written(), nt)
        } else if r == 6 && !s.regs.ignore_writes {
            (s.addr_written(), nt)
        } else if r == 7 {
            s.ppudata_written(nt)
        } else {
            (s, nt)
        }
    }

    /// Background fetches on the dot `xpos` of an 8-dot tile: coarse X on 0, the nametable
    /// byte (with the shift registers loaded) on 1, the attribute bits on 3, the low and high
    /// pattern bytes on 5 and 7. Nothing while rendering is off.
    pub open spec fn bg_fetched(self, m: BaseMapper) -> PpuState {
        let v = self.scroll.vram_addr;
        let k = self.pos.xpos & 7;
        if !self.regs.rendering_enabled {
            self
        } else if k == 0 {
            self.coarse_x_incremented()
        } else if k == 1 {
            PpuState { bg: BgPipe { shift_low: self.bg.shift_low | (self.bg.tile_lb as u16), shift_high: self.bg.shift_high | (self.bg.tile_hb as u16), attr_table_byte: self.bg.next_attr_table_byte, nametable_byte: self.mem_read(m, nametable_addr(v)), ..self.bg }, ..self }
        } else if k == 3 {
            let shift = ((v >> 4usize) & 4) | (v & 2);
            PpuState { bg: BgPipe { next_attr_table_byte: ((self.mem_read(m, attr_table_addr(v)) >> shift) & 3) << 2u8, ..self.bg }, ..self }
        } else if k == 5 {
            let ta = ((self.bg.nametable_byte as usize) << 4usize) | (v >> 12usize) | self.regs.bg_pattern_table_addr;
            PpuState { bg: BgPipe { tile_addr: ta, tile_lb: self.mem_read(m, ta), ..self.bg }, ..self }
        } else if k == 7 {
            PpuState { bg: BgPipe { tile_hb: self.mem_read(m, add_addr(self.bg.tile_addr, 8)), ..self.bg }, ..self }
        } else {
            self
        }
    }

    /// The sprite `sprite_index` loaded from secondary OAM: position, flips, priority,
    /// palette, and the pattern address of its row on this line.
    pub open spec fn sprite_loaded(self) -> PpuState {
        let i = self.eval.sprite_index as int;
        let sa = 4 * i;
        let so = self.secondary_oam;
        let attributes = so[sa + 2];
        let vflip = attributes & 0x80 != 0;
        let sy = so[sa];
        let line: int = if self.pos.scanline == 261 { -1 } else { self.pos.scanline as int };
        let y_offset: int = if vflip { (self.regs.sp_size - 1) - (line - sy) } else { line - sy };
        let index = so[sa + 1];
        let pattern: u16 = if self.regs.sp_size == 8 {
            (self.regs.sp_pattern_table_addr as u16) | ((index as u16) << 4u16) | (y_offset as u16)
        } else {
            let y2: int = if y_offset >= 8 { y_offset + 8 } else { y_offset };
            let table: u16 = if index & 1 != 0 { 0x1000 } else { 0 };
            table | vstd::wrapping::u16_specs::wrapping_add(((index & 0xFE) as u16) << 4u16, y2 as u16)
        };
        let sprite = Sprite {
            y: sy,
            x: so[sa + 3],
            vertical_flip: vflip,
            horizontal_flip: attributes & 0x40 != 0,
            priority: attributes & 0x20 != 0,
            palette: ((attributes & 3) << 2u8) | 0x10,
            index: pattern,
            ..self.sprite_buffer[i]
        };
        PpuState { sprite_buffer: self.sprite_buffer.update(i, sprite), ..self }
    }

    /// Sprite fetches on the dots 257-320 (OAMADDR held at 0): the sprite loaded on step 3
    /// of each 8, its pattern bytes read on steps 4 and 6. Nothing while rendering is off.
    pub open spec fn sprites_fetched(self, m: BaseMapper) -> PpuState {
        let s = PpuState { io: PpuIo { oamaddr: 0, ..self.io }, ..self };
        let k = ((self.pos.xpos - 1) as u16) & 7;
        let i = self.eval.sprite_index as int;
        let sp = self.sprite_buffer[i];
        if !self.regs.rendering_enabled {
            self
        } else if k == 3 {
            s.sprite_loaded()
        } else if k == 4 {
            PpuState { sprite_buffer: s.sprite_buffer.update(i, Sprite { tile_low: s.mem_read(m, sp.index as usize), ..sp }), ..s }
        } else if k == 6 {
            PpuState { sprite_buffer: s.sprite_buffer.update(
                    i,
                    Sprite { tile_low: s.mem_read(m, (sp.index as usize + 8) as usize), ..sp },
                ), eval: SpriteEval { sprite_index: s.eval.sprite_index & 7, ..s.eval }, ..s }
        } else {
            s
        }
    }

    /// Whether the Y coordinate in the OAM buffer puts a sprite on this line.
    pub open spec fn buffered_sprite_in_range(self) -> bool {
        self.pos.scanline >= self.io.oamdata_buffer && self.pos.scanline < self.io.oamdata_buffer + self.regs.sp_size
    }

    /// One even dot of sprite evaluation: the step `sprite_eval_state` acts on the byte read.
    pub open spec fn eval_step(self) -> PpuState {
        let st = self.eval.sprite_eval_state;
        let n = self.eval.sprite_eval_count;
        let m = self.eval.sprite_fetch_step;
        let found = self.eval.sprites_found;
        if st == 1 {
            if found < 8 {
                let so = self.secondary_oam.update(4 * found, self.io.oamdata_buffer);
                if !self.buffered_sprite_in_range() {
                    PpuState { secondary_oam: so, eval: SpriteEval { sprite_in_range: false, sprite_eval_state: 2, ..self.eval }, ..self }
                } else {
                    PpuState { secondary_oam: so, eval: SpriteEval { sprite_in_range: true, sprite_fetch_step: 1, sprite_eval_state: 5, ..self.eval }, ..self }
                }
            } else {
                self
            }
        } else if st == 2 {
            let n2 = add8(n, 1);
            if n2 == 65 {
                PpuState { eval: SpriteEval { sprite_eval_count: 0, sprite_eval_state: 4, ..self.eval }, ..self }
            } else if found < 8 {
                PpuState { eval: SpriteEval { sprite_eval_count: n2, sprite_eval_state: 1, ..self.eval }, ..self }
            } else {
                PpuState { eval: SpriteEval { sprite_eval_count: n2, sprite_eval_state: 3, ..self.eval }, ..self }
            }
        } else if st == 3 {
            if self.buffered_sprite_in_range() {
                PpuState { io: PpuIo { ppustatus: self.io.ppustatus | 0x20, ..self.io }, eval: SpriteEval { sprite_fetch_step: 1, sprite_eval_state: 8, ..self.eval }, ..self }
            } else {
                let n2 = add8(n, 1);
                if n2 == 65 {
                    PpuState { eval: SpriteEval { sprite_eval_count: 0, sprite_fetch_step: add8(m, 1), sprite_eval_state: 4, ..self.eval }, ..self }
                } else {
                    PpuState { eval: SpriteEval { sprite_eval_count: n2, sprite_fetch_step: add8(m, 1), ..self.eval }, ..self }
                }
            }
        } else if st == 4 {
            PpuState { eval: SpriteEval { sprite_eval_count: add8(n, 1), ..self.eval }, ..self }
        } else if st == 5 {
            let so = self.secondary_oam.update(4 * found + m, self.io.oamdata_buffer);
            if m + 1 == 4 {
                PpuState { secondary_oam: so, eval: SpriteEval { sprite_fetch_step: 0, sprites_found: (found + 1) as u8, sprite_eval_state: 2, ..self.eval }, ..self }
            } else {
                PpuState { secondary_oam: so, eval: SpriteEval { sprite_fetch_step: (m + 1) as u8, ..self.eval }, ..self }
            }
        } else if st == 6 {
            let m2 = add8(m, 1);
            if m2 == 4 {
                PpuState { eval: SpriteEval { sprite_fetch_step: 0, sprite_eval_count: add8(n, 1), sprite_eval_state: 4, ..self.eval }, ..self }
            } else {
                PpuState { eval: SpriteEval { sprite_fetch_step: m2, ..self.eval }, ..self }
            }
        } else {
            self
        }
    }

    /// Sprite evaluation on a dot of 65-256: it starts over on dot 65; odd dots read OAM at
    /// OAMADDR, even dots run a step and point OAMADDR at the byte it wants next. Nothing
    /// while rendering is off.
    pub open spec fn sprite_evaluated(self) -> PpuState {
        let s = if self.pos.xpos == 65 {
            PpuState { io: PpuIo { oamdata_buffer: 0, ..self.io }, eval: SpriteEval { sprite_eval_count: 0, sprites_found: 0, sprite_fetch_step: 0, sprite_eval_state: 1, ..self.eval }, ..self }
        } else {
            self
        };
        if !self.regs.rendering_enabled {
            self
        } else if s.pos.xpos & 1 != 0 {
            PpuState { io: PpuIo { oamdata_buffer: s.oam[s.io.oamaddr as int], ..s.io }, ..s }
        } else {
            let s2 = s.eval_step();
            PpuState { io: PpuIo { oamaddr: oam_address(s2.eval.sprite_eval_count, s2.eval.sprite_fetch_step), ..s2.io }, ..s2 }
        }
    }

    /// The vertical blank: its flag (and the NMI, if enabled) on dot 1 of line 241 unless a
    /// status read suppressed it, the NMI line following the flag and the enable on every dot
    /// up to the end of line 260, where it drops.
    pub open spec fn vblank_handled(self, nmi: bool) -> (PpuState, bool) {
        let sl = self.pos.scanline;
        let x = self.pos.xpos;
        if sl == 241 && x == 0 {
            (self, nmi)
        } else if sl == 241 && x == 1 {
            let status = if !self.io.suppress_vbl { self.io.ppustatus | 0x80 } else { self.io.ppustatus };
            let s = PpuState { io: PpuIo { ppustatus: status, suppress_vbl: false, ..self.io }, ..self };
            (s, if self.regs.nmi_on_vblank && status & 0x80 != 0 { true } else { nmi })
        } else if sl == 260 && x == 340 {
            (self, false)
        } else if 241 <= sl <= 260 {
            let current = self.regs.nmi_on_vblank && (self.io.ppustatus & 0x80) != 0;
            let nmi2 = if self.io.prev_nmi && current {
                true
            } else if !self.io.prev_nmi {
                false
            } else {
                nmi
            };
            (PpuState { io: PpuIo { prev_nmi: current, ..self.io }, ..self }, nmi2)
        } else {
            (self, nmi)
        }
    }

    /// At dot 257: the horizontal bits of t go into v (while rendering).
    pub open spec fn horizontal_copied(self) -> PpuState {
        if self.regs.rendering_enabled {
            PpuState { scroll: Scroll { vram_addr: (self.scroll.vram_addr & !0x41Fusize) | (self.scroll.temp_vram_addr & 0x41F), ..self.scroll }, ..self }
        } else {
            self
        }
    }

    /// On dots 280-304 of the pre-render line: the vertical bits of t go into v (while
    /// rendering).
    pub open spec fn vertical_copied(self) -> PpuState {
        if self.regs.rendering_enabled {
            PpuState { scroll: Scroll { vram_addr: (self.scroll.vram_addr & !0x7BE0usize) | (self.scroll.temp_vram_addr & 0x7BE0), ..self.scroll }, ..self }
        } else {
            self
        }
    }

    /// The pattern shift registers move on by one pixel.
    pub open spec fn shifted(self) -> PpuState {
        PpuState { bg: BgPipe { shift_low: self.bg.shift_low << 1u16, shift_high: self.bg.shift_high << 1u16, ..self.bg }, ..self }
    }

    /// The background palette entry of the current pixel: attribute bits, then the high and
    /// low pattern bits at the fine X position.
    pub open spec fn bg_color(self) -> usize {
        let h = ((self.bg.shift_high << (self.scroll.x_fine_scroll as u16)) & 0x8000) >> 14u16;
        let l = ((self.bg.shift_low << (self.scroll.x_fine_scroll as u16)) & 0x8000) >> 15u16;
        ((self.bg.attr_table_byte as u16) | h | l) as usize
    }

    /// The palette entry of the current pixel: with rendering off and v in palette RAM, the
    /// entry v points at; otherwise the background's, or the backdrop when it is hidden.
    pub open spec fn pixel_color(self) -> usize {
        if !self.regs.rendering_enabled && (self.scroll.vram_addr & 0x3F00) == 0x3F00 {
            self.scroll.vram_addr & 0x1F
        } else if self.regs.show_bg {
            self.bg_color()
        } else {
            0
        }
    }

    /// The current pixel drawn into the frame.
    pub open spec fn pixel_drawn(self) -> PpuState {
        let addr = self.pos.scanline * 256 + self.pos.xpos - 1;
        PpuState { output_buffer: self.output_buffer.update(addr, self.palette_value(self.pixel_color())), ..self }
    }

    /// The work of the current dot, by line: the pre-render line (261), the visible lines
    /// (0-239), the post-render line (240) and the vertical blank (241-260).
    pub open spec fn scanline_ticked(self, m: BaseMapper, nmi: bool) -> (PpuState, bool) {
        let x = self.pos.xpos;
        let sl = self.pos.scanline;
        if sl == 261 {
            if x == 1 {
                (PpuState { io: PpuIo { ppustatus: self.io.ppustatus & 0x7F, ..self.io }, ..self }.bg_fetched(m), nmi)
            } else if 2 <= x <= 256 {
                let s = self.bg_fetched(m);
                (if x == 256 { s.y_incremented() } else { s }, nmi)
            } else if x == 257 {
                (self.horizontal_copied().sprites_fetched(m), nmi)
            } else if 258 <= x <= 279 {
                (self.sprites_fetched(m), nmi)
            } else if 280 <= x <= 304 {
                (self.vertical_copied().sprites_fetched(m), nmi)
            } else if 305 <= x <= 320 {
                (self.sprites_fetched(m), nmi)
            } else if x == 321 {
                (self.bg_fetched(m), nmi)
            } else if 322 <= x <= 337 {
                (self.shifted().bg_fetched(m), nmi)
            } else if x == 339 {
                let s = PpuState { pos: Position { frame_ready: true, ..self.pos }, ..self };
                let s2 = if self.pos.odd_frame && self.regs.rendering_enabled {
                    PpuState { pos: Position { scanline: 0, xpos: 0, ..s.pos }, ..s }
                } else {
                    s
                };
                (PpuState { pos: Position { odd_frame: !self.pos.odd_frame, ..s2.pos }, ..s2 }, nmi)
            } else {
                (self, nmi)
            }
        } else if sl <= 239 {
            if x == 1 {
                let s = self.bg_fetched(m).pixel_drawn();
                (PpuState { secondary_oam: Seq::new(0x20, |_i: int| 0xFFu8), ..s }, nmi)
            } else if 2 <= x <= 256 {
                let s = self.shifted().bg_fetched(m);
                let s2 = if x == 256 {
                    s.y_incremented().sprite_evaluated()
                } else if x >= 65 {
                    s.sprite_evaluated()
                } else {
                    s
                };
                (s2.pixel_drawn(), nmi)
            } else if x == 257 {
                (self.horizontal_copied().shifted().sprites_fetched(m), nmi)
            } else if 258 <= x <= 320 {
                (self.sprites_fetched(m), nmi)
            } else if x == 321 {
                (self.bg_fetched(m), nmi)
            } else if 322 <= x <= 337 {
                (self.shifted().bg_fetched(m), nmi)
            } else {
                (self, nmi)
            }
        } else if 241 <= sl <= 260 {
            self.vblank_handled(nmi)
        } else {
            (self, nmi)
        }
    }

    /// One dot: its work, then the next dot (341 dots a line, 262 lines a frame).
    pub open spec fn ticked(self, m: BaseMapper, nmi: bool) -> (PpuState, bool) {
        let (s, nmi2) = self.scanline_ticked(m, nmi);
        let x = s.pos.xpos + 1;
        if x > 340 {
            let sl = s.pos.scanline + 1;
            (PpuState { pos: Position { xpos: 0, scanline: if sl > 261 { 0 } else { sl as u16 }, ..s.pos }, ..s }, nmi2)
        } else {
            (PpuState { pos: Position { xpos: x as u16, ..s.pos }, ..s }, nmi2)
        }
    }
}

/// The dot after `(xpos, scanline)`: 341 dots a line, 262 lines a frame.
pub open spec fn next_dot(xpos: u16, scanline: u16) -> (u16, u16) {
    if xpos + 1 > 340 {
        (0, if scanline + 1 > 261 { 0 } else { (scanline + 1) as u16 })
    } else {
        ((xpos + 1) as u16, scanline)
    }
}

/// Each dot moves the PPU on to the next dot, except that on odd frames with rendering on the
/// last dot of the pre-render line is skipped: dot 339 of line 261 goes on to dot 1 of line 0.
pub proof fn lemma_dot_advance(s: PpuState, m: BaseMapper, nmi: bool)
    requires
        s.wf(),
    ensures
        ({
            let (s2, _n) = s.ticked(m, nmi);
            if s.pos.scanline == 261 && s.pos.xpos == 339 && s.pos.odd_frame && s.regs.rendering_enabled {
                s2.pos.xpos == 1 && s2.pos.scanline == 0
            } else {
                (s2.pos.xpos, s2.pos.scanline) == next_dot(s.pos.xpos, s.pos.scanline)
            }
        }),
{
}

/// Two writes to PPUADDR, the first with the write toggle clear, load v with the address
/// they spell (the high six bits from the first, the low byte from the second) and leave the
/// toggle clear; nametable RAM is untouched.
pub proof fn lemma_ppuaddr_writes(s: PpuState, nt: Seq<u8>, hi: u8, lo: u8)
    requires
        s.wf(),
        !s.regs.ignore_writes,
        !s.scroll.write_toggle,
    ensures
        ({
            let (s1, nt1) = s.reg_written(nt, 0x2006, hi);
            let (s2, nt2) = s1.reg_written(nt1, 0x2006, lo);
            &&& s2.scroll.vram_addr == ((((hi as usize) & 0x3F) << 8usize) | (lo as usize))
            &&& !s2.scroll.write_toggle
            &&& nt2 == nt
        }),
{
    lemma_ppu_bits();
    let t = s.scroll.temp_vram_addr;
    let h = hi as usize;
    let l = lo as usize;
    assert(((((t & !0xFF00usize) | ((h & 0x3F) << 8usize)) & !0xFFusize) | l) == (((h & 0x3F) << 8usize) | l));
}

/// A read of PPUSTATUS clears the vertical blank flag and the write toggle; the rest of the
/// status stays.
pub proof fn lemma_status_read_clears_vblank(s: PpuState, m: BaseMapper, nmi: bool)
    ensures
        ({
            let (s2, _n) = s.reg_read(m, 0x2002, nmi);
            &&& s2.io.ppustatus == s.io.ppustatus & 0x7F
            &&& s2.io.ppustatus & 0x80 == 0
            &&& !s2.scroll.write_toggle
        }),
{
    lemma_ppu_bits();
    assert((s.io.ppustatus & 0x7F) & 0x80 == 0);
}

/// On dot 1 of line 241 the vertical blank starts: unless a status read suppressed it, its
/// flag is set, and with NMIs enabled the NMI line goes up.
pub proof fn lemma_vblank_starts(s: PpuState, m: BaseMapper, nmi: bool)
    requires
        s.pos.scanline == 241,
        s.pos.xpos == 1,
        !s.io.suppress_vbl,
    ensures
        ({
            let (s2, n2) = s.ticked(m, nmi);
            &&& s2.io.ppustatus & 0x80 != 0
            &&& s.regs.nmi_on_vblank ==> n2
        }),
{
    lemma_ppu_bits();
    assert((s.io.ppustatus | 0x80) & 0x80 != 0);
}

/// The 64 colours of the NES NTSC palette, as (red, green, blue), by palette index.
pub open spec fn ntsc_palette() -> Seq<(u8, u8, u8)> {
    seq![
        (0x7Cu8, 0x7Cu8, 0x7Cu8),
        (0x00u8, 0x00u8, 0xFCu8),
        (0x00u8, 0x00u8, 0xBCu8),
        (0x44u8, 0x28u8, 0xBCu8),
        (0x94u8, 0x00u8, 0x84u8),
        (0xA8u8, 0x00u8, 0x20u8),
        (0xA8u8, 0x10u8, 0x00u8),
        (0x88u8, 0x14u8, 0x00u8),
        (0x50u8, 0x30u8, 0x00u8),
        (0x00u8, 0x78u8, 0x00u8),
        (0x00u8, 0x68u8, 0x00u8),
        (0x00u8, 0x58u8, 0x00u8),
        (0x00u8, 0x40u8, 0x58u8),
        (0x00u8, 0x00u8, 0x00u8),
        (0x00u8, 0x00u8, 0x00u8),
        (0x00u8, 0x00u8, 0x00u8),
        (0xBCu8, 0xBCu8, 0xBCu8),
        (0x00u8, 0x78u8, 0xF8u8),
        (0x00u8, 0x58u8, 0xF8u8),
        (0x68u8, 0x44u8, 0xFCu8),
        (0xD8u8, 0x00u8, 0xCCu8),
        (0xE4u8, 0x00u8, 0x58u8),
        (0xF8u8, 0x38u8, 0x00u8),
        (0xE4u8, 0x5Cu8, 0x10u8),
        (0xACu8, 0x7Cu8, 0x00u8),
        (0x00u8, 0xB8u8, 0x00u8),
        (0x00u8, 0xA8u8, 0x00u8),
        (0x00u8, 0xA8u8, 0x44u8),
        (0x00u8, 0x88u8, 0x88u8),
        (0x00u8, 0x00u8, 0x00u8),
        (0x00u8, 0x00u8, 0x00u8),
        (0x00u8, 0x00u8, 0x00u8),
        (0xF8u8, 0xF8u8, 0xF8u8),
        (0x3Cu8, 0xBCu8, 0xFCu8),
        (0x68u8, 0x88u8, 0xFCu8),
        (0x98u8, 0x78u8, 0xF8u8),
        (0xF8u8, 0x78u8, 0xF8u8),
        (0xF8u8, 0x58u8, 0x98u8),
        (0xF8u8, 0x78u8, 0x58u8),
        (0xFCu8, 0xA0u8, 0x44u8),
        (0xF8u8, 0xB8u8, 0x00u8),
        (0xB8u8, 0xF8u8, 0x18u8),
        (0x58u8, 0xD8u8, 0x54u8),
        (0x58u8, 0xF8u8, 0x98u8),
        (0x00u8, 0xE8u8, 0xD8u8),
        (0x78u8, 0x78u8, 0x78u8),
        (0x00u8, 0x00u8, 0x00u8),
        (0x00u8, 0x00u8, 0x00u8),
        (0xFCu8, 0xFCu8, 0xFCu8),
        (0xA4u8, 0xE4u8, 0xFCu8),
        (0xB8u8, 0xB8u8, 0xF8u8),
        (0xD8u8, 0xB8u8, 0xF8u8),
        (0xF8u8, 0xB8u8, 0xF8u8),
        (0xF8u8, 0xA4u8, 0xC0u8),
        (0xF0u8, 0xD0u8, 0xB0u8),
        (0xFCu8, 0xE0u8, 0xA8u8),
        (0xF8u8, 0xD8u8, 0x78u8),
        (0xD8u8, 0xF8u8, 0x78u8),
        (0xB8u8, 0xF8u8, 0xB8u8),
        (0xB8u8, 0xF8u8, 0xD8u8),
        (0x00u8, 0xFCu8, 0xFCu8),
        (0xF8u8, 0xD8u8, 0xF8u8),
        (0x00u8, 0x00u8, 0x00u8),
        (0x00u8, 0x00u8, 0x00u8),
    ]
}

/// `palette_rgb` gives, for each of the 64 palette indices, the colour of the NTSC palette.
pub proof fn lemma_palette_rgb_is_ntsc()
    ensures
        ntsc_palette().len() == 64,
        forall|i: u8| i < 64 ==> #[trigger] palette_rgb_spec(i) == ntsc_palette()[i as int],
{
    let t = ntsc_palette();
    assert(t.len() == 64);
    assert(palette_rgb_spec(0) == t[0]);
    assert(palette_rgb_spec(1) == t[1]);
    assert(palette_rgb_spec(2) == t[2]);
    assert(palette_rgb_spec(3) == t[3]);
    assert(palette_rgb_spec(4) == t[4]);
    assert(palette_rgb_spec(5) == t[5]);
    assert(palette_rgb_spec(6) == t[6]);
    assert(palette_rgb_spec(7) == t[7]);
    assert(palette_rgb_spec(8) == t[8]);
    assert(palette_rgb_spec(9) == t[9]);
    assert(palette_rgb_spec(10) == t[10]);
    assert(palette_rgb_spec(11) == t[11]);
    assert(palette_rgb_spec(12) == t[12]);
    assert(palette_rgb_spec(13) == t[13]);
    assert(palette_rgb_spec(14) == t[14]);
    assert(palette_rgb_spec(15) == t[15]);
    assert(palette_rgb_spec(16) == t[16]);
    assert(palette_rgb_spec(17) == t[17]);
    assert(palette_rgb_spec(18) == t[18]);
    assert(palette_rgb_spec(19) == t[19]);
    assert(palette_rgb_spec(20) == t[20]);
    assert(palette_rgb_spec(21) == t[21]);
    assert(palette_rgb_spec(22) == t[22]);
    assert(palette_rgb_spec(23) == t[23]);
    assert(palette_rgb_spec(24) == t[24]);
    assert(palette_rgb_spec(25) == t[25]);
    assert(palette_rgb_spec(26) == t[26]);
    assert(palette_rgb_spec(27) == t[27]);
    assert(palette_rgb_spec(28) == t[28]);
    assert(palette_rgb_spec(29) == t[29]);
    assert(palette_rgb_spec(30) == t[30]);
    assert(palette_rgb_spec(31) == t[31]);
    assert(palette_rgb_spec(32) == t[32]);
    assert(palette_rgb_spec(33) == t[33]);
    assert(palette_rgb_spec(34) == t[34]);
    assert(palette_rgb_spec(35) == t[35]);
    assert(palette_rgb_spec(36) == t[36]);
    assert(palette_rgb_spec(37) == t[37]);
    assert(palette_rgb_spec(38) == t[38]);
    assert(palette_rgb_spec(39) == t[39]);
    assert(palette_rgb_spec(40) == t[40]);
    assert(palette_rgb_spec(41) == t[41]);
    assert(palette_rgb_spec(42) == t[42]);
    assert(palette_rgb_spec(43) == t[43]);
    assert(palette_rgb_spec(44) == t[44]);
    assert(palette_rgb_spec(45) == t[45]);
    assert(palette_rgb_spec(46) == t[46]);
    assert(palette_rgb_spec(47) == t[47]);
    assert(palette_rgb_spec(48) == t[48]);
    assert(palette_rgb_spec(49) == t[49]);
    assert(palette_rgb_spec(50) == t[50]);
    assert(palette_rgb_spec(51) == t[51]);
    assert(palette_rgb_spec(52) == t[52]);
    assert(palette_rgb_spec(53) == t[53]);
    assert(palette_rgb_spec(54) == t[54]);
    assert(palette_rgb_spec(55) == t[55]);
    assert(palette_rgb_spec(56) == t[56]);
    assert(palette_rgb_spec(57) == t[57]);
    assert(palette_rgb_spec(58) == t[58]);
    assert(palette_rgb_spec(59) == t[59]);
    assert(palette_rgb_spec(60) == t[60]);
    assert(palette_rgb_spec(61) == t[61]);
    assert(palette_rgb_spec(62) == t[62]);
    assert(palette_rgb_spec(63) == t[63]);
    assert forall|i: u8| i < 64 implies #[trigger] palette_rgb_spec(i) == ntsc_palette()[i as int] by {
        assert(palette_rgb_spec(i) == t[i as int]);
    }
}

/// The fine Y scroll of a VRAM address: bits 12-14.
pub open spec fn fine_y(v: usize) -> usize {
    (v >> 12usize) & 7
}

/// The coarse Y scroll of a VRAM address: bits 5-9.
pub open spec fn coarse_y(v: usize) -> usize {
    (v >> 5usize) & 31
}

/// The vertical nametable select of a VRAM address: bit 11.
pub open spec fn nametable_y(v: usize) -> usize {
    (v >> 11usize) & 1
}

/// The bits of a VRAM address that a Y increment leaves alone: coarse X, the horizontal
/// nametable select and the bits above 14.
pub open spec fn y_untouched(v: usize) -> usize {
    v & !0x7BE0usize
}

proof fn lemma_y_increment_bits()
    by (bit_vector)
    ensures
        forall|v: usize|
            #![trigger fine_y(v)]
            fine_y(v) < 7 ==> {
                let r = (v + 0x1000) as usize;
                &&& fine_y(r) == fine_y(v) + 1
                &&& coarse_y(r) == coarse_y(v)
                &&& nametable_y(r) == nametable_y(v)
                &&& y_untouched(r) == y_untouched(v)
            },
        forall|v: usize|
            #![trigger fine_y(v)]
            fine_y(v) == 7 ==> {
                let v1 = v & !0x7000usize;
                let y = (v1 & 0x3E0) >> 5usize;
                &&& y == coarse_y(v)
                &&& (y == 29 ==> {
                    let r = ((v1 ^ 0x800) & !0x3E0usize) | (0usize << 5usize);
                    &&& fine_y(r) == 0
                    &&& coarse_y(r) == 0
                    &&& nametable_y(r) == 1 - nametable_y(v)
                    &&& y_untouched(r) == y_untouched(v)
                })
                &&& (y == 31 ==> {
                    let r = (v1 & !0x3E0usize) | (0usize << 5usize);
                    &&& fine_y(r) == 0
                    &&& coarse_y(r) == 0
                    &&& nametable_y(r) == nametable_y(v)
                    &&& y_untouched(r) == y_untouched(v)
                })
                &&& (y != 29 && y != 31 ==> {
                    let r = (v1 & !0x3E0usize) | (((y + 1) as usize) << 5usize);
                    &&& fine_y(r) == 0
                    &&& coarse_y(r) == coarse_y(v) + 1
                    &&& nametable_y(r) == nametable_y(v)
                    &&& y_untouched(r) == y_untouched(v)
                })
            },
{
}

/// A Y increment while rendering moves v down one pixel row: fine Y counts up to 7; from 7 it
/// wraps to 0 and coarse Y counts up, except that from row 29 coarse Y wraps to 0 and the
/// vertical nametable switches, and from row 31 (outside the nametable) it wraps to 0 without
/// switching. Coarse X, the horizontal nametable and the rest of the PPU stay; with rendering
/// off nothing changes.
pub proof fn lemma_y_increment(s: PpuState)
    ensures
        ({
            let v = s.scroll.vram_addr;
            let n = s.y_incremented();
            let r = n.scroll.vram_addr;
            &&& n == PpuState { scroll: Scroll { vram_addr: r, ..s.scroll }, ..s }
            &&& !s.regs.rendering_enabled ==> r == v
            &&& s.regs.rendering_enabled && fine_y(v) < 7 ==> fine_y(r) == fine_y(v) + 1 && coarse_y(r)
                == coarse_y(v) && nametable_y(r) == nametable_y(v) && y_untouched(r) == y_untouched(v)
            &&& s.regs.rendering_enabled && fine_y(v) == 7 && coarse_y(v) == 29 ==> fine_y(r) == 0
                && coarse_y(r) == 0 && nametable_y(r) == 1 - nametable_y(v) && y_untouched(r) == y_untouched(v)
            &&& s.regs.rendering_enabled && fine_y(v) == 7 && coarse_y(v) == 31 ==> fine_y(r) == 0
                && coarse_y(r) == 0 && nametable_y(r) == nametable_y(v) && y_untouched(r) == y_untouched(v)
            &&& s.regs.rendering_enabled && fine_y(v) == 7 && coarse_y(v) != 29 && coarse_y(v) != 31
                ==> fine_y(r) == 0 && coarse_y(r) == coarse_y(v) + 1 && nametable_y(r) == nametable_y(v)
                && y_untouched(r) == y_untouched(v)
        }),
{
    let v = s.scroll.vram_addr;
    lemma_y_increment_bits();
    lemma_ppu_bits();
    assert(fine_y(v) == fine_y(v));
    if s.regs.rendering_enabled && (v & 0x7000) != 0x7000 {
        assert((v & 0x7000) != 0x7000 ==> fine_y(v) < 7 && v + 0x1000 == ((v + 0x1000) as usize))
            by (bit_vector);
        assert(add_addr(v, 0x1000) == (v + 0x1000) as usize);
    } else if s.regs.rendering_enabled {
        assert((v & 0x7000) == 0x7000 ==> fine_y(v) == 7) by (bit_vector);
    }
}

/// A PPUDATA read of v in palette RAM also reads the nametable byte underneath, which has to
/// lie in the 4 KB of nametable RAM.
pub open spec fn ppudata_read_ok(s: PpuState) -> bool {
    (s.scroll.vram_addr & 0x3FFF) >= 0x3F00 ==> s.scroll.vram_addr < 0x4000
}

/// The RGB colour of the palette index `index` (64 colours of the NTSC palette).
pub open spec fn palette_rgb_spec(index: u8) -> (u8, u8, u8) {
    match index {
        0 => (0x7C, 0x7C, 0x7C),
        1 => (0x00, 0x00, 0xFC),
        2 => (0x00, 0x00, 0xBC),
        3 => (0x44, 0x28, 0xBC),
        4 => (0x94, 0x00, 0x84),
        5 => (0xA8, 0x00, 0x20),
        6 => (0xA8, 0x10, 0x00),
        7 => (0x88, 0x14, 0x00),
        8 => (0x50, 0x30, 0x00),
        9 => (0x00, 0x78, 0x00),
        10 => (0x00, 0x68, 0x00),
        11 => (0x00, 0x58, 0x00),
        12 => (0x00, 0x40, 0x58),
        13 => (0x00, 0x00, 0x00),
        14 => (0x00, 0x00, 0x00),
        15 => (0x00, 0x00, 0x00),
        16 => (0xBC, 0xBC, 0xBC),
        17 => (0x00, 0x78, 0xF8),
        18 => (0x00, 0x58, 0xF8),
        19 => (0x68, 0x44, 0xFC),
        20 => (0xD8, 0x00, 0xCC),
        21 => (0xE4, 0x00, 0x58),
        22 => (0xF8, 0x38, 0x00),
        23 => (0xE4, 0x5C, 0x10),
        24 => (0xAC, 0x7C, 0x00),
        25 => (0x00, 0xB8, 0x00),
        26 => (0x00, 0xA8, 0x00),
        27 => (0x00, 0xA8, 0x44),
        28 => (0x00, 0x88, 0x88),
        29 => (0x00, 0x00, 0x00),
        30 => (0x00, 0x00, 0x00),
        31 => (0x00, 0x00, 0x00),
        32 => (0xF8, 0xF8, 0xF8),
        33 => (0x3C, 0xBC, 0xFC),
        34 => (0x68, 0x88, 0xFC),
        35 => (0x98, 0x78, 0xF8),
        36 => (0xF8, 0x78, 0xF8),
        37 => (0xF8, 0x58, 0x98),
        38 => (0xF8, 0x78, 0x58),
        39 => (0xFC, 0xA0, 0x44),
        40 => (0xF8, 0xB8, 0x00),
        41 => (0xB8, 0xF8, 0x18),
        42 => (0x58, 0xD8, 0x54),
        43 => (0x58, 0xF8, 0x98),
        44 => (0x00, 0xE8, 0xD8),
        45 => (0x78, 0x78, 0x78),
        46 => (0x00, 0x00, 0x00),
        47 => (0x00, 0x00, 0x00),
        48 => (0xFC, 0xFC, 0xFC),
        49 => (0xA4, 0xE4, 0xFC),
        50 => (0xB8, 0xB8, 0xF8),
        51 => (0xD8, 0xB8, 0xF8),
        52 => (0xF8, 0xB8, 0xF8),
        53 => (0xF8, 0xA4, 0xC0),
        54 => (0xF0, 0xD0, 0xB0),
        55 => (0xFC, 0xE0, 0xA8),
        56 => (0xF8, 0xD8, 0x78),
        57 => (0xD8, 0xF8, 0x78),
        58 => (0xB8, 0xF8, 0xB8),
        59 => (0xB8, 0xF8, 0xD8),
        60 => (0x00, 0xFC, 0xFC),
        61 => (0xF8, 0xD8, 0xF8),
        62 => (0x00, 0x00, 0x00),
        _ => (0x00, 0x00, 0x00),
    }
}

/// The RGB colour of the palette index `index`.
pub fn palette_rgb(index: u8) -> (r: (u8, u8, u8))
    ensures
        r == palette_rgb_spec(index),
{
    match index {
            0 => (0x7C, 0x7C, 0x7C),
            1 => (0x00, 0x00, 0xFC),
            2 => (0x00, 0x00, 0xBC),
            3 => (0x44, 0x28, 0xBC),
            4 => (0x94, 0x00, 0x84),
            5 => (0xA8, 0x00, 0x20),
            6 => (0xA8, 0x10, 0x00),
            7 => (0x88, 0x14, 0x00),
            8 => (0x50, 0x30, 0x00),
            9 => (0x00, 0x78, 0x00),
            10 => (0x00, 0x68, 0x00),
            11 => (0x00, 0x58, 0x00),
            12 => (0x00, 0x40, 0x58),
            13 => (0x00, 0x00, 0x00),
            14 => (0x00, 0x00, 0x00),
            15 => (0x00, 0x00, 0x00),
            16 => (0xBC, 0xBC, 0xBC),
            17 => (0x00, 0x78, 0xF8),
            18 => (0x00, 0x58, 0xF8),
            19 => (0x68, 0x44, 0xFC),
            20 => (0xD8, 0x00, 0xCC),
            21 => (0xE4, 0x00, 0x58),
            22 => (0xF8, 0x38, 0x00),
            23 => (0xE4, 0x5C, 0x10),
            24 => (0xAC, 0x7C, 0x00),
            25 => (0x00, 0xB8, 0x00),
            26 => (0x00, 0xA8, 0x00),
            27 => (0x00, 0xA8, 0x44),
            28 => (0x00, 0x88, 0x88),
            29 => (0x00, 0x00, 0x00),
            30 => (0x00, 0x00, 0x00),
            31 => (0x00, 0x00, 0x00),
            32 => (0xF8, 0xF8, 0xF8),
            33 => (0x3C, 0xBC, 0xFC),
            34 => (0x68, 0x88, 0xFC),
            35 => (0x98, 0x78, 0xF8),
            36 => (0xF8, 0x78, 0xF8),
            37 => (0xF8, 0x58, 0x98),
            38 => (0xF8, 0x78, 0x58),
            39 => (0xFC, 0xA0, 0x44),
            40 => (0xF8, 0xB8, 0x00),
            41 => (0xB8, 0xF8, 0x18),
            42 => (0x58, 0xD8, 0x54),
            43 => (0x58, 0xF8, 0x98),
            44 => (0x00, 0xE8, 0xD8),
            45 => (0x78, 0x78, 0x78),
            46 => (0x00, 0x00, 0x00),
            47 => (0x00, 0x00, 0x00),
            48 => (0xFC, 0xFC, 0xFC),
            49 => (0xA4, 0xE4, 0xFC),
            50 => (0xB8, 0xB8, 0xF8),
            51 => (0xD8, 0xB8, 0xF8),
            52 => (0xF8, 0xB8, 0xF8),
            53 => (0xF8, 0xA4, 0xC0),
            54 => (0xF0, 0xD0, 0xB0),
            55 => (0xFC, 0xE0, 0xA8),
            56 => (0xF8, 0xD8, 0x78),
            57 => (0xD8, 0xF8, 0x78),
            58 => (0xB8, 0xF8, 0xB8),
            59 => (0xB8, 0xF8, 0xD8),
            60 => (0x00, 0xFC, 0xFC),
            61 => (0xF8, 0xD8, 0xF8),
            62 => (0x00, 0x00, 0x00),
            _ => (0x00, 0x00, 0x00),
    }
}

/// A byte vector of `n` copies of `v`.
fn filled(n: usize, v: u8) -> (r: Vec<u8>)
    ensures
        r@ == Seq::new(n as nat, |_i: int| v),
{
    let mut r: Vec<u8> = Vec::new();
    let mut i: usize = 0;
    while i < n
        invariant
            i <= n,
            r@ == Seq::new(i as nat, |_i: int| v),
        decreases n - i,
    {
        r.push(v);
        i += 1;
        assert(r@ =~= Seq::new(i as nat, |_i: int| v));
    }
    r
}

impl Ppu {
    /// The invariant (see `PpuState::wf`).
    pub open spec fn wf(&self) -> bool {
        self@.wf()
    }

    /// The PPU at power-up.
    pub fn new() -> (r: Ppu)
        ensures
            r.wf(),
            r@ == PpuState::power_on(),
    {
        let mut palettes: Vec<u8> = Vec::new();
        palettes.push(0x09);
        palettes.push(0x01);
        palettes.push(0x00);
        palettes.push(0x01);
        palettes.push(0x00);
        palettes.push(0x02);
        palettes.push(0x02);
        palettes.push(0x0D);
        palettes.push(0x08);
        palettes.push(0x10);
        palettes.push(0x08);
        palettes.push(0x24);
        palettes.push(0x00);
        palettes.push(0x00);
        palettes.push(0x04);
        palettes.push(0x2C);
        palettes.push(0x09);
        palettes.push(0x01);
        palettes.push(0x34);
        palettes.push(0x03);
        palettes.push(0x00);
        palettes.push(0x04);
        palettes.push(0x00);
        palettes.push(0x14);
        palettes.push(0x08);
        palettes.push(0x3A);
        palettes.push(0x00);
        palettes.push(0x02);
        palettes.push(0x00);
        palettes.push(0x20);
        palettes.push(0x2C);
        palettes.push(0x08);
        let mut sprite_buffer: Vec<Sprite> = Vec::new();
        let mut i: usize = 0;
        while i < 8
            invariant
                i <= 8,
                sprite_buffer@ == Seq::new(i as nat, |_i: int| Sprite::cleared()),
            decreases 8 - i,
        {
            sprite_buffer.push(Sprite::new());
            i += 1;
            assert(sprite_buffer@ =~= Seq::new(i as nat, |_i: int| Sprite::cleared()));
        }
        let r = Ppu { output_buffer: filled(FRAME_PIXELS, 0), oam: filled(0x100, 0), secondary_oam: filled(0x20, 0), palettes: palettes, sprite_buffer: sprite_buffer, regs: PpuRegs { ignore_writes: true, nt_base_addr: 0x2000, addr_increment: 1, sp_pattern_table_addr: 0, bg_pattern_table_addr: 0, sp_size: 8, nmi_on_vblank: false, greyscale: false, bg_leftmost_8: false, sp_leftmost_8: false, show_bg: false, show_sp: false, rendering_enabled: false, emphasize_red: false, emphasize_green: false, emphasize_blue: false }, scroll: Scroll { vram_addr: 0, temp_vram_addr: 0, x_fine_scroll: 0, write_toggle: false }, io: PpuIo { prev_nmi: false, oamdata_buffer: 0, suppress_vbl: false, ppustatus: 0, oamaddr: 0, latch: 0, read_buffer: 0 }, eval: SpriteEval { sprite_eval_count: 0, sprite_eval_state: 1, sprite_fetch_step: 0, sprite_in_range: false, sprites_found: 0, sprite_index: 0 }, bg: BgPipe { nametable_byte: 0, attr_table_byte: 0, next_attr_table_byte: 0, tile_addr: 0, tile_lb: 0, tile_hb: 0, shift_low: 0, shift_high: 0 }, pos: Position { frame_ready: false, xpos: 0, scanline: 0, odd_frame: false } };
        assert(r@.palettes =~= power_on_palettes());
        assert(r@ =~= PpuState::power_on());
        r
    }

    /// The frame drawn so far, as RGB colours, row by row.
    pub fn frame_rgb(&self) -> (r: Vec<(u8, u8, u8)>)
        requires
            self.wf(),
        ensures
            r@.len() == FRAME_PIXELS,
            forall|i: int| 0 <= i < FRAME_PIXELS ==> #[trigger] r@[i] == palette_rgb_spec(self@.output_buffer[i]),
    {
        let mut r: Vec<(u8, u8, u8)> = Vec::new();
        let mut i: usize = 0;
        while i < FRAME_PIXELS
            invariant
                self.wf(),
                i <= FRAME_PIXELS,
                r@.len() == i,
                forall|j: int| 0 <= j < i ==> #[trigger] r@[j] == palette_rgb_spec(self@.output_buffer[j]),
            decreases FRAME_PIXELS - i,
        {
            r.push(palette_rgb(self.output_buffer[i]));
            i += 1;
        }
        r
    }

    /// From now on the control, mask, scroll and address registers take writes.
    pub fn enable_writes(&mut self)
        ensures
            final(self)@ == (PpuState { regs: PpuRegs { ignore_writes: false, ..old(self)@.regs }, ..old(self)@ }),
    {
        self.regs.ignore_writes = false;
    }

    fn palette_write(&mut self, addr: usize, val: u8)
        requires
            old(self).wf(),
        ensures
            final(self).wf(),
            final(self)@ == old(self)@.palette_written(addr, val),
    {
        proof {
            lemma_ppu_bits();
        }
        let a = addr & 0x1F;
        let v = val & 0x3F;
        if a == 0 || a == 0x10 {
            self.palettes.set(0, v);
            self.palettes.set(0x10, v);
        } else if a == 4 || a == 0x14 {
            self.palettes.set(4, v);
            self.palettes.set(0x14, v);
        } else if a == 8 || a == 0x18 {
            self.palettes.set(8, v);
            self.palettes.set(0x18, v);
        } else if a == 0xC || a == 0x1C {
            self.palettes.set(0xC, v);
            self.palettes.set(0x1C, v);
        } else {
            self.palettes.set(a, v);
        }
    }

    fn palette_read(&self, addr: usize) -> (r: u8)
        requires
            self.wf(),
        ensures
            r == self@.palette_value(addr),
            r < 64,
    {
        proof {
            lemma_ppu_bits();
        }
        let a = addr & 0x1F;
        let a2 = if a == 0x10 || a == 0x14 || a == 0x18 || a == 0x1C { a & !0x10usize } else { a };
        let index = self.palettes[a2];
        if self.regs.greyscale { index & 0x30 } else { index }
    }

    fn read(&self, m: &BaseMapper, addr: usize) -> (r: u8)
        requires
            self.wf(),
            mapper_ok(*m),
        ensures
            r == self@.mem_read(*m, addr),
    {
        proof {
            lemma_ppu_bits();
        }
        let a = addr & 0x3FFF;
        if a <= 0x1FFF {
            assert(0 <= m.chr_offset(a as int) < m.cartridge.chr_mem().len());
            m.read_chr(a)
        } else if a <= 0x2FFF {
            m.read_nametable(a - 0x2000)
        } else if a <= 0x3EFF {
            m.read_nametable(a - 0x3000)
        } else {
            self.palette_read(a)
        }
    }

    fn write(&mut self, m: &mut BaseMapper, addr: usize, val: u8)
        requires
            old(self).wf(),
            old(m).nt_ram@.len() == 0x1000,
        ensures
            final(self).wf(),
            (final(self)@, final(m).nt_ram@) == old(self)@.mem_written(old(m).nt_ram@, addr, val),
            final(m).cartridge == old(m).cartridge,
            final(m).chip == old(m).chip,
    {
        proof {
            lemma_ppu_bits();
        }
        let a = addr & 0x3FFF;
        if a <= 0x1FFF {
        } else if a <= 0x2FFF {
            m.write_nametable(a - 0x2000, val);
        } else if a <= 0x3EFF {
            m.write_nametable(a - 0x3000, val);
        } else {
            self.palette_write(a, val);
        }
    }

    fn write_ppuctrl(&mut self)
        requires
            old(self).wf(),
        ensures
            final(self).wf(),
            final(self)@ == old(self)@.ctrl_written(),
    {
        proof {
            lemma_ppu_bits();
        }
        let val = self.io.latch;
        let t = (self.scroll.temp_vram_addr & !0xC00usize) | (((val as usize) & 3) << 10usize);
        let nt_base_addr: usize = if val & 3 == 0 {
            0x2000
        } else if val & 3 == 1 {
            0x2400
        } else if val & 3 == 2 {
            0x2800
        } else {
            0x2C00
        };
        let regs = PpuRegs {
            nt_base_addr,
            addr_increment: if val & 4 == 0 { 1 } else { 32 },
            sp_pattern_table_addr: if val & 8 == 0 { 0 } else { 0x1000 },
            bg_pattern_table_addr: if val & 0x10 == 0 { 0 } else { 0x1000 },
            sp_size: if val & 0x20 == 0 { 8 } else { 16 },
            nmi_on_vblank: val & 0x80 != 0,
            ..self.regs
        };
        self.scroll = Scroll { temp_vram_addr: t, ..self.scroll };
        self.regs = regs;
    }

    fn write_ppumask(&mut self)
        requires
            old(self).wf(),
        ensures
            final(self).wf(),
            final(self)@ == old(self)@.mask_written(),
    {
        let val = self.io.latch;
        self.regs.greyscale = val & 1 != 0;
        self.regs.bg_leftmost_8 = val & 2 != 0;
        self.regs.sp_leftmost_8 = val & 4 != 0;
        self.regs.show_bg = val & 8 != 0;
        self.regs.show_sp = val & 0x10 != 0;
        self.regs.emphasize_red = val & 0x20 != 0;
        self.regs.emphasize_green = val & 0x40 != 0;
        self.regs.emphasize_blue = val & 0x80 != 0;
        self.regs.rendering_enabled = self.regs.show_bg || self.regs.show_sp;
    }

    fn read_ppustatus(&mut self, nmi: &mut bool)
        requires
            old(self).wf(),
        ensures
            final(self).wf(),
            (final(self)@, *final(nmi)) == old(self)@.status_read(*old(nmi)),
    {
        let status = self.io.ppustatus;
        self.scroll.write_toggle = false;
        self.io.latch = status;
        self.io.ppustatus = status & 0x7F;
        if self.pos.scanline == 241 && (self.pos.xpos == 2 || self.pos.xpos == 3) {
            self.io.latch = status | 0x80;
            *nmi = false;
        } else if self.pos.scanline == 241 && self.pos.xpos == 1 {
            self.io.latch = status & 0x7F;
            self.io.suppress_vbl = true;
        }
    }

    fn read_oamdata(&mut self)
        requires
            old(self).wf(),
        ensures
            final(self).wf(),
            final(self)@ == old(self)@.oamdata_read(),
    {
        if self.pos.scanline <= 239 && self.regs.rendering_enabled {
            self.io.latch = self.io.oamdata_buffer;
        } else {
            self.io.latch = self.oam[self.io.oamaddr as usize];
        }
    }

    fn write_oamdata(&mut self)
        requires
            old(self).wf(),
        ensures
            final(self).wf(),
            final(self)@ == old(self)@.oamdata_written(),
    {
        if self.regs.rendering_enabled && (self.pos.scanline <= 239 || self.pos.scanline == 261) {
            self.io.oamaddr = self.io.oamaddr.wrapping_add(4);
        } else {
            let val = if self.io.oamaddr & 3 == 2 { self.io.latch & 0xE3 } else { self.io.latch };
            self.oam.set(self.io.oamaddr as usize, val);
            self.io.oamaddr = self.io.oamaddr.wrapping_add(1);
        }
    }

    fn write_ppuscroll(&mut self)
        requires
            old(self).wf(),
        ensures
            final(self).wf(),
            final(self)@ == old(self)@.scroll_written(),
    {
        proof {
            lemma_ppu_bits();
        }
        let val = self.io.latch;
        if self.scroll.write_toggle {
            self.scroll.temp_vram_addr = (self.scroll.temp_vram_addr & !0x73E0usize) | (((val as usize) & 0xF8) << 2usize)
                | (((val as usize) & 7) << 12usize);
        } else {
            self.scroll.temp_vram_addr = (self.scroll.temp_vram_addr & !0x1Fusize) | ((val as usize) >> 3usize);
            self.scroll.x_fine_scroll = val & 7;
        }
        self.scroll.write_toggle = !self.scroll.write_toggle;
    }

    fn write_ppuaddr(&mut self)
        requires
            old(self).wf(),
        ensures
            final(self).wf(),
            final(self)@ == old(self)@.addr_written(),
    {
        proof {
            lemma_ppu_bits();
        }
        let val = self.io.latch;
        if self.scroll.write_toggle {
            let t = (self.scroll.temp_vram_addr & !0xFFusize) | (val as usize);
            self.scroll.temp_vram_addr = t;
            self.scroll.vram_addr = t;
        } else {
            self.scroll.temp_vram_addr = (self.scroll.temp_vram_addr & !0xFF00usize) | (((val as usize) & 0x3F) << 8usize);
        }
        self.scroll.write_toggle = !self.scroll.write_toggle;
    }

    fn coarse_x_increment(&mut self)
        requires
            old(self).wf(),
        ensures
            final(self).wf(),
            final(self)@ == old(self)@.coarse_x_incremented(),
    {
        let v = self.scroll.vram_addr;
        if v & 0x1F == 31 {
            self.scroll.vram_addr = (v & !0x1Fusize) ^ 0x400;
        } else {
            self.scroll.vram_addr = v.wrapping_add(1);
        }
    }

    fn y_increment(&mut self)
        requires
            old(self).wf(),
        ensures
            final(self).wf(),
            final(self)@ == old(self)@.y_incremented(),
    {
        proof {
            lemma_ppu_bits();
        }
        let v = self.scroll.vram_addr;
        if !self.regs.rendering_enabled {
        } else if (v & 0x7000) != 0x7000 {
            self.scroll.vram_addr = v.wrapping_add(0x1000);
        } else {
            let v1 = v & !0x7000usize;
            let y = (v1 & 0x3E0) >> 5usize;
            let v2 = if y == 29 { v1 ^ 0x800 } else { v1 };
            let y2: usize = if y == 29 || y == 31 { 0 } else { y + 1 };
            self.scroll.vram_addr = (v2 & !0x3E0usize) | (y2 << 5usize);
        }
    }

    fn advance_data_address(&mut self)
        requires
            old(self).wf(),
        ensures
            final(self).wf(),
            final(self)@ == old(self)@.data_advanced(),
    {
        if self.regs.rendering_enabled && self.pos.scanline < 240 {
            self.coarse_x_increment();
            self.y_increment();
        } else {
            self.scroll.vram_addr = self.scroll.vram_addr.wrapping_add(self.regs.addr_increment);
        }
    }

    fn read_ppudata(&mut self, m: &BaseMapper)
        requires
            old(self).wf(),
            mapper_ok(*m),
            ppudata_read_ok(old(self)@),
        ensures
            final(self).wf(),
            final(self)@ == old(self)@.ppudata_read(*m),
    {
        proof {
            lemma_ppu_bits();
        }
        let v = self.scroll.vram_addr;
        if (v & 0x3FFF) >= 0x3F00 {
            assert((v & 0x3FFF) <= v) by (bit_vector);
            self.io.latch = self.read(m, v);
            self.io.read_buffer = m.read_nametable(v - 0x3000);
        } else {
            self.io.latch = self.io.read_buffer;
            self.io.read_buffer = self.read(m, v);
        }
        self.advance_data_address();
    }

    fn write_ppudata(&mut self, m: &mut BaseMapper)
        requires
            old(self).wf(),
            old(m).nt_ram@.len() == 0x1000,
        ensures
            final(self).wf(),
            (final(self)@, final(m).nt_ram@) == old(self)@.ppudata_written(old(m).nt_ram@),
            final(m).cartridge == old(m).cartridge,
            final(m).chip == old(m).chip,
    {
        let v = self.scroll.vram_addr;
        let val = self.io.latch;
        self.write(m, v, val);
        self.advance_data_address();
    }

    /// A CPU read of the PPU register `addr & 7` ($2000-$2007 mirrored); gives the I/O latch.
    /// A status read around the start of the vertical blank clears the NMI line.
    pub fn read_reg(&mut self, m: &BaseMapper, addr: usize, nmi: &mut bool) -> (r: u8)
        requires
            old(self).wf(),
            mapper_ok(*m),
            addr & 7 == 7 ==> ppudata_read_ok(old(self)@),
        ensures
            final(self).wf(),
            (final(self)@, *final(nmi)) == old(self)@.reg_read(*m, addr, *old(nmi)),
            r == final(self)@.io.latch,
    {
        let r = addr & 7;
        if r == 2 {
            self.read_ppustatus(nmi);
        } else if r == 4 {
            self.read_oamdata();
        } else if r == 7 {
            self.read_ppudata(m);
        }
        self.io.latch
    }

    /// A CPU write of `val` to the PPU register `addr & 7`; PPUDATA writes reach the mapper's
    /// nametable RAM.
    pub fn write_reg(&mut self, m: &mut BaseMapper, addr: usize, val: u8)
        requires
            old(self).wf(),
            old(m).nt_ram@.len() == 0x1000,
        ensures
            final(self).wf(),
            (final(self)@, final(m).nt_ram@) == old(self)@.reg_written(old(m).nt_ram@, addr, val),
            final(m).cartridge == old(m).cartridge,
            final(m).chip == old(m).chip,
    {
        self.io.latch = val;
        let r = addr & 7;
        if r == 0 && !self.regs.ignore_writes {
            self.write_ppuctrl();
        } else if r == 1 && !self.regs.ignore_writes {
            self.write_ppumask();
        } else if r == 3 {
            self.io.oamaddr = self.io.latch;
        } else if r == 4 {
            self.write_oamdata();
        } else if r == 5 && !self.regs.ignore_writes {
            self.write_ppuscroll();
        } else if r == 6 && !self.regs.ignore_writes {
            self.write_ppuaddr();
        } else if r == 7 {
            self.write_ppudata(m);
        }
    }

    fn fetch_bg(&mut self, m: &BaseMapper)
        requires
            old(self).wf(),
            mapper_ok(*m),
        ensures
            final(self).wf(),
            final(self)@ == old(self)@.bg_fetched(*m),
    {
        proof {
            lemma_ppu_bits();
        }
        if !self.regs.rendering_enabled {
            return;
        }
        let v = self.scroll.vram_addr;
        let k = self.pos.xpos & 7;
        if k == 0 {
            self.coarse_x_increment();
        } else if k == 1 {
            self.bg.shift_low = self.bg.shift_low | (self.bg.tile_lb as u16);
            self.bg.shift_high = self.bg.shift_high | (self.bg.tile_hb as u16);
            self.bg.attr_table_byte = self.bg.next_attr_table_byte;
            self.bg.nametable_byte = self.read(m, 0x2000 | (v & 0xFFF));
        } else if k == 3 {
            let shift = ((v >> 4usize) & 4) | (v & 2);
            let attr = self.read(m, 0x23C0 | (v & 0xC00) | ((v >> 4usize) & 0x38) | ((v >> 2usize) & 7));
            self.bg.next_attr_table_byte = ((attr >> shift) & 3) << 2u8;
        } else if k == 5 {
            let ta = ((self.bg.nametable_byte as usize) << 4usize) | (v >> 12usize) | self.regs.bg_pattern_table_addr;
            self.bg.tile_addr = ta;
            self.bg.tile_lb = self.read(m, ta);
        } else if k == 7 {
            self.bg.tile_hb = self.read(m, self.bg.tile_addr.wrapping_add(8));
        }
    }

    fn load_sprite(&mut self)
        requires
            old(self).wf(),
        ensures
            final(self).wf(),
            final(self)@ == old(self)@.sprite_loaded(),
    {
        let i = self.eval.sprite_index as usize;
        let sa = 4 * i;
        let attributes = self.secondary_oam[sa + 2];
        let vflip = attributes & 0x80 != 0;
        let sy = self.secondary_oam[sa];
        let line: i16 = if self.pos.scanline == 261 { -1 } else { self.pos.scanline as i16 };
        let y_offset: i16 = if vflip {
            (self.regs.sp_size - 1) as i16 - (line - sy as i16)
        } else {
            line - sy as i16
        };
        let index = self.secondary_oam[sa + 1];
        let pattern: u16 = if self.regs.sp_size == 8 {
            (self.regs.sp_pattern_table_addr as u16) | ((index as u16) << 4u16) | (y_offset as u16)
        } else {
            let y2: i16 = if y_offset >= 8 { y_offset + 8 } else { y_offset };
            let table: u16 = if index & 1 != 0 { 0x1000 } else { 0 };
            table | (((index & 0xFE) as u16) << 4u16).wrapping_add(y2 as u16)
        };
        let old_sprite = self.sprite_buffer[i];
        let sprite = Sprite {
            y: sy,
            x: self.secondary_oam[sa + 3],
            vertical_flip: vflip,
            horizontal_flip: attributes & 0x40 != 0,
            priority: attributes & 0x20 != 0,
            palette: ((attributes & 3) << 2u8) | 0x10,
            index: pattern,
            ..old_sprite
        };
        self.sprite_buffer.set(i, sprite);
    }

    fn fetch_sprites(&mut self, m: &BaseMapper)
        requires
            old(self).wf(),
            mapper_ok(*m),
            old(self).pos.xpos >= 1,
        ensures
            final(self).wf(),
            final(self)@ == old(self)@.sprites_fetched(*m),
    {
        if !self.regs.rendering_enabled {
            return;
        }
        self.io.oamaddr = 0;
        let k = (self.pos.xpos - 1) & 7;
        let i = self.eval.sprite_index as usize;
        if k == 3 {
            self.load_sprite();
        } else if k == 4 {
            let sp = self.sprite_buffer[i];
            let low = self.read(m, sp.index as usize);
            self.sprite_buffer.set(i, Sprite { tile_low: low, ..sp });
        } else if k == 6 {
            let sp = self.sprite_buffer[i];
            let low = self.read(m, sp.index as usize + 8);
            self.sprite_buffer.set(i, Sprite { tile_low: low, ..sp });
            proof {
                lemma_ppu_bits();
            }
            self.eval.sprite_index = self.eval.sprite_index & 7;
        }
    }

    fn buffered_sprite_in_range(&self) -> (r: bool)
        ensures
            r == self@.buffered_sprite_in_range(),
    {
        self.pos.scanline >= self.io.oamdata_buffer as u16
            && self.pos.scanline < self.io.oamdata_buffer as u16 + self.regs.sp_size as u16
    }

    fn eval_step(&mut self)
        requires
            old(self).wf(),
        ensures
            final(self).wf(),
            final(self)@ == old(self)@.eval_step(),
    {
        let st = self.eval.sprite_eval_state;
        let n = self.eval.sprite_eval_count;
        let m = self.eval.sprite_fetch_step;
        let found = self.eval.sprites_found;
        if st == 1 {
            if found < 8 {
                self.secondary_oam.set(4 * found as usize, self.io.oamdata_buffer);
                if !self.buffered_sprite_in_range() {
                    self.eval.sprite_in_range = false;
                    self.eval.sprite_eval_state = 2;
                } else {
                    self.eval.sprite_in_range = true;
                    self.eval.sprite_fetch_step = 1;
                    self.eval.sprite_eval_state = 5;
                }
            }
        } else if st == 2 {
            let n2 = n.wrapping_add(1);
            if n2 == 65 {
                self.eval.sprite_eval_count = 0;
                self.eval.sprite_eval_state = 4;
            } else if found < 8 {
                self.eval.sprite_eval_count = n2;
                self.eval.sprite_eval_state = 1;
            } else {
                self.eval.sprite_eval_count = n2;
                self.eval.sprite_eval_state = 3;
            }
        } else if st == 3 {
            if self.buffered_sprite_in_range() {
                self.io.ppustatus = self.io.ppustatus | 0x20;
                self.eval.sprite_fetch_step = 1;
                self.eval.sprite_eval_state = 8;
            } else {
                let n2 = n.wrapping_add(1);
                self.eval.sprite_fetch_step = m.wrapping_add(1);
                if n2 == 65 {
                    self.eval.sprite_eval_count = 0;
                    self.eval.sprite_eval_state = 4;
                } else {
                    self.eval.sprite_eval_count = n2;
                }
            }
        } else if st == 4 {
            self.eval.sprite_eval_count = n.wrapping_add(1);
        } else if st == 5 {
            self.secondary_oam.set((4 * found + m) as usize, self.io.oamdata_buffer);
            if m + 1 == 4 {
                self.eval.sprite_fetch_step = 0;
                self.eval.sprites_found = found + 1;
                self.eval.sprite_eval_state = 2;
            } else {
                self.eval.sprite_fetch_step = m + 1;
            }
        } else if st == 6 {
            let m2 = m.wrapping_add(1);
            if m2 == 4 {
                self.eval.sprite_fetch_step = 0;
                self.eval.sprite_eval_count = n.wrapping_add(1);
                self.eval.sprite_eval_state = 4;
            } else {
                self.eval.sprite_fetch_step = m2;
            }
        }
    }

    /// One dot of sprite evaluation (dots 65-256 of a visible line): see
    /// `PpuState::sprite_evaluated`.
    pub fn sprite_evaluation(&mut self)
        requires
            old(self).wf(),
        ensures
            final(self).wf(),
            final(self)@ == old(self)@.sprite_evaluated(),
    {
        if !self.regs.rendering_enabled {
            return;
        }
        if self.pos.xpos == 65 {
            self.eval.sprite_eval_count = 0;
            self.io.oamdata_buffer = 0;
            self.eval.sprites_found = 0;
            self.eval.sprite_fetch_step = 0;
            self.eval.sprite_eval_state = 1;
        }
        if self.pos.xpos & 1 != 0 {
            self.io.oamdata_buffer = self.oam[self.io.oamaddr as usize];
        } else {
            self.eval_step();
            self.io.oamaddr = ((4 * (self.eval.sprite_eval_count as u16) + (self.eval.sprite_fetch_step as u16)) % 256) as u8;
        }
    }

    fn handle_vblank(&mut self, nmi: &mut bool)
        requires
            old(self).wf(),
        ensures
            final(self).wf(),
            (final(self)@, *final(nmi)) == old(self)@.vblank_handled(*old(nmi)),
    {
        let sl = self.pos.scanline;
        let x = self.pos.xpos;
        if sl == 241 && x == 0 {
        } else if sl == 241 && x == 1 {
            if !self.io.suppress_vbl {
                self.io.ppustatus = self.io.ppustatus | 0x80;
            }
            self.io.suppress_vbl = false;
            if self.regs.nmi_on_vblank && self.io.ppustatus & 0x80 != 0 {
                *nmi = true;
            }
        } else if sl == 260 && x == 340 {
            *nmi = false;
        } else if 241 <= sl && sl <= 260 {
            let current = self.regs.nmi_on_vblank && (self.io.ppustatus & 0x80) != 0;
            if self.io.prev_nmi && current {
                *nmi = true;
            } else if !self.io.prev_nmi {
                *nmi = false;
            }
            self.io.prev_nmi = current;
        }
    }

    fn t_to_v(&mut self)
        requires
            old(self).wf(),
        ensures
            final(self).wf(),
            final(self)@ == old(self)@.horizontal_copied(),
    {
        if self.regs.rendering_enabled {
            self.scroll.vram_addr = (self.scroll.vram_addr & !0x41Fusize) | (self.scroll.temp_vram_addr & 0x41F);
        }
    }

    fn v_from_t(&mut self)
        requires
            old(self).wf(),
        ensures
            final(self).wf(),
            final(self)@ == old(self)@.vertical_copied(),
    {
        if self.regs.rendering_enabled {
            self.scroll.vram_addr = (self.scroll.vram_addr & !0x7BE0usize) | (self.scroll.temp_vram_addr & 0x7BE0);
        }
    }

    fn shift_tile_registers(&mut self)
        requires
            old(self).wf(),
        ensures
            final(self).wf(),
            final(self)@ == old(self)@.shifted(),
    {
        self.bg.shift_low = self.bg.shift_low << 1u16;
        self.bg.shift_high = self.bg.shift_high << 1u16;
    }

    fn bg_color(&self) -> (r: usize)
        requires
            self.wf(),
        ensures
            r == self@.bg_color(),
    {
        let h = ((self.bg.shift_high << (self.scroll.x_fine_scroll as u16)) & 0x8000) >> 14u16;
        let l = ((self.bg.shift_low << (self.scroll.x_fine_scroll as u16)) & 0x8000) >> 15u16;
        ((self.bg.attr_table_byte as u16) | h | l) as usize
    }

    fn priority_mux(&self) -> (r: usize)
        requires
            self.wf(),
        ensures
            r == self@.pixel_color(),
    {
        if !self.regs.rendering_enabled && (self.scroll.vram_addr & 0x3F00) == 0x3F00 {
            self.scroll.vram_addr & 0x1F
        } else if self.regs.show_bg {
            self.bg_color()
        } else {
            0
        }
    }

    fn draw_pixel(&mut self)
        requires
            old(self).wf(),
            old(self).pos.scanline <= 239,
            1 <= old(self).pos.xpos <= 256,
        ensures
            final(self).wf(),
            final(self)@ == old(self)@.pixel_drawn(),
    {
        let addr = (self.pos.scanline as usize) * 256 + (self.pos.xpos as usize) - 1;
        let color_index = self.priority_mux();
        let color = self.palette_read(color_index);
        self.output_buffer.set(addr, color);
    }

    /// The work of the current dot (see `PpuState::scanline_ticked`); it only reads the
    /// mapper.
    pub fn scanline_tick(&mut self, m: &BaseMapper, nmi: &mut bool)
        requires
            old(self).wf(),
            mapper_ok(*m),
        ensures
            final(self).wf(),
            (final(self)@, *final(nmi)) == old(self)@.scanline_ticked(*m, *old(nmi)),
    {
        let x = self.pos.xpos;
        let sl = self.pos.scanline;
        if sl == 261 {
            if x == 1 {
                self.io.ppustatus = self.io.ppustatus & 0x7F;
                self.fetch_bg(m);
            } else if 2 <= x && x <= 256 {
                self.fetch_bg(m);
                if x == 256 {
                    self.y_increment();
                }
            } else if x == 257 {
                self.t_to_v();
                self.fetch_sprites(m);
            } else if 258 <= x && x <= 279 {
                self.fetch_sprites(m);
            } else if 280 <= x && x <= 304 {
                self.v_from_t();
                self.fetch_sprites(m);
            } else if 305 <= x && x <= 320 {
                self.fetch_sprites(m);
            } else if x == 321 {
                self.fetch_bg(m);
            } else if 322 <= x && x <= 337 {
                self.shift_tile_registers();
                self.fetch_bg(m);
            } else if x == 339 {
                self.pos.frame_ready = true;
                if self.pos.odd_frame && self.regs.rendering_enabled {
                    self.pos.scanline = 0;
                    self.pos.xpos = 0;
                }
                self.pos.odd_frame = !self.pos.odd_frame;
            }
        } else if sl <= 239 {
            if x == 1 {
                self.fetch_bg(m);
                self.draw_pixel();
                self.secondary_oam = filled(0x20, 0xFF);
            } else if 2 <= x && x <= 256 {
                self.shift_tile_registers();
                self.fetch_bg(m);
                if x == 256 {
                    self.y_increment();
                    self.sprite_evaluation();
                } else if x >= 65 {
                    self.sprite_evaluation();
                }
                self.draw_pixel();
            } else if x == 257 {
                self.t_to_v();
                self.shift_tile_registers();
                self.fetch_sprites(m);
            } else if 258 <= x && x <= 320 {
                self.fetch_sprites(m);
            } else if x == 321 {
                self.fetch_bg(m);
            } else if 322 <= x && x <= 337 {
                self.shift_tile_registers();
                self.fetch_bg(m);
            }
        } else if 241 <= sl && sl <= 260 {
            self.handle_vblank(nmi);
        }
    }

    /// One PPU dot: its work, then the next dot.
    pub fn tick(&mut self, m: &BaseMapper, nmi: &mut bool)
        requires
            old(self).wf(),
            mapper_ok(*m),
        ensures
            final(self).wf(),
            (final(self)@, *final(nmi)) == old(self)@.ticked(*m, *old(nmi)),
    {
        self.scanline_tick(m, nmi);
        let x = self.pos.xpos + 1;
        if x > 340 {
            self.pos.xpos = 0;
            let sl = self.pos.scanline + 1;
            self.pos.scanline = if sl > 261 { 0 } else { sl };
        } else {
            self.pos.xpos = x;
        }
    }
}

} // verus!
