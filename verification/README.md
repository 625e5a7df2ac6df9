# fearless_nes

The core of a cycle-accurate NES emulator, written in Verus: each function states what it
does in its contract, and Verus proves it.

- `src/cartridge.rs`, `src/cartridge/gamedb.rs`: iNES headers, the NES 2.0 XML game
  database (through `roxmltree` and `sha1`), and cartridge memory.
- `src/mapper/`: the mapper chips (NROM, MMC1, UxROM, CNROM, MMC3, AxROM, FME-7).
- `src/cpu.rs`, `src/cpu/`: the 6502 core: operations, decoding, addressing, the bus, OAM
  DMA, `cycle.rs`, the cycle-by-cycle machine that says what the CPU does on its bus in
  each cycle, and `tick.rs`, which orders the cycles, DMA steps and clocks of one tick.
- `src/apu/`: the APU's channels and frame counter, and the band-limited sample buffer.
- `src/ppu.rs`: the PPU: its registers, background and sprite fetches dot by dot, sprite
  evaluation, the vertical blank and its NMI, and the frame of palette indices it draws.
- `src/cpu_generator.rs`, `src/cpu_generator/`: the generator of the CPU's state machine
  source from the opcode list; `source.rs` writes its states as match arms in key order.
- `src/replay.rs`, `src/debug_events.rs`, `src/sample_buffer.rs`, `src/text.rs`: recordings of
  inputs, debugger events, a ring buffer, and text helpers.
- `app/`: files, serialisation (`bincode`), error messages (`thiserror`), the floating-point
  audio mixer, the loop that drives the CPU's cycles, and a console that wires the CPU, PPU,
  APU and mapper together.

Not part of this crate: the controllers, the PPU's sprite rendering (sprites are evaluated
and fetched but not yet drawn, as in the PPU this follows), and save states.
- `tests/`: tests on concrete values.
