# crabboy

The bus of a Game Boy (DMG) emulator, verified with Verus.

`src/` is the library:

- `interconnect` — the `Interconnect` that maps every CPU address to the
  component that owns it (boot ROM, cartridge, VRAM, work RAM, OAM, timer,
  I/O page, high RAM, IE), runs the PPU, the timer and OAM DMA for a number
  of M-cycles, and turns joypad events into interrupts. Its parts:
  `cartridge`, `mmu`, `ppu` (line timing, LCD registers, OAM DMA, CGB
  palettes), `ppu_timing` (the line and frame laws), `joypad`, `serial`.
- `cpu::timer` — DIV/TIMA/TMA/TAC and the clocks that drive them.
- `cpu::interrupts` — the interrupt sources and `request_interrupt`.
- `constants` — the memory map and the timing constants.

Every read and write of the bus is specified by `spec_read` and
`spec_write`; `emu_tick` by `spec_emu_tick` together with its laws.

`app/` holds what Verus does not see: save-state copies of the bus with
serde derives, the log lines, and the checks before calls where the
emulator panics or ends the process.
