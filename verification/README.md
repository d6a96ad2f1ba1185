# gb

A Game Boy (and Game Boy Color) emulator core and ROM disassembler, written
in Verus: the executable code carries `requires` / `ensures` contracts that
Verus proves.

## Layout

- `src/` — the verified library.
  - `cpu.rs`, `alu.rs`, `registers.rs`, `instr.rs`: the SM83 core, its
    arithmetic and flags, the register file, and the byte-at-a-time decoder.
  - `mmu.rs`, `mem.rs`, `memreg.rs`, `cart.rs`, `dma.rs`, `hdma.rs`,
    `timer.rs`, `serial.rs`, `controller.rs`, `display.rs`, `palette.rs`,
    `sound.rs` (with `sound/`): the memory bus and the devices on it.
  - `gb.rs`: the machine as a whole, run frame by frame.
  - `rewind.rs`: the history of per-frame snapshots that rewinding moves
    through.
  - `format.rs`: the assembler text of instructions and the listing of a
    memory range.
  - `wla.rs`: the WLA-DX symbol file parser.
  - `dis.rs`, `regions.rs`, `names.rs`, `dump.rs`: the ROM disassembler —
    code-flow analysis from the entry points, the split of each bank into
    code, NOP and data pieces, the label names, and the assembler sources
    of a project that rebuilds the ROM.
  - `laws.rs`: properties that span several operations (BCD correction,
    memory read-after-write, echo RAM, PUSH/POP, unique label names,
    instruction lengths, draining an H-blank DMA copy).
- `tests/` — tests of the library on concrete values.
- `app/` — the command-line front end: reads ROM files (plain or zipped)
  and symbol files, runs a ROM headless, or writes the disassembly project
  into `dis/`.
