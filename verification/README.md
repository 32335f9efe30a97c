# manaslu

A NES emulator core written in Verus: every function of the library is proved
against a contract.

- `src/cpu`: the 6502 registers, the opcode table, one handler per instruction
  and the fetch/decode/execute step. Each handler's effect is a spec function
  (`*_spec`) over the registers and an abstract bus; `CPU::step` is proved to
  compute `step_spec`.
- `src/bus.rs`: the `MemoryIndexer` trait, whose spec functions say what a read
  returns and what state each access leaves.
- `src/cpu/cpu_bus.rs`: the CPU's address space (mirrored RAM, PPU registers,
  cartridge).
- `src/cpu/disassembly.rs`: what a trace line shows of a fetched instruction (its
  bytes, the addresses and the value its operand designates); `CPU::step` makes
  these reads between the fetch and the execution.
- `src/cartridge`: the iNES format, parsed from bytes with the exact conditions
  under which an image is refused.
- `src/ppu`: the PPU registers (with the loopy `v`/`t`/`x`/`w` scroll state),
  its bus with nametable and palette mirroring, and the dot/scanline/frame
  counter.
- `src/manaslu.rs`: the console, which runs one instruction and then three PPU
  dots per CPU cycle.
- `app/`: the GUI and the command line runner, which read ROM files, loop over
  `Manaslu::tick` and log a trace formatted from the verified disassembly.

Laws that span functions (stack push/pull, JSR/RTS, mirroring, register
read-back, flag setting, the frame counter, the painting of a visible row) are public proof functions named
`lemma_*` beside the functions they relate.
