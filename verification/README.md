# gba_core

Verified core pieces of a Game Boy Advance emulator, written in Verus.

- `src/bits.rs`: bit and bit-field extraction, sign extension.
- `src/condition.rs`: ARM condition codes, their decoding and evaluation.
- `src/cpu.rs`: processor modes and the banked ARM7TDMI register file.
- `src/bus.rs`: the memory map, with its mirrors, and 8/16/32-bit reads.
- `src/error.rs`: decoding errors.

Each public function states its result exactly over spec functions; the
`lemma_*` proof functions state the library's laws (read-after-write and
banking of registers, mirroring of memory, decoding round trips).
