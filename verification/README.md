# libvmr

A toolchain for a small 16-bit machine: an assembler that turns source text into object
files, a linker that lays object files out behind a `JMP <entry>` trampoline and patches their
relocations, and a virtual machine that runs the linked executable one instruction per cycle.

The library in `src/` is written in Verus; every function in it carries a contract that Verus
proves, and the laws that relate its parts are public proof functions:

- `isa` — registers, operations, operand shapes and flag bits, with their byte encodings.
- `indexed_vec` — a vector whose length always fits a `u16`.
- `symbols` — a name-to-address table where a later definition wins.
- `text` — character-level splitting and trimming of source text.
- `object` — object files and their binary encoding.
- `assembler` — the two-pass assembler.
- `linker` — loading object files and linking them into an executable image.
- `vm` — the virtual machine for linked executables.
- `simple_vm` — a simpler machine with a single `equal` flag and no subroutine calls.

`app/` is the command-line front end (`assemble`, `link`, `run`, `simple`): it reads and writes
files, parses arguments, logs, and prints the machine's state.
