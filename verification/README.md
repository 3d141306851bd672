# nes

A NES emulator core (6502 CPU, bus, PPU registers, iNES cartridges) written in
Verus. Every function of the library in `src/` carries a contract over a
mathematical model of the machine, and Verus proves the code against it.

- `src/cpu.rs`: the CPU. `CpuView` models the registers and the bus; each
  instruction is a spec function on it, `CPU::step` executes one instruction
  exactly as `CpuView::step` says, and the laws at the end of the file relate
  instructions (stack round trips, JSR/RTS, flag rules of ADC/SBC/compares).
- `src/addressing_modes.rs`, `src/opcodes.rs`: operand addressing and the table
  of the 151 official opcodes.
- `src/bus.rs`, `src/memory.rs`: the CPU address bus (RAM mirroring, PPU register
  mirroring, 16 KiB program ROM mirroring) as read/write transitions.
- `src/ppu.rs`, `src/ppu/registers/`: the PPU's memories and registers.
- `src/rom.rs`: parsing iNES 1.0 dumps.
- `src/trace.rs`: one trace line per instruction, specified character by character.
- `src/fault.rs`: deciding, on a copy, whether the next step can be taken.
- `src/snake.rs`: the screen, colours and input of the snake demo program.

`app/main.rs` is the program around it: it runs a ROM from the command line
with a trace, or the snake game in an SDL2 window.

Program ROM is read-only on this bus, so programs come from a cartridge: there
is no function that copies a program into $8000.
