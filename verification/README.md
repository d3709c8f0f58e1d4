# rs_boy

A Game Boy (DMG) emulator core whose components carry Verus contracts:
CPU register and ALU operations and instruction timings, the memory map,
cartridges and their bank controllers (plain ROM, MBC3, MBC5), the timer,
the picture processing unit, the joypad register and the sound channels.

Layout:

- `src/` — the verified library. The modules at the top (`registers`,
  `cpu_ops`, `memory`, `cartridge`, `timer`, `gpu`, `display`, `controls`)
  and `gameboy` are one emulator core; `lib_rs_boy` is the second, newer
  core (cartridges with MBC5, the PPU state machine, sound channels 2 to 4).
  `libretro_core` and `minifb_binary` hold the front ends' decisions (key
  layouts, option values, rumble).
- `tests/` — tests run against the compiled library.
- `app/` — the desktop program: file and window I/O, SDL2 audio and the
  floating-point mixing of samples.
