# nes_rust

A NES emulator core whose behaviour is stated in Verus contracts and proved by Verus.

## Layout

- `src/` is the verified library:
  - `cpu/`: the 6502 CPU (decoding, addressing modes, every instruction, the stack, the
    status flags) and the CPU's bus (`NESCPUMemory`), with laws such as PHA/PLA and JSR/RTS
    undoing each other.
  - `ppu/`: the picture processing unit: its registers as the CPU sees them, scrolling,
    background and sprite fetching, sprite selection, colour output and its own bus with
    palette mirroring.
  - `apu/`: the audio processing unit's pulse, triangle and noise channels, envelopes and
    length counters.
  - `cartridge/`, `mapper.rs`, `i_nes.rs`: cartridges and their mappers (NROM, UxROM, MMC1),
    nametable mirroring, and reading iNES files.
  - `input.rs`: the standard controller's shift register.
  - `audio/`: the windowed ring buffer that carries samples from the console to the audio
    device.
  - `nes.rs`, `runner.rs`: the whole console stepped one instruction at a time, and the
    decisions of the loop that runs it. Each bus answers only its own address range; an
    access outside it is not made, and the step reports a fault instead (`NES::tick` gives
    `None`).
- `tests/` runs the library on concrete values.
- `app/` is a headless program around the library: it loads a ROM, runs the console on a
  thread of its own, plays the part of the audio device, and writes the last picture, the sound
  and the cartridge's save RAM to files. Mixing and downsampling the sound use floating point,
  so they live there.
