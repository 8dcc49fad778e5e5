//! The decisions of a console running in a loop of its own: what each command does, and
//! what the loop reports. The loop itself (threads, channels, sleeping) is not here.

use vstd::prelude::*;

use crate::cartridge::Cartridge;
use crate::input::{Buttons, Controller};
use crate::memory::Memory;
use crate::nes::NES;

verus! {

/// What the loop is asked to do.
pub enum Command {
    Press(Buttons),
    Release(Buttons),
    LoadCartridge(Cartridge),
    Pause,
    Resume,
    Stop,
}

/// What the loop reports.
pub enum Event {
    RamChanged(Vec<u8>),
}

/// The loop's own state besides the console.
#[derive(Copy, Clone, Debug, PartialEq, Eq, Structural)]
pub struct RunnerState {
    pub paused: bool,
    pub stopped: bool,
}

impl Cartridge {
    /// Whether the console can run this cartridge: it has PRG ROM and a full 8KB of CHR.
    pub fn is_playable(&self) -> (b: bool)
        ensures
            b == (self.prg.inv() && self.chr.inv()),
    {
        self.prg.rom.len() > 0 && self.chr.chr_rom.len() >= 0x2000 && match self.prg.mapper {
            crate::cartridge::mapper::AnyMapper::MMC1(m) => m.shift_register_writes < 5,
            _ => true,
        }
    }
}

/// `after` is `before` with at most the controller changed.
pub open spec fn only_controller_changed(before: NES, after: NES) -> bool {
    after.cpu.model() == (crate::cpu::CpuModel {
        memory: crate::cpu::CpuMemoryModel {
            input: after.cpu.model().memory.input,
            ..before.cpu.model().memory
        },
        ..before.cpu.model()
    })
}

impl RunnerState {
    /// A new loop starts paused.
    pub fn new() -> (s: Self)
        ensures
            s == (RunnerState { paused: true, stopped: false }),
    {
        RunnerState { paused: true, stopped: false }
    }

    /// Carries out one command: buttons go to the controller, a cartridge replaces the console
    /// (it must be playable: `Cartridge::is_playable`), pause and resume set the state, stop
    /// ends the loop.
    pub fn handle(&mut self, command: Command, nes: &mut NES)
        requires
            old(nes).wf(),
            command matches Command::LoadCartridge(c) ==> c.prg.inv() && c.chr.inv(),
        ensures
            final(nes).wf(),
            match command {
                Command::Press(b) => *final(self) == *old(self) && final(nes).cpu.memory.input == (Controller {
                    buttons: Buttons(old(nes).cpu.memory.input.buttons.0 | b.0),
                    ..old(nes).cpu.memory.input
                }) && only_controller_changed(*old(nes), *final(nes)),
                Command::Release(b) => *final(self) == *old(self) && final(nes).cpu.memory.input == (Controller {
                    buttons: Buttons(old(nes).cpu.memory.input.buttons.0 & !b.0),
                    ..old(nes).cpu.memory.input
                }) && only_controller_changed(*old(nes), *final(nes)),
                Command::LoadCartridge(c) => *final(self) == *old(self) && final(nes).started_with(c),
                Command::Pause => *final(self) == (RunnerState { paused: true, ..*old(self) })
                    && *final(nes) == *old(nes),
                Command::Resume => *final(self) == (RunnerState { paused: false, ..*old(self) })
                    && *final(nes) == *old(nes),
                Command::Stop => *final(self) == (RunnerState { stopped: true, ..*old(self) })
                    && *final(nes) == *old(nes),
            },
    {
        match command {
            Command::Press(buttons) => nes.controller().press(buttons),
            Command::Release(buttons) => nes.controller().release(buttons),
            Command::LoadCartridge(cartridge) => nes.load_cartridge(cartridge),
            Command::Pause => {
                self.paused = true;
            },
            Command::Resume => {
                self.paused = false;
            },
            Command::Stop => {
                self.stopped = true;
            },
        }
    }
}

/// The event reporting the cartridge's RAM, if it changed since the last report.
pub fn ram_event(nes: &mut NES) -> (e: Option<Event>)
    requires
        old(nes).wf(),
    ensures
        final(nes).wf(),
        old(nes).cpu.memory.prg.dirty_ram <==> e is Some,
        e matches Some(Event::RamChanged(ram)) ==> ram@ == old(nes).cpu.memory.prg.ram@,
        !final(nes).cpu.memory.prg.dirty_ram,
        final(nes).cpu.model() == (crate::cpu::CpuModel {
            memory: crate::cpu::CpuMemoryModel {
                prg: crate::cartridge::PrgModel {
                    dirty_ram: false,
                    ..old(nes).cpu.model().memory.prg
                },
                ..old(nes).cpu.model().memory
            },
            ..old(nes).cpu.model()
        }),
{
    match nes.changed_ram() {
        Some(ram) => Some(Event::RamChanged(ram)),
        None => None,
    }
}

} // verus!
