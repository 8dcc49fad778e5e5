//! The console: a CPU whose bus holds the internal RAM, the PPU, the APU, a controller and
//! the cartridge's PRG memory, with the cartridge's CHR memory on the PPU's bus.
//!
//! One step runs one CPU instruction, then the PPU for three dots per CPU cycle (raising the
//! CPU's non-maskable interrupt when the PPU asks for it) and the APU for one tick per CPU
//! cycle.

use vstd::prelude::*;

use crate::address::Address;
use crate::apu::{ApuOutput, APU};
use crate::cartridge::{Cartridge, ChrModel, PRG, CHR};
use crate::cartridge::mapper::Mapper;
use crate::cpu::{decode, CpuMemoryModel, CpuModel, NESCPUMemory, CPU};
use crate::input::Controller;
use crate::memory::{total, Memory};
use crate::ppu::memory::PpuMemoryModel;
use crate::ppu::{Color, NESPPUMemory, PpuModel, PPU};

verus! {

pub type NesPpu = PPU<NESPPUMemory<CHR>>;

pub type NesBus = NESCPUMemory<PRG, NesPpu, Controller>;

pub type NesPpuModel = PpuModel<PpuMemoryModel<ChrModel>>;

/// What one step of the console put out.
pub struct NesStep {
    /// The CPU cycles the instruction took.
    pub cycles: u8,
    /// The PPU's output for each dot, in order: a colour for each dot of the visible
    /// picture.
    pub colors: Vec<Option<Color>>,
    /// The APU's channel levels for each CPU cycle, in order.
    pub audio: Vec<ApuOutput>,
}

pub struct NES {
    pub cpu: CPU<NesBus>,
}

/// `n` PPU dots from `p`: the state after them, the colours put out, and whether any of them
/// raised an interrupt.
pub open spec fn ppu_dots(p: NesPpuModel, n: nat) -> (NesPpuModel, Seq<Option<Color>>, bool)
    decreases n,
{
    if n == 0 {
        (p, Seq::empty(), false)
    } else {
        let (p1, colors, interrupt) = ppu_dots(p, (n - 1) as nat);
        let (p2, color, raised, _) = NesPpu::tick_spec(p1);
        (p2, colors.push(color), interrupt || raised)
    }
}

/// `n` APU ticks from `a`: the state after them and the levels put out.
pub open spec fn apu_ticks(a: APU, n: nat) -> (APU, Seq<ApuOutput>)
    decreases n,
{
    if n == 0 {
        (a, Seq::empty())
    } else {
        let (a1, levels) = apu_ticks(a, (n - 1) as nat);
        (a1.ticked(), levels.push(a1.levels()))
    }
}

proof fn lemma_apu_ticks_wf(a: APU, n: nat)
    requires
        a.wf(),
    ensures
        apu_ticks(a, n).0.wf(),
    decreases n,
{
    if n > 0 {
        lemma_apu_ticks_wf(a, (n - 1) as nat);
    }
}

/// The console after the CPU ran an instruction that took `cycles` cycles and left `s`: the
/// nametable mirroring is handed from the mapper to the CHR memory, the PPU runs three dots
/// per cycle and the APU one tick per cycle. Gives the new state, the colours and the audio
/// levels.
pub open spec fn after_instruction(s: CpuModel<<NesBus as Memory>::Model>, cycles: u8) -> (
    CpuModel<<NesBus as Memory>::Model>,
    Seq<Option<Color>>,
    Seq<ApuOutput>,
) {
    let bus = s.memory;
    let ppu = bus.ppu_registers;
    let chr = ChrModel { nametable_mirroring: bus.prg.mapper.mirroring(), ..ppu.memory.chr };
    let ppu1 = PpuModel { memory: PpuMemoryModel { chr, ..ppu.memory }, ..ppu };
    let (ppu2, colors, interrupt) = ppu_dots(ppu1, 3 * cycles as nat);
    let (apu2, audio) = apu_ticks(bus.apu, cycles as nat);
    (
        CpuModel {
            memory: CpuMemoryModel { ppu_registers: ppu2, apu: apu2, ..bus },
            non_maskable_interrupt: s.non_maskable_interrupt || interrupt,
            ..s
        },
        colors,
        audio,
    )
}

impl NES {
    /// The CPU and its devices are well formed.
    pub open spec fn wf(&self) -> bool {
        self.cpu.wf()
    }

    /// The console just after `cartridge` was inserted: the cartridge's memories are on the
    /// buses, the internal RAM is zero, the controller, APU and PPU are in their initial state,
    /// and the CPU starts at the address held by the reset vector with its registers clear.
    pub open spec fn started_with(self, cartridge: Cartridge) -> bool {
        &&& self.cpu.memory.model().prg == cartridge.prg.model()
        &&& self.cpu.memory.model().ppu_registers.memory.chr == cartridge.chr.model()
        &&& self.cpu.memory.internal_ram@ == Seq::new(0x800, |i: int| 0u8)
        &&& self.cpu.memory.input == (Controller {
            buttons: crate::input::Buttons(0),
            strobe: false,
            read_cursor: crate::input::CURSOR_START,
        })
        &&& self.cpu.memory.apu == (APU {
            pulse_1: crate::apu::pulse::PulseGenerator::initial(),
            pulse_2: crate::apu::pulse::PulseGenerator::initial(),
            triangle: crate::apu::triangle::TriangleGenerator::initial(),
            noise: crate::apu::noise::NoiseGenerator::initial(),
            mode_toggle: false,
            cycles: 0,
        })
        &&& self.cpu.accumulator == 0
        &&& self.cpu.x == 0
        &&& self.cpu.y == 0
        &&& self.cpu.stack_pointer.0 == 0xFF
        &&& self.cpu.status == crate::cpu::status_from_bits(0)
        &&& !self.cpu.non_maskable_interrupt
        &&& !self.cpu.bus_fault
        &&& !self.cpu.memory.dma_fault
        &&& self.ppu_started()
        &&& self.cpu.program_counter.0 == crate::address::join(
            PRG::peek(cartridge.prg.model(), crate::address::Address(0xFFFD)),
            PRG::peek(cartridge.prg.model(), crate::address::Address(0xFFFC)),
        )
    }

    /// The PPU in its power-on state: registers, OAM, shift registers and selected sprites
    /// clear, at the start of the first scanline, with the power-on palette.
    pub open spec fn ppu_started(self) -> bool {
        let ppu = self.cpu.memory.ppu_registers;
        &&& ppu.memory.palette_ram@ == crate::ppu::memory::initial_palette()
        &&& ppu.read_buffer == 0
        &&& ppu.object_attribute_memory@ == Seq::new(256, |i: int| 0u8)
        &&& ppu.scanline == 0
        &&& ppu.cycle_count == 0
        &&& ppu.tile_pattern == crate::ppu::ShiftRegister(0, 0)
        &&& ppu.palette_select == crate::ppu::ShiftRegister(0, 0)
        &&& ppu.active_sprites@ == Seq::new(8, |i: int| crate::ppu::sprite::default_active_sprite())
        &&& !ppu.active_sprites_has_zero
        &&& ppu.control.0 == 0
        &&& ppu.mask.0 == 0
        &&& ppu.status == (crate::ppu::status::Status {
            vblank: false,
            sprite_zero_hit: false,
            sprite_overflow: false,
        })
        &&& ppu.address == 0
        &&& ppu.temporary_address == 0
        &&& !ppu.write_lower
        &&& ppu.fine_x == 0
        &&& ppu.oam_address == 0
        &&& !ppu.suppress_vblank
        &&& !ppu.bus_fault
    }

    /// A console with `cartridge` inserted, the CPU started at the reset vector.
    pub fn new(cartridge: Cartridge) -> (nes: Self)
        requires
            cartridge.prg.inv(),
            cartridge.chr.inv(),
        ensures
            nes.wf(),
            nes.started_with(cartridge),
    {
        let (prg, chr) = cartridge.get_prg_chr();
        let ppu = PPU::with_memory(NESPPUMemory::new(chr));
        let memory = NESCPUMemory::new(prg, ppu, APU::default(), Controller::default());
        let cpu = CPU::from_memory(memory);
        NES { cpu }
    }

    /// Where the CPU will fetch its next instruction.
    pub fn program_counter(&self) -> (a: Address)
        ensures
            a == self.cpu.program_counter,
    {
        self.cpu.program_counter()
    }

    /// Moves the CPU to `address`; nothing else changes.
    pub fn set_program_counter(&mut self, address: Address)
        requires
            old(self).wf(),
        ensures
            final(self).wf(),
            final(self).cpu.model() == (CpuModel {
                program_counter: address.0,
                ..old(self).cpu.model()
            }),
    {
        self.cpu.set_program_counter(address);
    }

    /// Replaces the console by one with `cartridge` inserted, started afresh.
    pub fn load_cartridge(&mut self, cartridge: Cartridge)
        requires
            cartridge.prg.inv(),
            cartridge.chr.inv(),
        ensures
            final(self).wf(),
            final(self).started_with(cartridge),
    {
        *self = NES::new(cartridge);
    }

    /// Reads `address` on the CPU's bus, as the CPU would, without counting a cycle: the byte
    /// the bus answers, and the bus in the state the read leaves it.
    pub fn read_cpu(&mut self, address: Address) -> (byte: u8)
        requires
            old(self).wf(),
            NesBus::accepts(address),
        ensures
            final(self).wf(),
            byte == NesBus::peek(old(self).cpu.memory.model(), address),
            final(self).cpu.model() == (CpuModel {
                memory: NesBus::after_read(old(self).cpu.memory.model(), address),
                ..old(self).cpu.model()
            }),
    {
        self.cpu.memory().read(address)
    }

    /// The controller, for pressing and releasing buttons.
    pub fn controller(&mut self) -> (c: &mut Controller)
        ensures
            *c == old(self).cpu.memory.input,
            final(self).cpu.memory.input == *final(c),
            final(self).cpu.memory.prg == old(self).cpu.memory.prg,
            final(self).cpu.memory.ppu_registers == old(self).cpu.memory.ppu_registers,
            final(self).cpu.memory.apu == old(self).cpu.memory.apu,
            final(self).cpu.memory.internal_ram == old(self).cpu.memory.internal_ram,
            final(self).cpu.memory.the_rest == old(self).cpu.memory.the_rest,
            final(self).cpu.model() == (CpuModel {
                memory: CpuMemoryModel { input: *final(c), ..old(self).cpu.model().memory },
                ..old(self).cpu.model()
            }),
    {
        &mut self.cpu.memory.input
    }

    /// The cartridge's RAM, if it changed since the last call.
    pub fn changed_ram(&mut self) -> (r: Option<Vec<u8>>)
        requires
            old(self).wf(),
        ensures
            final(self).wf(),
            old(self).cpu.memory.prg.dirty_ram ==> (r matches Some(v) && v@
                == old(self).cpu.memory.prg.ram@),
            !old(self).cpu.memory.prg.dirty_ram ==> r is None,
            final(self).cpu.model() == (CpuModel {
                memory: CpuMemoryModel {
                    prg: crate::cartridge::PrgModel {
                        dirty_ram: false,
                        ..old(self).cpu.model().memory.prg
                    },
                    ..old(self).cpu.model().memory
                },
                ..old(self).cpu.model()
            }),
    {
        self.cpu.memory.prg.changed_ram()
    }

    /// Runs one instruction and the devices alongside it. `None` when the next opcode names
    /// no instruction (the opcode is read and nothing else happens), or when the CPU, an OAM
    /// DMA, or the PPU through its data port, read or wrote an address its bus does not answer (the
    /// instruction ran to its end without that access, and the devices did not run).
    pub fn tick(&mut self) -> (step: Option<NesStep>)
        requires
            old(self).wf(),
        ensures
            final(self).wf(),
            step is None <==> (decode(CPU::<NesBus>::next_opcode(old(self).cpu.model())) is None
                || CPU::<NesBus>::run_step(old(self).cpu.model()).0.bus_fault
                || CPU::<NesBus>::run_step(old(self).cpu.model()).0.memory.ppu_registers.bus_fault
                || CPU::<NesBus>::run_step(old(self).cpu.model()).0.memory.dma_fault),
            step is None ==> final(self).cpu.model() == CPU::<NesBus>::run_step(
                old(self).cpu.model(),
            ).0,
            step matches Some(t) ==> ({
                let (s1, cycles) = CPU::<NesBus>::run_step(old(self).cpu.model());
                let (s2, colors, audio) = after_instruction(s1, cycles);
                &&& t.cycles == cycles
                &&& final(self).cpu.model() == s2
                &&& t.colors@ == colors
                &&& t.audio@ == audio
            }),
    {
        let cycles = match self.cpu.try_run_instruction() {
            Some(cycles) => cycles,
            None => return None,
        };
        if self.cpu.bus_fault || self.cpu.memory.ppu_registers.bus_fault
            || self.cpu.memory.dma_fault {
            return None;
        }
        let ghost s1 = self.cpu.model();

        // The mapper owns the mirroring; the CHR memory needs it.
        let mirroring = self.cpu.memory.prg.nametable_mirroring();
        self.cpu.memory.ppu_registers.memory.chr.set_nametable_mirroring(mirroring);
        let ghost p1 = self.cpu.memory.ppu_registers.model();

        let dots: usize = cycles as usize * 3;
        let mut colors: Vec<Option<Color>> = Vec::new();
        let mut interrupt = false;
        let mut i: usize = 0;
        while i < dots
            invariant
                i <= dots,
                dots == 3 * cycles,
                self.cpu.wf(),
                self.cpu.memory.apu == s1.memory.apu,
                ({
                    let (p, c, irq) = ppu_dots(p1, i as nat);
                    &&& self.cpu.memory.ppu_registers.model() == p
                    &&& colors@ == c
                    &&& interrupt == irq
                }),
                self.cpu.model() == (CpuModel {
                    memory: CpuMemoryModel {
                        ppu_registers: self.cpu.memory.ppu_registers.model(),
                        ..s1.memory
                    },
                    non_maskable_interrupt: self.cpu.non_maskable_interrupt,
                    ..s1
                }),
                self.cpu.non_maskable_interrupt == (s1.non_maskable_interrupt || interrupt),
            decreases dots - i,
        {
            let out = self.cpu.memory.ppu_registers.tick();
            if out.interrupt {
                interrupt = true;
                self.cpu.non_maskable_interrupt();
            }
            colors.push(out.color);
            i = i + 1;
        }

        let ghost s2 = self.cpu.model();
        let mut audio: Vec<ApuOutput> = Vec::new();
        let mut j: u8 = 0;
        while j < cycles
            invariant
                j <= cycles,
                self.cpu.wf(),
                ({
                    let (a, levels) = apu_ticks(s1.memory.apu, j as nat);
                    &&& self.cpu.memory.apu == a
                    &&& audio@ == levels
                }),
                self.cpu.model() == (CpuModel {
                    memory: CpuMemoryModel { apu: self.cpu.memory.apu, ..s2.memory },
                    ..s2
                }),
            decreases cycles - j,
        {
            let levels = self.cpu.memory.apu.tick();
            audio.push(levels);
            j = j + 1;
        }

        Some(NesStep { cycles, colors, audio })
    }
}

} // verus!
