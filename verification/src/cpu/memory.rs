use vstd::prelude::*;

use crate::address::{add16, Address};
use crate::apu::APU;
use crate::input::Input;
use crate::memory::{ArrayMemory, Memory};
use crate::ppu::PPURegisters;

verus! {

pub const PPU_SPACE: u16 = 0x2000;

pub const PPU_CONTROL: u16 = 0x2000;

pub const PPU_MASK: u16 = 0x2001;

pub const PPU_STATUS: u16 = 0x2002;

pub const OAM_ADDRESS: u16 = 0x2003;

pub const OAM_DATA: u16 = 0x2004;

pub const PPU_SCROLL: u16 = 0x2005;

pub const PPU_ADDRESS: u16 = 0x2006;

pub const PPU_DATA: u16 = 0x2007;

pub const APU_SPACE: u16 = 0x4000;

pub const APU_PULSE_1_FLAGS: u16 = 0x4000;

pub const APU_PULSE_1_TIMER: u16 = 0x4002;

pub const APU_PULSE_1_LENGTH: u16 = 0x4003;

pub const APU_PULSE_2_FLAGS: u16 = 0x4004;

pub const APU_PULSE_2_TIMER: u16 = 0x4006;

pub const APU_PULSE_2_LENGTH: u16 = 0x4007;

pub const APU_TRIANGLE_FLAGS: u16 = 0x4008;

pub const APU_TRIANGLE_TIMER: u16 = 0x400a;

pub const APU_TRIANGLE_LENGTH: u16 = 0x400b;

pub const APU_NOISE_FLAGS: u16 = 0x400c;

pub const APU_NOISE_MODE: u16 = 0x400e;

pub const APU_NOISE_LENGTH: u16 = 0x400f;

pub const OAM_DMA: u16 = 0x4014;

pub const APU_STATUS: u16 = 0x4015;

pub const JOY1_ADDRESS: u16 = 0x4016;

/// The APU's test registers, which no cartridge uses.
pub const APU_TEST_SPACE: u16 = 0x4018;

pub const APU_FRAME_COUNTER: u16 = 0x4017;

pub const PRG_SPACE: u16 = 0x4020;

/// The NES's CPU address space: 2KB of internal RAM mirrored up to 0x1fff, the PPU's eight
/// registers mirrored up to 0x3fff, the APU and controller registers at 0x4000-0x4017, and
/// the cartridge from 0x4020. The bus does not answer the APU's test registers
/// (0x4018-0x401f) nor the addresses from 0x4020 that the cartridge does not answer; APU
/// registers below 0x4018 that are not emulated are kept as plain memory.
pub struct NESCPUMemory<PRG, PPU, IN> {
    pub internal_ram: [u8; 0x800],
    pub prg: PRG,
    pub ppu_registers: PPU,
    pub apu: APU,
    pub input: IN,
    pub the_rest: ArrayMemory,
    /// Set when an OAM DMA reads an address the bus does not answer; that byte is not read.
    pub dma_fault: bool,
}

pub struct CpuMemoryModel<PM, RM, IN> {
    pub internal_ram: Seq<u8>,
    pub prg: PM,
    pub ppu_registers: RM,
    pub apu: APU,
    pub input: IN,
    pub the_rest: Seq<u8>,
    pub dma_fault: bool,
}

/// The APU after a write of `byte` to `address`, if it has a register there.
pub open spec fn apu_written(apu: APU, address: u16, byte: u8) -> Option<APU> {
    if address == APU_PULSE_1_FLAGS {
        Some(APU { pulse_1: apu.pulse_1.flags_written(byte), ..apu })
    } else if address == APU_PULSE_1_TIMER {
        Some(APU { pulse_1: apu.pulse_1.timer_written(byte), ..apu })
    } else if address == APU_PULSE_1_LENGTH {
        Some(APU { pulse_1: apu.pulse_1.length_written(byte), ..apu })
    } else if address == APU_PULSE_2_FLAGS {
        Some(APU { pulse_2: apu.pulse_2.flags_written(byte), ..apu })
    } else if address == APU_PULSE_2_TIMER {
        Some(APU { pulse_2: apu.pulse_2.timer_written(byte), ..apu })
    } else if address == APU_PULSE_2_LENGTH {
        Some(APU { pulse_2: apu.pulse_2.length_written(byte), ..apu })
    } else if address == APU_TRIANGLE_FLAGS {
        Some(APU { triangle: apu.triangle.flags_written(byte), ..apu })
    } else if address == APU_TRIANGLE_TIMER {
        Some(APU { triangle: apu.triangle.timer_written(byte), ..apu })
    } else if address == APU_TRIANGLE_LENGTH {
        Some(APU { triangle: apu.triangle.length_written(byte), ..apu })
    } else if address == APU_NOISE_FLAGS {
        Some(APU { noise: apu.noise.flags_written(byte), ..apu })
    } else if address == APU_NOISE_MODE {
        Some(APU { noise: apu.noise.mode_written(byte), ..apu })
    } else if address == APU_NOISE_LENGTH {
        Some(APU { noise: apu.noise.length_written(byte), ..apu })
    } else if address == APU_FRAME_COUNTER {
        Some(APU { mode_toggle: byte & 0b1000_0000 != 0, ..apu })
    } else if address == APU_STATUS {
        Some(apu.status_written(byte))
    } else {
        None
    }
}

impl<PRG: Memory, PPU: PPURegisters, IN: Input> NESCPUMemory<PRG, PPU, IN> {
    pub fn new(prg: PRG, ppu_registers: PPU, apu: APU, input: IN) -> (m: Self)
        ensures
            m.internal_ram@ == Seq::new(0x800, |i: int| 0u8),
            m.prg == prg,
            m.ppu_registers == ppu_registers,
            m.apu == apu,
            m.input == input,
            m.the_rest.inv(),
            m.the_rest.bytes() == Seq::new(0x10000, |i: int| 0u8),
            !m.dma_fault,
    {
        let m = NESCPUMemory {
            internal_ram: [0u8; 0x800],
            prg,
            ppu_registers,
            apu,
            input,
            the_rest: ArrayMemory::default(),
            dma_fault: false,
        };
        assert(m.internal_ram@ =~= Seq::new(0x800, |i: int| 0u8));
        m
    }

    pub fn ppu_registers(&mut self) -> (r: &mut PPU)
        ensures
            *r == old(self).ppu_registers,
            final(self).ppu_registers == *final(r),
            final(self).internal_ram == old(self).internal_ram,
            final(self).prg == old(self).prg,
            final(self).apu == old(self).apu,
            final(self).input == old(self).input,
            final(self).the_rest == old(self).the_rest,
            final(self).dma_fault == old(self).dma_fault,
    {
        &mut self.ppu_registers
    }

    pub fn apu(&mut self) -> (r: &mut APU)
        ensures
            *r == old(self).apu,
            final(self).apu == *final(r),
            final(self).internal_ram == old(self).internal_ram,
            final(self).prg == old(self).prg,
            final(self).ppu_registers == old(self).ppu_registers,
            final(self).input == old(self).input,
            final(self).the_rest == old(self).the_rest,
            final(self).dma_fault == old(self).dma_fault,
    {
        &mut self.apu
    }

    pub fn input(&mut self) -> (r: &mut IN)
        ensures
            *r == old(self).input,
            final(self).input == *final(r),
            final(self).internal_ram == old(self).internal_ram,
            final(self).prg == old(self).prg,
            final(self).ppu_registers == old(self).ppu_registers,
            final(self).apu == old(self).apu,
            final(self).the_rest == old(self).the_rest,
            final(self).dma_fault == old(self).dma_fault,
    {
        &mut self.input
    }

    pub fn prg(&mut self) -> (r: &mut PRG)
        ensures
            *r == old(self).prg,
            final(self).prg == *final(r),
            final(self).internal_ram == old(self).internal_ram,
            final(self).ppu_registers == old(self).ppu_registers,
            final(self).apu == old(self).apu,
            final(self).input == old(self).input,
            final(self).the_rest == old(self).the_rest,
            final(self).dma_fault == old(self).dma_fault,
    {
        &mut self.prg
    }

    /// A read from the bus: the state after it, and the byte read. Reading a PPU register
    /// that cannot be read gives 0 (open bus). Outside `accepts` (reached only by an OAM DMA
    /// from such a page) the APU's test registers and the addresses the cartridge does not
    /// answer read as plain memory.
    pub open spec fn read_spec(
        m: CpuMemoryModel<PRG::Model, PPU::Model, IN>,
        address: Address,
    ) -> (CpuMemoryModel<PRG::Model, PPU::Model, IN>, u8) {
        let a = address.0;
        if a >= PRG_SPACE && PRG::accepts(address) {
            (
                CpuMemoryModel { prg: PRG::after_read(m.prg, address), ..m },
                PRG::peek(m.prg, address),
            )
        } else if a == JOY1_ADDRESS {
            (CpuMemoryModel { input: m.input.after_read(), ..m }, m.input.read_value())
        } else if a == APU_STATUS {
            (m, m.apu.status_byte())
        } else if a >= APU_SPACE {
            (m, m.the_rest[a as int])
        } else if a >= PPU_SPACE {
            let register = a % 8;
            if register == 2 {
                let (p, b) = PPU::status_read(m.ppu_registers);
                (CpuMemoryModel { ppu_registers: p, ..m }, b)
            } else if register == 4 {
                let (p, b) = PPU::oam_data_read(m.ppu_registers);
                (CpuMemoryModel { ppu_registers: p, ..m }, b)
            } else if register == 7 {
                let (p, b) = PPU::data_read(m.ppu_registers);
                (CpuMemoryModel { ppu_registers: p, ..m }, b)
            } else {
                (m, 0)
            }
        } else {
            (m, m.internal_ram[(a % 0x800) as int])
        }
    }

    /// The first `n` reads of an OAM DMA from page `page`, in order: the state after them,
    /// and the bytes read.
    pub open spec fn dma_spec(m: CpuMemoryModel<PRG::Model, PPU::Model, IN>, page: u8, n: nat) -> (
        CpuMemoryModel<PRG::Model, PPU::Model, IN>,
        Seq<u8>,
    )
        decreases n,
    {
        if n == 0 {
            (m, Seq::empty())
        } else {
            let (m1, data) = Self::dma_spec(m, page, (n - 1) as nat);
            let a = Address((page * 256 + (n - 1)) as u16);
            let (m2, b) = if Self::accepts(a) {
                Self::read_spec(m1, a)
            } else {
                (CpuMemoryModel { dma_fault: true, ..m1 }, 0)
            };
            (m2, data.push(b))
        }
    }

    /// A write to the bus. A write to 0x4014 copies page `byte` of the bus to the PPU's
    /// object attribute memory; an address of the page that the bus does not answer is not
    /// read: a DMA fault is noted and 0 copied in its place.
    pub open spec fn write_spec(
        m: CpuMemoryModel<PRG::Model, PPU::Model, IN>,
        address: Address,
        byte: u8,
    ) -> CpuMemoryModel<PRG::Model, PPU::Model, IN> {
        let a = address.0;
        if a >= PRG_SPACE && PRG::accepts(address) {
            CpuMemoryModel { prg: PRG::after_write(m.prg, address, byte), ..m }
        } else if a == OAM_DMA {
            let (m1, data) = Self::dma_spec(m, byte, 256);
            let bytes = choose|bytes: [u8; 256]| bytes@ == data;
            CpuMemoryModel { ppu_registers: PPU::oam_dma_written(m1.ppu_registers, bytes), ..m1 }
        } else if a == JOY1_ADDRESS {
            CpuMemoryModel { input: m.input.after_write(byte), ..m }
        } else if a >= APU_SPACE {
            match apu_written(m.apu, a, byte) {
                Some(apu) => CpuMemoryModel { apu, ..m },
                None => CpuMemoryModel { the_rest: m.the_rest.update(a as int, byte), ..m },
            }
        } else if a >= PPU_SPACE {
            let register = a % 8;
            let r = m.ppu_registers;
            if register == 0 {
                CpuMemoryModel { ppu_registers: PPU::control_written(r, byte), ..m }
            } else if register == 1 {
                CpuMemoryModel { ppu_registers: PPU::mask_written(r, byte), ..m }
            } else if register == 3 {
                CpuMemoryModel { ppu_registers: PPU::oam_address_written(r, byte), ..m }
            } else if register == 4 {
                CpuMemoryModel { ppu_registers: PPU::oam_data_written(r, byte), ..m }
            } else if register == 5 {
                CpuMemoryModel { ppu_registers: PPU::scroll_written(r, byte), ..m }
            } else if register == 6 {
                CpuMemoryModel { ppu_registers: PPU::address_written(r, byte), ..m }
            } else if register == 7 {
                CpuMemoryModel { ppu_registers: PPU::data_written(r, byte), ..m }
            } else {
                m
            }
        } else {
            CpuMemoryModel { internal_ram: m.internal_ram.update((a % 0x800) as int, byte), ..m }
        }
    }

    /// A read of any address, as `read_spec` says; the bus itself answers only where
    /// `accepts` holds, but an OAM DMA reads a whole page.
    fn read_any(&mut self, address: Address) -> (byte: u8)
        requires
            old(self).inv(),
        ensures
            final(self).inv(),
            (final(self).model(), byte) == Self::read_spec(old(self).model(), address),
    {
        let a = address.0;
        if a >= PRG_SPACE && PRG::answers(address) {
            self.prg.read(address)
        } else if a == JOY1_ADDRESS {
            self.input.read()
        } else if a == APU_STATUS {
            self.apu.read_status()
        } else if a >= APU_SPACE {
            self.the_rest.read(address)
        } else if a >= PPU_SPACE {
            let register = a % 8;
            if register == 2 {
                self.ppu_registers.read_status()
            } else if register == 4 {
                self.ppu_registers.read_oam_data()
            } else if register == 7 {
                self.ppu_registers.read_data()
            } else {
                // The other registers are write-only.
                0
            }
        } else {
            self.internal_ram[address.index() % 0x0800]
        }
    }

    fn write_oam_data(&mut self, page: u8)
        requires
            old(self).inv(),
        ensures
            final(self).inv(),
            final(self).model() == Self::write_spec(old(self).model(), Address(OAM_DMA), page),
    {
        let mut data = [0u8; 256];
        let ghost m0 = self.model();
        let mut offset: usize = 0;
        while offset < 256
            invariant
                offset <= 256,
                self.inv(),
                data@.len() == 256,
                ({
                    let (m1, d) = Self::dma_spec(m0, page, offset as nat);
                    &&& self.model() == m1
                    &&& d == data@.subrange(0, offset as int)
                }),
            decreases 256 - offset,
        {
            let address = Address::from_bytes(page, offset as u8);
            assert(address.0 == (page * 256 + offset) as u16);
            let b = if Self::answers(address) {
                self.read_any(address)
            } else {
                self.dma_fault = true;
                0
            };
            data[offset] = b;
            offset = offset + 1;
            assert(data@.subrange(0, offset as int) =~= data@.subrange(0, offset - 1).push(b));
        }
        assert(data@ =~= data@.subrange(0, 256));
        proof {
            let d = Self::dma_spec(m0, page, 256).1;
            assert(data@ == d);
            let bytes = choose|bytes: [u8; 256]| bytes@ == d;
            assert(bytes@ == d);
            assert(bytes =~= data);
        }
        self.ppu_registers.write_oam_dma(data);
    }
}

impl<PRG: Memory, PPU: PPURegisters, IN: Input> Memory for NESCPUMemory<PRG, PPU, IN> {
    type Model = CpuMemoryModel<PRG::Model, PPU::Model, IN>;

    open spec fn model(&self) -> CpuMemoryModel<PRG::Model, PPU::Model, IN> {
        CpuMemoryModel {
            internal_ram: self.internal_ram@,
            prg: self.prg.model(),
            ppu_registers: self.ppu_registers.model(),
            apu: self.apu,
            input: self.input,
            the_rest: self.the_rest.bytes(),
            dma_fault: self.dma_fault,
        }
    }

    open spec fn inv(&self) -> bool {
        &&& self.prg.inv()
        &&& self.ppu_registers.inv()
        &&& self.the_rest.inv()
        &&& self.apu.wf()
    }

    /// Every address but the APU's test registers (0x4018 to 0x401f), and from 0x4020 on only
    /// those the cartridge answers.
    open spec fn accepts(address: Address) -> bool {
        &&& !(APU_TEST_SPACE <= address.0 < PRG_SPACE)
        &&& address.0 >= PRG_SPACE ==> PRG::accepts(address)
    }

    open spec fn peek(m: CpuMemoryModel<PRG::Model, PPU::Model, IN>, address: Address) -> u8 {
        Self::read_spec(m, address).1
    }

    open spec fn after_read(
        m: CpuMemoryModel<PRG::Model, PPU::Model, IN>,
        address: Address,
    ) -> CpuMemoryModel<PRG::Model, PPU::Model, IN> {
        Self::read_spec(m, address).0
    }

    open spec fn after_write(
        m: CpuMemoryModel<PRG::Model, PPU::Model, IN>,
        address: Address,
        byte: u8,
    ) -> CpuMemoryModel<PRG::Model, PPU::Model, IN> {
        Self::write_spec(m, address, byte)
    }

    fn answers(address: Address) -> (b: bool) {
        if address.0 >= PRG_SPACE {
            PRG::answers(address)
        } else {
            address.0 < APU_TEST_SPACE
        }
    }

    fn read(&mut self, address: Address) -> (byte: u8) {
        self.read_any(address)
    }

    fn write(&mut self, address: Address, byte: u8) {
        let a = address.0;
        if a >= PRG_SPACE && PRG::answers(address) {
            self.prg.write(address, byte);
        } else if a == OAM_DMA {
            self.write_oam_data(byte);
        } else if a == JOY1_ADDRESS {
            self.input.write(byte);
        } else if a >= APU_SPACE {
            if a == APU_PULSE_1_FLAGS {
                self.apu.write_pulse_1_flags(byte);
            } else if a == APU_PULSE_1_TIMER {
                self.apu.write_pulse_1_timer(byte);
            } else if a == APU_PULSE_1_LENGTH {
                self.apu.write_pulse_1_length(byte);
            } else if a == APU_PULSE_2_FLAGS {
                self.apu.write_pulse_2_flags(byte);
            } else if a == APU_PULSE_2_TIMER {
                self.apu.write_pulse_2_timer(byte);
            } else if a == APU_PULSE_2_LENGTH {
                self.apu.write_pulse_2_length(byte);
            } else if a == APU_TRIANGLE_FLAGS {
                self.apu.write_triangle_flags(byte);
            } else if a == APU_TRIANGLE_TIMER {
                self.apu.write_triangle_timer(byte);
            } else if a == APU_TRIANGLE_LENGTH {
                self.apu.write_triangle_length(byte);
            } else if a == APU_NOISE_FLAGS {
                self.apu.write_noise_flags(byte);
            } else if a == APU_NOISE_MODE {
                self.apu.write_noise_mode(byte);
            } else if a == APU_NOISE_LENGTH {
                self.apu.write_noise_length(byte);
            } else if a == APU_FRAME_COUNTER {
                self.apu.write_frame_counter(byte);
            } else if a == APU_STATUS {
                self.apu.write_status(byte);
            } else {
                self.the_rest.write(address, byte);
            }
        } else if a >= PPU_SPACE {
            let register = a % 8;
            if register == 0 {
                self.ppu_registers.write_control(byte);
            } else if register == 1 {
                self.ppu_registers.write_mask(byte);
            } else if register == 3 {
                self.ppu_registers.write_oam_address(byte);
            } else if register == 4 {
                self.ppu_registers.write_oam_data(byte);
            } else if register == 5 {
                self.ppu_registers.write_scroll(byte);
            } else if register == 6 {
                self.ppu_registers.write_address(byte);
            } else if register == 7 {
                self.ppu_registers.write_data(byte);
            }
            // PPUSTATUS is read-only: writing it does nothing.
        } else {
            self.internal_ram[address.index() % 0x0800] = byte;
        }
    }
}

impl<PRG: Memory, PPU: PPURegisters, IN: Input> NESCPUMemory<PRG, PPU, IN> {
    /// The 2KB of internal RAM answer at every address below 0x2000 with the same low 11
    /// bits: a write is read back at each of its mirrors.
    pub proof fn lemma_internal_ram_mirrored(
        m: CpuMemoryModel<PRG::Model, PPU::Model, IN>,
        address: Address,
        mirror: Address,
        byte: u8,
    )
        requires
            m.internal_ram.len() == 0x800,
            address.0 < PPU_SPACE,
            mirror.0 < PPU_SPACE,
            address.0 % 0x800 == mirror.0 % 0x800,
        ensures
            Self::read_spec(Self::write_spec(m, address, byte), mirror).1 == byte,
    {
    }

    /// The eight PPU registers repeat every 8 bytes from 0x2000 to 0x3fff: an access to any
    /// mirror is an access to the register.
    pub proof fn lemma_ppu_registers_mirrored(
        m: CpuMemoryModel<PRG::Model, PPU::Model, IN>,
        address: Address,
        mirror: Address,
        byte: u8,
    )
        requires
            PPU_SPACE <= address.0 < APU_SPACE,
            PPU_SPACE <= mirror.0 < APU_SPACE,
            address.0 % 8 == mirror.0 % 8,
        ensures
            Self::read_spec(m, address) == Self::read_spec(m, mirror),
            Self::write_spec(m, address, byte) == Self::write_spec(m, mirror, byte),
    {
    }
}

} // verus!
