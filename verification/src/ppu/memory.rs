use vstd::prelude::*;

use crate::address::Address;
use crate::memory::Memory;

verus! {

pub const PALETTE_OFFSET: u16 = 0x3f00;

/// The PPU's address space: the cartridge's CHR space (pattern tables and nametables) below
/// 0x3f00, then 32 bytes of palette RAM mirrored up to 0x3fff. The PPU's address bus is 14
/// bits wide: it does not answer from 0x4000 up.
pub struct NESPPUMemory<CHR> {
    pub palette_ram: [u8; 0x20],
    pub chr: CHR,
}

pub struct PpuMemoryModel<C> {
    pub palette_ram: Seq<u8>,
    pub chr: C,
}

/// The palette RAM entry for a palette address: the 32 bytes repeat every 32 addresses, and
/// the first colour of each sprite palette is the first colour of the matching background
/// palette.
pub open spec fn palette_entry(address: u16) -> int {
    let index = (address - PALETTE_OFFSET) % 0x20;
    if index % 4 == 0 {
        index % 16
    } else {
        index
    }
}

/// The palette RAM the PPU starts with.
pub open spec fn initial_palette() -> Seq<u8> {
    seq![
        0x09u8, 0x01, 0x00, 0x01, 0x00, 0x02, 0x02, 0x0D, 0x08, 0x10, 0x08, 0x24, 0x00, 0x00, 0x04, 0x2C,
        0x09, 0x01, 0x34, 0x03, 0x00, 0x04, 0x00, 0x14, 0x08, 0x3A, 0x00, 0x02, 0x00, 0x20, 0x2C, 0x08,
    ]
}

/// The CHR device answers at every address below the palettes.
pub open spec fn covers_chr_space<CHR: Memory>() -> bool {
    forall|a: Address| a.0 < PALETTE_OFFSET ==> #[trigger] CHR::accepts(a)
}

impl<CHR> NESPPUMemory<CHR> {
    pub fn new(chr: CHR) -> (m: Self)
        ensures
            m.palette_ram@ == initial_palette(),
            m.chr == chr,
    {
        let palette_ram = [
            0x09, 0x01, 0x00, 0x01, 0x00, 0x02, 0x02, 0x0D, 0x08, 0x10, 0x08, 0x24, 0x00, 0x00, 0x04, 0x2C,
            0x09, 0x01, 0x34, 0x03, 0x00, 0x04, 0x00, 0x14, 0x08, 0x3A, 0x00, 0x02, 0x00, 0x20, 0x2C, 0x08,
        ];
        let m = NESPPUMemory { palette_ram, chr };
        assert(m.palette_ram@ =~= initial_palette());
        m
    }

    pub fn palette_index(&self, address: Address) -> (index: usize)
        requires
            PALETTE_OFFSET <= address.0 < 0x4000,
        ensures
            index == palette_entry(address.0),
            index < 0x20,
    {
        let mut index = (address.index() - PALETTE_OFFSET as usize) % 0x0020;

        let is_unused_colour = index % 0x04 == 0;

        // unused colours mirror between sprite and background palettes
        if is_unused_colour {
            index = index % 16;
        }

        index
    }
}

impl<CHR: Memory> Memory for NESPPUMemory<CHR> {
    type Model = PpuMemoryModel<CHR::Model>;

    open spec fn model(&self) -> PpuMemoryModel<CHR::Model> {
        PpuMemoryModel { palette_ram: self.palette_ram@, chr: self.chr.model() }
    }

    open spec fn inv(&self) -> bool {
        self.chr.inv() && covers_chr_space::<CHR>()
    }

    /// The PPU's 14-bit bus: pattern tables, nametables and palettes below 0x4000.
    open spec fn accepts(address: Address) -> bool {
        address.0 < 0x4000
    }

    open spec fn peek(m: PpuMemoryModel<CHR::Model>, address: Address) -> u8 {
        let a = address.0;
        if a < PALETTE_OFFSET {
            CHR::peek(m.chr, Address(a))
        } else {
            m.palette_ram[palette_entry(a)]
        }
    }

    open spec fn after_read(m: PpuMemoryModel<CHR::Model>, address: Address) -> PpuMemoryModel<
        CHR::Model,
    > {
        let a = address.0;
        if a < PALETTE_OFFSET {
            PpuMemoryModel { chr: CHR::after_read(m.chr, Address(a)), ..m }
        } else {
            m
        }
    }

    open spec fn after_write(
        m: PpuMemoryModel<CHR::Model>,
        address: Address,
        byte: u8,
    ) -> PpuMemoryModel<CHR::Model> {
        let a = address.0;
        if a < PALETTE_OFFSET {
            PpuMemoryModel { chr: CHR::after_write(m.chr, Address(a), byte), ..m }
        } else {
            PpuMemoryModel { palette_ram: m.palette_ram.update(palette_entry(a), byte), ..m }
        }
    }

    fn answers(address: Address) -> (b: bool) {
        address.0 < 0x4000
    }

    fn read(&mut self, address: Address) -> (byte: u8) {
        if address.0 < PALETTE_OFFSET {
            self.chr.read(address)
        } else {
            let i = self.palette_index(address);
            self.palette_ram[i]
        }
    }

    fn write(&mut self, address: Address, byte: u8) {
        if address.0 < PALETTE_OFFSET {
            self.chr.write(address, byte)
        } else {
            let i = self.palette_index(address);
            self.palette_ram[i] = byte;
        }
    }
}

impl<CHR: Memory> NESPPUMemory<CHR> {
    /// Palette RAM repeats every 32 bytes from 0x3f00 to 0x3fff, and the first colour of each
    /// sprite palette (0x3f10, 0x3f14, 0x3f18, 0x3f1c) is the first colour of the matching
    /// background palette: a write is read back at each of its mirrors.
    pub proof fn lemma_palette_mirrored(
        m: PpuMemoryModel<CHR::Model>,
        address: Address,
        mirror: Address,
        byte: u8,
    )
        requires
            m.palette_ram.len() == 0x20,
            PALETTE_OFFSET <= address.0 < 0x4000,
            PALETTE_OFFSET <= mirror.0 < 0x4000,
            (address.0 - mirror.0) % 0x20 == 0 || (address.0 % 4 == 0 && (address.0 - mirror.0)
                % 0x10 == 0),
        ensures
            Self::peek(Self::after_write(m, address, byte), mirror) == byte,
    {
        assert(palette_entry(address.0) == palette_entry(mirror.0)) by {
            let i = (address.0 - PALETTE_OFFSET) % 0x20;
            let j = (mirror.0 - PALETTE_OFFSET) % 0x20;
            assert(0 <= i < 0x20 && 0 <= j < 0x20);
        }
    }
}

} // verus!
