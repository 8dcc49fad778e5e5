use nes_rust::address::Address;
use nes_rust::apu::APU;
use nes_rust::cpu::NESCPUMemory;
use nes_rust::input::Input;
use nes_rust::memory::{ArrayMemory, Memory};
use nes_rust::ppu::PPURegisters;

#[derive(Copy, Clone)]
struct MockPPURegisters {
    control: u8,
    mask: u8,
    status: u8,
    oam_address: u8,
    oam_data: u8,
    scroll: u8,
    address: u8,
    data: u8,
    oam_dma: [u8; 256],
}

/// The mock is its own model: each register keeps the last byte written to it.
impl PPURegisters for MockPPURegisters {
    type Model = MockPPURegisters;

    fn model(&self) -> MockPPURegisters {
        *self
    }

    fn inv(&self) -> bool {
        true
    }

    fn control_written(m: MockPPURegisters, byte: u8) -> MockPPURegisters {
        MockPPURegisters { control: byte, ..m }
    }

    fn mask_written(m: MockPPURegisters, byte: u8) -> MockPPURegisters {
        MockPPURegisters { mask: byte, ..m }
    }

    fn status_read(m: MockPPURegisters) -> (MockPPURegisters, u8) {
        (m, m.status)
    }

    fn oam_address_written(m: MockPPURegisters, byte: u8) -> MockPPURegisters {
        MockPPURegisters { oam_address: byte, ..m }
    }

    fn oam_data_read(m: MockPPURegisters) -> (MockPPURegisters, u8) {
        (m, m.oam_data)
    }

    fn oam_data_written(m: MockPPURegisters, byte: u8) -> MockPPURegisters {
        MockPPURegisters { oam_data: byte, ..m }
    }

    fn scroll_written(m: MockPPURegisters, byte: u8) -> MockPPURegisters {
        MockPPURegisters { scroll: byte, ..m }
    }

    fn address_written(m: MockPPURegisters, byte: u8) -> MockPPURegisters {
        MockPPURegisters { address: byte, ..m }
    }

    fn data_read(m: MockPPURegisters) -> (MockPPURegisters, u8) {
        (m, m.data)
    }

    fn data_written(m: MockPPURegisters, byte: u8) -> MockPPURegisters {
        MockPPURegisters { data: byte, ..m }
    }

    fn oam_dma_written(m: MockPPURegisters, bytes: [u8; 256]) -> MockPPURegisters {
        MockPPURegisters { oam_dma: bytes, ..m }
    }

    fn write_control(&mut self, byte: u8) {
        self.control = byte;
    }

    fn write_mask(&mut self, byte: u8) {
        self.mask = byte;
    }

    fn read_status(&mut self) -> u8 {
        self.status
    }

    fn write_oam_address(&mut self, byte: u8) {
        self.oam_address = byte;
    }

    fn read_oam_data(&mut self) -> u8 {
        self.oam_data
    }

    fn write_oam_data(&mut self, byte: u8) {
        self.oam_data = byte;
    }

    fn write_scroll(&mut self, byte: u8) {
        self.scroll = byte;
    }

    fn write_address(&mut self, byte: u8) {
        self.address = byte;
    }

    fn read_data(&mut self) -> u8 {
        self.data
    }

    fn write_data(&mut self, byte: u8) {
        self.data = byte;
    }

    fn write_oam_dma(&mut self, bytes: [u8; 256]) {
        self.oam_dma = bytes;
    }
}

#[derive(Copy, Clone)]
struct MockInput(u8);

/// The mock input is its own model: a read gives the last byte written.
impl Input for MockInput {
    fn read_value(self) -> u8 {
        self.0
    }

    fn after_read(self) -> MockInput {
        self
    }

    fn after_write(self, value: u8) -> MockInput {
        MockInput(value)
    }

    fn read(&mut self) -> u8 {
        self.0
    }

    fn write(&mut self, value: u8) {
        self.0 = value;
    }
}

fn nes_cpu_memory() -> NESCPUMemory<ArrayMemory, MockPPURegisters, MockInput> {
    let ppu = MockPPURegisters {
        control: 0,
        mask: 0,
        status: 0,
        oam_address: 0,
        oam_data: 0,
        scroll: 0,
        address: 0,
        data: 0,
        oam_dma: [0; 256],
    };
    let prg = ArrayMemory::default();
    let input = MockInput(0);
    NESCPUMemory::new(prg, ppu, APU::default(), input)
}

#[test]
fn can_read_and_write_internal_ram_in_nes_cpu_memory() {
    let mut memory = nes_cpu_memory();

    for value in 0x0..=0x07ff {
        let address = Address::new(value);

        memory.write(address, value as u8);
        assert_eq!(memory.read(address), value as u8);
    }
}

#[test]
fn nes_cpu_memory_addresses_0x800_to_0x1fff_mirror_internal_ram() {
    let mut memory = nes_cpu_memory();

    for value in 0x0800..=0x1fff {
        let address = Address::new(value);
        let true_address = Address::new(value % 0x0800);

        memory.write(address, value as u8);
        assert_eq!(memory.read(address), value as u8);
        assert_eq!(memory.read(true_address), value as u8);

        memory.write(true_address, (value + 1) as u8);
        assert_eq!(memory.read(address), (value + 1) as u8);
    }
}

#[test]
fn can_write_ppuctrl_in_nes_cpu_memory() {
    let mut memory = nes_cpu_memory();
    memory.write(Address::new(0x2000), 0x43);
    assert_eq!(memory.ppu_registers.control, 0x43);
    memory.write(Address::new(0x3ff8), 0x44);
    assert_eq!(memory.ppu_registers.control, 0x44);
}

#[test]
fn can_write_ppumask_in_nes_cpu_memory() {
    let mut memory = nes_cpu_memory();
    memory.write(Address::new(0x2001), 0x43);
    assert_eq!(memory.ppu_registers.mask, 0x43);
    memory.write(Address::new(0x3ff9), 0x44);
    assert_eq!(memory.ppu_registers.mask, 0x44);
}

#[test]
fn can_read_ppustatus_in_nes_cpu_memory() {
    let mut memory = nes_cpu_memory();
    memory.ppu_registers.status = 0x43;
    assert_eq!(memory.read(Address::new(0x2002)), 0x43);
    assert_eq!(memory.read(Address::new(0x3ffa)), 0x43);
}

#[test]
fn can_write_oamaddr_in_nes_cpu_memory() {
    let mut memory = nes_cpu_memory();
    memory.write(Address::new(0x2003), 0x43);
    assert_eq!(memory.ppu_registers.oam_address, 0x43);
    memory.write(Address::new(0x3ffb), 0x44);
    assert_eq!(memory.ppu_registers.oam_address, 0x44);
}

#[test]
fn can_read_oamdata_in_nes_cpu_memory() {
    let mut memory = nes_cpu_memory();
    memory.ppu_registers.oam_data = 0x43;
    assert_eq!(memory.read(Address::new(0x3ffc)), 0x43);
    assert_eq!(memory.read(Address::new(0x2004)), 0x43);
}

#[test]
fn can_write_oamdata_in_nes_cpu_memory() {
    let mut memory = nes_cpu_memory();
    memory.write(Address::new(0x2004), 0x43);
    assert_eq!(memory.ppu_registers.oam_data, 0x43);
    memory.write(Address::new(0x3ffc), 0x44);
    assert_eq!(memory.ppu_registers.oam_data, 0x44);
}

#[test]
fn can_write_oamdma_in_nes_cpu_memory() {
    let mut expected = [0u8; 256];
    #[allow(clippy::needless_range_loop)] // Cleaner like this
    for i in 0..=255 {
        expected[i] = i as u8;
    }

    let mut memory = nes_cpu_memory();
    for i in 0x0200..=0x02ff {
        memory.write(Address::new(i), expected[i as usize % 256]);
    }
    memory.write(Address::new(0x4014), 0x02);

    assert_eq!(memory.ppu_registers.oam_dma, expected);
}

#[test]
fn can_write_ppuscroll_in_nes_cpu_memory() {
    let mut memory = nes_cpu_memory();
    memory.write(Address::new(0x2005), 0x43);
    assert_eq!(memory.ppu_registers.scroll, 0x43);
    memory.write(Address::new(0x3ffd), 0x44);
    assert_eq!(memory.ppu_registers.scroll, 0x44);
}

#[test]
fn can_write_ppuaddr_in_nes_cpu_memory() {
    let mut memory = nes_cpu_memory();
    memory.write(Address::new(0x2006), 0x43);
    assert_eq!(memory.ppu_registers.address, 0x43);
    memory.write(Address::new(0x3ffe), 0x44);
    assert_eq!(memory.ppu_registers.address, 0x44);
}

#[test]
fn can_read_ppudata_in_nes_cpu_memory() {
    let mut memory = nes_cpu_memory();
    memory.write(Address::new(0x2007), 0x43);
    assert_eq!(memory.ppu_registers.data, 0x43);
    memory.write(Address::new(0x3fff), 0x44);
    assert_eq!(memory.ppu_registers.data, 0x44);
}

#[test]
fn can_write_ppudata_in_nes_cpu_memory() {
    let mut memory = nes_cpu_memory();
    memory.ppu_registers.data = 0x43;
    assert_eq!(memory.read(Address::new(0x3fff)), 0x43);
    assert_eq!(memory.read(Address::new(0x2007)), 0x43);
}

#[test]
fn can_read_and_write_cartridge_space_in_nes_cpu_memory() {
    let mut memory = nes_cpu_memory();

    for value in 0x4020..=0xffff {
        let address = Address::new(value);

        memory.write(address, value as u8);
        assert_eq!(memory.read(address), value as u8);
        assert_eq!(memory.prg.read(address), value as u8);
    }
}

#[test]
fn memory_reading_from_4016_reads_from_input_device() {
    let mut memory = nes_cpu_memory();
    memory.input.0 = 24;
    assert_eq!(memory.read(Address::new(0x4016)), 24);
}

#[test]
fn memory_writing_to_4016_writes_to_input_device() {
    let mut memory = nes_cpu_memory();
    memory.write(Address::new(0x4016), 52);
    assert_eq!(memory.input.0, 52);
}

// The same scenarios, through the bus as the CPU sees it.

#[test]
fn can_read_and_write_internal_ram_in_cpu_bus() {
    let mut bus = nes_cpu_memory();

    for value in 0x0..=0x07ff {
        let address = Address::new(value);

        bus.write(address, value as u8);
        assert_eq!(bus.read(address), value as u8);
    }
}

#[test]
fn cpu_bus_addresses_0x800_to_0x1fff_mirror_internal_ram() {
    let mut bus = nes_cpu_memory();

    for value in 0x0800..=0x1fff {
        let address = Address::new(value);
        let true_address = Address::new(value % 0x0800);

        bus.write(address, value as u8);
        assert_eq!(bus.read(address), value as u8);
        assert_eq!(bus.read(true_address), value as u8);

        bus.write(true_address, (value + 1) as u8);
        assert_eq!(bus.read(address), (value + 1) as u8);
    }
}

#[test]
fn can_write_ppuctrl_in_cpu_bus() {
    let mut bus = nes_cpu_memory();
    bus.write(Address::new(0x2000), 0x43);
    assert_eq!(bus.ppu_registers.control, 0x43);
    bus.write(Address::new(0x3ff8), 0x44);
    assert_eq!(bus.ppu_registers.control, 0x44);
}

#[test]
fn can_write_ppumask_in_cpu_bus() {
    let mut bus = nes_cpu_memory();
    bus.write(Address::new(0x2001), 0x43);
    assert_eq!(bus.ppu_registers.mask, 0x43);
    bus.write(Address::new(0x3ff9), 0x44);
    assert_eq!(bus.ppu_registers.mask, 0x44);
}

#[test]
fn can_read_ppustatus_in_cpu_bus() {
    let mut bus = nes_cpu_memory();
    bus.ppu_registers.status = 0x43;
    assert_eq!(bus.read(Address::new(0x2002)), 0x43);
    assert_eq!(bus.read(Address::new(0x3ffa)), 0x43);
}

#[test]
fn can_write_oamaddr_in_cpu_bus() {
    let mut bus = nes_cpu_memory();
    bus.write(Address::new(0x2003), 0x43);
    assert_eq!(bus.ppu_registers.oam_address, 0x43);
    bus.write(Address::new(0x3ffb), 0x44);
    assert_eq!(bus.ppu_registers.oam_address, 0x44);
}

#[test]
fn can_read_oamdata_in_cpu_bus() {
    let mut bus = nes_cpu_memory();
    bus.ppu_registers.oam_data = 0x43;
    assert_eq!(bus.read(Address::new(0x3ffc)), 0x43);
    assert_eq!(bus.read(Address::new(0x2004)), 0x43);
}

#[test]
fn can_write_oamdata_in_cpu_bus() {
    let mut bus = nes_cpu_memory();
    bus.write(Address::new(0x2004), 0x43);
    assert_eq!(bus.ppu_registers.oam_data, 0x43);
    bus.write(Address::new(0x3ffc), 0x44);
    assert_eq!(bus.ppu_registers.oam_data, 0x44);
}

#[test]
fn can_write_oamdma_in_cpu_bus() {
    let mut expected = [0u8; 256];
    #[allow(clippy::needless_range_loop)] // Cleaner like this
    for i in 0..=255 {
        expected[i] = i as u8;
    }

    let mut bus = nes_cpu_memory();
    for i in 0x0200..=0x02ff {
        bus.write(Address::new(i), expected[i as usize % 256]);
    }
    bus.write(Address::new(0x4014), 0x02);

    assert_eq!(bus.ppu_registers.oam_dma, expected);
}

#[test]
fn can_write_ppuscroll_in_cpu_bus() {
    let mut bus = nes_cpu_memory();
    bus.write(Address::new(0x2005), 0x43);
    assert_eq!(bus.ppu_registers.scroll, 0x43);
    bus.write(Address::new(0x3ffd), 0x44);
    assert_eq!(bus.ppu_registers.scroll, 0x44);
}

#[test]
fn can_write_ppuaddr_in_cpu_bus() {
    let mut bus = nes_cpu_memory();
    bus.write(Address::new(0x2006), 0x43);
    assert_eq!(bus.ppu_registers.address, 0x43);
    bus.write(Address::new(0x3ffe), 0x44);
    assert_eq!(bus.ppu_registers.address, 0x44);
}

#[test]
fn can_read_ppudata_in_cpu_bus() {
    let mut bus = nes_cpu_memory();
    bus.write(Address::new(0x2007), 0x43);
    assert_eq!(bus.ppu_registers.data, 0x43);
    bus.write(Address::new(0x3fff), 0x44);
    assert_eq!(bus.ppu_registers.data, 0x44);
}

#[test]
fn can_write_ppudata_in_cpu_bus() {
    let mut bus = nes_cpu_memory();
    bus.ppu_registers.data = 0x43;
    assert_eq!(bus.read(Address::new(0x3fff)), 0x43);
    assert_eq!(bus.read(Address::new(0x2007)), 0x43);
}

#[test]
fn can_read_and_write_cartridge_space_in_cpu_bus() {
    let mut bus = nes_cpu_memory();

    for value in 0x4020..=0xffff {
        let address = Address::new(value);

        bus.write(address, value as u8);
        assert_eq!(bus.read(address), value as u8);
        assert_eq!(bus.prg.read(address), value as u8);
    }
}

#[test]
fn reading_from_4016_reads_from_input_device() {
    let mut bus = nes_cpu_memory();
    bus.input.0 = 24;
    assert_eq!(bus.read(Address::new(0x4016)), 24);
}

#[test]
fn writing_to_4016_writes_to_input_device() {
    let mut bus = nes_cpu_memory();
    bus.write(Address::new(0x4016), 52);
    assert_eq!(bus.input.0, 52);
}
