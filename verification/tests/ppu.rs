use nes_rust::address::Address;
use nes_rust::memory::{ArrayMemory, Memory};
use nes_rust::ppu::control::{Control, PatternTable, SpriteSize};
use nes_rust::ppu::mask::Mask;
use nes_rust::ppu::memory::NESPPUMemory;
use nes_rust::ppu::sprite::{ActiveSprite, Sprite, SpriteAttributes};
use nes_rust::ppu::status::Status;
use nes_rust::ppu::{Color, PPURegisters, PPU};

fn nes_ppu_memory() -> NESPPUMemory<ArrayMemory> {
    let chr = ArrayMemory::default();
    NESPPUMemory::new(chr)
}

fn mem(blocks: &[(u16, &[u8])]) -> ArrayMemory {
    let mut memory = ArrayMemory::default();
    for (offset, data) in blocks.iter() {
        let mut address = *offset;
        for byte in data.iter() {
            memory.write(Address::new(address), *byte);
            address = address.wrapping_add(1);
        }
    }
    memory
}

#[test]
fn mod_each_tick_produces_a_color() {
    let memory = ArrayMemory::default();
    let mut ppu = PPU::with_memory(memory);
    let _color: Option<Color> = ppu.tick().color;
}

#[test]
fn mod_writing_ppu_control_sets_control() {
    let mut ppu = PPU::with_memory(mem(&[]));

    ppu.write_control(0b1010_1010);
    assert_eq!(ppu.control, Control::from_bits(0b1010_1010));
}

#[test]
fn mod_writing_ppu_control_sets_temporary_address_to_nametable() {
    let mut ppu = PPU::with_memory(mem(&[]));

    ppu.write_control(0b0000_0000);
    assert_eq!(ppu.temporary_address, 0b0000_0000_0000_0000);
    ppu.write_control(0b0000_0001);
    assert_eq!(ppu.temporary_address, 0b0000_0100_0000_0000);
    ppu.write_control(0b0000_0010);
    assert_eq!(ppu.temporary_address, 0b0000_1000_0000_0000);
    ppu.write_control(0b0000_0011);
    assert_eq!(ppu.temporary_address, 0b0000_1100_0000_0000);
}

#[test]
fn mod_writing_ppu_control_sets_tile_address() {
    let mut ppu = PPU::with_memory(mem(&[]));

    ppu.write_control(0b0000_0000);
    ppu.address = ppu.temporary_address;
    assert_eq!(ppu.tile_address(), Address::new(0x2000));
    ppu.write_control(0b0000_0001);
    ppu.address = ppu.temporary_address;
    assert_eq!(ppu.tile_address(), Address::new(0x2400));
    ppu.write_control(0b0000_0010);
    ppu.address = ppu.temporary_address;
    assert_eq!(ppu.tile_address(), Address::new(0x2800));
    ppu.write_control(0b0000_0011);
    ppu.address = ppu.temporary_address;
    assert_eq!(ppu.tile_address(), Address::new(0x2c00));
}

#[test]
fn mod_writing_ppu_control_sets_attribute_address() {
    let mut ppu = PPU::with_memory(mem(&[]));

    ppu.write_control(0b0000_0000);
    ppu.address = ppu.temporary_address;
    assert_eq!(ppu.attribute_address(), Address::new(0x23c0));
    ppu.write_control(0b0000_0001);
    ppu.address = ppu.temporary_address;
    assert_eq!(ppu.attribute_address(), Address::new(0x27c0));
    ppu.write_control(0b0000_0010);
    ppu.address = ppu.temporary_address;
    assert_eq!(ppu.attribute_address(), Address::new(0x2bc0));
    ppu.write_control(0b0000_0011);
    ppu.address = ppu.temporary_address;
    assert_eq!(ppu.attribute_address(), Address::new(0x2fc0));
}

#[test]
fn mod_writing_ppu_mask_sets_mask() {
    let mut ppu = PPU::with_memory(mem(&[]));

    ppu.write_mask(0b1010_1010);
    assert_eq!(ppu.mask, Mask::from_bits_truncate(0b1010_1010));
}

#[test]
fn reading_ppu_status_returns_status_and_clears_vblank() {
    let mut ppu = PPU::with_memory(mem(&[]));
    ppu.status.insert(Status::VBLANK);
    assert_eq!(ppu.read_status(), 0b1000_0000);
    assert!(!ppu.status.contains(Status::VBLANK));
}

#[test]
fn mod_reading_ppu_status_resets_address_toggle() {
    let mut ppu = PPU::with_memory(mem(&[]));

    ppu.write_address(0x12);
    ppu.write_address(0x34);
    ppu.write_address(0x06);

    assert_eq!(ppu.temporary_address, 0x0634);

    ppu.write_address(0x00);
    ppu.write_address(0x12);
    ppu.read_status();
    ppu.write_address(0x34);
    ppu.write_address(0x56);

    assert_eq!(ppu.temporary_address, 0x3456);
}

#[test]
fn mod_writing_ppu_address_once_sets_masked_upper_bits_of_temporary_address() {
    let mut ppu = PPU::with_memory(mem(&[]));

    ppu.temporary_address = 0;
    ppu.address = 0;
    ppu.write_lower = false;

    ppu.write_address(0b1110_1010);

    assert_eq!(ppu.temporary_address, 0b0010_1010_0000_0000);
    assert_eq!(ppu.address, 0);
}

#[test]
fn mod_writing_ppu_address_twice_sets_lower_bits_of_temporary_address_and_transfers_to_address() {
    let mut ppu = PPU::with_memory(mem(&[]));

    ppu.temporary_address = 0;
    ppu.address = 0;
    ppu.write_lower = false;

    ppu.write_address(0b1110_1010);
    ppu.write_address(0b0101_0101);

    assert_eq!(ppu.temporary_address, 0b0010_1010_0101_0101);
    assert_eq!(ppu.address, 0b0010_1010_0101_0101);
}

#[test]
fn mod_writing_ppu_address_twice_then_reading_data_reads_data_from_address() {
    let mut ppu = PPU::with_memory(mem(&[(0x1234, &[0x54])]));

    ppu.write_address(0x12);
    ppu.write_address(0x34);
    ppu.read_data(); // Dummy read due to internal buffer
    assert_eq!(ppu.read_data(), 0x54);
}

#[test]
fn mod_writing_ppu_address_twice_then_writing_data_writes_data_to_address() {
    let mut ppu = PPU::with_memory(mem(&[]));

    ppu.write_address(0x12);
    ppu.write_address(0x34);
    ppu.write_data(0x54);
    assert_eq!(ppu.memory.read(Address::new(0x1234)), 0x54);
}

#[test]
fn reading_ppu_data_reads_from_internal_buffer() {
    let mut ppu = PPU::with_memory(mem(&[(0x2000, &[0xAA, 0xBB, 0xCC, 0xDD])]));

    ppu.write_address(0x20);
    ppu.write_address(0x00);

    ppu.read_data();
    assert_eq!(ppu.read_data(), 0xAA);
    assert_eq!(ppu.read_data(), 0xBB);

    ppu.write_address(0x20);
    ppu.write_address(0x00);

    assert_eq!(ppu.read_data(), 0xCC);
    assert_eq!(ppu.read_data(), 0xAA);
}

#[test]
fn reading_ppu_data_from_palette_does_not_use_internal_buffer() {
    let mut ppu = PPU::with_memory(mem(&[(0x3f00, &[0xAA, 0xBB, 0xCC, 0xDD])]));

    ppu.write_address(0x3f);
    ppu.write_address(0x00);

    assert_eq!(ppu.read_data(), 0xAA);
    assert_eq!(ppu.read_data(), 0xBB);
    assert_eq!(ppu.read_data(), 0xCC);

    ppu.write_address(0x3f);
    ppu.write_address(0x00);

    assert_eq!(ppu.read_data(), 0xAA);
    assert_eq!(ppu.read_data(), 0xBB);
}

#[test]
fn mod_reading_or_writing_ppu_data_increments_address_by_increment_in_control_register() {
    let mut ppu = PPU::with_memory(mem(&[(0x1234, &[0x00, 0x64, 0x00, 0x74]), (0x1254, &[0x84]), (0x1274, &[0x00]), (0x1294, &[0x00])]));

    ppu.write_address(0x12);
    ppu.write_address(0x34);
    ppu.write_control(0b0000_0000);

    ppu.write_data(0x54);
    ppu.read_data(); // Dummy read due to internal buffer
    assert_eq!(ppu.read_data(), 0x64);
    ppu.write_data(0x74);
    assert_eq!(ppu.memory.read(Address::new(0x1237)), 0x74);

    ppu.write_address(0x12);
    ppu.write_address(0x34);
    ppu.write_control(0b0000_0100);

    ppu.write_data(0x74);
    ppu.read_data(); // Dummy read due to internal buffer
    assert_eq!(ppu.read_data(), 0x84);
    ppu.write_data(0x94);
    assert_eq!(ppu.memory.read(Address::new(0x1294)), 0x94);
}

#[test]
fn mod_writing_oam_address_sets_oam_address() {
    let mut ppu = PPU::with_memory(mem(&[]));

    ppu.write_oam_address(0x42);

    assert_eq!(ppu.oam_address, 0x42);
}

#[test]
fn mod_writing_oam_dma_writes_from_cpu_page_to_oam() {
    let mut ppu = PPU::with_memory(mem(&[]));

    let mut data = [0; 256];

    for (i, elem) in data.iter_mut().enumerate() {
        *elem = i as u8;
    }

    ppu.write_oam_dma(data);

    assert_eq!(ppu.object_attribute_memory.to_vec(), data.to_vec());
}

#[test]
fn writing_oam_dma_writes_from_oam_address_and_wraps() {
    let mut ppu = PPU::with_memory(mem(&[]));
    ppu.oam_address = 0x42;

    let mut data = [0; 256];

    for (i, elem) in data.iter_mut().enumerate() {
        *elem = i as u8;
    }

    ppu.write_oam_dma(data);

    data.rotate_right(0x42);
    assert_eq!(ppu.object_attribute_memory.to_vec(), data.to_vec());
}

#[test]
fn reading_oam_data_reads_from_oam_address() {
    let mut ppu = PPU::with_memory(mem(&[]));
    ppu.oam_address = 0x42;
    ppu.object_attribute_memory[0x42] = 0x43;

    assert_eq!(ppu.read_oam_data(), 0x43);
}

#[test]
fn writing_oam_data_writes_to_oam_address() {
    let mut ppu = PPU::with_memory(mem(&[]));
    ppu.oam_address = 0x42;

    ppu.write_oam_data(0x43);

    assert_eq!(ppu.object_attribute_memory[0x42], 0x43);
}

#[test]
fn writing_oam_data_increments_oam_address() {
    let mut ppu = PPU::with_memory(mem(&[]));
    ppu.oam_address = 0x42;

    ppu.write_oam_data(0x07);

    assert_eq!(ppu.oam_address, 0x43);
}

#[test]
fn mod_writing_ppu_scroll_writes_to_temporary_register() {
    let mut ppu = PPU::with_memory(mem(&[]));

    ppu.write_scroll(0b1111_1101);
    assert_eq!(ppu.temporary_address, 0b1_1111);
    assert_eq!(ppu.fine_x, 0b101);

    ppu.write_scroll(0b1010_1111);
    assert_eq!(ppu.temporary_address, 0b0111_0010_1011_1111);
    assert_eq!(ppu.fine_x, 0b101);
}

#[test]
fn mod_incrementing_coarse_x_increments_to_next_tile() {
    let mut ppu = PPU::with_memory(mem(&[]));

    ppu.address = 0x41;
    ppu.increment_coarse_x();
    assert_eq!(ppu.address, 0x42);
}

#[test]
fn mod_incrementing_coarse_x_switches_to_next_horizontal_nametable_when_coarse_x_is_31() {
    let mut ppu = PPU::with_memory(mem(&[]));

    ppu.address = 0b1000_0001_1111;
    ppu.increment_coarse_x();
    assert_eq!(ppu.address, 0b1100_0000_0000);

    ppu.address = 0b1100_0001_1111;
    ppu.increment_coarse_x();
    assert_eq!(ppu.address, 0b1000_0000_0000);
}

#[test]
fn mod_incrementing_fine_y_increments_fine_y_by_1() {
    let mut ppu = PPU::with_memory(mem(&[]));

    ppu.address = 0b0011_0000_0000_0000;
    ppu.increment_fine_y();
    assert_eq!(ppu.address, 0b0100_0000_0000_0000);
}

#[test]
fn mod_incrementing_fine_y_increments_coarse_y_when_fine_y_is_7() {
    let mut ppu = PPU::with_memory(mem(&[]));

    ppu.address = 0b0111_0000_0010_0000;
    ppu.increment_fine_y();
    assert_eq!(ppu.address, 0b0000_0000_0100_0000);
}

#[test]
fn mod_incrementing_fine_y_switches_to_next_vertical_nametable_when_coarse_y_is_29() {
    let mut ppu = PPU::with_memory(mem(&[]));

    ppu.address = 0b0111_0011_1010_0000;
    ppu.increment_fine_y();
    assert_eq!(ppu.address, 0b0000_1000_0000_0000);

    ppu.address = 0b0111_1011_1010_0000;
    ppu.increment_fine_y();
    assert_eq!(ppu.address, 0b0000_0000_0000_0000);
}

#[test]
fn mod_transfer_horizontal_scroll_transfers_horizontal_scroll_from_temporary_to_address() {
    let mut ppu = PPU::with_memory(mem(&[]));
    ppu.address = 0b0010_1010_1010_1010;
    ppu.temporary_address = 0b0100_0100_0101_0101;

    ppu.transfer_horizontal_scroll();

    assert_eq!(ppu.address, 0b0010_1110_1011_0101);
}

#[test]
fn mod_can_get_tile_address_from_scroll() {
    let mut ppu = PPU::with_memory(mem(&[]));

    ppu.address = 0x0ABC;

    assert_eq!(ppu.tile_address(), Address::new(0x2ABC));
}

#[test]
fn mod_can_get_attribute_address_from_scroll() {
    let mut ppu = PPU::with_memory(mem(&[]));

    ppu.address = 0b0000_0000_0000_0000;
    assert_eq!(ppu.attribute_address(), Address::new(0b0010_0011_1100_0000));

    ppu.address = 0b0000_0000_0001_1100;
    assert_eq!(ppu.attribute_address(), Address::new(0b0010_0011_1100_0111));

    ppu.address = 0b0000_0011_1000_0000;
    assert_eq!(ppu.attribute_address(), Address::new(0b0010_0011_1111_1000));

    ppu.address = 0b0000_1100_0000_0000;
    assert_eq!(ppu.attribute_address(), Address::new(0b0010_1111_1100_0000));
}

#[test]
fn loading_sprites_loads_all_sprites_for_a_given_scanline() {
    let mut ppu = PPU::with_memory(mem(&[]));

    let oam = [
        // y, index, attributes, x
        [0, 0, 0, 0],
        [22, 1, 1, 1],
        [23, 2, 2, 2],
        [29, 3, 3, 3],
        [30, 4, 4, 4],
        [31, 5, 5, 5],
        [255, 6, 6, 6],
    ]
    .as_flattened();

    ppu.object_attribute_memory[..oam.len()].copy_from_slice(oam);

    ppu.scanline = 30;

    ppu.load_sprites();

    let expected = [
        ActiveSprite {
            sprite: Sprite::new(1, 22, 1, SpriteAttributes::from_bits_truncate(1)),
            pattern0: 0,
            pattern1: 0,
        },
        ActiveSprite {
            sprite: Sprite::new(2, 23, 2, SpriteAttributes::from_bits_truncate(2)),
            pattern0: 0,
            pattern1: 0,
        },
        ActiveSprite {
            sprite: Sprite::new(3, 29, 3, SpriteAttributes::from_bits_truncate(3)),
            pattern0: 0,
            pattern1: 0,
        },
        ActiveSprite::default(),
        ActiveSprite::default(),
        ActiveSprite::default(),
        ActiveSprite::default(),
        ActiveSprite::default(),
    ];

    assert_eq!(ppu.active_sprites, expected);
}

#[test]
fn when_more_than_eight_sprites_on_scanline_only_first_eight_are_loaded() {
    let mut ppu = PPU::with_memory(mem(&[]));

    let oam = [
        // y, index, attributes, x
        23, 0, 0, 0, 23, 1, 1, 1, 24, 2, 2, 2, 24, 3, 3, 3, 25, 4, 4, 4, 25, 5, 5, 5, 26, 6, 6,
        6, 26, 7, 7, 7, 27, 8, 8, 8,
    ];

    ppu.object_attribute_memory[..oam.len()].copy_from_slice(&oam);

    ppu.scanline = 30;

    ppu.load_sprites();

    let expected = [
        ActiveSprite {
            sprite: Sprite::new(0, 23, 0, SpriteAttributes::from_bits_truncate(0)),
            pattern0: 0,
            pattern1: 0,
        },
        ActiveSprite {
            sprite: Sprite::new(1, 23, 1, SpriteAttributes::from_bits_truncate(1)),
            pattern0: 0,
            pattern1: 0,
        },
        ActiveSprite {
            sprite: Sprite::new(2, 24, 2, SpriteAttributes::from_bits_truncate(2)),
            pattern0: 0,
            pattern1: 0,
        },
        ActiveSprite {
            sprite: Sprite::new(3, 24, 3, SpriteAttributes::from_bits_truncate(3)),
            pattern0: 0,
            pattern1: 0,
        },
        ActiveSprite {
            sprite: Sprite::new(4, 25, 4, SpriteAttributes::from_bits_truncate(4)),
            pattern0: 0,
            pattern1: 0,
        },
        ActiveSprite {
            sprite: Sprite::new(5, 25, 5, SpriteAttributes::from_bits_truncate(5)),
            pattern0: 0,
            pattern1: 0,
        },
        ActiveSprite {
            sprite: Sprite::new(6, 26, 6, SpriteAttributes::from_bits_truncate(6)),
            pattern0: 0,
            pattern1: 0,
        },
        ActiveSprite {
            sprite: Sprite::new(7, 26, 7, SpriteAttributes::from_bits_truncate(7)),
            pattern0: 0,
            pattern1: 0,
        },
    ];

    assert_eq!(ppu.active_sprites, expected);
}

#[test]
fn loading_sprites_clears_active_sprites() {
    let mut ppu = PPU::with_memory(mem(&[]));

    let oam = [29, 3, 3, 3];
    ppu.object_attribute_memory[..oam.len()].copy_from_slice(&oam);

    ppu.scanline = 30;
    ppu.load_sprites();

    let cleared = [ActiveSprite::default(); 8];

    assert_ne!(ppu.active_sprites, cleared);

    ppu.scanline = 40;
    ppu.load_sprites();

    assert_eq!(ppu.active_sprites, cleared);
}

#[test]
fn can_read_rows_from_nametable() {
    let mut ppu = PPU::with_memory(mem(&[(0x1050, &[// Bit 0
            0b0000_0001, 0b0000_0010, 0b0000_0100, 0b0000_1000, 0b0001_0000, 0b0010_0000, 0b0100_0000, 0b1000_0000, // Bit 1
            0b1000_0000, 0b0100_0000, 0b0010_0000, 0b0001_0000, 0b0000_1000, 0b0000_0100, 0b0000_0010, 0b0000_0001])]));

    let table = PatternTable::Right;
    let index = 5;
    let row = 4;
    let (bit0, bit1) = ppu.read_pattern_row(table, index, row);

    assert_eq!(bit0, 0b0001_0000);
    assert_eq!(bit1, 0b0000_1000);
}

#[test]
fn sprite_flips_coordinates() {
    let empty = SpriteAttributes::empty();
    let all = SpriteAttributes::all();
    let hor = SpriteAttributes(SpriteAttributes::HORIZONTAL_FLIP);
    let ver = SpriteAttributes(SpriteAttributes::VERTICAL_FLIP);
    for value in 0..8 {
        assert_eq!(empty.hor_flip(value), 7 - value);
        assert_eq!(empty.ver_flip(value, SpriteSize::_8x8), value);
        assert_eq!(all.difference(hor).hor_flip(value), 7 - value);
        assert_eq!(all.difference(ver).ver_flip(value, SpriteSize::_8x8), value);
        assert_eq!(hor.hor_flip(value), value);
        assert_eq!(ver.ver_flip(value, SpriteSize::_8x8), 7 - value);
        assert_eq!(all.hor_flip(value), value);
        assert_eq!(all.ver_flip(value, SpriteSize::_8x8), 7 - value);
    }

    for value in 0..16 {
        assert_eq!(empty.ver_flip(value, SpriteSize::_8x16), value);
        assert_eq!(all.difference(ver).ver_flip(value, SpriteSize::_8x16), value);
        assert_eq!(ver.ver_flip(value, SpriteSize::_8x16), 15 - value);
        assert_eq!(all.ver_flip(value, SpriteSize::_8x16), 15 - value);
    }
}

#[test]
fn ppu_each_tick_produces_a_color() {
    let memory = ArrayMemory::default();
    let mut ppu = PPU::with_memory(memory);
    // The interrupt that a running PPU raises comes back beside the colour.
    let _color: Option<Color> = ppu.tick().color;
}

#[test]
fn writing_ppu_control_sets_background_pattern_table_address() {
    let mut ppu = PPU::with_memory(mem(&[]));

    ppu.write_control(0b0000_0000);
    assert_eq!(ppu.background_pattern_table_address(), Address::new(0x0000));
    ppu.write_control(0b0001_0000);
    assert_eq!(ppu.background_pattern_table_address(), Address::new(0x1000));
}

#[test]
fn ppu_writing_ppu_control_sets_control() {
    let mut ppu = PPU::with_memory(mem(&[]));

    ppu.write_control(0b1010_1010);
    assert_eq!(ppu.control.bits(), 0b1010_1010);
}

#[test]
fn ppu_writing_ppu_control_sets_temporary_address_to_nametable() {
    let mut ppu = PPU::with_memory(mem(&[]));

    ppu.write_control(0b0000_0000);
    assert_eq!(ppu.temporary_address, 0b0000_0000_0000_0000);
    ppu.write_control(0b0000_0001);
    assert_eq!(ppu.temporary_address, 0b0000_0100_0000_0000);
    ppu.write_control(0b0000_0010);
    assert_eq!(ppu.temporary_address, 0b0000_1000_0000_0000);
    ppu.write_control(0b0000_0011);
    assert_eq!(ppu.temporary_address, 0b0000_1100_0000_0000);
}

#[test]
fn ppu_writing_ppu_control_sets_tile_address() {
    let mut ppu = PPU::with_memory(mem(&[]));

    ppu.write_control(0b0000_0000);
    ppu.address = ppu.temporary_address;
    assert_eq!(ppu.tile_address(), Address::new(0x2000));
    ppu.write_control(0b0000_0001);
    ppu.address = ppu.temporary_address;
    assert_eq!(ppu.tile_address(), Address::new(0x2400));
    ppu.write_control(0b0000_0010);
    ppu.address = ppu.temporary_address;
    assert_eq!(ppu.tile_address(), Address::new(0x2800));
    ppu.write_control(0b0000_0011);
    ppu.address = ppu.temporary_address;
    assert_eq!(ppu.tile_address(), Address::new(0x2c00));
}

#[test]
fn ppu_writing_ppu_control_sets_attribute_address() {
    let mut ppu = PPU::with_memory(mem(&[]));

    ppu.write_control(0b0000_0000);
    ppu.address = ppu.temporary_address;
    assert_eq!(ppu.attribute_address(), Address::new(0x23c0));
    ppu.write_control(0b0000_0001);
    ppu.address = ppu.temporary_address;
    assert_eq!(ppu.attribute_address(), Address::new(0x27c0));
    ppu.write_control(0b0000_0010);
    ppu.address = ppu.temporary_address;
    assert_eq!(ppu.attribute_address(), Address::new(0x2bc0));
    ppu.write_control(0b0000_0011);
    ppu.address = ppu.temporary_address;
    assert_eq!(ppu.attribute_address(), Address::new(0x2fc0));
}

#[test]
fn ppu_writing_ppu_mask_sets_mask() {
    let mut ppu = PPU::with_memory(mem(&[]));

    ppu.write_mask(0b1010_1010);
    assert_eq!(ppu.mask.bits(), 0b1010_1010);
}

#[test]
fn reading_ppu_status_returns_status() {
    let mut ppu = PPU::with_memory(mem(&[]));
    ppu.status = Status::from_bits_truncate(0b1010_0000);
    assert_eq!(ppu.read_status(), 0b1010_0000);
}

#[test]
fn reading_ppu_status_resets_vblank() {
    let mut ppu = PPU::with_memory(mem(&[]));
    ppu.status = Status::from_bits_truncate(0b1010_0000);

    assert_eq!(ppu.status.contains(Status::VBLANK), true);
    ppu.read_status();
    assert_eq!(ppu.status.contains(Status::VBLANK), false);
}

#[test]
fn ppu_reading_ppu_status_resets_address_toggle() {
    let mut ppu = PPU::with_memory(mem(&[]));

    ppu.write_address(0x12);
    ppu.write_address(0x34);
    ppu.write_address(0x06);

    assert_eq!(ppu.temporary_address, 0x0634);

    ppu.write_address(0x00);
    ppu.write_address(0x12);
    ppu.read_status();
    ppu.write_address(0x34);
    ppu.write_address(0x56);

    assert_eq!(ppu.temporary_address, 0x3456);
}

#[test]
fn ppu_writing_ppu_address_once_sets_masked_upper_bits_of_temporary_address() {
    let mut ppu = PPU::with_memory(mem(&[]));

    ppu.temporary_address = 0;
    ppu.address = 0;
    ppu.write_lower = false;

    ppu.write_address(0b1110_1010);

    assert_eq!(ppu.temporary_address, 0b0010_1010_0000_0000);
    assert_eq!(ppu.address, 0);
}

#[test]
fn ppu_writing_ppu_address_twice_sets_lower_bits_of_temporary_address_and_transfers_to_address() {
    let mut ppu = PPU::with_memory(mem(&[]));

    ppu.temporary_address = 0;
    ppu.address = 0;
    ppu.write_lower = false;

    ppu.write_address(0b1110_1010);
    ppu.write_address(0b0101_0101);

    assert_eq!(ppu.temporary_address, 0b0010_1010_0101_0101);
    assert_eq!(ppu.address, 0b0010_1010_0101_0101);
}

#[test]
fn ppu_writing_ppu_address_twice_then_writing_data_writes_data_to_address() {
    let mut ppu = PPU::with_memory(mem(&[]));

    ppu.write_address(0x12);
    ppu.write_address(0x34);
    ppu.write_data(0x54);
    assert_eq!(ppu.memory.read(Address::new(0x1234)), 0x54);
}

#[test]
fn ppu_writing_oam_address_sets_oam_address() {
    let mut ppu = PPU::with_memory(mem(&[]));

    ppu.write_oam_address(0x42);

    assert_eq!(ppu.oam_address, 0x42);
}

#[test]
fn ppu_writing_oam_dma_writes_from_cpu_page_to_oam() {
    let mut ppu = PPU::with_memory(mem(&[]));

    let mut data = [0; 256];

    for (i, elem) in data.iter_mut().enumerate() {
        *elem = i as u8;
    }

    ppu.write_oam_dma(data);

    assert_eq!(ppu.object_attribute_memory.to_vec(), data.to_vec());
}

#[test]
fn ppu_writing_ppu_scroll_writes_to_temporary_register() {
    let mut ppu = PPU::with_memory(mem(&[]));

    ppu.write_scroll(0b1111_1101);
    assert_eq!(ppu.temporary_address, 0b1_1111);
    assert_eq!(ppu.fine_x, 0b101);

    ppu.write_scroll(0b1010_1111);
    assert_eq!(ppu.temporary_address, 0b0111_0010_1011_1111);
    assert_eq!(ppu.fine_x, 0b101);
}

#[test]
fn ppu_incrementing_coarse_x_increments_to_next_tile() {
    let mut ppu = PPU::with_memory(mem(&[]));

    ppu.address = 0x41;
    ppu.increment_coarse_x();
    assert_eq!(ppu.address, 0x42);
}

#[test]
fn ppu_incrementing_coarse_x_switches_to_next_horizontal_nametable_when_coarse_x_is_31() {
    let mut ppu = PPU::with_memory(mem(&[]));

    ppu.address = 0b1000_0001_1111;
    ppu.increment_coarse_x();
    assert_eq!(ppu.address, 0b1100_0000_0000);

    ppu.address = 0b1100_0001_1111;
    ppu.increment_coarse_x();
    assert_eq!(ppu.address, 0b1000_0000_0000);
}

#[test]
fn ppu_incrementing_fine_y_increments_fine_y_by_1() {
    let mut ppu = PPU::with_memory(mem(&[]));

    ppu.address = 0b0011_0000_0000_0000;
    ppu.increment_fine_y();
    assert_eq!(ppu.address, 0b0100_0000_0000_0000);
}

#[test]
fn ppu_incrementing_fine_y_increments_coarse_y_when_fine_y_is_7() {
    let mut ppu = PPU::with_memory(mem(&[]));

    ppu.address = 0b0111_0000_0010_0000;
    ppu.increment_fine_y();
    assert_eq!(ppu.address, 0b0000_0000_0100_0000);
}

#[test]
fn ppu_incrementing_fine_y_switches_to_next_vertical_nametable_when_coarse_y_is_29() {
    let mut ppu = PPU::with_memory(mem(&[]));

    ppu.address = 0b0111_0011_1010_0000;
    ppu.increment_fine_y();
    assert_eq!(ppu.address, 0b0000_1000_0000_0000);

    ppu.address = 0b0111_1011_1010_0000;
    ppu.increment_fine_y();
    assert_eq!(ppu.address, 0b0000_0000_0000_0000);
}

#[test]
fn ppu_transfer_horizontal_scroll_transfers_horizontal_scroll_from_temporary_to_address() {
    let mut ppu = PPU::with_memory(mem(&[]));
    ppu.address = 0b0010_1010_1010_1010;
    ppu.temporary_address = 0b0100_0100_0101_0101;

    ppu.transfer_horizontal_scroll();

    assert_eq!(ppu.address, 0b0010_1110_1011_0101);
}

#[test]
fn ppu_can_get_tile_address_from_scroll() {
    let mut ppu = PPU::with_memory(mem(&[]));

    ppu.address = 0x0ABC;

    assert_eq!(ppu.tile_address(), Address::new(0x2ABC));
}

#[test]
fn ppu_can_get_attribute_address_from_scroll() {
    let mut ppu = PPU::with_memory(mem(&[]));

    ppu.address = 0b0000_0000_0000_0000;
    assert_eq!(ppu.attribute_address(), Address::new(0b0010_0011_1100_0000));

    ppu.address = 0b0000_0000_0001_1100;
    assert_eq!(ppu.attribute_address(), Address::new(0b0010_0011_1100_0111));

    ppu.address = 0b0000_0011_1000_0000;
    assert_eq!(ppu.attribute_address(), Address::new(0b0010_0011_1111_1000));

    ppu.address = 0b0000_1100_0000_0000;
    assert_eq!(ppu.attribute_address(), Address::new(0b0010_1111_1100_0000));
}

#[test]
fn control_specifies_background_pattern_table_address() {
    let control = Control::from_bits(0b0000_0000);
    assert_eq!(
        control.background_pattern_table().address(),
        Address::new(0x0000)
    );
    let control = Control::from_bits(0b0001_0000);
    assert_eq!(
        control.background_pattern_table().address(),
        Address::new(0x1000)
    );
}

#[test]
fn control_specifies_sprite_pattern_table_address() {
    let control = Control::from_bits(0b0000_0000);
    assert_eq!(
        control.sprite_pattern_table().address(),
        Address::new(0x0000)
    );
    let control = Control::from_bits(0b0000_1000);
    assert_eq!(
        control.sprite_pattern_table().address(),
        Address::new(0x1000)
    );
}

#[test]
fn control_specifies_address_increment() {
    let control = Control::from_bits(0b0000_0000);
    assert_eq!(control.address_increment(), 1);
    let control = Control::from_bits(0b0000_0100);
    assert_eq!(control.address_increment(), 32);
}

#[test]
fn control_specifies_nmi_on_vblank() {
    let control = Control::from_bits(0b0000_0000);
    assert!(!control.nmi_on_vblank());
    let control = Control::from_bits(0b1000_0000);
    assert!(control.nmi_on_vblank());
}

#[test]
fn can_read_cartridge_space_in_nes_ppu_memory() {
    let mut memory = nes_ppu_memory();

    for value in 0x0000..=0x3eff {
        let address = Address::new(value);

        memory.write(address, value as u8);
        assert_eq!(memory.read(address), value as u8);
        assert_eq!(memory.chr.read(address), value as u8);
    }
}

#[test]
fn can_read_palette_ram_in_nes_ppu_memory() {
    let mut memory = nes_ppu_memory();

    for value in 0x3f00..=0x3f1f {
        let address = Address::new(value);

        memory.write(address, (value + 1) as u8);
        assert_eq!(memory.read(address), (value + 1) as u8);
        assert_eq!(
            memory.palette_ram[memory.palette_index(address)],
            (value + 1) as u8
        );
    }
}

#[test]
fn palette_ram_mirrors_from_0x3f20_to_0x3fff() {
    let mut memory = nes_ppu_memory();

    for value in 0x3f20..=0x3fff {
        let address = Address::new(value);

        memory.write(address, (value + 1) as u8);
        assert_eq!(memory.read(address), (value + 1) as u8);
        assert_eq!(
            memory.palette_ram[memory.palette_index(address)],
            (value + 1) as u8
        );
    }
}

#[test]
fn palette_ram_mirrors_0x3f1x_to_0x3f0x_for_0_4_8_and_c() {
    let mut memory = nes_ppu_memory();

    let addresses = [
        (0x3f00, 0x3f10),
        (0x3f04, 0x3f14),
        (0x3f08, 0x3f18),
        (0x3f0c, 0x3f1c),
    ];

    for (original, mirror) in addresses.iter() {
        let original_address = Address::new(*original);
        let mirror_address = Address::new(*mirror);

        memory.write(original_address, 42);
        assert_eq!(memory.read(mirror_address), 42);
        memory.write(mirror_address, 24);
        assert_eq!(memory.read(original_address), 24);
    }
}

#[test]
fn reading_status_just_before_vblank_keeps_it_from_starting() {
    let mut ppu = PPU::with_memory(mem(&[]));
    ppu.write_control(0b1000_0000);
    ppu.scanline = 241;
    ppu.cycle_count = 1;

    ppu.read_status();
    let out = ppu.tick();
    assert!(!out.interrupt);
    assert!(!ppu.status.vblank);

    // The suppression lasts for that one dot only.
    assert!(!ppu.suppress_vblank);
}

#[test]
fn vblank_starts_with_an_interrupt_when_status_is_not_read() {
    let mut ppu = PPU::with_memory(mem(&[]));
    ppu.write_control(0b1000_0000);
    ppu.scanline = 241;
    ppu.cycle_count = 1;

    let out = ppu.tick();
    assert!(out.interrupt);
    assert!(ppu.status.vblank);
}

#[test]
fn data_port_past_the_14_bit_bus_is_a_bus_fault() {
    let mut ppu = PPU::with_memory(nes_ppu_memory());
    ppu.write_address(0x3f);
    ppu.write_address(0xff);
    ppu.write_data(0x21);
    assert!(!ppu.bus_fault);
    assert_eq!(ppu.address, 0x4000);
    ppu.write_data(0x22);
    assert!(ppu.bus_fault);
}
