use nes_rust::address::Address;
use nes_rust::cartridge::Cartridge;
use nes_rust::mapper::Mapper;
use nes_rust::memory::Memory;

#[test]
fn cartridge_cartridge_is_constructed_from_prg_rom_chr_rom_and_mapper() {
    let prg_rom = vec![0u8; 1024];
    let chr_rom = vec![0u8; 1024];
    let mapper = Mapper::NROM;
    Cartridge::new(prg_rom, chr_rom, false, mapper);
}

#[test]
fn cartridge_rom_cartridge_maps_0x6000_through_0x7fff_to_prg_ram() {
    let mut prg = nrom_cartridge().prg;

    for value in 0x6000..=0x7fff {
        prg.write(Address::new(value), value as u8);
        assert_eq!(prg.read(Address::new(value)), value as u8);
        assert_eq!(prg.ram[value as usize - 0x6000], value as u8);
    }
}

#[test]
fn cartridge_nrom_cartridge_maps_0x8000_through_0xffff_to_prg_rom() {
    let mut prg = nrom_cartridge().prg;

    for (i, item) in prg.rom.iter_mut().enumerate() {
        *item = i as u8;
    }

    for value in 0x8000..=0xffff {
        assert_eq!(prg.read(Address::new(value)), value as u8);
    }
}

#[test]
fn cartridge_nrom_cartridge_mirrors_rom_if_not_large_enough() {
    let mut prg_rom = vec![0u8; 0x4000];
    let chr_rom = vec![0u8; 0x8000];
    let mapper = Mapper::NROM;

    for (i, item) in prg_rom.iter_mut().enumerate() {
        *item = i as u8;
    }

    let mut prg = Cartridge::new(prg_rom, chr_rom, false, mapper).prg;

    for value in 0xc000..=0xffff {
        assert_eq!(prg.read(Address::new(value)), value as u8);
    }
}

#[test]
fn cartridge_nrom_cartridge_maps_0x0000_through_0x1fff_to_chr_rom() {
    let mut chr = nrom_cartridge().chr;

    for (i, item) in chr.chr_rom.iter_mut().enumerate() {
        *item = i as u8;
    }

    for value in 0x0000..=0x1fff {
        assert_eq!(chr.read(Address::new(value)), value as u8);
    }
}

#[test]
fn cartridge_nrom_cartridge_maps_0x2000_through_0x27ff_to_ppu_ram() {
    let mut chr = nrom_cartridge().chr;

    for (i, item) in chr.ppu_ram.iter_mut().enumerate() {
        *item = i as u8;
    }

    for value in 0x2000..=0x27ff {
        chr.write(Address::new(value), value as u8);
        assert_eq!(chr.read(Address::new(value)), value as u8);
        assert_eq!(chr.ppu_ram[value as usize - 0x2000], value as u8);
    }
}

#[test]
fn cartridge_nrom_cartridge_mirrors_0x2800_through_0x2fff_to_ppu_ram() {
    let mut chr = nrom_cartridge().chr;

    for (i, item) in chr.ppu_ram.iter_mut().enumerate() {
        *item = i as u8;
    }

    for value in 0x2800..=0x2fff {
        chr.write(Address::new(value), value as u8);
        assert_eq!(chr.read(Address::new(value)), value as u8);
        assert_eq!(chr.ppu_ram[value as usize - 0x2800], value as u8);
    }
}

#[test]
fn cartridge_nrom_cartridge_mirrors_0x3000_through_0x3eff_to_ppu_ram() {
    let mut chr = nrom_cartridge().chr;

    for (i, item) in chr.ppu_ram.iter_mut().enumerate() {
        *item = i as u8;
    }

    for value in 0x3000..=0x37ff {
        chr.write(Address::new(value), value as u8);
        assert_eq!(chr.read(Address::new(value)), value as u8);
        assert_eq!(chr.ppu_ram[value as usize - 0x3000], value as u8);
    }

    for value in 0x3800..=0x3eff {
        chr.write(Address::new(value), value as u8);
        assert_eq!(chr.read(Address::new(value)), value as u8);
        assert_eq!(chr.ppu_ram[value as usize - 0x3800], value as u8);
    }
}

#[test]
fn mod_cartridge_is_constructed_from_prg_rom_chr_rom_and_mapper() {
    let prg_rom = vec![0u8; 1024];
    let chr_rom = vec![0u8; 1024];
    let mapper = Mapper::NROM;
    Cartridge::new(prg_rom, chr_rom, false, mapper);
}

#[test]
fn mod_rom_cartridge_maps_0x6000_through_0x7fff_to_prg_ram() {
    let mut cartridge = nrom_cartridge();
    let prg = &mut cartridge.prg;

    for value in 0x6000..=0x7fff {
        prg.write(Address::new(value), value as u8);
        assert_eq!(prg.read(Address::new(value)), value as u8);
        assert_eq!(prg.ram[value as usize - 0x6000], value as u8);
    }
}

#[test]
fn mod_nrom_cartridge_maps_0x8000_through_0xffff_to_prg_rom() {
    let mut cartridge = nrom_cartridge();
    let prg = &mut cartridge.prg;

    for (i, item) in prg.rom.iter_mut().enumerate() {
        *item = i as u8;
    }

    for value in 0x8000..=0xffff {
        assert_eq!(prg.read(Address::new(value)), value as u8);
    }
}

#[test]
fn mod_nrom_cartridge_mirrors_rom_if_not_large_enough() {
    let mut prg_rom = vec![0u8; 0x4000];
    let chr_rom = vec![0u8; 0x8000];
    let mapper = Mapper::NROM;

    for (i, item) in prg_rom.iter_mut().enumerate() {
        *item = i as u8;
    }

    let mut cartridge = Cartridge::new(prg_rom, chr_rom, false, mapper);
    let prg = &mut cartridge.prg;

    for value in 0xc000..=0xffff {
        assert_eq!(prg.read(Address::new(value)), value as u8);
    }
}

#[test]
fn mod_nrom_cartridge_maps_0x0000_through_0x1fff_to_chr_rom() {
    let mut cartridge = nrom_cartridge();
    let chr = &mut cartridge.chr;

    for (i, item) in chr.chr_rom.iter_mut().enumerate() {
        *item = i as u8;
    }

    for value in 0x0000..=0x1fff {
        assert_eq!(chr.read(Address::new(value)), value as u8);
    }
}

#[test]
fn mod_nrom_cartridge_maps_0x2000_through_0x27ff_to_ppu_ram() {
    let mut cartridge = nrom_cartridge();
    let chr = &mut cartridge.chr;

    for (i, item) in chr.ppu_ram.iter_mut().enumerate() {
        *item = i as u8;
    }

    for value in 0x2000..=0x27ff {
        chr.write(Address::new(value), value as u8);
        assert_eq!(chr.read(Address::new(value)), value as u8);
        assert_eq!(chr.ppu_ram[value as usize - 0x2000], value as u8);
    }
}

#[test]
fn mod_nrom_cartridge_mirrors_0x2800_through_0x2fff_to_ppu_ram() {
    let mut cartridge = nrom_cartridge();
    let chr = &mut cartridge.chr;

    for (i, item) in chr.ppu_ram.iter_mut().enumerate() {
        *item = i as u8;
    }

    for value in 0x2800..=0x2fff {
        chr.write(Address::new(value), value as u8);
        assert_eq!(chr.read(Address::new(value)), value as u8);
        assert_eq!(chr.ppu_ram[value as usize - 0x2800], value as u8);
    }
}

#[test]
fn mod_nrom_cartridge_mirrors_0x3000_through_0x3eff_to_ppu_ram() {
    let mut cartridge = nrom_cartridge();
    let chr = &mut cartridge.chr;

    for (i, item) in chr.ppu_ram.iter_mut().enumerate() {
        *item = i as u8;
    }

    for value in 0x3000..=0x37ff {
        chr.write(Address::new(value), value as u8);
        assert_eq!(chr.read(Address::new(value)), value as u8);
        assert_eq!(chr.ppu_ram[value as usize - 0x3000], value as u8);
    }

    for value in 0x3800..=0x3eff {
        chr.write(Address::new(value), value as u8);
        assert_eq!(chr.read(Address::new(value)), value as u8);
        assert_eq!(chr.ppu_ram[value as usize - 0x3800], value as u8);
    }
}

fn nrom_cartridge() -> Cartridge {
    let prg_rom = vec![0u8; 0x8000];
    let chr_rom = vec![0u8; 0x8000];
    let mapper = Mapper::NROM;
    Cartridge::new(prg_rom, chr_rom, false, mapper)
}
