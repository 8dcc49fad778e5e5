//! The picture processing unit: draws one pixel per tick, from background tiles and up to
//! eight sprites per scanline, and raises an interrupt at the start of vertical blank.
//!
//! A frame is 262 scanlines of 341 cycles. The visible picture is the first 240 scanlines and
//! the first 256 cycles of each; the rest is blanking, used to fetch what comes next.
//!
//! As for the CPU, the PPU is described by a model (`PpuModel`) and each operation by a
//! function on that model, reads of the PPU's memory included, in the order they are made.

pub mod control;
pub mod mask;
pub mod memory;
pub mod registers;
pub mod scroll;
pub mod sprite;
pub mod status;

use vstd::prelude::*;

use crate::address::{add16, Address};
use crate::memory::{total, Memory};

use self::control::{bit_set, Control, PatternTable, SpriteSize};
use self::mask::Mask;
pub use self::memory::NESPPUMemory;
pub use self::registers::PPURegisters;
use self::scroll::{scroll_bits, scroll_of, Scroll};
use self::sprite::{default_active_sprite, ActiveSprite, Sprite, SpriteAttributes};
use self::status::Status;

verus! {

pub const BACKGROUND_PALETTES: u16 = 0x3f00;

pub const SPRITE_PALETTES: u16 = 0x3f10;

/// At most this many sprites are drawn on one scanline.
pub const ACTIVE_SPRITES: usize = 8;

/// Two 16-bit shift registers, one per bit plane, shifted left once per pixel; the next
/// tile's bits are loaded into the low byte.
#[derive(Copy, Clone, Debug, PartialEq, Eq, Structural)]
pub struct ShiftRegister(pub u16, pub u16);

impl ShiftRegister {
    pub open spec fn with_next_bytes(self, byte0: u8, byte1: u8) -> ShiftRegister {
        ShiftRegister(self.0 | byte0 as u16, self.1 | byte1 as u16)
    }

    pub fn set_next_bytes(&mut self, byte0: u8, byte1: u8)
        ensures
            *final(self) == old(self).with_next_bytes(byte0, byte1),
    {
        self.0 = self.0 | byte0 as u16;
        self.1 = self.1 | byte1 as u16;
    }

    pub open spec fn shifted(self) -> ShiftRegister {
        ShiftRegister(self.0 << 1u16, self.1 << 1u16)
    }

    pub fn shift(&mut self)
        ensures
            *final(self) == old(self).shifted(),
    {
        self.0 = self.0 << 1u16;
        self.1 = self.1 << 1u16;
    }

    /// The two-bit value made of bit `15 - bit` of each plane, the first plane giving the
    /// low bit.
    pub open spec fn bits_at(self, bit: u8) -> u8 {
        ((self.0 >> (15 - bit) as u16) % 2 + ((self.1 >> (15 - bit) as u16) % 2) * 2) as u8
    }

    pub fn get_bits(&self, bit: u8) -> (b: u8)
        requires
            bit < 8,
        ensures
            b == self.bits_at(bit),
            b < 4,
    {
        let shift: u16 = (15 - bit) as u16;
        let bit0 = (self.0 >> shift) % 2;
        let bit1 = (self.1 >> shift) % 2;
        (bit0 + bit1 * 2) as u8
    }
}

impl Default for ShiftRegister {
    fn default() -> (r: Self)
        ensures
            r == ShiftRegister(0, 0),
    {
        ShiftRegister(0, 0)
    }
}

/// A colour: an index into the NES palette of 64 colours.
#[derive(Copy, Clone, Debug, PartialEq, Eq, Structural)]
pub struct Color(pub u8);

/// What the PPU puts out on one tick.
#[derive(Debug)]
pub struct PPUOutput {
    /// The colour of the pixel drawn, if the tick is inside the visible picture.
    pub color: Option<Color>,
    /// Whether a non-maskable interrupt is raised.
    pub interrupt: bool,
    /// Whether the PPU is in vertical blank, as the display sees it: scanlines 240 and on.
    pub vblank: bool,
}

/// The sprite pixel chosen for the current dot.
#[derive(Copy, Clone, Debug, PartialEq, Eq, Structural)]
pub struct SelectedSprite {
    pub visible: bool,
    pub color_address: Address,
    /// Whether the sprite is drawn in front of the background.
    pub priority: bool,
    /// The slot of the sprite, or 8 when no sprite is shown.
    pub index: usize,
}

/// The state of a PPU, with the model of its memory.
pub struct PpuModel<Mo> {
    pub memory: Mo,
    pub read_buffer: u8,
    pub oam: Seq<u8>,
    pub scanline: u16,
    pub cycle_count: u16,
    pub tile_pattern: ShiftRegister,
    pub palette_select: ShiftRegister,
    pub active_sprites: Seq<ActiveSprite>,
    pub active_sprites_has_zero: bool,
    pub control: Control,
    pub status: Status,
    pub mask: Mask,
    pub address: u16,
    pub temporary_address: u16,
    pub write_lower: bool,
    pub fine_x: u8,
    pub oam_address: u8,
    pub suppress_vblank: bool,
    pub bus_fault: bool,
}

/// The picture processing unit, attached to its memory (pattern tables, nametables and
/// palettes).
pub struct PPU<M> {
    pub memory: M,
    pub read_buffer: u8,
    pub object_attribute_memory: [u8; 256],
    pub scanline: u16,
    pub cycle_count: u16,
    pub tile_pattern: ShiftRegister,
    pub palette_select: ShiftRegister,
    pub active_sprites: [ActiveSprite; 8],
    pub active_sprites_has_zero: bool,
    pub control: Control,
    pub status: Status,
    pub mask: Mask,
    /// Sometimes called 'v': the current VRAM address, which also holds the scroll position.
    pub address: u16,
    /// Sometimes called 't': the address or scroll position being written.
    pub temporary_address: u16,
    /// Whether the next write to PPUSCROLL or PPUADDR is the second of a pair.
    pub write_lower: bool,
    pub fine_x: u8,
    pub oam_address: u8,
    /// Reading the status just before vblank starts keeps it from being set.
    pub suppress_vblank: bool,
    /// Set when the PPU reads or writes an address its memory does not answer; the access is
    /// not made.
    pub bus_fault: bool,
}

/// A byte whose bits are all equal to bit `index` of `byte`.
pub open spec fn spread_bit(byte: u8, index: u8) -> u8 {
    if (byte >> index) % 2 == 1 {
        0xff
    } else {
        0
    }
}

pub fn set_all_bits_to_bit_at_index(byte: u8, index: u8) -> (r: u8)
    requires
        index < 8,
    ensures
        r == spread_bit(byte, index),
{
    if (byte >> index) % 2 == 1 {
        0xff
    } else {
        0
    }
}

/// The sprite stored at slot `i` of object attribute memory: y, tile, attributes, x.
pub open spec fn oam_sprite(oam: Seq<u8>, i: int) -> Sprite {
    Sprite {
        x: oam[4 * i + 3],
        y: oam[4 * i],
        tile_index: oam[4 * i + 1],
        attributes: SpriteAttributes(sprite::attribute_bits(oam[4 * i + 2])),
    }
}

/// Whether a sprite covers scanline `line`.
pub open spec fn on_line(sprite: Sprite, line: int, size: SpriteSize) -> bool {
    sprite.y <= line < sprite.y + size.height_spec()
}

/// The sprites among the first `n` of object attribute memory that cover `line`, in order,
/// each with its slot.
pub open spec fn sprites_on_line(oam: Seq<u8>, line: int, size: SpriteSize, n: nat) -> Seq<
    (int, Sprite),
>
    decreases n,
{
    if n == 0 {
        Seq::empty()
    } else {
        let before = sprites_on_line(oam, line, size, (n - 1) as nat);
        let sprite = oam_sprite(oam, n - 1);
        if on_line(sprite, line, size) {
            before.push((n - 1, sprite))
        } else {
            before
        }
    }
}

/// The eight sprite slots for a scanline: the first eight sprites on it, the rest default.
pub open spec fn selected_sprites(oam: Seq<u8>, line: int, size: SpriteSize) -> Seq<ActiveSprite> {
    let found = sprites_on_line(oam, line, size, 64);
    Seq::new(
        8,
        |i: int|
            if i < found.len() {
                ActiveSprite { sprite: found[i].1, pattern0: 0, pattern1: 0 }
            } else {
                default_active_sprite()
            },
    )
}

/// The RGB value of each of the 64 palette colours.
pub open spec fn color_rgb(c: u8) -> (u8, u8, u8) {
    match c {
        0 => (0x54, 0x54, 0x54),
        1 => (0x00, 0x1e, 0x74),
        2 => (0x08, 0x10, 0x90),
        3 => (0x30, 0x00, 0x88),
        4 => (0x44, 0x00, 0x64),
        5 => (0x5c, 0x00, 0x30),
        6 => (0x54, 0x04, 0x00),
        7 => (0x3c, 0x18, 0x00),
        8 => (0x20, 0x2a, 0x00),
        9 => (0x08, 0x3a, 0x00),
        10 => (0x00, 0x40, 0x00),
        11 => (0x00, 0x3c, 0x00),
        12 => (0x00, 0x32, 0x3c),
        13 => (0x00, 0x00, 0x00),
        14 => (0x00, 0x00, 0x00),
        15 => (0x00, 0x00, 0x00),
        16 => (0x98, 0x96, 0x98),
        17 => (0x08, 0x4c, 0xc4),
        18 => (0x30, 0x32, 0xec),
        19 => (0x5c, 0x1e, 0xe4),
        20 => (0x88, 0x14, 0xb0),
        21 => (0xa0, 0x14, 0x64),
        22 => (0x98, 0x22, 0x20),
        23 => (0x78, 0x3c, 0x00),
        24 => (0x54, 0x5a, 0x00),
        25 => (0x28, 0x72, 0x00),
        26 => (0x08, 0x7c, 0x00),
        27 => (0x00, 0x76, 0x28),
        28 => (0x00, 0x66, 0x78),
        29 => (0x00, 0x00, 0x00),
        30 => (0x00, 0x00, 0x00),
        31 => (0x00, 0x00, 0x00),
        32 => (0xec, 0xee, 0xec),
        33 => (0x4c, 0x9a, 0xec),
        34 => (0x78, 0x7c, 0xec),
        35 => (0xb0, 0x62, 0xec),
        36 => (0xe4, 0x54, 0xec),
        37 => (0xec, 0x58, 0xb4),
        38 => (0xec, 0x6a, 0x64),
        39 => (0xd4, 0x88, 0x20),
        40 => (0xa0, 0xaa, 0x00),
        41 => (0x74, 0xc4, 0x00),
        42 => (0x4c, 0xd0, 0x20),
        43 => (0x38, 0xcc, 0x6c),
        44 => (0x38, 0xb4, 0xcc),
        45 => (0x3c, 0x3c, 0x3c),
        46 => (0x00, 0x00, 0x00),
        47 => (0x00, 0x00, 0x00),
        48 => (0xec, 0xee, 0xec),
        49 => (0xa8, 0xcc, 0xec),
        50 => (0xbc, 0xbc, 0xec),
        51 => (0xd4, 0xb2, 0xec),
        52 => (0xec, 0xae, 0xec),
        53 => (0xec, 0xae, 0xd4),
        54 => (0xec, 0xb4, 0xb0),
        55 => (0xe4, 0xc4, 0x90),
        56 => (0xcc, 0xd2, 0x78),
        57 => (0xb4, 0xde, 0x78),
        58 => (0xa8, 0xe2, 0x90),
        59 => (0x98, 0xe2, 0xb4),
        60 => (0xa0, 0xd6, 0xe4),
        61 => (0xa0, 0xa2, 0xa0),
        62 => (0x00, 0x00, 0x00),
        63 => (0x00, 0x00, 0x00),
        _ => (0x00, 0x00, 0x00),
    }
}

impl Color {
    pub fn to_byte(&self) -> (b: u8)
        ensures
            b == self.0,
    {
        self.0
    }

    pub fn to_rgb(&self) -> (rgb: (u8, u8, u8))
        requires
            self.0 < 64,
        ensures
            rgb == color_rgb(self.0),
    {
        match self.0 {
            0 => (0x54, 0x54, 0x54),
            1 => (0x00, 0x1e, 0x74),
            2 => (0x08, 0x10, 0x90),
            3 => (0x30, 0x00, 0x88),
            4 => (0x44, 0x00, 0x64),
            5 => (0x5c, 0x00, 0x30),
            6 => (0x54, 0x04, 0x00),
            7 => (0x3c, 0x18, 0x00),
            8 => (0x20, 0x2a, 0x00),
            9 => (0x08, 0x3a, 0x00),
            10 => (0x00, 0x40, 0x00),
            11 => (0x00, 0x3c, 0x00),
            12 => (0x00, 0x32, 0x3c),
            13 => (0x00, 0x00, 0x00),
            14 => (0x00, 0x00, 0x00),
            15 => (0x00, 0x00, 0x00),
            16 => (0x98, 0x96, 0x98),
            17 => (0x08, 0x4c, 0xc4),
            18 => (0x30, 0x32, 0xec),
            19 => (0x5c, 0x1e, 0xe4),
            20 => (0x88, 0x14, 0xb0),
            21 => (0xa0, 0x14, 0x64),
            22 => (0x98, 0x22, 0x20),
            23 => (0x78, 0x3c, 0x00),
            24 => (0x54, 0x5a, 0x00),
            25 => (0x28, 0x72, 0x00),
            26 => (0x08, 0x7c, 0x00),
            27 => (0x00, 0x76, 0x28),
            28 => (0x00, 0x66, 0x78),
            29 => (0x00, 0x00, 0x00),
            30 => (0x00, 0x00, 0x00),
            31 => (0x00, 0x00, 0x00),
            32 => (0xec, 0xee, 0xec),
            33 => (0x4c, 0x9a, 0xec),
            34 => (0x78, 0x7c, 0xec),
            35 => (0xb0, 0x62, 0xec),
            36 => (0xe4, 0x54, 0xec),
            37 => (0xec, 0x58, 0xb4),
            38 => (0xec, 0x6a, 0x64),
            39 => (0xd4, 0x88, 0x20),
            40 => (0xa0, 0xaa, 0x00),
            41 => (0x74, 0xc4, 0x00),
            42 => (0x4c, 0xd0, 0x20),
            43 => (0x38, 0xcc, 0x6c),
            44 => (0x38, 0xb4, 0xcc),
            45 => (0x3c, 0x3c, 0x3c),
            46 => (0x00, 0x00, 0x00),
            47 => (0x00, 0x00, 0x00),
            48 => (0xec, 0xee, 0xec),
            49 => (0xa8, 0xcc, 0xec),
            50 => (0xbc, 0xbc, 0xec),
            51 => (0xd4, 0xb2, 0xec),
            52 => (0xec, 0xae, 0xec),
            53 => (0xec, 0xae, 0xd4),
            54 => (0xec, 0xb4, 0xb0),
            55 => (0xe4, 0xc4, 0x90),
            56 => (0xcc, 0xd2, 0x78),
            57 => (0xb4, 0xde, 0x78),
            58 => (0xa8, 0xe2, 0x90),
            59 => (0x98, 0xe2, 0xb4),
            60 => (0xa0, 0xd6, 0xe4),
            61 => (0xa0, 0xa2, 0xa0),
            62 => (0x00, 0x00, 0x00),
            63 => (0x00, 0x00, 0x00),
            _ => (0x00, 0x00, 0x00),
        }
    }
}

impl<M: Memory> PPU<M> {
    pub open spec fn model(&self) -> PpuModel<M::Model> {
        PpuModel {
            memory: self.memory.model(),
            read_buffer: self.read_buffer,
            oam: self.object_attribute_memory@,
            scanline: self.scanline,
            cycle_count: self.cycle_count,
            tile_pattern: self.tile_pattern,
            palette_select: self.palette_select,
            active_sprites: self.active_sprites@,
            active_sprites_has_zero: self.active_sprites_has_zero,
            control: self.control,
            status: self.status,
            mask: self.mask,
            address: self.address,
            temporary_address: self.temporary_address,
            write_lower: self.write_lower,
            fine_x: self.fine_x,
            oam_address: self.oam_address,
            suppress_vblank: self.suppress_vblank,
            bus_fault: self.bus_fault,
        }
    }

    /// The memory is well formed, and fine X is a pixel column.
    pub open spec fn wf(&self) -> bool {
        &&& self.memory.inv()
        &&& self.fine_x < 8
    }

    /// A read of the PPU's memory. An address the memory does not answer is not read: the PPU
    /// notes a bus fault and takes 0.
    pub open spec fn read_step(s: PpuModel<M::Model>, a: u16) -> (PpuModel<M::Model>, u8) {
        if M::accepts(Address(a)) {
            (
                PpuModel { memory: M::after_read(s.memory, Address(a)), ..s },
                M::peek(s.memory, Address(a)),
            )
        } else {
            (PpuModel { bus_fault: true, ..s }, 0)
        }
    }

    /// A write of the PPU's memory. An address the memory does not answer is not written: the
    /// PPU notes a bus fault.
    pub open spec fn write_step(s: PpuModel<M::Model>, a: u16, byte: u8) -> PpuModel<M::Model> {
        if M::accepts(Address(a)) {
            PpuModel { memory: M::after_write(s.memory, Address(a), byte), ..s }
        } else {
            PpuModel { bus_fault: true, ..s }
        }
    }

    /// Reads the PPU's memory at `address`, as `read_step` says.
    fn read_memory(&mut self, address: Address) -> (byte: u8)
        requires
            old(self).wf(),
        ensures
            final(self).wf(),
            (final(self).model(), byte) == Self::read_step(old(self).model(), address.0),
    {
        if M::answers(address) {
            self.memory.read(address)
        } else {
            self.bus_fault = true;
            0
        }
    }

    /// Writes the PPU's memory at `address`, as `write_step` says.
    fn write_memory(&mut self, address: Address, byte: u8)
        requires
            old(self).wf(),
        ensures
            final(self).wf(),
            final(self).model() == Self::write_step(old(self).model(), address.0, byte),
    {
        if M::answers(address) {
            self.memory.write(address, byte);
        } else {
            self.bus_fault = true;
        }
    }

    /// Whether the background or the sprites are shown.
    pub open spec fn rendering_spec(s: PpuModel<M::Model>) -> bool {
        s.mask.show_background_spec() || s.mask.show_sprites_spec()
    }

    pub fn with_memory(memory: M) -> (ppu: Self)
        requires
            memory.inv(),
        ensures
            ppu.wf(),
            ppu.memory == memory,
            ppu.read_buffer == 0,
            ppu.object_attribute_memory@ == Seq::new(256, |i: int| 0u8),
            ppu.scanline == 0,
            ppu.cycle_count == 0,
            ppu.tile_pattern == ShiftRegister(0, 0),
            ppu.palette_select == ShiftRegister(0, 0),
            ppu.active_sprites@ == Seq::new(8, |i: int| default_active_sprite()),
            !ppu.active_sprites_has_zero,
            ppu.control.0 == 0,
            ppu.mask.0 == 0,
            ppu.status == (Status {
                vblank: false,
                sprite_zero_hit: false,
                sprite_overflow: false,
            }),
            ppu.address == 0,
            ppu.temporary_address == 0,
            !ppu.write_lower,
            ppu.fine_x == 0,
            ppu.oam_address == 0,
            !ppu.suppress_vblank,
            !ppu.bus_fault,
    {
        let ppu = PPU {
            memory,
            read_buffer: 0,
            object_attribute_memory: [0u8; 256],
            scanline: 0,
            cycle_count: 0,
            tile_pattern: ShiftRegister::default(),
            palette_select: ShiftRegister::default(),
            active_sprites: [ActiveSprite::default(); 8],
            active_sprites_has_zero: false,
            control: Control::default(),
            mask: Mask::default(),
            status: Status::default(),
            address: 0,
            temporary_address: 0,
            write_lower: false,
            fine_x: 0,
            oam_address: 0,
            suppress_vblank: false,
            bus_fault: false,
        };
        assert(ppu.object_attribute_memory@ =~= Seq::new(256, |i: int| 0u8));
        assert(ppu.active_sprites@ =~= Seq::new(8, |i: int| default_active_sprite()));
        ppu
    }

    fn address(&self) -> (a: Address)
        ensures
            a.0 == self.address,
    {
        Address::new(self.address)
    }

    fn set_address(&mut self, address: Address)
        ensures
            final(self).model() == (PpuModel { address: address.0, ..old(self).model() }),
            final(self).memory == old(self).memory,
    {
        self.address = address.bytes();
    }

    fn scroll(&self) -> (s: Scroll)
        ensures
            s == scroll_of(self.address),
            s.wf(),
    {
        Scroll::new(self.address)
    }

    fn set_scroll(&mut self, scroll: Scroll)
        requires
            scroll.wf(),
        ensures
            final(self).model() == (PpuModel { address: scroll_bits(scroll), ..old(self).model() }),
            final(self).memory == old(self).memory,
    {
        self.address = scroll.bits();
    }

    /// Moves the VRAM address on by 1 or 32, as the control register says; past 0xffff it
    /// wraps.
    pub open spec fn increment_address_spec(s: PpuModel<M::Model>) -> PpuModel<M::Model> {
        PpuModel { address: add16(s.address, s.control.address_increment_spec() as int), ..s }
    }

    fn increment_address(&mut self)
        ensures
            final(self).model() == Self::increment_address_spec(old(self).model()),
            final(self).memory == old(self).memory,
    {
        self.address = self.address.wrapping_add(self.control.address_increment());
    }

    /// The nametable byte of the tile at the current scroll position.
    pub fn tile_address(&self) -> (a: Address)
        ensures
            a.0 == scroll_of(self.address).tile_address_spec(),
    {
        self.scroll().tile_address()
    }

    /// The attribute byte covering the tile at the current scroll position.
    pub fn attribute_address(&self) -> (a: Address)
        ensures
            a.0 == scroll_of(self.address).attribute_address_spec(),
    {
        self.scroll().attribute_address()
    }

    /// Where the background's pattern table starts: 0x1000 when bit 4 of the control register
    /// is set, 0x0000 otherwise.
    pub fn background_pattern_table_address(&self) -> (a: Address)
        ensures
            a.0 == self.control.background_pattern_table_spec().base(),
            a.0 == (if bit_set(self.control.0, 4) {
                0x1000u16
            } else {
                0x0000u16
            }),
    {
        self.control.background_pattern_table().address()
    }

    /// Moving the scroll position one tile right.
    pub open spec fn increment_coarse_x_spec(s: PpuModel<M::Model>) -> PpuModel<M::Model> {
        let o = scroll_of(s.address);
        let n = if o.coarse_x != 31 {
            Scroll { coarse_x: (o.coarse_x + 1) as u8, ..o }
        } else {
            Scroll { coarse_x: 0, horizontal_nametable: !o.horizontal_nametable, ..o }
        };
        PpuModel { address: scroll_bits(n), ..s }
    }

    pub fn increment_coarse_x(&mut self)
        ensures
            final(self).model() == Self::increment_coarse_x_spec(old(self).model()),
            final(self).memory == old(self).memory,
    {
        let mut scroll = self.scroll();
        scroll.increment_coarse_x();
        self.set_scroll(scroll);
    }

    /// Moving the scroll position one pixel row down, as `Scroll::increment_fine_y` does.
    pub open spec fn increment_fine_y_spec(s: PpuModel<M::Model>) -> PpuModel<M::Model> {
        let o = scroll_of(s.address);
        let bits = scroll_bits(o);
        let n = if o.fine_y != 7 {
            bits + 4096
        } else if o.coarse_y != 29 {
            bits - 7 * 4096 + 32
        } else if o.vertical_nametable {
            bits - 7 * 4096 - 29 * 32 - 2048
        } else {
            bits - 7 * 4096 - 29 * 32 + 2048
        };
        PpuModel { address: n as u16, ..s }
    }

    pub fn increment_fine_y(&mut self)
        ensures
            final(self).model() == Self::increment_fine_y_spec(old(self).model()),
            final(self).memory == old(self).memory,
    {
        let mut scroll = self.scroll();
        scroll.increment_fine_y();
        self.set_scroll(scroll);
    }

    /// Copying coarse X and the horizontal nametable from the temporary address.
    pub open spec fn transfer_horizontal_scroll_spec(s: PpuModel<M::Model>) -> PpuModel<M::Model> {
        let o = scroll_of(s.address);
        let t = scroll_of(s.temporary_address);
        PpuModel {
            address: scroll_bits(
                Scroll { coarse_x: t.coarse_x, horizontal_nametable: t.horizontal_nametable, ..o },
            ),
            ..s
        }
    }

    pub fn transfer_horizontal_scroll(&mut self)
        ensures
            final(self).model() == Self::transfer_horizontal_scroll_spec(old(self).model()),
            final(self).memory == old(self).memory,
    {
        let mut scroll = self.scroll();
        let temporary_scroll = Scroll::new(self.temporary_address);
        scroll.set_horizontal(temporary_scroll);
        self.set_scroll(scroll);
    }

    /// The address of the first byte of row `row` of tile `pattern_index` in `table`. A row of
    /// 8 to 15 is in the tile below (`0b1abc` becomes `0b1_0abc`), for 8x16 sprites.
    pub open spec fn pattern_address(table: PatternTable, pattern_index: u8, row: u8) -> u16 {
        add16(table.base(), pattern_index * 16 + row % 8 + ((row / 8) % 2) * 16)
    }

    /// Reading both bit planes of one row of a tile.
    pub open spec fn pattern_row_step(
        s: PpuModel<M::Model>,
        table: PatternTable,
        pattern_index: u8,
        row: u8,
    ) -> (PpuModel<M::Model>, u8, u8) {
        let a0 = Self::pattern_address(table, pattern_index, row);
        let (s1, pattern0) = Self::read_step(s, a0);
        let (s2, pattern1) = Self::read_step(s1, add16(a0, 8));
        (s2, pattern0, pattern1)
    }

    pub fn read_pattern_row(&mut self, nametable: PatternTable, pattern_index: u8, row: u8) -> (r:
        (u8, u8))
        requires
            old(self).wf(),
            row < 16,
        ensures
            final(self).wf(),
            (final(self).model(), r.0, r.1) == Self::pattern_row_step(
                old(self).model(),
                nametable,
                pattern_index,
                row,
            ),
    {
        let row = row % 8 + ((row / 8) % 2) * 16;
        let index = (pattern_index as u16) * 16 + row as u16;
        let pattern_address0 = nametable.address().wrapping_add(index);
        let pattern_address1 = pattern_address0.wrapping_add(0b1000);

        let pattern0 = self.read_memory(pattern_address0);
        let pattern1 = self.read_memory(pattern_address1);

        (pattern0, pattern1)
    }

    /// Fetching the next background tile: its pattern index, its attribute byte, and its row
    /// of pattern bits, loaded into the shift registers with the palette bits for the tile.
    pub open spec fn read_next_tile_spec(s: PpuModel<M::Model>) -> PpuModel<M::Model> {
        let scroll = scroll_of(s.address);
        let (s1, pattern_index) = Self::read_step(s, scroll.tile_address_spec());
        let (s2, attribute_byte) = Self::read_step(s1, scroll.attribute_address_spec());
        let index0 = ((scroll.coarse_y / 2) % 2) * 4 + ((scroll.coarse_x / 2) % 2) * 2;
        let (s3, pattern0, pattern1) = Self::pattern_row_step(
            s2,
            s.control.background_pattern_table_spec(),
            pattern_index,
            scroll.fine_y,
        );
        PpuModel {
            tile_pattern: s3.tile_pattern.with_next_bytes(pattern0, pattern1),
            palette_select: s3.palette_select.with_next_bytes(
                spread_bit(attribute_byte, index0 as u8),
                spread_bit(attribute_byte, (index0 + 1) as u8),
            ),
            ..s3
        }
    }

    pub fn read_next_tile(&mut self)
        requires
            old(self).wf(),
        ensures
            final(self).wf(),
            final(self).model() == Self::read_next_tile_spec(old(self).model()),
    {
        let scroll = self.scroll();
        let coarse_x = scroll.coarse_x();
        let coarse_y = scroll.coarse_y();
        let fine_y = scroll.fine_y();

        let pattern_index = self.read_memory(self.tile_address());
        let attribute_byte = self.read_memory(self.attribute_address());
        let attribute_bit_index0 = ((coarse_y / 2) % 2) * 4 + ((coarse_x / 2) % 2) * 2;
        let attribute_bit_index1 = attribute_bit_index0 + 1;

        let table = self.control.background_pattern_table();
        let (pattern0, pattern1) = self.read_pattern_row(table, pattern_index, fine_y);

        self.tile_pattern.set_next_bytes(pattern0, pattern1);

        let palette0 = set_all_bits_to_bit_at_index(attribute_byte, attribute_bit_index0);
        let palette1 = set_all_bits_to_bit_at_index(attribute_byte, attribute_bit_index1);

        self.palette_select.set_next_bytes(palette0, palette1);
    }

    /// Reading the pattern row of the sprite in `slot` for the line before the current
    /// scanline, flipped as the sprite says.
    pub open spec fn sprite_pattern_step(s: PpuModel<M::Model>, slot: int) -> PpuModel<M::Model> {
        let line = s.scanline - 1;
        let size = s.control.sprite_size_spec();
        let active = s.active_sprites[slot];
        let sprite = active.sprite;
        let y_in_sprite = (((line - sprite.y) % 256) % (size.height_spec() as int)) as u8;
        let row = sprite.attributes.ver_flip_spec(y_in_sprite, size);
        let table = match size {
            SpriteSize::_8x8 => s.control.sprite_pattern_table_spec(),
            SpriteSize::_8x16 => if sprite.tile_index % 2 == 1 {
                PatternTable::Right
            } else {
                PatternTable::Left
            },
        };
        let index = match size {
            SpriteSize::_8x8 => sprite.tile_index,
            SpriteSize::_8x16 => (sprite.tile_index - sprite.tile_index % 2) as u8,
        };
        let (s1, pattern0, pattern1) = Self::pattern_row_step(s, table, index, row);
        PpuModel {
            active_sprites: s1.active_sprites.update(
                slot,
                ActiveSprite { pattern0, pattern1, ..active },
            ),
            ..s1
        }
    }

    /// Reading the pattern rows of the first `n` sprite slots, in order.
    pub open spec fn sprite_patterns_step(s: PpuModel<M::Model>, n: nat) -> PpuModel<M::Model>
        decreases n,
    {
        if n == 0 {
            s
        } else {
            Self::sprite_pattern_step(Self::sprite_patterns_step(s, (n - 1) as nat), n - 1)
        }
    }

    /// Selecting the sprites of the scanline being prepared (the one before the current
    /// scanline; none on scanline 0) and reading their pattern rows.
    pub open spec fn load_sprites_spec(s: PpuModel<M::Model>) -> PpuModel<M::Model> {
        if s.scanline == 0 {
            s
        } else {
            let line = s.scanline - 1;
            let size = s.control.sprite_size_spec();
            let s1 = PpuModel {
                active_sprites: selected_sprites(s.oam, line, size),
                active_sprites_has_zero: on_line(oam_sprite(s.oam, 0), line, size),
                ..s
            };
            Self::sprite_patterns_step(s1, 8)
        }
    }

    pub fn load_sprites(&mut self)
        requires
            old(self).wf(),
        ensures
            final(self).wf(),
            final(self).model() == Self::load_sprites_spec(old(self).model()),
            final(self).scanline == old(self).scanline,
            final(self).cycle_count == old(self).cycle_count,
            final(self).mask == old(self).mask,
    {
        if self.scanline == 0 {
            return ;
        }
        let ghost s0 = self.model();
        let sprite_size = self.control.sprite_size();
        let table = self.control.sprite_pattern_table();
        let height = sprite_size.height();
        let scanline = self.scanline - 1;
        let ghost line = scanline as int;

        self.active_sprites = [ActiveSprite::default(); 8];
        self.active_sprites_has_zero = false;

        let mut count: usize = 0;
        let mut i: usize = 0;
        while i < 64
            invariant
                i <= 64,
                count <= 8,
                self.object_attribute_memory@ == s0.oam,
                self.object_attribute_memory@.len() == 256,
                self.active_sprites@.len() == 8,
                sprite_size == s0.control.sprite_size_spec(),
                height == sprite_size.height_spec(),
                line == s0.scanline - 1,
                scanline == line,
                ({
                    let found = sprites_on_line(s0.oam, line, sprite_size, i as nat);
                    &&& count == (if found.len() < 8 {
                        found.len()
                    } else {
                        8
                    })
                    &&& forall|j: int|
                        0 <= j < count ==> #[trigger] self.active_sprites@[j] == (ActiveSprite {
                            sprite: found[j].1,
                            pattern0: 0,
                            pattern1: 0,
                        })
                }),
                forall|j: int| count <= j < 8 ==> #[trigger] self.active_sprites@[j] == default_active_sprite(),
                self.active_sprites_has_zero == (i > 0 && on_line(oam_sprite(s0.oam, 0), line, sprite_size)),
                self.wf(),
                self.model() == (PpuModel {
                    active_sprites: self.active_sprites@,
                    active_sprites_has_zero: self.active_sprites_has_zero,
                    ..s0
                }),
            decreases 64 - i,
        {
            let sprite = Sprite::new(
                self.object_attribute_memory[4 * i + 3],
                self.object_attribute_memory[4 * i],
                self.object_attribute_memory[4 * i + 1],
                SpriteAttributes::from_bits_truncate(self.object_attribute_memory[4 * i + 2]),
            );
            assert(sprite == oam_sprite(s0.oam, i as int));
            let y = sprite.y as u16;
            if scanline >= y && scanline < y + height as u16 {
                if count < 8 {
                    self.active_sprites[count] = ActiveSprite { sprite, pattern0: 0, pattern1: 0 };
                    count = count + 1;
                }
                if i == 0 {
                    self.active_sprites_has_zero = true;
                }
            }
            i = i + 1;
        }
        assert(self.active_sprites@ =~= selected_sprites(s0.oam, line, sprite_size));

        let ghost s1 = self.model();
        let mut k: usize = 0;
        while k < 8
            invariant
                k <= 8,
                self.wf(),
                self.active_sprites@.len() == 8,
                self.scanline == s1.scanline,
                self.cycle_count == s1.cycle_count,
                self.mask == s1.mask,
                self.control == s1.control,
                s1.scanline >= 1,
                scanline == s1.scanline - 1,
                sprite_size == s1.control.sprite_size_spec(),
                table == s1.control.sprite_pattern_table_spec(),
                height == sprite_size.height_spec(),
                self.model() == Self::sprite_patterns_step(s1, k as nat),
            decreases 8 - k,
        {
            let active = self.active_sprites[k];
            let sprite = active.sprite;
            let attr = sprite.attributes;

            let diff = scanline.wrapping_sub(sprite.y as u16);
            let y_in_sprite = ((diff % 256) as u8) % height;
            assert(y_in_sprite == (((scanline - sprite.y) % 256) % (height as int)) as u8);
            let y_in_sprite = attr.ver_flip(y_in_sprite, sprite_size);

            let (sprite_table, index) = match sprite_size {
                SpriteSize::_8x8 => (table, sprite.tile_index),
                SpriteSize::_8x16 => (
                    PatternTable::from_bool(sprite.tile_index % 2 == 1),
                    sprite.tile_index - sprite.tile_index % 2,
                ),
            };

            let (pattern0, pattern1) = self.read_pattern_row(sprite_table, index, y_in_sprite);

            self.active_sprites[k] = ActiveSprite { pattern0, pattern1, ..active };
            k = k + 1;
        }
    }

    /// The pixel of the sprite in `slot` at the current dot: whether it is shown, and its
    /// two pattern bits.
    pub open spec fn sprite_pixel(s: PpuModel<M::Model>, slot: int) -> (bool, u8) {
        let active = s.active_sprites[slot];
        let x = active.sprite.x as int;
        let attr = active.sprite.attributes;
        let x_in_sprite = attr.hor_flip_spec((((s.cycle_count - x) % 256) % 8) as u8);
        let bit0 = (active.pattern0 >> x_in_sprite) % 2;
        let bit1 = (active.pattern1 >> x_in_sprite) % 2;
        let lower_index = (bit1 * 2 + bit0) as u8;
        let shown = s.mask.show_sprites_spec() && s.scanline > 0 && lower_index != 0 && x
            <= s.cycle_count < x + 8 && s.scanline > active.sprite.y;
        (shown, lower_index)
    }

    /// The first slot, from `k` on, whose sprite is shown at the current dot; 8 when none is.
    pub open spec fn first_shown(s: PpuModel<M::Model>, k: int) -> int
        decreases 8 - k,
    {
        if k >= 8 {
            8
        } else if Self::sprite_pixel(s, k).0 {
            k
        } else {
            Self::first_shown(s, k + 1)
        }
    }

    /// The sprite drawn at the current dot: the shown sprite in the lowest slot.
    pub open spec fn sprite_color_spec(s: PpuModel<M::Model>) -> SelectedSprite {
        let index = Self::first_shown(s, 0);
        let attr = if index < 8 {
            s.active_sprites[index].sprite.attributes
        } else {
            SpriteAttributes(0)
        };
        let lower_index = if index < 8 {
            Self::sprite_pixel(s, index).1
        } else {
            0u8
        };
        SelectedSprite {
            visible: index < 8,
            color_address: Address((SPRITE_PALETTES + attr.palette() * 4 + lower_index) as u16),
            priority: !attr.behind_background(),
            index: index as usize,
        }
    }

    fn sprite_pixel_of(&self, slot: usize) -> (r: (bool, u8))
        requires
            slot < 8,
        ensures
            r == Self::sprite_pixel(self.model(), slot as int),
            r.1 < 4,
    {
        let active = self.active_sprites[slot];
        let x = active.sprite.x as u16;
        let attr = active.sprite.attributes;
        let diff = self.cycle_count.wrapping_sub(x);
        let x_in_sprite = attr.hor_flip(((diff % 256) as u8) % 8);
        let bit0 = (active.pattern0 >> x_in_sprite) % 2;
        let bit1 = (active.pattern1 >> x_in_sprite) % 2;
        let lower_index = bit1 * 2 + bit0;
        let shown = self.mask.show_sprites() && self.scanline > 0 && lower_index != 0
            && self.cycle_count >= x && self.cycle_count < x + 8 && self.scanline
            > active.sprite.y as u16;
        (shown, lower_index)
    }

    fn sprite_color(&self) -> (r: SelectedSprite)
        ensures
            r == Self::sprite_color_spec(self.model()),
    {
        let mut index: usize = 8;
        let mut lower_index: u8 = 0;
        let mut k: usize = 8;
        while k > 0
            invariant
                k <= 8,
                index == Self::first_shown(self.model(), k as int),
                index < 8 ==> lower_index == Self::sprite_pixel(self.model(), index as int).1,
                index >= 8 ==> lower_index == 0,
                index <= 8,
            decreases k,
        {
            k = k - 1;
            let (shown, lower) = self.sprite_pixel_of(k);
            if shown {
                index = k;
                lower_index = lower;
            }
        }
        let attr = if index < 8 {
            self.active_sprites[index].sprite.attributes
        } else {
            SpriteAttributes::empty()
        };
        let palette = attr.bits() % 4;
        let color_address = Address::new(SPRITE_PALETTES + (palette * 4 + lower_index) as u16);
        let priority = (attr.bits() / 32) % 2 == 0;

        SelectedSprite { visible: index < ACTIVE_SPRITES, color_address, priority, index }
    }

    /// The background pixel at the current dot: the address of its colour and whether it is
    /// opaque. A transparent pixel takes the universal background colour.
    pub open spec fn background_color_spec(s: PpuModel<M::Model>) -> (u16, bool) {
        let lower_bits = s.tile_pattern.bits_at(s.fine_x);
        let higher_bits = s.palette_select.bits_at(s.fine_x);
        let opaque = s.mask.show_background_spec() && lower_bits != 0;
        if opaque {
            ((BACKGROUND_PALETTES + lower_bits + higher_bits * 4) as u16, true)
        } else {
            (BACKGROUND_PALETTES, false)
        }
    }

    fn background_color(&self) -> (r: (Address, bool))
        requires
            self.fine_x < 8,
        ensures
            (r.0.0, r.1) == Self::background_color_spec(self.model()),
    {
        let lower_bits = self.tile_pattern.get_bits(self.fine_x);
        let higher_bits = self.palette_select.get_bits(self.fine_x);

        let color_index = (lower_bits + higher_bits * 4) as u16;

        let show_background = self.mask.show_background();
        let opaque = show_background && lower_bits != 0;

        // Use universal background colour when transparent
        let color_address = if opaque {
            Address::new(BACKGROUND_PALETTES + color_index)
        } else {
            Address::new(BACKGROUND_PALETTES)
        };

        (color_address, opaque)
    }

    /// Choosing between the sprite and the background pixel, noting a sprite zero hit, and
    /// reading the colour.
    pub open spec fn next_color_spec(s: PpuModel<M::Model>) -> (PpuModel<M::Model>, Color) {
        let sprite = Self::sprite_color_spec(s);
        let (background, background_opaque) = Self::background_color_spec(s);
        let color_address = if sprite.visible && sprite.priority {
            sprite.color_address.0
        } else if background_opaque {
            background
        } else if sprite.visible {
            sprite.color_address.0
        } else {
            background
        };
        let s1 = if s.active_sprites_has_zero && sprite.index == 0 && background_opaque {
            PpuModel { status: Status { sprite_zero_hit: true, ..s.status }, ..s }
        } else {
            s
        };
        let (s2, c) = Self::read_step(s1, color_address);
        (s2, Color(c))
    }

    /// Sprite priority: when a sprite is shown at the current dot, the first such sprite (in
    /// slot order) decides. If bit 5 of its attributes is clear it is in front, and the dot
    /// takes the colour at 0x3f10 + 4 * (its palette, attribute bits 0-1) + its pixel's
    /// pattern value, even over an opaque background pixel. If bit 5 is set it is behind:
    /// an opaque background pixel wins, and otherwise the sprite's colour is still drawn.
    pub proof fn lemma_sprite_priority(s: PpuModel<M::Model>)
        requires
            Self::first_shown(s, 0) < 8,
        ensures
            ({
                let i = Self::first_shown(s, 0);
                let attr = s.active_sprites[i].sprite.attributes.0;
                let sprite_address = (0x3f10 + (attr % 4) * 4 + Self::sprite_pixel(s, i).1) as u16;
                let (background, opaque) = Self::background_color_spec(s);
                let color = Self::next_color_spec(s).1;
                &&& (attr / 32) % 2 == 0 ==> color == Color(Self::read_step(s, sprite_address).1)
                &&& (attr / 32) % 2 == 1 && opaque ==> color == Color(
                    Self::read_step(s, background).1,
                )
                &&& (attr / 32) % 2 == 1 && !opaque ==> color == Color(
                    Self::read_step(s, sprite_address).1,
                )
            }),
    {
        let i = Self::first_shown(s, 0);
        let attr = s.active_sprites[i].sprite.attributes;
        assert(attr.behind_background() == ((attr.0 / 32) % 2 == 1));
    }

    #[verifier::spinoff_prover]
    fn next_color(&mut self) -> (c: Color)
        requires
            old(self).wf(),
        ensures
            final(self).wf(),
            (final(self).model(), c) == Self::next_color_spec(old(self).model()),
    {
        let ghost s = self.model();
        let sprite = self.sprite_color();
        let (background, background_opaque) = self.background_color();
        assert(sprite == Self::sprite_color_spec(s));
        assert((background.0, background_opaque) == Self::background_color_spec(s));

        let color_address = if sprite.visible && sprite.priority {
            sprite.color_address
        } else if background_opaque {
            background
        } else if sprite.visible {
            sprite.color_address
        } else {
            background
        };

        if self.active_sprites_has_zero && sprite.index == 0 && background_opaque {
            self.status.insert(Status::SPRITE_ZERO_HIT);
        }
        assert(self.model() == (if s.active_sprites_has_zero && sprite.index == 0
            && background_opaque {
            PpuModel { status: Status { sprite_zero_hit: true, ..s.status }, ..s }
        } else {
            s
        }));

        Color(self.read_memory(color_address))
    }

    /// What happens at fixed dots of the frame: sprites are loaded at the start of each
    /// scanline; vblank starts at scanline 241 (with an interrupt if the control register asks
    /// for one) and ends at scanline 261, where the scroll position is reloaded; at the end of
    /// each visible scanline the position moves down a row and back to the left edge.
    pub open spec fn tick_events_spec(s: PpuModel<M::Model>) -> (PpuModel<M::Model>, bool) {
        let rendering = Self::rendering_spec(s);
        if s.cycle_count == 0 {
            (Self::load_sprites_spec(s), false)
        } else if s.scanline == 241 && s.cycle_count == 1 && !s.suppress_vblank {
            (
                PpuModel { status: Status { vblank: true, ..s.status }, ..s },
                s.control.nmi_on_vblank_spec(),
            )
        } else if s.scanline == 261 && s.cycle_count == 1 {
            let s1 = PpuModel {
                status: Status { vblank: false, sprite_zero_hit: false, ..s.status },
                ..s
            };
            (
                if rendering {
                    PpuModel { address: s.temporary_address, ..s1 }
                } else {
                    s1
                },
                false,
            )
        } else if s.scanline <= 239 && s.cycle_count == 256 && rendering {
            (Self::increment_fine_y_spec(s), false)
        } else if s.scanline <= 239 && s.cycle_count == 257 && rendering {
            (Self::transfer_horizontal_scroll_spec(s), false)
        } else {
            (s, false)
        }
    }

    /// One tick: the events of the dot, a tile fetch every 8 dots while rendering, a pixel
    /// inside the visible picture, the shift registers moved on, and the dot counters moved
    /// on. Gives the new state, the colour drawn, whether an interrupt is raised, and whether
    /// the PPU is in vertical blank.
    pub open spec fn tick_spec(s0: PpuModel<M::Model>) -> (
        PpuModel<M::Model>,
        Option<Color>,
        bool,
        bool,
    ) {
        let s = s0;
        let in_bounds = s.scanline < 240 && s.cycle_count < 256;
        let rendering = Self::rendering_spec(s);
        // A status read since the last tick keeps vblank from starting at this dot; the
        // suppression lasts only until the dot's events are done.
        let (e, interrupt) = Self::tick_events_spec(s);
        let s1 = PpuModel { suppress_vblank: false, ..e };
        let preparing_next_scanline = (s.scanline < 240 || s.scanline == 261) && s.cycle_count
            >= 328;
        let s2 = if rendering && ((in_bounds && s.cycle_count > 0) || preparing_next_scanline)
            && s.cycle_count % 8 == 0 {
            Self::increment_coarse_x_spec(Self::read_next_tile_spec(s1))
        } else {
            s1
        };
        let (s3, color) = if in_bounds {
            let (t, c) = Self::next_color_spec(s2);
            (t, Some(c))
        } else {
            (s2, None)
        };
        let s4 = if s.cycle_count < 336 {
            PpuModel {
                tile_pattern: s3.tile_pattern.shifted(),
                palette_select: s3.palette_select.shifted(),
                ..s3
            }
        } else {
            s3
        };
        let vblank = s.scanline >= 240;
        let s5 = if s.cycle_count < 340 {
            PpuModel { cycle_count: (s.cycle_count + 1) as u16, ..s4 }
        } else {
            PpuModel {
                cycle_count: 0,
                scanline: if s.scanline < 261 {
                    (s.scanline + 1) as u16
                } else {
                    0
                },
                ..s4
            }
        };
        (s5, color, interrupt, vblank)
    }

    fn tick_events(&mut self) -> (interrupt: bool)
        requires
            old(self).wf(),
        ensures
            final(self).wf(),
            (final(self).model(), interrupt) == Self::tick_events_spec(old(self).model()),
            final(self).scanline == old(self).scanline,
            final(self).cycle_count == old(self).cycle_count,
            final(self).mask == old(self).mask,
    {
        let mut interrupt = false;
        let rendering = self.rendering();

        if self.cycle_count == 0 {
            self.load_sprites();
        } else if self.scanline == 241 && self.cycle_count == 1 && !self.suppress_vblank {
            self.status.insert(Status::VBLANK);

            if self.control.nmi_on_vblank() {
                interrupt = true;
            }
        } else if self.scanline == 261 && self.cycle_count == 1 {
            self.status.remove(Status::VBLANK);
            self.status.remove(Status::SPRITE_ZERO_HIT);
            if rendering {
                self.set_address(Address::new(self.temporary_address));
            }
        } else if self.scanline <= 239 && self.cycle_count == 256 && rendering {
            self.increment_fine_y();
        } else if self.scanline <= 239 && self.cycle_count == 257 && rendering {
            self.transfer_horizontal_scroll();
        }
        interrupt
    }

    #[verifier::spinoff_prover]
    #[verifier::rlimit(100)]
    pub fn tick(&mut self) -> (out: PPUOutput)
        requires
            old(self).wf(),
        ensures
            final(self).wf(),
            (final(self).model(), out.color, out.interrupt, out.vblank) == Self::tick_spec(
                old(self).model(),
            ),
    {
        let in_bounds = self.scanline < 240 && self.cycle_count < 256;
        let rendering = self.rendering();
        let interrupt = self.tick_events();
        // A status read since the last tick suppressed vblank (and its interrupt) at this dot
        // only; the suppression ends here.
        self.suppress_vblank = false;
        assert(self.model() == PpuModel {
            suppress_vblank: false,
            ..Self::tick_events_spec(old(self).model()).0
        });

        // A tile is fetched every 8 cycles.
        // The 1st and 2nd tiles are fetched at the end of the previous scanline, filling the 16-bit
        // shift registers. The first cycle is idle, so the 3rd tile is fetched at cycle 8.
        let preparing_next_scanline = (self.scanline < 240 || self.scanline == 261)
            && self.cycle_count >= 328;
        if rendering && ((in_bounds && self.cycle_count > 0) || preparing_next_scanline)
            && self.cycle_count % 8 == 0 {
            self.read_next_tile();
            self.increment_coarse_x();
        }

        let color = if in_bounds {
            Some(self.next_color())
        } else {
            None
        };

        // Don't shift registers in the last 4 bits, or everything goes out of alignment.
        // Oddly, the cycle count in a scanline isn't divisible by 8.
        if self.cycle_count < 336 {
            self.tile_pattern.shift();
            self.palette_select.shift();
        }

        let vblank = self.scanline >= 240;

        if self.cycle_count < 340 {
            self.cycle_count = self.cycle_count + 1;
        } else {
            self.cycle_count = 0;
            if self.scanline < 261 {
                self.scanline = self.scanline + 1;
            } else {
                self.scanline = 0;
            }
        };

        PPUOutput { color, interrupt, vblank }
    }

    pub fn rendering(&self) -> (b: bool)
        ensures
            b == Self::rendering_spec(self.model()),
    {
        self.mask.show_background() || self.mask.show_sprites()
    }
}

} // verus!
