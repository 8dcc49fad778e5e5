use vstd::prelude::*;

use crate::address::{add16, add8, Address};
use crate::memory::ArrayMemory;
use crate::memory::Memory;

use super::control::Control;
use super::mask::Mask;
use super::scroll::{scroll_bits, scroll_of, Scroll};
use super::status::{ppu_status_bits, Status};
use super::{oam_sprite, on_line, selected_sprites, PpuModel, BACKGROUND_PALETTES, PPU};

verus! {

/// The PPU's registers as the CPU sees them, at 0x2000-0x2007 and 0x4014.
///
/// An implementation describes its state by a model, and each register access by a function
/// on that model.
pub trait PPURegisters: Sized {
    type Model;

    spec fn model(&self) -> Self::Model;

    spec fn inv(&self) -> bool;

    spec fn control_written(m: Self::Model, byte: u8) -> Self::Model;

    spec fn mask_written(m: Self::Model, byte: u8) -> Self::Model;

    /// The state after reading PPUSTATUS, and the byte read.
    spec fn status_read(m: Self::Model) -> (Self::Model, u8);

    spec fn oam_address_written(m: Self::Model, byte: u8) -> Self::Model;

    spec fn oam_data_read(m: Self::Model) -> (Self::Model, u8);

    spec fn oam_data_written(m: Self::Model, byte: u8) -> Self::Model;

    spec fn scroll_written(m: Self::Model, byte: u8) -> Self::Model;

    spec fn address_written(m: Self::Model, byte: u8) -> Self::Model;

    spec fn data_read(m: Self::Model) -> (Self::Model, u8);

    spec fn data_written(m: Self::Model, byte: u8) -> Self::Model;

    /// The state after a DMA transfer of 256 bytes into object attribute memory.
    spec fn oam_dma_written(m: Self::Model, bytes: [u8; 256]) -> Self::Model;

    fn write_control(&mut self, byte: u8)
        requires
            old(self).inv(),
        ensures
            final(self).inv(),
            final(self).model() == Self::control_written(old(self).model(), byte),
    ;

    fn write_mask(&mut self, byte: u8)
        requires
            old(self).inv(),
        ensures
            final(self).inv(),
            final(self).model() == Self::mask_written(old(self).model(), byte),
    ;

    fn read_status(&mut self) -> (byte: u8)
        requires
            old(self).inv(),
        ensures
            final(self).inv(),
            (final(self).model(), byte) == Self::status_read(old(self).model()),
    ;

    fn write_oam_address(&mut self, byte: u8)
        requires
            old(self).inv(),
        ensures
            final(self).inv(),
            final(self).model() == Self::oam_address_written(old(self).model(), byte),
    ;

    fn read_oam_data(&mut self) -> (byte: u8)
        requires
            old(self).inv(),
        ensures
            final(self).inv(),
            (final(self).model(), byte) == Self::oam_data_read(old(self).model()),
    ;

    fn write_oam_data(&mut self, byte: u8)
        requires
            old(self).inv(),
        ensures
            final(self).inv(),
            final(self).model() == Self::oam_data_written(old(self).model(), byte),
    ;

    fn write_scroll(&mut self, byte: u8)
        requires
            old(self).inv(),
        ensures
            final(self).inv(),
            final(self).model() == Self::scroll_written(old(self).model(), byte),
    ;

    fn write_address(&mut self, byte: u8)
        requires
            old(self).inv(),
        ensures
            final(self).inv(),
            final(self).model() == Self::address_written(old(self).model(), byte),
    ;

    fn read_data(&mut self) -> (byte: u8)
        requires
            old(self).inv(),
        ensures
            final(self).inv(),
            (final(self).model(), byte) == Self::data_read(old(self).model()),
    ;

    fn write_data(&mut self, byte: u8)
        requires
            old(self).inv(),
        ensures
            final(self).inv(),
            final(self).model() == Self::data_written(old(self).model(), byte),
    ;

    fn write_oam_dma(&mut self, bytes: [u8; 256])
        requires
            old(self).inv(),
        ensures
            final(self).inv(),
            final(self).model() == Self::oam_dma_written(old(self).model(), bytes),
    ;
}

/// `bytes` rotated right by `k` places: the byte at `i` moves to `i + k`, wrapping.
pub open spec fn rotate_right(bytes: Seq<u8>, k: int) -> Seq<u8> {
    Seq::new(256, |j: int| bytes[(j - k + 256) % 256])
}

impl<M: Memory> PPURegisters for PPU<M> {
    type Model = PpuModel<M::Model>;

    open spec fn model(&self) -> PpuModel<M::Model> {
        PPU::model(self)
    }

    open spec fn inv(&self) -> bool {
        self.wf()
    }

    /// Sets the control register, and bits 10-11 of the temporary address to the nametable
    /// it selects.
    open spec fn control_written(m: PpuModel<M::Model>, byte: u8) -> PpuModel<M::Model> {
        PpuModel {
            control: Control(byte),
            temporary_address: (m.temporary_address & 0b1111_0011_1111_1111) | (((byte % 4) as u16)
                << 10u16),
            ..m
        }
    }

    open spec fn mask_written(m: PpuModel<M::Model>, byte: u8) -> PpuModel<M::Model> {
        PpuModel { mask: Mask(byte), ..m }
    }

    /// Gives the status and clears vblank; resets the write toggle, and keeps vblank from
    /// being set on this tick.
    open spec fn status_read(m: PpuModel<M::Model>) -> (PpuModel<M::Model>, u8) {
        (
            PpuModel {
                write_lower: false,
                suppress_vblank: true,
                status: Status { vblank: false, ..m.status },
                ..m
            },
            ppu_status_bits(m.status),
        )
    }

    open spec fn oam_address_written(m: PpuModel<M::Model>, byte: u8) -> PpuModel<M::Model> {
        PpuModel { oam_address: byte, ..m }
    }

    open spec fn oam_data_read(m: PpuModel<M::Model>) -> (PpuModel<M::Model>, u8) {
        (m, m.oam[m.oam_address as int])
    }

    /// Writes at the OAM address, which moves on by one.
    open spec fn oam_data_written(m: PpuModel<M::Model>, byte: u8) -> PpuModel<M::Model> {
        PpuModel {
            oam: m.oam.update(m.oam_address as int, byte),
            oam_address: add8(m.oam_address, 1),
            ..m
        }
    }

    /// The first write of a pair sets coarse X and fine X, the second coarse Y and fine Y,
    /// of the temporary address.
    open spec fn scroll_written(m: PpuModel<M::Model>, byte: u8) -> PpuModel<M::Model> {
        let fine = byte % 8;
        let coarse = byte / 8;
        let t = scroll_of(m.temporary_address);
        if m.write_lower {
            PpuModel {
                temporary_address: scroll_bits(Scroll { coarse_y: coarse, fine_y: fine, ..t }),
                write_lower: false,
                ..m
            }
        } else {
            PpuModel {
                temporary_address: scroll_bits(Scroll { coarse_x: coarse, ..t }),
                fine_x: fine,
                write_lower: true,
                ..m
            }
        }
    }

    /// The first write of a pair sets the upper six bits of the temporary address (bit 14 is
    /// cleared); the second sets its lower byte and copies it to the VRAM address.
    open spec fn address_written(m: PpuModel<M::Model>, byte: u8) -> PpuModel<M::Model> {
        if m.write_lower {
            let t = (m.temporary_address & 0b1111_1111_0000_0000) | (byte as u16);
            PpuModel { temporary_address: t, address: t, write_lower: false, ..m }
        } else {
            let t = (m.temporary_address & 0b0000_0000_1111_1111) | (((byte & 0b0011_1111) as u16)
                << 8u16);
            PpuModel { temporary_address: t, write_lower: true, ..m }
        }
    }

    /// Reads at the VRAM address, which moves on. Below the palettes a read gives the byte
    /// buffered by the previous read, and buffers the byte read.
    open spec fn data_read(m: PpuModel<M::Model>) -> (PpuModel<M::Model>, u8) {
        let (s1, byte) = PPU::<M>::read_step(m, m.address);
        let s2 = PPU::<M>::increment_address_spec(s1);
        if m.address < BACKGROUND_PALETTES {
            (PpuModel { read_buffer: byte, ..s2 }, m.read_buffer)
        } else {
            (s2, byte)
        }
    }

    /// Writes at the VRAM address, which moves on.
    open spec fn data_written(m: PpuModel<M::Model>, byte: u8) -> PpuModel<M::Model> {
        PPU::<M>::increment_address_spec(PPU::<M>::write_step(m, m.address, byte))
    }

    /// Object attribute memory becomes `bytes`, the first byte landing at the OAM address.
    open spec fn oam_dma_written(m: PpuModel<M::Model>, bytes: [u8; 256]) -> PpuModel<M::Model> {
        PpuModel { oam: rotate_right(bytes@, m.oam_address as int), ..m }
    }

    fn write_control(&mut self, byte: u8) {
        self.control = Control::from_bits(byte);

        // Set bits of temporary address to nametable
        self.temporary_address = self.temporary_address & 0b1111_0011_1111_1111;
        self.temporary_address = self.temporary_address | ((self.control.nametable_select() as u16)
            << 10u16);
    }

    fn write_mask(&mut self, byte: u8) {
        self.mask = Mask::from_bits_truncate(byte);
    }

    fn read_status(&mut self) -> (byte: u8) {
        self.write_lower = false;
        self.suppress_vblank = true;
        let bits = self.status.bits();
        self.status.remove(Status::VBLANK);
        bits
    }

    fn write_oam_address(&mut self, byte: u8) {
        self.oam_address = byte;
    }

    fn read_oam_data(&mut self) -> (byte: u8) {
        self.object_attribute_memory[self.oam_address as usize]
    }

    fn write_oam_data(&mut self, byte: u8) {
        self.object_attribute_memory[self.oam_address as usize] = byte;
        self.oam_address = self.oam_address.wrapping_add(1);
    }

    fn write_scroll(&mut self, byte: u8) {
        let fine = byte % 8;
        let coarse = byte / 8;
        let mut scroll = Scroll::from_bits_truncate(self.temporary_address);

        if self.write_lower {
            scroll.set_coarse_y(coarse);
            scroll.set_fine_y(fine);
        } else {
            scroll.set_coarse_x(coarse);
            self.fine_x = fine;
        }

        self.temporary_address = scroll.bits();
        self.write_lower = !self.write_lower;
    }

    fn write_address(&mut self, byte: u8) {
        if self.write_lower {
            self.temporary_address = self.temporary_address & 0b1111_1111_0000_0000;
            self.temporary_address = self.temporary_address | (byte as u16);
            self.set_address(Address::new(self.temporary_address));
        } else {
            self.temporary_address = self.temporary_address & 0b0000_0000_1111_1111;
            self.temporary_address = self.temporary_address | (((byte & 0b0011_1111) as u16)
                << 8u16);
        }

        self.write_lower = !self.write_lower;
    }

    fn read_data(&mut self) -> (byte: u8) {
        let address = self.address();
        let byte = self.read_memory(address);
        self.increment_address();

        if address.0 < BACKGROUND_PALETTES {
            let buffer = self.read_buffer;
            self.read_buffer = byte;
            buffer
        } else {
            byte
        }
    }

    fn write_data(&mut self, byte: u8) {
        let address = self.address();
        self.write_memory(address, byte);
        self.increment_address();
    }

    fn write_oam_dma(&mut self, bytes: [u8; 256]) {
        let shift = self.oam_address as usize;
        let mut j: usize = 0;
        while j < 256
            invariant
                j <= 256,
                shift < 256,
                self.object_attribute_memory@.len() == 256,
                forall|i: int|
                    0 <= i < j ==> self.object_attribute_memory@[i] == bytes@[(i - shift + 256)
                        % 256],
                self.wf() == old(self).wf(),
                self.model() == (PpuModel { oam: self.object_attribute_memory@, ..old(self).model() }),
                self.oam_address == old(self).oam_address,
                shift == old(self).oam_address,
            decreases 256 - j,
        {
            self.object_attribute_memory[j] = bytes[(j + 256 - shift) % 256];
            j = j + 1;
        }
        assert(self.object_attribute_memory@ =~= rotate_right(bytes@, shift as int));
    }
}

/// The state after writing PPUADDR twice: high byte, then low byte.
pub open spec fn address_pair_written(m: PpuModel<Seq<u8>>, high: u8, low: u8) -> PpuModel<Seq<u8>> {
    PPU::<ArrayMemory>::address_written(PPU::<ArrayMemory>::address_written(m, high), low)
}

proof fn lemma_address_bits(t: u16, high: u8, low: u8)
    by (bit_vector)
    ensures
        ((((t & 0b0000_0000_1111_1111) | (((high & 0b0011_1111) as u16) << 8u16)) & 0b1111_1111_0000_0000)
            | (low as u16)) == ((((high & 0b0011_1111) as u16) << 8u16) | (low as u16)),
{
}

/// Writing PPUADDR twice points the data port at `((high & 0x3f) << 8) | low`, whatever the
/// temporary address held.
pub proof fn lemma_address_pair(m: PpuModel<Seq<u8>>, high: u8, low: u8)
    requires
        !m.write_lower,
    ensures
        address_pair_written(m, high, low).address == ((((high & 0b0011_1111) as u16)
            << 8u16) | (low as u16)),
        !address_pair_written(m, high, low).write_lower,
        address_pair_written(m, high, low).memory == m.memory,
        address_pair_written(m, high, low).read_buffer == m.read_buffer,
        address_pair_written(m, high, low).control == m.control,
{
    lemma_address_bits(m.temporary_address, high, low);
}

/// A byte written through PPUDATA is read back through PPUDATA after pointing PPUADDR at the
/// same address again, by the second read: below the palettes the first read gives the
/// buffered byte and fills the buffer.
pub proof fn lemma_data_write_then_read(m: PpuModel<Seq<u8>>, high: u8, low: u8, byte: u8)
    requires
        m.memory.len() == 0x10000,
        !m.write_lower,
        ((((high & 0b0011_1111) as u16) << 8u16) | (low as u16)) + m.control.address_increment_spec()
            < BACKGROUND_PALETTES,
    ensures
        ({
            let m1 = PPU::<ArrayMemory>::data_written(address_pair_written(m, high, low), byte);
            let m2 = address_pair_written(m1, high, low);
            let (m3, first) = PPU::<ArrayMemory>::data_read(m2);
            PPU::<ArrayMemory>::data_read(m3).1 == byte
        }),
{
    let a = (((high & 0b0011_1111) as u16) << 8u16) | (low as u16);
    lemma_address_pair(m, high, low);
    let m1 = PPU::<ArrayMemory>::data_written(address_pair_written(m, high, low), byte);
    lemma_address_pair(m1, high, low);
    let m2 = address_pair_written(m1, high, low);
    assert(m2.memory[a as int] == byte);
    assert(m2.address == a);
    let (m3, first) = PPU::<ArrayMemory>::data_read(m2);
    assert(m3.read_buffer == byte);
    assert(m3.address == add16(a, m.control.address_increment_spec() as int));
}


/// Reading PPUSTATUS just before vblank starts keeps it from starting: the tick at scanline
/// 241, dot 1 then neither sets the vblank flag nor raises the interrupt. Without such a read,
/// that tick sets the flag and raises the interrupt when the control register asks for one.
pub proof fn lemma_status_read_suppresses_vblank<M: Memory>(m: PpuModel<M::Model>)
    requires
        m.scanline == 241,
        m.cycle_count == 1,
    ensures
        ({
            let (m1, _) = PPU::<M>::status_read(m);
            let (m2, _, interrupt, _) = PPU::<M>::tick_spec(m1);
            &&& !m2.status.vblank
            &&& !interrupt
            &&& !m2.suppress_vblank
        }),
        !m.suppress_vblank ==> ({
            let (m2, _, interrupt, _) = PPU::<M>::tick_spec(m);
            &&& m2.status.vblank
            &&& interrupt == m.control.nmi_on_vblank_spec()
        }),
{
}


/// The dot counters, the vblank flag and its suppression are the same in both states.
pub open spec fn same_timing<T>(a: PpuModel<T>, b: PpuModel<T>) -> bool {
    &&& a.scanline == b.scanline
    &&& a.cycle_count == b.cycle_count
    &&& a.suppress_vblank == b.suppress_vblank
    &&& a.status.vblank == b.status.vblank
    &&& a.control == b.control
}

proof fn lemma_sprite_patterns_keep_timing<M: Memory>(s: PpuModel<M::Model>, n: nat)
    ensures
        same_timing(s, PPU::<M>::sprite_patterns_step(s, n)),
        PPU::<M>::sprite_patterns_step(s, n).status == s.status,
    decreases n,
{
    if n > 0 {
        lemma_sprite_patterns_keep_timing::<M>(s, (n - 1) as nat);
    }
}

proof fn lemma_fetches_keep_timing<M: Memory>(s: PpuModel<M::Model>)
    ensures
        same_timing(s, PPU::<M>::load_sprites_spec(s)),
        PPU::<M>::load_sprites_spec(s).status == s.status,
        same_timing(s, PPU::<M>::increment_coarse_x_spec(PPU::<M>::read_next_tile_spec(s))),
        same_timing(s, PPU::<M>::next_color_spec(s).0),
{
    if s.scanline != 0 {
        let line = s.scanline - 1;
        let size = s.control.sprite_size_spec();
        let s1 = PpuModel {
            active_sprites: selected_sprites(s.oam, line, size),
            active_sprites_has_zero: on_line(oam_sprite(s.oam, 0), line, size),
            ..s
        };
        lemma_sprite_patterns_keep_timing::<M>(s1, 8);
    }
}

/// What one tick does to the dot counters and what it puts out: a colour exactly inside the
/// visible picture, the vblank signal from scanline 240 on, the dot moving on (to the next
/// scanline after dot 340, and back to the top after scanline 261), the interrupt at scanline
/// 241, dot 1 when the control register asks for one and no status read suppressed it, and
/// vblank and sprite-zero hit cleared at scanline 261, dot 1.
#[verifier::spinoff_prover]
#[verifier::rlimit(100)]
pub proof fn lemma_tick_counters_and_outputs<M: Memory>(m: PpuModel<M::Model>)
    requires
        m.scanline <= 261,
        m.cycle_count <= 340,
    ensures
        ({
            let (m2, color, interrupt, vblank) = PPU::<M>::tick_spec(m);
            &&& (color is Some <==> (m.scanline < 240 && m.cycle_count < 256))
            &&& vblank == (m.scanline >= 240)
            &&& m.cycle_count < 340 ==> m2.cycle_count == m.cycle_count + 1 && m2.scanline
                == m.scanline
            &&& m.cycle_count == 340 ==> m2.cycle_count == 0 && m2.scanline == (m.scanline + 1)
                % 262
            &&& interrupt == (m.scanline == 241 && m.cycle_count == 1 && !m.suppress_vblank
                && m.control.nmi_on_vblank_spec())
            &&& m.scanline == 261 && m.cycle_count == 1 ==> !m2.status.vblank
                && !m2.status.sprite_zero_hit
            &&& !m2.suppress_vblank
        }),
{
    let s = m;
    let in_bounds = s.scanline < 240 && s.cycle_count < 256;
    let rendering = PPU::<M>::rendering_spec(s);
    lemma_fetches_keep_timing::<M>(s);
    let (e, interrupt) = PPU::<M>::tick_events_spec(s);
    assert(same_timing(s, e) || (s.scanline == 241 && s.cycle_count == 1) || (s.scanline == 261
        && s.cycle_count == 1));
    assert(e.scanline == s.scanline && e.cycle_count == s.cycle_count && e.control == s.control);
    let s1 = PpuModel { suppress_vblank: false, ..e };
    let preparing_next_scanline = (s.scanline < 240 || s.scanline == 261) && s.cycle_count >= 328;
    lemma_fetches_keep_timing::<M>(s1);
    let s2 = if rendering && ((in_bounds && s.cycle_count > 0) || preparing_next_scanline)
        && s.cycle_count % 8 == 0 {
        PPU::<M>::increment_coarse_x_spec(PPU::<M>::read_next_tile_spec(s1))
    } else {
        s1
    };
    assert(same_timing(s1, s2));
    lemma_fetches_keep_timing::<M>(s2);
    let (s3, color) = if in_bounds {
        let (t, c) = PPU::<M>::next_color_spec(s2);
        (t, Some(c))
    } else {
        (s2, None)
    };
    assert(same_timing(s1, s3));
    assert(!in_bounds ==> s3.status == s1.status);
    let s4 = if s.cycle_count < 336 {
        PpuModel {
            tile_pattern: s3.tile_pattern.shifted(),
            palette_select: s3.palette_select.shifted(),
            ..s3
        }
    } else {
        s3
    };
    let vblank = s.scanline >= 240;
    let s5 = if s.cycle_count < 340 {
        PpuModel { cycle_count: (s.cycle_count + 1) as u16, ..s4 }
    } else {
        PpuModel {
            cycle_count: 0,
            scanline: if s.scanline < 261 {
                (s.scanline + 1) as u16
            } else {
                0
            },
            ..s4
        }
    };
    assert(PPU::<M>::tick_spec(m) == (s5, color, interrupt, vblank));
}

} // verus!
