//! The audio processing unit: two pulse channels, a triangle channel and a noise channel,
//! clocked by a frame counter.

pub mod envelope;
pub mod noise;
pub mod pulse;
pub mod triangle;

use vstd::prelude::*;

use crate::address::add16;

use self::noise::NoiseGenerator;
use self::pulse::PulseGenerator;
use self::triangle::TriangleGenerator;

verus! {

/// The length counter value for each of the 32 length settings.
pub open spec fn length_for(index: u8) -> u8 {
    if index == 0 {
        10
    } else if index == 1 {
        254
    } else if index == 2 {
        20
    } else if index == 3 {
        2
    } else if index == 4 {
        40
    } else if index == 5 {
        4
    } else if index == 6 {
        80
    } else if index == 7 {
        6
    } else if index == 8 {
        160
    } else if index == 9 {
        8
    } else if index == 10 {
        60
    } else if index == 11 {
        10
    } else if index == 12 {
        14
    } else if index == 13 {
        12
    } else if index == 14 {
        26
    } else if index == 15 {
        14
    } else if index == 16 {
        12
    } else if index == 17 {
        16
    } else if index == 18 {
        24
    } else if index == 19 {
        18
    } else if index == 20 {
        48
    } else if index == 21 {
        20
    } else if index == 22 {
        96
    } else if index == 23 {
        22
    } else if index == 24 {
        192
    } else if index == 25 {
        24
    } else if index == 26 {
        72
    } else if index == 27 {
        26
    } else if index == 28 {
        16
    } else if index == 29 {
        28
    } else if index == 30 {
        32
    } else {
        30
    }
}

pub fn length_counter_value(index: u8) -> (l: u8)
    requires
        index < 32,
    ensures
        l == length_for(index),
{
    if index == 0 {
        10
    } else if index == 1 {
        254
    } else if index == 2 {
        20
    } else if index == 3 {
        2
    } else if index == 4 {
        40
    } else if index == 5 {
        4
    } else if index == 6 {
        80
    } else if index == 7 {
        6
    } else if index == 8 {
        160
    } else if index == 9 {
        8
    } else if index == 10 {
        60
    } else if index == 11 {
        10
    } else if index == 12 {
        14
    } else if index == 13 {
        12
    } else if index == 14 {
        26
    } else if index == 15 {
        14
    } else if index == 16 {
        12
    } else if index == 17 {
        16
    } else if index == 18 {
        24
    } else if index == 19 {
        18
    } else if index == 20 {
        48
    } else if index == 21 {
        20
    } else if index == 22 {
        96
    } else if index == 23 {
        22
    } else if index == 24 {
        192
    } else if index == 25 {
        24
    } else if index == 26 {
        72
    } else if index == 27 {
        26
    } else if index == 28 {
        16
    } else if index == 29 {
        28
    } else if index == 30 {
        32
    } else {
        30
    }
}

/// The level of each channel on one tick.
#[derive(Copy, Clone, Debug, PartialEq, Eq, Structural)]
pub struct ApuOutput {
    pub pulse_1: u8,
    pub pulse_2: u8,
    pub triangle: u8,
    pub noise: u8,
}

#[derive(Copy, Clone, Debug, PartialEq, Eq, Structural)]
pub struct APU {
    pub pulse_1: PulseGenerator,
    pub pulse_2: PulseGenerator,
    pub triangle: TriangleGenerator,
    pub noise: NoiseGenerator,
    /// The frame counter runs in one of two modes, which change its timing.
    pub mode_toggle: bool,
    pub cycles: u16,
}

impl APU {
    pub open spec fn wf(self) -> bool {
        self.pulse_1.wf() && self.pulse_2.wf()
    }

    /// A quarter frame: the envelopes and the triangle's linear counter are clocked.
    pub open spec fn quarter_frame(self) -> APU {
        APU {
            pulse_1: PulseGenerator { envelope: self.pulse_1.envelope.clocked(), ..self.pulse_1 },
            pulse_2: PulseGenerator { envelope: self.pulse_2.envelope.clocked(), ..self.pulse_2 },
            triangle: self.triangle.linear_clocked(),
            noise: NoiseGenerator { envelope: self.noise.envelope.clocked(), ..self.noise },
            ..self
        }
    }

    /// A half frame: a quarter frame, and the length counters are clocked.
    pub open spec fn half_frame(self) -> APU {
        let q = self.quarter_frame();
        APU {
            pulse_1: q.pulse_1.length_clocked(),
            pulse_2: q.pulse_2.length_clocked(),
            triangle: q.triangle.length_clocked(),
            noise: q.noise.length_clocked(),
            ..q
        }
    }

    /// The levels of the channels before a tick.
    pub open spec fn levels(self) -> ApuOutput {
        ApuOutput {
            pulse_1: self.pulse_1.level(),
            pulse_2: self.pulse_2.level(),
            triangle: self.triangle.level(),
            noise: self.noise.level(),
        }
    }

    /// One tick: every channel's timer moves on, and the frame counter clocks the envelopes
    /// and counters at its fixed steps, then starts over.
    pub open spec fn ticked(self) -> APU {
        let a = APU {
            pulse_1: self.pulse_1.ticked(),
            pulse_2: self.pulse_2.ticked(),
            triangle: self.triangle.ticked(),
            noise: self.noise.ticked(),
            cycles: add16(self.cycles, 1),
            ..self
        };
        let c = self.cycles;
        let mode = self.mode_toggle;
        if c == 7457 || c == 22371 {
            a.quarter_frame()
        } else if c == 14913 || (!mode && c == 29829) || (mode && c == 37281) {
            a.half_frame()
        } else if (!mode && c == 14915) || (mode && c == 37282) {
            APU { cycles: 0, ..a }
        } else {
            a
        }
    }

    pub fn tick(&mut self) -> (out: ApuOutput)
        requires
            old(self).wf(),
        ensures
            final(self).wf(),
            out == old(self).levels(),
            *final(self) == old(self).ticked(),
    {
        let pulse_1 = self.pulse_1.tick();
        let pulse_2 = self.pulse_2.tick();
        let triangle = self.triangle.tick();
        let noise = self.noise.tick();

        let cycles = self.cycles;
        self.cycles = self.cycles.wrapping_add(1);

        let mode = self.mode_toggle;
        if cycles == 7457 || cycles == 22371 {
            self.clock_quarter_frame();
        } else if cycles == 14913 || (!mode && cycles == 29829) || (mode && cycles == 37281) {
            self.clock_quarter_frame();
            self.pulse_1.clock_length_counter();
            self.pulse_2.clock_length_counter();
            self.triangle.clock_length_counter();
            self.noise.clock_length_counter();
        } else if (!mode && cycles == 14915) || (mode && cycles == 37282) {
            self.cycles = 0;
        }

        ApuOutput { pulse_1, pulse_2, triangle, noise }
    }

    fn clock_quarter_frame(&mut self)
        ensures
            *final(self) == old(self).quarter_frame(),
    {
        self.pulse_1.clock_envelope();
        self.pulse_2.clock_envelope();
        self.triangle.clock_linear_counter();
        self.noise.clock_envelope();
    }

    pub fn write_pulse_1_flags(&mut self, value: u8)
        ensures
            *final(self) == (APU { pulse_1: old(self).pulse_1.flags_written(value), ..*old(self) }),
            old(self).wf() ==> final(self).wf(),
    {
        self.pulse_1.write_flags(value);
        assert(value >> 6u8 < 4) by (bit_vector);
    }

    pub fn write_pulse_1_timer(&mut self, value: u8)
        ensures
            *final(self) == (APU { pulse_1: old(self).pulse_1.timer_written(value), ..*old(self) }),
    {
        self.pulse_1.write_timer(value);
    }

    pub fn write_pulse_1_length(&mut self, value: u8)
        ensures
            *final(self) == (APU { pulse_1: old(self).pulse_1.length_written(value), ..*old(self) }),
    {
        self.pulse_1.write_length(value);
    }

    pub fn write_pulse_2_flags(&mut self, value: u8)
        ensures
            *final(self) == (APU { pulse_2: old(self).pulse_2.flags_written(value), ..*old(self) }),
            old(self).wf() ==> final(self).wf(),
    {
        self.pulse_2.write_flags(value);
        assert(value >> 6u8 < 4) by (bit_vector);
    }

    pub fn write_pulse_2_timer(&mut self, value: u8)
        ensures
            *final(self) == (APU { pulse_2: old(self).pulse_2.timer_written(value), ..*old(self) }),
    {
        self.pulse_2.write_timer(value);
    }

    pub fn write_pulse_2_length(&mut self, value: u8)
        ensures
            *final(self) == (APU { pulse_2: old(self).pulse_2.length_written(value), ..*old(self) }),
    {
        self.pulse_2.write_length(value);
    }

    pub fn write_triangle_flags(&mut self, value: u8)
        ensures
            *final(self) == (APU { triangle: old(self).triangle.flags_written(value), ..*old(self) }),
    {
        self.triangle.write_flags(value);
    }

    pub fn write_triangle_timer(&mut self, value: u8)
        ensures
            *final(self) == (APU { triangle: old(self).triangle.timer_written(value), ..*old(self) }),
    {
        self.triangle.write_timer(value);
    }

    pub fn write_triangle_length(&mut self, value: u8)
        ensures
            *final(self) == (APU { triangle: old(self).triangle.length_written(value), ..*old(self) }),
    {
        self.triangle.write_length(value);
    }

    pub fn write_noise_flags(&mut self, value: u8)
        ensures
            *final(self) == (APU { noise: old(self).noise.flags_written(value), ..*old(self) }),
    {
        self.noise.write_flags(value);
    }

    pub fn write_noise_mode(&mut self, value: u8)
        ensures
            *final(self) == (APU { noise: old(self).noise.mode_written(value), ..*old(self) }),
    {
        self.noise.write_mode(value);
    }

    pub fn write_noise_length(&mut self, value: u8)
        ensures
            *final(self) == (APU { noise: old(self).noise.length_written(value), ..*old(self) }),
    {
        self.noise.write_length(value);
    }

    /// Bit 7 chooses the frame counter's mode.
    pub fn write_frame_counter(&mut self, value: u8)
        ensures
            *final(self) == (APU { mode_toggle: value & 0b1000_0000 != 0, ..*old(self) }),
    {
        self.mode_toggle = value & 0b1000_0000 != 0;
    }

    /// The APU after writing `value` to the status register.
    pub open spec fn status_written(self, value: u8) -> APU {
        APU {
            pulse_1: self.pulse_1.enabled_set(value & 0b0001 != 0),
            pulse_2: self.pulse_2.enabled_set(value & 0b0010 != 0),
            triangle: self.triangle.enabled_set(value & 0b0100 != 0),
            noise: self.noise.enabled_set(value & 0b1000 != 0),
            ..self
        }
    }

    /// The status byte: bit 0 and bit 1 are set while pulse 1 and pulse 2 are playing.
    pub open spec fn status_byte(self) -> u8 {
        ((if self.pulse_1.length_counter != 0 {
            1int
        } else {
            0
        }) + (if self.pulse_2.length_counter != 0 {
            2int
        } else {
            0
        })) as u8
    }

    pub fn read_status(&mut self) -> (status: u8)
        ensures
            status == old(self).status_byte(),
            *final(self) == *old(self),
    {
        let mut status: u8 = 0;
        if !self.pulse_1.halted() {
            status = status + 1;
        }
        if !self.pulse_2.halted() {
            status = status + 2;
        }
        status
    }

    /// Bits 0-3 enable pulse 1, pulse 2, the triangle and the noise channel; a disabled
    /// channel is silenced at once.
    pub fn write_status(&mut self, value: u8)
        ensures
            final(self).pulse_1 == old(self).pulse_1.enabled_set(value & 0b0001 != 0),
            final(self).pulse_2 == old(self).pulse_2.enabled_set(value & 0b0010 != 0),
            final(self).triangle == old(self).triangle.enabled_set(value & 0b0100 != 0),
            final(self).noise == old(self).noise.enabled_set(value & 0b1000 != 0),
            final(self).mode_toggle == old(self).mode_toggle,
            final(self).cycles == old(self).cycles,
            old(self).wf() ==> final(self).wf(),
    {
        self.pulse_1.set_enabled(value & 0b0001 != 0);
        self.pulse_2.set_enabled(value & 0b0010 != 0);
        self.triangle.set_enabled(value & 0b0100 != 0);
        self.noise.set_enabled(value & 0b1000 != 0);
    }
}

impl Default for APU {
    fn default() -> (a: Self)
        ensures
            a.wf(),
            a == (APU {
                pulse_1: PulseGenerator::initial(),
                pulse_2: PulseGenerator::initial(),
                triangle: TriangleGenerator::initial(),
                noise: NoiseGenerator::initial(),
                mode_toggle: false,
                cycles: 0,
            }),
    {
        APU {
            pulse_1: PulseGenerator::default(),
            pulse_2: PulseGenerator::default(),
            triangle: TriangleGenerator::default(),
            noise: NoiseGenerator::default(),
            mode_toggle: false,
            cycles: 0,
        }
    }
}

} // verus!
