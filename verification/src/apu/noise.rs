use vstd::prelude::*;

use super::envelope::Envelope;
use super::{length_counter_value, length_for};

verus! {

/// A pseudo-random noise generator: a 15-bit linear feedback shift register.
#[derive(Copy, Clone, Debug, PartialEq, Eq, Structural)]
pub struct NoiseGenerator {
    pub enabled: bool,
    /// `timer` starts at `timer_initial` and counts down to 0; then it is reloaded and the
    /// shift register moves on. A lower `timer_initial` gives higher frequency noise.
    pub timer_initial: u16,
    pub timer: u16,
    pub mode: bool,
    pub shift_register: u16,
    pub length_counter: u8,
    pub length_counter_halt: bool,
    pub envelope: Envelope,
}

/// The timer period for each of the 16 period settings.
pub open spec fn noise_period(period: u8) -> u16 {
    if period == 0 {
        4
    } else if period == 1 {
        8
    } else if period == 2 {
        16
    } else if period == 3 {
        32
    } else if period == 4 {
        64
    } else if period == 5 {
        96
    } else if period == 6 {
        128
    } else if period == 7 {
        160
    } else if period == 8 {
        202
    } else if period == 9 {
        254
    } else if period == 10 {
        380
    } else if period == 11 {
        508
    } else if period == 12 {
        762
    } else if period == 13 {
        1016
    } else if period == 14 {
        2034
    } else {
        4068
    }
}

fn noise_period_value(period: u8) -> (t: u16)
    ensures
        t == noise_period(period),
{
    if period == 0 {
        4
    } else if period == 1 {
        8
    } else if period == 2 {
        16
    } else if period == 3 {
        32
    } else if period == 4 {
        64
    } else if period == 5 {
        96
    } else if period == 6 {
        128
    } else if period == 7 {
        160
    } else if period == 8 {
        202
    } else if period == 9 {
        254
    } else if period == 10 {
        380
    } else if period == 11 {
        508
    } else if period == 12 {
        762
    } else if period == 13 {
        1016
    } else if period == 14 {
        2034
    } else {
        4068
    }
}

impl NoiseGenerator {
    /// The level the generator puts out: the envelope's while bit 0 of the shift register is
    /// clear and the channel is playing.
    pub open spec fn enabled_set(self, enabled: bool) -> Self {
        NoiseGenerator {
            enabled,
            length_counter: if enabled {
                self.length_counter
            } else {
                0
            },
            ..self
        }
    }

    pub open spec fn flags_written(self, value: u8) -> Self {
        NoiseGenerator {
            length_counter_halt: value & 0b0010_0000 != 0,
            envelope: Envelope {
                constant_volume: value & 0b0001_0000 != 0,
                volume: value & 0b0000_1111,
                ..self.envelope
            },
            ..self
        }
    }

    pub open spec fn length_written(self, value: u8) -> Self {
        NoiseGenerator {
            length_counter: if self.enabled {
                length_for(value >> 3u8)
            } else {
                self.length_counter
            },
            envelope: Envelope { start: true, ..self.envelope },
            ..self
        }
    }

    pub open spec fn mode_written(self, value: u8) -> Self {
        NoiseGenerator {
            mode: value & 0b1000_0000 != 0,
            timer_initial: noise_period(value & 0b0000_1111),
            ..self
        }
    }

    pub open spec fn level(self) -> u8 {
        if self.length_counter != 0 && self.shift_register % 2 == 0 {
            self.envelope.level()
        } else {
            0
        }
    }

    /// The shift register moved on: shifted right, with bit 14 set to bit 0 xor bit 6 (in
    /// mode 1) or bit 1.
    pub open spec fn shifted(self) -> NoiseGenerator {
        let bit: u16 = if self.mode {
            6
        } else {
            1
        };
        let feedback = (self.shift_register & 0b1) ^ ((self.shift_register >> bit) & 0b1);
        NoiseGenerator {
            shift_register: (self.shift_register >> 1u16) | (feedback << 14u16),
            ..self
        }
    }

    /// The state after one tick of the timer.
    pub open spec fn ticked(self) -> NoiseGenerator {
        if self.timer == 0 {
            NoiseGenerator { timer: self.timer_initial, ..self }.shifted()
        } else {
            NoiseGenerator { timer: (self.timer - 1) as u16, ..self }
        }
    }

    pub open spec fn length_clocked(self) -> NoiseGenerator {
        if self.length_counter > 0 && !self.length_counter_halt {
            NoiseGenerator { length_counter: (self.length_counter - 1) as u8, ..self }
        } else {
            self
        }
    }

    /// Disabling the channel silences it at once.
    pub fn set_enabled(&mut self, enabled: bool)
        ensures
            *final(self) == old(self).enabled_set(enabled),
    {
        if !enabled {
            self.length_counter = 0;
        }
        self.enabled = enabled;
    }

    /// Bit 5 length counter halt, bit 4 constant volume, bits 0-3 volume.
    pub fn write_flags(&mut self, value: u8)
        ensures
            *final(self) == old(self).flags_written(value),
    {
        self.length_counter_halt = value & 0b0010_0000 != 0;
        self.envelope.set_constant_volume(value & 0b0001_0000 != 0);
        self.envelope.set_volume(value & 0b0000_1111);
    }

    /// Bit 7 is the mode; bits 0-3 choose the timer period.
    pub fn write_mode(&mut self, value: u8)
        ensures
            *final(self) == old(self).mode_written(value),
    {
        self.mode = value & 0b1000_0000 != 0;
        let period = value & 0b0000_1111;
        self.timer_initial = noise_period_value(period);
    }

    /// Bits 3-7 choose a length, loaded only while enabled. Restarts the envelope.
    pub fn write_length(&mut self, value: u8)
        ensures
            *final(self) == old(self).length_written(value),
    {
        let length_index = value >> 3u8;
        assert(length_index < 32) by (bit_vector)
            requires
                length_index == value >> 3u8,
        ;

        if self.enabled {
            self.length_counter = length_counter_value(length_index);
        }

        self.envelope.start();
    }

    pub fn halted(&self) -> (b: bool)
        ensures
            b == (self.length_counter == 0),
    {
        self.length_counter == 0
    }

    /// Low-frequency clock to reduce sound over time.
    pub fn clock_envelope(&mut self)
        ensures
            *final(self) == (NoiseGenerator {
                envelope: old(self).envelope.clocked(),
                ..*old(self)
            }),
    {
        self.envelope.clock();
    }

    /// Low-frequency clock to stop sound after a certain time.
    pub fn clock_length_counter(&mut self)
        ensures
            *final(self) == old(self).length_clocked(),
    {
        if self.length_counter > 0 && !self.length_counter_halt {
            self.length_counter = self.length_counter - 1;
        }
    }

    /// High-frequency tick: gives the current level, then moves the timer on.
    pub fn tick(&mut self) -> (value: u8)
        ensures
            value == old(self).level(),
            *final(self) == old(self).ticked(),
    {
        let playing = !self.halted();
        let volume = self.envelope.volume();
        let value = if playing && self.shift_register % 2 == 0 {
            volume
        } else {
            0
        };

        if self.timer == 0 {
            self.timer = self.timer_initial;
            self.clock_shift_register();
        } else {
            self.timer = self.timer - 1;
        }

        value
    }

    fn clock_shift_register(&mut self)
        ensures
            *final(self) == old(self).shifted(),
    {
        // Choose the bit to feed back from, by mode.
        let bit: u16 = if self.mode {
            6
        } else {
            1
        };
        // The feedback is the xor of bit 0 and that bit.
        let feedback = (self.shift_register & 0b1) ^ ((self.shift_register >> bit) & 0b1);
        // Shift right, and put the feedback in bit 14.
        self.shift_register = (self.shift_register >> 1u16) | (feedback << 14u16);
    }
}

impl NoiseGenerator {
    /// The channel at power-on: disabled and silent.
    pub open spec fn initial() -> NoiseGenerator {
        NoiseGenerator {
            enabled: false,
            timer_initial: 0,
            timer: 0,
            mode: false,
            shift_register: 1,
            length_counter: 0,
            length_counter_halt: false,
            envelope: Envelope::initial(),
        }
    }
}

impl Default for NoiseGenerator {
    fn default() -> (n: Self)
        ensures
            n == NoiseGenerator::initial(),
    {
        NoiseGenerator {
            enabled: false,
            timer_initial: 0,
            timer: 0,
            mode: false,
            shift_register: 1,
            length_counter: 0,
            length_counter_halt: false,
            envelope: Envelope::default(),
        }
    }
}


/// One clock of the noise channel's 15-bit shift register moves every bit down one place and
/// puts the feedback into bit 14: bit 0 xor bit 1 in normal mode, bit 0 xor bit 6 in the
/// short (mode 1) sequence. Nothing else in the channel changes.
pub proof fn lemma_noise_shift_feedback(n: NoiseGenerator)
    requires
        n.shift_register < 0x8000,
    ensures
        n.shifted().shift_register < 0x8000,
        n.shifted().shift_register & 0x3fff == (n.shift_register >> 1u16) & 0x3fff,
        !n.mode ==> (n.shifted().shift_register >> 14u16) == (n.shift_register & 1) ^ ((
        n.shift_register >> 1u16) & 1),
        n.mode ==> (n.shifted().shift_register >> 14u16) == (n.shift_register & 1) ^ ((
        n.shift_register >> 6u16) & 1),
        n.shifted() == (NoiseGenerator { shift_register: n.shifted().shift_register, ..n }),
{
    let o = n.shift_register;
    let r = n.shifted().shift_register;
    let f1 = (o & 1) ^ ((o >> 1u16) & 1);
    let f6 = (o & 1) ^ ((o >> 6u16) & 1);
    if n.mode {
        assert(r == (o >> 1u16) | (f6 << 14u16));
        assert(r < 0x8000 && r & 0x3fff == (o >> 1u16) & 0x3fff && r >> 14u16 == f6)
            by (bit_vector)
            requires
                o < 0x8000,
                f6 == (o & 1) ^ ((o >> 6u16) & 1),
                r == (o >> 1u16) | (f6 << 14u16),
        ;
    } else {
        assert(r == (o >> 1u16) | (f1 << 14u16));
        assert(r < 0x8000 && r & 0x3fff == (o >> 1u16) & 0x3fff && r >> 14u16 == f1)
            by (bit_vector)
            requires
                o < 0x8000,
                f1 == (o & 1) ^ ((o >> 1u16) & 1),
                r == (o >> 1u16) | (f1 << 14u16),
        ;
    }
}

} // verus!
