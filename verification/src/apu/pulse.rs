use vstd::prelude::*;

use super::envelope::Envelope;
use super::{length_counter_value, length_for};

verus! {

/// A pulse wave: a rectangular wave alternating between the envelope's volume and 0.
#[derive(Copy, Clone, Debug, PartialEq, Eq, Structural)]
pub struct PulseGenerator {
    pub enabled: bool,
    /// `timer` starts at `timer_initial` and counts down to 0; then it is reloaded and the
    /// sequencer moves on. A lower `timer_initial` gives a higher frequency.
    pub timer_initial: u16,
    pub timer: u16,
    /// The position in the waveform.
    pub sequencer: u8,
    pub duty_cycle: u8,
    pub length_counter: u8,
    pub length_counter_halt: bool,
    pub envelope: Envelope,
}

/// The eight steps of each duty cycle, one bit each, step 0 in bit 0: 12.5%, 25%, 50% and
/// 25% negated.
pub open spec fn duty_waveform(duty_cycle: u8) -> u8 {
    if duty_cycle == 0 {
        0b00000010
    } else if duty_cycle == 1 {
        0b00000110
    } else if duty_cycle == 2 {
        0b00011110
    } else {
        0b11111001
    }
}

impl PulseGenerator {
    /// The duty cycle names one of the four waveforms.
    pub open spec fn wf(self) -> bool {
        self.duty_cycle < 4
    }

    /// The level the generator puts out in its current state.
    pub open spec fn enabled_set(self, enabled: bool) -> Self {
        PulseGenerator {
            enabled,
            length_counter: if enabled {
                self.length_counter
            } else {
                0
            },
            ..self
        }
    }

    pub open spec fn flags_written(self, value: u8) -> Self {
        PulseGenerator {
            duty_cycle: value >> 6u8,
            length_counter_halt: value & 0b0010_0000 != 0,
            envelope: Envelope {
                constant_volume: value & 0b0001_0000 != 0,
                volume: value & 0b0000_1111,
                ..self.envelope
            },
            ..self
        }
    }

    pub open spec fn timer_written(self, value: u8) -> Self {
        PulseGenerator {
            timer_initial: (self.timer_initial & 0xFF00) | value as u16,
            ..self
        }
    }

    pub open spec fn length_written(self, value: u8) -> Self {
        PulseGenerator {
            timer_initial: (self.timer_initial & 0x00FF) | (((value & 0b0000_0111) as u16)
                << 8u16),
            length_counter: if self.enabled {
                length_for(value >> 3u8)
            } else {
                self.length_counter
            },
            sequencer: 0,
            envelope: Envelope { start: true, ..self.envelope },
            ..self
        }
    }

    pub open spec fn level(self) -> u8 {
        if self.length_counter == 0 {
            0
        } else {
            if (duty_waveform(self.duty_cycle) >> (self.sequencer % 8)) % 2 == 1 {
                self.envelope.level()
            } else {
                0
            }
        }
    }

    /// The state after one tick of the timer.
    pub open spec fn ticked(self) -> PulseGenerator {
        if self.timer == 0 {
            PulseGenerator {
                timer: self.timer_initial,
                sequencer: (if self.sequencer == 255 {
                    0
                } else {
                    self.sequencer + 1
                }) as u8,
                ..self
            }
        } else {
            PulseGenerator { timer: (self.timer - 1) as u16, ..self }
        }
    }

    pub open spec fn length_clocked(self) -> PulseGenerator {
        if self.length_counter > 0 && !self.length_counter_halt {
            PulseGenerator { length_counter: (self.length_counter - 1) as u8, ..self }
        } else {
            self
        }
    }

    /// Disabling the channel silences it at once.
    pub fn set_enabled(&mut self, enabled: bool)
        ensures
            *final(self) == old(self).enabled_set(enabled),
    {
        if !enabled {
            self.length_counter = 0;
        }
        self.enabled = enabled;
    }

    /// Bits 6-7 duty cycle, bit 5 length counter halt, bit 4 constant volume, bits 0-3
    /// volume.
    pub fn write_flags(&mut self, value: u8)
        ensures
            *final(self) == old(self).flags_written(value),
    {
        self.duty_cycle = value >> 6u8;
        self.length_counter_halt = value & 0b0010_0000 != 0;
        self.envelope.set_constant_volume(value & 0b0001_0000 != 0);
        self.envelope.set_volume(value & 0b0000_1111);
    }

    /// Sets the low byte of the timer period.
    pub fn write_timer(&mut self, value: u8)
        ensures
            *final(self) == old(self).timer_written(value),
    {
        self.timer_initial = (self.timer_initial & 0xFF00) | value as u16;
    }

    /// Bits 0-2 are the high bits of the timer period; bits 3-7 choose a length (loaded only
    /// while enabled). Restarts the waveform and the envelope.
    pub fn write_length(&mut self, value: u8)
        ensures
            *final(self) == old(self).length_written(value),
    {
        let timer_high = value & 0b0000_0111;
        self.timer_initial = (self.timer_initial & 0x00FF) | ((timer_high as u16) << 8u16);
        let length_index = value >> 3u8;
        assert(length_index < 32) by (bit_vector)
            requires
                length_index == value >> 3u8,
        ;

        if self.enabled {
            self.length_counter = length_counter_value(length_index);
        }

        self.sequencer = 0;
        self.envelope.start();
    }

    pub fn halted(&self) -> (b: bool)
        ensures
            b == (self.length_counter == 0),
    {
        self.length_counter == 0
    }

    /// Low-frequency clock to reduce sound over time.
    pub fn clock_envelope(&mut self)
        ensures
            *final(self) == (PulseGenerator {
                envelope: old(self).envelope.clocked(),
                ..*old(self)
            }),
    {
        self.envelope.clock();
    }

    /// Low-frequency clock to stop sound after a certain time.
    pub fn clock_length_counter(&mut self)
        ensures
            *final(self) == old(self).length_clocked(),
    {
        if self.length_counter > 0 && !self.length_counter_halt {
            self.length_counter = self.length_counter - 1;
        }
    }

    /// High-frequency tick: gives the current level, then moves the timer on.
    pub fn tick(&mut self) -> (value: u8)
        requires
            old(self).wf(),
        ensures
            value == old(self).level(),
            *final(self) == old(self).ticked(),
    {
        let playing = !self.halted();
        let volume = self.envelope.volume();
        let waveform = duty_waveform_value(self.duty_cycle);
        let bit = (waveform >> (self.sequencer % 8)) % 2;
        let value = if playing && bit == 1 {
            volume
        } else {
            0
        };

        if self.timer == 0 {
            self.timer = self.timer_initial;
            self.sequencer = self.sequencer.wrapping_add(1);
        } else {
            self.timer = self.timer - 1;
        }

        value
    }
}

fn duty_waveform_value(duty_cycle: u8) -> (w: u8)
    requires
        duty_cycle < 4,
    ensures
        w == duty_waveform(duty_cycle),
{
    if duty_cycle == 0 {
        0b00000010
    } else if duty_cycle == 1 {
        0b00000110
    } else if duty_cycle == 2 {
        0b00011110
    } else {
        0b11111001
    }
}

impl PulseGenerator {
    /// The channel at power-on: disabled and silent.
    pub open spec fn initial() -> PulseGenerator {
        PulseGenerator {
            enabled: false,
            timer_initial: 0,
            timer: 0,
            sequencer: 0,
            duty_cycle: 0,
            length_counter: 0,
            length_counter_halt: false,
            envelope: Envelope::initial(),
        }
    }
}

impl Default for PulseGenerator {
    fn default() -> (p: Self)
        ensures
            p == PulseGenerator::initial(),
    {
        PulseGenerator {
            enabled: false,
            timer_initial: 0,
            timer: 0,
            sequencer: 0,
            duty_cycle: 0,
            length_counter: 0,
            length_counter_halt: false,
            envelope: Envelope::default(),
        }
    }
}


/// The pulse waveforms: of the eight steps of a period, duty 0 (12.5%) is high only at step
/// 1, duty 1 (25%) at steps 1-2, duty 2 (50%) at steps 1-4, and duty 3 (25% negated)
/// everywhere but steps 1-2. While the length counter runs, the channel puts out its
/// envelope's level at high steps and 0 at low ones; once it has run out, 0.
pub proof fn lemma_pulse_duty_waveforms(p: PulseGenerator)
    requires
        p.wf(),
    ensures
        ({
            let step = p.sequencer % 8;
            let high = if p.duty_cycle == 0 {
                step == 1
            } else if p.duty_cycle == 1 {
                1 <= step <= 2
            } else if p.duty_cycle == 2 {
                1 <= step <= 4
            } else {
                !(1 <= step <= 2)
            };
            &&& p.length_counter == 0 ==> p.level() == 0
            &&& p.length_counter != 0 ==> p.level() == (if high {
                p.envelope.level()
            } else {
                0
            })
        }),
{
    let step = p.sequencer % 8;
    let w = duty_waveform(p.duty_cycle);
    assert(step < 8);
    assert((0b00000010u8 >> step) % 2 == 1 <==> step == 1) by (bit_vector)
        requires
            step < 8,
    ;
    assert((0b00000110u8 >> step) % 2 == 1 <==> (1 <= step <= 2)) by (bit_vector)
        requires
            step < 8,
    ;
    assert((0b00011110u8 >> step) % 2 == 1 <==> (1 <= step <= 4)) by (bit_vector)
        requires
            step < 8,
    ;
    assert((0b11111001u8 >> step) % 2 == 1 <==> !(1 <= step <= 2)) by (bit_vector)
        requires
            step < 8,
    ;
}

} // verus!
