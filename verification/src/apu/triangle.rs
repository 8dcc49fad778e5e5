use vstd::prelude::*;

use super::{length_counter_value, length_for};

verus! {

/// A triangle wave: the level steps down from 15 to 0, then up from 0 to 15.
#[derive(Copy, Clone, Debug, PartialEq, Eq, Structural)]
pub struct TriangleGenerator {
    pub enabled: bool,
    /// `timer` starts at `timer_initial` and counts down to 0; then it is reloaded and the
    /// sequencer moves on. A lower `timer_initial` gives a higher frequency.
    pub timer_initial: u16,
    pub timer: u16,
    /// The position in the waveform.
    pub sequencer: u8,
    pub length_counter: u8,
    pub length_counter_halt: bool,
    pub linear_counter: u8,
    pub linear_counter_reload: u8,
    pub linear_counter_reload_flag: bool,
    pub linear_counter_control: bool,
}

/// The 32 steps of the triangle: 15 down to 0, then 0 up to 15.
pub open spec fn triangle_step(i: u8) -> u8 {
    if i < 16 {
        (15 - i) as u8
    } else {
        (i - 16) as u8
    }
}

impl TriangleGenerator {
    /// The level the generator puts out in its current state.
    pub open spec fn enabled_set(self, enabled: bool) -> Self {
        TriangleGenerator {
            enabled,
            length_counter: if enabled {
                self.length_counter
            } else {
                0
            },
            ..self
        }
    }

    pub open spec fn flags_written(self, value: u8) -> Self {
        TriangleGenerator {
            length_counter_halt: value & 0b1000_0000 != 0,
            linear_counter_control: value & 0b1000_0000 != 0,
            linear_counter_reload: value & 0b0111_1111,
            ..self
        }
    }

    pub open spec fn timer_written(self, value: u8) -> Self {
        TriangleGenerator {
            timer_initial: (self.timer_initial & 0xFF00) | value as u16,
            ..self
        }
    }

    pub open spec fn length_written(self, value: u8) -> Self {
        TriangleGenerator {
            timer_initial: (self.timer_initial & 0x00FF) | (((value & 0b0000_0111) as u16)
                << 8u16),
            length_counter: if self.enabled {
                length_for(value >> 3u8)
            } else {
                self.length_counter
            },
            linear_counter_reload_flag: true,
            ..self
        }
    }

    pub open spec fn level(self) -> u8 {
        if self.length_counter == 0 {
            0
        } else {
            triangle_step(self.sequencer % 32)
        }
    }

    /// The state after one tick of the timer; the waveform only moves on while both
    /// counters are running.
    pub open spec fn ticked(self) -> TriangleGenerator {
        if self.timer == 0 {
            TriangleGenerator {
                timer: self.timer_initial,
                sequencer: if self.length_counter != 0 && self.linear_counter != 0 {
                    (if self.sequencer == 255 {
                        0
                    } else {
                        self.sequencer + 1
                    }) as u8
                } else {
                    self.sequencer
                },
                ..self
            }
        } else {
            TriangleGenerator { timer: (self.timer - 1) as u16, ..self }
        }
    }

    pub open spec fn length_clocked(self) -> TriangleGenerator {
        if self.length_counter > 0 && !self.length_counter_halt {
            TriangleGenerator { length_counter: (self.length_counter - 1) as u8, ..self }
        } else {
            self
        }
    }

    /// The linear counter counts down, or is reloaded while the reload flag is set; the flag
    /// clears unless the control bit is set.
    pub open spec fn linear_clocked(self) -> TriangleGenerator {
        TriangleGenerator {
            linear_counter: if self.linear_counter_reload_flag {
                self.linear_counter_reload
            } else if self.linear_counter > 0 {
                (self.linear_counter - 1) as u8
            } else {
                0
            },
            linear_counter_reload_flag: self.linear_counter_reload_flag
                && self.linear_counter_control,
            ..self
        }
    }

    /// Disabling the channel silences it at once.
    pub fn set_enabled(&mut self, enabled: bool)
        ensures
            *final(self) == old(self).enabled_set(enabled),
    {
        if !enabled {
            self.length_counter = 0;
        }
        self.enabled = enabled;
    }

    /// Bit 7 is both the length counter halt and the linear counter control; bits 0-6 are
    /// the linear counter reload value.
    pub fn write_flags(&mut self, value: u8)
        ensures
            *final(self) == old(self).flags_written(value),
    {
        self.length_counter_halt = value & 0b1000_0000 != 0;
        self.linear_counter_control = value & 0b1000_0000 != 0;
        self.linear_counter_reload = value & 0b0111_1111;
    }

    /// Sets the low byte of the timer period.
    pub fn write_timer(&mut self, value: u8)
        ensures
            *final(self) == old(self).timer_written(value),
    {
        self.timer_initial = (self.timer_initial & 0xFF00) | value as u16;
    }

    /// Bits 0-2 are the high bits of the timer period; bits 3-7 choose a length (loaded only
    /// while enabled). Sets the linear counter reload flag.
    pub fn write_length(&mut self, value: u8)
        ensures
            *final(self) == old(self).length_written(value),
    {
        let timer_high = value & 0b0000_0111;
        self.timer_initial = (self.timer_initial & 0x00FF) | ((timer_high as u16) << 8u16);
        let length_index = value >> 3u8;
        assert(length_index < 32) by (bit_vector)
            requires
                length_index == value >> 3u8,
        ;

        if self.enabled {
            self.length_counter = length_counter_value(length_index);
        }

        self.linear_counter_reload_flag = true;
    }

    pub fn halted(&self) -> (b: bool)
        ensures
            b == (self.length_counter == 0),
    {
        self.length_counter == 0
    }

    /// Low-frequency clock to stop sound after a certain time.
    pub fn clock_length_counter(&mut self)
        ensures
            *final(self) == old(self).length_clocked(),
    {
        if self.length_counter > 0 && !self.length_counter_halt {
            self.length_counter = self.length_counter - 1;
        }
    }

    /// Low-frequency clock to stop sound after a certain time, with finer control.
    pub fn clock_linear_counter(&mut self)
        ensures
            *final(self) == old(self).linear_clocked(),
    {
        if self.linear_counter > 0 {
            self.linear_counter = self.linear_counter - 1;
        }
        if self.linear_counter_reload_flag {
            self.linear_counter = self.linear_counter_reload;
        }
        if !self.linear_counter_control {
            self.linear_counter_reload_flag = false;
        }
    }

    /// High-frequency tick: gives the current level, then moves the timer on.
    pub fn tick(&mut self) -> (value: u8)
        ensures
            value == old(self).level(),
            *final(self) == old(self).ticked(),
    {
        let playing = !self.halted();
        let step = self.sequencer % 32;
        let value = if playing {
            if step < 16 {
                15 - step
            } else {
                step - 16
            }
        } else {
            0
        };

        if self.timer == 0 {
            self.timer = self.timer_initial;
            if self.length_counter != 0 && self.linear_counter != 0 {
                self.sequencer = self.sequencer.wrapping_add(1);
            }
        } else {
            self.timer = self.timer - 1;
        }

        value
    }
}

impl TriangleGenerator {
    /// The channel at power-on: disabled and silent.
    pub open spec fn initial() -> TriangleGenerator {
        TriangleGenerator {
            enabled: false,
            timer_initial: 0,
            timer: 0,
            sequencer: 0,
            length_counter: 0,
            length_counter_halt: false,
            linear_counter: 0,
            linear_counter_reload: 0,
            linear_counter_reload_flag: false,
            linear_counter_control: false,
        }
    }
}

impl Default for TriangleGenerator {
    fn default() -> (t: Self)
        ensures
            t == TriangleGenerator::initial(),
    {
        TriangleGenerator {
            enabled: false,
            timer_initial: 0,
            timer: 0,
            sequencer: 0,
            length_counter: 0,
            length_counter_halt: false,
            linear_counter: 0,
            linear_counter_reload: 0,
            linear_counter_reload_flag: false,
            linear_counter_control: false,
        }
    }
}


/// The triangle wave: its 32 steps start at 15, go down by one to 0, hold 0 for one more
/// step, then go up by one to 15, and every step is between 0 and 15.
pub proof fn lemma_triangle_wave(i: u8)
    requires
        i < 32,
    ensures
        triangle_step(i) <= 15,
        triangle_step(0) == 15,
        triangle_step(15) == 0,
        triangle_step(16) == 0,
        triangle_step(31) == 15,
        i < 15 ==> triangle_step((i + 1) as u8) + 1 == triangle_step(i),
        16 <= i < 31 ==> triangle_step((i + 1) as u8) == triangle_step(i) + 1,
{
}

} // verus!
