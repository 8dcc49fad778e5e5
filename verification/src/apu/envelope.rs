use vstd::prelude::*;

verus! {

/// An envelope sets a channel's volume: either a constant volume, or a decay from 15 down to
/// 0 (looping back to 15 if asked), one step every `volume + 1` clocks.
#[derive(Copy, Clone, Debug, PartialEq, Eq, Structural)]
pub struct Envelope {
    pub constant_volume: bool,
    pub looping: bool,
    pub start: bool,
    pub divider: u8,
    pub decay_level: u8,
    pub volume: u8,
}

impl Envelope {
    /// One clock of the divider: when it reaches 0 it reloads and the decay level steps down.
    pub open spec fn divider_clocked(self) -> Envelope {
        if self.divider == 0 {
            Envelope {
                divider: self.volume,
                decay_level: if self.decay_level > 0 {
                    (self.decay_level - 1) as u8
                } else if self.looping {
                    15
                } else {
                    self.decay_level
                },
                ..self
            }
        } else {
            Envelope { divider: (self.divider - 1) as u8, ..self }
        }
    }

    /// One clock: after a start the decay restarts at 15, otherwise the divider is clocked.
    pub open spec fn clocked(self) -> Envelope {
        if !self.start {
            self.divider_clocked()
        } else {
            Envelope { start: false, decay_level: 15, divider: self.volume, ..self }
        }
    }

    /// The volume put out.
    pub open spec fn level(self) -> u8 {
        if self.constant_volume {
            self.volume
        } else {
            self.decay_level
        }
    }

    pub fn start(&mut self)
        ensures
            *final(self) == (Envelope { start: true, ..*old(self) }),
    {
        self.start = true;
    }

    pub fn set_constant_volume(&mut self, constant_volume: bool)
        ensures
            *final(self) == (Envelope { constant_volume, ..*old(self) }),
    {
        self.constant_volume = constant_volume;
    }

    pub fn set_volume(&mut self, volume: u8)
        ensures
            *final(self) == (Envelope { volume, ..*old(self) }),
    {
        self.volume = volume;
    }

    pub fn clock(&mut self)
        ensures
            *final(self) == old(self).clocked(),
    {
        if !self.start {
            self.clock_divider();
        } else {
            self.start = false;
            self.decay_level = 15;
            self.divider = self.volume;
        }
    }

    pub fn clock_divider(&mut self)
        ensures
            *final(self) == old(self).divider_clocked(),
    {
        if self.divider == 0 {
            self.divider = self.volume;
            if self.decay_level > 0 {
                self.decay_level = self.decay_level - 1;
            } else if self.looping {
                self.decay_level = 15;
            }
        } else {
            self.divider = self.divider - 1;
        }
    }

    pub fn volume(&self) -> (v: u8)
        ensures
            v == self.level(),
    {
        if self.constant_volume {
            self.volume
        } else {
            self.decay_level
        }
    }
}

impl Envelope {
    /// An envelope at rest: volume 0, nothing started.
    pub open spec fn initial() -> Envelope {
        Envelope {
            constant_volume: false,
            looping: false,
            start: false,
            divider: 0,
            decay_level: 0,
            volume: 0,
        }
    }
}

impl Default for Envelope {
    fn default() -> (e: Self)
        ensures
            e == Envelope::initial(),
    {
        Envelope {
            constant_volume: false,
            looping: false,
            start: false,
            divider: 0,
            decay_level: 0,
            volume: 0,
        }
    }
}


/// The envelope's decay: after a start the next clock sets the level to 15 and reloads the
/// divider with the volume; otherwise the level holds while the divider counts down, and
/// each time the divider runs out the level drops by one, until 0, where it stays or, when
/// looping, goes back to 15. The output is the constant volume, or else the decay level; it
/// never exceeds 15 when the volume and level do not.
pub proof fn lemma_envelope_decay(e: Envelope)
    ensures
        e.start ==> e.clocked().decay_level == 15 && e.clocked().divider == e.volume
            && !e.clocked().start,
        !e.start && e.divider > 0 ==> e.clocked().decay_level == e.decay_level
            && e.clocked().divider == e.divider - 1,
        !e.start && e.divider == 0 && e.decay_level > 0 ==> e.clocked().decay_level
            == e.decay_level - 1 && e.clocked().divider == e.volume,
        !e.start && e.divider == 0 && e.decay_level == 0 ==> e.clocked().decay_level == (if e.looping {
            15u8
        } else {
            0u8
        }),
        e.constant_volume ==> e.level() == e.volume,
        !e.constant_volume ==> e.level() == e.decay_level,
        e.decay_level <= 15 ==> e.clocked().decay_level <= 15,
{
}

} // verus!
