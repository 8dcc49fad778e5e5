//! Input devices on the controller port at 0x4016, and the standard NES controller.

use vstd::prelude::*;

verus! {

/// A device on the controller port. An implementation is its own model: a read gives
/// `read_value` and leaves `after_read`; a write leaves `after_write`.
pub trait Input: Sized {
    spec fn read_value(self) -> u8;

    spec fn after_read(self) -> Self;

    spec fn after_write(self, value: u8) -> Self;

    fn read(&mut self) -> (value: u8)
        ensures
            value == old(self).read_value(),
            *final(self) == old(self).after_read(),
    ;

    fn write(&mut self, value: u8)
        ensures
            *final(self) == old(self).after_write(value),
    ;
}

/// The buttons of a controller, one bit each, A first.
#[derive(Copy, Clone, Debug, PartialEq, Eq, Structural)]
pub struct Buttons(pub u8);

impl Buttons {
    pub const A: u8 = 0b1000_0000;
    pub const B: u8 = 0b0100_0000;
    pub const SELECT: u8 = 0b0010_0000;
    pub const START: u8 = 0b0001_0000;
    pub const UP: u8 = 0b0000_1000;
    pub const DOWN: u8 = 0b0000_0100;
    pub const LEFT: u8 = 0b0000_0010;
    pub const RIGHT: u8 = 0b0000_0001;

    /// Every bit names a button, so nothing is dropped.
    pub fn from_bits_truncate(bits: u8) -> (b: Self)
        ensures
            b.0 == bits,
    {
        Buttons(bits)
    }

    pub fn bits(self) -> (b: u8)
        ensures
            b == self.0,
    {
        self.0
    }
}

impl Default for Buttons {
    fn default() -> (b: Self)
        ensures
            b.0 == 0,
    {
        Buttons(0)
    }
}

pub const CURSOR_START: u8 = 0b1000_0000;

/// A standard controller. While the strobe is on it reports button A; when the strobe goes
/// off it reports the buttons one per read, A first, then zeros.
#[derive(Copy, Clone, Debug, PartialEq, Eq, Structural)]
pub struct Controller {
    pub buttons: Buttons,
    pub strobe: bool,
    /// The bit of the button reported by the next read.
    pub read_cursor: u8,
}

impl Controller {
    /// Presses the given buttons; the others keep their state.
    pub fn press(&mut self, buttons: Buttons)
        ensures
            *final(self) == (Controller {
                buttons: Buttons(old(self).buttons.0 | buttons.0),
                ..*old(self)
            }),
    {
        self.buttons = Buttons(self.buttons.0 | buttons.0);
    }

    /// Releases the given buttons; the others keep their state.
    pub fn release(&mut self, buttons: Buttons)
        ensures
            *final(self) == (Controller {
                buttons: Buttons(old(self).buttons.0 & !buttons.0),
                ..*old(self)
            }),
    {
        self.buttons = Buttons(self.buttons.0 & !buttons.0);
    }

    /// The bit read reports next.
    pub open spec fn cursor(self) -> u8 {
        if self.strobe {
            CURSOR_START
        } else {
            self.read_cursor
        }
    }
}

impl Default for Controller {
    fn default() -> (c: Self)
        ensures
            c == (Controller { buttons: Buttons(0), strobe: false, read_cursor: CURSOR_START }),
    {
        Self { buttons: Buttons::default(), strobe: false, read_cursor: CURSOR_START }
    }
}

impl Input for Controller {
    /// 1 when the button under the cursor is pressed, else 0.
    open spec fn read_value(self) -> u8 {
        if self.buttons.0 & self.cursor() != 0 {
            1
        } else {
            0
        }
    }

    /// Unless the strobe is on, the cursor moves to the next button.
    open spec fn after_read(self) -> Self {
        Controller {
            read_cursor: if self.strobe {
                CURSOR_START
            } else {
                self.read_cursor / 2
            },
            ..self
        }
    }

    /// Bit 0 is the strobe; setting it moves the cursor back to button A.
    open spec fn after_write(self, value: u8) -> Self {
        let strobe = value % 2 == 1;
        Controller {
            strobe,
            read_cursor: if strobe {
                CURSOR_START
            } else {
                self.read_cursor
            },
            ..self
        }
    }

    fn read(&mut self) -> (value: u8) {
        if self.strobe {
            self.read_cursor = CURSOR_START;
        }

        let button_pressed = (self.buttons.bits() & self.read_cursor) != 0;

        if !self.strobe {
            self.read_cursor = self.read_cursor / 2;
        }

        if button_pressed {
            1
        } else {
            0
        }
    }

    fn write(&mut self, value: u8) {
        self.strobe = value % 2 == 1;

        if self.strobe {
            self.read_cursor = CURSOR_START;
        }
    }
}

/// The controller after `n` reads.
pub open spec fn after_reads(c: Controller, n: nat) -> Controller
    decreases n,
{
    if n == 0 {
        c
    } else {
        after_reads(c, (n - 1) as nat).after_read()
    }
}

proof fn lemma_cursor_after_reads(c: Controller, n: nat)
    requires
        !c.strobe,
        c.read_cursor == CURSOR_START,
    ensures
        !after_reads(c, n).strobe,
        after_reads(c, n).buttons == c.buttons,
        n < 8 ==> after_reads(c, n).read_cursor == (CURSOR_START >> n as u8),
        n >= 8 ==> after_reads(c, n).read_cursor == 0,
    decreases n,
{
    if n == 0 {
        assert(128u8 >> 0u8 == 128u8) by (bit_vector);
    } else {
        lemma_cursor_after_reads(c, (n - 1) as nat);
        let k = (n - 1) as u8;
        if n < 8 {
            assert((128u8 >> k) / 2 == 128u8 >> ((k + 1) as u8)) by (bit_vector)
                requires
                    k < 7,
            ;
        } else if n == 8 {
            assert((128u8 >> 7u8) / 2 == 0) by (bit_vector);
        }
    }
}

/// Strobing the controller (writing 1, then 0) makes the following reads report the buttons
/// one at a time, A first and Right eighth, and every read after the eighth report 0.
pub proof fn lemma_strobe_then_reads(c: Controller, n: nat)
    ensures
        ({
            let strobed = c.after_write(1).after_write(0);
            &&& n < 8 ==> after_reads(strobed, n).read_value() == (c.buttons.0 >> (7 - n) as u8)
                & 1
            &&& n >= 8 ==> after_reads(strobed, n).read_value() == 0
        }),
{
    let strobed = c.after_write(1).after_write(0);
    lemma_cursor_after_reads(strobed, n);
    let b = c.buttons.0;
    if n < 8 {
        let k = n as u8;
        assert((b & (128u8 >> k) != 0) == ((b >> ((7 - k) as u8)) & 1 == 1)) by (bit_vector)
            requires
                k < 8,
        ;
        assert((b >> ((7 - k) as u8)) & 1 <= 1) by (bit_vector);
    } else {
        assert(b & 0 == 0) by (bit_vector);
    }
}

} // verus!
