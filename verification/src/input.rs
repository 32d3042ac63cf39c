use vstd::prelude::*;

verus! {

/// The eight buttons of a controller, in the order the shift register hands
/// them out.
#[derive(Clone, Copy, Debug, PartialEq, Eq, Structural)]
pub enum Button {
    A,
    B,
    Select,
    Start,
    Up,
    Down,
    Left,
    Right,
}

impl Button {
    /// Position of the button in the controller byte: A is bit 0, Right is
    /// bit 7.
    pub open spec fn bit(self) -> u8 {
        match self {
            Button::A => 0,
            Button::B => 1,
            Button::Select => 2,
            Button::Start => 3,
            Button::Up => 4,
            Button::Down => 5,
            Button::Left => 6,
            Button::Right => 7,
        }
    }

    /// The controller byte with only this button held.
    pub fn mask(self) -> (r: u8)
        ensures
            r == 1u8 << self.bit(),
    {
        let bit: u8 = match self {
            Button::A => 0,
            Button::B => 1,
            Button::Select => 2,
            Button::Start => 3,
            Button::Up => 4,
            Button::Down => 5,
            Button::Left => 6,
            Button::Right => 7,
        };
        1u8 << bit
    }

    /// The controller byte `state` after this button went down or came up.
    /// The other seven bits are kept.
    pub fn apply(self, state: u8, pressed: bool) -> (r: u8)
        ensures
            r == if pressed {
                state | (1u8 << self.bit())
            } else {
                state & !(1u8 << self.bit())
            },
    {
        if pressed {
            state | self.mask()
        } else {
            state & !self.mask()
        }
    }
}

/// The controller port: the byte of buttons currently held, and the shift
/// register the CPU reads one bit at a time.
#[derive(Clone, Copy, Debug)]
pub struct Input {
    pub controller_state: u8,
    pub controller_shift: u8,
}

impl Input {
    /// The port after a read: the shift register has moved one place right.
    pub open spec fn after_read(self) -> Input {
        Input { controller_shift: self.controller_shift >> 1, ..self }
    }

    /// The port after `n` reads.
    pub open spec fn after_reads(self, n: nat) -> Input
        decreases n,
    {
        if n == 0 {
            self
        } else {
            self.after_reads((n - 1) as nat).after_read()
        }
    }

    /// The port after the CPU wrote `val`: a set bit 0 copies the buttons
    /// held into the shift register.
    pub open spec fn after_write(self, val: u8) -> Input {
        if val & 0x01 != 0 {
            Input { controller_shift: self.controller_state, ..self }
        } else {
            self
        }
    }

    pub fn new() -> (r: Self)
        ensures
            r.controller_state == 0,
            r.controller_shift == 0,
    {
        Input { controller_state: 0, controller_shift: 0 }
    }

    /// Hands out the low bit of the shift register and shifts it right.
    pub fn read(&mut self) -> (r: u8)
        ensures
            r == old(self).controller_shift & 0x01,
            *final(self) == old(self).after_read(),
    {
        let result = self.controller_shift & 0x01;
        self.controller_shift = self.controller_shift >> 1;
        result
    }

    /// Latches the buttons held into the shift register if bit 0 of `val`
    /// is set.
    pub fn write(&mut self, val: u8)
        ensures
            *final(self) == old(self).after_write(val),
    {
        if val & 0x01 != 0 {
            self.controller_shift = self.controller_state;
        }
    }
}

proof fn lemma_shift_twice(x: u8, n: u8)
    by (bit_vector)
    requires
        n < 8,
    ensures
        (x >> n) >> 1u8 == x >> ((n + 1) as u8),
{
}

/// After a latch, the reads hand out the buttons in order: read number `k`,
/// counted from 0, returns bit `k` of the controller byte, for the eight
/// buttons.
pub proof fn lemma_reads_follow_button_order(port: Input, k: u8)
    requires
        k < 8,
    ensures
        port.after_write(1).after_reads(k as nat).controller_shift & 0x01 == (port.controller_state
            >> k) & 0x01,
{
    lemma_reads_shift(port.after_write(1), k);
    assert(1u8 & 0x01 != 0) by (bit_vector);
}

proof fn lemma_reads_shift(port: Input, k: u8)
    requires
        k <= 8,
    ensures
        port.after_reads(k as nat).controller_shift == port.controller_shift >> k,
        port.after_reads(k as nat).controller_state == port.controller_state,
    decreases k,
{
    if k == 0 {
        let x = port.controller_shift;
        assert(x >> 0u8 == x) by (bit_vector);
    } else {
        lemma_reads_shift(port, (k - 1) as u8);
        lemma_shift_twice(port.controller_shift, (k - 1) as u8);
    }
}

} // verus!
