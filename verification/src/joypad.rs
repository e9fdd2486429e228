//! The controller latch: eight button bits serialised one per read,
//! with the strobe line controlling when the shift register reloads.

use vstd::prelude::*;

verus! {

/// One of the eight buttons of a controller, named as the hardware
/// reports them serially: A, B, Select, Start, Up, Down, Left, Right.
#[allow(non_camel_case_types)]
#[derive(Clone, Copy, Debug, PartialEq, Eq, Structural)]
pub enum JoypadButton {
    BUTTON_A,
    BUTTON_B,
    SELECT,
    START,
    UP,
    DOWN,
    LEFT,
    RIGHT,
}

/// The bit each button occupies in the latched status byte.
pub open spec fn button_mask(button: JoypadButton) -> u8 {
    match button {
        JoypadButton::BUTTON_A => 0x01,
        JoypadButton::BUTTON_B => 0x02,
        JoypadButton::SELECT => 0x04,
        JoypadButton::START => 0x08,
        JoypadButton::UP => 0x10,
        JoypadButton::DOWN => 0x20,
        JoypadButton::LEFT => 0x40,
        JoypadButton::RIGHT => 0x80,
    }
}

impl JoypadButton {
    /// The bit this button occupies in the latched status byte.
    pub fn mask(self) -> (m: u8)
        ensures
            m == button_mask(self),
    {
        match self {
            JoypadButton::BUTTON_A => 0x01,
            JoypadButton::BUTTON_B => 0x02,
            JoypadButton::SELECT => 0x04,
            JoypadButton::START => 0x08,
            JoypadButton::UP => 0x10,
            JoypadButton::DOWN => 0x20,
            JoypadButton::LEFT => 0x40,
            JoypadButton::RIGHT => 0x80,
        }
    }
}

/// Bit `i` of a status byte, shifted down to 0 or 1.
pub open spec fn button_bit(status: u8, i: u8) -> u8
    recommends
        i < 8,
{
    (status & (1u8 << i)) >> i
}

/// One controller latch: a strobe line, a read cursor, and the eight
/// latched button bits.
#[derive(Clone, Copy, Debug, PartialEq, Eq, Structural)]
pub struct Joypad {
    pub strobe: bool,
    pub button_index: u8,
    pub button_status: u8,
}

impl Joypad {
    /// What a strobe-port write does: latch the new strobe level, and
    /// reset the read cursor on a 1 -> 0 transition.
    pub open spec fn spec_write(self, data: u8) -> Joypad {
        Joypad {
            strobe: data & 1 == 1,
            button_index: if self.strobe && data & 1 != 1 {
                0
            } else {
                self.button_index
            },
            button_status: self.button_status,
        }
    }

    /// The bit a data-port read returns: the cursor's button bit, or a
    /// constant 1 once all eight bits have been shifted out.
    pub open spec fn spec_read_value(self) -> u8 {
        if self.button_index > 7 {
            1
        } else {
            button_bit(self.button_status, self.button_index)
        }
    }

    /// The latch after a data-port read: the cursor advances only while
    /// the strobe is low and bits remain.
    pub open spec fn spec_read_post(self) -> Joypad {
        if self.button_index <= 7 && !self.strobe {
            Joypad { button_index: (self.button_index + 1) as u8, ..self }
        } else {
            self
        }
    }

    /// The latch with one button bit set or cleared.
    pub open spec fn spec_set_button(self, button: JoypadButton, pressed: bool) -> Joypad {
        Joypad {
            button_status: if pressed {
                self.button_status | button_mask(button)
            } else {
                self.button_status & !button_mask(button)
            },
            ..self
        }
    }

    /// A latch with the strobe low, the cursor at the first button, and
    /// no button pressed.
    pub fn new() -> (j: Joypad)
        ensures
            j == (Joypad { strobe: false, button_index: 0, button_status: 0 }),
    {
        Joypad { strobe: false, button_index: 0, button_status: 0 }
    }

    /// Strobe-port write ($4016): bit 0 is the new strobe level; a
    /// 1 -> 0 transition rewinds the read cursor to button A.
    pub fn write(&mut self, data: u8)
        ensures
            *final(self) == old(self).spec_write(data),
    {
        let new_strobe = data & 1 == 1;
        if self.strobe && !new_strobe {
            self.button_index = 0;
        }
        self.strobe = new_strobe;
    }

    /// Data-port read ($4016/$4017): returns the cursor's button bit and,
    /// while the strobe is low, advances the cursor; after all eight bits
    /// every further read returns 1.
    pub fn read(&mut self) -> (r: u8)
        ensures
            r == old(self).spec_read_value(),
            *final(self) == old(self).spec_read_post(),
    {
        if self.button_index > 7 {
            return 1;
        }
        let response: u8 = (self.button_status & (1u8 << self.button_index)) >> self.button_index;
        if !self.strobe && self.button_index <= 7 {
            self.button_index = self.button_index + 1;
        }
        response
    }

    /// Record a host-side button press or release in the latched status.
    pub fn set_button_pressed_status(&mut self, button: JoypadButton, pressed: bool)
        ensures
            *final(self) == old(self).spec_set_button(button, pressed),
    {
        let m = button.mask();
        if pressed {
            self.button_status = self.button_status | m;
        } else {
            self.button_status = self.button_status & !m;
        }
    }
}

/// The values of `n` consecutive data-port reads, first read first.
pub open spec fn read_sequence(j: Joypad, n: nat) -> Seq<u8>
    decreases n,
{
    if n == 0 {
        Seq::empty()
    } else {
        seq![j.spec_read_value()] + read_sequence(j.spec_read_post(), (n - 1) as nat)
    }
}

/// After a strobe 1 -> 0 transition, eight consecutive reads return, in
/// order, the latched button bits A, B, Select, Start, Up, Down, Left,
/// Right, and a ninth read returns 1.
pub proof fn lemma_strobe_serial_reads(j: Joypad)
    ensures
        ({
            let s = j.spec_write(1).spec_write(0);
            let reads = read_sequence(s, 9);
            &&& reads.len() == 9
            &&& forall|i: int| 0 <= i < 8 ==> reads[i] == button_bit(s.button_status, i as u8)
            &&& reads[8] == 1
        }),
{
    let s = j.spec_write(1).spec_write(0);
    let reads = read_sequence(s, 9);
    crate::bits::lemma_u8_and_one();
    assert(!s.strobe && s.button_index == 0);
    reveal_with_fuel(read_sequence, 10);
    assert forall|i: int| 0 <= i < 8 implies reads[i] == button_bit(s.button_status, i as u8) by {
        assert(reads[0] == button_bit(s.button_status, 0));
        assert(reads[1] == button_bit(s.button_status, 1));
        assert(reads[2] == button_bit(s.button_status, 2));
        assert(reads[3] == button_bit(s.button_status, 3));
        assert(reads[4] == button_bit(s.button_status, 4));
        assert(reads[5] == button_bit(s.button_status, 5));
        assert(reads[6] == button_bit(s.button_status, 6));
        assert(reads[7] == button_bit(s.button_status, 7));
    }
    assert(reads[8] == 1);
}

} // verus!
