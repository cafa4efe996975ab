use vstd::prelude::*;

verus! {

/// A key of the keyboard, as the platform layer reports it.
#[derive(Clone, Copy, Debug, PartialEq, Eq, Structural)]
pub enum VKey {
    Space,
    Escape,
    Return,
    Left,
    Right,
    Up,
    Down,
    Num0,
    Num1,
    Num2,
    Num3,
    Num4,
    Num5,
    Num6,
    Num7,
    Num8,
    Num9,
    F,
    T,
    Other,
}

/// A button of the game pad.
#[derive(Clone, Copy, Debug, PartialEq, Eq, Structural)]
#[allow(non_camel_case_types)]
pub enum PadBit {
    L,
    R,
    U,
    D,
    A,
    B,
    CANCEL,
    START,
}

/// The bit of a button in a button set.
pub open spec fn bit_of(b: PadBit) -> u32 {
    match b {
        PadBit::L => 0b00000001,
        PadBit::R => 0b00000010,
        PadBit::U => 0b00000100,
        PadBit::D => 0b00001000,
        PadBit::A => 0b00010000,
        PadBit::B => 0b00100000,
        PadBit::CANCEL => 0b01000000,
        PadBit::START => 0b10000000,
    }
}

impl PadBit {
    /// The bit of the button in a button set.
    pub fn bit(self) -> (r: u32)
        ensures
            r == bit_of(self),
    {
        match self {
            PadBit::L => 0b00000001,
            PadBit::R => 0b00000010,
            PadBit::U => 0b00000100,
            PadBit::D => 0b00001000,
            PadBit::A => 0b00010000,
            PadBit::B => 0b00100000,
            PadBit::CANCEL => 0b01000000,
            PadBit::START => 0b10000000,
        }
    }
}

/// The state of the game pad, merged from keyboard and joystick; each field is a set of
/// button bits.
pub struct Pad {
    pub pad: u32,
    pub trg: u32,
    pub last_pad: u32,
    pub key: u32,
    pub joy: u32,
}

/// The buttons newly pressed since the previous frame.
pub open spec fn triggered(pad: u32, last_pad: u32) -> u32 {
    pad & !last_pad
}

/// Whether `bit` is in the set `bits`.
pub open spec fn has_bit(bits: u32, bit: u32) -> bool {
    bits & bit == bit
}

pub const LR_BITS: u32 = 0b0011;
pub const UD_BITS: u32 = 0b1100;

impl Pad {
    pub fn new() -> (p: Pad)
        ensures
            p.pad == 0,
            p.trg == 0,
            p.last_pad == 0,
            p.key == 0,
            p.joy == 0,
    {
        Pad { pad: 0, trg: 0, last_pad: 0, key: 0, joy: 0 }
    }

    /// Latches the input of this frame.
    pub fn update(&mut self)
        ensures
            final(self).pad == old(self).key | old(self).joy,
            final(self).trg == triggered(final(self).pad, old(self).last_pad),
            final(self).last_pad == final(self).pad,
            final(self).key == old(self).key,
            final(self).joy == old(self).joy,
            pad_updated(*old(self), *final(self)),
    {
        self.pad = self.key | self.joy;
        self.trg = self.pad & !self.last_pad;
        self.last_pad = self.pad;
    }

    /// Whether the button is held.
    pub fn is_pressed(&self, btn: PadBit) -> (b: bool)
        ensures
            b == has_bit(self.pad, bit_of(btn)),
    {
        let bit = btn.bit();
        self.pad & bit == bit
    }

    /// Whether the button went down in this frame.
    pub fn is_trigger(&self, btn: PadBit) -> (b: bool)
        ensures
            b == has_bit(self.trg, bit_of(btn)),
    {
        let bit = btn.bit();
        self.trg & bit == bit
    }

    /// Records a key going down or up.
    pub fn on_key(&mut self, keycode: VKey, down: bool)
        ensures
            final(self).key == if down {
                old(self).key | key_bit(keycode)
            } else {
                old(self).key & !key_bit(keycode)
            },
            final(self).pad == old(self).pad,
            final(self).trg == old(self).trg,
            final(self).last_pad == old(self).last_pad,
            final(self).joy == old(self).joy,
    {
        let bit = get_key_bit(keycode);
        if down {
            self.key = self.key | bit;
        } else {
            self.key = self.key & !bit;
        }
    }

    /// Records the position of a joystick axis: axis 0 is left/right, axis 1 is up/down.
    pub fn on_joystick_axis(&mut self, axis_index: u8, dir: i8)
        ensures
            final(self).joy == axis_bits(old(self).joy, axis_index, dir),
            final(self).pad == old(self).pad,
            final(self).trg == old(self).trg,
            final(self).last_pad == old(self).last_pad,
            final(self).key == old(self).key,
    {
        match axis_index {
            0 => {
                let lr: u32 = if dir < 0 {
                    PadBit::L.bit()
                } else if dir > 0 {
                    PadBit::R.bit()
                } else {
                    0
                };
                self.joy = (self.joy & !LR_BITS) | lr;
            },
            1 => {
                let ud: u32 = if dir < 0 {
                    PadBit::U.bit()
                } else if dir > 0 {
                    PadBit::D.bit()
                } else {
                    0
                };
                self.joy = (self.joy & !UD_BITS) | ud;
            },
            _ => {},
        }
    }

    /// Records a joystick button going down or up: button 0 is A, button 1 is B.
    pub fn on_joystick_button(&mut self, button_index: u8, down: bool)
        ensures
            final(self).joy == button_bits(old(self).joy, button_index, down),
            final(self).pad == old(self).pad,
            final(self).trg == old(self).trg,
            final(self).last_pad == old(self).last_pad,
            final(self).key == old(self).key,
    {
        let bit;
        match button_index {
            0 => bit = PadBit::A.bit(),
            1 => bit = PadBit::B.bit(),
            _ => {
                return;
            },
        }
        if down {
            self.joy = self.joy | bit;
        } else {
            self.joy = self.joy & !bit;
        }
    }
}

/// The button bit that a key stands for; other keys stand for none.
pub open spec fn key_bit(key: VKey) -> u32 {
    match key {
        VKey::Left => bit_of(PadBit::L),
        VKey::Right => bit_of(PadBit::R),
        VKey::Space => bit_of(PadBit::A),
        VKey::Escape => bit_of(PadBit::CANCEL),
        VKey::Return => bit_of(PadBit::START),
        _ => 0,
    }
}

/// The joystick bits after an axis event.
pub open spec fn axis_bits(joy: u32, axis_index: u8, dir: i8) -> u32 {
    if axis_index == 0 {
        (joy & !LR_BITS) | (if dir < 0 { bit_of(PadBit::L) } else if dir > 0 { bit_of(PadBit::R) } else { 0u32 })
    } else if axis_index == 1 {
        (joy & !UD_BITS) | (if dir < 0 { bit_of(PadBit::U) } else if dir > 0 { bit_of(PadBit::D) } else { 0u32 })
    } else {
        joy
    }
}

/// The joystick bits after a button event.
pub open spec fn button_bits(joy: u32, button_index: u8, down: bool) -> u32 {
    let bit: u32 = if button_index == 0 { bit_of(PadBit::A) } else { bit_of(PadBit::B) };
    if button_index > 1 {
        joy
    } else if down {
        joy | bit
    } else {
        joy & !bit
    }
}

/// The button bit that a key stands for.
pub fn get_key_bit(key: VKey) -> (p: u32)
    ensures
        p == key_bit(key),
{
    match key {
        VKey::Left => PadBit::L.bit(),
        VKey::Right => PadBit::R.bit(),
        VKey::Space => PadBit::A.bit(),
        VKey::Escape => PadBit::CANCEL.bit(),
        VKey::Return => PadBit::START.bit(),
        _ => 0,
    }
}

/// A button is reported as triggered only in a frame in which it is held.
pub proof fn lemma_trigger_implies_pressed(pad: u32, last_pad: u32, bit: u32)
    ensures
        has_bit(triggered(pad, last_pad), bit) && bit != 0 ==> has_bit(pad, bit),
{
    assert((pad & !last_pad) & bit == bit && bit != 0 ==> pad & bit == bit) by (bit_vector);
}

/// With no key or joystick event between two updates, nothing is triggered in the second one.
pub proof fn lemma_held_button_triggers_once(key: u32, joy: u32)
    ensures
        triggered(key | joy, key | joy) == 0,
{
    assert((key | joy) & !(key | joy) == 0) by (bit_vector);
}

/// A single button is reported as triggered exactly when it is held in this frame and was not
/// held in the previous one.
pub proof fn lemma_trigger_is_new_press(pad: u32, last_pad: u32, bit: u32)
    requires
        bit != 0,
        bit & ((bit - 1) as u32) == 0,
    ensures
        has_bit(triggered(pad, last_pad), bit) == (has_bit(pad, bit) && !has_bit(last_pad, bit)),
{
    assert(((pad & !last_pad) & bit == bit) == ((pad & bit == bit) && !(last_pad & bit == bit))) by (bit_vector)
        requires bit != 0, bit & ((bit - 1) as u32) == 0;
}

/// One update of the pad, from `p0` to `p1`: the held buttons are those of the keys and the
/// joystick, the triggered ones are those held now and not at the previous update, and the
/// held buttons are remembered for the next one.
pub open spec fn pad_updated(p0: Pad, p1: Pad) -> bool {
    &&& p1.pad == p0.key | p0.joy
    &&& p1.trg == triggered(p1.pad, p0.last_pad)
    &&& p1.last_pad == p1.pad
    &&& p1.key == p0.key
    &&& p1.joy == p0.joy
}

/// Over two updates of a pad in a row, a single button is triggered at the second exactly
/// when it is held then and was not held at the first.
pub proof fn lemma_trigger_after_update(p0: Pad, p1: Pad, p2: Pad, bit: u32)
    requires
        pad_updated(p0, p1),
        pad_updated(p1, p2),
        bit != 0,
        bit & ((bit - 1) as u32) == 0,
    ensures
        has_bit(p2.trg, bit) == (has_bit(p2.pad, bit) && !has_bit(p1.pad, bit)),
{
    lemma_trigger_is_new_press(p2.pad, p1.last_pad, bit);
}

} // verus!
