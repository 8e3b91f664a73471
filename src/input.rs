//! Keyboard input: the events a keyboard produces, the trait that input
//! devices implement, and the PS/2 frame and scancode decoder.
use vstd::prelude::*;

verus! {

/// A key press or release, carrying the key's character code.
#[derive(Clone, Copy, Debug, PartialEq, Eq, Structural)]
pub enum InputEvent {
    Press(u8),
    Release(u8),
}

/// An input device (a keyboard) that can be polled for its next event.
pub trait InputDevice {
    /// Polls the device for new input.
    fn poll(&mut self) -> Option<InputEvent>;
}

/// A USB keyboard driver; polling it yields no input yet.
pub struct UsbKeyboard {}

impl UsbKeyboard {
    pub fn new() -> (r: Self) {
        UsbKeyboard {}
    }
}

impl InputDevice for UsbKeyboard {
    fn poll(&mut self) -> Option<InputEvent> {
        None
    }
}

/// The set-2 scancode prefix that marks a key release.
pub const BREAK_PREFIX: u8 = 0xF0;

/// The character of a set-2 scancode: letters, digits, Enter, Space and
/// Backspace; other codes have none.
pub open spec fn scancode_char(code: u8) -> Option<u8> {
    if code == 0x1C { Some(0x61u8) }
    else if code == 0x32 { Some(0x62u8) }
    else if code == 0x21 { Some(0x63u8) }
    else if code == 0x23 { Some(0x64u8) }
    else if code == 0x24 { Some(0x65u8) }
    else if code == 0x2B { Some(0x66u8) }
    else if code == 0x34 { Some(0x67u8) }
    else if code == 0x33 { Some(0x68u8) }
    else if code == 0x43 { Some(0x69u8) }
    else if code == 0x3B { Some(0x6Au8) }
    else if code == 0x42 { Some(0x6Bu8) }
    else if code == 0x4B { Some(0x6Cu8) }
    else if code == 0x3A { Some(0x6Du8) }
    else if code == 0x31 { Some(0x6Eu8) }
    else if code == 0x44 { Some(0x6Fu8) }
    else if code == 0x4D { Some(0x70u8) }
    else if code == 0x15 { Some(0x71u8) }
    else if code == 0x2D { Some(0x72u8) }
    else if code == 0x1B { Some(0x73u8) }
    else if code == 0x2C { Some(0x74u8) }
    else if code == 0x3C { Some(0x75u8) }
    else if code == 0x2A { Some(0x76u8) }
    else if code == 0x1D { Some(0x77u8) }
    else if code == 0x22 { Some(0x78u8) }
    else if code == 0x35 { Some(0x79u8) }
    else if code == 0x1A { Some(0x7Au8) }
    else if code == 0x16 { Some(0x31u8) }
    else if code == 0x1E { Some(0x32u8) }
    else if code == 0x26 { Some(0x33u8) }
    else if code == 0x25 { Some(0x34u8) }
    else if code == 0x2E { Some(0x35u8) }
    else if code == 0x36 { Some(0x36u8) }
    else if code == 0x3D { Some(0x37u8) }
    else if code == 0x3E { Some(0x38u8) }
    else if code == 0x46 { Some(0x39u8) }
    else if code == 0x45 { Some(0x30u8) }
    else if code == 0x5A { Some(0x0Au8) }
    else if code == 0x29 { Some(0x20u8) }
    else if code == 0x66 { Some(0x08u8) }
    else { None }
}

/// Shift register after taking in `bit`: bits move down one place and the
/// new bit enters at position 10 (PS/2 sends the least significant bit first).
pub open spec fn shifted(reg: u16, bit: u16) -> u16 {
    (reg >> 1u16) | (bit << 10u16)
}

/// Whether the register holds a frame: start bit (0) at the bottom and stop
/// bit (1) at position 10.
pub open spec fn framed(reg: u16) -> bool {
    reg & 1 == 0 && (reg >> 10u16) & 1 == 1
}

/// The data byte of a frame, bits 1 to 8.
pub open spec fn frame_data(reg: u16) -> u8 {
    ((reg >> 1u16) & 0xFF) as u8
}

/// The PS/2 decoder state: the bits received so far and whether the last
/// scancode was the release prefix.
pub struct Ps2Decoder {
    pub shift_reg: u16,
    pub break_code: bool,
}

impl Ps2Decoder {
    /// A decoder with an empty register.
    pub fn new() -> (r: Ps2Decoder)
        ensures
            r.shift_reg == 0 && !r.break_code,
    {
        Ps2Decoder { shift_reg: 0, break_code: false }
    }

    /// The character of scancode `code`, if it has one.
    pub fn map_scancode(&self, code: u8) -> (r: Option<u8>)
        ensures
            r == scancode_char(code),
    {
        match code {
            0x1C => Some(0x61u8),
            0x32 => Some(0x62u8),
            0x21 => Some(0x63u8),
            0x23 => Some(0x64u8),
            0x24 => Some(0x65u8),
            0x2B => Some(0x66u8),
            0x34 => Some(0x67u8),
            0x33 => Some(0x68u8),
            0x43 => Some(0x69u8),
            0x3B => Some(0x6Au8),
            0x42 => Some(0x6Bu8),
            0x4B => Some(0x6Cu8),
            0x3A => Some(0x6Du8),
            0x31 => Some(0x6Eu8),
            0x44 => Some(0x6Fu8),
            0x4D => Some(0x70u8),
            0x15 => Some(0x71u8),
            0x2D => Some(0x72u8),
            0x1B => Some(0x73u8),
            0x2C => Some(0x74u8),
            0x3C => Some(0x75u8),
            0x2A => Some(0x76u8),
            0x1D => Some(0x77u8),
            0x22 => Some(0x78u8),
            0x35 => Some(0x79u8),
            0x1A => Some(0x7Au8),
            0x16 => Some(0x31u8),
            0x1E => Some(0x32u8),
            0x26 => Some(0x33u8),
            0x25 => Some(0x34u8),
            0x2E => Some(0x35u8),
            0x36 => Some(0x36u8),
            0x3D => Some(0x37u8),
            0x3E => Some(0x38u8),
            0x46 => Some(0x39u8),
            0x45 => Some(0x30u8),
            0x5A => Some(0x0Au8),
            0x29 => Some(0x20u8),
            0x66 => Some(0x08u8),
            _ => None,
        }
    }

    /// Decodes one scancode: the release prefix is remembered and yields
    /// nothing; the next code is then a release, any other a press. Codes
    /// without a character yield nothing.
    pub fn decode_scancode(&mut self, code: u8) -> (r: Option<InputEvent>)
        ensures
            code == BREAK_PREFIX ==> r is None && final(self).break_code,
            code != BREAK_PREFIX ==> !final(self).break_code && r == match scancode_char(code) {
                None => None,
                Some(c) => Some(if old(self).break_code { InputEvent::Release(c) } else { InputEvent::Press(c) }),
            },
            final(self).shift_reg == old(self).shift_reg,
    {
        if code == BREAK_PREFIX {
            self.break_code = true;
            return None;
        }
        if self.break_code {
            self.break_code = false;
            return match self.map_scancode(code) {
                Some(c) => Some(InputEvent::Release(c)),
                None => None,
            };
        }
        match self.map_scancode(code) {
            Some(c) => Some(InputEvent::Press(c)),
            None => None,
        }
    }

    /// Takes in the low bit of one received word. When the register then
    /// holds a frame, its data byte is decoded and the register is refilled
    /// with ones so the frame is not seen twice.
    pub fn push_bit(&mut self, word: u32) -> (r: Option<InputEvent>)
        ensures
            ({
                let reg = shifted(old(self).shift_reg, (word % 2) as u16);
                if framed(reg) {
                    let code = frame_data(reg);
                    &&& final(self).shift_reg == 0xFFFF
                    &&& code == BREAK_PREFIX ==> r is None && final(self).break_code
                    &&& code != BREAK_PREFIX ==> !final(self).break_code && r == match scancode_char(code) {
                        None => None,
                        Some(c) => Some(if old(self).break_code { InputEvent::Release(c) } else { InputEvent::Press(c) }),
                    }
                } else {
                    r is None && final(self).shift_reg == reg && final(self).break_code == old(self).break_code
                }
            }),
    {
        let bit = (word % 2) as u16;
        self.shift_reg = (self.shift_reg >> 1u16) | (bit << 10u16);
        let start = self.shift_reg & 1;
        let stop = (self.shift_reg >> 10u16) & 1;
        if start == 0 && stop == 1 {
            let data = ((self.shift_reg >> 1u16) & 0xFF) as u8;
            self.shift_reg = 0xFFFF;
            return self.decode_scancode(data);
        }
        None
    }
}

} // verus!
