//! The register file: accumulators A and B (together D), index and stack
//! registers, program counter, direct page and condition codes.
use vstd::prelude::*;

verus! {

/// A named bit of the condition-code register.
#[derive(Clone, Copy, Debug, PartialEq, Eq, Structural)]
pub enum CCBit {
    C,
    V,
    Z,
    N,
    I,
    H,
    F,
    E,
}

pub const CC_C: u8 = 0x01;
pub const CC_V: u8 = 0x02;
pub const CC_Z: u8 = 0x04;
pub const CC_N: u8 = 0x08;
pub const CC_I: u8 = 0x10;
pub const CC_H: u8 = 0x20;
pub const CC_F: u8 = 0x40;
pub const CC_E: u8 = 0x80;

/// The mask of one condition-code bit.
pub open spec fn bit_mask(b: CCBit) -> u8 {
    match b {
        CCBit::C => CC_C,
        CCBit::V => CC_V,
        CCBit::Z => CC_Z,
        CCBit::N => CC_N,
        CCBit::I => CC_I,
        CCBit::H => CC_H,
        CCBit::F => CC_F,
        CCBit::E => CC_E,
    }
}

/// `bits` with the bits of `mask` set when `on`, cleared otherwise.
pub open spec fn with_bits(bits: u8, mask: u8, on: bool) -> u8 {
    if on {
        bits | mask
    } else {
        bits & !mask
    }
}

/// Sets the bits of `mask` in `bits` when `on`, clears them otherwise.
pub fn put_bits(bits: u8, mask: u8, on: bool) -> (r: u8)
    ensures
        r == with_bits(bits, mask, on),
{
    if on {
        bits | mask
    } else {
        bits & !mask
    }
}

/// The condition-code register.
#[derive(Clone, Copy, Debug, PartialEq, Eq, Structural)]
pub struct Cc {
    pub bits: u8,
}

impl Cc {
    /// Whether bit `b` is set.
    pub fn is_set(&self, b: CCBit) -> (r: bool)
        ensures
            r == (self.bits & bit_mask(b) != 0),
    {
        let m = match b {
            CCBit::C => CC_C,
            CCBit::V => CC_V,
            CCBit::Z => CC_Z,
            CCBit::N => CC_N,
            CCBit::I => CC_I,
            CCBit::H => CC_H,
            CCBit::F => CC_F,
            CCBit::E => CC_E,
        };
        self.bits & m != 0
    }

    /// Sets bit `b` to `on`, leaving the others as they were.
    pub fn set(&mut self, b: CCBit, on: bool)
        ensures
            final(self).bits == with_bits(old(self).bits, bit_mask(b), on),
    {
        let m = match b {
            CCBit::C => CC_C,
            CCBit::V => CC_V,
            CCBit::Z => CC_Z,
            CCBit::N => CC_N,
            CCBit::I => CC_I,
            CCBit::H => CC_H,
            CCBit::F => CC_F,
            CCBit::E => CC_E,
        };
        self.bits = put_bits(self.bits, m, on);
    }
}

/// The full register set.
#[derive(Clone, Copy, Debug, PartialEq, Eq, Structural)]
pub struct Registers {
    pub a: u8,
    pub b: u8,
    pub dp: u8,
    pub cc: Cc,
    pub x: u16,
    pub y: u16,
    pub u: u16,
    pub s: u16,
    pub pc: u16,
}

/// D is A (high byte) followed by B (low byte).
pub open spec fn d_of(r: Registers) -> u16 {
    (r.a as int * 256 + r.b as int) as u16
}

/// The registers with D replaced by `v`: A takes the high byte, B the low.
pub open spec fn with_d(r: Registers, v: u16) -> Registers {
    Registers { a: (v / 256) as u8, b: (v % 256) as u8, ..r }
}

impl Registers {
    /// All registers cleared, with interrupts masked as after a hardware reset.
    pub fn new() -> (r: Registers)
        ensures
            r == Registers::initial(),
    {
        Registers {
            a: 0,
            b: 0,
            dp: 0,
            cc: Cc { bits: CC_I | CC_F },
            x: 0,
            y: 0,
            u: 0,
            s: 0,
            pc: 0,
        }
    }

    /// The register file after reset: zero, with the IRQ and FIRQ masks set.
    pub open spec fn initial() -> Registers {
        Registers {
            a: 0,
            b: 0,
            dp: 0,
            cc: Cc { bits: CC_I | CC_F },
            x: 0,
            y: 0,
            u: 0,
            s: 0,
            pc: 0,
        }
    }

    /// Clears every register.
    pub fn reset(&mut self)
        ensures
            *final(self) == Registers::initial(),
    {
        *self = Registers::new();
    }

    /// The 16-bit D register.
    pub fn d(&self) -> (r: u16)
        ensures
            r == d_of(*self),
    {
        (self.a as u16) * 256 + (self.b as u16)
    }

    /// Writes D, which writes A and B.
    pub fn set_d(&mut self, v: u16)
        ensures
            *final(self) == with_d(*old(self), v),
            d_of(*final(self)) == v,
    {
        self.a = (v / 256) as u8;
        self.b = (v % 256) as u8;
    }
}

/// A register by name.
#[derive(Clone, Copy, Debug, PartialEq, Eq, Structural)]
pub enum Name {
    A,
    B,
    D,
    X,
    Y,
    U,
    S,
    PC,
    DP,
    CC,
}

/// Width of a register in bytes.
pub open spec fn size_of_reg(n: Name) -> u16 {
    match n {
        Name::A | Name::B | Name::DP | Name::CC => 1,
        _ => 2,
    }
}

/// The value of register `n`, widened to 16 bits.
pub open spec fn reg_value(r: Registers, n: Name) -> u16 {
    match n {
        Name::A => r.a as u16,
        Name::B => r.b as u16,
        Name::D => d_of(r),
        Name::X => r.x,
        Name::Y => r.y,
        Name::U => r.u,
        Name::S => r.s,
        Name::PC => r.pc,
        Name::DP => r.dp as u16,
        Name::CC => r.cc.bits as u16,
    }
}

/// The registers with register `n` set to `v` (8-bit registers take its
/// low byte).
pub open spec fn with_reg_value(r: Registers, n: Name, v: u16) -> Registers {
    match n {
        Name::A => Registers { a: (v % 256) as u8, ..r },
        Name::B => Registers { b: (v % 256) as u8, ..r },
        Name::D => with_d(r, v),
        Name::X => Registers { x: v, ..r },
        Name::Y => Registers { y: v, ..r },
        Name::U => Registers { u: v, ..r },
        Name::S => Registers { s: v, ..r },
        Name::PC => Registers { pc: v, ..r },
        Name::DP => Registers { dp: (v % 256) as u8, ..r },
        Name::CC => Registers { cc: Cc { bits: (v % 256) as u8 }, ..r },
    }
}

/// Width of register `n` in bytes.
pub fn reg_size(n: Name) -> (r: u16)
    ensures
        r == size_of_reg(n),
{
    match n {
        Name::A | Name::B | Name::DP | Name::CC => 1,
        _ => 2,
    }
}

impl Registers {
    /// Sets register `n` to `v`; 8-bit registers take its low byte.
    pub fn set_register(&mut self, n: Name, v: u16)
        ensures
            *final(self) == with_reg_value(*old(self), n, v),
    {
        match n {
            Name::A => self.a = (v % 256) as u8,
            Name::B => self.b = (v % 256) as u8,
            Name::D => self.set_d(v),
            Name::X => self.x = v,
            Name::Y => self.y = v,
            Name::U => self.u = v,
            Name::S => self.s = v,
            Name::PC => self.pc = v,
            Name::DP => self.dp = (v % 256) as u8,
            Name::CC => self.cc = Cc { bits: (v % 256) as u8 },
        }
    }

    /// The value of register `n`, widened to 16 bits.
    pub fn get_register(&self, n: Name) -> (r: u16)
        ensures
            r == reg_value(*self, n),
    {
        match n {
            Name::A => self.a as u16,
            Name::B => self.b as u16,
            Name::D => self.d(),
            Name::X => self.x,
            Name::Y => self.y,
            Name::U => self.u,
            Name::S => self.s,
            Name::PC => self.pc,
            Name::DP => self.dp as u16,
            Name::CC => self.cc.bits as u16,
        }
    }
}

} // verus!
