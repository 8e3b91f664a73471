//! The addressing resolver: reads operand bytes after the opcode, computes the
//! effective address, applies auto increment/decrement to the index register,
//! and follows indirection.
use vstd::prelude::*;
use crate::cpu::{only_regs_changed, Core};
use crate::error::{err, Error, ErrorKind, Fault};
use crate::instructions::{AddressingMode, Flavor, Instance};
use crate::memory::{read16_spec, read8_spec, read_u16, read_u8, AccessClass};
use crate::registers::{d_of, Registers};

verus! {

/// The outcome of resolution: effective address, bytes consumed in all, and
/// the registers after any auto increment/decrement.
#[derive(Clone, Copy, Debug, PartialEq, Eq, Structural)]
pub struct Resolved {
    pub ea: u16,
    pub size: u16,
    pub reg: Registers,
}

/// `pc + n`, or the overflow error; never wraps.
pub open spec fn pc_plus(pc: u16, n: u16) -> Result<u16, Error> {
    if pc + n > 0xFFFF {
        Err(err(Fault::PcOverflow { pc }))
    } else {
        Ok((pc + n) as u16)
    }
}

/// The program byte `n` bytes past `pc`.
pub open spec fn fetch8(ram: Seq<u8>, pc: u16, n: u16) -> Result<u8, Error> {
    match pc_plus(pc, n) {
        Err(e) => Err(e),
        Ok(a) => read8_spec(ram, AccessClass::Program, a),
    }
}

/// The big-endian program word `n` bytes past `pc`.
pub open spec fn fetch16(ram: Seq<u8>, pc: u16, n: u16) -> Result<u16, Error> {
    match pc_plus(pc, n) {
        Err(e) => Err(e),
        Ok(a) => read16_spec(ram, AccessClass::Program, a),
    }
}

/// `s` reduced into the 16-bit range, for `-65536 <= s < 131072`.
pub open spec fn wrap16(s: int) -> u16 {
    if s < 0 {
        (s + 65536) as u16
    } else if s >= 65536 {
        (s - 65536) as u16
    } else {
        s as u16
    }
}

/// 16-bit address arithmetic: `base + off`, wrapping.
pub open spec fn offset16(base: u16, off: int) -> u16 {
    wrap16(base + off)
}

/// A five-bit two's-complement value.
pub open spec fn sext5(v: u8) -> int {
    if v >= 16 { v - 32 } else { v as int }
}

/// A byte read as two's complement.
pub open spec fn sext8(v: u8) -> int {
    if v >= 128 { v - 256 } else { v as int }
}

/// A word read as two's complement.
pub open spec fn sext16(v: u16) -> int {
    if v >= 32768 { v - 65536 } else { v as int }
}

/// The index register that selector `rr` names: X, Y, U, S.
pub open spec fn index_reg(r: Registers, rr: u8) -> u16 {
    if rr == 0 { r.x } else if rr == 1 { r.y } else if rr == 2 { r.u } else { r.s }
}

/// The registers with the index register `rr` set to `v`.
pub open spec fn with_index_reg(r: Registers, rr: u8, v: u16) -> Registers {
    if rr == 0 {
        Registers { x: v, ..r }
    } else if rr == 1 {
        Registers { y: v, ..r }
    } else if rr == 2 {
        Registers { u: v, ..r }
    } else {
        Registers { s: v, ..r }
    }
}

/// Whether post-byte `pb` asks for indirection (bits 7 and 4 set).
pub open spec fn pb_indirect(pb: u8) -> bool {
    pb >= 0x80 && (pb / 16) % 2 == 1
}

/// Indexed sub-mode before indirection, for post-byte `pb`, with `size` bytes
/// consumed through the post-byte.
pub open spec fn indexed_base(r: Registers, ram: Seq<u8>, pb: u8, size: u16) -> Result<Resolved, Error> {
    let rr = (pb / 32) % 4;
    let ir = index_reg(r, rr);
    let n = pb % 16;
    let bad_indirect = err(Fault::IllegalIndirect { postbyte: pb, pc: r.pc });
    if pb < 0x80 {
        Ok(Resolved { ea: offset16(ir, sext5(pb % 32)), size, reg: r })
    } else if n == 0 {
        if pb_indirect(pb) {
            Err(bad_indirect)
        } else {
            Ok(Resolved { ea: ir, size, reg: with_index_reg(r, rr, offset16(ir, 1)) })
        }
    } else if n == 1 {
        Ok(Resolved { ea: ir, size, reg: with_index_reg(r, rr, offset16(ir, 2)) })
    } else if n == 2 {
        if pb_indirect(pb) {
            Err(bad_indirect)
        } else {
            Ok(Resolved { ea: offset16(ir, -1), size, reg: with_index_reg(r, rr, offset16(ir, -1)) })
        }
    } else if n == 3 {
        Ok(Resolved { ea: offset16(ir, -2), size, reg: with_index_reg(r, rr, offset16(ir, -2)) })
    } else if n == 4 {
        Ok(Resolved { ea: ir, size, reg: r })
    } else if n == 5 {
        Ok(Resolved { ea: offset16(ir, sext8(r.b)), size, reg: r })
    } else if n == 6 {
        Ok(Resolved { ea: offset16(ir, sext8(r.a)), size, reg: r })
    } else if n == 8 {
        match fetch8(ram, r.pc, size) {
            Err(e) => Err(e),
            Ok(o) => Ok(Resolved { ea: offset16(ir, sext8(o)), size: (size + 1) as u16, reg: r }),
        }
    } else if n == 9 {
        match fetch16(ram, r.pc, size) {
            Err(e) => Err(e),
            Ok(o) => Ok(Resolved { ea: offset16(ir, sext16(o)), size: (size + 2) as u16, reg: r }),
        }
    } else if n == 11 {
        Ok(Resolved { ea: offset16(ir, d_of(r) as int), size, reg: r })
    } else if n == 12 {
        match fetch8(ram, r.pc, size) {
            Err(e) => Err(e),
            Ok(o) => Ok(Resolved { ea: offset16(r.pc, size + 1 + sext8(o)), size: (size + 1) as u16, reg: r }),
        }
    } else if n == 13 {
        match fetch16(ram, r.pc, size) {
            Err(e) => Err(e),
            Ok(o) => Ok(Resolved { ea: offset16(r.pc, size + 2 + sext16(o)), size: (size + 2) as u16, reg: r }),
        }
    } else if n == 15 {
        match fetch16(ram, r.pc, size) {
            Err(e) => Err(e),
            Ok(a) => Ok(Resolved { ea: a, size: (size + 2) as u16, reg: r }),
        }
    } else {
        Err(err(Fault::InvalidPostByte { postbyte: pb, pc: r.pc }))
    }
}

/// Indexed addressing with `size` opcode bytes already consumed: read the
/// post-byte, resolve its sub-mode, then follow indirection when bits 7 and 4
/// ask for it or the sub-mode is the absolute one.
pub open spec fn indexed_spec(r: Registers, ram: Seq<u8>, size: u16) -> Result<Resolved, Error> {
    match fetch8(ram, r.pc, size) {
        Err(e) => Err(e),
        Ok(pb) => match indexed_base(r, ram, pb, (size + 1) as u16) {
            Err(e) => Err(e),
            Ok(res) => if pb_indirect(pb) || (pb >= 0x80 && pb % 16 == 15) {
                match read16_spec(ram, AccessClass::Generic, res.ea) {
                    Err(e) => Err(e),
                    Ok(a) => Ok(Resolved { ea: a, ..res }),
                }
            } else {
                Ok(res)
            },
        },
    }
}

/// Effective address, total size and registers for an instruction of flavor
/// `f` at `r.pc` whose opcode takes `opsize` bytes.
#[verifier::opaque]
pub open spec fn resolve_spec(r: Registers, ram: Seq<u8>, f: Flavor, opsize: u16) -> Result<Resolved, Error> {
    match f.mode {
        AddressingMode::Immediate => match pc_plus(r.pc, opsize) {
            Err(e) => Err(e),
            Ok(ea) => Ok(Resolved { ea, size: f.size, reg: r }),
        },
        AddressingMode::Direct => match fetch8(ram, r.pc, opsize) {
            Err(e) => Err(e),
            Ok(lo) => Ok(Resolved { ea: (r.dp as int * 256 + lo as int) as u16, size: (opsize + 1) as u16, reg: r }),
        },
        AddressingMode::Extended => match fetch16(ram, r.pc, opsize) {
            Err(e) => Err(e),
            Ok(a) => Ok(Resolved { ea: a, size: (opsize + 2) as u16, reg: r }),
        },
        AddressingMode::Inherent => Ok(Resolved { ea: 0, size: opsize, reg: r }),
        AddressingMode::Relative => {
            let wide = f.size - opsize == 2;
            let off: Result<int, Error> = if wide {
                match fetch16(ram, r.pc, opsize) {
                    Err(e) => Err(e),
                    Ok(o) => Ok(sext16(o)),
                }
            } else {
                match fetch8(ram, r.pc, opsize) {
                    Err(e) => Err(e),
                    Ok(o) => Ok(sext8(o)),
                }
            };
            match off {
                Err(e) => Err(e),
                Ok(o) => match pc_plus(r.pc, f.size) {
                    Err(e) => Err(e),
                    Ok(next) => Ok(Resolved { ea: offset16(next, o), size: f.size, reg: r }),
                },
            }
        },
        AddressingMode::Indexed => indexed_spec(r, ram, opsize),
    }
}

/// `base + off` in 16-bit address arithmetic.
pub fn add_signed(base: u16, off: i32) -> (r: u16)
    requires
        -65536 < off < 65536,
    ensures
        r == offset16(base, off as int),
{
    let s: i32 = base as i32 + off;
    if s < 0 {
        (s + 65536) as u16
    } else if s >= 65536 {
        (s - 65536) as u16
    } else {
        s as u16
    }
}

fn sext8_of(v: u8) -> (r: i32)
    ensures
        r == sext8(v),
{
    if v >= 128 { v as i32 - 256 } else { v as i32 }
}

fn sext16_of(v: u16) -> (r: i32)
    ensures
        r == sext16(v),
{
    if v >= 32768 { v as i32 - 65536 } else { v as i32 }
}

impl Core {
    /// Increases the program counter `pc` by `rhs`; fails with a Runtime
    /// overflow instead of wrapping.
    pub fn checked_pc_add(&self, pc: u16, rhs: u16) -> (r: Result<u16, Error>)
        ensures
            r == pc_plus(pc, rhs),
    {
        match pc.checked_add(rhs) {
            Some(v) => Ok(v),
            None => Err(Error::new(Fault::PcOverflow { pc })),
        }
    }

    fn fetch_u8(&self, n: u16) -> (r: Result<u8, Error>)
        ensures
            r == fetch8(self.ram@, self.reg.pc, n),
    {
        match self.checked_pc_add(self.reg.pc, n) {
            Err(e) => Err(e),
            Ok(a) => read_u8(&self.ram, AccessClass::Program, a),
        }
    }

    fn fetch_u16(&self, n: u16) -> (r: Result<u16, Error>)
        ensures
            r == fetch16(self.ram@, self.reg.pc, n),
    {
        match self.checked_pc_add(self.reg.pc, n) {
            Err(e) => Err(e),
            Ok(a) => read_u16(&self.ram, AccessClass::Program, a),
        }
    }

    fn index_value(&self, rr: u8) -> (r: u16)
        ensures
            r == index_reg(self.reg, rr),
    {
        if rr == 0 { self.reg.x } else if rr == 1 { self.reg.y } else if rr == 2 { self.reg.u } else { self.reg.s }
    }

    fn set_index_value(&mut self, rr: u8, v: u16)
        ensures
            final(self).reg == with_index_reg(old(self).reg, rr, v),
            only_regs_changed(*final(self), *old(self)),
    {
        if rr == 0 {
            self.reg.x = v;
        } else if rr == 1 {
            self.reg.y = v;
        } else if rr == 2 {
            self.reg.u = v;
        } else {
            self.reg.s = v;
        }
    }

    /// Resolves the indexed sub-mode of post-byte `pb`; registers change only
    /// by the auto increment/decrement.
    fn indexed_base_exec(&mut self, pb: u8, size: u16) -> (r: Result<(u16, u16), Error>)
        requires
            size <= 3,
        ensures
            match indexed_base(old(self).reg, old(self).ram@, pb, size) {
                Ok(res) => r == Ok::<(u16, u16), Error>((res.ea, res.size)) && final(self).reg == res.reg,
                Err(e) => r == Err::<(u16, u16), Error>(e) && final(self).reg == old(self).reg,
            },
            final(self).reg.pc == old(self).reg.pc,
            only_regs_changed(*final(self), *old(self)),
    {
        let rr = (pb / 32) % 4;
        let ir = self.index_value(rr);
        let n = pb % 16;
        let indirect = pb >= 0x80 && (pb / 16) % 2 == 1;
        if pb < 0x80 {
            let v = pb % 32;
            let off: i32 = if v >= 16 { v as i32 - 32 } else { v as i32 };
            Ok((add_signed(ir, off), size))
        } else if n == 0 {
            if indirect {
                Err(Error::new(Fault::IllegalIndirect { postbyte: pb, pc: self.reg.pc }))
            } else {
                self.set_index_value(rr, add_signed(ir, 1));
                Ok((ir, size))
            }
        } else if n == 1 {
            self.set_index_value(rr, add_signed(ir, 2));
            Ok((ir, size))
        } else if n == 2 {
            if indirect {
                Err(Error::new(Fault::IllegalIndirect { postbyte: pb, pc: self.reg.pc }))
            } else {
                let v = add_signed(ir, -1);
                self.set_index_value(rr, v);
                Ok((v, size))
            }
        } else if n == 3 {
            let v = add_signed(ir, -2);
            self.set_index_value(rr, v);
            Ok((v, size))
        } else if n == 4 {
            Ok((ir, size))
        } else if n == 5 {
            Ok((add_signed(ir, sext8_of(self.reg.b)), size))
        } else if n == 6 {
            Ok((add_signed(ir, sext8_of(self.reg.a)), size))
        } else if n == 8 {
            match self.fetch_u8(size) {
                Err(e) => Err(e),
                Ok(o) => Ok((add_signed(ir, sext8_of(o)), size + 1)),
            }
        } else if n == 9 {
            match self.fetch_u16(size) {
                Err(e) => Err(e),
                Ok(o) => Ok((add_signed(ir, sext16_of(o)), size + 2)),
            }
        } else if n == 11 {
            Ok((add_signed(ir, self.reg.d() as i32), size))
        } else if n == 12 {
            match self.fetch_u8(size) {
                Err(e) => Err(e),
                Ok(o) => Ok((add_signed(self.reg.pc, size as i32 + 1 + sext8_of(o)), size + 1)),
            }
        } else if n == 13 {
            match self.fetch_u16(size) {
                Err(e) => Err(e),
                Ok(o) => Ok((add_signed(self.reg.pc, size as i32 + 2 + sext16_of(o)), size + 2)),
            }
        } else if n == 15 {
            match self.fetch_u16(size) {
                Err(e) => Err(e),
                Ok(a) => Ok((a, size + 2)),
            }
        } else {
            Err(Error::new(Fault::InvalidPostByte { postbyte: pb, pc: self.reg.pc }))
        }
    }

    /// Determines the effective address and full size of `inst`, applying
    /// the addressing mode's register side effects.
    pub fn process_addressing_mode(&mut self, inst: &mut Instance) -> (r: Result<(), Error>)
        requires
            old(inst).size <= 2,
            old(inst).flavor.size >= old(inst).size,
            old(inst).flavor.size <= 4,
        ensures
            match resolve_spec(old(self).reg, old(self).ram@, old(inst).flavor, old(inst).size) {
                Ok(res) => r is Ok && final(self).reg == res.reg && final(inst).ea == res.ea
                    && final(inst).size == res.size,
                Err(e) => r == Err::<(), Error>(e),
            },
            r matches Err(e) && e.kind == ErrorKind::Syntax ==> final(self).reg == old(self).reg,
            final(self).reg.pc == old(self).reg.pc,
            only_regs_changed(*final(self), *old(self)),
            final(inst).flavor == old(inst).flavor,
            final(inst).pc == old(inst).pc,
            final(inst).opcode == old(inst).opcode,
            final(inst).opsize == old(inst).opsize,
    {
        reveal(resolve_spec);
        let size = inst.size;
        match inst.flavor.mode {
            AddressingMode::Immediate => {
                match self.checked_pc_add(self.reg.pc, size) {
                    Err(e) => Err(e),
                    Ok(ea) => {
                        inst.ea = ea;
                        inst.size = inst.flavor.size;
                        Ok(())
                    },
                }
            },
            AddressingMode::Direct => {
                match self.fetch_u8(size) {
                    Err(e) => Err(e),
                    Ok(lo) => {
                        inst.ea = (self.reg.dp as u16) * 256 + lo as u16;
                        inst.size = size + 1;
                        Ok(())
                    },
                }
            },
            AddressingMode::Extended => {
                match self.fetch_u16(size) {
                    Err(e) => Err(e),
                    Ok(a) => {
                        inst.ea = a;
                        inst.size = size + 2;
                        Ok(())
                    },
                }
            },
            AddressingMode::Inherent => {
                inst.ea = 0;
                Ok(())
            },
            AddressingMode::Relative => {
                let off: i32 = if inst.flavor.size - size == 2 {
                    match self.fetch_u16(size) {
                        Err(e) => return Err(e),
                        Ok(o) => sext16_of(o),
                    }
                } else {
                    match self.fetch_u8(size) {
                        Err(e) => return Err(e),
                        Ok(o) => sext8_of(o),
                    }
                };
                match self.checked_pc_add(self.reg.pc, inst.flavor.size) {
                    Err(e) => Err(e),
                    Ok(next) => {
                        inst.ea = add_signed(next, off);
                        inst.size = inst.flavor.size;
                        Ok(())
                    },
                }
            },
            AddressingMode::Indexed => {
                let pb = match self.fetch_u8(size) {
                    Err(e) => return Err(e),
                    Ok(b) => b,
                };
                let (ea, sz) = match self.indexed_base_exec(pb, size + 1) {
                    Err(e) => return Err(e),
                    Ok(v) => v,
                };
                let indirect = pb >= 0x80 && (pb / 16) % 2 == 1;
                let ea = if indirect || (pb >= 0x80 && pb % 16 == 15) {
                    match read_u16(&self.ram, AccessClass::Generic, ea) {
                        Err(e) => return Err(e),
                        Ok(a) => a,
                    }
                } else {
                    ea
                };
                inst.ea = ea;
                inst.size = sz;
                Ok(())
            },
        }
    }
}

} // verus!
