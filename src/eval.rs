//! Instruction semantics: what each operation does to the registers and
//! memory once its effective address is known and PC points past it.
use vstd::prelude::*;
use crate::cpu::InterruptType;
use crate::error::Error;
use crate::instructions::{Acc, Cond, Meta, Op, Stack, Wide};
use crate::memory::{
    read16_spec, read8_spec, read_u16, read_u8, write16_spec, write8_spec, write_u16, write_u8,
    AccessClass,
};
use crate::error::{err, Fault};
use crate::registers::{
    d_of, put_bits, reg_size, reg_value, size_of_reg, with_bits, with_d, with_reg_value, Cc, Name, Registers,
    CC_C, CC_E, CC_H, CC_N, CC_V, CC_Z,
};

verus! {

/// Whether `mask` is set in `cc`.
pub open spec fn flag(cc: u8, mask: u8) -> bool {
    cc & mask != 0
}

/// `cc` with N and Z set from a result and V cleared.
pub open spec fn nzv(cc: u8, n: bool, z: bool) -> u8 {
    with_bits(with_bits(with_bits(cc, CC_N, n), CC_Z, z), CC_V, false)
}

/// `cc` with N, Z, V and C as given.
pub open spec fn nzvc(cc: u8, n: bool, z: bool, v: bool, c: bool) -> u8 {
    with_bits(with_bits(with_bits(with_bits(cc, CC_N, n), CC_Z, z), CC_V, v), CC_C, c)
}

/// Whether branch condition `c` holds under condition codes `cc`.
pub open spec fn cond_holds(c: Cond, cc: u8) -> bool {
    let cf = flag(cc, CC_C);
    let zf = flag(cc, CC_Z);
    let vf = flag(cc, CC_V);
    let nf = flag(cc, CC_N);
    match c {
        Cond::Always => true,
        Cond::Never => false,
        Cond::Hi => !(cf || zf),
        Cond::Ls => cf || zf,
        Cond::CarryClear => !cf,
        Cond::CarrySet => cf,
        Cond::Ne => !zf,
        Cond::Eq => zf,
        Cond::Vc => !vf,
        Cond::Vs => vf,
        Cond::Pl => !nf,
        Cond::Mi => nf,
        Cond::Ge => nf == vf,
        Cond::Lt => nf != vf,
        Cond::Gt => !zf && nf == vf,
        Cond::Le => zf || nf != vf,
    }
}

/// The value of accumulator `a`.
pub open spec fn acc_of(r: Registers, a: Acc) -> u8 {
    match a {
        Acc::A => r.a,
        Acc::B => r.b,
    }
}

/// The registers with accumulator `a` set to `v`.
pub open spec fn with_acc(r: Registers, a: Acc, v: u8) -> Registers {
    match a {
        Acc::A => Registers { a: v, ..r },
        Acc::B => Registers { b: v, ..r },
    }
}

/// The value of 16-bit register `w`.
pub open spec fn wide_of(r: Registers, w: Wide) -> u16 {
    match w {
        Wide::D => d_of(r),
        Wide::X => r.x,
        Wide::Y => r.y,
        Wide::U => r.u,
        Wide::S => r.s,
    }
}

/// The registers with 16-bit register `w` set to `v`.
pub open spec fn with_wide(r: Registers, w: Wide, v: u16) -> Registers {
    match w {
        Wide::D => with_d(r, v),
        Wide::X => Registers { x: v, ..r },
        Wide::Y => Registers { y: v, ..r },
        Wide::U => Registers { u: v, ..r },
        Wide::S => Registers { s: v, ..r },
    }
}

/// The registers with the condition codes replaced by `bits`.
pub open spec fn with_cc(r: Registers, bits: u8) -> Registers {
    Registers { cc: Cc { bits }, ..r }
}

/// Whether a byte is negative as two's complement.
pub open spec fn neg8(v: u8) -> bool {
    v >= 128
}

/// 8-bit addition: result, then H, N, Z, V, C.
pub open spec fn add8_cc(cc: u8, a: u8, m: u8) -> (u8, u8) {
    let sum = a + m;
    let res = (sum % 256) as u8;
    let sa = if a >= 128 { a - 256 } else { a as int };
    let sm = if m >= 128 { m - 256 } else { m as int };
    let v = sa + sm > 127 || sa + sm < -128;
    (res, nzvc(with_bits(cc, CC_H, a % 16 + m % 16 > 15), neg8(res), res == 0, v, sum > 255))
}

/// 8-bit subtraction `a - m`: result, then N, Z, V, C (borrow).
pub open spec fn sub8_cc(cc: u8, a: u8, m: u8) -> (u8, u8) {
    let res = ((a - m + 256) % 256) as u8;
    let sa = if a >= 128 { a - 256 } else { a as int };
    let sm = if m >= 128 { m - 256 } else { m as int };
    let v = sa - sm > 127 || sa - sm < -128;
    (res, nzvc(cc, neg8(res), res == 0, v, a < m))
}

/// Pushes the word `v` on the S stack.
pub open spec fn push16_spec(r: Registers, ram: Seq<u8>, v: u16) -> Result<(Registers, Seq<u8>), Error> {
    if r.s < 2 {
        Err(err(Fault::StackOverflow { s: r.s }))
    } else {
        match write16_spec(ram, AccessClass::Generic, (r.s - 2) as u16, v) {
            Err(e) => Err(e),
            Ok(m) => Ok((Registers { s: (r.s - 2) as u16, ..r }, m)),
        }
    }
}

/// The value of stack pointer `st`.
pub open spec fn stack_of(r: Registers, st: Stack) -> u16 {
    match st {
        Stack::S => r.s,
        Stack::U => r.u,
    }
}

/// The registers with stack pointer `st` set to `v`.
pub open spec fn with_stack(r: Registers, st: Stack, v: u16) -> Registers {
    match st {
        Stack::S => Registers { s: v, ..r },
        Stack::U => Registers { u: v, ..r },
    }
}

/// Pushes register `n` on stack `st`.
pub open spec fn push_reg_spec(r: Registers, ram: Seq<u8>, st: Stack, n: Name) -> Result<(Registers, Seq<u8>), Error> {
    let sp = stack_of(r, st);
    let size = size_of_reg(n);
    if sp < size {
        Err(err(Fault::StackOverflow { s: sp }))
    } else {
        let a = (sp - size) as u16;
        let v = reg_value(r, n);
        let w = if size == 1 {
            write8_spec(ram, AccessClass::Generic, a, v as u8)
        } else {
            write16_spec(ram, AccessClass::Generic, a, v)
        };
        match w {
            Err(e) => Err(e),
            Ok(m) => Ok((with_stack(r, st, a), m)),
        }
    }
}

/// Pulls register `n` from stack `st`.
pub open spec fn pull_reg_spec(r: Registers, ram: Seq<u8>, st: Stack, n: Name) -> Result<Registers, Error> {
    let sp = stack_of(r, st);
    let size = size_of_reg(n);
    if sp + size > 0xFFFF {
        Err(err(Fault::StackOverflow { s: sp }))
    } else {
        let v: Result<u16, Error> = if size == 1 {
            match read8_spec(ram, AccessClass::Generic, sp) {
                Err(e) => Err(e),
                Ok(b) => Ok(b as u16),
            }
        } else {
            read16_spec(ram, AccessClass::Generic, sp)
        };
        match v {
            Err(e) => Err(e),
            Ok(x) => Ok(with_reg_value(with_stack(r, st, (sp + size) as u16), n, x)),
        }
    }
}

/// Pulls register `n` from the S stack of the registers in `st`.
pub open spec fn pull_spec(st: Result<Registers, Error>, ram: Seq<u8>, n: Name) -> Result<Registers, Error> {
    match st {
        Err(e) => Err(e),
        Ok(r) => pull_reg_spec(r, ram, Stack::S, n),
    }
}

/// The register that bit `b` of a push/pull mask names on stack `st`: PC,
/// the other stack pointer, Y, X, DP, B, A, CC from bit 7 down.
pub open spec fn reg_for_bit(b: u8, st: Stack) -> Name {
    if b == 7 { Name::PC }
    else if b == 6 { if st == Stack::S { Name::U } else { Name::S } }
    else if b == 5 { Name::Y }
    else if b == 4 { Name::X }
    else if b == 3 { Name::DP }
    else if b == 2 { Name::B }
    else if b == 1 { Name::A }
    else { Name::CC }
}

/// Whether bit `b` of `mask` is set.
pub open spec fn mask_bit(mask: u8, b: u8) -> bool {
    (mask >> b) & 1 == 1
}

/// Pushes the registers of `mask` below bit `i` on stack `st`, highest bit
/// first.
pub open spec fn push_mask_spec(r: Registers, ram: Seq<u8>, st: Stack, mask: u8, i: u8) -> Result<(Registers, Seq<u8>), Error>
    decreases i,
{
    if i == 0 {
        Ok((r, ram))
    } else {
        let b = (i - 1) as u8;
        if mask_bit(mask, b) {
            match push_reg_spec(r, ram, st, reg_for_bit(b, st)) {
                Err(e) => Err(e),
                Ok((r1, m1)) => push_mask_spec(r1, m1, st, mask, b),
            }
        } else {
            push_mask_spec(r, ram, st, mask, b)
        }
    }
}

/// Pulls the registers of `mask` from bit `i` up from stack `st`, lowest bit
/// first.
pub open spec fn pull_mask_spec(r: Registers, ram: Seq<u8>, st: Stack, mask: u8, i: u8) -> Result<Registers, Error>
    decreases 8 - i,
{
    if i >= 8 {
        Ok(r)
    } else if mask_bit(mask, i) {
        match pull_reg_spec(r, ram, st, reg_for_bit(i, st)) {
            Err(e) => Err(e),
            Ok(r1) => pull_mask_spec(r1, ram, st, mask, (i + 1) as u8),
        }
    } else {
        pull_mask_spec(r, ram, st, mask, (i + 1) as u8)
    }
}

/// The register that a transfer/exchange code names: D, X, Y, U, S, PC,
/// then A, B, CC, DP from 8 on.
pub open spec fn reg_code(c: u8) -> Option<Name> {
    if c == 0 { Some(Name::D) }
    else if c == 1 { Some(Name::X) }
    else if c == 2 { Some(Name::Y) }
    else if c == 3 { Some(Name::U) }
    else if c == 4 { Some(Name::S) }
    else if c == 5 { Some(Name::PC) }
    else if c == 8 { Some(Name::A) }
    else if c == 9 { Some(Name::B) }
    else if c == 10 { Some(Name::CC) }
    else if c == 11 { Some(Name::DP) }
    else { None }
}

/// TFR (`exchange` false) or EXG with post-byte `pb`: source in the high
/// nibble, destination in the low one. Values move widened to 16 bits; an
/// 8-bit destination keeps the low byte.
pub open spec fn transfer_spec(r: Registers, pb: u8, exchange: bool) -> Result<Registers, Error> {
    match (reg_code(pb / 16), reg_code(pb % 16)) {
        (Some(src), Some(dst)) => {
            let r1 = with_reg_value(r, dst, reg_value(r, src));
            if exchange {
                Ok(with_reg_value(r1, src, reg_value(r, dst)))
            } else {
                Ok(r1)
            }
        },
        _ => Err(err(Fault::InvalidRegister { postbyte: pb })),
    }
}

/// Return from interrupt: CC first; when its E bit is set, A, B, DP, X, Y
/// and U; then PC.
pub open spec fn rti_spec(r: Registers, ram: Seq<u8>) -> Result<Registers, Error> {
    match pull_spec(Ok(r), ram, Name::CC) {
        Err(e) => Err(e),
        Ok(r1) => {
            let st = if r1.cc.bits & CC_E != 0 {
                pull_spec(pull_spec(pull_spec(pull_spec(pull_spec(pull_spec(Ok(r1), ram, Name::A), ram, Name::B), ram, Name::DP), ram, Name::X), ram, Name::Y), ram, Name::U)
            } else {
                Ok(r1)
            };
            pull_spec(st, ram, Name::PC)
        },
    }
}

/// Effect of operation `op` with effective address `ea` on registers `r`
/// (PC already past the instruction) and memory `ram`: new registers, new
/// memory and the signal for the controller, or the failing access.
#[verifier::opaque]
pub open spec fn eval_spec(op: Op, r: Registers, ram: Seq<u8>, ea: u16) -> Result<
    (Registers, Seq<u8>, Option<Meta>),
    Error,
> {
    let cc = r.cc.bits;
    match op {
        Op::Nop => Ok((r, ram, None)),
        Op::Exit => Ok((r, ram, Some(Meta::Exit))),
        Op::Sync => Ok((r, ram, Some(Meta::Sync))),
        Op::Swi => Ok((r, ram, Some(Meta::Interrupt(InterruptType::Swi)))),
        Op::Swi2 => Ok((r, ram, Some(Meta::Interrupt(InterruptType::Swi2)))),
        Op::Swi3 => Ok((r, ram, Some(Meta::Interrupt(InterruptType::Swi3)))),
        Op::Cwai => match read8_spec(ram, AccessClass::Generic, ea) {
            Err(e) => Err(e),
            Ok(m) => Ok((with_cc(r, cc & m), ram, Some(Meta::Cwai))),
        },
        Op::AndCc => match read8_spec(ram, AccessClass::Generic, ea) {
            Err(e) => Err(e),
            Ok(m) => Ok((with_cc(r, cc & m), ram, None)),
        },
        Op::OrCc => match read8_spec(ram, AccessClass::Generic, ea) {
            Err(e) => Err(e),
            Ok(m) => Ok((with_cc(r, cc | m), ram, None)),
        },
        Op::Ld(a) => match read8_spec(ram, AccessClass::Generic, ea) {
            Err(e) => Err(e),
            Ok(m) => Ok((with_cc(with_acc(r, a, m), nzv(cc, neg8(m), m == 0)), ram, None)),
        },
        Op::St(a) => {
            let v = acc_of(r, a);
            match write8_spec(ram, AccessClass::Generic, ea, v) {
                Err(e) => Err(e),
                Ok(ram2) => Ok((with_cc(r, nzv(cc, neg8(v), v == 0)), ram2, None)),
            }
        },
        Op::Add(a) => match read8_spec(ram, AccessClass::Generic, ea) {
            Err(e) => Err(e),
            Ok(m) => {
                let (res, cc2) = add8_cc(cc, acc_of(r, a), m);
                Ok((with_cc(with_acc(r, a, res), cc2), ram, None))
            },
        },
        Op::Sub(a) => match read8_spec(ram, AccessClass::Generic, ea) {
            Err(e) => Err(e),
            Ok(m) => {
                let (res, cc2) = sub8_cc(cc, acc_of(r, a), m);
                Ok((with_cc(with_acc(r, a, res), cc2), ram, None))
            },
        },
        Op::And(a) => match read8_spec(ram, AccessClass::Generic, ea) {
            Err(e) => Err(e),
            Ok(m) => {
                let res = acc_of(r, a) & m;
                Ok((with_cc(with_acc(r, a, res), nzv(cc, neg8(res), res == 0)), ram, None))
            },
        },
        Op::Or(a) => match read8_spec(ram, AccessClass::Generic, ea) {
            Err(e) => Err(e),
            Ok(m) => {
                let res = acc_of(r, a) | m;
                Ok((with_cc(with_acc(r, a, res), nzv(cc, neg8(res), res == 0)), ram, None))
            },
        },
        Op::Clr(a) => Ok((with_cc(with_acc(r, a, 0), nzvc(cc, false, true, false, false)), ram, None)),
        Op::Inc(a) => {
            let v = acc_of(r, a);
            let res = ((v + 1) % 256) as u8;
            Ok((with_cc(with_acc(r, a, res), with_bits(nzv(cc, neg8(res), res == 0), CC_V, v == 0x7F)), ram, None))
        },
        Op::Dec(a) => {
            let v = acc_of(r, a);
            let res = ((v + 255) % 256) as u8;
            Ok((with_cc(with_acc(r, a, res), with_bits(nzv(cc, neg8(res), res == 0), CC_V, v == 0x80)), ram, None))
        },
        Op::Ldw(w) => match read16_spec(ram, AccessClass::Generic, ea) {
            Err(e) => Err(e),
            Ok(m) => Ok((with_cc(with_wide(r, w, m), nzv(cc, m >= 0x8000, m == 0)), ram, None)),
        },
        Op::Stw(w) => {
            let v = wide_of(r, w);
            match write16_spec(ram, AccessClass::Generic, ea, v) {
                Err(e) => Err(e),
                Ok(ram2) => Ok((with_cc(r, nzv(cc, v >= 0x8000, v == 0)), ram2, None)),
            }
        },
        Op::Lea(w) => match w {
            Wide::X | Wide::Y => Ok((with_cc(with_wide(r, w, ea), with_bits(cc, CC_Z, ea == 0)), ram, None)),
            _ => Ok((with_wide(r, w, ea), ram, None)),
        },
        Op::Jmp => Ok((Registers { pc: ea, ..r }, ram, None)),
        Op::Jsr => match push16_spec(r, ram, r.pc) {
            Err(e) => Err(e),
            Ok((r1, m1)) => Ok((Registers { pc: ea, ..r1 }, m1, None)),
        },
        Op::Rts => match pull_spec(Ok(r), ram, Name::PC) {
            Err(e) => Err(e),
            Ok(r1) => Ok((r1, ram, None)),
        },
        Op::Rti => match rti_spec(r, ram) {
            Err(e) => Err(e),
            Ok(r1) => Ok((r1, ram, None)),
        },
        Op::Tfr | Op::Exg => match read8_spec(ram, AccessClass::Generic, ea) {
            Err(e) => Err(e),
            Ok(pb) => match transfer_spec(r, pb, op == Op::Exg) {
                Err(e) => Err(e),
                Ok(r1) => Ok((r1, ram, None)),
            },
        },
        Op::Psh(st) => match read8_spec(ram, AccessClass::Generic, ea) {
            Err(e) => Err(e),
            Ok(mask) => match push_mask_spec(r, ram, st, mask, 8) {
                Err(e) => Err(e),
                Ok((r1, m1)) => Ok((r1, m1, None)),
            },
        },
        Op::Pul(st) => match read8_spec(ram, AccessClass::Generic, ea) {
            Err(e) => Err(e),
            Ok(mask) => match pull_mask_spec(r, ram, st, mask, 0) {
                Err(e) => Err(e),
                Ok(r1) => Ok((r1, ram, None)),
            },
        },
        Op::Branch(c) => if cond_holds(c, cc) {
            Ok((Registers { pc: ea, ..r }, ram, None))
        } else {
            Ok((r, ram, None))
        },
    }
}

fn flag_of(cc: u8, mask: u8) -> (r: bool)
    ensures
        r == flag(cc, mask),
{
    cc & mask != 0
}

fn nzv_of(cc: u8, n: bool, z: bool) -> (r: u8)
    ensures
        r == nzv(cc, n, z),
{
    put_bits(put_bits(put_bits(cc, CC_N, n), CC_Z, z), CC_V, false)
}

fn nzvc_of(cc: u8, n: bool, z: bool, v: bool, c: bool) -> (r: u8)
    ensures
        r == nzvc(cc, n, z, v, c),
{
    put_bits(put_bits(put_bits(put_bits(cc, CC_N, n), CC_Z, z), CC_V, v), CC_C, c)
}

/// Whether branch condition `c` holds under `cc`.
pub fn condition_holds(c: Cond, cc: u8) -> (r: bool)
    ensures
        r == cond_holds(c, cc),
{
    let cf = flag_of(cc, CC_C);
    let zf = flag_of(cc, CC_Z);
    let vf = flag_of(cc, CC_V);
    let nf = flag_of(cc, CC_N);
    match c {
        Cond::Always => true,
        Cond::Never => false,
        Cond::Hi => !(cf || zf),
        Cond::Ls => cf || zf,
        Cond::CarryClear => !cf,
        Cond::CarrySet => cf,
        Cond::Ne => !zf,
        Cond::Eq => zf,
        Cond::Vc => !vf,
        Cond::Vs => vf,
        Cond::Pl => !nf,
        Cond::Mi => nf,
        Cond::Ge => nf == vf,
        Cond::Lt => nf != vf,
        Cond::Gt => !zf && nf == vf,
        Cond::Le => zf || nf != vf,
    }
}

/// 8-bit addition with its condition codes.
pub fn add8(cc: u8, a: u8, m: u8) -> (r: (u8, u8))
    ensures
        r == add8_cc(cc, a, m),
{
    let sum: u16 = a as u16 + m as u16;
    let res = (sum % 256) as u8;
    let sa: i16 = if a >= 128 { a as i16 - 256 } else { a as i16 };
    let sm: i16 = if m >= 128 { m as i16 - 256 } else { m as i16 };
    let v = sa + sm > 127 || sa + sm < -128;
    let h = put_bits(cc, CC_H, a % 16 + m % 16 > 15);
    (res, nzvc_of(h, res >= 128, res == 0, v, sum > 255))
}

/// 8-bit subtraction `a - m` with its condition codes.
pub fn sub8(cc: u8, a: u8, m: u8) -> (r: (u8, u8))
    ensures
        r == sub8_cc(cc, a, m),
{
    let res = ((a as u16 + 256 - m as u16) % 256) as u8;
    let sa: i16 = if a >= 128 { a as i16 - 256 } else { a as i16 };
    let sm: i16 = if m >= 128 { m as i16 - 256 } else { m as i16 };
    let v = sa - sm > 127 || sa - sm < -128;
    (res, nzvc_of(cc, res >= 128, res == 0, v, a < m))
}

fn get_acc(r: &Registers, a: Acc) -> (v: u8)
    ensures
        v == acc_of(*r, a),
{
    match a {
        Acc::A => r.a,
        Acc::B => r.b,
    }
}

fn put_acc(r: &mut Registers, a: Acc, v: u8)
    ensures
        *final(r) == with_acc(*old(r), a, v),
{
    match a {
        Acc::A => r.a = v,
        Acc::B => r.b = v,
    }
}

fn get_wide(r: &Registers, w: Wide) -> (v: u16)
    ensures
        v == wide_of(*r, w),
{
    match w {
        Wide::D => r.d(),
        Wide::X => r.x,
        Wide::Y => r.y,
        Wide::U => r.u,
        Wide::S => r.s,
    }
}

fn put_wide(r: &mut Registers, w: Wide, v: u16)
    ensures
        *final(r) == with_wide(*old(r), w, v),
{
    match w {
        Wide::D => r.set_d(v),
        Wide::X => r.x = v,
        Wide::Y => r.y = v,
        Wide::U => r.u = v,
        Wide::S => r.s = v,
    }
}

fn stack_value(r: &Registers, st: Stack) -> (v: u16)
    ensures
        v == stack_of(*r, st),
{
    match st {
        Stack::S => r.s,
        Stack::U => r.u,
    }
}

fn set_stack(r: &mut Registers, st: Stack, v: u16)
    ensures
        *final(r) == with_stack(*old(r), st, v),
{
    match st {
        Stack::S => r.s = v,
        Stack::U => r.u = v,
    }
}

/// Pushes register `n` on stack `st`.
pub fn push_reg(r: &mut Registers, ram: &mut Vec<u8>, st: Stack, n: Name) -> (res: Result<(), Error>)
    ensures
        match push_reg_spec(*old(r), old(ram)@, st, n) {
            Ok((r2, m2)) => res is Ok && *final(r) == r2 && final(ram)@ == m2,
            Err(e) => res == Err::<(), Error>(e),
        },
{
    let sp = stack_value(r, st);
    let size = reg_size(n);
    if sp < size {
        return Err(Error::new(Fault::StackOverflow { s: sp }));
    }
    let a = sp - size;
    let v = r.get_register(n);
    let w = if size == 1 {
        write_u8(ram, AccessClass::Generic, a, v as u8)
    } else {
        write_u16(ram, AccessClass::Generic, a, v)
    };
    match w {
        Err(e) => Err(e),
        Ok(()) => {
            set_stack(r, st, a);
            Ok(())
        },
    }
}

/// Pulls register `n` from stack `st`.
pub fn pull_reg(r: &mut Registers, ram: &Vec<u8>, st: Stack, n: Name) -> (res: Result<(), Error>)
    ensures
        match pull_reg_spec(*old(r), ram@, st, n) {
            Ok(r2) => res is Ok && *final(r) == r2,
            Err(e) => res == Err::<(), Error>(e),
        },
{
    let sp = stack_value(r, st);
    let size = reg_size(n);
    if sp as u32 + size as u32 > 0xFFFF {
        return Err(Error::new(Fault::StackOverflow { s: sp }));
    }
    let v: u16 = if size == 1 {
        match read_u8(ram, AccessClass::Generic, sp) {
            Err(e) => return Err(e),
            Ok(b) => b as u16,
        }
    } else {
        match read_u16(ram, AccessClass::Generic, sp) {
            Err(e) => return Err(e),
            Ok(w) => w,
        }
    };
    set_stack(r, st, sp + size);
    r.set_register(n, v);
    Ok(())
}

fn reg_for(b: u8, st: Stack) -> (n: Name)
    ensures
        n == reg_for_bit(b, st),
{
    if b == 7 { Name::PC }
    else if b == 6 { match st { Stack::S => Name::U, Stack::U => Name::S } }
    else if b == 5 { Name::Y }
    else if b == 4 { Name::X }
    else if b == 3 { Name::DP }
    else if b == 2 { Name::B }
    else if b == 1 { Name::A }
    else { Name::CC }
}

/// Pushes the registers of `mask` on stack `st`, PC first and CC last.
pub fn push_registers(r: &mut Registers, ram: &mut Vec<u8>, st: Stack, mask: u8) -> (res: Result<(), Error>)
    ensures
        match push_mask_spec(*old(r), old(ram)@, st, mask, 8) {
            Ok((r2, m2)) => res is Ok && *final(r) == r2 && final(ram)@ == m2,
            Err(e) => res == Err::<(), Error>(e),
        },
{
    let mut i: u8 = 8;
    while i > 0
        invariant
            i <= 8,
            push_mask_spec(*old(r), old(ram)@, st, mask, 8) == push_mask_spec(*r, ram@, st, mask, i),
        decreases i,
    {
        let b = i - 1;
        if (mask >> b) & 1 == 1 {
            match push_reg(r, ram, st, reg_for(b, st)) {
                Err(e) => return Err(e),
                Ok(()) => {},
            }
        }
        i = b;
    }
    Ok(())
}

/// Pulls the registers of `mask` from stack `st`, CC first and PC last.
pub fn pull_registers(r: &mut Registers, ram: &Vec<u8>, st: Stack, mask: u8) -> (res: Result<(), Error>)
    ensures
        match pull_mask_spec(*old(r), ram@, st, mask, 0) {
            Ok(r2) => res is Ok && *final(r) == r2,
            Err(e) => res == Err::<(), Error>(e),
        },
{
    let mut i: u8 = 0;
    while i < 8
        invariant
            i <= 8,
            pull_mask_spec(*old(r), ram@, st, mask, 0) == pull_mask_spec(*r, ram@, st, mask, i),
        decreases 8 - i,
    {
        if (mask >> i) & 1 == 1 {
            match pull_reg(r, ram, st, reg_for(i, st)) {
                Err(e) => return Err(e),
                Ok(()) => {},
            }
        }
        i = i + 1;
    }
    Ok(())
}

fn reg_for_code(c: u8) -> (n: Option<Name>)
    ensures
        n == reg_code(c),
{
    if c == 0 { Some(Name::D) }
    else if c == 1 { Some(Name::X) }
    else if c == 2 { Some(Name::Y) }
    else if c == 3 { Some(Name::U) }
    else if c == 4 { Some(Name::S) }
    else if c == 5 { Some(Name::PC) }
    else if c == 8 { Some(Name::A) }
    else if c == 9 { Some(Name::B) }
    else if c == 10 { Some(Name::CC) }
    else if c == 11 { Some(Name::DP) }
    else { None }
}

/// TFR or EXG with post-byte `pb`.
pub fn transfer(r: &mut Registers, pb: u8, exchange: bool) -> (res: Result<(), Error>)
    ensures
        match transfer_spec(*old(r), pb, exchange) {
            Ok(r2) => res is Ok && *final(r) == r2,
            Err(e) => res == Err::<(), Error>(e),
        },
{
    match (reg_for_code(pb / 16), reg_for_code(pb % 16)) {
        (Some(src), Some(dst)) => {
            let vs = r.get_register(src);
            let vd = r.get_register(dst);
            r.set_register(dst, vs);
            if exchange {
                r.set_register(src, vd);
            }
            Ok(())
        },
        _ => Err(Error::new(Fault::InvalidRegister { postbyte: pb })),
    }
}

/// Return from interrupt.
fn return_from_interrupt(r: &mut Registers, ram: &Vec<u8>) -> (res: Result<(), Error>)
    ensures
        match rti_spec(*old(r), ram@) {
            Ok(r2) => res is Ok && *final(r) == r2,
            Err(e) => res == Err::<(), Error>(e),
        },
{
    match pull_reg(r, ram, Stack::S, Name::CC) {
        Err(e) => return Err(e),
        Ok(()) => {},
    }
    if r.cc.bits & CC_E != 0 {
        match pull_reg(r, ram, Stack::S, Name::A) {
            Err(e) => return Err(e),
            Ok(()) => {},
        }
        match pull_reg(r, ram, Stack::S, Name::B) {
            Err(e) => return Err(e),
            Ok(()) => {},
        }
        match pull_reg(r, ram, Stack::S, Name::DP) {
            Err(e) => return Err(e),
            Ok(()) => {},
        }
        match pull_reg(r, ram, Stack::S, Name::X) {
            Err(e) => return Err(e),
            Ok(()) => {},
        }
        match pull_reg(r, ram, Stack::S, Name::Y) {
            Err(e) => return Err(e),
            Ok(()) => {},
        }
        match pull_reg(r, ram, Stack::S, Name::U) {
            Err(e) => return Err(e),
            Ok(()) => {},
        }
    }
    pull_reg(r, ram, Stack::S, Name::PC)
}

/// Evaluates `op` at effective address `ea` against the registers and RAM.
pub fn evaluate(op: Op, r: &mut Registers, ram: &mut Vec<u8>, ea: u16) -> (res: Result<Option<Meta>, Error>)
    ensures
        match eval_spec(op, *old(r), old(ram)@, ea) {
            Ok((r2, m2, meta)) => res == Ok::<Option<Meta>, Error>(meta) && *final(r) == r2 && final(ram)@ == m2,
            Err(e) => res == Err::<Option<Meta>, Error>(e),
        },
{
    reveal(eval_spec);
    let cc = r.cc.bits;
    match op {
        Op::Nop => Ok(None),
        Op::Exit => Ok(Some(Meta::Exit)),
        Op::Sync => Ok(Some(Meta::Sync)),
        Op::Swi => Ok(Some(Meta::Interrupt(InterruptType::Swi))),
        Op::Swi2 => Ok(Some(Meta::Interrupt(InterruptType::Swi2))),
        Op::Swi3 => Ok(Some(Meta::Interrupt(InterruptType::Swi3))),
        Op::Cwai => match read_u8(ram, AccessClass::Generic, ea) {
            Err(e) => Err(e),
            Ok(m) => {
                r.cc.bits = cc & m;
                Ok(Some(Meta::Cwai))
            },
        },
        Op::AndCc => match read_u8(ram, AccessClass::Generic, ea) {
            Err(e) => Err(e),
            Ok(m) => {
                r.cc.bits = cc & m;
                Ok(None)
            },
        },
        Op::OrCc => match read_u8(ram, AccessClass::Generic, ea) {
            Err(e) => Err(e),
            Ok(m) => {
                r.cc.bits = cc | m;
                Ok(None)
            },
        },
        Op::Ld(a) => match read_u8(ram, AccessClass::Generic, ea) {
            Err(e) => Err(e),
            Ok(m) => {
                put_acc(r, a, m);
                r.cc.bits = nzv_of(cc, m >= 128, m == 0);
                Ok(None)
            },
        },
        Op::St(a) => {
            let v = get_acc(r, a);
            match write_u8(ram, AccessClass::Generic, ea, v) {
                Err(e) => Err(e),
                Ok(()) => {
                    r.cc.bits = nzv_of(cc, v >= 128, v == 0);
                    Ok(None)
                },
            }
        },
        Op::Add(a) => match read_u8(ram, AccessClass::Generic, ea) {
            Err(e) => Err(e),
            Ok(m) => {
                let (res, cc2) = add8(cc, get_acc(r, a), m);
                put_acc(r, a, res);
                r.cc.bits = cc2;
                Ok(None)
            },
        },
        Op::Sub(a) => match read_u8(ram, AccessClass::Generic, ea) {
            Err(e) => Err(e),
            Ok(m) => {
                let (res, cc2) = sub8(cc, get_acc(r, a), m);
                put_acc(r, a, res);
                r.cc.bits = cc2;
                Ok(None)
            },
        },
        Op::And(a) => match read_u8(ram, AccessClass::Generic, ea) {
            Err(e) => Err(e),
            Ok(m) => {
                let res = get_acc(r, a) & m;
                put_acc(r, a, res);
                r.cc.bits = nzv_of(cc, res >= 128, res == 0);
                Ok(None)
            },
        },
        Op::Or(a) => match read_u8(ram, AccessClass::Generic, ea) {
            Err(e) => Err(e),
            Ok(m) => {
                let res = get_acc(r, a) | m;
                put_acc(r, a, res);
                r.cc.bits = nzv_of(cc, res >= 128, res == 0);
                Ok(None)
            },
        },
        Op::Clr(a) => {
            put_acc(r, a, 0);
            r.cc.bits = nzvc_of(cc, false, true, false, false);
            Ok(None)
        },
        Op::Inc(a) => {
            let v = get_acc(r, a);
            let res = ((v as u16 + 1) % 256) as u8;
            put_acc(r, a, res);
            r.cc.bits = put_bits(nzv_of(cc, res >= 128, res == 0), CC_V, v == 0x7F);
            Ok(None)
        },
        Op::Dec(a) => {
            let v = get_acc(r, a);
            let res = ((v as u16 + 255) % 256) as u8;
            put_acc(r, a, res);
            r.cc.bits = put_bits(nzv_of(cc, res >= 128, res == 0), CC_V, v == 0x80);
            Ok(None)
        },
        Op::Ldw(w) => match read_u16(ram, AccessClass::Generic, ea) {
            Err(e) => Err(e),
            Ok(m) => {
                put_wide(r, w, m);
                r.cc.bits = nzv_of(cc, m >= 0x8000, m == 0);
                Ok(None)
            },
        },
        Op::Stw(w) => {
            let v = get_wide(r, w);
            match write_u16(ram, AccessClass::Generic, ea, v) {
                Err(e) => Err(e),
                Ok(()) => {
                    r.cc.bits = nzv_of(cc, v >= 0x8000, v == 0);
                    Ok(None)
                },
            }
        },
        Op::Lea(w) => {
            put_wide(r, w, ea);
            match w {
                Wide::X | Wide::Y => {
                    r.cc.bits = put_bits(cc, CC_Z, ea == 0);
                },
                _ => {},
            }
            Ok(None)
        },
        Op::Jmp => {
            r.pc = ea;
            Ok(None)
        },
        Op::Jsr => {
            if r.s < 2 {
                return Err(Error::new(Fault::StackOverflow { s: r.s }));
            }
            match write_u16(ram, AccessClass::Generic, r.s - 2, r.pc) {
                Err(e) => Err(e),
                Ok(()) => {
                    r.s = r.s - 2;
                    r.pc = ea;
                    Ok(None)
                },
            }
        },
        Op::Rts => match pull_reg(r, ram, Stack::S, Name::PC) {
            Err(e) => Err(e),
            Ok(()) => Ok(None),
        },
        Op::Rti => match return_from_interrupt(r, ram) {
            Err(e) => Err(e),
            Ok(()) => Ok(None),
        },
        Op::Tfr | Op::Exg => match read_u8(ram, AccessClass::Generic, ea) {
            Err(e) => Err(e),
            Ok(pb) => match transfer(r, pb, matches!(op, Op::Exg)) {
                Err(e) => Err(e),
                Ok(()) => Ok(None),
            },
        },
        Op::Psh(st) => match read_u8(ram, AccessClass::Generic, ea) {
            Err(e) => Err(e),
            Ok(mask) => match push_registers(r, ram, st, mask) {
                Err(e) => Err(e),
                Ok(()) => Ok(None),
            },
        },
        Op::Pul(st) => match read_u8(ram, AccessClass::Generic, ea) {
            Err(e) => Err(e),
            Ok(mask) => match pull_registers(r, ram, st, mask) {
                Err(e) => Err(e),
                Ok(()) => Ok(None),
            },
        },
        Op::Branch(c) => {
            if condition_holds(c, cc) {
                r.pc = ea;
            }
            Ok(None)
        },
    }
}

} // verus!
