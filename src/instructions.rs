//! Instruction descriptors ("flavors") and the opcode table that maps an
//! opcode key, one byte or a page prefix and a byte, to its descriptor.
use vstd::prelude::*;
use crate::cpu::InterruptType;

verus! {

/// How an instruction finds its operand.
#[derive(Clone, Copy, Debug, PartialEq, Eq, Structural)]
pub enum AddressingMode {
    Immediate,
    Direct,
    Extended,
    Inherent,
    Relative,
    Indexed,
}

/// An 8-bit accumulator.
#[derive(Clone, Copy, Debug, PartialEq, Eq, Structural)]
pub enum Acc {
    A,
    B,
}

/// A 16-bit register that loads, stores and address loads work on.
#[derive(Clone, Copy, Debug, PartialEq, Eq, Structural)]
pub enum Wide {
    D,
    X,
    Y,
    U,
    S,
}

/// A stack pointer that push and pull instructions work on.
#[derive(Clone, Copy, Debug, PartialEq, Eq, Structural)]
pub enum Stack {
    S,
    U,
}

/// What the byte after the opcode of an immediate-mode instruction means.
#[derive(Clone, Copy, Debug, PartialEq, Eq, Structural)]
pub enum PostByteKind {
    /// Plain data.
    NA,
    /// Source and destination register codes (TFR, EXG).
    TransferExchange,
    /// A mask of registers to push or pull.
    PushPull,
}

/// A branch condition, in the order of the low opcode nibble.
#[derive(Clone, Copy, Debug, PartialEq, Eq, Structural)]
pub enum Cond {
    Always,
    Never,
    Hi,
    Ls,
    CarryClear,
    CarrySet,
    Ne,
    Eq,
    Vc,
    Vs,
    Pl,
    Mi,
    Ge,
    Lt,
    Gt,
    Le,
}

/// The semantic operation of an instruction.
#[derive(Clone, Copy, Debug, PartialEq, Eq, Structural)]
pub enum Op {
    Nop,
    /// Pseudo-instruction that ends the run.
    Exit,
    Sync,
    Cwai,
    Swi,
    Swi2,
    Swi3,
    AndCc,
    OrCc,
    Ld(Acc),
    St(Acc),
    Add(Acc),
    Sub(Acc),
    And(Acc),
    Or(Acc),
    Clr(Acc),
    Inc(Acc),
    Dec(Acc),
    Ldw(Wide),
    Stw(Wide),
    /// Load effective address into X, Y, U or S.
    Lea(Wide),
    Jmp,
    /// Jump to subroutine: push PC on S, then jump (JSR, BSR, LBSR).
    Jsr,
    /// Return from subroutine.
    Rts,
    /// Return from interrupt: pull CC, then the rest of the frame its E
    /// bit describes.
    Rti,
    /// Copy one register into another.
    Tfr,
    /// Swap two registers.
    Exg,
    /// Push the registers of a mask on a stack.
    Psh(Stack),
    /// Pull the registers of a mask from a stack.
    Pul(Stack),
    Branch(Cond),
}

/// The post-byte kind of an operation.
pub open spec fn postbyte_kind(op: Op) -> PostByteKind {
    match op {
        Op::Tfr | Op::Exg => PostByteKind::TransferExchange,
        Op::Psh(_) | Op::Pul(_) => PostByteKind::PushPull,
        _ => PostByteKind::NA,
    }
}

/// The post-byte kind of an operation.
pub fn postbyte_kind_of(op: Op) -> (r: PostByteKind)
    ensures
        r == postbyte_kind(op),
{
    match op {
        Op::Tfr | Op::Exg => PostByteKind::TransferExchange,
        Op::Psh(_) | Op::Pul(_) => PostByteKind::PushPull,
        _ => PostByteKind::NA,
    }
}

/// Whether `op` may move PC anywhere but past the instruction.
pub open spec fn moves_pc(op: Op) -> bool {
    op is Jmp || op is Jsr || op is Rts || op is Rti || op is Branch || op is Tfr || op is Exg || op is Pul
}

/// The static descriptor of an instruction.
#[derive(Clone, Copy, Debug, PartialEq, Eq, Structural)]
pub struct Flavor {
    pub op: Op,
    pub mode: AddressingMode,
    /// Minimum instruction size in bytes, opcode included.
    pub size: u16,
    /// Base cost in clock cycles.
    pub clk: u8,
    /// What the byte after the opcode means.
    pub pbt: PostByteKind,
}

/// A control signal that an instruction hands to the controller.
#[derive(Clone, Copy, Debug, PartialEq, Eq, Structural)]
pub enum Meta {
    Exit,
    Cwai,
    Sync,
    Interrupt(InterruptType),
}

/// One decoded instruction.
#[derive(Clone, Copy, Debug, PartialEq, Eq, Structural)]
pub struct Instance {
    /// Address of the first opcode byte.
    pub pc: u16,
    /// The opcode key.
    pub opcode: u16,
    /// Bytes the opcode takes (1, or 2 with a page prefix).
    pub opsize: u16,
    /// Bytes the whole instruction takes.
    pub size: u16,
    /// The resolved effective address.
    pub ea: u16,
    pub flavor: Flavor,
}

/// An executed instruction and the signal it raised, if any.
#[derive(Clone, Copy, Debug, PartialEq, Eq, Structural)]
pub struct Outcome {
    pub inst: Instance,
    pub meta: Option<Meta>,
}

/// Whether `b` opens a two-byte opcode.
pub open spec fn is_prefix(b: u8) -> bool {
    b == 0x10 || b == 0x11
}

/// Whether `b` is the first byte of a two-byte opcode.
pub fn is_high_byte_of_16bit_instruction(b: u8) -> (r: bool)
    ensures
        r == is_prefix(b),
{
    b == 0x10 || b == 0x11
}

/// The condition selected by the low nibble of a branch opcode.
pub open spec fn cond_of(n: u8) -> Cond {
    if n == 0 { Cond::Always }
    else if n == 1 { Cond::Never }
    else if n == 2 { Cond::Hi }
    else if n == 3 { Cond::Ls }
    else if n == 4 { Cond::CarryClear }
    else if n == 5 { Cond::CarrySet }
    else if n == 6 { Cond::Ne }
    else if n == 7 { Cond::Eq }
    else if n == 8 { Cond::Vc }
    else if n == 9 { Cond::Vs }
    else if n == 10 { Cond::Pl }
    else if n == 11 { Cond::Mi }
    else if n == 12 { Cond::Ge }
    else if n == 13 { Cond::Lt }
    else if n == 14 { Cond::Gt }
    else { Cond::Le }
}

fn cond_for(n: u8) -> (r: Cond)
    ensures
        r == cond_of(n),
{
    if n == 0 { Cond::Always }
    else if n == 1 { Cond::Never }
    else if n == 2 { Cond::Hi }
    else if n == 3 { Cond::Ls }
    else if n == 4 { Cond::CarryClear }
    else if n == 5 { Cond::CarrySet }
    else if n == 6 { Cond::Ne }
    else if n == 7 { Cond::Eq }
    else if n == 8 { Cond::Vc }
    else if n == 9 { Cond::Vs }
    else if n == 10 { Cond::Pl }
    else if n == 11 { Cond::Mi }
    else if n == 12 { Cond::Ge }
    else if n == 13 { Cond::Lt }
    else if n == 14 { Cond::Gt }
    else { Cond::Le }
}

/// The mode of a register-memory opcode from bits 4 and 5 of its high nibble
/// (immediate, direct, indexed, extended).
pub open spec fn column_mode(hi: u8) -> AddressingMode {
    if hi % 4 == 0 { AddressingMode::Immediate }
    else if hi % 4 == 1 { AddressingMode::Direct }
    else if hi % 4 == 2 { AddressingMode::Indexed }
    else { AddressingMode::Extended }
}

/// Size of a register-memory instruction: a 16-bit immediate takes three
/// bytes, extended takes three, the others two; `prefix` adds one.
pub open spec fn column_size(hi: u8, wide_imm: bool, prefix: u16) -> u16 {
    ((if hi % 4 == 3 || (hi % 4 == 0 && wide_imm) { 3u16 } else { 2u16 }) + prefix) as u16
}

/// Cycle cost of a register-memory instruction from its mode column; 16-bit
/// operands take one more, a page prefix one more again.
pub open spec fn column_clk(hi: u8, extra: u8) -> u8 {
    ((if hi % 4 == 0 { 2u8 } else if hi % 4 == 3 { 5u8 } else { 4u8 }) + extra) as u8
}

/// The descriptor of a register-memory opcode `b` (0x80 and up), if defined.
pub open spec fn column_flavor(b: u8) -> Option<Flavor> {
    let hi = b / 16;
    let lo = b % 16;
    let acc = if hi >= 12 { Acc::B } else { Acc::A };
    let mode = column_mode(hi);
    let imm = hi % 4 == 0;
    let op = if lo == 0 { Some(Op::Sub(acc)) }
        else if lo == 4 { Some(Op::And(acc)) }
        else if lo == 6 { Some(Op::Ld(acc)) }
        else if lo == 7 && !imm { Some(Op::St(acc)) }
        else if lo == 10 { Some(Op::Or(acc)) }
        else if lo == 11 { Some(Op::Add(acc)) }
        else if lo == 12 && acc == Acc::B { Some(Op::Ldw(Wide::D)) }
        else if lo == 13 && acc == Acc::B && !imm { Some(Op::Stw(Wide::D)) }
        else if lo == 13 && acc == Acc::A && !imm { Some(Op::Jsr) }
        else if lo == 14 { Some(Op::Ldw(if acc == Acc::A { Wide::X } else { Wide::U })) }
        else if lo == 15 && !imm { Some(Op::Stw(if acc == Acc::A { Wide::X } else { Wide::U })) }
        else { None };
    match op {
        None => None,
        Some(o) => {
            let wide = lo >= 12;
            Some(Flavor {
                op: o,
                mode,
                pbt: PostByteKind::NA,
                size: column_size(hi, wide, 0),
                clk: column_clk(hi, if o == Op::Jsr { 3u8 } else if wide { 1u8 } else { 0u8 }),
            })
        },
    }
}

/// The descriptor of a page-two register-memory opcode `0x10 b`: LDY, STY,
/// LDS, STS.
pub open spec fn page2_column_flavor(b: u8) -> Option<Flavor> {
    let hi = b / 16;
    let lo = b % 16;
    let imm = hi % 4 == 0;
    let reg = if hi >= 12 { Wide::S } else { Wide::Y };
    let op = if lo == 14 { Some(Op::Ldw(reg)) }
        else if lo == 15 && !imm { Some(Op::Stw(reg)) }
        else { None };
    match op {
        None => None,
        Some(o) => Some(Flavor {
            op: o,
            pbt: PostByteKind::NA,
            mode: column_mode(hi),
            size: column_size(hi, true, 1),
            clk: column_clk(hi, 2),
        }),
    }
}

/// A one-byte descriptor.
pub open spec fn fl(op: Op, mode: AddressingMode, size: u16, clk: u8) -> Option<Flavor> {
    Some(Flavor { op, mode, size, clk, pbt: postbyte_kind(op) })
}

/// The instruction table: the descriptor for each defined opcode key.
pub open spec fn flavor_of(key: u16) -> Option<Flavor> {
    if key < 0x100 {
        let b = key as u8;
        if b == 0x8D { fl(Op::Jsr, AddressingMode::Relative, 2, 7) }
        else if b >= 0x80 { column_flavor(b) }
        else if 0x20 <= b && b <= 0x2F { fl(Op::Branch(cond_of(b % 16)), AddressingMode::Relative, 2, 3) }
        else if b == 0x01 { fl(Op::Exit, AddressingMode::Inherent, 1, 1) }
        else if b == 0x0E { fl(Op::Jmp, AddressingMode::Direct, 2, 3) }
        else if b == 0x12 { fl(Op::Nop, AddressingMode::Inherent, 1, 2) }
        else if b == 0x13 { fl(Op::Sync, AddressingMode::Inherent, 1, 4) }
        else if b == 0x16 { fl(Op::Branch(Cond::Always), AddressingMode::Relative, 3, 5) }
        else if b == 0x17 { fl(Op::Jsr, AddressingMode::Relative, 3, 9) }
        else if b == 0x39 { fl(Op::Rts, AddressingMode::Inherent, 1, 5) }
        else if b == 0x3B { fl(Op::Rti, AddressingMode::Inherent, 1, 6) }
        else if b == 0x1E { fl(Op::Exg, AddressingMode::Immediate, 2, 8) }
        else if b == 0x1F { fl(Op::Tfr, AddressingMode::Immediate, 2, 6) }
        else if b == 0x34 { fl(Op::Psh(Stack::S), AddressingMode::Immediate, 2, 5) }
        else if b == 0x35 { fl(Op::Pul(Stack::S), AddressingMode::Immediate, 2, 5) }
        else if b == 0x36 { fl(Op::Psh(Stack::U), AddressingMode::Immediate, 2, 5) }
        else if b == 0x37 { fl(Op::Pul(Stack::U), AddressingMode::Immediate, 2, 5) }
        else if b == 0x1A { fl(Op::OrCc, AddressingMode::Immediate, 2, 3) }
        else if b == 0x1C { fl(Op::AndCc, AddressingMode::Immediate, 2, 3) }
        else if b == 0x30 { fl(Op::Lea(Wide::X), AddressingMode::Indexed, 2, 4) }
        else if b == 0x31 { fl(Op::Lea(Wide::Y), AddressingMode::Indexed, 2, 4) }
        else if b == 0x32 { fl(Op::Lea(Wide::S), AddressingMode::Indexed, 2, 4) }
        else if b == 0x33 { fl(Op::Lea(Wide::U), AddressingMode::Indexed, 2, 4) }
        else if b == 0x3C { fl(Op::Cwai, AddressingMode::Immediate, 2, 20) }
        else if b == 0x3F { fl(Op::Swi, AddressingMode::Inherent, 1, 19) }
        else if b == 0x4A { fl(Op::Dec(Acc::A), AddressingMode::Inherent, 1, 2) }
        else if b == 0x4C { fl(Op::Inc(Acc::A), AddressingMode::Inherent, 1, 2) }
        else if b == 0x4F { fl(Op::Clr(Acc::A), AddressingMode::Inherent, 1, 2) }
        else if b == 0x5A { fl(Op::Dec(Acc::B), AddressingMode::Inherent, 1, 2) }
        else if b == 0x5C { fl(Op::Inc(Acc::B), AddressingMode::Inherent, 1, 2) }
        else if b == 0x5F { fl(Op::Clr(Acc::B), AddressingMode::Inherent, 1, 2) }
        else if b == 0x6E { fl(Op::Jmp, AddressingMode::Indexed, 2, 3) }
        else if b == 0x7E { fl(Op::Jmp, AddressingMode::Extended, 3, 4) }
        else { None }
    } else if key / 256 == 0x10 {
        let b = (key % 256) as u8;
        if b >= 0x80 { page2_column_flavor(b) }
        else if 0x21 <= b && b <= 0x2F { fl(Op::Branch(cond_of(b % 16)), AddressingMode::Relative, 4, 5) }
        else if b == 0x3F { fl(Op::Swi2, AddressingMode::Inherent, 2, 20) }
        else { None }
    } else if key == 0x113F {
        fl(Op::Swi3, AddressingMode::Inherent, 2, 20)
    } else {
        None
    }
}

fn column_mode_of(hi: u8) -> (r: AddressingMode)
    ensures
        r == column_mode(hi),
{
    if hi % 4 == 0 { AddressingMode::Immediate }
    else if hi % 4 == 1 { AddressingMode::Direct }
    else if hi % 4 == 2 { AddressingMode::Indexed }
    else { AddressingMode::Extended }
}

fn column_size_of(hi: u8, wide_imm: bool, prefix: u16) -> (r: u16)
    requires
        prefix <= 1,
    ensures
        r == column_size(hi, wide_imm, prefix),
{
    (if hi % 4 == 3 || (hi % 4 == 0 && wide_imm) { 3u16 } else { 2u16 }) + prefix
}

fn column_clk_of(hi: u8, extra: u8) -> (r: u8)
    requires
        extra <= 3,
    ensures
        r == column_clk(hi, extra),
{
    (if hi % 4 == 0 { 2u8 } else if hi % 4 == 3 { 5u8 } else { 4u8 }) + extra
}

fn column_flavor_of(b: u8) -> (r: Option<Flavor>)
    ensures
        r == column_flavor(b),
{
    let hi = b / 16;
    let lo = b % 16;
    let acc = if hi >= 12 { Acc::B } else { Acc::A };
    let is_a = hi < 12;
    let mode = column_mode_of(hi);
    let imm = hi % 4 == 0;
    let op = if lo == 0 { Some(Op::Sub(acc)) }
        else if lo == 4 { Some(Op::And(acc)) }
        else if lo == 6 { Some(Op::Ld(acc)) }
        else if lo == 7 && !imm { Some(Op::St(acc)) }
        else if lo == 10 { Some(Op::Or(acc)) }
        else if lo == 11 { Some(Op::Add(acc)) }
        else if lo == 12 && !is_a { Some(Op::Ldw(Wide::D)) }
        else if lo == 13 && !is_a && !imm { Some(Op::Stw(Wide::D)) }
        else if lo == 13 && is_a && !imm { Some(Op::Jsr) }
        else if lo == 14 { Some(Op::Ldw(if is_a { Wide::X } else { Wide::U })) }
        else if lo == 15 && !imm { Some(Op::Stw(if is_a { Wide::X } else { Wide::U })) }
        else { None };
    match op {
        None => None,
        Some(o) => {
            let wide = lo >= 12;
            let is_jsr = lo == 13 && is_a;
            Some(Flavor {
                op: o,
                mode,
                pbt: PostByteKind::NA,
                size: column_size_of(hi, wide, 0),
                clk: column_clk_of(hi, if is_jsr { 3u8 } else if wide { 1u8 } else { 0u8 }),
            })
        },
    }
}

fn page2_column_flavor_of(b: u8) -> (r: Option<Flavor>)
    ensures
        r == page2_column_flavor(b),
{
    let hi = b / 16;
    let lo = b % 16;
    let imm = hi % 4 == 0;
    let reg = if hi >= 12 { Wide::S } else { Wide::Y };
    let op = if lo == 14 { Some(Op::Ldw(reg)) }
        else if lo == 15 && !imm { Some(Op::Stw(reg)) }
        else { None };
    match op {
        None => None,
        Some(o) => Some(Flavor {
            op: o,
            pbt: PostByteKind::NA,
            mode: column_mode_of(hi),
            size: column_size_of(hi, true, 1),
            clk: column_clk_of(hi, 2),
        }),
    }
}

fn flv(op: Op, mode: AddressingMode, size: u16, clk: u8) -> (r: Option<Flavor>)
    ensures
        r == fl(op, mode, size, clk),
{
    Some(Flavor { op, mode, size, clk, pbt: postbyte_kind_of(op) })
}

/// Looks up the descriptor of an opcode key.
pub fn opcode_to_flavor(key: u16) -> (r: Option<Flavor>)
    ensures
        r == flavor_of(key),
{
    if key < 0x100 {
        let b = key as u8;
        if b == 0x8D { flv(Op::Jsr, AddressingMode::Relative, 2, 7) }
        else if b >= 0x80 { column_flavor_of(b) }
        else if 0x20 <= b && b <= 0x2F { flv(Op::Branch(cond_for(b % 16)), AddressingMode::Relative, 2, 3) }
        else if b == 0x01 { flv(Op::Exit, AddressingMode::Inherent, 1, 1) }
        else if b == 0x0E { flv(Op::Jmp, AddressingMode::Direct, 2, 3) }
        else if b == 0x12 { flv(Op::Nop, AddressingMode::Inherent, 1, 2) }
        else if b == 0x13 { flv(Op::Sync, AddressingMode::Inherent, 1, 4) }
        else if b == 0x16 { flv(Op::Branch(Cond::Always), AddressingMode::Relative, 3, 5) }
        else if b == 0x17 { flv(Op::Jsr, AddressingMode::Relative, 3, 9) }
        else if b == 0x39 { flv(Op::Rts, AddressingMode::Inherent, 1, 5) }
        else if b == 0x3B { flv(Op::Rti, AddressingMode::Inherent, 1, 6) }
        else if b == 0x1E { flv(Op::Exg, AddressingMode::Immediate, 2, 8) }
        else if b == 0x1F { flv(Op::Tfr, AddressingMode::Immediate, 2, 6) }
        else if b == 0x34 { flv(Op::Psh(Stack::S), AddressingMode::Immediate, 2, 5) }
        else if b == 0x35 { flv(Op::Pul(Stack::S), AddressingMode::Immediate, 2, 5) }
        else if b == 0x36 { flv(Op::Psh(Stack::U), AddressingMode::Immediate, 2, 5) }
        else if b == 0x37 { flv(Op::Pul(Stack::U), AddressingMode::Immediate, 2, 5) }
        else if b == 0x1A { flv(Op::OrCc, AddressingMode::Immediate, 2, 3) }
        else if b == 0x1C { flv(Op::AndCc, AddressingMode::Immediate, 2, 3) }
        else if b == 0x30 { flv(Op::Lea(Wide::X), AddressingMode::Indexed, 2, 4) }
        else if b == 0x31 { flv(Op::Lea(Wide::Y), AddressingMode::Indexed, 2, 4) }
        else if b == 0x32 { flv(Op::Lea(Wide::S), AddressingMode::Indexed, 2, 4) }
        else if b == 0x33 { flv(Op::Lea(Wide::U), AddressingMode::Indexed, 2, 4) }
        else if b == 0x3C { flv(Op::Cwai, AddressingMode::Immediate, 2, 20) }
        else if b == 0x3F { flv(Op::Swi, AddressingMode::Inherent, 1, 19) }
        else if b == 0x4A { flv(Op::Dec(Acc::A), AddressingMode::Inherent, 1, 2) }
        else if b == 0x4C { flv(Op::Inc(Acc::A), AddressingMode::Inherent, 1, 2) }
        else if b == 0x4F { flv(Op::Clr(Acc::A), AddressingMode::Inherent, 1, 2) }
        else if b == 0x5A { flv(Op::Dec(Acc::B), AddressingMode::Inherent, 1, 2) }
        else if b == 0x5C { flv(Op::Inc(Acc::B), AddressingMode::Inherent, 1, 2) }
        else if b == 0x5F { flv(Op::Clr(Acc::B), AddressingMode::Inherent, 1, 2) }
        else if b == 0x6E { flv(Op::Jmp, AddressingMode::Indexed, 2, 3) }
        else if b == 0x7E { flv(Op::Jmp, AddressingMode::Extended, 3, 4) }
        else { None }
    } else if key / 256 == 0x10 {
        let b = (key % 256) as u8;
        if b >= 0x80 { page2_column_flavor_of(b) }
        else if 0x21 <= b && b <= 0x2F { flv(Op::Branch(cond_for(b % 16)), AddressingMode::Relative, 4, 5) }
        else if b == 0x3F { flv(Op::Swi2, AddressingMode::Inherent, 2, 20) }
        else { None }
    } else if key == 0x113F {
        flv(Op::Swi3, AddressingMode::Inherent, 2, 20)
    } else {
        None
    }
}

/// Every descriptor in the table is at least as long as its opcode and at
/// most four bytes.
pub proof fn lemma_flavor_sizes(key: u16)
    ensures
        flavor_of(key) matches Some(f) ==> 1 <= f.size <= 4 && (key >= 0x100 ==> f.size >= 2),
{
}

/// Bytes the opcode of `key` takes: two with a page prefix, else one.
pub open spec fn key_size(key: u16) -> u16 {
    if key < 0x100 { 1 } else { 2 }
}

/// Every descriptor's minimum size is its opcode plus the operand bytes its
/// mode reads: one for direct and for the indexed post-byte, two for
/// extended, none for inherent, one or two for relative and immediate.
pub proof fn lemma_flavor_shape(key: u16)
    ensures
        flavor_of(key) matches Some(f) ==> {
            let k = key_size(key);
            &&& f.mode == AddressingMode::Direct ==> f.size == k + 1
            &&& f.mode == AddressingMode::Extended ==> f.size == k + 2
            &&& f.mode == AddressingMode::Inherent ==> f.size == k
            &&& f.mode == AddressingMode::Indexed ==> f.size == k + 1
            &&& f.mode == AddressingMode::Relative ==> f.size == k + 1 || f.size == k + 2
            &&& f.mode == AddressingMode::Immediate ==> f.size == k + 1 || f.size == k + 2
        },
{
}

} // verus!
