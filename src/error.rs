//! Errors returned by the core. Every failure, including the ones a host
//! would treat as fatal, comes back as a value.
use vstd::prelude::*;

verus! {

/// The broad class of a failure.
#[derive(Clone, Copy, Debug, PartialEq, Eq, Structural)]
pub enum ErrorKind {
    /// Capacity or bounds violation on load or access.
    Memory,
    /// Illegal addressing-mode encoding.
    Syntax,
    /// Unknown opcode, PC overflow, stack underflow, corrupt vector, unknown
    /// register code.
    Runtime,
    /// Deliberate termination; not a true failure.
    Exit,
    /// Malformed program-input framing.
    General,
}

/// What exactly went wrong, with the values that identify it.
#[derive(Clone, Copy, Debug, PartialEq, Eq, Structural)]
pub enum Fault {
    /// A memory access at `addr` fell outside the RAM array.
    OutOfBounds { addr: u16 },
    /// A loaded object of `size` bytes at `addr` does not fit in RAM.
    RamOverflow { size: usize, addr: u16 },
    /// Indirection was requested on a single-step auto increment/decrement.
    IllegalIndirect { postbyte: u8, pc: u16 },
    /// An indexed post-byte that names no addressing sub-mode.
    InvalidPostByte { postbyte: u8, pc: u16 },
    /// No instruction is defined for `opcode`.
    BadInstruction { opcode: u16, pc: u16 },
    /// Program-counter arithmetic would pass the top of the address space.
    PcOverflow { pc: u16 },
    /// A push would move the system stack pointer below zero.
    StackOverflow { s: u16 },
    /// The interrupt vector at `vector` points at a zero byte.
    CorruptVector { vector: u16 },
    /// A transfer/exchange post-byte names no register.
    InvalidRegister { postbyte: u8 },
    /// The program ran the EXIT pseudo-instruction.
    ExitInstruction { pc: u16 },
    /// Record-oriented input had no end-of-file record.
    MissingEndRecord,
}

/// The kind that goes with each fault.
pub open spec fn kind_of(f: Fault) -> ErrorKind {
    match f {
        Fault::OutOfBounds { .. } => ErrorKind::Memory,
        Fault::RamOverflow { .. } => ErrorKind::Memory,
        Fault::IllegalIndirect { .. } => ErrorKind::Syntax,
        Fault::InvalidPostByte { .. } => ErrorKind::Syntax,
        Fault::BadInstruction { .. } => ErrorKind::Runtime,
        Fault::PcOverflow { .. } => ErrorKind::Runtime,
        Fault::StackOverflow { .. } => ErrorKind::Runtime,
        Fault::CorruptVector { .. } => ErrorKind::Runtime,
        Fault::InvalidRegister { .. } => ErrorKind::Runtime,
        Fault::ExitInstruction { .. } => ErrorKind::Exit,
        Fault::MissingEndRecord => ErrorKind::General,
    }
}

/// A failure: its kind and the fault behind it.
#[derive(Clone, Copy, Debug, PartialEq, Eq, Structural)]
pub struct Error {
    pub kind: ErrorKind,
    pub fault: Fault,
}

/// The error value that reports `f`.
pub open spec fn err(f: Fault) -> Error {
    Error { kind: kind_of(f), fault: f }
}

impl Error {
    /// Builds the error that reports `fault`, with its kind.
    pub fn new(fault: Fault) -> (r: Error)
        ensures
            r == err(fault),
    {
        let kind = match fault {
            Fault::OutOfBounds { .. } => ErrorKind::Memory,
            Fault::RamOverflow { .. } => ErrorKind::Memory,
            Fault::IllegalIndirect { .. } => ErrorKind::Syntax,
            Fault::InvalidPostByte { .. } => ErrorKind::Syntax,
            Fault::BadInstruction { .. } => ErrorKind::Runtime,
            Fault::PcOverflow { .. } => ErrorKind::Runtime,
            Fault::StackOverflow { .. } => ErrorKind::Runtime,
            Fault::CorruptVector { .. } => ErrorKind::Runtime,
            Fault::InvalidRegister { .. } => ErrorKind::Runtime,
            Fault::ExitInstruction { .. } => ErrorKind::Exit,
            Fault::MissingEndRecord => ErrorKind::General,
        };
        Error { kind, fault }
    }
}

} // verus!
