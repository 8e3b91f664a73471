//! Program images handed to the core by outside loaders: records of a hex
//! file, and assembled programs made of byte objects.
use vstd::prelude::*;

verus! {

/// The kind of a hex record.
#[derive(Clone, Copy, Debug, PartialEq, Eq, Structural)]
pub enum HexRecordType {
    Data,
    EndOfFile,
    ExtendedSegmentAddress,
    StartSegmentAddress,
    ExtendedLinearAddress,
    StartLinearAddress,
}

/// One record of a hex file.
#[derive(Debug)]
pub struct HexRecord {
    pub record_type: HexRecordType,
    pub address: u16,
    pub data: Vec<u8>,
}

/// Bytes to be placed at an address.
#[derive(Debug)]
pub struct ByteObject {
    pub addr: u16,
    pub bytes: Vec<u8>,
}

/// One line of an assembled program; it may carry a byte object.
#[derive(Debug)]
pub struct ProgramLine {
    pub obj: Option<ByteObject>,
}

/// An assembled program.
#[derive(Debug)]
pub struct Program {
    pub lines: Vec<ProgramLine>,
}

} // verus!
