//! The memory gateway: tagged byte and word access to the flat RAM array.
//! System-class accesses to the top page are remapped to a fixed alias page.
use vstd::prelude::*;
use crate::error::{err, Error, Fault};

verus! {

/// The class of a memory transaction.
#[derive(Clone, Copy, Debug, PartialEq, Eq, Structural)]
pub enum AccessClass {
    /// Instruction and operand fetch.
    Program,
    /// Vector fetch and interrupt stacking.
    System,
    /// Everything else.
    Generic,
}

/// First address of the top page that System accesses remap.
pub const TOP_PAGE: u16 = 0xFF00;
/// Distance from the top page down to its alias.
pub const ALIAS_DISTANCE: u16 = 0x4000;

/// The array index that an access of `class` at `addr` touches.
pub open spec fn phys(class: AccessClass, addr: u16) -> int {
    if class == AccessClass::System && addr >= TOP_PAGE {
        addr - ALIAS_DISTANCE
    } else {
        addr as int
    }
}

/// The error for an access at `addr` outside the array.
pub open spec fn oob(addr: u16) -> Error {
    err(Fault::OutOfBounds { addr })
}

/// The byte read by an access of `class` at `addr`.
pub open spec fn read8_spec(ram: Seq<u8>, class: AccessClass, addr: u16) -> Result<u8, Error> {
    if phys(class, addr) < ram.len() {
        Ok(ram[phys(class, addr)])
    } else {
        Err(oob(addr))
    }
}

/// The big-endian word read at `addr` and `addr + 1`.
pub open spec fn read16_spec(ram: Seq<u8>, class: AccessClass, addr: u16) -> Result<u16, Error> {
    if addr == 0xFFFF {
        Err(oob(addr))
    } else {
        match read8_spec(ram, class, addr) {
            Err(e) => Err(e),
            Ok(hi) => match read8_spec(ram, class, (addr + 1) as u16) {
                Err(e) => Err(e),
                Ok(lo) => Ok((hi as int * 256 + lo as int) as u16),
            },
        }
    }
}

/// The array after writing `v` by an access of `class` at `addr`.
pub open spec fn write8_spec(ram: Seq<u8>, class: AccessClass, addr: u16, v: u8) -> Result<
    Seq<u8>,
    Error,
> {
    if phys(class, addr) < ram.len() {
        Ok(ram.update(phys(class, addr), v))
    } else {
        Err(oob(addr))
    }
}

/// The array after writing the big-endian word `v` at `addr` and `addr + 1`.
pub open spec fn write16_spec(ram: Seq<u8>, class: AccessClass, addr: u16, v: u16) -> Result<
    Seq<u8>,
    Error,
> {
    if addr == 0xFFFF {
        Err(oob(addr))
    } else if phys(class, addr) < ram.len() && phys(class, (addr + 1) as u16) < ram.len() {
        Ok(ram.update(phys(class, addr), (v / 256) as u8).update(phys(class, (addr + 1) as u16), (v % 256) as u8))
    } else if phys(class, addr) < ram.len() {
        Err(oob((addr + 1) as u16))
    } else {
        Err(oob(addr))
    }
}

fn phys_index(class: AccessClass, addr: u16) -> (r: usize)
    ensures
        r == phys(class, addr),
{
    match class {
        AccessClass::System => if addr >= TOP_PAGE {
            (addr - ALIAS_DISTANCE) as usize
        } else {
            addr as usize
        },
        _ => addr as usize,
    }
}

/// Reads one byte.
pub fn read_u8(ram: &Vec<u8>, class: AccessClass, addr: u16) -> (r: Result<u8, Error>)
    ensures
        r == read8_spec(ram@, class, addr),
{
    let p = phys_index(class, addr);
    if p < ram.len() {
        Ok(ram[p])
    } else {
        Err(Error::new(Fault::OutOfBounds { addr }))
    }
}

/// Reads a big-endian word.
pub fn read_u16(ram: &Vec<u8>, class: AccessClass, addr: u16) -> (r: Result<u16, Error>)
    ensures
        r == read16_spec(ram@, class, addr),
{
    if addr == 0xFFFF {
        return Err(Error::new(Fault::OutOfBounds { addr }));
    }
    let hi = match read_u8(ram, class, addr) {
        Ok(v) => v,
        Err(e) => return Err(e),
    };
    let lo = match read_u8(ram, class, addr + 1) {
        Ok(v) => v,
        Err(e) => return Err(e),
    };
    Ok((hi as u16) * 256 + lo as u16)
}

/// Writes one byte; out of bounds, nothing is written.
pub fn write_u8(ram: &mut Vec<u8>, class: AccessClass, addr: u16, v: u8) -> (r: Result<(), Error>)
    ensures
        match write8_spec(old(ram)@, class, addr, v) {
            Ok(m) => r is Ok && final(ram)@ == m,
            Err(e) => r == Err::<(), Error>(e) && final(ram)@ == old(ram)@,
        },
{
    let p = phys_index(class, addr);
    if p < ram.len() {
        ram.set(p, v);
        Ok(())
    } else {
        Err(Error::new(Fault::OutOfBounds { addr }))
    }
}

/// Writes a big-endian word; when either byte is out of bounds, nothing is written.
pub fn write_u16(ram: &mut Vec<u8>, class: AccessClass, addr: u16, v: u16) -> (r: Result<(), Error>)
    ensures
        match write16_spec(old(ram)@, class, addr, v) {
            Ok(m) => r is Ok && final(ram)@ == m,
            Err(e) => r == Err::<(), Error>(e) && final(ram)@ == old(ram)@,
        },
{
    if addr == 0xFFFF {
        return Err(Error::new(Fault::OutOfBounds { addr }));
    }
    let p0 = phys_index(class, addr);
    let p1 = phys_index(class, addr + 1);
    if p0 >= ram.len() {
        return Err(Error::new(Fault::OutOfBounds { addr }));
    }
    if p1 >= ram.len() {
        return Err(Error::new(Fault::OutOfBounds { addr: addr + 1 }));
    }
    ram.set(p0, (v / 256) as u8);
    ram.set(p1, (v % 256) as u8);
    Ok(())
}

} // verus!
