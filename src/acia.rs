//! A serial-interface chip (ACIA) seen through its two registers: a
//! control/status register at its base address and a data register after it.
use vstd::prelude::*;
use crate::error::Error;

verus! {

/// Status bit: the receive data register holds a byte.
pub const RDRF: u8 = 0b00000001;
/// Status bit: the transmit data register is empty.
pub const TDRE: u8 = 0b00000010;

pub struct Acia {
    pub addr: u16,
    /// The byte received and not yet read, if any.
    pub recv_cache: Option<u8>,
    /// How many terminals are attached.
    pub tty_count: i32,
}

/// The status byte for a chip with `pending` data and `ttys` terminals.
pub open spec fn status_of(pending: bool, ttys: i32) -> u8 {
    (if pending { RDRF } else { 0u8 }) | (if ttys > 0 { TDRE } else { 0u8 })
}

impl Acia {
    /// The base address leaves room for the data register after it.
    pub open spec fn wf(&self) -> bool {
        self.addr < 0xFFFF
    }

    pub fn control_register_address(&self) -> (r: u16)
        ensures
            r == self.addr,
    {
        self.addr
    }

    pub fn status_register_address(&self) -> (r: u16)
        ensures
            r == self.addr,
    {
        self.addr
    }

    pub fn data_register_address(&self) -> (r: u16)
        requires
            self.wf(),
        ensures
            r == self.addr + 1,
    {
        self.addr + 1
    }

    /// Whether `addr` is one of the chip's two registers.
    pub fn owns_address(&self, addr: u16) -> (r: bool)
        requires
            self.wf(),
        ensures
            r == (addr == self.addr || addr == self.addr + 1),
    {
        addr == self.addr || addr == (self.addr + 1)
    }

    /// Writes are accepted and have no effect: control settings are not
    /// modelled and transmitted data goes nowhere.
    pub fn write(&mut self, _addr: u16, _byte: u8) -> (r: Result<(), Error>)
        ensures
            r is Ok,
            *final(self) == *old(self),
    {
        Ok(())
    }

    /// Reads the status register (RDRF when a byte waits, TDRE when a terminal
    /// is attached) or the data register (the waiting byte, which is consumed,
    /// or zero when none waits).
    pub fn read(&mut self, addr: u16) -> (r: Result<u8, Error>)
        requires
            old(self).wf(),
            addr == old(self).addr || addr == old(self).addr + 1,
        ensures
            addr == old(self).addr ==> r == Ok::<u8, Error>(
                status_of(old(self).recv_cache is Some, old(self).tty_count),
            ) && *final(self) == *old(self),
            addr != old(self).addr ==> r == Ok::<u8, Error>(
                match old(self).recv_cache {
                    Some(b) => b,
                    None => 0u8,
                },
            ) && final(self).recv_cache is None && final(self).addr == old(self).addr
                && final(self).tty_count == old(self).tty_count,
    {
        if addr == self.status_register_address() {
            let pending: u8 = if self.recv_cache.is_some() { RDRF } else { 0 };
            let ready: u8 = if self.tty_count > 0 { TDRE } else { 0 };
            let flags = pending | ready;
            Ok(flags)
        } else {
            match self.recv_cache.take() {
                Some(byte) => Ok(byte),
                None => Ok(0),
            }
        }
    }

    /// A chip at `addr` with nothing received and no terminal attached.
    pub fn new(addr: u16) -> (r: Result<Acia, Error>)
        requires
            addr < 0xFFFF,
        ensures
            r matches Ok(a) && a.addr == addr && a.recv_cache is None && a.tty_count == 0 && a.wf(),
    {
        Ok(Acia { addr, recv_cache: None, tty_count: 0 })
    }
}

} // verus!
