//! Loading program images into RAM. A load that would pass the end of RAM
//! fails with a Memory error before touching RAM, so bytes loaded earlier
//! stay as they are.
use vstd::prelude::*;
use crate::cpu::{only_load_changed, Core};
use crate::error::{err, Error, ErrorKind, Fault};
use crate::program::{ByteObject, HexRecord, HexRecordType, Program, ProgramLine};
use crate::memory::{write16_spec, AccessClass};
use crate::runtime::RESET_VECTOR;

verus! {

/// `ram` with `data` written from index `addr` on.
pub open spec fn splice(ram: Seq<u8>, addr: int, data: Seq<u8>) -> Seq<u8> {
    Seq::new(ram.len(), |j: int| if addr <= j < addr + data.len() { data[j - addr] } else { ram[j] })
}

/// A byte count added to a 16-bit extent, wrapping.
pub open spec fn add_extent(e: u16, n: nat) -> u16 {
    ((e + n % 65536) % 65536) as u16
}

/// Whether writing `n` bytes at `addr` reaches at or above `top`.
pub open spec fn reaches_rom(addr: u16, n: nat, top: u16) -> bool {
    n > 0 && addr + n > top
}

/// Loading hex records from index `i` on into `ram`, having counted `extent`
/// bytes so far: the result (the extent, or the error), the RAM after it, and
/// whether a byte landed at or above `top`. Data records are written;
/// the end-of-file record stops; other kinds are skipped.
pub open spec fn load_hex_spec(ram: Seq<u8>, top: u16, recs: Seq<HexRecord>, i: nat, extent: u16, rom: bool) -> (
    Result<u16, Error>,
    Seq<u8>,
    bool,
)
    decreases recs.len() - i,
{
    if i >= recs.len() {
        (Err(err(Fault::MissingEndRecord)), ram, rom)
    } else {
        let rec = recs[i as int];
        match rec.record_type {
            HexRecordType::EndOfFile => (Ok(extent), ram, rom),
            HexRecordType::Data => {
                let n = rec.data@.len();
                if rec.address + n > ram.len() {
                    (Err(err(Fault::RamOverflow { size: n as usize, addr: rec.address })), ram, rom)
                } else {
                    load_hex_spec(
                        splice(ram, rec.address as int, rec.data@),
                        top,
                        recs,
                        i + 1,
                        add_extent(extent, n),
                        rom || reaches_rom(rec.address, n, top),
                    )
                }
            },
            _ => load_hex_spec(ram, top, recs, i + 1, extent, rom),
        }
    }
}

/// The objects of program lines from index `i` on, written into `ram`, having
/// counted `extent` bytes so far: the result, the RAM after it, and whether a
/// byte landed at or above `top`.
pub open spec fn load_objects_spec(ram: Seq<u8>, top: u16, lines: Seq<ProgramLine>, i: nat, extent: u16, rom: bool) -> (
    Result<u16, Error>,
    Seq<u8>,
    bool,
)
    decreases lines.len() - i,
{
    if i >= lines.len() {
        (Ok(extent), ram, rom)
    } else {
        match lines[i as int].obj {
            None => load_objects_spec(ram, top, lines, i + 1, extent, rom),
            Some(o) => {
                let n = o.bytes@.len();
                if o.addr + n > ram.len() {
                    (Err(err(Fault::RamOverflow { size: n as usize, addr: o.addr })), ram, rom)
                } else {
                    load_objects_spec(
                        splice(ram, o.addr as int, o.bytes@),
                        top,
                        lines,
                        i + 1,
                        add_extent(extent, n),
                        rom || reaches_rom(o.addr, n, top),
                    )
                }
            },
        }
    }
}

/// Whether a hex record can be loaded into `len` bytes of RAM: it is not a
/// data record, or its bytes end inside RAM.
pub open spec fn record_fits(len: nat, rec: HexRecord) -> bool {
    rec.record_type != HexRecordType::Data || rec.address + rec.data@.len() <= len
}

/// `ram` after writing the data records from index `i` up to `j`.
pub open spec fn write_records(ram: Seq<u8>, recs: Seq<HexRecord>, i: nat, j: nat) -> Seq<u8>
    decreases j - i,
{
    if i >= j {
        ram
    } else {
        let rec = recs[i as int];
        write_records(
            if rec.record_type == HexRecordType::Data {
                splice(ram, rec.address as int, rec.data@)
            } else {
                ram
            },
            recs,
            i + 1,
            j,
        )
    }
}

/// A hex load that reaches a data record passing the end of RAM fails with
/// a Memory error naming that record, and RAM then holds exactly what the
/// records before it wrote: the failing record writes nothing, and nothing
/// loaded before it is disturbed.
pub proof fn lemma_hex_overflow_keeps_loaded(ram: Seq<u8>, top: u16, recs: Seq<HexRecord>, k: nat)
    requires
        k < recs.len(),
        recs[k as int].record_type == HexRecordType::Data,
        recs[k as int].address + recs[k as int].data@.len() > ram.len(),
        forall|i: int| 0 <= i < k ==> #[trigger] recs[i].record_type != HexRecordType::EndOfFile && record_fits(ram.len(), recs[i]),
    ensures
        load_hex_spec(ram, top, recs, 0, 0, false).0 == Err::<u16, Error>(
            err(Fault::RamOverflow { size: recs[k as int].data@.len() as usize, addr: recs[k as int].address }),
        ),
        load_hex_spec(ram, top, recs, 0, 0, false).1 == write_records(ram, recs, 0, k),
        load_hex_spec(ram, top, recs, 0, 0, false).0 matches Err(e) && e.kind == ErrorKind::Memory,
{
    lemma_hex_overflow_from(ram, ram.len(), top, recs, 0, k, 0, false);
}

proof fn lemma_hex_overflow_from(ram: Seq<u8>, len: nat, top: u16, recs: Seq<HexRecord>, i: nat, k: nat, extent: u16, rom: bool)
    requires
        i <= k < recs.len(),
        ram.len() == len,
        recs[k as int].record_type == HexRecordType::Data,
        recs[k as int].address + recs[k as int].data@.len() > len,
        forall|q: int| 0 <= q < k ==> #[trigger] recs[q].record_type != HexRecordType::EndOfFile && record_fits(len, recs[q]),
    ensures
        load_hex_spec(ram, top, recs, i, extent, rom).0 == Err::<u16, Error>(
            err(Fault::RamOverflow { size: recs[k as int].data@.len() as usize, addr: recs[k as int].address }),
        ),
        load_hex_spec(ram, top, recs, i, extent, rom).1 == write_records(ram, recs, i, k),
    decreases k - i,
{
    if i < k {
        let rec = recs[i as int];
        assert(rec.record_type != HexRecordType::EndOfFile && record_fits(len, rec));
        if rec.record_type == HexRecordType::Data {
            let n = rec.data@.len();
            lemma_hex_overflow_from(
                splice(ram, rec.address as int, rec.data@),
                len,
                top,
                recs,
                i + 1,
                k,
                add_extent(extent, n),
                rom || reaches_rom(rec.address, n, top),
            );
        } else {
            lemma_hex_overflow_from(ram, len, top, recs, i + 1, k, extent, rom);
        }
    }
}

/// The error for the first program line, from index `i` on, whose object
/// would pass the end of `len` bytes of RAM, if there is one.
pub open spec fn first_overflow(len: nat, lines: Seq<ProgramLine>, i: nat) -> Option<Fault>
    decreases lines.len() - i,
{
    if i >= lines.len() {
        None
    } else {
        match lines[i as int].obj {
            Some(o) => if o.addr + o.bytes@.len() > len {
                Some(Fault::RamOverflow { size: o.bytes@.len() as usize, addr: o.addr })
            } else {
                first_overflow(len, lines, i + 1)
            },
            None => first_overflow(len, lines, i + 1),
        }
    }
}

/// A program with an object passing the end of RAM is refused with a
/// Memory error; by the contract of `load_program` such a load writes
/// nothing, so every byte loaded before it stays.
pub proof fn lemma_objects_overflow_refused(len: nat, lines: Seq<ProgramLine>, k: nat)
    requires
        k < lines.len(),
        lines[k as int].obj matches Some(o) && o.addr + o.bytes@.len() > len,
    ensures
        first_overflow(len, lines, 0) matches Some(f) && err(f).kind == ErrorKind::Memory,
{
    lemma_overflow_found_from(len, lines, 0, k);
}

proof fn lemma_overflow_found_from(len: nat, lines: Seq<ProgramLine>, i: nat, k: nat)
    requires
        i <= k < lines.len(),
        lines[k as int].obj matches Some(o) && o.addr + o.bytes@.len() > len,
    ensures
        first_overflow(len, lines, i) matches Some(f) && err(f).kind == ErrorKind::Memory,
    decreases k - i,
{
    if i < k {
        lemma_overflow_found_from(len, lines, i + 1, k);
    }
}

/// Writes `data` into `ram` from index `addr` on.
fn copy_into(ram: &mut Vec<u8>, addr: usize, data: &Vec<u8>)
    requires
        addr + data@.len() <= old(ram)@.len(),
    ensures
        final(ram)@ == splice(old(ram)@, addr as int, data@),
{
    let ghost before = ram@;
    let total = ram.len();
    let mut j: usize = 0;
    while j < data.len()
        invariant
            total == before.len(),
            addr + data@.len() <= before.len(),
            ram@.len() == before.len(),
            j <= data@.len(),
            forall|q: int|
                0 <= q < ram@.len() ==> #[trigger] ram@[q] == if addr <= q < addr + j {
                    data@[q - addr]
                } else {
                    before[q]
                },
        decreases data@.len() - j,
    {
        ram.set(addr + j, data[j]);
        j = j + 1;
    }
    assert(ram@ =~= splice(before, addr as int, data@));
}

fn extent_plus(e: u16, n: usize) -> (r: u16)
    ensures
        r == add_extent(e, n as nat),
{
    ((e as usize + n % 65536) % 65536) as u16
}

fn rom_reached(addr: u16, n: usize, top: u16) -> (r: bool)
    ensures
        r == reaches_rom(addr, n as nat, top),
{
    if n == 0 {
        false
    } else if addr > top {
        true
    } else {
        n > (top - addr) as usize
    }
}

impl Core {
    /// The error for the first program line whose object would pass the end
    /// of RAM, if there is one.
    fn find_overflow(&self, lines: &Vec<ProgramLine>) -> (r: Option<Fault>)
        ensures
            r == first_overflow(self.ram@.len(), lines@, 0),
    {
        let mut i: usize = 0;
        while i < lines.len()
            invariant
                i <= lines@.len(),
                first_overflow(self.ram@.len(), lines@, 0) == first_overflow(self.ram@.len(), lines@, i as nat),
            decreases lines@.len() - i,
        {
            match &lines[i].obj {
                Some(o) => {
                    let n = o.bytes.len();
                    if o.addr as usize > self.ram.len() || n > self.ram.len() - o.addr as usize {
                        return Some(Fault::RamOverflow { size: n, addr: o.addr });
                    }
                },
                None => {},
            }
            i = i + 1;
        }
        None
    }

    /// Copies hex records into RAM: data records are written in order, the
    /// end-of-file record ends the load, other kinds are skipped. Returns the
    /// number of bytes loaded. A data record that would pass the end of RAM
    /// fails with a Memory error and is not written; records without an
    /// end-of-file record fail with a General error. `rom_write` records
    /// whether a byte landed at or above `ram_top`.
    pub fn load_hex(&mut self, hex: &Vec<HexRecord>) -> (r: Result<u16, Error>)
        ensures
            ({
                let (res, ram2, rom) = load_hex_spec(old(self).ram@, old(self).ram_top, hex@, 0, 0, false);
                &&& r == res
                &&& final(self).ram@ == ram2
                &&& final(self).rom_write == (old(self).rom_write || rom)
            }),
            only_load_changed(*final(self), *old(self)),
    {
        let ghost r0 = self.ram@;
        let ghost w0 = self.rom_write;
        let mut extent: u16 = 0;
        let mut rom = false;
        let mut i: usize = 0;
        while i < hex.len()
            invariant
                i <= hex@.len(),
                only_load_changed(*self, *old(self)),
                self.ram_top == old(self).ram_top,
                self.reg == old(self).reg,
                self.rom_write == w0,
                w0 == old(self).rom_write,
                load_hex_spec(r0, self.ram_top, hex@, 0, 0, false) == load_hex_spec(self.ram@, self.ram_top, hex@, i as nat, extent, rom),
                r0 == old(self).ram@,
            decreases hex@.len() - i,
        {
            let rec = &hex[i];
            match rec.record_type {
                HexRecordType::EndOfFile => {
                    self.rom_write = self.rom_write || rom;
                    return Ok(extent);
                },
                HexRecordType::Data => {
                    let n = rec.data.len();
                    if rec.address as usize > self.ram.len() || n > self.ram.len() - rec.address as usize {
                        self.rom_write = self.rom_write || rom;
                        return Err(Error::new(Fault::RamOverflow { size: n, addr: rec.address }));
                    }
                    copy_into(&mut self.ram, rec.address as usize, &rec.data);
                    extent = extent_plus(extent, n);
                    rom = rom || rom_reached(rec.address, n, self.ram_top);
                },
                _ => {},
            }
            i = i + 1;
        }
        self.rom_write = self.rom_write || rom;
        Err(Error::new(Fault::MissingEndRecord))
    }

    /// Copies `bytes` into RAM from `addr` on, stopping silently at the end
    /// of RAM. Returns the number of bytes written.
    pub fn load_bytes(&mut self, bytes: &[u8], addr: u16) -> (r: Result<usize, Error>)
        ensures
            ({
                let n = if addr >= old(self).ram@.len() {
                    0
                } else if addr + bytes@.len() <= old(self).ram@.len() {
                    bytes@.len() as int
                } else {
                    old(self).ram@.len() - addr
                };
                &&& r == Ok::<usize, Error>(n as usize)
                &&& final(self).ram@ == splice(old(self).ram@, addr as int, bytes@.subrange(0, n))
            }),
            only_load_changed(*final(self), *old(self)),
            final(self).rom_write == old(self).rom_write,
    {
        let ghost before = self.ram@;
        let start = addr as usize;
        let total = self.ram.len();
        let room: usize = if start >= total { 0 } else { total - start };
        let mut loaded: usize = 0;
        while loaded < bytes.len() && loaded < room
            invariant
                only_load_changed(*self, *old(self)),
                self.rom_write == old(self).rom_write,
                total == before.len(),
                room == if start >= before.len() { 0 } else { before.len() - start },
                self.ram@.len() == before.len(),
                self.reg == old(self).reg,
                self.ram_top == old(self).ram_top,
                before == old(self).ram@,
                loaded <= bytes@.len(),
                start == addr,
                loaded == 0 || start + loaded <= before.len(),
                forall|q: int|
                    0 <= q < self.ram@.len() ==> #[trigger] self.ram@[q] == if start <= q < start + loaded {
                        bytes@[q - start]
                    } else {
                        before[q]
                    },
            decreases bytes@.len() - loaded,
        {
            self.ram.set(start + loaded, bytes[loaded]);
            loaded = loaded + 1;
        }
        assert(self.ram@ =~= splice(before, addr as int, bytes@.subrange(0, loaded as int)));
        Ok(loaded)
    }

    /// Loads an assembled program. Every object is first checked against the
    /// size of RAM: when one would pass its end the load fails with a Memory
    /// error naming the first such object and writes nothing at all. Then
    /// the reset vector is cleared and each line's object is written in
    /// order. Returns the number of bytes loaded; `rom_write` records whether
    /// a byte landed at or above `ram_top`.
    pub fn load_program(&mut self, program: &Program) -> (r: Result<u16, Error>)
        ensures
            match first_overflow(old(self).ram@.len(), program.lines@, 0) {
                Some(f) => r == Err::<u16, Error>(err(f)) && final(self).ram@ == old(self).ram@
                    && final(self).rom_write == old(self).rom_write,
                None => match write16_spec(old(self).ram@, AccessClass::System, RESET_VECTOR, 0) {
                    Err(e) => r == Err::<u16, Error>(e) && final(self).ram@ == old(self).ram@
                        && final(self).rom_write == old(self).rom_write,
                    Ok(ram1) => {
                        let (res, ram2, rom) = load_objects_spec(ram1, old(self).ram_top, program.lines@, 0, 0, false);
                        &&& r == res
                        &&& final(self).ram@ == ram2
                        &&& final(self).rom_write == (old(self).rom_write || rom)
                    },
                },
            },
            only_load_changed(*final(self), *old(self)),
    {
        match self.find_overflow(&program.lines) {
            Some(f) => return Err(Error::new(f)),
            None => {},
        }
        match self.force_reset_vector(0) {
            Err(e) => return Err(e),
            Ok(()) => {},
        }
        let ghost r0 = self.ram@;
        let ghost w0 = self.rom_write;
        let mut extent: u16 = 0;
        let mut rom = false;
        let mut i: usize = 0;
        while i < program.lines.len()
            invariant
                i <= program.lines@.len(),
                self.ram_top == old(self).ram_top,
                self.reg == old(self).reg,
                self.rom_write == w0,
                w0 == old(self).rom_write,
                first_overflow(old(self).ram@.len(), program.lines@, 0) is None,
                write16_spec(old(self).ram@, AccessClass::System, RESET_VECTOR, 0) == Ok::<Seq<u8>, Error>(r0),
                only_load_changed(*self, *old(self)),
                load_objects_spec(r0, self.ram_top, program.lines@, 0, 0, false)
                    == load_objects_spec(self.ram@, self.ram_top, program.lines@, i as nat, extent, rom),
            decreases program.lines@.len() - i,
        {
            match &program.lines[i].obj {
                None => {},
                Some(o) => {
                    let n = o.bytes.len();
                    if o.addr as usize > self.ram.len() || n > self.ram.len() - o.addr as usize {
                        self.rom_write = self.rom_write || rom;
                        return Err(Error::new(Fault::RamOverflow { size: n, addr: o.addr }));
                    }
                    copy_into(&mut self.ram, o.addr as usize, &o.bytes);
                    extent = extent_plus(extent, n);
                    rom = rom || rom_reached(o.addr, n, self.ram_top);
                },
            }
            i = i + 1;
        }
        self.rom_write = self.rom_write || rom;
        Ok(extent)
    }
}

} // verus!
