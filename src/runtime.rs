//! The runtime engine: decode, resolve, advance PC, evaluate and count; the
//! interrupt-entry protocol; and the per-tick wait-state and interrupt
//! controller.
use vstd::prelude::*;
use crate::addressing::{fetch8, offset16, pc_plus, resolve_spec, sext16, sext8};
use crate::cpu::{only_load_changed, same_run_state, same_setup, vector_of, Core, InterruptLines, InterruptType};
use crate::error::{err, Error, ErrorKind, Fault};
use crate::eval::{
    eval_spec, evaluate, mask_bit, push_mask_spec, push_reg_spec, reg_for_bit, with_cc,
};
use crate::instructions::{
    flavor_of, is_high_byte_of_16bit_instruction, is_prefix, key_size, lemma_flavor_shape,
    moves_pc, opcode_to_flavor, AddressingMode, Flavor, Instance, Meta, Op, Outcome, Stack,
};
use crate::memory::{
    phys, read16_spec, read8_spec, read_u16, read_u8, write16_spec, write8_spec, write_u16,
    write_u8, AccessClass,
};
use crate::registers::{
    put_bits, reg_size, reg_value, size_of_reg, with_bits, Cc, Name, Registers, CC_E, CC_F, CC_I,
};

verus! {

/// Cycles between two polls of the interrupt lines.
pub const HSYNC_PERIOD_CYCLES: u64 = 64;
/// Cycles between two polls of the vertical-sync line.
pub const VSYNC_PERIOD_CYCLES: u64 = 16667;
/// Cycles that a tick spent waiting in CWAI or SYNC consumes, so that the
/// interrupt polls keep coming due while no instruction runs.
pub const WAIT_TICK_CYCLES: u64 = 1;

/// The opcode key, its size in bytes and its descriptor for the instruction
/// at `r.pc`; an undefined key is a Runtime error.
pub open spec fn decode_spec(r: Registers, ram: Seq<u8>) -> Result<(u16, u16, Flavor), Error> {
    match fetch8(ram, r.pc, 0) {
        Err(e) => Err(e),
        Ok(b0) => {
            let key: Result<(u16, u16), Error> = if is_prefix(b0) {
                match fetch8(ram, r.pc, 1) {
                    Err(e) => Err(e),
                    Ok(b1) => Ok(((b0 as int * 256 + b1 as int) as u16, 2u16)),
                }
            } else {
                Ok((b0 as u16, 1u16))
            };
            match key {
                Err(e) => Err(e),
                Ok((k, n)) => match flavor_of(k) {
                    None => Err(err(Fault::BadInstruction { opcode: k, pc: r.pc })),
                    Some(f) => Ok((k, n, f)),
                },
            }
        },
    }
}

/// One instruction: decode, resolve, move PC past the whole instruction, then
/// evaluate unless `list_mode`. Gives the registers, memory, the instance and
/// the signal raised.
#[verifier::opaque]
pub open spec fn step_spec(r: Registers, ram: Seq<u8>, list_mode: bool) -> Result<
    (Registers, Seq<u8>, Instance, Option<Meta>),
    Error,
> {
    match decode_spec(r, ram) {
        Err(e) => Err(e),
        Ok((key, opsize, f)) => match resolve_spec(r, ram, f, opsize) {
            Err(e) => Err(e),
            Ok(res) => match pc_plus(r.pc, res.size) {
                Err(e) => Err(e),
                Ok(next) => {
                    let inst = Instance { pc: r.pc, opcode: key, opsize, size: res.size, ea: res.ea, flavor: f };
                    let r1 = Registers { pc: next, ..res.reg };
                    if list_mode {
                        Ok((r1, ram, inst, None))
                    } else {
                        match eval_spec(f.op, r1, ram, res.ea) {
                            Err(e) => Err(e),
                            Ok((r2, m2, meta)) => Ok((r2, m2, inst, meta)),
                        }
                    }
                },
            },
        },
    }
}

/// Pushes register `n` of the state in `st` on the system stack (S).
pub open spec fn push_spec(st: Result<(Registers, Seq<u8>), Error>, n: Name) -> Result<(Registers, Seq<u8>), Error> {
    match st {
        Err(e) => Err(e),
        Ok((r, ram)) => {
            let size = size_of_reg(n);
            if r.s < size {
                Err(err(Fault::StackOverflow { s: r.s }))
            } else {
                let addr = (r.s - size) as u16;
                let v = reg_value(r, n);
                let w = if size == 1 {
                    write8_spec(ram, AccessClass::System, addr, v as u8)
                } else {
                    write16_spec(ram, AccessClass::System, addr, v)
                };
                match w {
                    Err(e) => Err(e),
                    Ok(ram2) => Ok((Registers { s: addr, ..r }, ram2)),
                }
            }
        },
    }
}

/// The interrupt stack frame: PC; when `entire` also U, Y, X, DP, B, A; then
/// CC with its E bit set to `entire`.
#[verifier::opaque]
pub open spec fn stack_spec(r: Registers, ram: Seq<u8>, entire: bool) -> Result<(Registers, Seq<u8>), Error> {
    let st = push_spec(Ok((r, ram)), Name::PC);
    let st = if entire {
        push_spec(push_spec(push_spec(push_spec(push_spec(push_spec(st, Name::U), Name::Y), Name::X), Name::DP), Name::B), Name::A)
    } else {
        st
    };
    match st {
        Err(e) => Err(e),
        Ok((r1, m1)) => push_spec(Ok((with_cc(r1, with_bits(r1.cc.bits, CC_E, entire)), m1)), Name::CC),
    }
}

/// Whether interrupt type `it` stacks the entire register set.
pub open spec fn stacks_entire(it: InterruptType) -> bool {
    it != InterruptType::Firq
}

/// The condition-code mask bits that entering `it` sets.
pub open spec fn entry_mask(it: InterruptType) -> u8 {
    match it {
        InterruptType::Swi2 | InterruptType::Swi3 => 0,
        InterruptType::Irq => CC_I,
        _ => CC_I | CC_F,
    }
}

/// Interrupt entry: stack (unless CWAI already did), set the mask bits, fetch
/// the vector, refuse a vector that points at a zero byte, and jump.
#[verifier::opaque]
pub open spec fn interrupt_spec(r: Registers, ram: Seq<u8>, in_cwai: bool, it: InterruptType) -> Result<
    (Registers, Seq<u8>),
    Error,
> {
    let stacked = if in_cwai {
        Ok((r, ram))
    } else {
        stack_spec(r, ram, stacks_entire(it))
    };
    match stacked {
        Err(e) => Err(e),
        Ok((r1, m1)) => {
            let r2 = with_cc(r1, r1.cc.bits | entry_mask(it));
            match read16_spec(m1, AccessClass::System, vector_of(it)) {
                Err(e) => Err(e),
                Ok(addr) => match read8_spec(m1, AccessClass::System, addr) {
                    Err(e) => Err(e),
                    Ok(b) => if b == 0 {
                        Err(err(Fault::CorruptVector { vector: vector_of(it) }))
                    } else {
                        Ok((Registers { pc: addr, ..r2 }, m1))
                    },
                },
            }
        },
    }
}


/// The part of the core that a tick reads and writes.
pub struct Machine {
    pub reg: Registers,
    pub ram: Seq<u8>,
    pub in_cwai: bool,
    pub in_sync: bool,
    pub cart_pending: bool,
    pub lines: InterruptLines,
    pub hsync_prev: u64,
    pub vsync_prev: u64,
    pub instruction_count: u64,
    pub clock_cycles: u64,
}

/// The machine state of core `c`.
pub open spec fn machine_of(c: Core) -> Machine {
    Machine {
        reg: c.reg,
        ram: c.ram@,
        in_cwai: c.in_cwai,
        in_sync: c.in_sync,
        cart_pending: c.cart_pending,
        lines: c.lines,
        hsync_prev: c.hsync_prev,
        vsync_prev: c.vsync_prev,
        instruction_count: c.instruction_count,
        clock_cycles: c.clock_cycles,
    }
}

/// Interrupt entry on a whole machine: the wait inside CWAI ends.
pub open spec fn enter_spec(m: Machine, it: InterruptType) -> Result<Machine, Error> {
    match interrupt_spec(m.reg, m.ram, m.in_cwai, it) {
        Err(e) => Err(e),
        Ok((r, ram)) => Ok(Machine { reg: r, ram, in_cwai: false, ..m }),
    }
}

/// The machine after executing one instruction, counted, with the signal
/// it raised.
pub open spec fn executed(m: Machine, list_mode: bool) -> Result<(Machine, Option<Meta>), Error> {
    match step_spec(m.reg, m.ram, list_mode) {
        Err(e) => Err(e),
        Ok((r2, ram2, inst, meta)) => Ok((
            Machine {
                reg: r2,
                ram: ram2,
                instruction_count: m.instruction_count.wrapping_add(1),
                clock_cycles: m.clock_cycles.wrapping_add(inst.flavor.clk as u64),
                ..m
            },
            meta,
        )),
    }
}

/// Whether an instruction fails before it is evaluated: in decoding, in
/// resolving its address, or in moving PC past it.
pub open spec fn fails_before_eval(r: Registers, ram: Seq<u8>) -> bool {
    match decode_spec(r, ram) {
        Err(_) => true,
        Ok((key, opsize, f)) => match resolve_spec(r, ram, f, opsize) {
            Err(_) => true,
            Ok(res) => pc_plus(r.pc, res.size) is Err,
        },
    }
}

/// The instruction part of a tick: while waiting, only time passes;
/// otherwise one instruction, counted, followed by what its signal asks for.
#[verifier::opaque]
pub open spec fn run_phase(m: Machine, list_mode: bool) -> Result<Machine, Error> {
    if m.in_cwai || m.in_sync {
        Ok(Machine { clock_cycles: m.clock_cycles.wrapping_add(WAIT_TICK_CYCLES), ..m })
    } else {
        match executed(m, list_mode) {
            Err(e) => Err(e),
            Ok((m1, meta)) => match meta {
                None => Ok(m1),
                Some(Meta::Exit) => Err(err(Fault::ExitInstruction { pc: m1.reg.pc })),
                Some(Meta::Cwai) => match stack_spec(m1.reg, m1.ram, true) {
                    Err(e) => Err(e),
                    Ok((r3, ram3)) => Ok(Machine { reg: r3, ram: ram3, in_cwai: true, ..m1 }),
                },
                Some(Meta::Sync) => Ok(Machine { in_sync: true, ..m1 }),
                Some(Meta::Interrupt(it)) => enter_spec(m1, it),
            },
        }
    }
}

/// Whether a full hsync period has passed since the last poll.
pub open spec fn hsync_due(m: Machine) -> bool {
    m.clock_cycles.wrapping_sub(m.hsync_prev) >= HSYNC_PERIOD_CYCLES
}

/// Whether a full vsync period has passed since the last vsync poll.
pub open spec fn vsync_due(m: Machine) -> bool {
    m.clock_cycles.wrapping_sub(m.vsync_prev) >= VSYNC_PERIOD_CYCLES
}

/// Whether the poll sees IRQ: the hsync line, or the vsync line once a vsync
/// period has passed.
pub open spec fn irq_asserted(m: Machine) -> bool {
    m.lines.hsync_irq || (vsync_due(m) && m.lines.vsync_irq)
}

/// Whether the poll sees FIRQ: the cartridge line, read only while a
/// cartridge is pending.
pub open spec fn firq_asserted(m: Machine) -> bool {
    m.cart_pending && m.lines.cart_firq
}

/// The machine once the poll has read the lines: the lines it read are
/// consumed (vsync only when hsync did not already give IRQ), the poll
/// times move on, and an asserted line ends SYNC whatever the masks.
pub open spec fn polled(m: Machine) -> Machine {
    let vs = vsync_due(m);
    Machine {
        hsync_prev: m.clock_cycles,
        vsync_prev: if vs { m.clock_cycles } else { m.vsync_prev },
        lines: InterruptLines {
            cart_firq: if m.cart_pending { false } else { m.lines.cart_firq },
            hsync_irq: false,
            vsync_irq: if vs && !m.lines.hsync_irq { false } else { m.lines.vsync_irq },
        },
        in_sync: if irq_asserted(m) || firq_asserted(m) { false } else { m.in_sync },
        ..m
    }
}

/// The interrupt poll of a tick. Once an hsync period has passed, the lines
/// are read; IRQ is then serviced unless masked, and after it FIRQ unless
/// masked, which also ends the pending cartridge.
#[verifier::opaque]
pub open spec fn poll_phase(m: Machine) -> Result<Machine, Error> {
    if !hsync_due(m) {
        Ok(m)
    } else {
        let m1 = polled(m);
        let after_irq = if irq_asserted(m) && m1.reg.cc.bits & CC_I == 0 {
            enter_spec(m1, InterruptType::Irq)
        } else {
            Ok(m1)
        };
        match after_irq {
            Err(e) => Err(e),
            Ok(m3) => if firq_asserted(m) && m3.reg.cc.bits & CC_F == 0 {
                match enter_spec(m3, InterruptType::Firq) {
                    Err(e) => Err(e),
                    Ok(m5) => Ok(Machine { cart_pending: false, ..m5 }),
                }
            } else {
                Ok(m3)
            },
        }
    }
}

/// One tick: the instruction part, then the interrupt poll.
#[verifier::opaque]
pub open spec fn tick_spec(m: Machine, list_mode: bool) -> Result<Machine, Error> {
    match run_phase(m, list_mode) {
        Err(e) => Err(e),
        Ok(m1) => poll_phase(m1),
    }
}

/// Why a run stopped without an error.
#[derive(Clone, Copy, Debug, PartialEq, Eq, Structural)]
pub enum RunStop {
    /// The program ran EXIT.
    Exited,
    /// The tick budget was used up.
    BudgetSpent,
    /// An instruction failed in a debug run; the debugger takes over.
    Faulted,
}

/// A run of at most `n` ticks: how it ends, and the machine after it when
/// no tick failed.
pub open spec fn run_spec(m: Machine, list_mode: bool, debug: bool, n: nat) -> (Result<RunStop, Error>, Option<Machine>)
    decreases n,
{
    if n == 0 {
        (Ok(RunStop::BudgetSpent), Some(m))
    } else {
        match tick_spec(m, list_mode) {
            Ok(m1) => run_spec(m1, list_mode, debug, (n - 1) as nat),
            Err(e) => (
                if e.kind == ErrorKind::Exit {
                    Ok(RunStop::Exited)
                } else if !debug {
                    Err(e)
                } else {
                    Ok(RunStop::Faulted)
                },
                None,
            ),
        }
    }
}

/// Address of the reset vector.
pub const RESET_VECTOR: u16 = 0xfffe;

impl Core {
    /// Pushes register `n` on the system stack.
    pub fn system_psh(&mut self, n: Name) -> (r: Result<(), Error>)
        ensures
            match push_spec(Ok((old(self).reg, old(self).ram@)), n) {
                Ok((r2, m2)) => r is Ok && final(self).reg == r2 && final(self).ram@ == m2,
                Err(e) => r == Err::<(), Error>(e) && final(self).reg == old(self).reg
                    && final(self).ram@ == old(self).ram@,
            },
            final(self).reg.pc == old(self).reg.pc,
            same_setup(*final(self), *old(self)),
            final(self).in_cwai == old(self).in_cwai,
            final(self).in_sync == old(self).in_sync,
            final(self).cart_pending == old(self).cart_pending,
            final(self).lines == old(self).lines,
            final(self).hsync_prev == old(self).hsync_prev,
            final(self).vsync_prev == old(self).vsync_prev,
            final(self).instruction_count == old(self).instruction_count,
            final(self).clock_cycles == old(self).clock_cycles,
    {
        let s = self.reg.s;
        let size = reg_size(n);
        if s < size {
            return Err(Error::new(Fault::StackOverflow { s }));
        }
        let addr = s - size;
        let v = self.reg.get_register(n);
        let w = if size == 1 {
            write_u8(&mut self.ram, AccessClass::System, addr, v as u8)
        } else {
            write_u16(&mut self.ram, AccessClass::System, addr, v)
        };
        match w {
            Err(e) => Err(e),
            Ok(()) => {
                self.reg.s = addr;
                Ok(())
            },
        }
    }

    /// Builds the interrupt stack frame: PC, then U, Y, X, DP, B, A when
    /// `entire`, then CC after its E bit is set to `entire`.
    pub fn stack_for_interrupt(&mut self, entire: bool) -> (r: Result<(), Error>)
        ensures
            match stack_spec(old(self).reg, old(self).ram@, entire) {
                Ok((r2, m2)) => r is Ok && final(self).reg == r2 && final(self).ram@ == m2,
                Err(e) => r == Err::<(), Error>(e),
            },
            final(self).reg.pc == old(self).reg.pc,
            same_setup(*final(self), *old(self)),
            final(self).in_cwai == old(self).in_cwai,
            final(self).in_sync == old(self).in_sync,
            final(self).cart_pending == old(self).cart_pending,
            final(self).lines == old(self).lines,
            final(self).hsync_prev == old(self).hsync_prev,
            final(self).vsync_prev == old(self).vsync_prev,
            final(self).instruction_count == old(self).instruction_count,
            final(self).clock_cycles == old(self).clock_cycles,
    {
        reveal(stack_spec);
        match self.system_psh(Name::PC) {
            Err(e) => return Err(e),
            Ok(()) => {},
        }
        if entire {
            match self.system_psh(Name::U) {
                Err(e) => return Err(e),
                Ok(()) => {},
            }
            match self.system_psh(Name::Y) {
                Err(e) => return Err(e),
                Ok(()) => {},
            }
            match self.system_psh(Name::X) {
                Err(e) => return Err(e),
                Ok(()) => {},
            }
            match self.system_psh(Name::DP) {
                Err(e) => return Err(e),
                Ok(()) => {},
            }
            match self.system_psh(Name::B) {
                Err(e) => return Err(e),
                Ok(()) => {},
            }
            match self.system_psh(Name::A) {
                Err(e) => return Err(e),
                Ok(()) => {},
            }
        }
        self.reg.cc.bits = put_bits(self.reg.cc.bits, CC_E, entire);
        self.system_psh(Name::CC)
    }

    /// Enters interrupt `it`: stacks the registers (unless a CWAI already
    /// did), sets the mask bits, and jumps through the vector. A vector that
    /// points at a zero byte is a fatal error and PC is left alone.
    pub fn start_interrupt(&mut self, it: InterruptType) -> (r: Result<(), Error>)
        requires
            !old(self).in_sync,
        ensures
            match interrupt_spec(old(self).reg, old(self).ram@, old(self).in_cwai, it) {
                Ok((r2, m2)) => r is Ok && final(self).reg == r2 && final(self).ram@ == m2 && !final(self).in_cwai,
                Err(e) => r == Err::<(), Error>(e) && final(self).reg.pc == old(self).reg.pc,
            },
            same_setup(*final(self), *old(self)),
            final(self).in_sync == old(self).in_sync,
            final(self).cart_pending == old(self).cart_pending,
            final(self).lines == old(self).lines,
            final(self).hsync_prev == old(self).hsync_prev,
            final(self).vsync_prev == old(self).vsync_prev,
            final(self).instruction_count == old(self).instruction_count,
            final(self).clock_cycles == old(self).clock_cycles,
    {
        reveal(interrupt_spec);
        let (entire, mask): (bool, u8) = match it {
            InterruptType::Swi2 | InterruptType::Swi3 => (true, 0),
            InterruptType::Irq => (true, CC_I),
            InterruptType::Firq => (false, CC_I | CC_F),
            _ => (true, CC_I | CC_F),
        };
        if !self.in_cwai {
            match self.stack_for_interrupt(entire) {
                Err(e) => return Err(e),
                Ok(()) => {},
            }
        }
        self.reg.cc.bits = self.reg.cc.bits | mask;
        let addr = match read_u16(&self.ram, AccessClass::System, it.vector()) {
            Err(e) => return Err(e),
            Ok(a) => a,
        };
        let b = match read_u8(&self.ram, AccessClass::System, addr) {
            Err(e) => return Err(e),
            Ok(b) => b,
        };
        if b == 0 {
            return Err(Error::new(Fault::CorruptVector { vector: it.vector() }));
        }
        self.reg.pc = addr;
        self.in_cwai = false;
        Ok(())
    }

    /// Reads the opcode at PC, one byte or a page prefix and a byte, and
    /// looks up its descriptor.
    pub fn decode(&self) -> (r: Result<(u16, u16, Flavor), Error>)
        ensures
            r == decode_spec(self.reg, self.ram@),
    {
        let pc = self.reg.pc;
        let b0 = match read_u8(&self.ram, AccessClass::Program, pc) {
            Err(e) => return Err(e),
            Ok(b) => b,
        };
        let (key, opsize): (u16, u16) = if is_high_byte_of_16bit_instruction(b0) {
            let b1 = match self.checked_pc_add(pc, 1) {
                Err(e) => return Err(e),
                Ok(a) => match read_u8(&self.ram, AccessClass::Program, a) {
                    Err(e) => return Err(e),
                    Ok(b) => b,
                },
            };
            ((b0 as u16) * 256 + b1 as u16, 2)
        } else {
            (b0 as u16, 1)
        };
        match opcode_to_flavor(key) {
            None => Err(Error::new(Fault::BadInstruction { opcode: key, pc })),
            Some(f) => Ok((key, opsize, f)),
        }
    }

    /// Executes the instruction at PC: decode, resolve, advance PC past the
    /// instruction, evaluate (unless in list mode), then count one instruction
    /// and the descriptor's base cycles. A failure leaves the counters alone.
    pub fn exec_next(&mut self, _commit: bool) -> (r: Result<Outcome, Error>)
        ensures
            match step_spec(old(self).reg, old(self).ram@, old(self).list_mode) {
                Ok((r2, m2, inst, meta)) => r == Ok::<Outcome, Error>(Outcome { inst, meta })
                    && final(self).reg == r2 && final(self).ram@ == m2
                    && final(self).instruction_count == old(self).instruction_count.wrapping_add(1)
                    && final(self).clock_cycles == old(self).clock_cycles.wrapping_add(inst.flavor.clk as u64),
                Err(e) => r == Err::<Outcome, Error>(e)
                    && final(self).instruction_count == old(self).instruction_count
                    && final(self).clock_cycles == old(self).clock_cycles,
            },
            same_setup(*final(self), *old(self)),
            final(self).in_cwai == old(self).in_cwai,
            final(self).in_sync == old(self).in_sync,
            final(self).cart_pending == old(self).cart_pending,
            final(self).lines == old(self).lines,
            final(self).hsync_prev == old(self).hsync_prev,
            final(self).vsync_prev == old(self).vsync_prev,
            decode_spec(old(self).reg, old(self).ram@) is Err ==> final(self).reg == old(self).reg,
            fails_before_eval(old(self).reg, old(self).ram@) ==> r is Err && final(self).ram@ == old(self).ram@
                && final(self).reg.pc == old(self).reg.pc,
            (decode_spec(old(self).reg, old(self).ram@) matches Ok((k, n, f))
                && resolve_spec(old(self).reg, old(self).ram@, f, n) matches Err(e) && e.kind == ErrorKind::Syntax)
                ==> final(self).reg == old(self).reg,
    {
        reveal(step_spec);
        let pc = self.reg.pc;
        let (key, opsize, flavor) = match self.decode() {
            Err(e) => return Err(e),
            Ok(d) => d,
        };
        proof {
            crate::instructions::lemma_flavor_sizes(key);
        }
        let mut inst = Instance { pc, opcode: key, opsize, size: opsize, ea: 0, flavor };
        match self.process_addressing_mode(&mut inst) {
            Err(e) => return Err(e),
            Ok(()) => {},
        }
        let next = match self.checked_pc_add(pc, inst.size) {
            Err(e) => return Err(e),
            Ok(n) => n,
        };
        self.reg.pc = next;
        let meta = if self.list_mode {
            None
        } else {
            match evaluate(flavor.op, &mut self.reg, &mut self.ram, inst.ea) {
                Err(e) => return Err(e),
                Ok(m) => m,
            }
        };
        self.instruction_count = self.instruction_count.wrapping_add(1);
        self.clock_cycles = self.clock_cycles.wrapping_add(flavor.clk as u64);
        Ok(Outcome { inst, meta })
    }

    /// Resets the processor: clears the registers, writes the reset-vector
    /// override if one is set, and loads PC from the reset vector.
    pub fn reset(&mut self) -> (r: Result<(), Error>)
        ensures
            ({
                let ram1 = match old(self).reset_vector {
                    Some(a) => write16_spec(old(self).ram@, AccessClass::System, RESET_VECTOR, a),
                    None => Ok(old(self).ram@),
                };
                match ram1 {
                    Err(e) => r == Err::<(), Error>(e),
                    Ok(m1) => match read16_spec(m1, AccessClass::System, RESET_VECTOR) {
                        Err(e) => r == Err::<(), Error>(e),
                        Ok(pc) => r is Ok && final(self).reg == (Registers { pc, ..Registers::initial() })
                            && final(self).ram@ == m1 && final(self).program_start == pc && !final(self).faulted,
                    },
                }
            }),
            same_run_state(*final(self), *old(self)),
            final(self).rom_write == old(self).rom_write,
    {
        self.reg.reset();
        match self.reset_vector {
            Some(addr) => match self.force_reset_vector(addr) {
                Err(e) => return Err(e),
                Ok(()) => {},
            },
            None => {},
        }
        let pc = match read_u16(&self.ram, AccessClass::System, RESET_VECTOR) {
            Err(e) => return Err(e),
            Ok(v) => v,
        };
        self.reg.pc = pc;
        self.program_start = pc;
        self.faulted = false;
        Ok(())
    }

    /// Writes `addr` into the reset vector's slot.
    pub fn force_reset_vector(&mut self, addr: u16) -> (r: Result<(), Error>)
        ensures
            match write16_spec(old(self).ram@, AccessClass::System, RESET_VECTOR, addr) {
                Ok(m) => r is Ok && final(self).ram@ == m,
                Err(e) => r == Err::<(), Error>(e) && final(self).ram@ == old(self).ram@,
            },
            only_load_changed(*final(self), *old(self)),
            final(self).rom_write == old(self).rom_write,
    {
        write_u16(&mut self.ram, AccessClass::System, RESET_VECTOR, addr)
    }

    /// The interrupt poll of a tick.
    fn poll_interrupts(&mut self) -> (r: Result<(), Error>)
        ensures
            match poll_phase(machine_of(*old(self))) {
                Ok(m) => r is Ok && machine_of(*final(self)) == m,
                Err(e) => r == Err::<(), Error>(e),
            },
            same_setup(*final(self), *old(self)),
            final(self).instruction_count == old(self).instruction_count,
    {
        reveal(poll_phase);
        if self.clock_cycles.wrapping_sub(self.hsync_prev) < HSYNC_PERIOD_CYCLES {
            return Ok(());
        }
        self.hsync_prev = self.clock_cycles;
        let mut firq = false;
        if self.cart_pending {
            firq = self.lines.cart_firq;
            self.lines.cart_firq = false;
        }
        let mut irq = self.lines.hsync_irq;
        self.lines.hsync_irq = false;
        if self.clock_cycles.wrapping_sub(self.vsync_prev) >= VSYNC_PERIOD_CYCLES {
            self.vsync_prev = self.clock_cycles;
            if !irq {
                irq = self.lines.vsync_irq;
                self.lines.vsync_irq = false;
            }
        }
        if irq {
            self.in_sync = false;
            if self.reg.cc.bits & CC_I == 0 {
                match self.start_interrupt(InterruptType::Irq) {
                    Err(e) => return Err(e),
                    Ok(()) => {},
                }
            }
        }
        if firq {
            self.in_sync = false;
            if self.reg.cc.bits & CC_F == 0 {
                match self.start_interrupt(InterruptType::Firq) {
                    Err(e) => return Err(e),
                    Ok(()) => {},
                }
                self.cart_pending = false;
            }
        }
        Ok(())
    }

    /// One tick: while waiting in CWAI or SYNC, count the waiting cycle;
    /// otherwise execute one instruction and act on its signal (EXIT ends the
    /// run with an Exit error, CWAI stacks everything and waits, SYNC waits, a
    /// software interrupt is entered); then poll the interrupt lines.
    #[verifier::rlimit(40)]
    pub fn exec_one(&mut self) -> (r: Result<(), Error>)
        ensures
            match tick_spec(machine_of(*old(self)), old(self).list_mode) {
                Ok(m) => r is Ok && machine_of(*final(self)) == m,
                Err(e) => r == Err::<(), Error>(e),
            },
            same_setup(*final(self), *old(self)),
            old(self).in_cwai || old(self).in_sync ==> final(self).instruction_count == old(self).instruction_count,
            !old(self).in_cwai && !old(self).in_sync && decode_spec(old(self).reg, old(self).ram@) is Err
                ==> machine_of(*final(self)) == machine_of(*old(self)),
            !old(self).in_cwai && !old(self).in_sync && fails_before_eval(old(self).reg, old(self).ram@) ==> {
                &&& final(self).ram@ == old(self).ram@
                &&& final(self).reg.pc == old(self).reg.pc
                &&& final(self).instruction_count == old(self).instruction_count
                &&& final(self).clock_cycles == old(self).clock_cycles
                &&& final(self).hsync_prev == old(self).hsync_prev
            },
            !old(self).in_cwai && !old(self).in_sync ==> (executed(machine_of(*old(self)), old(self).list_mode)
                matches Ok((m1, Some(Meta::Exit))) ==> machine_of(*final(self)) == m1),
    {
        reveal(tick_spec);
        reveal(run_phase);
        if !self.in_cwai && !self.in_sync {
            let outcome = match self.exec_next(!self.list_mode) {
                Err(e) => return Err(e),
                Ok(o) => o,
            };
            match outcome.meta {
                None => {},
                Some(Meta::Exit) => {
                    return Err(Error::new(Fault::ExitInstruction { pc: self.reg.pc }));
                },
                Some(Meta::Cwai) => {
                    match self.stack_for_interrupt(true) {
                        Err(e) => return Err(e),
                        Ok(()) => {},
                    }
                    self.in_cwai = true;
                },
                Some(Meta::Sync) => {
                    self.in_sync = true;
                },
                Some(Meta::Interrupt(it)) => {
                    match self.start_interrupt(it) {
                        Err(e) => return Err(e),
                        Ok(()) => {},
                    }
                },
            }
        } else {
            self.clock_cycles = self.clock_cycles.wrapping_add(WAIT_TICK_CYCLES);
        }
        self.poll_interrupts()
    }

    /// Runs at most `max_ticks` ticks from the current PC. EXIT ends the run
    /// normally. Any other failure is returned, or, in a debug run, marks the
    /// core as faulted and hands it to the debugger.
    pub fn exec(&mut self, max_ticks: u64) -> (r: Result<RunStop, Error>)
        ensures
            r == run_spec(machine_of(*old(self)), old(self).list_mode, old(self).config.debug, max_ticks as nat).0,
            run_spec(machine_of(*old(self)), old(self).list_mode, old(self).config.debug, max_ticks as nat).1
                matches Some(m) ==> machine_of(*final(self)) == m,
            r == Ok::<RunStop, Error>(RunStop::Faulted) ==> final(self).faulted,
            final(self).start_time == old(self).clock_cycles,
            final(self).config == old(self).config,
            final(self).list_mode == old(self).list_mode,
    {
        let ghost m0 = machine_of(*self);
        let ghost lm = self.list_mode;
        let ghost dbg = self.config.debug;
        self.start_time = self.clock_cycles;
        let mut i: u64 = 0;
        while i < max_ticks
            invariant
                i <= max_ticks,
                m0 == machine_of(*old(self)),
                lm == old(self).list_mode,
                dbg == old(self).config.debug,
                self.list_mode == lm,
                self.config.debug == dbg,
                self.config == old(self).config,
                self.start_time == old(self).clock_cycles,
                run_spec(m0, lm, dbg, max_ticks as nat) == run_spec(machine_of(*self), lm, dbg, (max_ticks - i) as nat),
            decreases max_ticks - i,
        {
            match self.exec_one() {
                Ok(()) => {},
                Err(e) => {
                    if e.kind == ErrorKind::Exit {
                        return Ok(RunStop::Exited);
                    }
                    if !self.config.debug {
                        return Err(e);
                    }
                    self.faulted = true;
                    return Ok(RunStop::Faulted);
                },
            }
            i = i + 1;
        }
        Ok(RunStop::BudgetSpent)
    }
}

/// Bytes that an indexed post-byte reads after itself: one for an 8-bit
/// offset, two for a 16-bit offset or an absolute address, else none.
pub open spec fn postbyte_extra(pb: u8) -> u16 {
    if pb < 0x80 {
        0
    } else if pb % 16 == 8 || pb % 16 == 12 {
        1
    } else if pb % 16 == 9 || pb % 16 == 13 || pb % 16 == 15 {
        2
    } else {
        0
    }
}

/// For every opcode and addressing mode, a decoded instruction consumes
/// exactly its descriptor's size plus the bytes its indexed post-byte reads;
/// PC moves past exactly those bytes and never wraps; the effective address
/// follows the mode's formula; and the descriptor is the opcode's own.
pub proof fn lemma_consumed_bytes(r: Registers, ram: Seq<u8>, list_mode: bool)
    ensures
        step_spec(r, ram, list_mode) matches Ok((r2, m2, inst, meta)) ==> {
            let f = inst.flavor;
            let at = r.pc + inst.opsize;
            &&& inst.pc == r.pc
            &&& flavor_of(inst.opcode) == Some(f)
            &&& inst.opsize == key_size(inst.opcode)
            &&& r.pc + inst.size <= 0xFFFF
            &&& inst.size == f.size + if f.mode == AddressingMode::Indexed {
                postbyte_extra(ram[at])
            } else {
                0
            }
            &&& (list_mode ==> r2.pc == r.pc + inst.size)
            &&& (!list_mode && !moves_pc(f.op) ==> r2.pc == r.pc + inst.size)
            &&& (!list_mode && f.op is Branch ==> r2.pc == r.pc + inst.size || r2.pc == inst.ea)
            &&& (f.mode == AddressingMode::Immediate ==> inst.ea == at)
            &&& (f.mode == AddressingMode::Direct ==> inst.ea == r.dp * 256 + ram[at])
            &&& (f.mode == AddressingMode::Extended ==> inst.ea == ram[at] * 256 + ram[at + 1])
            &&& (f.mode == AddressingMode::Relative ==> inst.ea == offset16(
                (r.pc + inst.size) as u16,
                if inst.size - inst.opsize == 2 {
                    sext16((ram[at] * 256 + ram[at + 1]) as u16)
                } else {
                    sext8(ram[at])
                },
            ))
        },
{
    reveal(step_spec);
    match decode_spec(r, ram) {
        Ok((key, opsize, f)) => {
            lemma_flavor_shape(key);
            lemma_resolve_shape(r, ram, f, opsize);
            match resolve_spec(r, ram, f, opsize) {
                Ok(res) => {
                    if pc_plus(r.pc, res.size) is Ok {
                        lemma_eval_pc(f.op, Registers { pc: (r.pc + res.size) as u16, ..res.reg }, ram, res.ea);
                    }
                },
                Err(_) => {},
            }
        },
        Err(_) => {},
    }
}

/// For every addressing mode, resolution consumes exactly the descriptor's
/// size plus what an indexed post-byte reads, leaves PC alone (and every
/// register, outside indexed auto increment/decrement), and computes the
/// mode's effective-address formula: immediate is just past the opcode,
/// direct is DP then the next byte, extended is the next word, relative is
/// the next instruction's address plus the signed offset.
pub proof fn lemma_resolve_shape(r: Registers, ram: Seq<u8>, f: Flavor, opsize: u16)
    requires
        1 <= opsize <= 2,
        f.mode == AddressingMode::Direct ==> f.size == opsize + 1,
        f.mode == AddressingMode::Extended ==> f.size == opsize + 2,
        f.mode == AddressingMode::Inherent ==> f.size == opsize,
        f.mode == AddressingMode::Indexed ==> f.size == opsize + 1,
        f.mode == AddressingMode::Relative ==> f.size == opsize + 1 || f.size == opsize + 2,
        f.mode == AddressingMode::Immediate ==> f.size == opsize + 1 || f.size == opsize + 2,
    ensures
        resolve_spec(r, ram, f, opsize) matches Ok(res) ==> {
            let at = r.pc + opsize;
            &&& res.reg.pc == r.pc
            &&& (f.mode != AddressingMode::Indexed ==> res.reg == r)
            &&& res.size == f.size + if f.mode == AddressingMode::Indexed {
                postbyte_extra(ram[at])
            } else {
                0
            }
            &&& (f.mode == AddressingMode::Immediate ==> res.ea == at)
            &&& (f.mode == AddressingMode::Direct ==> res.ea == r.dp * 256 + ram[at])
            &&& (f.mode == AddressingMode::Extended ==> res.ea == ram[at] * 256 + ram[at + 1])
            &&& (f.mode == AddressingMode::Relative ==> res.ea == offset16(
                (r.pc + res.size) as u16,
                if res.size - opsize == 2 {
                    sext16((ram[at] * 256 + ram[at + 1]) as u16)
                } else {
                    sext8(ram[at])
                },
            ))
        },
{
    reveal(resolve_spec);
}

/// Only jumps and branches move PC; a branch moves it to the effective
/// address or leaves it.
proof fn lemma_eval_pc(op: Op, r: Registers, ram: Seq<u8>, ea: u16)
    ensures
        eval_spec(op, r, ram, ea) matches Ok((r2, m2, meta)) ==> {
            &&& (!moves_pc(op) ==> r2.pc == r.pc)
            &&& (op is Branch ==> r2.pc == r.pc || r2.pc == ea)
        },
{
    reveal(eval_spec);
    if let Op::Psh(st) = op {
        if let Ok(mask) = read8_spec(ram, AccessClass::Generic, ea) {
            lemma_push_mask_keeps_pc(r, ram, st, mask, 8);
        }
    }
}

/// Pushing registers leaves PC where it was.
proof fn lemma_push_mask_keeps_pc(r: Registers, ram: Seq<u8>, st: Stack, mask: u8, i: u8)
    ensures
        push_mask_spec(r, ram, st, mask, i) matches Ok((r2, m2)) ==> r2.pc == r.pc,
    decreases i,
{
    if i > 0 {
        let b = (i - 1) as u8;
        if mask_bit(mask, b) {
            if let Ok((r1, m1)) = push_reg_spec(r, ram, st, reg_for_bit(b, st)) {
                lemma_push_mask_keeps_pc(r1, m1, st, mask, b);
            }
        } else {
            lemma_push_mask_keeps_pc(r, ram, st, mask, b);
        }
    }
}

/// PC arithmetic never wraps: adding `n` to `pc` past 16 bits is a Runtime
/// overflow error, and otherwise gives the exact sum.
pub proof fn lemma_pc_never_wraps(pc: u16, n: u16)
    ensures
        pc + n > 0xFFFF <==> pc_plus(pc, n) is Err,
        pc_plus(pc, n) matches Err(e) ==> e.kind == ErrorKind::Runtime && e.fault == (Fault::PcOverflow { pc }),
        pc_plus(pc, n) matches Ok(v) ==> v == pc + n,
{
}

/// An asserted line ends SYNC whatever the mask bits say; IRQ and FIRQ are
/// serviced exactly when their mask bit is clear. With the mask set the poll
/// only consumes the lines and leaves registers and memory alone; with it
/// clear the poll is the interrupt's entry.
pub proof fn lemma_poll_masks(m: Machine)
    requires
        hsync_due(m),
    ensures
        irq_asserted(m) || firq_asserted(m) ==> (poll_phase(m) matches Ok(m2) ==> !m2.in_sync),
        irq_asserted(m) && !firq_asserted(m) && m.reg.cc.bits & CC_I != 0 ==> poll_phase(m) == Ok::<Machine, Error>(polled(m)),
        irq_asserted(m) && !firq_asserted(m) && m.reg.cc.bits & CC_I == 0 ==> poll_phase(m) == enter_spec(polled(m), InterruptType::Irq),
        firq_asserted(m) && !irq_asserted(m) && m.reg.cc.bits & CC_F != 0 ==> poll_phase(m) == Ok::<Machine, Error>(polled(m)),
        firq_asserted(m) && !irq_asserted(m) && m.reg.cc.bits & CC_F == 0 ==> poll_phase(m) == match enter_spec(polled(m), InterruptType::Firq) {
            Err(e) => Err(e),
            Ok(m5) => Ok(Machine { cart_pending: false, ..m5 }),
        },
{
    reveal(poll_phase);
    reveal(interrupt_spec);
}

/// A vector that points at a zero byte is the fatal corrupt-vector error, a
/// Runtime error; an entry that succeeds always lands on a nonzero byte.
pub proof fn lemma_corrupt_vector(r: Registers, ram: Seq<u8>, in_cwai: bool, it: InterruptType)
    ensures
        ({
            let stacked = if in_cwai {
                Ok((r, ram))
            } else {
                stack_spec(r, ram, stacks_entire(it))
            };
            stacked matches Ok((r1, m1)) && read16_spec(m1, AccessClass::System, vector_of(it)) matches Ok(a)
                && read8_spec(m1, AccessClass::System, a) == Ok::<u8, Error>(0) ==> interrupt_spec(r, ram, in_cwai, it)
                == Err::<(Registers, Seq<u8>), Error>(err(Fault::CorruptVector { vector: vector_of(it) }))
        }),
        err(Fault::CorruptVector { vector: vector_of(it) }).kind == ErrorKind::Runtime,
        interrupt_spec(r, ram, in_cwai, it) matches Ok((r2, m2)) ==> read8_spec(m2, AccessClass::System, r2.pc) matches Ok(b) && b != 0,
{
    reveal(interrupt_spec);
}

/// Total bytes of an interrupt frame.
pub open spec fn frame_size(entire: bool) -> int {
    if entire { 12 } else { 3 }
}

/// The byte `k` places above `s` on the system stack.
pub open spec fn stack_byte(ram: Seq<u8>, s: u16, k: int) -> Result<u8, Error> {
    read8_spec(ram, AccessClass::System, (s + k) as u16)
}

/// Interrupt entry from normal execution matches the table for every type:
/// Swi2 and Swi3 stack everything and mask nothing; Irq stacks everything and
/// masks IRQ; Firq stacks PC and CC only and masks both; Reset, Nmi and Swi
/// stack everything and mask both. The frame holds, from the new stack top
/// up, CC (with E telling whether everything was stacked), then A, B, DP, X,
/// Y, U and PC, or only PC; PC is then the vector's contents.
pub proof fn lemma_interrupt_entry(r: Registers, ram: Seq<u8>, it: InterruptType)
    ensures
        interrupt_spec(r, ram, false, it) matches Ok((r2, m2)) ==> {
            let entire = stacks_entire(it);
            let cc = with_bits(r.cc.bits, CC_E, entire);
            &&& entire == (it != InterruptType::Firq)
            &&& entry_mask(it) == match it {
                InterruptType::Swi2 | InterruptType::Swi3 => 0u8,
                InterruptType::Irq => CC_I,
                _ => (CC_I | CC_F) as u8,
            }
            &&& r2.cc.bits == cc | entry_mask(it)
            &&& r2.s == r.s - frame_size(entire)
            &&& r2.a == r.a && r2.b == r.b && r2.dp == r.dp && r2.x == r.x && r2.y == r.y && r2.u == r.u
            &&& stack_byte(m2, r2.s, 0) == Ok::<u8, Error>(cc)
            &&& entire ==> {
                &&& stack_byte(m2, r2.s, 1) == Ok::<u8, Error>(r.a)
                &&& stack_byte(m2, r2.s, 2) == Ok::<u8, Error>(r.b)
                &&& stack_byte(m2, r2.s, 3) == Ok::<u8, Error>(r.dp)
                &&& stack_byte(m2, r2.s, 4) == Ok::<u8, Error>((r.x / 256) as u8)
                &&& stack_byte(m2, r2.s, 5) == Ok::<u8, Error>((r.x % 256) as u8)
                &&& stack_byte(m2, r2.s, 6) == Ok::<u8, Error>((r.y / 256) as u8)
                &&& stack_byte(m2, r2.s, 7) == Ok::<u8, Error>((r.y % 256) as u8)
                &&& stack_byte(m2, r2.s, 8) == Ok::<u8, Error>((r.u / 256) as u8)
                &&& stack_byte(m2, r2.s, 9) == Ok::<u8, Error>((r.u % 256) as u8)
                &&& stack_byte(m2, r2.s, 10) == Ok::<u8, Error>((r.pc / 256) as u8)
                &&& stack_byte(m2, r2.s, 11) == Ok::<u8, Error>((r.pc % 256) as u8)
            }
            &&& !entire ==> {
                &&& stack_byte(m2, r2.s, 1) == Ok::<u8, Error>((r.pc / 256) as u8)
                &&& stack_byte(m2, r2.s, 2) == Ok::<u8, Error>((r.pc % 256) as u8)
            }
            &&& read16_spec(m2, AccessClass::System, vector_of(it)) == Ok::<u16, Error>(r2.pc)
        },
{
    reveal(interrupt_spec);
    let entire = stacks_entire(it);
    lemma_stack_frame(r, ram, entire);
    match stack_spec(r, ram, entire) {
        Ok((r1, m1)) => {
            assert(interrupt_spec(r, ram, false, it) matches Ok((r2, m2)) ==> m2 == m1 && r2.s == r1.s);
        },
        Err(_) => {},
    }
}

/// Pushing one register lowers S by its width and writes it big-endian at
/// the new S; no other byte changes.
proof fn lemma_push(r: Registers, ram: Seq<u8>, n: Name)
    ensures
        push_spec(Ok((r, ram)), n) matches Ok((r2, m2)) ==> {
            let v = reg_value(r, n);
            &&& r.s >= size_of_reg(n)
            &&& r2 == (Registers { s: (r.s - size_of_reg(n)) as u16, ..r })
            &&& (size_of_reg(n) == 1 ==> stack_byte(m2, r2.s, 0) == Ok::<u8, Error>(v as u8))
            &&& (size_of_reg(n) == 2 ==> stack_byte(m2, r2.s, 0) == Ok::<u8, Error>((v / 256) as u8)
                && stack_byte(m2, r2.s, 1) == Ok::<u8, Error>((v % 256) as u8))
            &&& forall|a: u16|
                phys(AccessClass::System, a) != phys(AccessClass::System, r2.s)
                    && (size_of_reg(n) == 2 ==> phys(AccessClass::System, a) != phys(AccessClass::System, (r2.s + 1) as u16))
                    ==> #[trigger] read8_spec(m2, AccessClass::System, a) == read8_spec(ram, AccessClass::System, a)
        },
{
}

/// The frame that interrupt stacking builds: from the new stack top up, CC
/// (with E set to `entire`), then A, B, DP, X, Y, U and PC, or only PC.
proof fn lemma_stack_frame(r: Registers, ram: Seq<u8>, entire: bool)
    ensures
        stack_spec(r, ram, entire) matches Ok((r2, m2)) ==> {
            let cc = with_bits(r.cc.bits, CC_E, entire);
            &&& r.s >= frame_size(entire)
            &&& r2 == (Registers { s: (r.s - frame_size(entire)) as u16, cc: Cc { bits: cc }, ..r })
            &&& stack_byte(m2, r2.s, 0) == Ok::<u8, Error>(cc)
            &&& entire ==> {
                &&& stack_byte(m2, r2.s, 1) == Ok::<u8, Error>(r.a)
                &&& stack_byte(m2, r2.s, 2) == Ok::<u8, Error>(r.b)
                &&& stack_byte(m2, r2.s, 3) == Ok::<u8, Error>(r.dp)
                &&& stack_byte(m2, r2.s, 4) == Ok::<u8, Error>((r.x / 256) as u8)
                &&& stack_byte(m2, r2.s, 5) == Ok::<u8, Error>((r.x % 256) as u8)
                &&& stack_byte(m2, r2.s, 6) == Ok::<u8, Error>((r.y / 256) as u8)
                &&& stack_byte(m2, r2.s, 7) == Ok::<u8, Error>((r.y % 256) as u8)
                &&& stack_byte(m2, r2.s, 8) == Ok::<u8, Error>((r.u / 256) as u8)
                &&& stack_byte(m2, r2.s, 9) == Ok::<u8, Error>((r.u % 256) as u8)
                &&& stack_byte(m2, r2.s, 10) == Ok::<u8, Error>((r.pc / 256) as u8)
                &&& stack_byte(m2, r2.s, 11) == Ok::<u8, Error>((r.pc % 256) as u8)
            }
            &&& !entire ==> {
                &&& stack_byte(m2, r2.s, 1) == Ok::<u8, Error>((r.pc / 256) as u8)
                &&& stack_byte(m2, r2.s, 2) == Ok::<u8, Error>((r.pc % 256) as u8)
            }
        },
{
    reveal(stack_spec);
    let st0: Result<(Registers, Seq<u8>), Error> = Ok((r, ram));
    let st1 = push_spec(st0, Name::PC);
    lemma_push(r, ram, Name::PC);
    if let Ok((r1, m1)) = st1 {
        if entire {
            lemma_push(r1, m1, Name::U);
            let st2 = push_spec(st1, Name::U);
            if let Ok((r2, m2)) = st2 {
                lemma_push(r2, m2, Name::Y);
                let st3 = push_spec(st2, Name::Y);
                if let Ok((r3, m3)) = st3 {
                    lemma_push(r3, m3, Name::X);
                    let st4 = push_spec(st3, Name::X);
                    if let Ok((r4, m4)) = st4 {
                        lemma_push(r4, m4, Name::DP);
                        let st5 = push_spec(st4, Name::DP);
                        if let Ok((r5, m5)) = st5 {
                            lemma_push(r5, m5, Name::B);
                            let st6 = push_spec(st5, Name::B);
                            if let Ok((r6, m6)) = st6 {
                                lemma_push(r6, m6, Name::A);
                                let st7 = push_spec(st6, Name::A);
                                if let Ok((r7, m7)) = st7 {
                                    let r8 = with_cc(r7, with_bits(r7.cc.bits, CC_E, entire));
                                    lemma_push(r8, m7, Name::CC);
                                }
                            }
                        }
                    }
                }
            }
        } else {
            let r8 = with_cc(r1, with_bits(r1.cc.bits, CC_E, entire));
            lemma_push(r8, m1, Name::CC);
        }
    }
}

} // verus!
