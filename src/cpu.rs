//! The processor core: its state, construction, and program loading.
use vstd::prelude::*;
use crate::acia::Acia;
use crate::config::Args;
use crate::registers::Registers;

verus! {

/// An interrupt or exception type.
#[derive(Clone, Copy, Debug, PartialEq, Eq, Structural)]
pub enum InterruptType {
    Reset,
    Nmi,
    Firq,
    Irq,
    Swi,
    Swi2,
    Swi3,
}

/// Where each interrupt type finds its vector.
pub open spec fn vector_of(it: InterruptType) -> u16 {
    match it {
        InterruptType::Reset => 0xfffe,
        InterruptType::Nmi => 0xfffc,
        InterruptType::Swi => 0xfffa,
        InterruptType::Irq => 0xfff8,
        InterruptType::Firq => 0xfff6,
        InterruptType::Swi2 => 0xfff4,
        InterruptType::Swi3 => 0xfff2,
    }
}

impl InterruptType {
    /// The address of this type's vector.
    pub fn vector(&self) -> (r: u16)
        ensures
            r == vector_of(*self),
    {
        match self {
            InterruptType::Reset => 0xfffe,
            InterruptType::Nmi => 0xfffc,
            InterruptType::Swi => 0xfffa,
            InterruptType::Irq => 0xfff8,
            InterruptType::Firq => 0xfff6,
            InterruptType::Swi2 => 0xfff4,
            InterruptType::Swi3 => 0xfff2,
        }
    }
}

/// The interrupt lines that the peripheral collaborators assert. Each is
/// edge-style: the core consumes a line when it polls it.
#[derive(Clone, Copy, Debug, PartialEq, Eq, Structural)]
pub struct InterruptLines {
    /// Cartridge FIRQ.
    pub cart_firq: bool,
    /// IRQ driven by horizontal sync.
    pub hsync_irq: bool,
    /// IRQ driven by vertical sync.
    pub vsync_irq: bool,
}

/// The processor: registers, exclusively owned RAM, wait states, interrupt
/// timing and counters. Every tick mutates it in place on one thread; RAM is
/// written without locks, and a renderer that reads a copy of it must
/// tolerate a torn frame rather than serialize against the instruction loop.
pub struct Core {
    /// The RAM array; only the first 64 KiB are addressable.
    pub ram: Vec<u8>,
    /// Where the caller wants RAM to end; bytes written at or above it are ROM.
    pub ram_top: u16,
    pub reg: Registers,
    pub acia: Option<Acia>,
    /// Written into the reset vector before every reset, when set.
    pub reset_vector: Option<u16>,
    /// A cartridge is loaded but has not been started.
    pub cart_pending: bool,
    /// Waiting inside CWAI (registers already stacked).
    pub in_cwai: bool,
    /// Waiting inside SYNC.
    pub in_sync: bool,
    /// Clock count at the last hsync poll.
    pub hsync_prev: u64,
    /// Clock count at the last vsync poll.
    pub vsync_prev: u64,
    /// Clock count when the current run started.
    pub start_time: u64,
    /// Instructions executed.
    pub instruction_count: u64,
    /// Clock cycles consumed.
    pub clock_cycles: u64,
    pub lines: InterruptLines,
    pub config: Args,
    /// Disassembly mode: instructions are decoded but not evaluated.
    pub list_mode: bool,
    /// The address the program started at.
    pub program_start: u16,
    /// Set when a run stopped on a fault in a debug run.
    pub faulted: bool,
    /// Set when a load wrote at or above `ram_top`.
    pub rom_write: bool,
}

/// Everything in the core but the registers, the RAM and the counters.
pub open spec fn same_setup(a: Core, b: Core) -> bool {
    &&& a.ram_top == b.ram_top
    &&& a.acia == b.acia
    &&& a.reset_vector == b.reset_vector
    &&& a.start_time == b.start_time
    &&& a.config == b.config
    &&& a.list_mode == b.list_mode
    &&& a.program_start == b.program_start
    &&& a.faulted == b.faulted
    &&& a.rom_write == b.rom_write
}

/// The run state is unchanged: waits, lines, poll times, counters and setup
/// other than the load and reset bookkeeping.
pub open spec fn same_run_state(a: Core, b: Core) -> bool {
    &&& a.ram_top == b.ram_top
    &&& a.acia == b.acia
    &&& a.reset_vector == b.reset_vector
    &&& a.start_time == b.start_time
    &&& a.config == b.config
    &&& a.list_mode == b.list_mode
    &&& a.in_cwai == b.in_cwai
    &&& a.in_sync == b.in_sync
    &&& a.cart_pending == b.cart_pending
    &&& a.lines == b.lines
    &&& a.hsync_prev == b.hsync_prev
    &&& a.vsync_prev == b.vsync_prev
    &&& a.instruction_count == b.instruction_count
    &&& a.clock_cycles == b.clock_cycles
}

/// Only RAM and the ROM-write flag may differ: what a load touches.
pub open spec fn only_load_changed(a: Core, b: Core) -> bool {
    &&& same_run_state(a, b)
    &&& a.reg == b.reg
    &&& a.program_start == b.program_start
    &&& a.faulted == b.faulted
}

/// Everything in the core but the registers is unchanged.
pub open spec fn only_regs_changed(a: Core, b: Core) -> bool {
    &&& a.ram == b.ram
    &&& same_setup(a, b)
    &&& a.in_cwai == b.in_cwai
    &&& a.in_sync == b.in_sync
    &&& a.cart_pending == b.cart_pending
    &&& a.lines == b.lines
    &&& a.hsync_prev == b.hsync_prev
    &&& a.vsync_prev == b.vsync_prev
    &&& a.instruction_count == b.instruction_count
    &&& a.clock_cycles == b.clock_cycles
}

impl Core {
    /// A core over `ram`, with cleared registers, no waits and zero counters.
    pub fn new(ram: Vec<u8>, ram_top: u16, acia_addr: Option<u16>, config: Args) -> (r: Core)
        requires
            acia_addr matches Some(a) ==> a < 0xFFFF,
        ensures
            r.ram@ == ram@,
            r.ram_top == ram_top,
            r.reg == Registers::initial(),
            r.acia is Some == acia_addr is Some,
            r.acia matches Some(a) ==> a.wf() && a.addr == acia_addr->0,
            r.config == config,
            r.reset_vector is None,
            !r.cart_pending && !r.in_cwai && !r.in_sync && !r.list_mode && !r.faulted,
            r.hsync_prev == 0 && r.vsync_prev == 0 && r.instruction_count == 0 && r.clock_cycles == 0,
            r.lines == (InterruptLines { cart_firq: false, hsync_irq: false, vsync_irq: false }),
    {
        let acia = match acia_addr {
            Some(a) => match Acia::new(a) {
                Ok(c) => Some(c),
                Err(_) => None,
            },
            None => None,
        };
        Core {
            ram,
            ram_top,
            reg: Registers::new(),
            acia,
            reset_vector: None,
            cart_pending: false,
            in_cwai: false,
            in_sync: false,
            hsync_prev: 0,
            vsync_prev: 0,
            start_time: 0,
            instruction_count: 0,
            clock_cycles: 0,
            lines: InterruptLines { cart_firq: false, hsync_irq: false, vsync_irq: false },
            config,
            list_mode: false,
            program_start: 0,
            faulted: false,
            rom_write: false,
        }
    }
}

} // verus!
