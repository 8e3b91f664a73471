use coco_core::config::Args;
use coco_core::cpu::{Core, InterruptType};
use coco_core::error::{ErrorKind, Fault};
use coco_core::instructions::{AddressingMode, PostByteKind};
use coco_core::registers::CCBit;
use coco_core::runtime::RunStop;

fn core64k() -> Core {
    Core::new(vec![0u8; 0x10000], 0xFFFF, None, Args::new())
}

/// Writes a 16-bit vector for `vector` as the System class sees it: the top
/// page is an alias of the page 0x4000 below.
fn set_vector(core: &mut Core, vector: u16, target: u16) {
    let phys = vector - 0x4000;
    core.load_bytes(&[(target >> 8) as u8, target as u8], phys).unwrap();
}

#[test]
fn lda_immediate_clears_zero_and_negative() {
    let mut core = core64k();
    core.load_bytes(&[0x86, 0x55], 0x1000).unwrap();
    core.reg.pc = 0x1000;
    core.exec_one().unwrap();
    assert_eq!(core.reg.a, 0x55);
    assert_eq!(core.reg.pc, 0x1002);
    assert!(!core.reg.cc.is_set(CCBit::Z));
    assert!(!core.reg.cc.is_set(CCBit::N));
}

#[test]
fn indexed_increment_by_two() {
    let mut core = core64k();
    // LDA ,X++
    core.load_bytes(&[0xA6, 0x81], 0x1000).unwrap();
    core.load_bytes(&[0x42], 0x2000).unwrap();
    core.reg.pc = 0x1000;
    core.reg.x = 0x2000;
    let o = core.exec_next(true).unwrap();
    assert_eq!(o.inst.ea, 0x2000);
    assert_eq!(o.inst.size, 2);
    assert_eq!(core.reg.x, 0x2002);
    assert_eq!(core.reg.a, 0x42);
    assert_eq!(core.reg.pc, 0x1002);
}

#[test]
fn cwai_then_irq_stacks_everything() {
    let mut core = core64k();
    set_vector(&mut core, 0xFFF8, 0x3000);
    core.load_bytes(&[0x12], 0x3000).unwrap(); // NOP at the handler
    // CWAI #$EF clears the IRQ mask
    core.load_bytes(&[0x3C, 0xEF], 0x1000).unwrap();
    core.reg.pc = 0x1000;
    core.reg.s = 0x8000;
    core.reg.u = 0x1111;
    core.reg.y = 0x2222;
    core.reg.x = 0x3333;
    core.reg.dp = 0x44;
    core.reg.b = 0x55;
    core.reg.a = 0x66;
    core.exec_one().unwrap();
    assert!(core.in_cwai);
    assert_eq!(core.reg.s, 0x8000 - 12);
    core.lines.hsync_irq = true;
    let mut n = 0;
    while core.in_cwai && n < 200 {
        core.exec_one().unwrap();
        n += 1;
    }
    assert!(!core.in_cwai);
    assert_eq!(core.reg.pc, 0x3000);
    let s = core.reg.s as usize;
    assert_eq!(s, 0x8000 - 12);
    let frame = &core.ram[s..s + 12];
    // CC, A, B, DP, X, Y, U, PC from the top of the stack down
    assert_eq!(frame[0] & 0x80, 0x80);
    assert_eq!(frame[1], 0x66);
    assert_eq!(frame[2], 0x55);
    assert_eq!(frame[3], 0x44);
    assert_eq!(&frame[4..6], &[0x33, 0x33]);
    assert_eq!(&frame[6..8], &[0x22, 0x22]);
    assert_eq!(&frame[8..10], &[0x11, 0x11]);
    assert_eq!(&frame[10..12], &[0x10, 0x02]);
    // the FIRQ mask set at reset survives CWAI #$EF; IRQ entry sets I again
    assert!(core.reg.cc.is_set(CCBit::I));
    assert!(core.reg.cc.is_set(CCBit::F));
}

#[test]
fn direct_mode_uses_dp() {
    let mut core = core64k();
    core.load_bytes(&[0x96, 0x10], 0x1000).unwrap();
    core.load_bytes(&[0x80], 0x2010).unwrap();
    core.reg.pc = 0x1000;
    core.reg.dp = 0x20;
    core.exec_one().unwrap();
    assert_eq!(core.reg.a, 0x80);
    assert!(core.reg.cc.is_set(CCBit::N));
    assert_eq!(core.reg.pc, 0x1002);
}

#[test]
fn relative_branch_target() {
    let mut core = core64k();
    // BRA -4 at 0x1000: target 0x1002 - 4
    core.load_bytes(&[0x20, 0xFC], 0x1000).unwrap();
    core.reg.pc = 0x1000;
    let o = core.exec_next(true).unwrap();
    assert_eq!(o.inst.flavor.mode, AddressingMode::Relative);
    assert_eq!(o.inst.ea, 0x0FFE);
    assert_eq!(core.reg.pc, 0x0FFE);
}

#[test]
fn long_branch_on_page_two() {
    let mut core = core64k();
    // LBEQ +0x0100 with Z set
    core.load_bytes(&[0x10, 0x27, 0x01, 0x00], 0x1000).unwrap();
    core.reg.pc = 0x1000;
    core.reg.cc.set(CCBit::Z, true);
    let o = core.exec_next(true).unwrap();
    assert_eq!(o.inst.size, 4);
    assert_eq!(o.inst.opsize, 2);
    assert_eq!(core.reg.pc, 0x1104);
}

#[test]
fn indexed_sub_modes() {
    let mut core = core64k();
    core.reg.y = 0x2000;
    core.reg.b = 0xFF; // -1
    // LEAX -16,Y (5-bit offset 0x10 with Y selected: 0b0_01_10000)
    core.load_bytes(&[0x30, 0x30], 0x1000).unwrap();
    // LEAX B,Y
    core.load_bytes(&[0x30, 0xA5], 0x1002).unwrap();
    // LEAX 300,Y (16-bit offset)
    core.load_bytes(&[0x30, 0xA9, 0x01, 0x2C], 0x1004).unwrap();
    // LEAX ,-Y
    core.load_bytes(&[0x30, 0xA2], 0x1008).unwrap();
    // LEAX 2,PC (8-bit PC-relative)
    core.load_bytes(&[0x30, 0x8C, 0x02], 0x100A).unwrap();
    core.reg.pc = 0x1000;
    core.exec_one().unwrap();
    assert_eq!(core.reg.x, 0x1FF0);
    core.exec_one().unwrap();
    assert_eq!(core.reg.x, 0x1FFF);
    core.exec_one().unwrap();
    assert_eq!(core.reg.x, 0x2000 + 300);
    assert_eq!(core.reg.pc, 0x1008);
    core.exec_one().unwrap();
    assert_eq!(core.reg.y, 0x1FFF);
    assert_eq!(core.reg.x, 0x1FFF);
    core.exec_one().unwrap();
    assert_eq!(core.reg.x, 0x100D + 2);
    assert_eq!(core.reg.pc, 0x100D);
}

#[test]
fn indexed_indirect() {
    let mut core = core64k();
    // LDA [,X] reads the address stored at X
    core.load_bytes(&[0xA6, 0x94], 0x1000).unwrap();
    core.load_bytes(&[0x30, 0x00], 0x2000).unwrap();
    core.load_bytes(&[0x7A], 0x3000).unwrap();
    core.reg.x = 0x2000;
    core.reg.pc = 0x1000;
    let o = core.exec_next(true).unwrap();
    assert_eq!(o.inst.ea, 0x3000);
    assert_eq!(core.reg.a, 0x7A);
}

#[test]
fn extended_indirect() {
    let mut core = core64k();
    // LDA [$2000]
    core.load_bytes(&[0xA6, 0x9F, 0x20, 0x00], 0x1000).unwrap();
    core.load_bytes(&[0x30, 0x00], 0x2000).unwrap();
    core.load_bytes(&[0x5A], 0x3000).unwrap();
    core.reg.pc = 0x1000;
    let o = core.exec_next(true).unwrap();
    assert_eq!(o.inst.ea, 0x3000);
    assert_eq!(o.inst.size, 4);
    assert_eq!(core.reg.a, 0x5A);
}

#[test]
fn counters_follow_base_cost() {
    let mut core = core64k();
    // LDA $2000 (extended, 5 cycles), then NOP (2 cycles)
    core.load_bytes(&[0xB6, 0x20, 0x00, 0x12], 0x1000).unwrap();
    core.reg.pc = 0x1000;
    core.exec_next(true).unwrap();
    assert_eq!(core.instruction_count, 1);
    assert_eq!(core.clock_cycles, 5);
    core.exec_next(true).unwrap();
    assert_eq!(core.instruction_count, 2);
    assert_eq!(core.clock_cycles, 7);
}

#[test]
fn failed_decode_leaves_counters() {
    let mut core = core64k();
    core.load_bytes(&[0x02], 0x1000).unwrap();
    core.reg.pc = 0x1000;
    let e = core.exec_next(true).unwrap_err();
    assert_eq!(e.kind, ErrorKind::Runtime);
    assert_eq!(e.fault, Fault::BadInstruction { opcode: 0x02, pc: 0x1000 });
    assert_eq!(core.instruction_count, 0);
    assert_eq!(core.clock_cycles, 0);
}

#[test]
fn illegal_indirect_auto_increment() {
    let mut core = core64k();
    // LDA [,X+] is not a legal encoding
    core.load_bytes(&[0xA6, 0x90], 0x1000).unwrap();
    core.reg.pc = 0x1000;
    let e = core.exec_one().unwrap_err();
    assert_eq!(e.kind, ErrorKind::Syntax);
    assert_eq!(e.fault, Fault::IllegalIndirect { postbyte: 0x90, pc: 0x1000 });
    assert_eq!(core.instruction_count, 0);
}

#[test]
fn invalid_post_byte() {
    let mut core = core64k();
    core.load_bytes(&[0xA6, 0x87], 0x1000).unwrap();
    core.reg.pc = 0x1000;
    let e = core.exec_one().unwrap_err();
    assert_eq!(e.kind, ErrorKind::Syntax);
    assert_eq!(e.fault, Fault::InvalidPostByte { postbyte: 0x87, pc: 0x1000 });
}

#[test]
fn pc_overflow_is_an_error() {
    let mut core = core64k();
    core.load_bytes(&[0x12], 0xFFFF).unwrap();
    core.reg.pc = 0xFFFF;
    let e = core.exec_one().unwrap_err();
    assert_eq!(e.kind, ErrorKind::Runtime);
    assert_eq!(e.fault, Fault::PcOverflow { pc: 0xFFFF });
    assert_eq!(core.reg.pc, 0xFFFF);
}

#[test]
fn exit_instruction_ends_run() {
    let mut core = core64k();
    core.load_bytes(&[0x12, 0x12, 0x01], 0x1000).unwrap();
    core.reg.pc = 0x1000;
    assert_eq!(core.exec(100), Ok(RunStop::Exited));
    assert_eq!(core.instruction_count, 3);
}

#[test]
fn run_budget_is_kept() {
    let mut core = core64k();
    core.load_bytes(&[0x20, 0xFE], 0x1000).unwrap(); // BRA *
    core.reg.pc = 0x1000;
    assert_eq!(core.exec(10), Ok(RunStop::BudgetSpent));
    assert_eq!(core.instruction_count, 10);
}

#[test]
fn run_fault_without_debugger_returns_error() {
    let mut core = core64k();
    core.load_bytes(&[0x02], 0x1000).unwrap();
    core.reg.pc = 0x1000;
    let e = core.exec(5).unwrap_err();
    assert_eq!(e.kind, ErrorKind::Runtime);
}

#[test]
fn run_fault_with_debugger_hands_over() {
    let mut args = Args::new();
    args.debug = true;
    let mut core = Core::new(vec![0u8; 0x10000], 0xFFFF, None, args);
    core.load_bytes(&[0x02], 0x1000).unwrap();
    core.reg.pc = 0x1000;
    assert_eq!(core.exec(5), Ok(RunStop::Faulted));
    assert!(core.faulted);
}

#[test]
fn corrupt_vector_is_fatal() {
    let mut core = core64k();
    set_vector(&mut core, 0xFFFA, 0x4000); // byte at 0x4000 is zero
    core.load_bytes(&[0x3F], 0x1000).unwrap(); // SWI
    core.reg.pc = 0x1000;
    core.reg.s = 0x8000;
    let e = core.exec_one().unwrap_err();
    assert_eq!(e.kind, ErrorKind::Runtime);
    assert_eq!(e.fault, Fault::CorruptVector { vector: 0xFFFA });
    assert_ne!(core.reg.pc, 0x4000);
}

#[test]
fn stack_underflow_is_an_error() {
    let mut core = core64k();
    core.reg.s = 1;
    let e = core.stack_for_interrupt(true).unwrap_err();
    assert_eq!(e.kind, ErrorKind::Runtime);
    assert_eq!(e.fault, Fault::StackOverflow { s: 1 });
}

fn entry(it: InterruptType) -> (u16, u8) {
    let mut core = core64k();
    set_vector(&mut core, it.vector(), 0x3000);
    core.load_bytes(&[0x12], 0x3000).unwrap();
    core.reg.s = 0x8000;
    core.reg.cc.bits = 0;
    core.start_interrupt(it).unwrap();
    assert_eq!(core.reg.pc, 0x3000);
    (0x8000 - core.reg.s, core.reg.cc.bits)
}

#[test]
fn interrupt_entry_table() {
    assert_eq!(entry(InterruptType::Swi2), (12, 0x80));
    assert_eq!(entry(InterruptType::Swi3), (12, 0x80));
    assert_eq!(entry(InterruptType::Irq), (12, 0x90));
    assert_eq!(entry(InterruptType::Firq), (3, 0x50));
    assert_eq!(entry(InterruptType::Reset), (12, 0xD0));
    assert_eq!(entry(InterruptType::Nmi), (12, 0xD0));
    assert_eq!(entry(InterruptType::Swi), (12, 0xD0));
}

#[test]
fn vectors() {
    assert_eq!(InterruptType::Reset.vector(), 0xfffe);
    assert_eq!(InterruptType::Nmi.vector(), 0xfffc);
    assert_eq!(InterruptType::Swi.vector(), 0xfffa);
    assert_eq!(InterruptType::Irq.vector(), 0xfff8);
    assert_eq!(InterruptType::Firq.vector(), 0xfff6);
    assert_eq!(InterruptType::Swi2.vector(), 0xfff4);
    assert_eq!(InterruptType::Swi3.vector(), 0xfff2);
}

#[test]
fn sync_ends_on_masked_irq() {
    let mut core = core64k();
    core.load_bytes(&[0x13, 0x12], 0x1000).unwrap(); // SYNC; NOP
    core.reg.pc = 0x1000;
    core.reg.cc.bits = 0x50; // both masks set
    core.exec_one().unwrap();
    assert!(core.in_sync);
    core.lines.hsync_irq = true;
    let mut n = 0;
    while core.in_sync && n < 200 {
        core.exec_one().unwrap();
        n += 1;
    }
    assert!(!core.in_sync);
    // masked: not serviced, execution continues after SYNC
    assert_eq!(core.reg.pc, 0x1001);
    assert_eq!(core.reg.s, 0);
}

#[test]
fn cart_firq_serviced_when_unmasked() {
    let mut core = core64k();
    set_vector(&mut core, 0xFFF6, 0x3000);
    core.load_bytes(&[0x12], 0x3000).unwrap();
    core.load_bytes(&[0x12], 0x1000).unwrap();
    core.reg.pc = 0x1000;
    core.reg.s = 0x8000;
    core.reg.cc.bits = 0;
    core.cart_pending = true;
    core.lines.cart_firq = true;
    core.clock_cycles = 64;
    core.exec_one().unwrap();
    assert_eq!(core.reg.pc, 0x3000);
    assert_eq!(core.reg.s, 0x8000 - 3);
    assert!(!core.cart_pending);
    assert!(core.reg.cc.is_set(CCBit::F));
    assert!(core.reg.cc.is_set(CCBit::I));
}

#[test]
fn masked_irq_not_serviced() {
    let mut core = core64k();
    core.load_bytes(&[0x12], 0x1000).unwrap();
    core.reg.pc = 0x1000;
    core.reg.cc.bits = 0x10;
    core.lines.hsync_irq = true;
    core.clock_cycles = 64;
    core.exec_one().unwrap();
    assert_eq!(core.reg.pc, 0x1001);
    assert!(!core.lines.hsync_irq);
}

#[test]
fn reset_loads_vector() {
    let mut core = core64k();
    set_vector(&mut core, 0xFFFE, 0x1234);
    core.reset().unwrap();
    assert_eq!(core.reg.pc, 0x1234);
    assert_eq!(core.program_start, 0x1234);
    core.reset_vector = Some(0x4321);
    core.reset().unwrap();
    assert_eq!(core.reg.pc, 0x4321);
}

#[test]
fn accumulator_arithmetic() {
    let mut core = core64k();
    // LDA #$7F; ADDA #$01 -> 0x80, V and N set
    core.load_bytes(&[0x86, 0x7F, 0x8B, 0x01], 0x1000).unwrap();
    // SUBB #$01 with B = 0 -> 0xFF, C and N set
    core.load_bytes(&[0xC0, 0x01], 0x1004).unwrap();
    // LDD #$1234; STD $2000
    core.load_bytes(&[0xCC, 0x12, 0x34, 0xFD, 0x20, 0x00], 0x1006).unwrap();
    core.reg.pc = 0x1000;
    core.exec_one().unwrap();
    core.exec_one().unwrap();
    assert_eq!(core.reg.a, 0x80);
    assert!(core.reg.cc.is_set(CCBit::V));
    assert!(core.reg.cc.is_set(CCBit::N));
    assert!(core.reg.cc.is_set(CCBit::H));
    core.exec_one().unwrap();
    assert_eq!(core.reg.b, 0xFF);
    assert!(core.reg.cc.is_set(CCBit::C));
    core.exec_one().unwrap();
    assert_eq!(core.reg.d(), 0x1234);
    assert_eq!((core.reg.a, core.reg.b), (0x12, 0x34));
    core.exec_one().unwrap();
    assert_eq!(&core.ram[0x2000..0x2002], &[0x12, 0x34]);
}

#[test]
fn out_of_bounds_access() {
    let mut core = Core::new(vec![0u8; 0x1000], 0x1000, None, Args::new());
    core.load_bytes(&[0xB6, 0x20, 0x00], 0x0100).unwrap(); // LDA $2000
    core.reg.pc = 0x0100;
    let e = core.exec_one().unwrap_err();
    assert_eq!(e.kind, ErrorKind::Memory);
    assert_eq!(e.fault, Fault::OutOfBounds { addr: 0x2000 });
}

#[test]
fn subroutine_call_and_return() {
    let mut core = core64k();
    // JSR $2000; NOP     /  at $2000: LDA #$11; RTS
    core.load_bytes(&[0xBD, 0x20, 0x00, 0x12], 0x1000).unwrap();
    core.load_bytes(&[0x86, 0x11, 0x39], 0x2000).unwrap();
    core.reg.pc = 0x1000;
    core.reg.s = 0x8000;
    core.exec_one().unwrap();
    assert_eq!(core.reg.pc, 0x2000);
    assert_eq!(core.reg.s, 0x7FFE);
    assert_eq!(&core.ram[0x7FFE..0x8000], &[0x10, 0x03]);
    assert_eq!(core.clock_cycles, 8);
    core.exec_one().unwrap();
    core.exec_one().unwrap();
    assert_eq!(core.reg.pc, 0x1003);
    assert_eq!(core.reg.s, 0x8000);
    assert_eq!(core.reg.a, 0x11);
}

#[test]
fn branch_to_subroutine() {
    let mut core = core64k();
    // BSR +2 at 0x1000 -> 0x1004; LBSR from 0x1004 by +0x0100 -> 0x1107
    core.load_bytes(&[0x8D, 0x02], 0x1000).unwrap();
    core.load_bytes(&[0x17, 0x01, 0x00], 0x1004).unwrap();
    core.reg.pc = 0x1000;
    core.reg.s = 0x8000;
    core.exec_one().unwrap();
    assert_eq!(core.reg.pc, 0x1004);
    assert_eq!(&core.ram[0x7FFE..0x8000], &[0x10, 0x02]);
    core.exec_one().unwrap();
    assert_eq!(core.reg.pc, 0x1107);
    assert_eq!(&core.ram[0x7FFC..0x7FFE], &[0x10, 0x07]);
}

#[test]
fn software_interrupt_round_trip() {
    let mut core = core64k();
    set_vector(&mut core, 0xFFFA, 0x3000);
    // handler: LDA #$99; RTI
    core.load_bytes(&[0x86, 0x99, 0x3B], 0x3000).unwrap();
    core.load_bytes(&[0x3F, 0x12], 0x1000).unwrap(); // SWI; NOP
    core.reg.pc = 0x1000;
    core.reg.s = 0x8000;
    core.reg.a = 0x01;
    core.reg.x = 0xBEEF;
    core.reg.cc.bits = 0;
    core.exec_one().unwrap();
    assert_eq!(core.reg.pc, 0x3000);
    assert_eq!(core.reg.cc.bits, 0xD0);
    core.exec_one().unwrap();
    assert_eq!(core.reg.a, 0x99);
    core.exec_one().unwrap();
    assert_eq!(core.reg.pc, 0x1001);
    assert_eq!(core.reg.a, 0x01);
    assert_eq!(core.reg.x, 0xBEEF);
    assert_eq!(core.reg.s, 0x8000);
    assert_eq!(core.reg.cc.bits, 0x80);
}

#[test]
fn fast_interrupt_return_pulls_pc_only() {
    let mut core = core64k();
    core.reg.s = 0x7FFD;
    core.reg.a = 0x42;
    // frame: CC without E, then PC = 0x1234
    core.load_bytes(&[0x05, 0x12, 0x34], 0x7FFD).unwrap();
    core.load_bytes(&[0x3B], 0x1000).unwrap();
    core.reg.pc = 0x1000;
    core.exec_one().unwrap();
    assert_eq!(core.reg.pc, 0x1234);
    assert_eq!(core.reg.cc.bits, 0x05);
    assert_eq!(core.reg.a, 0x42);
    assert_eq!(core.reg.s, 0x8000);
}

#[test]
fn push_and_pull_registers() {
    let mut core = core64k();
    // PSHS A,B,X,PC ; then clear A, B, X ; PULS A,B,X
    core.load_bytes(&[0x34, 0x96, 0x4F, 0x5F, 0x8E, 0x00, 0x00, 0x35, 0x16], 0x1000).unwrap();
    core.reg.pc = 0x1000;
    core.reg.s = 0x8000;
    core.reg.a = 0x11;
    core.reg.b = 0x22;
    core.reg.x = 0x3344;
    core.exec_one().unwrap();
    assert_eq!(core.reg.s, 0x8000 - 6);
    // lowest address first: A, B, X, PC
    assert_eq!(&core.ram[0x7FFA..0x8000], &[0x11, 0x22, 0x33, 0x44, 0x10, 0x02]);
    core.exec_one().unwrap();
    core.exec_one().unwrap();
    core.exec_one().unwrap();
    assert_eq!((core.reg.a, core.reg.b, core.reg.x), (0, 0, 0));
    let o = core.exec_next(true).unwrap();
    assert_eq!(o.inst.flavor.pbt, PostByteKind::PushPull);
    assert_eq!((core.reg.a, core.reg.b, core.reg.x), (0x11, 0x22, 0x3344));
    assert_eq!(core.reg.s, 0x7FFE);
}

#[test]
fn user_stack_push_names_s() {
    let mut core = core64k();
    // PSHU S
    core.load_bytes(&[0x36, 0x40], 0x1000).unwrap();
    core.reg.pc = 0x1000;
    core.reg.u = 0x6000;
    core.reg.s = 0xABCD;
    core.exec_one().unwrap();
    assert_eq!(core.reg.u, 0x5FFE);
    assert_eq!(&core.ram[0x5FFE..0x6000], &[0xAB, 0xCD]);
}

#[test]
fn transfer_and_exchange() {
    let mut core = core64k();
    // TFR X,Y ; EXG A,B ; TFR A,DP
    core.load_bytes(&[0x1F, 0x12, 0x1E, 0x89, 0x1F, 0x8B], 0x1000).unwrap();
    core.reg.pc = 0x1000;
    core.reg.x = 0x1234;
    core.reg.a = 0x01;
    core.reg.b = 0x02;
    let o = core.exec_next(true).unwrap();
    assert_eq!(o.inst.flavor.pbt, PostByteKind::TransferExchange);
    assert_eq!(core.reg.y, 0x1234);
    core.exec_one().unwrap();
    assert_eq!((core.reg.a, core.reg.b), (0x02, 0x01));
    core.exec_one().unwrap();
    assert_eq!(core.reg.dp, 0x02);
}

#[test]
fn transfer_with_unknown_register() {
    let mut core = core64k();
    core.load_bytes(&[0x1F, 0x16], 0x1000).unwrap();
    core.reg.pc = 0x1000;
    let e = core.exec_one().unwrap_err();
    assert_eq!(e.kind, ErrorKind::Runtime);
    assert_eq!(e.fault, Fault::InvalidRegister { postbyte: 0x16 });
}
