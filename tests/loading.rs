use coco_core::config::Args;
use coco_core::cpu::Core;
use coco_core::error::{ErrorKind, Fault};
use coco_core::program::{ByteObject, HexRecord, HexRecordType, Program, ProgramLine};

fn small_core() -> Core {
    Core::new(vec![0u8; 0x100], 0x80, None, Args::new())
}

fn data(address: u16, bytes: &[u8]) -> HexRecord {
    HexRecord { record_type: HexRecordType::Data, address, data: bytes.to_vec() }
}

fn eof() -> HexRecord {
    HexRecord { record_type: HexRecordType::EndOfFile, address: 0, data: vec![] }
}

#[test]
fn hex_load_counts_bytes() {
    let mut core = small_core();
    let recs = vec![
        data(0x10, &[1, 2, 3]),
        HexRecord { record_type: HexRecordType::StartLinearAddress, address: 0, data: vec![9] },
        data(0x20, &[4, 5]),
        eof(),
        data(0x30, &[6]),
    ];
    assert_eq!(core.load_hex(&recs), Ok(5));
    assert_eq!(&core.ram[0x10..0x13], &[1, 2, 3]);
    assert_eq!(&core.ram[0x20..0x22], &[4, 5]);
    assert_eq!(core.ram[0x30], 0);
    assert!(!core.rom_write);
}

#[test]
fn hex_overflow_keeps_earlier_bytes() {
    let mut core = small_core();
    core.load_bytes(&[0xAA; 4], 0xFC).unwrap();
    let recs = vec![data(0x10, &[1, 2]), data(0xFE, &[7, 7, 7]), eof()];
    let e = core.load_hex(&recs).unwrap_err();
    assert_eq!(e.kind, ErrorKind::Memory);
    assert_eq!(e.fault, Fault::RamOverflow { size: 3, addr: 0xFE });
    assert_eq!(&core.ram[0x10..0x12], &[1, 2]);
    assert_eq!(&core.ram[0xFC..0x100], &[0xAA; 4]);
}

#[test]
fn hex_without_end_record() {
    let mut core = small_core();
    let e = core.load_hex(&vec![data(0x10, &[1])]).unwrap_err();
    assert_eq!(e.kind, ErrorKind::General);
    assert_eq!(e.fault, Fault::MissingEndRecord);
}

#[test]
fn hex_rom_flag() {
    let mut core = small_core();
    assert_eq!(core.load_hex(&vec![data(0x7F, &[1, 2]), eof()]), Ok(2));
    assert!(core.rom_write);
}

#[test]
fn bytes_truncate_at_end_of_ram() {
    let mut core = small_core();
    assert_eq!(core.load_bytes(&[1, 2, 3, 4], 0xFE), Ok(2));
    assert_eq!(&core.ram[0xFE..0x100], &[1, 2]);
    assert_eq!(core.load_bytes(&[1], 0x200), Ok(0));
}

#[test]
fn program_load_writes_objects() {
    let mut core = Core::new(vec![0u8; 0x10000], 0x8000, None, Args::new());
    core.load_bytes(&[0x12, 0x34], 0xBFFE).unwrap();
    let program = Program {
        lines: vec![
            ProgramLine { obj: Some(ByteObject { addr: 0x1000, bytes: vec![0x86, 0x01] }) },
            ProgramLine { obj: None },
            ProgramLine { obj: Some(ByteObject { addr: 0x1002, bytes: vec![0x12] }) },
        ],
    };
    assert_eq!(core.load_program(&program), Ok(3));
    assert_eq!(&core.ram[0x1000..0x1003], &[0x86, 0x01, 0x12]);
    // the reset vector is cleared first
    assert_eq!(&core.ram[0xBFFE..0xC000], &[0, 0]);
    assert!(!core.rom_write);
}

#[test]
fn program_overflow_is_memory_error() {
    let mut core = Core::new(vec![0u8; 0xC000], 0x8000, None, Args::new());
    core.load_bytes(&[0xAB, 0xCD], 0xBFFE).unwrap();
    let program = Program {
        lines: vec![
            ProgramLine { obj: Some(ByteObject { addr: 0x1000, bytes: vec![5] }) },
            ProgramLine { obj: Some(ByteObject { addr: 0xBFFF, bytes: vec![1, 2] }) },
        ],
    };
    let e = core.load_program(&program).unwrap_err();
    assert_eq!(e.kind, ErrorKind::Memory);
    assert_eq!(e.fault, Fault::RamOverflow { size: 2, addr: 0xBFFF });
    // nothing is written: the reset vector slot and earlier bytes stay
    assert_eq!(&core.ram[0xBFFE..0xC000], &[0xAB, 0xCD]);
    assert_eq!(core.ram[0x1000], 0);
}
