use coco_core::acia::{Acia, RDRF, TDRE};
use coco_core::config::{auto_load_syms, debug, help_humans, trace, verbose, Args};
use coco_core::input::{InputDevice, InputEvent, Ps2Decoder, UsbKeyboard};
use coco_core::term::get_keyboard_input;

#[test]
fn acia_registers() {
    let mut acia = Acia::new(0xFF68).unwrap();
    assert_eq!(acia.control_register_address(), 0xFF68);
    assert_eq!(acia.status_register_address(), 0xFF68);
    assert_eq!(acia.data_register_address(), 0xFF69);
    assert!(acia.owns_address(0xFF68));
    assert!(acia.owns_address(0xFF69));
    assert!(!acia.owns_address(0xFF6A));
    assert_eq!(acia.read(0xFF68), Ok(0));
    acia.recv_cache = Some(0x41);
    acia.tty_count = 1;
    assert_eq!(acia.read(0xFF68), Ok(RDRF | TDRE));
    assert_eq!(acia.read(0xFF69), Ok(0x41));
    assert_eq!(acia.read(0xFF69), Ok(0));
    assert_eq!(acia.read(0xFF68), Ok(TDRE));
    assert_eq!(acia.write(0xFF69, 7), Ok(()));
}

#[test]
fn config_switches() {
    let mut a = Args::new();
    assert!(!debug(&a) && !trace(&a) && !verbose(&a) && !help_humans(&a));
    assert!(!auto_load_syms(&a));
    a.debug = true;
    assert!(help_humans(&a));
    assert!(!auto_load_syms(&a));
    a.no_auto_sym = false;
    assert!(auto_load_syms(&a));
    let mut t = Args::new();
    t.trace = true;
    assert!(help_humans(&t) && trace(&t));
}

/// Feeds an idle (high) line, then a PS/2 frame (start, 8 data bits LSB
/// first, parity, stop).
fn feed(d: &mut Ps2Decoder, byte: u8) -> Option<InputEvent> {
    let mut bits = vec![1u32; 16];
    bits.push(0);
    for i in 0..8 {
        bits.push(((byte >> i) & 1) as u32);
    }
    bits.push((byte.count_ones() % 2 == 0) as u32);
    bits.push(1);
    let mut out = None;
    for b in bits {
        if let Some(e) = d.push_bit(b) {
            out = Some(e);
        }
    }
    out
}

#[test]
fn ps2_press_and_release() {
    let mut d = Ps2Decoder::new();
    assert_eq!(feed(&mut d, 0x1C), Some(InputEvent::Press(b'a')));
    assert_eq!(feed(&mut d, 0xF0), None);
    assert_eq!(feed(&mut d, 0x1C), Some(InputEvent::Release(b'a')));
    assert_eq!(feed(&mut d, 0x5A), Some(InputEvent::Press(b'\n')));
    assert_eq!(feed(&mut d, 0x07), None);
}

#[test]
fn scancode_table() {
    let d = Ps2Decoder::new();
    assert_eq!(d.map_scancode(0x45), Some(b'0'));
    assert_eq!(d.map_scancode(0x1A), Some(b'z'));
    assert_eq!(d.map_scancode(0x66), Some(0x08));
    assert_eq!(d.map_scancode(0x29), Some(b' '));
    assert_eq!(d.map_scancode(0x00), None);
}

#[test]
fn usb_keyboard_is_silent() {
    let mut k = UsbKeyboard::new();
    assert_eq!(k.poll(), None);
    assert_eq!(get_keyboard_input(true, false), None);
}
