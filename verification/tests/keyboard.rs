use rust_usb::keyboard::{scancode_to_ascii, Keyboard, PollAction, PollEvent};

fn report(modifier: u8, keys: [u8; 6]) -> [u8; 8] {
    [modifier, 0, keys[0], keys[1], keys[2], keys[3], keys[4], keys[5]]
}

#[test]
fn letters_digits_and_symbols() {
    assert_eq!(scancode_to_ascii(4, 0), b'a');
    assert_eq!(scancode_to_ascii(29, 0), b'z');
    assert_eq!(scancode_to_ascii(4, 0x02), b'A');
    assert_eq!(scancode_to_ascii(29, 0x20), b'Z');
    assert_eq!(scancode_to_ascii(30, 0), b'1');
    assert_eq!(scancode_to_ascii(39, 0), b'0');
    assert_eq!(scancode_to_ascii(30, 0x02), b'!');
    assert_eq!(scancode_to_ascii(39, 0x02), b')');
    assert_eq!(scancode_to_ascii(40, 0), b'\r');
    assert_eq!(scancode_to_ascii(41, 0), 0x1B);
    assert_eq!(scancode_to_ascii(42, 0), 0x08);
    assert_eq!(scancode_to_ascii(44, 0x02), b' ');
    assert_eq!(scancode_to_ascii(56, 0), b'/');
    assert_eq!(scancode_to_ascii(56, 0x02), b'?');
}

#[test]
fn keys_without_characters() {
    assert_eq!(scancode_to_ascii(0, 0), 0);
    assert_eq!(scancode_to_ascii(3, 0x02), 0);
    assert_eq!(scancode_to_ascii(50, 0), 0);
    assert_eq!(scancode_to_ascii(57, 0), 0);
    assert_eq!(scancode_to_ascii(255, 0x02), 0);
    // Ctrl (0x01) and Alt (0x04) are no Shift.
    assert_eq!(scancode_to_ascii(4, 0x05), b'a');
}

#[test]
fn every_letter_key() {
    for sc in 4u8..=29 {
        assert_eq!(scancode_to_ascii(sc, 0), b'a' + sc - 4);
        assert_eq!(scancode_to_ascii(sc, 0x22), b'A' + sc - 4);
    }
}

#[test]
fn empty_buffer_asks_for_a_report() {
    let mut k = Keyboard::new(1, 2, 0);
    assert_eq!(k.poll(PollEvent::Start), PollAction::Transfer { dev_addr: 1, ep_num: 2, data1: false });
}

#[test]
fn report_types_pressed_key_and_flips_toggle() {
    let mut k = Keyboard::new(3, 1, 0);
    assert_eq!(k.poll(PollEvent::Report(report(0, [4, 0, 0, 0, 0, 0]))), PollAction::Return(b'a'));
    assert_eq!(k.poll(PollEvent::Start), PollAction::Transfer { dev_addr: 3, ep_num: 1, data1: true });
    assert_eq!(k.poll(PollEvent::Report(report(0, [0; 6]))), PollAction::Return(0));
    assert_eq!(k.poll(PollEvent::Start), PollAction::Transfer { dev_addr: 3, ep_num: 1, data1: false });
}

#[test]
fn held_key_types_once() {
    let mut k = Keyboard::new(1, 1, 0);
    let r = report(0, [5, 0, 0, 0, 0, 0]);
    assert_eq!(k.poll(PollEvent::Report(r)), PollAction::Return(b'b'));
    assert_eq!(k.poll(PollEvent::Report(r)), PollAction::Return(0));
    assert_eq!(k.poll(PollEvent::Report(r)), PollAction::Return(0));
    // Released, then pressed again: types again.
    assert_eq!(k.poll(PollEvent::Report(report(0, [0; 6]))), PollAction::Return(0));
    assert_eq!(k.poll(PollEvent::Report(r)), PollAction::Return(b'b'));
}

#[test]
fn rollover_and_empty_slots_type_nothing() {
    let mut k = Keyboard::new(1, 1, 0);
    assert_eq!(k.poll(PollEvent::Report(report(0, [1, 1, 1, 1, 1, 1]))), PollAction::Return(0));
    assert_eq!(k.poll(PollEvent::Report(report(0, [0, 1, 0, 1, 0, 1]))), PollAction::Return(0));
}

#[test]
fn several_keys_come_out_in_slot_order() {
    let mut k = Keyboard::new(1, 1, 0);
    assert_eq!(k.poll(PollEvent::Report(report(0x02, [6, 7, 8, 0, 0, 0]))), PollAction::Return(b'C'));
    assert_eq!(k.poll(PollEvent::Start), PollAction::Return(b'D'));
    assert_eq!(k.poll(PollEvent::Start), PollAction::Return(b'E'));
    assert_eq!(k.poll(PollEvent::Start), PollAction::Transfer { dev_addr: 1, ep_num: 1, data1: true });
}

#[test]
fn only_newly_pressed_keys_type() {
    let mut k = Keyboard::new(1, 1, 0);
    assert_eq!(k.poll(PollEvent::Report(report(0, [4, 0, 0, 0, 0, 0]))), PollAction::Return(b'a'));
    assert_eq!(k.poll(PollEvent::Report(report(0, [4, 5, 0, 0, 0, 0]))), PollAction::Return(b'b'));
    assert_eq!(k.poll(PollEvent::Start), PollAction::Transfer { dev_addr: 1, ep_num: 1, data1: false });
}

#[test]
fn failed_transfer_returns_nothing_and_keeps_toggle() {
    let mut k = Keyboard::new(1, 1, 0);
    assert_eq!(k.poll(PollEvent::TransferFailed), PollAction::Return(0));
    assert_eq!(k.poll(PollEvent::Start), PollAction::Transfer { dev_addr: 1, ep_num: 1, data1: false });
}

#[test]
fn full_buffer_drops_new_characters() {
    let mut k = Keyboard::new(1, 1, 0);
    // 6 new keys: 'a' returned, 5 pending.
    assert_eq!(k.poll(PollEvent::Report(report(0, [4, 5, 6, 7, 8, 9]))), PollAction::Return(b'a'));
    // 6 more: 11 pending, 'b' returned, 10 pending.
    assert_eq!(k.poll(PollEvent::Report(report(0, [10, 11, 12, 13, 14, 15]))), PollAction::Return(b'b'));
    // 6 more: only 5 fit (15 pending, 'r' dropped), 'c' returned.
    assert_eq!(k.poll(PollEvent::Report(report(0, [16, 17, 18, 19, 20, 21]))), PollAction::Return(b'c'));
    let mut out = Vec::new();
    loop {
        match k.poll(PollEvent::Start) {
            PollAction::Return(c) => out.push(c),
            PollAction::Transfer { .. } => break,
        }
    }
    assert_eq!(out, b"defghijklmnopq".to_vec());
}
