use rust_usb::descriptors::{make_setup, parse_config_for_hid_keyboard, HidKeyboardInfo};

/// A configuration descriptor of a boot keyboard: configuration, interface 0 (HID boot
/// keyboard), HID descriptor, interrupt IN endpoint 1.
fn keyboard_config() -> Vec<u8> {
    vec![
        9, 0x02, 34, 0, 1, 1, 0, 0xA0, 50, // configuration
        9, 0x04, 0, 0, 1, 0x03, 0x01, 0x01, 0, // interface 0: HID, boot, keyboard
        9, 0x21, 0x11, 0x01, 0, 1, 0x22, 63, 0, // HID
        7, 0x05, 0x81, 0x03, 8, 0, 10, // endpoint 0x81, interrupt
    ]
}

#[test]
fn setup_packet_is_little_endian() {
    assert_eq!(make_setup(0x80, 0x06, 0x0100, 0, 18), [0x80, 0x06, 0x00, 0x01, 0x00, 0x00, 18, 0x00]);
    assert_eq!(make_setup(0x21, 0x0A, 0xABCD, 0x1234, 0xFFFF), [0x21, 0x0A, 0xCD, 0xAB, 0x34, 0x12, 0xFF, 0xFF]);
}

#[test]
fn setup_packet_fields_read_back() {
    let p = make_setup(0xA3, 0x00, 0x0203, 0x0405, 0x0607);
    assert_eq!(p[2] as u16 + 256 * p[3] as u16, 0x0203);
    assert_eq!(p[4] as u16 + 256 * p[5] as u16, 0x0405);
    assert_eq!(p[6] as u16 + 256 * p[7] as u16, 0x0607);
}

#[test]
fn finds_boot_keyboard() {
    let r = parse_config_for_hid_keyboard(&keyboard_config());
    assert_eq!(r, Some(HidKeyboardInfo { interface: 0, endpoint_in: 1 }));
}

#[test]
fn endpoint_number_is_masked() {
    let mut c = keyboard_config();
    c[29] = 0x92; // IN endpoint with reserved bit 4 set
    let r = parse_config_for_hid_keyboard(&c);
    assert_eq!(r, Some(HidKeyboardInfo { interface: 0, endpoint_in: 2 }));
}

#[test]
fn mouse_is_not_a_keyboard() {
    let mut c = keyboard_config();
    c[16] = 0x02; // protocol: mouse
    assert_eq!(parse_config_for_hid_keyboard(&c), None);
}

#[test]
fn out_or_bulk_endpoint_is_not_taken() {
    let mut c = keyboard_config();
    c[29] = 0x01; // OUT endpoint
    assert_eq!(parse_config_for_hid_keyboard(&c), None);
    let mut c = keyboard_config();
    c[30] = 0x02; // bulk
    assert_eq!(parse_config_for_hid_keyboard(&c), None);
}

#[test]
fn second_interface_keyboard_is_found() {
    let mut c = vec![
        9, 0x02, 50, 0, 2, 1, 0, 0xA0, 50,
        9, 0x04, 0, 0, 1, 0x03, 0x01, 0x02, 0, // interface 0: mouse
        7, 0x05, 0x81, 0x03, 8, 0, 10,
        9, 0x04, 1, 0, 1, 0x03, 0x01, 0x01, 0, // interface 1: keyboard
    ];
    c.extend_from_slice(&[7, 0x05, 0x82, 0x03, 8, 0, 10]);
    assert_eq!(parse_config_for_hid_keyboard(&c), Some(HidKeyboardInfo { interface: 1, endpoint_in: 2 }));
}

#[test]
fn malformed_lengths_stop_the_walk() {
    let mut c = keyboard_config();
    c[9] = 1; // interface descriptor with length 1
    assert_eq!(parse_config_for_hid_keyboard(&c), None);
    let mut c = keyboard_config();
    c[27] = 8; // endpoint runs past the end
    assert_eq!(parse_config_for_hid_keyboard(&c), None);
    assert_eq!(parse_config_for_hid_keyboard(&[]), None);
    assert_eq!(parse_config_for_hid_keyboard(&[9]), None);
}

#[test]
fn truncated_blob_finds_nothing() {
    let c = keyboard_config();
    assert_eq!(parse_config_for_hid_keyboard(&c[..30]), None);
}

#[test]
fn trailing_bytes_do_not_change_the_result() {
    let mut c = keyboard_config();
    let before = parse_config_for_hid_keyboard(&c);
    c.extend_from_slice(&[1, 0xFF, 0, 0, 0]);
    assert_eq!(parse_config_for_hid_keyboard(&c), before);
}
