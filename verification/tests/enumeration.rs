use rust_usb::enumeration::{
    get_config_descriptor, get_config_header, get_device_descriptor, hub_get_port_status,
    hub_set_port_power, hub_set_port_reset, port_status, set_address, set_boot_protocol,
    set_configuration, set_idle, find_hid_keyboard, ControlRequest, EnumAction, Enumerator,
};
use rust_usb::descriptors::HidKeyboardInfo;
use rust_usb::keyboard::{Keyboard, PollAction, PollEvent};

fn keyboard_config(config_value: u8, iface: u8, ep: u8) -> Vec<u8> {
    vec![
        9, 0x02, 34, 0, 1, config_value, 0, 0xA0, 50,
        9, 0x04, iface, 0, 1, 0x03, 0x01, 0x01, 0,
        9, 0x21, 0x11, 0x01, 0, 1, 0x22, 63, 0,
        7, 0x05, 0x80 | ep, 0x03, 8, 0, 10,
    ]
}

fn device_descriptor(class: u8) -> Vec<u8> {
    vec![18, 0x01, 0x00, 0x02, class, 0, 0, 64, 0x6B, 0x1D, 0x04, 0x01, 0, 1, 0, 0, 0, 1]
}

fn expect_request(a: EnumAction) -> ControlRequest {
    match a {
        EnumAction::Request(r) => r,
        EnumAction::Delay { .. } => panic!("expected a request, got a delay"),
        EnumAction::Finish(_) => panic!("expected a request, got the end"),
    }
}

fn expect_delay(a: EnumAction) -> u32 {
    match a {
        EnumAction::Delay { ms } => ms,
        _ => panic!("expected a delay"),
    }
}

fn expect_finish(a: EnumAction) -> Option<Keyboard> {
    match a {
        EnumAction::Finish(k) => k,
        _ => panic!("expected the end"),
    }
}

fn same(a: &ControlRequest, b: &ControlRequest) -> bool {
    a.dev_addr == b.dev_addr && a.setup == b.setup && a.data_in == b.data_in && a.data_len == b.data_len
}

#[test]
fn standard_requests() {
    let r = get_device_descriptor(0);
    assert_eq!((r.dev_addr, r.setup, r.data_in, r.data_len), (0, [0x80, 0x06, 0, 0x01, 0, 0, 18, 0], true, 18));
    let r = set_address(1);
    assert_eq!((r.dev_addr, r.setup, r.data_in, r.data_len), (0, [0x00, 0x05, 1, 0, 0, 0, 0, 0], false, 0));
    let r = get_config_header(2);
    assert_eq!((r.dev_addr, r.setup, r.data_len), (2, [0x80, 0x06, 0, 0x02, 0, 0, 9, 0], 9));
    let r = set_configuration(1, 3);
    assert_eq!((r.dev_addr, r.setup), (1, [0x00, 0x09, 3, 0, 0, 0, 0, 0]));
}

#[test]
fn hid_requests() {
    let r = set_boot_protocol(2, 1);
    assert_eq!((r.dev_addr, r.setup, r.data_in), (2, [0x21, 0x0B, 0, 0, 1, 0, 0, 0], false));
    let r = set_idle(2, 1, 0);
    assert_eq!(r.setup, [0x21, 0x0A, 0, 0, 1, 0, 0, 0]);
    let r = set_idle(2, 0, 125);
    assert_eq!(r.setup, [0x21, 0x0A, 0, 125, 0, 0, 0, 0]);
}

#[test]
fn hub_requests() {
    let r = hub_set_port_power(1, 3);
    assert_eq!((r.dev_addr, r.setup, r.data_in), (1, [0x23, 0x03, 8, 0, 3, 0, 0, 0], false));
    let r = hub_set_port_reset(1, 2);
    assert_eq!(r.setup, [0x23, 0x03, 4, 0, 2, 0, 0, 0]);
    let r = hub_get_port_status(1, 4);
    assert_eq!((r.setup, r.data_in, r.data_len), ([0xA3, 0x00, 0, 0, 4, 0, 4, 0], true, 4));
}

#[test]
fn port_status_is_little_endian() {
    assert_eq!(port_status(true, &[0x03, 0x01, 0x10, 0x00]), 0x0010_0103);
    assert_eq!(port_status(true, &[0xFF, 0xFF, 0xFF, 0xFF]), 0xFFFF_FFFF);
    assert_eq!(port_status(false, &[0x03, 0x01, 0x10, 0x00]), 0);
}

#[test]
fn config_length_is_capped_by_the_buffer() {
    let r = get_config_descriptor(1, &[9, 2, 34, 0, 1, 1, 0, 0xA0, 50], 64);
    assert_eq!((r.data_len, r.setup), (34, [0x80, 0x06, 0, 0x02, 0, 0, 34, 0]));
    let r = get_config_descriptor(1, &[9, 2, 0x00, 0x01, 1, 1, 0, 0xA0, 50], 64);
    assert_eq!((r.data_len, r.setup[6], r.setup[7]), (64, 64, 0));
    let r = get_config_descriptor(1, &[9, 2, 0, 0, 1, 1, 0, 0xA0, 50], 64);
    assert_eq!(r.data_len, 0);
}

#[test]
fn find_keyboard_in_config() {
    assert_eq!(find_hid_keyboard(&keyboard_config(1, 0, 1)), Some(HidKeyboardInfo { interface: 0, endpoint_in: 1 }));
}

#[test]
fn no_device_no_keyboard() {
    let mut e = Enumerator::new();
    assert!(expect_finish(e.step(false, &[])).is_none());
    assert!(expect_finish(e.step(true, &[])).is_none());
}

#[test]
fn keyboard_on_the_root_port() {
    let mut e = Enumerator::new();
    let r = expect_request(e.step(true, &[]));
    assert!(same(&r, &get_device_descriptor(0)));
    let r = expect_request(e.step(true, &device_descriptor(0)));
    assert!(same(&r, &set_address(1)));
    assert_eq!(expect_delay(e.step(true, &[])), 10);
    let r = expect_request(e.step(true, &[]));
    assert!(same(&r, &get_config_header(1)));
    let config = keyboard_config(7, 0, 2);
    let r = expect_request(e.step(true, &config[..9]));
    assert_eq!((r.dev_addr, r.data_len), (1, 34));
    let r = expect_request(e.step(true, &config));
    assert!(same(&r, &set_configuration(1, 7)));
    let r = expect_request(e.step(true, &[]));
    assert!(same(&r, &set_boot_protocol(1, 0)));
    let r = expect_request(e.step(false, &[]));
    assert!(same(&r, &set_idle(1, 0, 0)));
    let mut k = expect_finish(e.step(false, &[])).expect("a keyboard");
    assert_eq!(k.poll(PollEvent::Start), PollAction::Transfer { dev_addr: 1, ep_num: 2, data1: false });
    assert!(expect_finish(e.step(true, &[])).is_none());
}

#[test]
fn device_without_keyboard() {
    let mut e = Enumerator::new();
    expect_request(e.step(true, &[]));
    expect_request(e.step(true, &device_descriptor(0)));
    expect_delay(e.step(true, &[]));
    expect_request(e.step(true, &[]));
    let mut config = keyboard_config(1, 0, 1);
    config[16] = 0x02; // mouse
    expect_request(e.step(true, &config[..9]));
    assert!(expect_finish(e.step(true, &config)).is_none());
}

#[test]
fn failures_end_the_enumeration() {
    // Device descriptor fails.
    let mut e = Enumerator::new();
    expect_request(e.step(true, &[]));
    assert!(expect_finish(e.step(false, &[])).is_none());
    // Address fails.
    let mut e = Enumerator::new();
    expect_request(e.step(true, &[]));
    expect_request(e.step(true, &device_descriptor(0)));
    assert!(expect_finish(e.step(false, &[])).is_none());
    // Configuration header fails.
    let mut e = Enumerator::new();
    expect_request(e.step(true, &[]));
    expect_request(e.step(true, &device_descriptor(0)));
    expect_delay(e.step(true, &[]));
    expect_request(e.step(true, &[]));
    assert!(expect_finish(e.step(false, &[])).is_none());
}

#[test]
fn keyboard_behind_a_hub() {
    let mut e = Enumerator::new();
    expect_request(e.step(true, &[]));
    let r = expect_request(e.step(true, &device_descriptor(0x09)));
    assert!(same(&r, &set_address(1)));
    assert_eq!(expect_delay(e.step(true, &[])), 10);
    expect_request(e.step(true, &[]));
    let hub_config = vec![9, 0x02, 25, 0, 1, 1, 0, 0xE0, 0, 9, 0x04, 0, 0, 1, 0x09, 0, 0, 0, 7, 0x05, 0x81, 0x03, 1, 0, 12];
    let r = expect_request(e.step(true, &hub_config[..9]));
    assert_eq!(r.data_len, 25);
    let r = expect_request(e.step(true, &hub_config));
    assert!(same(&r, &set_configuration(1, 1)));
    for port in 1..=4u8 {
        let r = expect_request(e.step(port != 1, &[]));
        assert!(same(&r, &hub_set_port_power(1, port)));
    }
    assert_eq!(expect_delay(e.step(true, &[])), 50);
    let r = expect_request(e.step(true, &[]));
    assert!(same(&r, &hub_get_port_status(1, 1)));
    let r = expect_request(e.step(true, &[0x00, 0x01, 0, 0]));
    assert!(same(&r, &hub_get_port_status(1, 2)));
    let r = expect_request(e.step(false, &[0x01, 0x01, 0, 0]));
    assert!(same(&r, &hub_get_port_status(1, 3)));
    let r = expect_request(e.step(true, &[0x03, 0x01, 0, 0]));
    assert!(same(&r, &hub_set_port_reset(1, 3)));
    assert_eq!(expect_delay(e.step(true, &[])), 50);
    let r = expect_request(e.step(true, &[]));
    assert!(same(&r, &get_device_descriptor(0)));
    let r = expect_request(e.step(true, &device_descriptor(0)));
    assert!(same(&r, &set_address(2)));
    assert_eq!(expect_delay(e.step(true, &[])), 10);
    let r = expect_request(e.step(true, &[]));
    assert!(same(&r, &get_config_header(2)));
    let config = keyboard_config(1, 1, 1);
    expect_request(e.step(true, &config[..9]));
    let r = expect_request(e.step(true, &config));
    assert!(same(&r, &set_configuration(2, 1)));
    let r = expect_request(e.step(true, &[]));
    assert!(same(&r, &set_boot_protocol(2, 1)));
    let r = expect_request(e.step(true, &[]));
    assert!(same(&r, &set_idle(2, 1, 0)));
    let mut k = expect_finish(e.step(true, &[])).expect("a keyboard");
    assert_eq!(k.poll(PollEvent::Start), PollAction::Transfer { dev_addr: 2, ep_num: 1, data1: false });
}

#[test]
fn hub_with_no_device() {
    let mut e = Enumerator::new();
    expect_request(e.step(true, &[]));
    expect_request(e.step(true, &device_descriptor(0x09)));
    expect_delay(e.step(true, &[]));
    expect_request(e.step(true, &[]));
    // The hub's configuration header fails: no configuration is selected.
    let r = expect_request(e.step(false, &[]));
    assert!(same(&r, &hub_set_port_power(1, 1)));
    for _ in 2..=4 {
        expect_request(e.step(true, &[]));
    }
    expect_delay(e.step(true, &[]));
    for _ in 1..=4 {
        expect_request(e.step(true, &[]));
    }
    assert!(expect_finish(e.step(true, &[0, 0, 0, 0])).is_none());
}

#[test]
fn enumeration_always_ends() {
    // Whatever the answers, the enumeration is over within 31 steps.
    for pattern in 0u32..64 {
        let mut e = Enumerator::new();
        let mut steps = 0;
        loop {
            steps += 1;
            let ok = (pattern >> (steps % 6)) & 1 == 1 || steps == 1;
            let data = if pattern & 1 == 1 { device_descriptor(0x09) } else { keyboard_config(1, 0, 1) };
            if let EnumAction::Finish(_) = e.step(ok, &data) {
                break;
            }
            assert!(steps <= 31);
        }
    }
}
