//! USB descriptor constants and parsing helpers.
use vstd::prelude::*;

verus! {

// Descriptor types
pub const DESC_DEVICE: u8 = 0x01;
pub const DESC_CONFIGURATION: u8 = 0x02;
pub const DESC_INTERFACE: u8 = 0x04;
pub const DESC_ENDPOINT: u8 = 0x05;
pub const DESC_HID: u8 = 0x21;

// Request types
pub const DIR_IN: u8 = 0x80;
pub const DIR_OUT: u8 = 0x00;
pub const TYPE_STANDARD: u8 = 0x00;
pub const TYPE_CLASS: u8 = 0x20;
pub const RECIP_DEVICE: u8 = 0x00;
pub const RECIP_INTERFACE: u8 = 0x01;

// Standard requests
pub const REQ_GET_DESCRIPTOR: u8 = 0x06;
pub const REQ_SET_ADDRESS: u8 = 0x05;
pub const REQ_SET_CONFIGURATION: u8 = 0x09;

// HID requests
pub const HID_REQ_SET_PROTOCOL: u8 = 0x0B;
pub const HID_REQ_SET_IDLE: u8 = 0x0A;
pub const HID_REQ_GET_REPORT: u8 = 0x01;

// Hub class
pub const CLASS_HUB: u8 = 0x09;

// Feature selectors
pub const FEATURE_PORT_POWER: u16 = 8;
pub const FEATURE_PORT_RESET: u16 = 4;

// Hub requests
pub const HUB_REQ_SET_FEATURE: u8 = 0x03;
pub const HUB_REQ_GET_STATUS: u8 = 0x00;

// Request types for Hub
pub const RECIP_OTHER: u8 = 0x03;
pub const HUB_SET_PORT_FEATURE_REQ: u8 = DIR_OUT | TYPE_CLASS | RECIP_OTHER;
pub const HUB_GET_PORT_STATUS_REQ: u8 = DIR_IN | TYPE_CLASS | RECIP_OTHER;

// HID class
pub const CLASS_HID: u8 = 0x03;
pub const SUBCLASS_BOOT: u8 = 0x01;
pub const PROTOCOL_KEYBOARD: u8 = 0x01;

/// Low byte of a 16-bit value.
pub open spec fn lo_byte(v: u16) -> u8 {
    (v % 256) as u8
}

/// High byte of a 16-bit value.
pub open spec fn hi_byte(v: u16) -> u8 {
    (v / 256) as u8
}

/// The 8 bytes of a SETUP packet: request type, request, then value, index and length,
/// each little-endian.
pub open spec fn setup_packet(bm_request_type: u8, b_request: u8, w_value: u16, w_index: u16, w_length: u16) -> Seq<u8> {
    seq![bm_request_type, b_request, lo_byte(w_value), hi_byte(w_value),
        lo_byte(w_index), hi_byte(w_index), lo_byte(w_length), hi_byte(w_length)]
}

/// The 16-bit little-endian value at `i` in `p`.
pub open spec fn le16(p: Seq<u8>, i: int) -> int {
    p[i] + 256 * p[i + 1]
}

/// Build an 8-byte SETUP packet.
pub fn make_setup(bm_request_type: u8, b_request: u8, w_value: u16, w_index: u16, w_length: u16) -> (r: [u8; 8])
    ensures
        r@ == setup_packet(bm_request_type, b_request, w_value, w_index, w_length),
{
    proof {
        assert(forall|x: u16| #[trigger] (x & 0xFF) == x % 256 && (x >> 8) == x / 256) by (bit_vector);
    }
    [
        bm_request_type,
        b_request,
        (w_value & 0xFF) as u8,
        (w_value >> 8) as u8,
        (w_index & 0xFF) as u8,
        (w_index >> 8) as u8,
        (w_length & 0xFF) as u8,
        (w_length >> 8) as u8,
    ]
}

/// A SETUP packet gives back the request type, request, value, index and length it
/// was built from.
pub proof fn lemma_setup_fields(bm_request_type: u8, b_request: u8, w_value: u16, w_index: u16, w_length: u16)
    ensures
        ({
            let p = setup_packet(bm_request_type, b_request, w_value, w_index, w_length);
            &&& p.len() == 8
            &&& p[0] == bm_request_type
            &&& p[1] == b_request
            &&& le16(p, 2) == w_value
            &&& le16(p, 4) == w_index
            &&& le16(p, 6) == w_length
        }),
{
}

} // verus!

verus! {

/// Info about a HID keyboard found in a configuration descriptor.
#[derive(Debug, Clone, Copy, PartialEq, Eq, Structural)]
pub struct HidKeyboardInfo {
    pub interface: u8,
    pub endpoint_in: u8,
}

/// Whether the interface descriptor starting at `i` announces a HID boot keyboard.
pub open spec fn is_boot_keyboard_interface(buf: Seq<u8>, i: int) -> bool {
    buf[i + 5] == CLASS_HID && buf[i + 6] == SUBCLASS_BOOT && buf[i + 7] == PROTOCOL_KEYBOARD
}

/// Whether the endpoint descriptor starting at `i` is an interrupt IN endpoint.
pub open spec fn is_interrupt_in_endpoint(buf: Seq<u8>, i: int) -> bool {
    buf[i + 2] & 0x80 != 0 && buf[i + 3] & 0x03 == 0x03
}

/// The result of walking the descriptor chain of `buf` from offset `i`, where `iface`
/// is the number of the last interface descriptor seen (if any) and `kbd` says whether
/// that interface is a HID boot keyboard.
pub open spec fn scan_descriptors(buf: Seq<u8>, i: int, iface: Option<u8>, kbd: bool) -> Option<HidKeyboardInfo>
    decreases buf.len() - i,
{
    if i < 0 || i + 1 >= buf.len() {
        None
    } else {
        let len = buf[i] as int;
        let typ = buf[i + 1];
        if len < 2 || i + len > buf.len() {
            None
        } else {
            let is_iface = typ == DESC_INTERFACE && len >= 9;
            let iface2 = if is_iface { Some(buf[i + 2]) } else { iface };
            let kbd2 = if is_iface { is_boot_keyboard_interface(buf, i) } else { kbd };
            if typ == DESC_ENDPOINT && len >= 7 && kbd2 && is_interrupt_in_endpoint(buf, i) {
                Some(HidKeyboardInfo {
                    interface: match iface2 { Some(n) => n, None => 0 },
                    endpoint_in: buf[i + 2] & 0x0F,
                })
            } else {
                scan_descriptors(buf, i + len, iface2, kbd2)
            }
        }
    }
}

/// The HID boot keyboard that a configuration descriptor blob announces: the first
/// interrupt IN endpoint that follows a HID boot keyboard interface descriptor.
pub open spec fn spec_find_keyboard(buf: Seq<u8>) -> Option<HidKeyboardInfo> {
    scan_descriptors(buf, 0, None, false)
}

/// Walk a config descriptor blob and find an interface with HID boot keyboard.
pub fn parse_config_for_hid_keyboard(buf: &[u8]) -> (r: Option<HidKeyboardInfo>)
    ensures
        r == spec_find_keyboard(buf@),
        r matches Some(info) ==> info.endpoint_in < 16,
{
    let mut i: usize = 0;
    let mut current_iface: Option<u8> = None;
    let mut is_hid_keyboard = false;
    while i < buf.len() && buf.len() - i > 1
        invariant
            i <= buf.len(),
            scan_descriptors(buf@, i as int, current_iface, is_hid_keyboard) == spec_find_keyboard(buf@),
        ensures
            spec_find_keyboard(buf@) is None,
        decreases buf.len() - i,
    {
        let b_length = buf[i] as usize;
        let b_desc_type = buf[i + 1];
        if b_length < 2 || b_length > buf.len() - i {
            break;
        }
        if b_desc_type == DESC_INTERFACE && b_length >= 9 {
            let iface_num = buf[i + 2];
            let iface_class = buf[i + 5];
            let iface_subclass = buf[i + 6];
            let iface_protocol = buf[i + 7];
            current_iface = Some(iface_num);
            is_hid_keyboard = iface_class == CLASS_HID && iface_subclass == SUBCLASS_BOOT
                && iface_protocol == PROTOCOL_KEYBOARD;
        }
        if b_desc_type == DESC_ENDPOINT && b_length >= 7 && is_hid_keyboard {
            let ep_addr = buf[i + 2];
            let ep_attrs = buf[i + 3];
            if ep_addr & 0x80 != 0 && (ep_attrs & 0x03) == 0x03 {
                let interface = match current_iface {
                    Some(n) => n,
                    None => 0,
                };
                assert(ep_addr & 0x0F < 16) by (bit_vector);
                return Some(HidKeyboardInfo { interface, endpoint_in: ep_addr & 0x0F });
            }
        }
        i += b_length;
    }
    None
}

/// Bytes after the descriptor that announces the keyboard's endpoint do not change what
/// the walk finds: once a keyboard is found in `buf`, it is found in `buf + extra` too.
pub proof fn lemma_scan_ignores_trailing_bytes(buf: Seq<u8>, extra: Seq<u8>, i: int, iface: Option<u8>, kbd: bool)
    requires
        scan_descriptors(buf, i, iface, kbd) is Some,
    ensures
        scan_descriptors(buf + extra, i, iface, kbd) == scan_descriptors(buf, i, iface, kbd),
    decreases buf.len() - i,
{
    let all = buf + extra;
    assert(0 <= i && i + 1 < buf.len());
    let len = buf[i] as int;
    assert(all[i] == buf[i] && all[i + 1] == buf[i + 1]);
    if len >= 2 && i + len <= buf.len() {
        assert(forall|k: int| i <= k < i + len ==> all[k] == buf[k]);
        let typ = buf[i + 1];
        let is_iface = typ == DESC_INTERFACE && len >= 9;
        let iface2 = if is_iface { Some(buf[i + 2]) } else { iface };
        let kbd2 = if is_iface { is_boot_keyboard_interface(buf, i) } else { kbd };
        if !(typ == DESC_ENDPOINT && len >= 7 && kbd2 && is_interrupt_in_endpoint(buf, i)) {
            lemma_scan_ignores_trailing_bytes(buf, extra, i + len, iface2, kbd2);
        }
    }
}

/// A configuration blob that announces a keyboard still announces the same keyboard
/// when more bytes follow it.
pub proof fn lemma_find_keyboard_prefix(buf: Seq<u8>, extra: Seq<u8>)
    requires
        spec_find_keyboard(buf) is Some,
    ensures
        spec_find_keyboard(buf + extra) == spec_find_keyboard(buf),
{
    lemma_scan_ignores_trailing_bytes(buf, extra, 0, None, false);
}

/// The usual layout of a keyboard's configuration: a configuration descriptor, a HID
/// boot keyboard interface descriptor (class 3, subclass 1, protocol 1), optionally a
/// 9-byte HID class descriptor, then an interrupt IN endpoint descriptor; the result is
/// the interface's number and the endpoint number (low 4 bits of its address).
pub proof fn lemma_keyboard_layout(buf: Seq<u8>, hid: bool)
    requires
        ({
            let e: int = if hid { 27 } else { 18 };
            &&& buf.len() >= e + 7
            &&& buf[0] == 9 && buf[1] == 0x02
            &&& buf[9] == 9 && buf[10] == 0x04 && buf[14] == 0x03 && buf[15] == 0x01 && buf[16] == 0x01
            &&& hid ==> buf[18] == 9 && buf[19] == 0x21
            &&& buf[e] == 7 && buf[e + 1] == 0x05 && buf[e + 2] & 0x80 != 0 && buf[e + 3] & 0x03 == 0x03
        }),
    ensures
        spec_find_keyboard(buf) == Some(HidKeyboardInfo {
            interface: buf[11],
            endpoint_in: buf[if hid { 29int } else { 20int }] & 0x0F,
        }),
{
    reveal_with_fuel(scan_descriptors, 5);
}

/// Endpoints that belong to an interface other than a HID boot keyboard are never
/// taken: a configuration whose only interface is not a boot keyboard (here: any
/// interface protocol other than 1) announces no keyboard, whatever endpoints follow.
pub proof fn lemma_other_interface_ignored(buf: Seq<u8>)
    requires
        buf.len() == 25,
        buf[0] == 9 && buf[1] == 0x02,
        buf[9] == 9 && buf[10] == 0x04 && buf[16] != 0x01,
        buf[18] == 7 && buf[19] == 0x05,
    ensures
        spec_find_keyboard(buf) is None,
{
    reveal_with_fuel(scan_descriptors, 5);
}

/// Only an interrupt IN endpoint of a boot keyboard interface is taken: an endpoint
/// whose address has the IN bit (7) clear, or whose transfer type (attribute bits 0-1)
/// is not interrupt (3), announces no keyboard.
pub proof fn lemma_only_interrupt_in_endpoints(buf: Seq<u8>)
    requires
        buf.len() == 25,
        buf[0] == 9 && buf[1] == 0x02,
        buf[9] == 9 && buf[10] == 0x04,
        buf[18] == 7 && buf[19] == 0x05,
        buf[20] & 0x80 == 0 || buf[21] & 0x03 != 0x03,
    ensures
        spec_find_keyboard(buf) is None,
{
    reveal_with_fuel(scan_descriptors, 5);
}

/// The walk stops at a descriptor that is malformed: one whose length byte is below 2,
/// or one that runs past the end of the blob, and nothing after it is looked at.
pub proof fn lemma_malformed_descriptor_stops(buf: Seq<u8>, i: int, iface: Option<u8>, kbd: bool)
    requires
        0 <= i,
        i + 1 < buf.len(),
        buf[i] < 2 || i + buf[i] > buf.len(),
    ensures
        scan_descriptors(buf, i, iface, kbd) is None,
{
}

} // verus!
