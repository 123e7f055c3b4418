//! USB device enumeration: GET_DESCRIPTOR, SET_ADDRESS, SET_CONFIGURATION, hub port
//! control, and the enumeration of a boot keyboard, directly or behind a hub.
use vstd::prelude::*;
use crate::descriptors::{
    make_setup, parse_config_for_hid_keyboard, setup_packet, spec_find_keyboard, HidKeyboardInfo,
    DESC_CONFIGURATION, DESC_DEVICE, DIR_IN, DIR_OUT, FEATURE_PORT_POWER, FEATURE_PORT_RESET,
    HID_REQ_SET_IDLE, HID_REQ_SET_PROTOCOL, HUB_GET_PORT_STATUS_REQ, HUB_REQ_GET_STATUS,
    HUB_REQ_SET_FEATURE, HUB_SET_PORT_FEATURE_REQ, RECIP_DEVICE, RECIP_INTERFACE,
    REQ_GET_DESCRIPTOR, REQ_SET_ADDRESS, REQ_SET_CONFIGURATION, TYPE_CLASS, TYPE_STANDARD, CLASS_HUB,
};
use crate::keyboard::Keyboard;
use crate::hcd::{control_in_plan, control_out_plan, plan, Dwc2Hcd, Stage, SPEED_LOW};
use crate::regs::base_fits;

verus! {

/// A control transfer to run on the default control pipe of device `dev_addr`:
/// the SETUP packet, then either a DATA IN phase of `data_len` bytes (when `data_in`
/// holds; none when `data_len` is 0) followed by an OUT status phase, or, for a request
/// without data, an IN status phase.
pub struct ControlRequest {
    pub dev_addr: u8,
    pub setup: [u8; 8],
    pub data_in: bool,
    pub data_len: usize,
}

impl View for ControlRequest {
    type V = (u8, Seq<u8>, bool, usize);

    open spec fn view(&self) -> (u8, Seq<u8>, bool, usize) {
        (self.dev_addr, self.setup@, self.data_in, self.data_len)
    }
}

/// A request that reads `len` bytes from device `dev_addr`.
pub open spec fn read_request(dev_addr: u8, setup: Seq<u8>, len: usize) -> (u8, Seq<u8>, bool, usize) {
    (dev_addr, setup, true, len)
}

/// A request without data to device `dev_addr`.
pub open spec fn command_request(dev_addr: u8, setup: Seq<u8>) -> (u8, Seq<u8>, bool, usize) {
    (dev_addr, setup, false, 0)
}

/// The request for the 18-byte device descriptor of `addr`.
pub open spec fn device_descriptor_request(addr: u8) -> (u8, Seq<u8>, bool, usize) {
    read_request(addr, setup_packet(DIR_IN | TYPE_STANDARD | RECIP_DEVICE, REQ_GET_DESCRIPTOR,
        (DESC_DEVICE as u16) << 8, 0, 18), 18)
}

/// Get device descriptor (18 bytes) from a device at `addr`.
pub fn get_device_descriptor(addr: u8) -> (r: ControlRequest)
    ensures
        r@ == device_descriptor_request(addr),
{
    let setup = make_setup(DIR_IN | TYPE_STANDARD | RECIP_DEVICE, REQ_GET_DESCRIPTOR, (DESC_DEVICE as u16) << 8, 0, 18);
    ControlRequest { dev_addr: addr, setup, data_in: true, data_len: 18 }
}

/// The request, to the device at address 0, to take address `new_addr`.
pub open spec fn set_address_request(new_addr: u8) -> (u8, Seq<u8>, bool, usize) {
    command_request(0, setup_packet(DIR_OUT | TYPE_STANDARD | RECIP_DEVICE, REQ_SET_ADDRESS,
        new_addr as u16, 0, 0))
}

/// Set device address: a request to the device at address 0.
pub fn set_address(new_addr: u8) -> (r: ControlRequest)
    ensures
        r@ == set_address_request(new_addr),
{
    let setup = make_setup(DIR_OUT | TYPE_STANDARD | RECIP_DEVICE, REQ_SET_ADDRESS, new_addr as u16, 0, 0);
    ControlRequest { dev_addr: 0, setup, data_in: false, data_len: 0 }
}

/// The request for the 9-byte header of the configuration descriptor of `addr`.
pub open spec fn config_header_request(addr: u8) -> (u8, Seq<u8>, bool, usize) {
    read_request(addr, setup_packet(DIR_IN | TYPE_STANDARD | RECIP_DEVICE, REQ_GET_DESCRIPTOR,
        (DESC_CONFIGURATION as u16) << 8, 0, 9), 9)
}

/// The request for the first 9 bytes of the configuration descriptor of `addr`,
/// which hold its total length.
pub fn get_config_header(addr: u8) -> (r: ControlRequest)
    ensures
        r@ == config_header_request(addr),
{
    let setup = make_setup(DIR_IN | TYPE_STANDARD | RECIP_DEVICE, REQ_GET_DESCRIPTOR,
        (DESC_CONFIGURATION as u16) << 8, 0, 9);
    ControlRequest { dev_addr: addr, setup, data_in: true, data_len: 9 }
}

/// The number of bytes of the configuration descriptor to read into a buffer of
/// `buf_len` bytes: its total length (bytes 2 and 3 of the header, little-endian),
/// at most `buf_len`.
pub open spec fn config_read_len(header: Seq<u8>, buf_len: usize) -> usize {
    let total = header[2] + 256 * header[3];
    if total < buf_len { total as usize } else { buf_len }
}

/// The request for the configuration descriptor of `addr`, as far as a buffer of
/// `buf_len` bytes holds it, given its header.
pub open spec fn config_descriptor_request(addr: u8, header: Seq<u8>, buf_len: usize) -> (u8, Seq<u8>, bool, usize) {
    read_request(addr, setup_packet(DIR_IN | TYPE_STANDARD | RECIP_DEVICE, REQ_GET_DESCRIPTOR,
        (DESC_CONFIGURATION as u16) << 8, 0, config_read_len(header, buf_len) as u16),
        config_read_len(header, buf_len))
}

/// Get configuration descriptor: the request that reads the whole configuration
/// descriptor of `addr`, as far as a buffer of `buf_len` bytes holds it, given the
/// 9-byte header read first (see `get_config_header`). On success the descriptor's
/// length is the request's `data_len`.
pub fn get_config_descriptor(addr: u8, header: &[u8; 9], buf_len: usize) -> (r: ControlRequest)
    ensures
        r@ == config_descriptor_request(addr, header@, buf_len),
{
    let total_len = header[2] as usize + 256 * header[3] as usize;
    let read_len = if total_len < buf_len { total_len } else { buf_len };
    let setup = make_setup(DIR_IN | TYPE_STANDARD | RECIP_DEVICE, REQ_GET_DESCRIPTOR,
        (DESC_CONFIGURATION as u16) << 8, 0, read_len as u16);
    ControlRequest { dev_addr: addr, setup, data_in: true, data_len: read_len }
}

/// The request that selects configuration `config_value` of `addr`.
pub open spec fn set_configuration_request(addr: u8, config_value: u8) -> (u8, Seq<u8>, bool, usize) {
    command_request(addr, setup_packet(DIR_OUT | TYPE_STANDARD | RECIP_DEVICE,
        REQ_SET_CONFIGURATION, config_value as u16, 0, 0))
}

/// Set configuration.
pub fn set_configuration(addr: u8, config_value: u8) -> (r: ControlRequest)
    ensures
        r@ == set_configuration_request(addr, config_value),
{
    let setup = make_setup(DIR_OUT | TYPE_STANDARD | RECIP_DEVICE, REQ_SET_CONFIGURATION, config_value as u16, 0, 0);
    ControlRequest { dev_addr: addr, setup, data_in: false, data_len: 0 }
}

/// The request that puts interface `iface` of `addr` in boot protocol.
pub open spec fn set_boot_protocol_request(addr: u8, iface: u8) -> (u8, Seq<u8>, bool, usize) {
    command_request(addr, setup_packet(DIR_OUT | TYPE_CLASS | RECIP_INTERFACE,
        HID_REQ_SET_PROTOCOL, 0, iface as u16, 0))
}

/// Set HID boot protocol (protocol value 0) on interface `iface`.
pub fn set_boot_protocol(addr: u8, iface: u8) -> (r: ControlRequest)
    ensures
        r@ == set_boot_protocol_request(addr, iface),
{
    let setup = make_setup(DIR_OUT | TYPE_CLASS | RECIP_INTERFACE, HID_REQ_SET_PROTOCOL, 0, iface as u16, 0);
    ControlRequest { dev_addr: addr, setup, data_in: false, data_len: 0 }
}

/// The request that sets the idle rate of interface `iface` of `addr`.
pub open spec fn set_idle_request(addr: u8, iface: u8, rate: u8) -> (u8, Seq<u8>, bool, usize) {
    command_request(addr, setup_packet(DIR_OUT | TYPE_CLASS | RECIP_INTERFACE,
        HID_REQ_SET_IDLE, (rate as u16) << 8, iface as u16, 0))
}

/// Set idle rate of interface `iface` (0: report only on change).
pub fn set_idle(addr: u8, iface: u8, rate: u8) -> (r: ControlRequest)
    ensures
        r@ == set_idle_request(addr, iface, rate),
{
    let setup = make_setup(DIR_OUT | TYPE_CLASS | RECIP_INTERFACE, HID_REQ_SET_IDLE, (rate as u16) << 8, iface as u16, 0);
    ControlRequest { dev_addr: addr, setup, data_in: false, data_len: 0 }
}

/// Find HID keyboard in config descriptor buffer.
pub fn find_hid_keyboard(config_buf: &[u8]) -> (r: Option<HidKeyboardInfo>)
    ensures
        r == spec_find_keyboard(config_buf@),
{
    parse_config_for_hid_keyboard(config_buf)
}

/// The request that powers port `port` of the hub at `hub_addr`.
pub open spec fn port_power_request(hub_addr: u8, port: u8) -> (u8, Seq<u8>, bool, usize) {
    command_request(hub_addr, setup_packet(HUB_SET_PORT_FEATURE_REQ, HUB_REQ_SET_FEATURE,
        FEATURE_PORT_POWER, port as u16, 0))
}

/// Power port `port` of the hub at `hub_addr`.
pub fn hub_set_port_power(hub_addr: u8, port: u8) -> (r: ControlRequest)
    ensures
        r@ == port_power_request(hub_addr, port),
{
    let setup = make_setup(HUB_SET_PORT_FEATURE_REQ, HUB_REQ_SET_FEATURE, FEATURE_PORT_POWER, port as u16, 0);
    ControlRequest { dev_addr: hub_addr, setup, data_in: false, data_len: 0 }
}

/// The request that resets port `port` of the hub at `hub_addr`.
pub open spec fn port_reset_request(hub_addr: u8, port: u8) -> (u8, Seq<u8>, bool, usize) {
    command_request(hub_addr, setup_packet(HUB_SET_PORT_FEATURE_REQ, HUB_REQ_SET_FEATURE,
        FEATURE_PORT_RESET, port as u16, 0))
}

/// Reset port `port` of the hub at `hub_addr`.
pub fn hub_set_port_reset(hub_addr: u8, port: u8) -> (r: ControlRequest)
    ensures
        r@ == port_reset_request(hub_addr, port),
{
    let setup = make_setup(HUB_SET_PORT_FEATURE_REQ, HUB_REQ_SET_FEATURE, FEATURE_PORT_RESET, port as u16, 0);
    ControlRequest { dev_addr: hub_addr, setup, data_in: false, data_len: 0 }
}

/// The request for the 4-byte status of port `port` of the hub at `hub_addr`.
pub open spec fn port_status_request(hub_addr: u8, port: u8) -> (u8, Seq<u8>, bool, usize) {
    read_request(hub_addr, setup_packet(HUB_GET_PORT_STATUS_REQ, HUB_REQ_GET_STATUS,
        0, port as u16, 4), 4)
}

/// Read the 4-byte status of port `port` of the hub at `hub_addr` (see `port_status`).
pub fn hub_get_port_status(hub_addr: u8, port: u8) -> (r: ControlRequest)
    ensures
        r@ == port_status_request(hub_addr, port),
{
    let setup = make_setup(HUB_GET_PORT_STATUS_REQ, HUB_REQ_GET_STATUS, 0, port as u16, 4);
    ControlRequest { dev_addr: hub_addr, setup, data_in: true, data_len: 4 }
}

/// The 32-bit little-endian value of the first 4 bytes of `b`.
pub open spec fn le32(b: Seq<u8>) -> int {
    b[0] + 256 * b[1] + 65536 * b[2] + 16777216 * b[3]
}

/// The port status a hub status transfer yields: the little-endian value of the reply
/// when the transfer succeeded, 0 when it failed.
pub fn port_status(ok: bool, reply: &[u8; 4]) -> (r: u32)
    ensures
        r == if ok { le32(reply@) } else { 0 },
{
    if ok {
        reply[0] as u32 + 256 * reply[1] as u32 + 65536 * reply[2] as u32 + 16777216 * reply[3] as u32
    } else {
        0
    }
}

/// The requests carry the SETUP packets of the USB and hub class specifications, and a
/// request has a data IN phase exactly when its SETUP packet says device-to-host with a
/// non-zero length, of exactly that length:
/// - GET_DESCRIPTOR(device), 18 bytes IN;
/// - SET_ADDRESS to the default address 0, no data;
/// - GET_DESCRIPTOR(configuration), 9 bytes IN for the header, then the total length
///   (bytes 2 and 3 of the header, little-endian), at most 64, IN;
/// - SET_CONFIGURATION, SET_PROTOCOL(boot) and SET_IDLE(rate) to the interface, no data;
/// - hub SET_FEATURE(PORT_POWER / PORT_RESET) and GET_STATUS (4 bytes IN) of a port.
pub proof fn lemma_request_packets(addr: u8, new_addr: u8, cv: u8, iface: u8, rate: u8, port: u8, header: Seq<u8>)
    requires
        header.len() >= 4,
    ensures
        device_descriptor_request(addr) == (addr, seq![0x80u8, 0x06, 0x00, 0x01, 0x00, 0x00, 18, 0x00], true, 18usize),
        set_address_request(new_addr) == (0u8, seq![0x00u8, 0x05, new_addr, 0x00, 0x00, 0x00, 0x00, 0x00], false, 0usize),
        config_header_request(addr) == (addr, seq![0x80u8, 0x06, 0x00, 0x02, 0x00, 0x00, 9, 0x00], true, 9usize),
        ({
            let total = header[2] + 256 * header[3];
            let n: int = if total < 64 { total } else { 64 };
            config_descriptor_request(addr, header, 64)
                == (addr, seq![0x80u8, 0x06, 0x00, 0x02, 0x00, 0x00, n as u8, 0x00], true, n as usize)
        }),
        set_configuration_request(addr, cv) == (addr, seq![0x00u8, 0x09, cv, 0x00, 0x00, 0x00, 0x00, 0x00], false, 0usize),
        set_boot_protocol_request(addr, iface) == (addr, seq![0x21u8, 0x0B, 0x00, 0x00, iface, 0x00, 0x00, 0x00], false, 0usize),
        set_idle_request(addr, iface, rate) == (addr, seq![0x21u8, 0x0A, 0x00, rate, iface, 0x00, 0x00, 0x00], false, 0usize),
        port_power_request(addr, port) == (addr, seq![0x23u8, 0x03, 0x08, 0x00, port, 0x00, 0x00, 0x00], false, 0usize),
        port_reset_request(addr, port) == (addr, seq![0x23u8, 0x03, 0x04, 0x00, port, 0x00, 0x00, 0x00], false, 0usize),
        port_status_request(addr, port) == (addr, seq![0xA3u8, 0x00, 0x00, 0x00, port, 0x00, 0x04, 0x00], true, 4usize),
{
    assert(DIR_IN | TYPE_STANDARD | RECIP_DEVICE == 0x80u8) by (bit_vector);
    assert(DIR_OUT | TYPE_STANDARD | RECIP_DEVICE == 0x00u8) by (bit_vector);
    assert(DIR_OUT | TYPE_CLASS | RECIP_INTERFACE == 0x21u8) by (bit_vector);
    assert(HUB_SET_PORT_FEATURE_REQ == 0x23u8) by (bit_vector);
    assert(HUB_GET_PORT_STATUS_REQ == 0xA3u8) by (bit_vector);
    assert((DESC_DEVICE as u16) << 8 == 0x0100u16) by (bit_vector);
    assert((DESC_CONFIGURATION as u16) << 8 == 0x0200u16) by (bit_vector);
    let r16 = rate as u16;
    assert((r16 << 8) % 256 == 0 && (r16 << 8) / 256 == r16) by (bit_vector)
        requires r16 < 256;
    let total = header[2] + 256 * header[3];
    let n: int = if total < 64 { total } else { 64 };
    assert(config_read_len(header, 64) == n);
    assert(device_descriptor_request(addr).1 =~= seq![0x80u8, 0x06, 0x00, 0x01, 0x00, 0x00, 18, 0x00]);
    assert(set_address_request(new_addr).1 =~= seq![0x00u8, 0x05, new_addr, 0x00, 0x00, 0x00, 0x00, 0x00]);
    assert(config_header_request(addr).1 =~= seq![0x80u8, 0x06, 0x00, 0x02, 0x00, 0x00, 9, 0x00]);
    assert(config_descriptor_request(addr, header, 64).1
        =~= seq![0x80u8, 0x06, 0x00, 0x02, 0x00, 0x00, n as u8, 0x00]);
    assert(set_configuration_request(addr, cv).1 =~= seq![0x00u8, 0x09, cv, 0x00, 0x00, 0x00, 0x00, 0x00]);
    assert(set_boot_protocol_request(addr, iface).1 =~= seq![0x21u8, 0x0B, 0x00, 0x00, iface, 0x00, 0x00, 0x00]);
    assert(set_idle_request(addr, iface, rate).1 =~= seq![0x21u8, 0x0A, 0x00, rate, iface, 0x00, 0x00, 0x00]);
    assert(port_power_request(addr, port).1 =~= seq![0x23u8, 0x03, 0x08, 0x00, port, 0x00, 0x00, 0x00]);
    assert(port_reset_request(addr, port).1 =~= seq![0x23u8, 0x03, 0x04, 0x00, port, 0x00, 0x00, 0x00]);
    assert(port_status_request(addr, port).1 =~= seq![0xA3u8, 0x00, 0x00, 0x00, port, 0x00, 0x04, 0x00]);
}

impl Dwc2Hcd {
    /// The transfer phases of a control request, with the SETUP packet at `setup_dma` and
    /// the data buffer at `data_dma`: `control_transfer_in` for a request with a data
    /// phase direction IN, `control_transfer_out_nodata` otherwise.
    pub fn control_request(&self, req: &ControlRequest, setup_dma: u32, data_dma: u32) -> (r: Vec<Stage>)
        requires
            base_fits(self.spec_base()),
        ensures
            plan(r@) == if req.data_in {
                control_in_plan(self.spec_base(), req.dev_addr, self.spec_port_speed() == SPEED_LOW,
                    setup_dma, data_dma, req.data_len)
            } else {
                control_out_plan(self.spec_base(), req.dev_addr, self.spec_port_speed() == SPEED_LOW, setup_dma)
            },
    {
        if req.data_in {
            self.control_transfer_in(req.dev_addr, setup_dma, data_dma, req.data_len)
        } else {
            self.control_transfer_out_nodata(req.dev_addr, setup_dma)
        }
    }
}

} // verus!

verus! {

/// Size of the buffer that holds configuration descriptors during enumeration.
pub const CONFIG_BUF_LEN: usize = 64;

/// Address the first device (or hub) gets.
pub const FIRST_ADDRESS: u8 = 1;

/// Address a device behind the hub gets.
pub const DOWNSTREAM_ADDRESS: u8 = 2;

/// Number of hub ports that are powered and scanned.
pub const HUB_PORTS: u8 = 4;

/// Where an enumeration stands: what the last action was.
#[derive(Debug, Clone, Copy, PartialEq, Eq, Structural)]
pub enum EnumPhase {
    /// Nothing done yet; the first event says whether a device is connected.
    Begin,
    /// The device descriptor of the device at address 0 was requested.
    DeviceDescriptor,
    /// The device was told to take the first address; `hub` says it is a hub.
    SetAddress { hub: bool },
    /// The delay after the address change ran.
    AddressSet { hub: bool },
    /// The configuration header of `addr` was requested; `for_hub` says `addr` is the hub.
    ConfigHeader { addr: u8, for_hub: bool },
    /// The first `len` bytes of the configuration descriptor of `addr` were requested.
    ConfigBody { addr: u8, for_hub: bool, len: usize },
    /// The hub was told to take its configuration.
    HubConfigured,
    /// Port `port` of the hub was powered.
    PortPower { port: u8 },
    /// The delay after powering the hub ports ran.
    PortsPowered,
    /// The status of hub port `port` was requested.
    PortStatus { port: u8 },
    /// The connected hub port was reset.
    PortReset,
    /// The delay after the hub port reset ran.
    PortSettled,
    /// The device descriptor of the device behind the hub was requested.
    DownstreamDescriptor,
    /// The device behind the hub was told to take its address.
    DownstreamAddress,
    /// The delay after that address change ran.
    DownstreamSettled,
    /// Keyboard at `addr` (interface `iface`, endpoint `ep`) was told its configuration.
    Configure { addr: u8, iface: u8, ep: u8 },
    /// The keyboard was put in boot protocol.
    BootProtocol { addr: u8, iface: u8, ep: u8 },
    /// The keyboard's idle rate was set.
    SetIdle { addr: u8, iface: u8, ep: u8 },
    /// The enumeration is over.
    Over,
}

/// What an enumeration asks of its caller.
pub enum EnumAction {
    /// Run this control transfer, then report whether it succeeded and the bytes its
    /// data buffer holds.
    Request(ControlRequest),
    /// Wait about `ms` milliseconds, then step again.
    Delay { ms: u32 },
    /// The enumeration is over, with the configured keyboard if one was found.
    Finish(Option<Keyboard>),
}

/// An action as the contracts see it: a request by its view, a delay, or the end with
/// the address, endpoint and interface of the keyboard found.
pub enum ActionView {
    Request((u8, Seq<u8>, bool, usize)),
    Delay(u32),
    Finish(Option<(u8, u8, u8)>),
}

pub open spec fn action_view(a: EnumAction) -> ActionView {
    match a {
        EnumAction::Request(r) => ActionView::Request(r@),
        EnumAction::Delay { ms } => ActionView::Delay(ms),
        EnumAction::Finish(None) => ActionView::Finish(None),
        EnumAction::Finish(Some(k)) => ActionView::Finish(Some((k.spec_dev_addr(), k.spec_ep_num(), k.spec_iface()))),
    }
}

/// Byte `i` of `data`, or 0 past its end.
pub open spec fn byte_or_zero(data: Seq<u8>, i: int) -> u8 {
    if 0 <= i < data.len() { data[i] } else { 0 }
}

/// What a fresh, zeroed buffer of `n` bytes holds after `data` was received into it.
pub open spec fn received(data: Seq<u8>, n: int) -> Seq<u8> {
    Seq::new(n as nat, |i: int| byte_or_zero(data, i))
}

/// `buf` after up to its first `n` bytes were overwritten by `data`.
pub open spec fn overlay(buf: Seq<u8>, data: Seq<u8>, n: int) -> Seq<u8> {
    Seq::new(buf.len(), |i: int| if i < n && i < data.len() { data[i] } else { buf[i] })
}

/// The end of an enumeration that found no keyboard.
pub open spec fn give_up() -> (EnumPhase, ActionView) {
    (EnumPhase::Over, ActionView::Finish(None))
}

/// What follows reading `len` bytes of the configuration descriptor of `addr` into `buf`
/// (0 when the read failed). For the hub: select its configuration (when any was read)
/// and power the first port. For a device: give up unless the bytes read announce a
/// boot keyboard; otherwise select the configuration.
pub open spec fn after_config(addr: u8, for_hub: bool, len: usize, buf: Seq<u8>) -> (EnumPhase, ActionView) {
    if for_hub {
        if len > 0 {
            (EnumPhase::HubConfigured, ActionView::Request(set_configuration_request(FIRST_ADDRESS, buf[5])))
        } else {
            (EnumPhase::PortPower { port: 1 }, ActionView::Request(port_power_request(FIRST_ADDRESS, 1)))
        }
    } else if len == 0 {
        give_up()
    } else {
        match spec_find_keyboard(buf.take(len as int)) {
            None => give_up(),
            Some(info) => (
                EnumPhase::Configure { addr, iface: info.interface, ep: info.endpoint_in },
                ActionView::Request(set_configuration_request(addr, buf[5])),
            ),
        }
    }
}

/// One step of the enumeration, from the phase, the configuration buffer, and the
/// event: `ok` (for `Begin`, whether a device is connected; otherwise whether the last
/// transfer succeeded) and `data` (the bytes of the last transfer's data buffer).
/// Gives the next phase, the next configuration buffer and the action.
pub open spec fn enum_next(phase: EnumPhase, buf: Seq<u8>, ok: bool, data: Seq<u8>) -> (EnumPhase, Seq<u8>, ActionView) {
    let (p, a) = match phase {
        EnumPhase::Begin => if ok {
            (EnumPhase::DeviceDescriptor, ActionView::Request(device_descriptor_request(0)))
        } else {
            give_up()
        },
        EnumPhase::DeviceDescriptor => if ok {
            (
                EnumPhase::SetAddress { hub: byte_or_zero(data, 4) == CLASS_HUB },
                ActionView::Request(set_address_request(FIRST_ADDRESS)),
            )
        } else {
            give_up()
        },
        EnumPhase::SetAddress { hub } => if ok {
            (EnumPhase::AddressSet { hub }, ActionView::Delay(10))
        } else {
            give_up()
        },
        EnumPhase::AddressSet { hub } => (
            EnumPhase::ConfigHeader { addr: FIRST_ADDRESS, for_hub: hub },
            ActionView::Request(config_header_request(FIRST_ADDRESS)),
        ),
        EnumPhase::ConfigHeader { addr, for_hub } => if ok {
            (
                EnumPhase::ConfigBody { addr, for_hub, len: config_read_len(received(data, 9), CONFIG_BUF_LEN) },
                ActionView::Request(config_descriptor_request(addr, received(data, 9), CONFIG_BUF_LEN)),
            )
        } else {
            after_config(addr, for_hub, 0, buf)
        },
        EnumPhase::ConfigBody { addr, for_hub, len } => if ok {
            after_config(addr, for_hub, len, overlay(buf, data, len as int))
        } else {
            after_config(addr, for_hub, 0, overlay(buf, data, len as int))
        },
        EnumPhase::HubConfigured => (EnumPhase::PortPower { port: 1 }, ActionView::Request(port_power_request(FIRST_ADDRESS, 1))),
        EnumPhase::PortPower { port } => if port < HUB_PORTS {
            (
                EnumPhase::PortPower { port: (port + 1) as u8 },
                ActionView::Request(port_power_request(FIRST_ADDRESS, (port + 1) as u8)),
            )
        } else {
            (EnumPhase::PortsPowered, ActionView::Delay(50))
        },
        EnumPhase::PortsPowered => (EnumPhase::PortStatus { port: 1 }, ActionView::Request(port_status_request(FIRST_ADDRESS, 1))),
        EnumPhase::PortStatus { port } => if ok && received(data, 4)[0] % 2 == 1 {
            (EnumPhase::PortReset, ActionView::Request(port_reset_request(FIRST_ADDRESS, port)))
        } else if port < HUB_PORTS {
            (
                EnumPhase::PortStatus { port: (port + 1) as u8 },
                ActionView::Request(port_status_request(FIRST_ADDRESS, (port + 1) as u8)),
            )
        } else {
            give_up()
        },
        EnumPhase::PortReset => (EnumPhase::PortSettled, ActionView::Delay(50)),
        EnumPhase::PortSettled => (EnumPhase::DownstreamDescriptor, ActionView::Request(device_descriptor_request(0))),
        EnumPhase::DownstreamDescriptor => if ok {
            (EnumPhase::DownstreamAddress, ActionView::Request(set_address_request(DOWNSTREAM_ADDRESS)))
        } else {
            give_up()
        },
        EnumPhase::DownstreamAddress => if ok {
            (EnumPhase::DownstreamSettled, ActionView::Delay(10))
        } else {
            give_up()
        },
        EnumPhase::DownstreamSettled => (
            EnumPhase::ConfigHeader { addr: DOWNSTREAM_ADDRESS, for_hub: false },
            ActionView::Request(config_header_request(DOWNSTREAM_ADDRESS)),
        ),
        EnumPhase::Configure { addr, iface, ep } => if ok {
            (EnumPhase::BootProtocol { addr, iface, ep }, ActionView::Request(set_boot_protocol_request(addr, iface)))
        } else {
            give_up()
        },
        EnumPhase::BootProtocol { addr, iface, ep } => (
            EnumPhase::SetIdle { addr, iface, ep },
            ActionView::Request(set_idle_request(addr, iface, 0)),
        ),
        EnumPhase::SetIdle { addr, iface, ep } => (EnumPhase::Over, ActionView::Finish(Some((addr, ep, iface)))),
        EnumPhase::Over => give_up(),
    };
    let buf2 = match phase {
        EnumPhase::ConfigBody { len, .. } => overlay(buf, data, len as int),
        _ => buf,
    };
    (p, buf2, a)
}

/// The most steps an enumeration in this phase takes before it is over.
pub open spec fn steps_left(phase: EnumPhase) -> nat {
    match phase {
        EnumPhase::Begin => 30,
        EnumPhase::DeviceDescriptor => 29,
        EnumPhase::SetAddress { .. } => 28,
        EnumPhase::AddressSet { .. } => 27,
        EnumPhase::ConfigHeader { addr, for_hub } => if !for_hub && addr == DOWNSTREAM_ADDRESS { 8 } else { 26 },
        EnumPhase::ConfigBody { addr, for_hub, .. } => if !for_hub && addr == DOWNSTREAM_ADDRESS { 7 } else { 25 },
        EnumPhase::HubConfigured => 24,
        EnumPhase::PortPower { port } => if port < HUB_PORTS { (23 - port) as nat } else { 19 },
        EnumPhase::PortsPowered => 18,
        EnumPhase::PortStatus { port } => if port < HUB_PORTS { (18 - port) as nat } else { 14 },
        EnumPhase::PortReset => 13,
        EnumPhase::PortSettled => 12,
        EnumPhase::DownstreamDescriptor => 11,
        EnumPhase::DownstreamAddress => 10,
        EnumPhase::DownstreamSettled => 9,
        EnumPhase::Configure { .. } => 3,
        EnumPhase::BootProtocol { .. } => 2,
        EnumPhase::SetIdle { .. } => 1,
        EnumPhase::Over => 0,
    }
}

/// Enumeration always ends, whatever the devices answer: every step before the end
/// brings it closer to the end (at most 30 steps from the start), and once over it stays
/// over and finds nothing more.
pub proof fn lemma_enumeration_ends(phase: EnumPhase, buf: Seq<u8>, ok: bool, data: Seq<u8>)
    ensures
        phase != EnumPhase::Over ==> steps_left(enum_next(phase, buf, ok, data).0) < steps_left(phase),
        phase == EnumPhase::Over ==> enum_next(phase, buf, ok, data) == (EnumPhase::Over, buf, ActionView::Finish(None)),
        steps_left(EnumPhase::Begin) == 30,
{
}

/// Whether the device addresses a phase carries are ones the enumeration assigns.
pub open spec fn assigned_addresses(phase: EnumPhase) -> bool {
    match phase {
        EnumPhase::ConfigHeader { addr, .. } => addr == FIRST_ADDRESS || addr == DOWNSTREAM_ADDRESS,
        EnumPhase::ConfigBody { addr, .. } => addr == FIRST_ADDRESS || addr == DOWNSTREAM_ADDRESS,
        EnumPhase::Configure { addr, .. } => addr == FIRST_ADDRESS || addr == DOWNSTREAM_ADDRESS,
        EnumPhase::BootProtocol { addr, .. } => addr == FIRST_ADDRESS || addr == DOWNSTREAM_ADDRESS,
        EnumPhase::SetIdle { addr, .. } => addr == FIRST_ADDRESS || addr == DOWNSTREAM_ADDRESS,
        _ => true,
    }
}

/// The keyboard an enumeration finds sits at an address the enumeration gave it (the
/// first address on the root port, the downstream address behind a hub), and it is
/// only found after it was configured, put in boot protocol and given its idle rate.
pub proof fn lemma_keyboard_address(phase: EnumPhase, buf: Seq<u8>, ok: bool, data: Seq<u8>)
    requires
        assigned_addresses(phase),
    ensures
        assigned_addresses(enum_next(phase, buf, ok, data).0),
        assigned_addresses(EnumPhase::Begin),
        enum_next(phase, buf, ok, data).2 matches ActionView::Finish(Some((addr, ep, iface))) ==> {
            &&& phase == (EnumPhase::SetIdle { addr, iface, ep })
            &&& (addr == FIRST_ADDRESS || addr == DOWNSTREAM_ADDRESS)
        },
{
}

/// The hub ports are powered one after the other, 1 to 4 (SET_FEATURE(PORT_POWER) to the
/// hub at address 1, whatever the outcome), then after 50 ms their status is read in
/// the same order. The first port whose status read succeeds with the connection bit
/// (bit 0) set is the one reset (SET_FEATURE(PORT_RESET)), whichever of the four it is;
/// with no port connected the enumeration ends without a keyboard.
pub proof fn lemma_hub_port_scan(port: u8, buf: Seq<u8>, ok: bool, data: Seq<u8>)
    requires
        1 <= port <= 4,
    ensures
        enum_next(EnumPhase::HubConfigured, buf, ok, data) == (EnumPhase::PortPower { port: 1 }, buf,
            ActionView::Request((1u8, seq![0x23u8, 0x03, 0x08, 0x00, 0x01, 0x00, 0x00, 0x00], false, 0usize))),
        port < 4 ==> enum_next(EnumPhase::PortPower { port }, buf, ok, data) == (
            EnumPhase::PortPower { port: (port + 1) as u8 }, buf,
            ActionView::Request((1u8, seq![0x23u8, 0x03, 0x08, 0x00, (port + 1) as u8, 0x00, 0x00, 0x00], false, 0usize))),
        port == 4 ==> enum_next(EnumPhase::PortPower { port }, buf, ok, data) == (EnumPhase::PortsPowered, buf, ActionView::Delay(50)),
        enum_next(EnumPhase::PortsPowered, buf, ok, data) == (EnumPhase::PortStatus { port: 1 }, buf,
            ActionView::Request((1u8, seq![0xA3u8, 0x00, 0x00, 0x00, 0x01, 0x00, 0x04, 0x00], true, 4usize))),
        ok && data.len() >= 1 && data[0] % 2 == 1 ==> enum_next(EnumPhase::PortStatus { port }, buf, ok, data) == (
            EnumPhase::PortReset, buf,
            ActionView::Request((1u8, seq![0x23u8, 0x03, 0x04, 0x00, port, 0x00, 0x00, 0x00], false, 0usize))),
        !(ok && data.len() >= 1 && data[0] % 2 == 1) && port < 4 ==> enum_next(EnumPhase::PortStatus { port }, buf, ok, data) == (
            EnumPhase::PortStatus { port: (port + 1) as u8 }, buf,
            ActionView::Request((1u8, seq![0xA3u8, 0x00, 0x00, 0x00, (port + 1) as u8, 0x00, 0x04, 0x00], true, 4usize))),
        !(ok && data.len() >= 1 && data[0] % 2 == 1) && port == 4 ==> enum_next(EnumPhase::PortStatus { port }, buf, ok, data) == (
            EnumPhase::Over, buf, ActionView::Finish(None)),
        enum_next(EnumPhase::PortReset, buf, ok, data) == (EnumPhase::PortSettled, buf, ActionView::Delay(50)),
{
    lemma_request_packets(1, 0, 0, 0, 0, port, seq![0u8, 0, 0, 0]);
    lemma_request_packets(1, 0, 0, 0, 0, 1, seq![0u8, 0, 0, 0]);
    lemma_request_packets(1, 0, 0, 0, 0, (port + 1) as u8, seq![0u8, 0, 0, 0]);
    assert(data.len() >= 1 ==> received(data, 4)[0] == data[0]);
    assert(data.len() == 0 ==> received(data, 4)[0] == 0);
}

/// The device on the root port is asked for its device descriptor at the default
/// address 0 once a device is connected (nothing happens without one); it is a hub
/// exactly when its class (byte 4 of the descriptor) is 9; either way it is given
/// address 1, then after 10 ms the header of its configuration descriptor is read. A
/// device behind the hub is asked for its descriptor at address 0 50 ms after its port
/// reset, given address 2, and after 10 ms its configuration header is read. A failed
/// descriptor read or address change ends the enumeration without a keyboard.
pub proof fn lemma_device_addresses(buf: Seq<u8>, ok: bool, data: Seq<u8>, hub: bool)
    ensures
        !ok ==> enum_next(EnumPhase::Begin, buf, ok, data) == (EnumPhase::Over, buf, ActionView::Finish(None)),
        ok ==> enum_next(EnumPhase::Begin, buf, ok, data) == (EnumPhase::DeviceDescriptor, buf,
            ActionView::Request((0u8, seq![0x80u8, 0x06, 0x00, 0x01, 0x00, 0x00, 18, 0x00], true, 18usize))),
        ok ==> enum_next(EnumPhase::DeviceDescriptor, buf, ok, data) == (
            EnumPhase::SetAddress { hub: data.len() > 4 && data[4] == 9 }, buf,
            ActionView::Request((0u8, seq![0x00u8, 0x05, 0x01, 0x00, 0x00, 0x00, 0x00, 0x00], false, 0usize))),
        ok ==> enum_next(EnumPhase::SetAddress { hub }, buf, ok, data) == (EnumPhase::AddressSet { hub }, buf, ActionView::Delay(10)),
        enum_next(EnumPhase::AddressSet { hub }, buf, ok, data) == (EnumPhase::ConfigHeader { addr: 1, for_hub: hub }, buf,
            ActionView::Request((1u8, seq![0x80u8, 0x06, 0x00, 0x02, 0x00, 0x00, 9, 0x00], true, 9usize))),
        enum_next(EnumPhase::PortSettled, buf, ok, data) == (EnumPhase::DownstreamDescriptor, buf,
            ActionView::Request((0u8, seq![0x80u8, 0x06, 0x00, 0x01, 0x00, 0x00, 18, 0x00], true, 18usize))),
        ok ==> enum_next(EnumPhase::DownstreamDescriptor, buf, ok, data) == (EnumPhase::DownstreamAddress, buf,
            ActionView::Request((0u8, seq![0x00u8, 0x05, 0x02, 0x00, 0x00, 0x00, 0x00, 0x00], false, 0usize))),
        ok ==> enum_next(EnumPhase::DownstreamAddress, buf, ok, data) == (EnumPhase::DownstreamSettled, buf, ActionView::Delay(10)),
        enum_next(EnumPhase::DownstreamSettled, buf, ok, data) == (EnumPhase::ConfigHeader { addr: 2, for_hub: false }, buf,
            ActionView::Request((2u8, seq![0x80u8, 0x06, 0x00, 0x02, 0x00, 0x00, 9, 0x00], true, 9usize))),
        !ok ==> enum_next(EnumPhase::DeviceDescriptor, buf, ok, data).2 == ActionView::Finish(None),
        !ok ==> enum_next(EnumPhase::SetAddress { hub }, buf, ok, data).2 == ActionView::Finish(None),
        !ok ==> enum_next(EnumPhase::DownstreamDescriptor, buf, ok, data).2 == ActionView::Finish(None),
        !ok ==> enum_next(EnumPhase::DownstreamAddress, buf, ok, data).2 == ActionView::Finish(None),
{
    lemma_request_packets(0, 1, 0, 0, 0, 0, seq![0u8, 0, 0, 0]);
    lemma_request_packets(1, 2, 0, 0, 0, 0, seq![0u8, 0, 0, 0]);
    lemma_request_packets(2, 2, 0, 0, 0, 0, seq![0u8, 0, 0, 0]);
}

/// Once the configuration descriptor of a device (not the hub) has been read, with
/// `len` bytes: if those bytes announce a boot keyboard, the device's configuration is
/// selected with bConfigurationValue (byte 5 of the descriptor), then the keyboard's
/// interface is put in boot protocol and its idle rate set to 0, and the keyboard is
/// the result, at the device's address with the interface and endpoint found. Without
/// a keyboard, or with nothing read, there is no keyboard; a failed configuration ends
/// the enumeration without one.
pub proof fn lemma_keyboard_setup(addr: u8, iface: u8, ep: u8, len: usize, buf: Seq<u8>, ok: bool, data: Seq<u8>)
    requires
        buf.len() == 64,
        6 <= len <= 64,
        data.len() >= len,
    ensures
        ok && spec_find_keyboard(data.take(len as int)) is Some ==> {
            let info = spec_find_keyboard(data.take(len as int)).unwrap();
            enum_next(EnumPhase::ConfigBody { addr, for_hub: false, len }, buf, ok, data) == (
                EnumPhase::Configure { addr, iface: info.interface, ep: info.endpoint_in },
                overlay(buf, data, len as int),
                ActionView::Request((addr, seq![0x00u8, 0x09, data[5], 0x00, 0x00, 0x00, 0x00, 0x00], false, 0usize)))
        },
        ok && spec_find_keyboard(data.take(len as int)) is None ==>
            enum_next(EnumPhase::ConfigBody { addr, for_hub: false, len }, buf, ok, data).2 == ActionView::Finish(None),
        !ok ==> enum_next(EnumPhase::ConfigBody { addr, for_hub: false, len }, buf, ok, data).2 == ActionView::Finish(None),
        !ok ==> enum_next(EnumPhase::ConfigHeader { addr, for_hub: false }, buf, ok, data).2 == ActionView::Finish(None),
        ok ==> enum_next(EnumPhase::Configure { addr, iface, ep }, buf, ok, data) == (EnumPhase::BootProtocol { addr, iface, ep }, buf,
            ActionView::Request((addr, seq![0x21u8, 0x0B, 0x00, 0x00, iface, 0x00, 0x00, 0x00], false, 0usize))),
        !ok ==> enum_next(EnumPhase::Configure { addr, iface, ep }, buf, ok, data).2 == ActionView::Finish(None),
        enum_next(EnumPhase::BootProtocol { addr, iface, ep }, buf, ok, data) == (EnumPhase::SetIdle { addr, iface, ep }, buf,
            ActionView::Request((addr, seq![0x21u8, 0x0A, 0x00, 0x00, iface, 0x00, 0x00, 0x00], false, 0usize))),
        enum_next(EnumPhase::SetIdle { addr, iface, ep }, buf, ok, data) == (EnumPhase::Over, buf,
            ActionView::Finish(Some((addr, ep, iface)))),
{
    let b2 = overlay(buf, data, len as int);
    assert(b2.take(len as int) =~= data.take(len as int));
    assert(b2[5] == data[5]);
    lemma_request_packets(addr, 0, data[5], iface, 0, 0, seq![0u8, 0, 0, 0]);
}

/// A configuration header read that succeeds leads to the read of the whole
/// configuration descriptor: its total length (bytes 2 and 3 of the header,
/// little-endian), at most the 64 bytes of the buffer. For the hub, the configuration
/// read selects its configuration (bConfigurationValue, byte 5) when anything was read,
/// and goes on to power port 1 either way.
pub proof fn lemma_config_read(addr: u8, for_hub: bool, len: usize, buf: Seq<u8>, ok: bool, data: Seq<u8>)
    requires
        buf.len() == 64,
        data.len() >= 9,
        len <= 64,
    ensures
        ok ==> ({
            let total = data[2] + 256 * data[3];
            let n: int = if total < 64 { total } else { 64 };
            enum_next(EnumPhase::ConfigHeader { addr, for_hub }, buf, ok, data) == (
                EnumPhase::ConfigBody { addr, for_hub, len: n as usize }, buf,
                ActionView::Request((addr, seq![0x80u8, 0x06, 0x00, 0x02, 0x00, 0x00, n as u8, 0x00], true, n as usize)))
        }),
        ok && len > 5 && data.len() >= len ==> enum_next(EnumPhase::ConfigBody { addr, for_hub: true, len }, buf, ok, data) == (
            EnumPhase::HubConfigured, overlay(buf, data, len as int),
            ActionView::Request((1u8, seq![0x00u8, 0x09, data[5], 0x00, 0x00, 0x00, 0x00, 0x00], false, 0usize))),
        !ok ==> enum_next(EnumPhase::ConfigHeader { addr, for_hub: true }, buf, ok, data) == (
            EnumPhase::PortPower { port: 1 }, buf,
            ActionView::Request((1u8, seq![0x23u8, 0x03, 0x08, 0x00, 0x01, 0x00, 0x00, 0x00], false, 0usize))),
{
    let h = received(data, 9);
    assert(h[2] == data[2] && h[3] == data[3]);
    lemma_request_packets(addr, 0, 0, 0, 0, 1, h);
    lemma_request_packets(1, 0, data[5], 0, 0, 1, h);
    let b2 = overlay(buf, data, len as int);
    assert(len > 5 && data.len() >= len ==> b2[5] == data[5]);
}

/// When the hub's configuration descriptor could not be read (the read failed or
/// nothing was read), no configuration is selected and port 1 is powered next.
pub proof fn lemma_hub_without_configuration(len: usize, buf: Seq<u8>, ok: bool, data: Seq<u8>)
    requires
        buf.len() == 64,
        !ok || len == 0,
    ensures
        enum_next(EnumPhase::ConfigBody { addr: 1, for_hub: true, len }, buf, ok, data) == (
            EnumPhase::PortPower { port: 1 }, overlay(buf, data, len as int),
            ActionView::Request((1u8, seq![0x23u8, 0x03, 0x08, 0x00, 0x01, 0x00, 0x00, 0x00], false, 0usize))),
{
    lemma_request_packets(1, 0, 0, 0, 0, 1, seq![0u8, 0, 0, 0]);
}

/// A hub port status is the 4 reply bytes read little-endian: byte 0 is the low byte
/// (it holds the connection bit, bit 0), byte 3 the high byte.
pub proof fn lemma_port_status_bytes(b: Seq<u8>)
    requires
        b.len() >= 4,
    ensures
        le32(b) % 256 == b[0],
        (le32(b) / 256) % 256 == b[1],
        (le32(b) / 65536) % 256 == b[2],
        le32(b) / 16777216 == b[3],
        le32(b) % 2 == b[0] % 2,
{
    let x = le32(b);
    assert(x == b[0] + 256 * (b[1] + 256 * (b[2] + 256 * b[3])));
    assert(x % 256 == b[0] && x / 256 == b[1] + 256 * (b[2] + 256 * b[3])) by (nonlinear_arith)
        requires x == b[0] + 256 * (b[1] + 256 * (b[2] + 256 * b[3])), 0 <= b[0] < 256, 0 <= b[1] < 256,
            0 <= b[2] < 256, 0 <= b[3] < 256;
    let y = b[1] + 256 * (b[2] + 256 * b[3]);
    assert(y % 256 == b[1] && y / 256 == b[2] + 256 * b[3]) by (nonlinear_arith)
        requires y == b[1] + 256 * (b[2] + 256 * b[3]), 0 <= b[1] < 256, 0 <= b[2] < 256, 0 <= b[3] < 256;
    let z = b[2] + 256 * b[3];
    assert(z % 256 == b[2] && z / 256 == b[3]) by (nonlinear_arith)
        requires z == b[2] + 256 * b[3], 0 <= b[2] < 256, 0 <= b[3] < 256;
    assert(x / 65536 == z) by (nonlinear_arith)
        requires x / 256 == y, y / 256 == z, x >= 0;
    assert(x / 16777216 == b[3]) by (nonlinear_arith)
        requires x / 65536 == z, z / 256 == b[3], x >= 0;
    assert(x % 2 == b[0] % 2) by (nonlinear_arith)
        requires x == b[0] + 2 * (128 * (b[1] + 256 * (b[2] + 256 * b[3])));
}

/// The enumeration of a boot keyboard on the root port, directly attached or behind a
/// hub. Its caller hands each outcome to `step` and performs the action it returns.
pub struct Enumerator {
    phase: EnumPhase,
    config_buf: [u8; 64],
}

impl Enumerator {
    #[verifier::type_invariant]
    spec fn inv(&self) -> bool {
        self.phase matches EnumPhase::ConfigBody { len, .. } ==> len <= CONFIG_BUF_LEN
    }

    /// The phase of the enumeration.
    pub closed spec fn spec_phase(&self) -> EnumPhase {
        self.phase
    }

    /// The configuration descriptor buffer.
    pub closed spec fn spec_config_buf(&self) -> Seq<u8> {
        self.config_buf@
    }

    /// An enumeration that has not begun, with a zeroed configuration buffer.
    pub fn new() -> (e: Self)
        ensures
            e.spec_phase() == EnumPhase::Begin,
            e.spec_config_buf() == Seq::new(64, |i: int| 0u8),
    {
        let e = Enumerator { phase: EnumPhase::Begin, config_buf: [0; 64] };
        assert(e.config_buf@ =~= Seq::new(64, |i: int| 0u8));
        e
    }

    fn copy_received(&mut self, data: &[u8], len: usize)
        ensures
            final(self).config_buf@ == overlay(old(self).config_buf@, data@, len as int),
            final(self).phase == old(self).phase,
    {
        let mut i: usize = 0;
        while i < len && i < data.len() && i < 64
            invariant
                i <= 64,
                self.phase == old(self).phase,
                forall|j: int| 0 <= j < i ==> self.config_buf@[j] == data@[j],
                forall|j: int| i <= j < 64 ==> self.config_buf@[j] == old(self).config_buf@[j],
                i <= len || i == 0,
                i <= data@.len() || i == 0,
            decreases 64 - i,
        {
            proof {
                use_type_invariant(&*self);
            }
            self.config_buf[i] = data[i];
            i += 1;
        }
        assert(self.config_buf@ =~= overlay(old(self).config_buf@, data@, len as int));
    }

    fn after_config(&mut self, addr: u8, for_hub: bool, len: usize) -> (r: EnumAction)
        requires
            len <= 64,
        ensures
            (final(self).phase, action_view(r)) == after_config(addr, for_hub, len, old(self).config_buf@),
            final(self).config_buf@ == old(self).config_buf@,
    {
        if for_hub {
            if len > 0 {
                self.phase = EnumPhase::HubConfigured;
                EnumAction::Request(set_configuration(FIRST_ADDRESS, self.config_buf[5]))
            } else {
                self.phase = EnumPhase::PortPower { port: 1 };
                EnumAction::Request(hub_set_port_power(FIRST_ADDRESS, 1))
            }
        } else if len == 0 {
            self.phase = EnumPhase::Over;
            EnumAction::Finish(None)
        } else {
            let bytes = vstd::slice::slice_subrange(&self.config_buf, 0, len);
            assert(bytes@ =~= self.config_buf@.take(len as int));
            match find_hid_keyboard(bytes) {
                None => {
                    self.phase = EnumPhase::Over;
                    EnumAction::Finish(None)
                },
                Some(info) => {
                    self.phase = EnumPhase::Configure { addr, iface: info.interface, ep: info.endpoint_in };
                    EnumAction::Request(set_configuration(addr, self.config_buf[5]))
                },
            }
        }
    }

    /// Takes in the outcome of the last action and returns the next one (see `enum_next`).
    pub fn step(&mut self, ok: bool, data: &[u8]) -> (r: EnumAction)
        ensures
            (final(self).spec_phase(), final(self).spec_config_buf(), action_view(r))
                == enum_next(old(self).spec_phase(), old(self).spec_config_buf(), ok, data@),
            r matches EnumAction::Finish(Some(k)) ==> k.pending().len() == 0 && !k.spec_toggle()
                && k.held_keys() == seq![0u8, 0u8, 0u8, 0u8, 0u8, 0u8],
    {
        proof {
            use_type_invariant(&*self);
        }
        match self.phase {
            EnumPhase::Begin => {
                if ok {
                    self.phase = EnumPhase::DeviceDescriptor;
                    EnumAction::Request(get_device_descriptor(0))
                } else {
                    self.phase = EnumPhase::Over;
                    EnumAction::Finish(None)
                }
            },
            EnumPhase::DeviceDescriptor => {
                if ok {
                    let class = if data.len() > 4 { data[4] } else { 0 };
                    self.phase = EnumPhase::SetAddress { hub: class == CLASS_HUB };
                    EnumAction::Request(set_address(FIRST_ADDRESS))
                } else {
                    self.phase = EnumPhase::Over;
                    EnumAction::Finish(None)
                }
            },
            EnumPhase::SetAddress { hub } => {
                if ok {
                    self.phase = EnumPhase::AddressSet { hub };
                    EnumAction::Delay { ms: 10 }
                } else {
                    self.phase = EnumPhase::Over;
                    EnumAction::Finish(None)
                }
            },
            EnumPhase::AddressSet { hub } => {
                self.phase = EnumPhase::ConfigHeader { addr: FIRST_ADDRESS, for_hub: hub };
                EnumAction::Request(get_config_header(FIRST_ADDRESS))
            },
            EnumPhase::ConfigHeader { addr, for_hub } => {
                if ok {
                    let mut header: [u8; 9] = [0; 9];
                    let mut i: usize = 0;
                    while i < 9 && i < data.len()
                        invariant
                            i <= 9,
                            i <= data@.len(),
                            forall|j: int| 0 <= j < i ==> header@[j] == data@[j],
                            forall|j: int| i <= j < 9 ==> header@[j] == 0,
                        decreases 9 - i,
                    {
                        header[i] = data[i];
                        i += 1;
                    }
                    assert(header@ =~= received(data@, 9));
                    let req = get_config_descriptor(addr, &header, CONFIG_BUF_LEN);
                    self.phase = EnumPhase::ConfigBody { addr, for_hub, len: req.data_len };
                    EnumAction::Request(req)
                } else {
                    self.after_config(addr, for_hub, 0)
                }
            },
            EnumPhase::ConfigBody { addr, for_hub, len } => {
                self.copy_received(data, len);
                if ok {
                    self.after_config(addr, for_hub, len)
                } else {
                    self.after_config(addr, for_hub, 0)
                }
            },
            EnumPhase::HubConfigured => {
                self.phase = EnumPhase::PortPower { port: 1 };
                EnumAction::Request(hub_set_port_power(FIRST_ADDRESS, 1))
            },
            EnumPhase::PortPower { port } => {
                if port < HUB_PORTS {
                    self.phase = EnumPhase::PortPower { port: port + 1 };
                    EnumAction::Request(hub_set_port_power(FIRST_ADDRESS, port + 1))
                } else {
                    self.phase = EnumPhase::PortsPowered;
                    EnumAction::Delay { ms: 50 }
                }
            },
            EnumPhase::PortsPowered => {
                self.phase = EnumPhase::PortStatus { port: 1 };
                EnumAction::Request(hub_get_port_status(FIRST_ADDRESS, 1))
            },
            EnumPhase::PortStatus { port } => {
                let mut reply: [u8; 4] = [0; 4];
                let mut i: usize = 0;
                while i < 4 && i < data.len()
                    invariant
                        i <= 4,
                        i <= data@.len(),
                        forall|j: int| 0 <= j < i ==> reply@[j] == data@[j],
                        forall|j: int| i <= j < 4 ==> reply@[j] == 0,
                    decreases 4 - i,
                {
                    reply[i] = data[i];
                    i += 1;
                }
                assert(reply@ =~= received(data@, 4));
                let status = port_status(ok, &reply);
                assert(status & 1 == status % 2) by (bit_vector);
                assert(le32(reply@) % 2 == reply@[0] % 2) by (nonlinear_arith)
                    requires
                        le32(reply@) == reply@[0] + 2 * (128 * reply@[1] + 32768 * reply@[2] + 8388608 * reply@[3]);
                if status & 1 != 0 {
                    self.phase = EnumPhase::PortReset;
                    EnumAction::Request(hub_set_port_reset(FIRST_ADDRESS, port))
                } else if port < HUB_PORTS {
                    self.phase = EnumPhase::PortStatus { port: port + 1 };
                    EnumAction::Request(hub_get_port_status(FIRST_ADDRESS, port + 1))
                } else {
                    self.phase = EnumPhase::Over;
                    EnumAction::Finish(None)
                }
            },
            EnumPhase::PortReset => {
                self.phase = EnumPhase::PortSettled;
                EnumAction::Delay { ms: 50 }
            },
            EnumPhase::PortSettled => {
                self.phase = EnumPhase::DownstreamDescriptor;
                EnumAction::Request(get_device_descriptor(0))
            },
            EnumPhase::DownstreamDescriptor => {
                if ok {
                    self.phase = EnumPhase::DownstreamAddress;
                    EnumAction::Request(set_address(DOWNSTREAM_ADDRESS))
                } else {
                    self.phase = EnumPhase::Over;
                    EnumAction::Finish(None)
                }
            },
            EnumPhase::DownstreamAddress => {
                if ok {
                    self.phase = EnumPhase::DownstreamSettled;
                    EnumAction::Delay { ms: 10 }
                } else {
                    self.phase = EnumPhase::Over;
                    EnumAction::Finish(None)
                }
            },
            EnumPhase::DownstreamSettled => {
                self.phase = EnumPhase::ConfigHeader { addr: DOWNSTREAM_ADDRESS, for_hub: false };
                EnumAction::Request(get_config_header(DOWNSTREAM_ADDRESS))
            },
            EnumPhase::Configure { addr, iface, ep } => {
                if ok {
                    self.phase = EnumPhase::BootProtocol { addr, iface, ep };
                    EnumAction::Request(set_boot_protocol(addr, iface))
                } else {
                    self.phase = EnumPhase::Over;
                    EnumAction::Finish(None)
                }
            },
            EnumPhase::BootProtocol { addr, iface, ep } => {
                self.phase = EnumPhase::SetIdle { addr, iface, ep };
                EnumAction::Request(set_idle(addr, iface, 0))
            },
            EnumPhase::SetIdle { addr, iface, ep } => {
                self.phase = EnumPhase::Over;
                EnumAction::Finish(Some(Keyboard::new(addr, ep, iface)))
            },
            EnumPhase::Over => EnumAction::Finish(None),
        }
    }
}

} // verus!
