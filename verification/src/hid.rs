//! The HID class protocol engine.
//!
//! The engine owns one USB interface and one interrupt-IN endpoint, identified
//! here by their plain numbers, and a device capability that supplies the
//! subclass, protocol and report descriptor and answers Get/SetReport
//! requests. It answers the host's control requests and gates the interrupt
//! endpoint so that at most one full-size report is in flight at a time.
//!
//! Hardware actions are decided here and performed by the embedding: a control
//! reply says what to answer on the control pipe, and the two-step
//! `write_start` / `write_finish` pair brackets the actual endpoint write.

use vstd::prelude::*;

verus! {

/// bInterfaceClass for Human Interface Devices.
pub const INTERFACE_CLASS_HID: u8 = 0x03;

/// bcdHID: HID specification release 1.11.
pub const SPECIFICATION_RELEASE: u16 = 0x111;

/// Standard request code for GET_DESCRIPTOR.
pub const GET_DESCRIPTOR: u8 = 0x06;

/// Max packet size of the interrupt-IN endpoint, in bytes.
pub const ENDPOINT_MAX_PACKET_SIZE: u16 = 8;

/// Polling interval of the interrupt-IN endpoint, in milliseconds.
pub const ENDPOINT_POLL_INTERVAL_MS: u8 = 10;

/// bInterfaceSubClass values a HID device may report.
#[derive(Clone, Copy, Debug, PartialEq, Eq, Structural)]
pub enum Subclass {
    NoSubclass,
    BootInterface,
}

impl Subclass {
    /// The wire value of this subclass.
    pub open spec fn spec_code(self) -> u8 {
        match self {
            Subclass::NoSubclass => 0x00,
            Subclass::BootInterface => 0x01,
        }
    }

    /// Executable form of `spec_code`.
    pub fn code(self) -> (r: u8)
        ensures
            r == self.spec_code(),
    {
        match self {
            Subclass::NoSubclass => 0x00,
            Subclass::BootInterface => 0x01,
        }
    }
}

/// bInterfaceProtocol values a HID device may report.
#[derive(Clone, Copy, Debug, PartialEq, Eq, Structural)]
pub enum Protocol {
    NoProtocol,
    Keyboard,
    Mouse,
}

impl Protocol {
    /// The wire value of this protocol.
    pub open spec fn spec_code(self) -> u8 {
        match self {
            Protocol::NoProtocol => 0x00,
            Protocol::Keyboard => 0x01,
            Protocol::Mouse => 0x02,
        }
    }

    /// Executable form of `spec_code`.
    pub fn code(self) -> (r: u8)
        ensures
            r == self.spec_code(),
    {
        match self {
            Protocol::NoProtocol => 0x00,
            Protocol::Keyboard => 0x01,
            Protocol::Mouse => 0x02,
        }
    }
}

/// HID class descriptor types.
#[derive(Clone, Copy, Debug, PartialEq, Eq, Structural)]
pub enum DescriptorType {
    Hid,
    Report,
    Physical,
}

impl DescriptorType {
    /// The wire value of this descriptor type.
    pub open spec fn spec_code(self) -> u8 {
        match self {
            DescriptorType::Hid => 0x21,
            DescriptorType::Report => 0x22,
            DescriptorType::Physical => 0x23,
        }
    }

    /// Executable form of `spec_code`.
    pub fn code(self) -> (r: u8)
        ensures
            r == self.spec_code(),
    {
        match self {
            DescriptorType::Hid => 0x21,
            DescriptorType::Report => 0x22,
            DescriptorType::Physical => 0x23,
        }
    }
}

/// The six standard HID class control requests.
#[derive(Clone, Copy, Debug, PartialEq, Eq, Structural)]
pub enum Request {
    GetReport,
    GetIdle,
    GetProtocol,
    SetReport,
    SetIdle,
    SetProtocol,
}

impl Request {
    /// Which HID class request a request code denotes, if any. Unrecognized
    /// codes are not requests rather than errors.
    pub open spec fn spec_new(u: u8) -> Option<Request> {
        match u {
            0x01 => Some(Request::GetReport),
            0x02 => Some(Request::GetIdle),
            0x03 => Some(Request::GetProtocol),
            0x09 => Some(Request::SetReport),
            0x0a => Some(Request::SetIdle),
            0x0b => Some(Request::SetProtocol),
            _ => None,
        }
    }

    /// Decodes a one-byte request code.
    pub fn new(u: u8) -> (r: Option<Request>)
        ensures
            r == Request::spec_new(u),
    {
        match u {
            0x01 => Some(Request::GetReport),
            0x02 => Some(Request::GetIdle),
            0x03 => Some(Request::GetProtocol),
            0x09 => Some(Request::SetReport),
            0x0a => Some(Request::SetIdle),
            0x0b => Some(Request::SetProtocol),
            _ => None,
        }
    }
}

/// The report type selected by the high byte of a Get/SetReport value field.
/// Unrecognized values are preserved verbatim.
#[derive(Clone, Copy, Debug, PartialEq, Eq, Structural)]
pub enum ReportType {
    Input,
    Output,
    Feature,
    Reserved(u8),
}

/// The report type a wire value denotes.
pub open spec fn spec_report_type(v: u8) -> ReportType {
    match v {
        1 => ReportType::Input,
        2 => ReportType::Output,
        3 => ReportType::Feature,
        _ => ReportType::Reserved(v),
    }
}

impl From<u8> for ReportType {
    fn from(v: u8) -> (r: ReportType) {
        match v {
            1 => ReportType::Input,
            2 => ReportType::Output,
            3 => ReportType::Feature,
            _ => ReportType::Reserved(v),
        }
    }
}

impl vstd::std_specs::convert::FromSpecImpl<u8> for ReportType {
    open spec fn obeys_from_spec() -> bool {
        true
    }

    open spec fn from_spec(v: u8) -> ReportType {
        spec_report_type(v)
    }
}

/// The capability a concrete HID device supplies: fixed identity and
/// descriptor, and the Get/SetReport mutators. A failure from either mutator
/// becomes a control-transfer STALL at the engine.
pub trait HidDevice {
    fn subclass(&self) -> Subclass;

    fn protocol(&self) -> Protocol;

    fn report_descriptor(&self) -> Vec<u8>;

    fn set_report(&mut self, report_type: ReportType, report_id: u8, data: &[u8]) -> Result<
        (),
        (),
    >;

    fn get_report(&mut self, report_type: ReportType, report_id: u8) -> Result<Vec<u8>, ()>;
}

/// bmRequestType bits 5..7 of a control request.
#[derive(Clone, Copy, Debug, PartialEq, Eq, Structural)]
pub enum RequestType {
    Standard,
    Class,
    Vendor,
    Reserved,
}

/// bmRequestType bits 0..5 of a control request.
#[derive(Clone, Copy, Debug, PartialEq, Eq, Structural)]
pub enum Recipient {
    Device,
    Interface,
    Endpoint,
    Other,
    Reserved,
}

/// The decoded header of a control request, as the USB stack hands it over.
#[derive(Clone, Copy, Debug, PartialEq, Eq, Structural)]
pub struct ControlRequest {
    pub request_type: RequestType,
    pub recipient: Recipient,
    pub request: u8,
    pub value: u16,
    pub index: u16,
}

/// The high byte of a value field (descriptor or report type).
pub open spec fn spec_value_high(v: u16) -> u8 {
    (v >> 8) as u8
}

/// The low byte of a value field (descriptor index or report id).
pub open spec fn spec_value_low(v: u16) -> u8 {
    (v & 0xff) as u8
}

/// A standard GET_DESCRIPTOR for the report descriptor, addressed to the
/// interface, at index 0: the one standard request the engine answers.
pub open spec fn spec_wants_report_descriptor(req: ControlRequest) -> bool {
    &&& req.request_type == RequestType::Standard
    &&& req.recipient == Recipient::Interface
    &&& req.request == GET_DESCRIPTOR
    &&& spec_value_high(req.value) == DescriptorType::Report.spec_code()
    &&& spec_value_low(req.value) == 0
}

/// A class GetReport request addressed to the interface.
pub open spec fn spec_is_class_get_report(req: ControlRequest) -> bool {
    &&& req.request_type == RequestType::Class
    &&& req.recipient == Recipient::Interface
    &&& Request::spec_new(req.request) == Some(Request::GetReport)
}

/// A class SetReport request addressed to the interface.
pub open spec fn spec_is_class_set_report(req: ControlRequest) -> bool {
    &&& req.request_type == RequestType::Class
    &&& req.recipient == Recipient::Interface
    &&& Request::spec_new(req.request) == Some(Request::SetReport)
}

/// What the engine answers on an IN control transfer.
#[derive(Debug)]
pub enum ControlInReply {
    /// Accept the transfer and send these bytes to the host.
    SendData(Vec<u8>),
    /// Reject the transfer: the stack signals a STALL.
    Reject,
    /// Leave the transfer unanswered; the stack treats this as an implicit
    /// stall.
    Unhandled,
}

/// What the engine decides on an OUT control transfer.
#[derive(Clone, Copy, Debug, PartialEq, Eq, Structural)]
pub enum ControlOutReply {
    /// Accept the transfer.
    Accept,
    /// Reject the transfer: the stack signals a STALL.
    Reject,
    /// Leave the transfer unanswered.
    Unhandled,
}

/// Errors the engine itself can raise.
#[derive(Clone, Copy, Debug, PartialEq, Eq, Structural)]
pub enum HidError {
    /// The report descriptor cannot be described: its length does not fit the
    /// 16-bit length field of the HID descriptor.
    InvalidState,
}

/// First half of an interrupt write: whether the packet may go to hardware.
#[derive(Clone, Copy, Debug)]
pub enum WriteAction {
    /// A full-size report is still unacknowledged. The write completes now,
    /// with the result it carries — always `Ok(0)`: no error, nothing
    /// written, retry later.
    Complete(Result<usize, ()>),
    /// The packet may be handed to the interrupt endpoint; the endpoint's
    /// outcome goes through `write_finish`.
    SendPacket,
}

/// The outcome of the hardware endpoint write, as the embedding observed it.
#[derive(Clone, Copy, Debug, PartialEq, Eq, Structural)]
pub enum EndpointWriteOutcome {
    /// The endpoint accepted this many bytes.
    Wrote(usize),
    /// The endpoint is transiently busy.
    WouldBlock,
    /// Any other hardware failure.
    Failed,
}

/// The pending flag after a write of `data_len` bytes was let through or
/// refused: a full-size packet (one the host must acknowledge) sets it.
pub open spec fn spec_pending_after_write(pending: bool, data_len: int) -> bool {
    pending || data_len >= 8
}

/// The pending flag after an endpoint-in-complete event for `addr`: only the
/// engine's own interrupt endpoint clears it.
pub open spec fn spec_pending_after_complete(pending: bool, addr: u8, endpoint: u8) -> bool {
    if addr == endpoint {
        false
    } else {
        pending
    }
}

/// What `write_finish` reports for each endpoint outcome: a transient
/// "would block" is `Ok(0)` (retry later), any other failure is the error.
pub open spec fn spec_write_result(o: EndpointWriteOutcome) -> Result<usize, ()> {
    match o {
        EndpointWriteOutcome::Wrote(n) => Ok(n),
        EndpointWriteOutcome::WouldBlock => Ok(0),
        EndpointWriteOutcome::Failed => Err(()),
    }
}

/// The content bytes of the HID descriptor: bcdHID little-endian, country
/// code 0 (not localized), one sub-descriptor of type Report, and the report
/// descriptor's length little-endian.
pub open spec fn spec_hid_descriptor_body(len: int) -> Seq<u8> {
    seq![0x11u8, 0x01u8, 0x00u8, 0x01u8, 0x22u8, (len % 256) as u8, ((len / 256) % 256) as u8]
}

/// The descriptors the engine contributes to the configuration descriptor,
/// in emission order: interface, HID descriptor, interrupt-IN endpoint.
#[derive(Debug)]
pub struct ConfigDescriptors {
    /// bInterfaceClass: always the HID class code.
    pub interface_class: u8,
    /// bInterfaceSubClass, from the device capability.
    pub interface_subclass: u8,
    /// bInterfaceProtocol, from the device capability.
    pub interface_protocol: u8,
    /// Content bytes of the HID descriptor (after its own length/type header).
    pub hid_descriptor: Vec<u8>,
    /// wMaxPacketSize of the interrupt-IN endpoint.
    pub endpoint_max_packet_size: u16,
    /// bInterval of the interrupt-IN endpoint, in milliseconds.
    pub endpoint_interval_ms: u8,
}

/// The HID protocol engine: one interface, one interrupt-IN endpoint, one
/// device capability, and the at-most-one-outstanding-report flag.
pub struct HidClass<D: HidDevice> {
    device: D,
    interface: u8,
    endpoint_address: u8,
    expect_interrupt_in_complete: bool,
    subclass: Subclass,
    protocol: Protocol,
    report_descriptor: Vec<u8>,
}

impl<D: HidDevice> HidClass<D> {
    /// The device capability instance the engine owns.
    pub closed spec fn spec_device(&self) -> D {
        self.device
    }

    /// The engine's interface number.
    pub closed spec fn spec_interface(&self) -> u8 {
        self.interface
    }

    /// The address of the engine's interrupt-IN endpoint.
    pub closed spec fn spec_endpoint_address(&self) -> u8 {
        self.endpoint_address
    }

    /// True exactly while a full-size report is queued but not yet
    /// acknowledged by the host.
    pub closed spec fn spec_pending(&self) -> bool {
        self.expect_interrupt_in_complete
    }

    /// The subclass the device reported at construction.
    pub closed spec fn spec_subclass(&self) -> Subclass {
        self.subclass
    }

    /// The protocol the device reported at construction.
    pub closed spec fn spec_protocol(&self) -> Protocol {
        self.protocol
    }

    /// The report descriptor the device reported at construction.
    pub closed spec fn spec_report_descriptor(&self) -> Seq<u8> {
        self.report_descriptor@
    }

    /// Everything but the device capability and the pending flag is equal in
    /// `a` and `b`.
    pub open spec fn spec_config_unchanged(a: &Self, b: &Self) -> bool {
        &&& b.spec_interface() == a.spec_interface()
        &&& b.spec_endpoint_address() == a.spec_endpoint_address()
        &&& b.spec_subclass() == a.spec_subclass()
        &&& b.spec_protocol() == a.spec_protocol()
        &&& b.spec_report_descriptor() == a.spec_report_descriptor()
    }

    /// Builds the engine around a device capability, for the interface number
    /// and interrupt-IN endpoint address the bus allocator granted. The
    /// device's fixed identity (subclass, protocol, report descriptor) is
    /// read once here and served from then on.
    pub fn new(device: D, interface: u8, endpoint_address: u8) -> (r: HidClass<D>)
        ensures
            !r.spec_pending(),
            r.spec_interface() == interface,
            r.spec_endpoint_address() == endpoint_address,
    {
        let subclass = device.subclass();
        let protocol = device.protocol();
        let report_descriptor = device.report_descriptor();
        HidClass {
            device,
            interface,
            endpoint_address,
            expect_interrupt_in_complete: false,
            subclass,
            protocol,
            report_descriptor,
        }
    }

    /// Read access to the device capability the engine owns.
    pub fn device(&self) -> (r: &D)
        ensures
            *r == self.spec_device(),
    {
        &self.device
    }

    /// Read access to the engine's interface number.
    pub fn interface(&self) -> (r: u8)
        ensures
            r == self.spec_interface(),
    {
        self.interface
    }

    /// Read access to the interrupt-IN endpoint address.
    pub fn endpoint_address(&self) -> (r: u8)
        ensures
            r == self.spec_endpoint_address(),
    {
        self.endpoint_address
    }

    /// Read access to the pending flag.
    pub fn pending(&self) -> (r: bool)
        ensures
            r == self.spec_pending(),
    {
        self.expect_interrupt_in_complete
    }

    /// Read access to the report descriptor served to the host.
    pub fn report_descriptor(&self) -> (r: &Vec<u8>)
        ensures
            r@ == self.spec_report_descriptor(),
    {
        &self.report_descriptor
    }

    /// Flow-control gate of `write`, the first half of sending a report.
    /// While a full-size report is unacknowledged the write completes at once
    /// with `Ok(0)` — no error, nothing queued, the caller must retry later;
    /// this keeps a second report from corrupting an in-flight transfer.
    /// Otherwise the packet goes to the endpoint, and a full-size packet
    /// raises the pending flag (shorter packets self-terminate and need no
    /// acknowledgment). The flag rises before the hardware outcome is known,
    /// exactly as the in-flight assumption demands.
    pub fn write_start(&mut self, data_len: usize) -> (a: WriteAction)
        ensures
            old(self).spec_pending() ==> a == WriteAction::Complete(Ok::<usize, ()>(0)),
            !old(self).spec_pending() ==> a == WriteAction::SendPacket,
            final(self).spec_pending() == spec_pending_after_write(
                old(self).spec_pending(),
                data_len as int,
            ),
            Self::spec_config_unchanged(old(self), final(self)),
            final(self).spec_device() == old(self).spec_device(),
    {
        if self.expect_interrupt_in_complete {
            return WriteAction::Complete(Ok(0));
        }
        if data_len >= 8 {
            self.expect_interrupt_in_complete = true;
        }
        WriteAction::SendPacket
    }

    /// Second half of `write`: folds the endpoint's outcome into the result
    /// the original write reports. "Would block" is not an error but a
    /// zero-byte success, to be retried; any other failure is the error.
    pub fn write_finish(outcome: EndpointWriteOutcome) -> (r: Result<usize, ()>)
        ensures
            r == spec_write_result(outcome),
    {
        match outcome {
            EndpointWriteOutcome::Wrote(count) => Ok(count),
            EndpointWriteOutcome::WouldBlock => Ok(0),
            EndpointWriteOutcome::Failed => Err(()),
        }
    }

    /// A bus reset invalidates any assumption about in-flight hardware
    /// state: the pending flag falls, unconditionally.
    pub fn reset(&mut self)
        ensures
            !final(self).spec_pending(),
            Self::spec_config_unchanged(old(self), final(self)),
            final(self).spec_device() == old(self).spec_device(),
    {
        self.expect_interrupt_in_complete = false;
    }

    /// The host acknowledged an interrupt-IN transfer on `addr`. Only a
    /// completion on the engine's own endpoint clears the pending flag; this
    /// and `reset` are the only ways it falls.
    pub fn endpoint_in_complete(&mut self, addr: u8)
        ensures
            final(self).spec_pending() == spec_pending_after_complete(
                old(self).spec_pending(),
                addr,
                old(self).spec_endpoint_address(),
            ),
            Self::spec_config_unchanged(old(self), final(self)),
            final(self).spec_device() == old(self).spec_device(),
    {
        if addr == self.endpoint_address {
            self.expect_interrupt_in_complete = false;
        }
    }

    /// An OUT event on any endpoint: the engine has no OUT endpoint and does
    /// nothing.
    pub fn endpoint_out(&mut self, addr: u8)
        ensures
            *final(self) == *old(self),
    {
        let _ = addr;
    }

    /// The engine is purely reactive; periodic polling does nothing.
    pub fn poll(&mut self)
        ensures
            *final(self) == *old(self),
    {
    }

    /// The engine contributes no string descriptors.
    pub fn get_string(&self, index: u8, lang_id: u16) -> (r: Option<String>)
        ensures
            r is None,
    {
        let _ = index;
        let _ = lang_id;
        None
    }

    /// The engine's part of the configuration descriptor. Fails — before
    /// anything is emitted — when the report descriptor's length does not fit
    /// the HID descriptor's 16-bit length field.
    pub fn get_configuration_descriptors(&self) -> (r: Result<ConfigDescriptors, HidError>)
        ensures
            r is Err <==> self.spec_report_descriptor().len() > 0xffff,
            r is Err ==> r == Err::<ConfigDescriptors, HidError>(HidError::InvalidState),
            r matches Ok(c) ==> {
                &&& c.interface_class == INTERFACE_CLASS_HID
                &&& c.interface_subclass == self.spec_subclass().spec_code()
                &&& c.interface_protocol == self.spec_protocol().spec_code()
                &&& c.hid_descriptor@ == spec_hid_descriptor_body(
                    self.spec_report_descriptor().len() as int,
                )
                &&& c.endpoint_max_packet_size == ENDPOINT_MAX_PACKET_SIZE
                &&& c.endpoint_interval_ms == ENDPOINT_POLL_INTERVAL_MS
            },
    {
        let descriptor_len = self.report_descriptor.len();
        if descriptor_len > 0xffff {
            return Err(HidError::InvalidState);
        }
        let len16 = descriptor_len as u16;
        let release_low = (SPECIFICATION_RELEASE % 256) as u8;
        let release_high = (SPECIFICATION_RELEASE / 256) as u8;
        let mut hid_descriptor: Vec<u8> = Vec::new();
        hid_descriptor.push(release_low);
        hid_descriptor.push(release_high);
        hid_descriptor.push(0x00);  // bCountryCode: not localized
        hid_descriptor.push(0x01);  // bNumDescriptors
        hid_descriptor.push(DescriptorType::Report.code());
        hid_descriptor.push((len16 % 256) as u8);
        hid_descriptor.push((len16 / 256) as u8);
        proof {
            assert(hid_descriptor@ =~= spec_hid_descriptor_body(
                self.spec_report_descriptor().len() as int,
            ));
        }
        Ok(
            ConfigDescriptors {
                interface_class: INTERFACE_CLASS_HID,
                interface_subclass: self.subclass.code(),
                interface_protocol: self.protocol.code(),
                hid_descriptor,
                endpoint_max_packet_size: ENDPOINT_MAX_PACKET_SIZE,
                endpoint_interval_ms: ENDPOINT_POLL_INTERVAL_MS,
            },
        )
    }

    /// Answers an IN control transfer. The report descriptor request is
    /// served from the engine itself, byte for byte; a class GetReport is
    /// delegated to the device capability and its failure rejects the
    /// transfer; everything else is left unanswered.
    pub fn control_in(&mut self, req: &ControlRequest) -> (r: ControlInReply)
        ensures
            final(self).spec_pending() == old(self).spec_pending(),
            Self::spec_config_unchanged(old(self), final(self)),
            spec_wants_report_descriptor(*req) ==> (r matches ControlInReply::SendData(d) && d@
                == old(self).spec_report_descriptor()),
            spec_is_class_get_report(*req) && !spec_wants_report_descriptor(*req) ==> (r matches
                ControlInReply::SendData(_) || r matches ControlInReply::Reject),
            !spec_wants_report_descriptor(*req) && !spec_is_class_get_report(*req) ==> (r matches
                ControlInReply::Unhandled && final(self).spec_device()
                == old(self).spec_device()),
    {
        match (req.request_type, req.recipient) {
            (RequestType::Standard, Recipient::Interface) => {
                if req.request == GET_DESCRIPTOR {
                    let dtype = (req.value >> 8) as u8;
                    let dindex = (req.value & 0xff) as u8;
                    if dtype == DescriptorType::Report.code() && dindex == 0 {
                        return ControlInReply::SendData(self.report_descriptor.clone());
                    }
                }
                ControlInReply::Unhandled
            },
            (RequestType::Class, Recipient::Interface) => {
                match Request::new(req.request) {
                    Some(Request::GetReport) => self.handle_get_report(req.value),
                    _ => ControlInReply::Unhandled,
                }
            },
            _ => ControlInReply::Unhandled,
        }
    }

    /// Delegates a class GetReport to the device capability: the value field
    /// selects report type and id, the device's bytes are sent on success and
    /// its failure rejects the transfer.
    fn handle_get_report(&mut self, value: u16) -> (r: ControlInReply)
        ensures
            r matches ControlInReply::SendData(_) || r matches ControlInReply::Reject,
            final(self).spec_pending() == old(self).spec_pending(),
            Self::spec_config_unchanged(old(self), final(self)),
    {
        let (report_type, report_id) = decode_report_selector(value);
        let outcome = self.device.get_report(report_type, report_id);
        get_report_reply(outcome)
    }

    /// Handles an OUT control transfer. A class SetReport is delegated to the
    /// device capability with the transfer's payload; its failure rejects the
    /// transfer. The other class requests (SetIdle, SetProtocol) are
    /// recognized but deliberately ignored — minimal boot-keyboard
    /// compliance — and everything else is left unanswered.
    pub fn control_out(&mut self, req: &ControlRequest, data: &[u8]) -> (r: ControlOutReply)
        ensures
            final(self).spec_pending() == old(self).spec_pending(),
            Self::spec_config_unchanged(old(self), final(self)),
            spec_is_class_set_report(*req) ==> (r == ControlOutReply::Accept || r
                == ControlOutReply::Reject),
            !spec_is_class_set_report(*req) ==> r == ControlOutReply::Unhandled
                && final(self).spec_device() == old(self).spec_device(),
    {
        if req.request_type == RequestType::Class && req.recipient == Recipient::Interface {
            match Request::new(req.request) {
                Some(Request::SetReport) => self.handle_set_report(req.value, data),
                _ => ControlOutReply::Unhandled,
            }
        } else {
            ControlOutReply::Unhandled
        }
    }

    /// Delegates a class SetReport to the device capability.
    fn handle_set_report(&mut self, value: u16, data: &[u8]) -> (r: ControlOutReply)
        ensures
            r == ControlOutReply::Accept || r == ControlOutReply::Reject,
            final(self).spec_pending() == old(self).spec_pending(),
            Self::spec_config_unchanged(old(self), final(self)),
    {
        let (report_type, report_id) = decode_report_selector(value);
        let outcome = self.device.set_report(report_type, report_id, data);
        set_report_reply(outcome)
    }
}

/// Splits a Get/SetReport value field into the report type (high byte,
/// preserved verbatim when unrecognized) and report id (low byte).
pub fn decode_report_selector(value: u16) -> (r: (ReportType, u8))
    ensures
        r.0 == spec_report_type(spec_value_high(value)),
        r.1 == spec_value_low(value),
{
    let report_type = ReportType::from((value >> 8) as u8);
    let report_id = (value & 0xff) as u8;
    (report_type, report_id)
}

/// What a GetReport delegation's outcome means for the control transfer:
/// the device's bytes are sent on success, a failure rejects (STALL).
pub fn get_report_reply(outcome: Result<Vec<u8>, ()>) -> (r: ControlInReply)
    ensures
        outcome matches Ok(d) ==> r matches ControlInReply::SendData(s) && s == d,
        outcome is Err ==> r matches ControlInReply::Reject,
{
    match outcome {
        Ok(data) => ControlInReply::SendData(data),
        Err(_) => ControlInReply::Reject,
    }
}

/// What a SetReport delegation's outcome means for the control transfer:
/// success accepts, failure rejects (STALL).
pub fn set_report_reply(outcome: Result<(), ()>) -> (r: ControlOutReply)
    ensures
        outcome is Ok <==> r == ControlOutReply::Accept,
        outcome is Err <==> r == ControlOutReply::Reject,
{
    match outcome {
        Ok(_) => ControlOutReply::Accept,
        Err(_) => ControlOutReply::Reject,
    }
}

/// The interrupt write's flow control: while the pending flag is up, no call
/// lets a packet through (each completes as `Ok(0)`), and the flag itself
/// only rises further; a completion event for the engine's own endpoint, and
/// only for it, lets writes through again whatever was outstanding.
pub proof fn lemma_write_flow_control(pending: bool, data_len: int, addr: u8, endpoint: u8)
    ensures
        spec_pending_after_write(true, data_len),
        !spec_pending_after_complete(pending, endpoint, endpoint),
        addr != endpoint ==> spec_pending_after_complete(pending, addr, endpoint) == pending,
        spec_pending_after_write(false, data_len) == (data_len >= 8),
{
}

} // verus!
