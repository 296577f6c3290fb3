use hidkbd::hid::ControlInReply;
use hidkbd::hid::ControlOutReply;
use hidkbd::hid::ControlRequest;
use hidkbd::hid::DescriptorType;
use hidkbd::hid::EndpointWriteOutcome;
use hidkbd::hid::HidClass;
use hidkbd::hid::HidDevice;
use hidkbd::hid::HidError;
use hidkbd::hid::Protocol;
use hidkbd::hid::Recipient;
use hidkbd::hid::ReportType;
use hidkbd::hid::Request;
use hidkbd::hid::RequestType;
use hidkbd::hid::Subclass;
use hidkbd::hid::WriteAction;

struct MockDevice {
    descriptor: Vec<u8>,
    get_calls: Vec<(ReportType, u8)>,
    get_result: Result<Vec<u8>, ()>,
    set_calls: Vec<(ReportType, u8, Vec<u8>)>,
    set_ok: bool,
}

impl MockDevice {
    fn with_descriptor(descriptor: Vec<u8>) -> MockDevice {
        MockDevice {
            descriptor,
            get_calls: Vec::new(),
            get_result: Ok(vec![0xaa, 0xbb]),
            set_calls: Vec::new(),
            set_ok: true,
        }
    }
}

impl HidDevice for MockDevice {
    fn subclass(&self) -> Subclass {
        Subclass::BootInterface
    }

    fn protocol(&self) -> Protocol {
        Protocol::Keyboard
    }

    fn report_descriptor(&self) -> Vec<u8> {
        self.descriptor.clone()
    }

    fn set_report(&mut self, report_type: ReportType, report_id: u8, data: &[u8]) -> Result<(), ()> {
        self.set_calls.push((report_type, report_id, data.to_vec()));
        if self.set_ok {
            Ok(())
        } else {
            Err(())
        }
    }

    fn get_report(&mut self, report_type: ReportType, report_id: u8) -> Result<Vec<u8>, ()> {
        self.get_calls.push((report_type, report_id));
        self.get_result.clone()
    }
}

fn keyboard_class(descriptor: Vec<u8>) -> HidClass<MockDevice> {
    HidClass::new(MockDevice::with_descriptor(descriptor), 0, 0x81)
}

fn class_request(request: u8, value: u16) -> ControlRequest {
    ControlRequest {
        request_type: RequestType::Class,
        recipient: Recipient::Interface,
        request,
        value,
        index: 0,
    }
}

#[test]
fn request_new_decodes_the_six_class_requests() {
    assert_eq!(Request::new(0x01), Some(Request::GetReport));
    assert_eq!(Request::new(0x02), Some(Request::GetIdle));
    assert_eq!(Request::new(0x03), Some(Request::GetProtocol));
    assert_eq!(Request::new(0x09), Some(Request::SetReport));
    assert_eq!(Request::new(0x0a), Some(Request::SetIdle));
    assert_eq!(Request::new(0x0b), Some(Request::SetProtocol));
    assert_eq!(Request::new(0x00), None);
    assert_eq!(Request::new(0x04), None);
    assert_eq!(Request::new(0xff), None);
}

#[test]
fn report_type_decodes_and_preserves_reserved() {
    assert_eq!(ReportType::from(1), ReportType::Input);
    assert_eq!(ReportType::from(2), ReportType::Output);
    assert_eq!(ReportType::from(3), ReportType::Feature);
    assert_eq!(ReportType::from(0), ReportType::Reserved(0));
    assert_eq!(ReportType::from(0x7f), ReportType::Reserved(0x7f));
}

#[test]
fn wire_codes_match_the_hid_specification() {
    assert_eq!(Subclass::NoSubclass.code(), 0x00);
    assert_eq!(Subclass::BootInterface.code(), 0x01);
    assert_eq!(Protocol::NoProtocol.code(), 0x00);
    assert_eq!(Protocol::Keyboard.code(), 0x01);
    assert_eq!(Protocol::Mouse.code(), 0x02);
    assert_eq!(DescriptorType::Hid.code(), 0x21);
    assert_eq!(DescriptorType::Report.code(), 0x22);
    assert_eq!(DescriptorType::Physical.code(), 0x23);
}

#[test]
fn new_engine_has_no_pending_transfer() {
    let c = keyboard_class(vec![1, 2, 3]);
    assert!(!c.pending());
    assert_eq!(c.interface(), 0);
    assert_eq!(c.endpoint_address(), 0x81);
}

#[test]
fn full_write_sets_pending_and_blocks_the_next() {
    let mut c = keyboard_class(vec![1, 2, 3]);
    assert!(matches!(c.write_start(8), WriteAction::SendPacket));
    assert!(c.pending());
    assert!(matches!(c.write_start(8), WriteAction::Complete(Ok(0))));
    assert!(matches!(c.write_start(3), WriteAction::Complete(Ok(0))));
    assert!(c.pending());
}

#[test]
fn short_write_needs_no_acknowledgment() {
    let mut c = keyboard_class(vec![1, 2, 3]);
    assert!(matches!(c.write_start(3), WriteAction::SendPacket));
    assert!(!c.pending());
    assert!(matches!(c.write_start(7), WriteAction::SendPacket));
    assert!(!c.pending());
}

#[test]
fn completion_on_own_endpoint_reopens_the_gate() {
    let mut c = keyboard_class(vec![1, 2, 3]);
    assert!(matches!(c.write_start(8), WriteAction::SendPacket));
    assert!(matches!(c.write_start(8), WriteAction::Complete(Ok(0))));
    c.endpoint_in_complete(0x82);
    assert!(c.pending());
    assert!(matches!(c.write_start(8), WriteAction::Complete(Ok(0))));
    c.endpoint_in_complete(0x81);
    assert!(!c.pending());
    assert!(matches!(c.write_start(8), WriteAction::SendPacket));
}

#[test]
fn reset_unconditionally_clears_pending() {
    let mut c = keyboard_class(vec![1, 2, 3]);
    assert!(matches!(c.write_start(8), WriteAction::SendPacket));
    assert!(c.pending());
    c.reset();
    assert!(!c.pending());
    c.reset();
    assert!(!c.pending());
}

#[test]
fn write_finish_maps_endpoint_outcomes() {
    assert_eq!(HidClass::<MockDevice>::write_finish(EndpointWriteOutcome::Wrote(8)), Ok(8));
    assert_eq!(HidClass::<MockDevice>::write_finish(EndpointWriteOutcome::WouldBlock), Ok(0));
    assert_eq!(HidClass::<MockDevice>::write_finish(EndpointWriteOutcome::Failed), Err(()));
}

#[test]
fn configuration_descriptors_carry_device_identity() {
    let c = keyboard_class(vec![0u8; 63]);
    let d = c.get_configuration_descriptors().unwrap();
    assert_eq!(d.interface_class, 0x03);
    assert_eq!(d.interface_subclass, 0x01);
    assert_eq!(d.interface_protocol, 0x01);
    assert_eq!(d.hid_descriptor, vec![0x11, 0x01, 0x00, 0x01, 0x22, 63, 0]);
    assert_eq!(d.endpoint_max_packet_size, 8);
    assert_eq!(d.endpoint_interval_ms, 10);
}

#[test]
fn descriptor_length_65535_encodes_as_ff_ff() {
    let c = keyboard_class(vec![0u8; 65535]);
    let d = c.get_configuration_descriptors().unwrap();
    assert_eq!(d.hid_descriptor, vec![0x11, 0x01, 0x00, 0x01, 0x22, 0xff, 0xff]);
}

#[test]
fn descriptor_length_65536_is_an_invalid_state() {
    let c = keyboard_class(vec![0u8; 65536]);
    assert_eq!(c.get_configuration_descriptors().unwrap_err(), HidError::InvalidState);
}

#[test]
fn get_descriptor_returns_report_descriptor_bytes() {
    let descriptor = vec![0x05, 0x01, 0x09, 0x06, 0xa1, 0x01, 0xc0];
    let mut c = keyboard_class(descriptor.clone());
    let req = ControlRequest {
        request_type: RequestType::Standard,
        recipient: Recipient::Interface,
        request: 0x06,
        value: 0x2200,
        index: 0,
    };
    match c.control_in(&req) {
        ControlInReply::SendData(data) => assert_eq!(data, descriptor),
        _ => panic!("expected the report descriptor bytes"),
    }
}

#[test]
fn get_descriptor_nonzero_index_is_unhandled() {
    let mut c = keyboard_class(vec![1, 2, 3]);
    let req = ControlRequest {
        request_type: RequestType::Standard,
        recipient: Recipient::Interface,
        request: 0x06,
        value: 0x2201,
        index: 0,
    };
    assert!(matches!(c.control_in(&req), ControlInReply::Unhandled));
}

#[test]
fn get_descriptor_other_type_is_unhandled() {
    let mut c = keyboard_class(vec![1, 2, 3]);
    let req = ControlRequest {
        request_type: RequestType::Standard,
        recipient: Recipient::Interface,
        request: 0x06,
        value: 0x2100,
        index: 0,
    };
    assert!(matches!(c.control_in(&req), ControlInReply::Unhandled));
}

#[test]
fn get_report_delegates_type_and_id() {
    let mut c = keyboard_class(vec![1, 2, 3]);
    match c.control_in(&class_request(0x01, 0x0103)) {
        ControlInReply::SendData(data) => assert_eq!(data, vec![0xaa, 0xbb]),
        _ => panic!("expected the device's report bytes"),
    }
    assert_eq!(c.device().get_calls, vec![(ReportType::Input, 3)]);
}

#[test]
fn get_report_reserved_type_is_preserved() {
    let mut c = keyboard_class(vec![1, 2, 3]);
    c.control_in(&class_request(0x01, 0x0505));
    assert_eq!(c.device().get_calls, vec![(ReportType::Reserved(5), 5)]);
}

#[test]
fn get_report_failure_rejects_the_transfer() {
    let mut device = MockDevice::with_descriptor(vec![1, 2, 3]);
    device.get_result = Err(());
    let mut c = HidClass::new(device, 0, 0x81);
    assert!(matches!(c.control_in(&class_request(0x01, 0x0103)), ControlInReply::Reject));
}

#[test]
fn other_class_in_requests_are_unhandled() {
    let mut c = keyboard_class(vec![1, 2, 3]);
    assert!(matches!(c.control_in(&class_request(0x02, 0)), ControlInReply::Unhandled));
    assert!(matches!(c.control_in(&class_request(0x03, 0)), ControlInReply::Unhandled));
    assert!(matches!(c.control_in(&class_request(0x42, 0)), ControlInReply::Unhandled));
}

#[test]
fn vendor_requests_are_unhandled() {
    let mut c = keyboard_class(vec![1, 2, 3]);
    let req = ControlRequest {
        request_type: RequestType::Vendor,
        recipient: Recipient::Interface,
        request: 0x01,
        value: 0x0100,
        index: 0,
    };
    assert!(matches!(c.control_in(&req), ControlInReply::Unhandled));
    let req = ControlRequest {
        request_type: RequestType::Class,
        recipient: Recipient::Device,
        request: 0x01,
        value: 0x0100,
        index: 0,
    };
    assert!(matches!(c.control_in(&req), ControlInReply::Unhandled));
}

#[test]
fn set_report_delegates_payload() {
    let mut c = keyboard_class(vec![1, 2, 3]);
    let reply = c.control_out(&class_request(0x09, 0x0202), &[0x01, 0x02]);
    assert_eq!(reply, ControlOutReply::Accept);
    assert_eq!(c.device().set_calls, vec![(ReportType::Output, 2, vec![0x01, 0x02])]);
}

#[test]
fn set_report_failure_rejects_the_transfer() {
    let mut device = MockDevice::with_descriptor(vec![1, 2, 3]);
    device.set_ok = false;
    let mut c = HidClass::new(device, 0, 0x81);
    let reply = c.control_out(&class_request(0x09, 0x0200), &[]);
    assert_eq!(reply, ControlOutReply::Reject);
}

#[test]
fn set_idle_and_set_protocol_are_ignored() {
    let mut c = keyboard_class(vec![1, 2, 3]);
    assert_eq!(c.control_out(&class_request(0x0a, 0), &[]), ControlOutReply::Unhandled);
    assert_eq!(c.control_out(&class_request(0x0b, 0), &[]), ControlOutReply::Unhandled);
    assert!(c.device().set_calls.is_empty());
}

#[test]
fn no_string_descriptors_and_empty_poll() {
    let mut c = keyboard_class(vec![1, 2, 3]);
    assert!(c.get_string(1, 0x0409).is_none());
    c.poll();
    c.endpoint_out(0x01);
    assert!(!c.pending());
}
