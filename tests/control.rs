use rc_usb_joystick::descriptor::{hid_descriptor, hid_descriptor_body, report_descriptor};
use rc_usb_joystick::{ControlRequest, ControlResponse, HIDClass, Recipient, RequestType};

fn request(request_type: RequestType, recipient: Recipient, request: u8, value: u16, index: u16) -> ControlRequest {
    ControlRequest { request_type, recipient, request, value, index, length: 64 }
}

fn get_descriptor(dtype: u8, index: u16) -> ControlRequest {
    request(RequestType::Standard, Recipient::Interface, 6, (dtype as u16) << 8, index)
}

#[test]
fn report_descriptor_is_a_sixteen_axis_game_pad() {
    let d = report_descriptor();
    assert_eq!(d.len(), 56);
    assert_eq!(&d[0..4], &[0x05, 0x01, 0x09, 0x05]);
    assert_eq!(&d[42..48], &[0x16, 0x0C, 0xFE, 0x26, 0xF4, 0x01]);
    assert_eq!(&d[48..52], &[0x75, 0x10, 0x95, 0x10]);
    assert_eq!(&d[52..], &[0x81, 0x02, 0xC0, 0xC0]);
}

#[test]
fn hid_descriptor_reply_has_nine_bytes_ending_in_report_length() {
    let class = HIDClass::new(2);
    let reply = class.control_in(&get_descriptor(0x21, 2));
    let expected = vec![0x09, 0x21, 0x01, 0x01, 0x00, 0x01, 0x22, 56, 0];
    assert_eq!(reply, ControlResponse::Accept(expected.clone()));
    assert_eq!(hid_descriptor(), expected);
    let len = report_descriptor().len();
    assert_eq!((len % 256) as u8, 56);
    assert_eq!((len / 256) as u8, 0);
}

#[test]
fn report_descriptor_reply_is_the_same_on_every_request() {
    let class = HIDClass::new(0);
    let first = class.control_in(&get_descriptor(0x22, 0));
    let second = class.control_in(&get_descriptor(0x22, 0));
    assert_eq!(first, ControlResponse::Accept(report_descriptor()));
    assert_eq!(first, second);
}

#[test]
fn other_standard_requests_are_left_to_the_device() {
    let class = HIDClass::new(0);
    assert_eq!(class.control_in(&get_descriptor(0x23, 0)), ControlResponse::Ignore);
    let get_status = request(RequestType::Standard, Recipient::Interface, 0, 0, 0);
    assert_eq!(class.control_in(&get_status), ControlResponse::Ignore);
    let device_descriptor = request(RequestType::Standard, Recipient::Device, 6, 0x2100, 0);
    assert_eq!(class.control_in(&device_descriptor), ControlResponse::Ignore);
}

#[test]
fn get_report_gets_a_zeroed_placeholder() {
    let class = HIDClass::new(1);
    let get_report = request(RequestType::Class, Recipient::Interface, 0x01, 0x0100, 1);
    assert_eq!(class.control_in(&get_report), ControlResponse::Accept(vec![0; 32]));
}

#[test]
fn other_class_requests_to_the_interface_stall() {
    let class = HIDClass::new(1);
    for code in [0x02u8, 0x03, 0x09, 0x0A, 0x0B] {
        let req = request(RequestType::Class, Recipient::Interface, code, 0, 1);
        assert_eq!(class.control_in(&req), ControlResponse::Reject);
        assert_eq!(class.control_out(&req), ControlResponse::Reject);
    }
    let set_report = request(RequestType::Class, Recipient::Interface, 0x01, 0, 1);
    assert_eq!(class.control_out(&set_report), ControlResponse::Reject);
}

#[test]
fn requests_for_other_interfaces_or_kinds_are_ignored() {
    let class = HIDClass::new(1);
    let other_if = request(RequestType::Class, Recipient::Interface, 0x0A, 0, 0);
    assert_eq!(class.control_in(&other_if), ControlResponse::Ignore);
    assert_eq!(class.control_out(&other_if), ControlResponse::Ignore);
    let vendor = request(RequestType::Vendor, Recipient::Interface, 0x0A, 0, 1);
    assert_eq!(class.control_in(&vendor), ControlResponse::Ignore);
    assert_eq!(class.control_out(&vendor), ControlResponse::Ignore);
    let to_endpoint = request(RequestType::Class, Recipient::Endpoint, 0x0A, 0, 1);
    assert_eq!(class.control_out(&to_endpoint), ControlResponse::Ignore);
}

#[test]
fn replies_do_not_depend_on_earlier_requests() {
    let class = HIDClass::new(0);
    let stall = request(RequestType::Class, Recipient::Interface, 0x0B, 0, 0);
    let before = class.control_in(&get_descriptor(0x21, 0));
    assert_eq!(class.control_in(&stall), ControlResponse::Reject);
    assert_eq!(class.control_out(&stall), ControlResponse::Reject);
    let mut longer = get_descriptor(0x21, 0);
    longer.length = 9;
    assert_eq!(class.control_in(&longer), before);
}

#[test]
fn configuration_descriptors_describe_a_hid_game_pad() {
    let class = HIDClass::new(3);
    assert_eq!(class.interface(), 3);
    let c = class.get_configuration_descriptors();
    assert_eq!(
        (c.interface_number, c.interface_class, c.interface_subclass, c.interface_protocol),
        (3, 0x03, 0x00, 0x05)
    );
    assert_eq!(c.hid_descriptor_type, 0x21);
    assert_eq!(c.hid_descriptor, vec![0x01, 0x01, 0x00, 0x01, 0x22, 56, 0]);
    assert_eq!(hid_descriptor_body(), c.hid_descriptor);
}

#[test]
fn descriptor_type_is_the_high_byte_of_value() {
    assert_eq!(get_descriptor(0x22, 0).descriptor_type(), 0x22);
    assert_eq!(request(RequestType::Standard, Recipient::Interface, 6, 0x21FF, 0).descriptor_type(), 0x21);
}
