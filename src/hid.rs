use vstd::prelude::*;
use crate::descriptor::{
    hid_descriptor, report_descriptor_len, hid_descriptor_body, hid_descriptor_body_bytes, hid_descriptor_bytes,
    report_descriptor, report_descriptor_bytes, HID_DESCRIPTOR_TYPE, REPORT_DESCRIPTOR_TYPE,
    USB_CLASS_HID, USB_INTERFACE_GAMEPAD, USB_SUBCLASS_NONE,
};

verus! {

/// Standard request code GET_DESCRIPTOR.
pub const GET_DESCRIPTOR: u8 = 6;

/// HID class request code GET_REPORT.
pub const GET_REPORT: u8 = 0x01;

/// Type field of a control request's `bmRequestType`.
#[derive(Copy, Clone, Debug, PartialEq, Eq, Structural)]
pub enum RequestType {
    Standard,
    Class,
    Vendor,
    Reserved,
}

/// Recipient field of a control request's `bmRequestType`.
#[derive(Copy, Clone, Debug, PartialEq, Eq, Structural)]
pub enum Recipient {
    Device,
    Interface,
    Endpoint,
    Other,
    Reserved,
}

/// The setup packet of a control transfer.
#[derive(Copy, Clone, Debug, PartialEq, Eq, Structural)]
pub struct ControlRequest {
    pub request_type: RequestType,
    pub recipient: Recipient,
    pub request: u8,
    pub value: u16,
    pub index: u16,
    pub length: u16,
}

impl ControlRequest {
    /// Descriptor type of a GET_DESCRIPTOR request: the high byte of `value`.
    pub fn descriptor_type(&self) -> (r: u8)
        ensures
            r as int == self.value as int / 256,
    {
        (self.value / 256) as u8
    }
}

/// What the class does with a control transfer.
#[derive(Debug, PartialEq, Eq)]
pub enum ControlResponse {
    /// Not addressed to this class: leave it to the others.
    Ignore,
    /// Complete the transfer with these bytes.
    Accept(Vec<u8>),
    /// Stall the pipe.
    Reject,
}

/// A control response as a mathematical value.
pub enum ControlReply {
    Ignore,
    Accept(Seq<u8>),
    Reject,
}

impl View for ControlResponse {
    type V = ControlReply;

    open spec fn view(&self) -> ControlReply {
        match self {
            ControlResponse::Ignore => ControlReply::Ignore,
            ControlResponse::Accept(bytes) => ControlReply::Accept(bytes@),
            ControlResponse::Reject => ControlReply::Reject,
        }
    }
}

/// Whether a request is a class request to the interface numbered `report_if`.
pub open spec fn addressed_to_class(report_if: u8, req: ControlRequest) -> bool {
    &&& req.request_type == RequestType::Class
    &&& req.recipient == Recipient::Interface
    &&& req.index == report_if as u16
}

/// Size in bytes of the input report that the report descriptor advertises.
pub const INPUT_REPORT_LEN: usize = 32;

/// The zeroed input report handed out on GET_REPORT, of the advertised size.
pub open spec fn placeholder_report() -> Seq<u8> {
    Seq::new(INPUT_REPORT_LEN as nat, |k: int| 0u8)
}

/// Answer to a device-to-host control request, for the interface numbered
/// `report_if`.
pub open spec fn control_in_reply(report_if: u8, req: ControlRequest) -> ControlReply {
    if req.request_type == RequestType::Standard {
        if req.recipient == Recipient::Interface && req.request == GET_DESCRIPTOR
            && req.value as int / 256 == HID_DESCRIPTOR_TYPE as int {
            ControlReply::Accept(hid_descriptor_bytes())
        } else if req.recipient == Recipient::Interface && req.request == GET_DESCRIPTOR
            && req.value as int / 256 == REPORT_DESCRIPTOR_TYPE as int {
            ControlReply::Accept(report_descriptor_bytes())
        } else {
            ControlReply::Ignore
        }
    } else if !addressed_to_class(report_if, req) {
        ControlReply::Ignore
    } else if req.request == GET_REPORT {
        ControlReply::Accept(placeholder_report())
    } else {
        ControlReply::Reject
    }
}

/// Answer to a host-to-device control request: the class takes no data, so
/// every class request to its interface is stalled.
pub open spec fn control_out_reply(report_if: u8, req: ControlRequest) -> ControlReply {
    if addressed_to_class(report_if, req) {
        ControlReply::Reject
    } else {
        ControlReply::Ignore
    }
}

/// What the class writes into a configuration descriptor.
#[derive(Debug, PartialEq, Eq)]
pub struct ConfigurationDescriptors {
    pub interface_number: u8,
    pub interface_class: u8,
    pub interface_subclass: u8,
    pub interface_protocol: u8,
    /// Type of the class descriptor that follows the interface descriptor.
    pub hid_descriptor_type: u8,
    /// Body of that class descriptor.
    pub hid_descriptor: Vec<u8>,
}

/// The HID game pad class on one interface with one interrupt-IN endpoint.
/// It holds no state across transfers but its interface number.
#[derive(Copy, Clone, Debug, PartialEq, Eq, Structural)]
pub struct HIDClass {
    report_if: u8,
}

impl HIDClass {
    /// The number of the class's interface.
    pub closed spec fn interface_number(self) -> u8 {
        self.report_if
    }

    /// The class on the interface numbered `report_if`.
    pub fn new(report_if: u8) -> (r: HIDClass)
        ensures
            r.interface_number() == report_if,
    {
        HIDClass { report_if }
    }

    /// The number of the class's interface.
    pub fn interface(&self) -> (r: u8)
        ensures
            r == self.interface_number(),
    {
        self.report_if
    }

    /// The interface descriptor's fields, then the HID descriptor; the endpoint
    /// descriptor follows them.
    pub fn get_configuration_descriptors(&self) -> (r: ConfigurationDescriptors)
        ensures
            r.interface_number == self.interface_number(),
            r.interface_class == USB_CLASS_HID,
            r.interface_subclass == USB_SUBCLASS_NONE,
            r.interface_protocol == USB_INTERFACE_GAMEPAD,
            r.hid_descriptor_type == HID_DESCRIPTOR_TYPE,
            r.hid_descriptor@ == hid_descriptor_body_bytes(),
    {
        ConfigurationDescriptors {
            interface_number: self.report_if,
            interface_class: USB_CLASS_HID,
            interface_subclass: USB_SUBCLASS_NONE,
            interface_protocol: USB_INTERFACE_GAMEPAD,
            hid_descriptor_type: HID_DESCRIPTOR_TYPE,
            hid_descriptor: hid_descriptor_body(),
        }
    }

    /// Whether a request is a class request to this interface.
    fn is_for_class(&self, req: &ControlRequest) -> (r: bool)
        ensures
            r == addressed_to_class(self.interface_number(), *req),
    {
        req.request_type == RequestType::Class && req.recipient == Recipient::Interface
            && req.index == self.report_if as u16
    }

    /// Answers a host-to-device control request.
    pub fn control_out(&self, req: &ControlRequest) -> (r: ControlResponse)
        ensures
            r@ == control_out_reply(self.interface_number(), *req),
    {
        if !self.is_for_class(req) {
            // not ours: other classes may take it
            return ControlResponse::Ignore;
        }
        ControlResponse::Reject
    }

    /// Answers a device-to-host control request.
    pub fn control_in(&self, req: &ControlRequest) -> (r: ControlResponse)
        ensures
            r@ == control_in_reply(self.interface_number(), *req),
    {
        if req.request_type == RequestType::Standard {
            if req.recipient == Recipient::Interface && req.request == GET_DESCRIPTOR {
                let dtype = req.descriptor_type();
                if dtype == HID_DESCRIPTOR_TYPE {
                    return ControlResponse::Accept(hid_descriptor());
                } else if dtype == REPORT_DESCRIPTOR_TYPE {
                    return ControlResponse::Accept(report_descriptor());
                }
            }
            // other standard requests belong to the device's enumeration
            return ControlResponse::Ignore;
        }
        if !self.is_for_class(req) {
            return ControlResponse::Ignore;
        }
        if req.request == GET_REPORT {
            // reports go out on the interrupt endpoint; the host gets an empty one here
            let r: Vec<u8> = vec![0u8; INPUT_REPORT_LEN];
            assert(r@ =~= placeholder_report());
            ControlResponse::Accept(r)
        } else {
            ControlResponse::Reject
        }
    }
}

/// The class keeps no history: its answer to a request depends on its interface
/// number and on the request's type, recipient, index, code and descriptor type
/// alone, so two such requests get the same answer whenever they come.
pub proof fn lemma_replies_stateless(c1: HIDClass, c2: HIDClass, r1: ControlRequest, r2: ControlRequest)
    requires
        c1.interface_number() == c2.interface_number(),
        r1.request_type == r2.request_type,
        r1.recipient == r2.recipient,
        r1.index == r2.index,
        r1.request == r2.request,
        r1.value as int / 256 == r2.value as int / 256,
    ensures
        control_in_reply(c1.interface_number(), r1) == control_in_reply(c2.interface_number(), r2),
        control_out_reply(c1.interface_number(), r1) == control_out_reply(c2.interface_number(), r2),
{
}

/// A GET_DESCRIPTOR for the HID descriptor gets nine bytes, the last two of
/// which give the report descriptor's length, little-endian.
pub proof fn lemma_hid_descriptor_reply(report_if: u8, req: ControlRequest)
    requires
        req.request_type == RequestType::Standard,
        req.recipient == Recipient::Interface,
        req.request == GET_DESCRIPTOR,
        req.value as int / 256 == HID_DESCRIPTOR_TYPE as int,
    ensures
        control_in_reply(report_if, req) matches ControlReply::Accept(bytes) && bytes.len() == 9
            && bytes[7] as int + 256 * bytes[8] as int == report_descriptor_len(),
{
    assert(report_descriptor_len() == 56);
}

/// A GET_DESCRIPTOR for the report descriptor gets all of its bytes, the same
/// on every request.
pub proof fn lemma_report_descriptor_reply(report_if: u8, req: ControlRequest)
    requires
        req.request_type == RequestType::Standard,
        req.recipient == Recipient::Interface,
        req.request == GET_DESCRIPTOR,
        req.value as int / 256 == REPORT_DESCRIPTOR_TYPE as int,
    ensures
        control_in_reply(report_if, req) == ControlReply::Accept(report_descriptor_bytes()),
{
}

/// Every class request to the interface but GET_REPORT is stalled, in either
/// direction.
pub proof fn lemma_other_class_requests_stall(report_if: u8, req: ControlRequest)
    requires
        addressed_to_class(report_if, req),
        req.request != GET_REPORT,
    ensures
        control_in_reply(report_if, req) == ControlReply::Reject,
        control_out_reply(report_if, req) == ControlReply::Reject,
{
}

} // verus!
