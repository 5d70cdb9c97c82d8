use vstd::prelude::*;

verus! {

/// Descriptor type of the HID class descriptor.
pub const HID_DESCRIPTOR_TYPE: u8 = 0x21;

/// Descriptor type of the HID report descriptor.
pub const REPORT_DESCRIPTOR_TYPE: u8 = 0x22;

/// Interface class code of HID.
pub const USB_CLASS_HID: u8 = 0x03;

/// Interface subclass: no boot protocol.
pub const USB_SUBCLASS_NONE: u8 = 0x00;

/// Interface protocol code used for a game pad.
pub const USB_INTERFACE_GAMEPAD: u8 = 0x05;

/// Largest packet of the interrupt-IN endpoint, in bytes.
pub const REPORT_MAX_PACKET: u16 = 32;

/// Polling interval of the interrupt-IN endpoint, in frames.
pub const REPORT_INTERVAL: u8 = 10;

/// The report descriptor: a Generic Desktop game pad with sixteen absolute
/// 16-bit axes in -500..=500.
pub open spec fn report_descriptor_bytes() -> Seq<u8> {
    seq![
        0x05u8, 0x01, // usage page (generic desktop)
        0x09, 0x05, // usage (game pad)
        0xA1, 0x01, // collection (application)
        0xA1, 0x00, // collection (physical)
        0x05, 0x01, // usage page (generic desktop)
        0x09, 0x30, // usage (X)
        0x09, 0x31, // usage (Y)
        0x09, 0x32, // usage (Z)
        0x09, 0x33, // usage (Rx)
        0x09, 0x34, // usage (Ry)
        0x09, 0x35, // usage (Rz)
        0x09, 0x36, // usage (slider)
        0x09, 0x37, // usage (dial)
        0x09, 0x38, // usage (wheel)
        0x09, 0x40, // usage (Vx)
        0x09, 0x41, // usage (Vy)
        0x09, 0x42, // usage (Vz)
        0x09, 0x43, // usage (Vbrx)
        0x09, 0x44, // usage (Vbry)
        0x09, 0x45, // usage (Vbrz)
        0x09, 0x46, // usage (Vno)
        0x16, 0x0C, 0xFE, // logical minimum (-500)
        0x26, 0xF4, 0x01, // logical maximum (500)
        0x75, 0x10, // report size (16)
        0x95, 0x10, // report count (16)
        0x81, 0x02, // input (data, variable, absolute)
        0xC0, // end collection
        0xC0, // end collection
    ]
}

/// Length of the report descriptor in bytes.
pub open spec fn report_descriptor_len() -> nat {
    report_descriptor_bytes().len()
}

/// Body of the HID descriptor, after its length and type bytes: HID 1.01, no
/// country, one class descriptor, which is the report descriptor, and its length
/// little-endian.
pub open spec fn hid_descriptor_body_bytes() -> Seq<u8> {
    seq![
        0x01u8,
        0x01,
        0x00,
        0x01,
        REPORT_DESCRIPTOR_TYPE,
        (report_descriptor_len() % 256) as u8,
        (report_descriptor_len() / 256) as u8,
    ]
}

/// The whole HID descriptor: length, type, then the body.
pub open spec fn hid_descriptor_bytes() -> Seq<u8> {
    seq![9u8, HID_DESCRIPTOR_TYPE] + hid_descriptor_body_bytes()
}

/// The report descriptor's bytes.
pub fn report_descriptor() -> (r: Vec<u8>)
    ensures
        r@ == report_descriptor_bytes(),
{
    let r: Vec<u8> = vec![
        0x05u8, 0x01, 0x09, 0x05, 0xA1, 0x01, 0xA1, 0x00, 0x05, 0x01,
        0x09, 0x30, 0x09, 0x31, 0x09, 0x32, 0x09, 0x33, 0x09, 0x34,
        0x09, 0x35, 0x09, 0x36, 0x09, 0x37, 0x09, 0x38, 0x09, 0x40,
        0x09, 0x41, 0x09, 0x42, 0x09, 0x43, 0x09, 0x44, 0x09, 0x45,
        0x09, 0x46, 0x16, 0x0C, 0xFE, 0x26, 0xF4, 0x01, 0x75, 0x10,
        0x95, 0x10, 0x81, 0x02, 0xC0, 0xC0,
    ];
    assert(r@ =~= report_descriptor_bytes());
    r
}

/// The report descriptor's length, as the 16-bit count that descriptors carry.
pub fn report_descriptor_length() -> (r: u16)
    ensures
        r as nat == report_descriptor_len(),
{
    let d = report_descriptor();
    d.len() as u16
}

/// The HID descriptor's body, as written after its type in a configuration
/// descriptor.
pub fn hid_descriptor_body() -> (r: Vec<u8>)
    ensures
        r@ == hid_descriptor_body_bytes(),
{
    let len: u16 = report_descriptor_length();
    let r: Vec<u8> = vec![0x01u8, 0x01, 0x00, 0x01, REPORT_DESCRIPTOR_TYPE, (len % 256) as u8, (len / 256) as u8];
    assert(r@ =~= hid_descriptor_body_bytes());
    r
}

/// The whole HID descriptor, as sent when the host asks for it alone.
pub fn hid_descriptor() -> (r: Vec<u8>)
    ensures
        r@ == hid_descriptor_bytes(),
        r@.len() == 9,
{
    let body = hid_descriptor_body();
    let mut r: Vec<u8> = vec![9u8, HID_DESCRIPTOR_TYPE];
    let mut i: usize = 0;
    while i < body.len()
        invariant
            i <= body@.len(),
            body@ == hid_descriptor_body_bytes(),
            r@ == seq![9u8, HID_DESCRIPTOR_TYPE] + body@.subrange(0, i as int),
        decreases body@.len() - i,
    {
        r.push(body[i]);
        assert(body@.subrange(0, i as int + 1) =~= body@.subrange(0, i as int).push(body@[i as int]));
        i = i + 1;
    }
    assert(body@.subrange(0, body@.len() as int) =~= body@);
    r
}

} // verus!
