use vstd::prelude::*;
use crate::report::{as_signed16, field_bits, hi_byte, lo_byte, offset_bits};

verus! {

/// Offset that brings a channel value of the compact layout to its signed axis value.
pub const COMPACT_CENTER: u32 = 1500;

/// Distance from the center beyond which a button channel counts as pressed.
pub const BUTTON_THRESHOLD: i16 = 250;

/// Signed axis value of a channel in the compact layout: the channel minus 1500,
/// wrapped to 16 bits.
pub open spec fn compact_axis(t: u32) -> int {
    as_signed16(field_bits(t as int, COMPACT_CENTER as int))
}

/// Two bits of one button: 1 when its channel is above the dead band, 2 when it
/// is below, 0 inside it.
pub open spec fn button_code(t: u32) -> int {
    let s = compact_axis(t);
    if s > 250 {
        1
    } else if s < -250 {
        2
    } else {
        0
    }
}

/// The button byte built from three button channels, two bits each.
pub open spec fn button_byte(b0: u32, b1: u32, b2: u32) -> int {
    button_code(b0) + 4 * button_code(b1) + 16 * button_code(b2)
}

/// Compact report: two sticks, two dials, and a byte of up to three tri-state
/// buttons. Standard AETR channel order.
#[derive(Copy, Clone, Debug, PartialEq, Eq)]
pub struct JoystickState {
    /// Left stick (channels 1 and 2)
    pub left_x: i16,
    pub left_y: i16,
    /// Right stick (channels 3 and 4)
    pub right_x: i16,
    pub right_y: i16,
    /// Dials (channels 5 and 6)
    pub dial_1: i16,
    pub dial_2: i16,
    /// Buttons (channels 7 to 9)
    pub buttons: u8,
}

/// Little-endian bytes of a signed 16-bit field, as a sequence of two.
pub open spec fn i16_le(f: i16) -> Seq<u8> {
    seq![lo_byte(f as int % 65536) as u8, hi_byte(f as int % 65536) as u8]
}

impl JoystickState {
    /// The state's fields in report order, as wire bytes.
    pub open spec fn wire(self) -> Seq<u8> {
        i16_le(self.left_x) + i16_le(self.left_y) + i16_le(self.right_x) + i16_le(self.right_y)
            + i16_le(self.dial_1) + i16_le(self.dial_2) + seq![self.buttons]
    }

    /// Builds the compact report from the first nine channels of a frame.
    pub fn from_ppm_time(axes: [u32; 9]) -> (r: Self)
        ensures
            r.left_x as int == compact_axis(axes[0]),
            r.left_y as int == compact_axis(axes[1]),
            r.right_x as int == compact_axis(axes[2]),
            r.right_y as int == compact_axis(axes[3]),
            r.dial_1 as int == compact_axis(axes[4]),
            r.dial_2 as int == compact_axis(axes[5]),
            r.buttons as int == button_byte(axes[6], axes[7], axes[8]),
    {
        let mut buttons: u8 = 0;
        let mut i: usize = 0;
        while i < 3
            invariant
                i <= 3,
                buttons as int == (if i > 0 { button_code(axes[6]) } else { 0 }) + (if i > 1 {
                    4 * button_code(axes[7])
                } else {
                    0
                }) + (if i > 2 { 16 * button_code(axes[8]) } else { 0 }),
            decreases 3 - i,
        {
            let signal: i16 = axis16(axes[6 + i]);
            let shift: u8 = if i == 0 { 1 } else if i == 1 { 4 } else { 16 };
            if signal > BUTTON_THRESHOLD {
                buttons = buttons + shift;
            } else if signal < -BUTTON_THRESHOLD {
                buttons = buttons + 2 * shift;
            }
            i = i + 1;
        }
        JoystickState {
            left_x: axis16(axes[0]),
            left_y: axis16(axes[1]),
            right_x: axis16(axes[2]),
            right_y: axis16(axes[3]),
            dial_1: axis16(axes[4]),
            dial_2: axis16(axes[5]),
            buttons,
        }
    }

    /// Serialises the report field by field, little-endian, with no padding:
    /// 13 bytes.
    pub fn as_u8_slice(&self) -> (r: [u8; 13])
        ensures
            r@ == self.wire(),
    {
        let mut r: [u8; 13] = [0u8; 13];
        let b0 = le16(self.left_x);
        let b1 = le16(self.left_y);
        let b2 = le16(self.right_x);
        let b3 = le16(self.right_y);
        let b4 = le16(self.dial_1);
        let b5 = le16(self.dial_2);
        r[0] = b0.0;
        r[1] = b0.1;
        r[2] = b1.0;
        r[3] = b1.1;
        r[4] = b2.0;
        r[5] = b2.1;
        r[6] = b3.0;
        r[7] = b3.1;
        r[8] = b4.0;
        r[9] = b4.1;
        r[10] = b5.0;
        r[11] = b5.1;
        r[12] = self.buttons;
        assert(r@ =~= self.wire());
        r
    }
}

/// Channel value minus 1500 as a signed 16-bit value, wrapping.
fn axis16(t: u32) -> (r: i16)
    ensures
        r as int == compact_axis(t),
{
    let bits: u16 = offset_bits(t, COMPACT_CENTER);
    if bits >= 32768 {
        (bits as i32 - 65536) as i16
    } else {
        bits as i16
    }
}

/// Little-endian bytes of a signed 16-bit value.
fn le16(f: i16) -> (r: (u8, u8))
    ensures
        seq![r.0, r.1] == i16_le(f),
{
    let bits: u16 = if f >= 0 { f as u16 } else { (f as i32 + 65536) as u16 };
    assert(bits as int == f as int % 65536);
    ((bits % 256) as u8, (bits / 256) as u8)
}

} // verus!
