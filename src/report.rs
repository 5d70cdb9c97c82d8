use vstd::prelude::*;

verus! {

/// Offset that brings a channel value of the wide layout to its signed axis value.
pub const WIDE_CENTER: u32 = 1000;

/// Number of axes in the wide layout.
pub const WIDE_AXES: usize = 16;

/// The 16-bit two's-complement pattern of `t - center`: what a signed 16-bit
/// field holds once the difference has wrapped into its range.
pub open spec fn field_bits(t: int, center: int) -> int {
    (t - center) % 65536
}

/// Value of a signed 16-bit field whose bit pattern is `bits`.
pub open spec fn as_signed16(bits: int) -> int {
    if bits >= 32768 { bits - 65536 } else { bits }
}

/// Low byte, then high byte, of a 16-bit pattern.
pub open spec fn lo_byte(bits: int) -> int {
    bits % 256
}

pub open spec fn hi_byte(bits: int) -> int {
    bits / 256
}

/// `t - center` wrapped to 16 bits, computed on machine integers.
pub fn offset_bits(t: u32, center: u32) -> (r: u16)
    ensures
        r as int == field_bits(t as int, center as int),
{
    let tt: u16 = (t % 65536) as u16;
    let cc: u16 = (center % 65536) as u16;
    let r: u16 = if tt >= cc { tt - cc } else { ((tt as u32 + 65536) - cc as u32) as u16 };
    proof {
        let ti = t as int;
        let ci = center as int;
        assert((ti - ci) % 65536 == ((ti % 65536) - (ci % 65536)) % 65536) by (nonlinear_arith);
    }
    r
}

/// The wide-layout report of sixteen channel values: for each axis, the low
/// byte then the high byte of its value minus 1000.
pub open spec fn wide_report(axes: Seq<u32>) -> Seq<u8> {
    Seq::new(
        32,
        |k: int|
            if k % 2 == 0 {
                lo_byte(field_bits(axes[k / 2] as int, WIDE_CENTER as int)) as u8
            } else {
                hi_byte(field_bits(axes[k / 2] as int, WIDE_CENTER as int)) as u8
            },
    )
}

/// Encodes the wide layout: sixteen signed 16-bit axes, each the channel value
/// minus 1000, little-endian, one after the other.
pub fn get_report(axes: &[u32; 16]) -> (report: [u8; 32])
    ensures
        report@ == wide_report(axes@),
{
    let mut report: [u8; 32] = [0u8; 32];
    let mut i: usize = 0;
    while i < WIDE_AXES
        invariant
            i <= 16,
            forall|j: int|
                0 <= j < i ==> {
                    &&& report[2 * j] as int == lo_byte(field_bits(axes[j] as int, WIDE_CENTER as int))
                    &&& report[2 * j + 1] as int == hi_byte(field_bits(axes[j] as int, WIDE_CENTER as int))
                },
        decreases 16 - i,
    {
        let bits: u16 = offset_bits(axes[i], WIDE_CENTER);
        report[2 * i] = (bits % 256) as u8;
        report[2 * i + 1] = (bits / 256) as u8;
        i = i + 1;
    }
    assert forall|k: int| 0 <= k < 32 implies report@[k] == wide_report(axes@)[k] by {
        let j = k / 2;
        if k % 2 == 0 {
            assert(k == 2 * j);
        } else {
            assert(k == 2 * j + 1);
        }
    }
    assert(report@ =~= wide_report(axes@));
    report
}

} // verus!
