use rc_usb_joystick::get_report;
use rc_usb_joystick::JoystickState;

#[test]
fn wide_report_of_centered_frame_is_all_zero() {
    let report = get_report(&[1000; 16]);
    assert_eq!(report, [0u8; 32]);
}

#[test]
fn wide_report_axes_are_little_endian_offsets() {
    let mut axes = [1000u32; 16];
    axes[0] = 1500;
    axes[1] = 500;
    axes[15] = 2000;
    let report = get_report(&axes);
    assert_eq!(&report[0..2], &[0xF4, 0x01]);
    assert_eq!(&report[2..4], &[0x0C, 0xFE]);
    assert_eq!(&report[30..32], &[0xE8, 0x03]);
    assert_eq!(&report[4..30], &[0u8; 26]);
}

#[test]
fn wide_report_wraps_out_of_range_values() {
    let mut axes = [1000u32; 16];
    axes[3] = 0;
    axes[4] = 1000 + 65536;
    let report = get_report(&axes);
    assert_eq!(&report[6..8], &[0x18, 0xFC]);
    assert_eq!(&report[8..10], &[0, 0]);
}

#[test]
fn compact_report_buttons_and_centered_axes() {
    let s = JoystickState::from_ppm_time([1500, 1500, 1500, 1500, 1500, 1500, 1800, 1500, 1200]);
    assert_eq!(s.buttons & 0b01, 0b01);
    assert_eq!(s.buttons & 0b10, 0);
    assert_eq!(s.buttons & 0b1100, 0);
    assert_eq!(s.buttons & 0b10_0000, 0b10_0000);
    assert_eq!(s.buttons, 0b10_0001);
    assert_eq!(
        [s.left_x, s.left_y, s.right_x, s.right_y, s.dial_1, s.dial_2],
        [0i16; 6]
    );
}

#[test]
fn compact_report_dead_band_edges() {
    let s = JoystickState::from_ppm_time([1000, 2000, 1499, 1501, 1750, 1250, 1750, 1251, 1249]);
    assert_eq!(
        [s.left_x, s.left_y, s.right_x, s.right_y, s.dial_1, s.dial_2],
        [-500, 500, -1, 1, 250, -250]
    );
    // exactly at the threshold is neutral; one past it below is pressed low
    assert_eq!(s.buttons, 0b10_0000);
    let s = JoystickState::from_ppm_time([1500, 1500, 1500, 1500, 1500, 1500, 1751, 1100, 1900]);
    assert_eq!(s.buttons, 0b01_10_01);
}

#[test]
fn compact_report_serialises_fields_in_order() {
    let s = JoystickState::from_ppm_time([1501, 1499, 1756, 1244, 2000, 1000, 1500, 1800, 1500]);
    let bytes = s.as_u8_slice();
    assert_eq!(
        bytes,
        [0x01, 0x00, 0xFF, 0xFF, 0x00, 0x01, 0x00, 0xFF, 0xF4, 0x01, 0x0C, 0xFE, 0b0100]
    );
}
