use wado_compositor::gamepad::{
    axes, axis_report, axis_value, button_report, buttons, event_bytes, setup_bytes, uinput_iow, EV_ABS, EV_KEY,
    INPUT_EVENT_SIZE, UINPUT_USER_DEV_SIZE, UI_SET_ABSBIT, UI_SET_EVBIT, UI_SET_KEYBIT,
};

#[test]
fn ioctl_numbers_match_the_kernel_headers() {
    assert_eq!(UI_SET_EVBIT, 0x4004_5564);
    assert_eq!(UI_SET_KEYBIT, 0x4004_5565);
    assert_eq!(UI_SET_ABSBIT, 0x4004_5567);
}

#[test]
fn the_setup_struct_is_the_size_the_kernel_expects() {
    assert_eq!(setup_bytes().len(), 1116);
    assert_eq!(event_bytes(EV_KEY, 0x130, 1).len(), 24);
}

#[test]
fn every_axis_code_fits_the_abs_tables() {
    for (code, min, max) in axes() {
        assert!(code < 64, "ABS code {code:#x} is past the abs* tables");
        assert!(min < max, "ABS code {code:#x} has an empty range");
    }
}

#[test]
fn the_ioctl_number_is_iow_on_the_uinput_type() {
    assert_eq!(uinput_iow(100), UI_SET_EVBIT);
    assert_eq!(uinput_iow(101), UI_SET_KEYBIT);
    assert_eq!(uinput_iow(103), UI_SET_ABSBIT);
}

#[test]
fn the_sizes_match_their_constants() {
    assert_eq!(setup_bytes().len(), UINPUT_USER_DEV_SIZE);
    assert_eq!(event_bytes(0, 0, 0).len(), INPUT_EVENT_SIZE);
}

#[test]
fn an_event_is_a_zero_timestamp_then_type_code_and_value() {
    let b = event_bytes(EV_ABS, 0x01, -2);
    assert!(b[..16].iter().all(|&x| x == 0));
    assert_eq!(&b[16..18], &[0x03, 0x00]);
    assert_eq!(&b[18..20], &[0x01, 0x00]);
    assert_eq!(&b[20..24], &[0xfe, 0xff, 0xff, 0xff]);
}

#[test]
fn a_button_press_is_the_key_event_then_a_report() {
    let b = button_report(0x130, true);
    assert_eq!(b.len(), 48);
    assert_eq!(&b[..24], event_bytes(EV_KEY, 0x130, 1).as_slice());
    assert_eq!(&b[24..], event_bytes(0, 0, 0).as_slice());
    let r = button_report(0x131, false);
    assert_eq!(&r[..24], event_bytes(EV_KEY, 0x131, 0).as_slice());
}

#[test]
fn an_axis_value_is_clamped_to_its_range() {
    assert_eq!(axis_value(0x02, 300), Some(255));
    assert_eq!(axis_value(0x02, -5), Some(0));
    assert_eq!(axis_value(0x00, -40000), Some(-32768));
    assert_eq!(axis_value(0x10, 1), Some(1));
    assert_eq!(axis_value(0x10, 7), Some(1));
}

#[test]
fn an_axis_the_device_lacks_is_ignored() {
    assert_eq!(axis_value(0x06, 10), None);
    assert!(axis_report(0x06, 10).is_none());
    let r = axis_report(0x05, 1000).expect("the right trigger exists");
    assert_eq!(&r[..24], event_bytes(EV_ABS, 0x05, 255).as_slice());
}

#[test]
fn the_setup_names_the_device_and_advertises_the_axis_ranges() {
    let b = setup_bytes();
    assert_eq!(&b[..20], b"wado virtual gamepad");
    assert!(b[20..80].iter().all(|&x| x == 0));
    // bus, vendor, product, version
    assert_eq!(&b[80..88], &[0x06, 0x00, 0x5e, 0x04, 0x8e, 0x02, 0x10, 0x01]);
    // absmax starts after ff_effects_max; ABS_Z (code 2) tops out at 255.
    let absmax = 92;
    assert_eq!(&b[absmax + 4 * 2..absmax + 4 * 2 + 4], &255i32.to_le_bytes());
    let absmin = absmax + 256;
    assert_eq!(&b[absmin..absmin + 4], &(-32768i32).to_le_bytes());
    assert_eq!(buttons().len(), 11);
}
