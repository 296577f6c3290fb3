use hidkbd::report::KbHidReport;

#[test]
fn default_report_is_all_zero() {
    let r = KbHidReport::default();
    assert_eq!(r.as_bytes(), &[0u8; 8]);
}

#[test]
fn single_key_lands_in_first_slot() {
    let mut r = KbHidReport::default();
    r.pressed(0x04);
    assert_eq!(r.as_bytes(), &[0, 0, 0x04, 0, 0, 0, 0, 0]);
}

#[test]
fn six_keys_pack_in_press_order() {
    let mut r = KbHidReport::default();
    for k in [0x04u8, 0x09, 0x05, 0x11, 0x2c, 0x28] {
        r.pressed(k);
    }
    assert_eq!(r.as_bytes(), &[0, 0, 0x04, 0x09, 0x05, 0x11, 0x2c, 0x28]);
}

#[test]
fn partial_fill_leaves_trailing_zeros() {
    let mut r = KbHidReport::default();
    r.pressed(0x1a);
    r.pressed(0x08);
    r.pressed(0x15);
    assert_eq!(r.as_bytes(), &[0, 0, 0x1a, 0x08, 0x15, 0, 0, 0]);
}

#[test]
fn seventh_key_forces_rollover() {
    let mut r = KbHidReport::default();
    for k in [0x04u8, 0x05, 0x06, 0x07, 0x08, 0x09, 0x0a] {
        r.pressed(k);
    }
    assert_eq!(r.as_bytes(), &[0, 0, 1, 1, 1, 1, 1, 1]);
}

#[test]
fn rollover_regardless_of_press_order() {
    let mut r = KbHidReport::default();
    for k in [0x0au8, 0x07, 0x04, 0x09, 0x06, 0x08, 0x05] {
        r.pressed(k);
    }
    assert_eq!(r.as_bytes(), &[0, 0, 1, 1, 1, 1, 1, 1]);
}

#[test]
fn rollover_keeps_modifiers() {
    let mut r = KbHidReport::default();
    r.pressed(0xe1);
    for k in [0x04u8, 0x05, 0x06, 0x07, 0x08, 0x09, 0x0a] {
        r.pressed(k);
    }
    assert_eq!(r.as_bytes(), &[0x02, 0, 1, 1, 1, 1, 1, 1]);
}

#[test]
fn error_rollover_sentinel_overrides_slots() {
    let mut r = KbHidReport::default();
    r.pressed(0x04);
    r.pressed(0x05);
    r.pressed(0x01);
    assert_eq!(r.as_bytes(), &[0, 0, 1, 1, 1, 1, 1, 1]);
}

#[test]
fn post_fail_sentinel_overrides_slots() {
    let mut r = KbHidReport::default();
    r.pressed(0xe0);
    r.pressed(0x04);
    r.pressed(0x02);
    assert_eq!(r.as_bytes(), &[0x01, 0, 2, 2, 2, 2, 2, 2]);
}

#[test]
fn undefined_error_sentinel_overrides_slots() {
    let mut r = KbHidReport::default();
    r.pressed(0x2c);
    r.pressed(0x03);
    assert_eq!(r.as_bytes(), &[0, 0, 3, 3, 3, 3, 3, 3]);
}

#[test]
fn modifier_sets_only_its_bit() {
    let mut r = KbHidReport::default();
    r.pressed(0xe0);
    assert_eq!(r.as_bytes(), &[0x01, 0, 0, 0, 0, 0, 0, 0]);
    r.pressed(0xe7);
    assert_eq!(r.as_bytes(), &[0x81, 0, 0, 0, 0, 0, 0, 0]);
}

#[test]
fn all_modifiers_combine_in_byte_zero() {
    let mut r = KbHidReport::default();
    for m in 0xe0u8..=0xe7 {
        r.pressed(m);
    }
    assert_eq!(r.as_bytes(), &[0xff, 0, 0, 0, 0, 0, 0, 0]);
}

#[test]
fn modifiers_do_not_consume_key_slots() {
    let mut r = KbHidReport::default();
    r.pressed(0xe2);
    r.pressed(0x04);
    r.pressed(0xe4);
    r.pressed(0x05);
    assert_eq!(r.as_bytes(), &[0x04 | 0x10, 0, 0x04, 0x05, 0, 0, 0, 0]);
}

#[test]
fn no_key_is_a_no_op() {
    let mut r = KbHidReport::default();
    r.pressed(0x04);
    r.pressed(0x00);
    assert_eq!(r.as_bytes(), &[0, 0, 0x04, 0, 0, 0, 0, 0]);
}

#[test]
fn repeated_key_occupies_another_slot() {
    let mut r = KbHidReport::default();
    r.pressed(0x04);
    r.pressed(0x04);
    assert_eq!(r.as_bytes(), &[0, 0, 0x04, 0x04, 0, 0, 0, 0]);
}

#[test]
fn clear_zeroes_slots_and_keeps_modifiers() {
    let mut r = KbHidReport::default();
    r.pressed(0xe0);
    r.pressed(0x04);
    r.pressed(0x05);
    r.clear();
    assert_eq!(r.as_bytes(), &[0x01, 0, 0, 0, 0, 0, 0, 0]);
}

#[test]
fn clear_is_idempotent() {
    let mut r = KbHidReport::default();
    r.pressed(0xe3);
    r.pressed(0x1d);
    r.clear();
    let once: Vec<u8> = r.as_bytes().to_vec();
    r.clear();
    assert_eq!(r.as_bytes(), once.as_slice());
}
