use micshift::win32::{
    copy_wide, is_usable_handle, last_bool_error, make_int_resource, quick_edit_off, GUID,
    ENABLE_EXTENDED_FLAGS, ENABLE_QUICK_EDIT_MODE,
};

#[test]
fn copy_wide_truncates_and_terminates() {
    let mut field = [9u16; 4];
    copy_wide(&mut field, "Hello");
    assert_eq!(field, [72, 101, 108, 0]);

    let mut field = [9u16; 5];
    copy_wide(&mut field, "Hi");
    assert_eq!(field, [72, 105, 0, 0, 0]);

    let mut empty: [u16; 0] = [];
    copy_wide(&mut empty, "Hi");

    let mut one = [7u16; 1];
    copy_wide(&mut one, "Hi");
    assert_eq!(one, [0]);
}

#[test]
fn copy_wide_tip_field() {
    let mut tip = [1u16; 128];
    copy_wide(&mut tip, "MicShift");
    let expected: Vec<u16> = "MicShift".encode_utf16().collect();
    assert_eq!(&tip[..8], &expected[..]);
    assert!(tip[8..].iter().all(|&u| u == 0));
}

#[test]
fn int_resource_is_the_identifier() {
    assert_eq!(make_int_resource(101), 101);
    assert_eq!(make_int_resource(32512), 32512);
}

#[test]
fn bool_error_message() {
    assert_eq!(last_bool_error("RegisterClassW"), "RegisterClassW failed");
}

#[test]
fn quick_edit_is_switched_off() {
    assert_eq!(quick_edit_off(0x0041), 0x0081);
    assert_eq!(quick_edit_off(0), ENABLE_EXTENDED_FLAGS);
    let mode = quick_edit_off(0xFFFF_FFFF);
    assert_eq!(mode & ENABLE_QUICK_EDIT_MODE, 0);
}

#[test]
fn std_handles() {
    assert!(!is_usable_handle(0));
    assert!(!is_usable_handle(-1));
    assert!(is_usable_handle(0x44));
}

#[test]
fn guid_fields() {
    let g = GUID::new(1, 2, 3, [4, 5, 6, 7, 8, 9, 10, 11]);
    assert_eq!(g.data1, 1);
    assert_eq!(g.data2, 2);
    assert_eq!(g.data3, 3);
    assert_eq!(g.data4, [4, 5, 6, 7, 8, 9, 10, 11]);
}
