use ddcutil_varlink::ddcutil::{
    check_status, find_display, get_capabilities_string, get_ddcutil_version,
    get_display_info_list, get_sleep_multiplier, init, list_displays, open_display, redetect,
    set_sleep_multiplier, DisplayInfo, DisplayList, Error,
};
use ddcutil_varlink::device::{Double, RawDisplay, HALF_BITS};
use ddcutil_varlink::edid::edid_serial_number;
use ddcutil_varlink::text::{
    c_ptr_to_string, cstr_from_fixed_array, decimal_text, has_prefix, hex_text, upper_hex_text,
};
use ddcutil_varlink::varlink_impl::{detect_entries, DetectEntry};

fn edid(first: u8) -> [u8; 128] {
    let mut bytes = [0u8; 128];
    bytes[0] = first;
    bytes[1] = 0xff;
    bytes[12] = 0x78;
    bytes[13] = 0x56;
    bytes[14] = 0x34;
    bytes[15] = 0x12;
    bytes
}

fn display(dref: usize, dispno: i32, first: u8) -> RawDisplay {
    RawDisplay {
        dref,
        dispno,
        mfg_id: *b"DEL\0",
        model_name: *b"DELL U2720Q\0\0\0",
        sn: *b"ABC123\0\0\0\0\0\0\0\0",
        product_code: 0x41ab,
        usb_bus: 1,
        usb_device: 2,
        edid_bytes: edid(first),
    }
}

fn base64_of(raw: &RawDisplay) -> String {
    DetectEntry::from_info(&DisplayInfo::from_raw(raw)).edid_base64
}

#[test]
fn status_zero_is_success() {
    assert!(check_status(0).is_ok());
    assert!(init(0).is_ok());
    assert!(redetect(0).is_ok());
    assert!(set_sleep_multiplier(0).is_ok());
    assert_eq!(check_status(-3007).unwrap_err().status_code(), -3007);
    assert_eq!(init(-1).unwrap_err().status_code(), -1);
    assert_eq!(redetect(-5).unwrap_err().status_code(), -5);
    assert_eq!(set_sleep_multiplier(7).unwrap_err().status_code(), 7);
}

#[test]
fn errors_have_messages() {
    assert_eq!(Error::Status(-3020).message(), "DDC/CI error: -3020");
    assert_eq!(Error::Utf8.message(), "UTF-8 conversion error");
    assert_eq!(
        Error::MissingIdentifier.message(),
        "No Display_Number or EDID supplied"
    );
    let not_found = Error::DisplayNotFound {
        display_number: 3,
        edid_base64: "AP".to_owned(),
        status: -1,
        message: "m".to_owned(),
    };
    assert_eq!(not_found.message(), "Display not found");
    assert_eq!(not_found.status_code(), -1);
    assert_eq!(Error::MissingCapabilities.message(), "Missing Capabilities");
    let dpms = Error::DpmsQueryFailed {
        display_ref: 1,
        message: "m".to_owned(),
    };
    assert_eq!(dpms.message(), "DDC/CI DPMS query failed");
    assert_eq!(dpms.status_code(), -1);
}

#[test]
fn numbers_are_written() {
    assert_eq!(decimal_text(0), "0");
    assert_eq!(decimal_text(1203), "1203");
    assert_eq!(decimal_text(-7), "-7");
    assert_eq!(decimal_text(i64::MIN), "-9223372036854775808");
    assert_eq!(hex_text(0xd6), "d6");
    assert_eq!(hex_text(0x0a), "0a");
    assert_eq!(upper_hex_text(0xd6), "D6");
    assert_eq!(upper_hex_text(0x05), "05");
}

#[test]
fn prefixes_are_recognized() {
    assert!(has_prefix("AP8=", "AP"));
    assert!(has_prefix("AP8=", ""));
    assert!(has_prefix("AP8=", "AP8="));
    assert!(!has_prefix("AP8=", "AP8=="));
    assert!(!has_prefix("AP8=", "P"));
}

#[test]
fn c_strings_are_read() {
    assert_eq!(c_ptr_to_string(&None, "default"), "default");
    assert_eq!(c_ptr_to_string(&Some(b"abc".to_vec()), "default"), "abc");
    assert_eq!(c_ptr_to_string(&Some(Vec::new()), "default"), "");
    assert_eq!(
        c_ptr_to_string(&Some(vec![b'a', 0xff, b'b']), ""),
        "a\u{fffd}b"
    );
    assert_eq!(cstr_from_fixed_array(b"DEL\0"), "DEL");
    assert_eq!(cstr_from_fixed_array(b"\0\0\0\0"), "");
    assert_eq!(cstr_from_fixed_array(b"FULL"), "FULL");
    assert_eq!(cstr_from_fixed_array(&[0xc3, 0xa9, 0, b'x']), "\u{e9}");
    assert_eq!(cstr_from_fixed_array(&[b'a', 0xc3, 0, 0]), "a\u{fffd}");
}

#[test]
fn serial_number_is_little_endian() {
    assert_eq!(edid_serial_number(&edid(0)), 0x12345678);
    assert_eq!(edid_serial_number(&[0xff; 128]), u32::MAX);
}

#[test]
fn displays_are_listed() {
    let infos = list_displays(0, Some(vec![display(11, 1, 0), display(12, 2, 9)])).unwrap();
    assert_eq!(infos.len(), 2);
    assert_eq!(infos[0].display_ref, 11);
    assert_eq!(infos[0].display_number, 1);
    assert_eq!(infos[0].manufacturer_id, "DEL");
    assert_eq!(infos[0].model_name, "DELL U2720Q");
    assert_eq!(infos[0].serial_number, "ABC123");
    assert_eq!(infos[0].product_code, 0x41ab);
    assert_eq!(infos[0].usb_bus, 1);
    assert_eq!(infos[0].usb_device, 2);
    assert_eq!(infos[0].edid_serial_number, "305419896");
    assert_eq!(infos[1].display_ref, 12);
    assert_eq!(infos[1].edid_bytes[0], 9);
    assert!(list_displays(0, Some(Vec::new())).unwrap().is_empty());
}

#[test]
fn failed_lists_are_errors() {
    assert_eq!(
        list_displays(-3013, Some(Vec::new())).unwrap_err().status_code(),
        -3013
    );
    assert_eq!(list_displays(0, None).unwrap_err().status_code(), -1);
    assert_eq!(get_display_info_list(2, None).unwrap_err().status_code(), 2);
    assert_eq!(get_display_info_list(0, Some(vec![display(4, 4, 4)])).unwrap().len(), 1);
    assert!(matches!(list_displays(0, None), Err(Error::Status(-1))));
}

#[test]
fn list_is_walked_in_order() {
    let list = DisplayList::new(0, Some(vec![display(5, 1, 0), display(6, 2, 1)])).unwrap();
    assert_eq!(list.len(), 2);
    let mut walk = list.iter();
    assert_eq!(walk.next().unwrap().dref, 5);
    assert_eq!(walk.next().unwrap().dref, 6);
    assert!(walk.next().is_none());
    assert!(walk.next().is_none());
}

#[test]
fn edid_is_encoded() {
    let text = base64_of(&display(1, 1, 0));
    assert_eq!(text.len(), 172);
    assert_eq!(&text[..24], "AP8AAAAAAAAAAAAAeFY0EgAA");
    assert!(text.ends_with("AAA="));
    assert_ne!(text, base64_of(&display(1, 1, 1)));
}

#[test]
fn displays_are_told_to_clients() {
    let infos = list_displays(0, Some(vec![display(11, 1, 0)])).unwrap();
    let entries = detect_entries(&infos);
    assert_eq!(entries.len(), 1);
    let entry = &entries[0];
    assert_eq!(entry.display_ref, 11);
    assert_eq!(entry.display_number, 1);
    assert_eq!(entry.usb_bus, 1);
    assert_eq!(entry.usb_device, 2);
    assert_eq!(entry.mfg_id, "DEL");
    assert_eq!(entry.model_name, "DELL U2720Q");
    assert_eq!(entry.serial_number, "ABC123");
    assert_eq!(entry.product_code, 16811);
    assert_eq!(entry.edid_serial_number, "305419896");
}

#[test]
fn display_is_found_by_number() {
    let list = || Some(vec![display(11, 1, 0), display(12, 2, 9)]);
    assert_eq!(find_display(0, list(), Some(2), None, false).unwrap().0, 12);
    assert_eq!(find_display(0, list(), Some(1), None, true).unwrap().0, 11);
}

#[test]
fn display_is_found_by_edid() {
    let list = || Some(vec![display(11, 1, 0), display(12, 2, 9)]);
    let wanted = base64_of(&display(12, 2, 9));
    assert_eq!(
        find_display(0, list(), None, Some(&wanted), false).unwrap().0,
        12
    );
    assert_eq!(
        find_display(0, list(), None, Some(&wanted[..8]), true).unwrap().0,
        12
    );
    assert!(find_display(0, list(), None, Some(&wanted[..8]), false).is_err());
    // Any EDID begins with the empty prefix.
    assert_eq!(find_display(0, list(), None, Some(""), true).unwrap().0, 11);
}

#[test]
fn list_comes_with_the_display() {
    let list = Some(vec![display(11, 1, 0), display(12, 2, 9)]);
    let (dref, list) = find_display(0, list, Some(2), None, false).unwrap();
    assert_eq!(dref, 12);
    assert_eq!(list.len(), 2);
    assert_eq!(list.iter().next().unwrap().dref, 11);
    assert_eq!(list.find_by_id(Some(1), None, false), Some(11));
}

#[test]
fn whole_edid_finds_its_display_as_a_prefix_too() {
    let list = || Some(vec![display(11, 1, 0), display(12, 2, 9)]);
    for dref in [11, 12] {
        let wanted = base64_of(&display(dref, 0, if dref == 11 { 0 } else { 9 }));
        for prefix in [false, true] {
            assert_eq!(find_display(0, list(), None, Some(&wanted), prefix).unwrap().0, dref);
        }
    }
}

#[test]
fn first_display_that_is_meant_is_found() {
    let list = || Some(vec![display(11, 1, 0), display(12, 2, 9)]);
    let second = base64_of(&display(12, 2, 9));
    // Either of number and EDID will do.
    assert_eq!(
        find_display(0, list(), Some(1), Some(&second), false).unwrap().0,
        11
    );
    assert_eq!(
        find_display(0, list(), Some(7), Some(&second), false).unwrap().0,
        12
    );
    let twice = Some(vec![display(21, 3, 0), display(22, 3, 0)]);
    assert_eq!(find_display(0, twice, Some(3), None, false).unwrap().0, 21);
}

#[test]
fn missing_display_is_reported() {
    let list = || Some(vec![display(11, 1, 0)]);
    match find_display(0, list(), Some(-4), Some("A\"P"), false) {
        Err(Error::DisplayNotFound {
            display_number,
            edid_base64,
            status,
            message,
        }) => {
            assert_eq!(display_number, -4);
            assert_eq!(edid_base64, "A\"P");
            assert_eq!(status, -1);
            assert_eq!(
                message,
                "DisplayNumber=Some(-4) EDID=\"A\\\"P\" - display not found"
            );
        }
        _ => panic!("expected DisplayNotFound"),
    }
    match find_display(0, list(), None, Some("zz"), true) {
        Err(Error::DisplayNotFound {
            display_number,
            message,
            ..
        }) => {
            assert_eq!(display_number, -1);
            assert_eq!(
                message,
                "DisplayNumber=None EDID=\"zz\" - display not found"
            );
        }
        _ => panic!("expected DisplayNotFound"),
    }
}

#[test]
fn display_must_be_named() {
    assert!(matches!(
        find_display(0, Some(Vec::new()), None, None, true),
        Err(Error::MissingIdentifier)
    ));
    // A list that cannot be had comes first.
    assert!(matches!(
        find_display(-9, None, None, None, true),
        Err(Error::Status(-9))
    ));
    assert!(matches!(
        find_display(0, None, Some(1), None, true),
        Err(Error::Status(-1))
    ));
}

#[test]
fn handle_keeps_its_display() {
    let handle = open_display(11, 0, 4711).unwrap();
    assert_eq!(handle.ddca_handle, 4711);
    assert_eq!(handle.dref, 11);
    assert_eq!(open_display(11, -20, 0).unwrap_err().status_code(), -20);
}

#[test]
fn small_answers_are_read() {
    assert_eq!(
        get_capabilities_string(0, &Some(b"(prot(monitor))".to_vec())).unwrap(),
        "(prot(monitor))"
    );
    assert_eq!(get_capabilities_string(0, &None).unwrap(), "");
    assert_eq!(
        get_capabilities_string(-2, &None).unwrap_err().status_code(),
        -2
    );
    let half = Double { bits: HALF_BITS };
    assert_eq!(get_sleep_multiplier(0, half).unwrap(), half);
    assert_eq!(get_sleep_multiplier(-8, half).unwrap_err().status_code(), -8);
    assert_eq!(get_ddcutil_version(&Some(b"2.2.0".to_vec())), "2.2.0");
    assert_eq!(get_ddcutil_version(&None), "unknown");
}

#[test]
fn doubles_are_compared_by_bits() {
    let bad = |x: f64| Double { bits: x.to_bits() }.is_negative_or_fraction();
    assert!(bad(-1.0));
    assert!(bad(-0.25));
    assert!(bad(f64::NEG_INFINITY));
    assert!(bad(0.5));
    assert!(bad(f64::MIN_POSITIVE));
    assert!(bad(0.9999999));
    assert!(!bad(0.0));
    assert!(!bad(-0.0));
    assert!(!bad(1.0));
    assert!(!bad(2.5));
    assert!(!bad(f64::INFINITY));
    assert!(!bad(f64::NAN));
    assert!(!bad(-f64::NAN));
    assert_eq!(HALF_BITS, 0.5f64.to_bits());
}
