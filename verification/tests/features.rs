use ddcutil_varlink::capabilities::{
    describe_feature, extract_model, get_capabilities_data, get_feature_name, CapabilitiesData,
    CapabilitiesProgress, CapabilitiesReader,
};
use ddcutil_varlink::ddcutil::{DisplayHandle, Error};
use ddcutil_varlink::device::{
    DdcReply, DdcRequest, HeaderConstants, ParsedCapabilities, RawFeature, RawMetadata, RawValue,
    VcpBytes,
};
use ddcutil_varlink::dpms::{is_dpms_awake, DpmsProgress, DpmsReader};
use ddcutil_varlink::status::{get_status_message, StatusProgress, StatusReader};
use ddcutil_varlink::varlink_impl::convert_capabilities_data;
use ddcutil_varlink::vcp::{
    get_vcp, get_vcp_metadata, join_bytes, set_vcp, VcpProgress, VcpReader,
};

const HANDLE: DisplayHandle = DisplayHandle {
    ddca_handle: 99,
    dref: 7,
};

fn bytes(text: &str) -> Option<Vec<u8>> {
    Some(text.as_bytes().to_vec())
}

fn constants() -> HeaderConstants {
    HeaderConstants {
        ro: 0x0400,
        wo: 0x0200,
        rw: 0x0100,
        complex_cont: 0x0040,
        complex_nc: 0x0010,
        cont: 0x00c0,
        event_display_connected: 2,
        event_display_disconnected: 3,
        event_dpms_awake: 0,
        event_dpms_asleep: 1,
        event_ddc_working: 4,
        event_class_dpms: 1,
        event_class_display_connection: 2,
    }
}

#[test]
fn status_messages_are_composed() {
    assert_eq!(
        get_status_message(0, &bytes("OK"), &bytes("unused"), &None),
        "OK"
    );
    assert_eq!(
        get_status_message(-3007, &bytes("DDCRC_RETRIES"), &bytes("maximum retries"), &None),
        "DDCRC_RETRIES: maximum retries: no details"
    );
    assert_eq!(
        get_status_message(-5, &None, &None, &Some(bytes("bus busy"))),
        "Unknown error code -5: : bus busy"
    );
    assert_eq!(
        get_status_message(3, &bytes("N"), &bytes("D"), &Some(None)),
        "N: D: "
    );
}

#[test]
fn status_zero_needs_its_name_only() {
    let reader = StatusReader::Naming { status: 0 };
    match reader.resume(DdcReply::Name { name: bytes("OK") }) {
        StatusProgress::Done { message } => assert_eq!(message, "OK"),
        _ => panic!("expected the message"),
    }
}

#[test]
fn other_status_is_described_and_detailed() {
    let reader = StatusReader::Naming { status: -9 };
    let (reader, request) = match reader.resume(DdcReply::Name { name: bytes("N") }) {
        StatusProgress::Ask { reader, request } => (reader, request),
        _ => panic!("expected a request"),
    };
    assert!(matches!(request, DdcRequest::StatusDescription { status: -9 }));
    let (reader, request) = match reader.resume(DdcReply::Name { name: bytes("D") }) {
        StatusProgress::Ask { reader, request } => (reader, request),
        _ => panic!("expected a request"),
    };
    assert!(matches!(request, DdcRequest::ErrorDetail));
    let detail = DdcReply::Detail { detail: Some(bytes("x")) };
    assert!(request.answered_by(&detail));
    assert!(!request.answered_by(&DdcReply::Done));
    match reader.resume(detail) {
        StatusProgress::Done { message } => assert_eq!(message, "N: D: x"),
        _ => panic!("expected the message"),
    }
}

fn read_feature(value: VcpBytes, status: i32, text: Option<Vec<u8>>) -> (u16, u16, String) {
    let (reader, request) = VcpReader::start(HANDLE, 0x10);
    assert!(matches!(request, DdcRequest::ReadVcp { handle: HANDLE, code: 0x10 }));
    let (reader, request) = match get_vcp(reader, DdcReply::Value { status: 0, value }) {
        VcpProgress::Ask { reader, request } => (reader, request),
        _ => panic!("expected a request"),
    };
    match request {
        DdcRequest::FormatVcp { code, dref, value: v } => {
            assert_eq!((code, dref), (0x10, 7));
            assert_eq!(v, value);
        }
        _ => panic!("expected to format"),
    }
    match get_vcp(reader, DdcReply::Text { status, text }) {
        VcpProgress::Done { result: Ok(reading) } => {
            (reading.current, reading.maximum, reading.formatted)
        }
        _ => panic!("expected a reading"),
    }
}

#[test]
fn feature_is_read_and_formatted() {
    let value = VcpBytes { mh: 1, ml: 2, sh: 3, sl: 4 };
    assert_eq!(read_feature(value, 0, bytes("50")), (772, 258, "50".to_owned()));
    assert_eq!(read_feature(value, 0, None), (772, 258, String::new()));
    // A text that could not be had is no failure.
    assert_eq!(read_feature(value, -1, bytes("50")), (772, 258, String::new()));
    let most = VcpBytes { mh: 255, ml: 255, sh: 255, sl: 255 };
    assert_eq!(read_feature(most, 0, bytes("")), (65535, 65535, String::new()));
}

#[test]
fn failed_reading_ends() {
    let (reader, _) = VcpReader::start(HANDLE, 0x10);
    let value = VcpBytes { mh: 0, ml: 0, sh: 0, sl: 0 };
    match get_vcp(reader, DdcReply::Value { status: -3007, value }) {
        VcpProgress::Done { result: Err(error) } => assert_eq!(error.status_code(), -3007),
        _ => panic!("expected an error"),
    }
}

#[test]
fn value_is_written_in_two_bytes() {
    for value in [0u16, 1, 255, 256, 0x1234, 65535] {
        match set_vcp(HANDLE, 0x60, value) {
            DdcRequest::WriteVcp { handle, code, high, low } => {
                assert_eq!(handle, HANDLE);
                assert_eq!(code, 0x60);
                assert_eq!((high, low), ((value >> 8) as u8, value as u8));
                assert_eq!(join_bytes(high, low), value);
            }
            _ => panic!("expected to write"),
        }
    }
}

#[test]
fn metadata_flags_are_read() {
    let raw = |flags: u32| RawMetadata {
        feature_flags: flags,
        feature_name: bytes("Brightness"),
        feature_desc: None,
        sl_values: Vec::new(),
    };
    let m = get_vcp_metadata(0, Some(raw(0x0100 | 0x0080)), &constants()).unwrap();
    assert_eq!(m.feature_name, "Brightness");
    assert_eq!(m.description, "");
    assert_eq!(
        (m.is_read_only, m.is_write_only, m.is_rw, m.is_complex, m.is_continuous),
        (false, false, true, false, true)
    );
    let m = get_vcp_metadata(0, Some(raw(0x0400 | 0x0010)), &constants()).unwrap();
    assert_eq!(
        (m.is_read_only, m.is_write_only, m.is_rw, m.is_complex, m.is_continuous),
        (true, false, false, true, false)
    );
    let m = get_vcp_metadata(0, Some(raw(0x0200 | 0x0040)), &constants()).unwrap();
    assert_eq!(
        (m.is_read_only, m.is_write_only, m.is_rw, m.is_complex, m.is_continuous),
        (false, true, false, true, true)
    );
}

#[test]
fn metadata_may_fail() {
    let unnamed = RawMetadata {
        feature_flags: 0,
        feature_name: None,
        feature_desc: bytes("d"),
        sl_values: Vec::new(),
    };
    let m = get_vcp_metadata(0, Some(unnamed), &constants()).unwrap();
    assert_eq!(m.feature_name, "unknown");
    assert_eq!(m.description, "d");
    assert_eq!(
        get_vcp_metadata(-3021, None, &constants()).unwrap_err().status_code(),
        -3021
    );
    assert!(matches!(
        get_vcp_metadata(0, None, &constants()),
        Err(Error::Status(-1))
    ));
}

#[test]
fn model_is_extracted() {
    let model = |text: &str| extract_model(&text.as_bytes().to_vec());
    assert_eq!(
        model("(prot(monitor)type(LCD)model(U2720Q)cmds(01 02))"),
        Some("U2720Q".to_owned())
    );
    assert_eq!(model("model()"), Some(String::new()));
    assert_eq!(model("model(a)model(b)"), Some("a".to_owned()));
    assert_eq!(model("model(model(x)"), Some("model(x".to_owned()));
    assert_eq!(model("model(open"), None);
    assert_eq!(model("nothing here"), None);
    assert_eq!(extract_model(&vec![b'm', 0xff]), None);
}

#[test]
fn feature_names_have_a_fallback() {
    assert_eq!(get_feature_name(0x10, &bytes("Brightness")), "Brightness");
    assert_eq!(get_feature_name(0x0a, &None), "0x0a");
}

fn named(code: u8, name: &str) -> RawValue {
    RawValue { value_code: code, value_name: bytes(name) }
}

fn end() -> RawValue {
    RawValue { value_code: 0, value_name: None }
}

#[test]
fn feature_values_are_looked_up() {
    let raw = RawFeature { feature_code: 0x60, values: vec![0x11, 0x0f, 0x99, 0x12] };
    let metadata = RawMetadata {
        feature_flags: 0,
        feature_name: bytes("Input source"),
        feature_desc: bytes("Selects the input"),
        sl_values: vec![
            named(0x0f, "DisplayPort-1"),
            named(0x11, "HDMI-1"),
            named(0x11, "again"),
            end(),
            named(0x12, "beyond the end"),
        ],
    };
    let feature = describe_feature(&raw, &Some(metadata));
    assert_eq!(feature.code, 0x60);
    assert_eq!(feature.name, "Input source");
    assert_eq!(feature.description, "Selects the input");
    let values: Vec<(u8, &str)> =
        feature.values.iter().map(|v| (v.code, v.name.as_str())).collect();
    assert_eq!(values, vec![(0x11, "HDMI-1"), (0x0f, "DisplayPort-1")]);
    let unknown = describe_feature(&raw, &None);
    assert_eq!(unknown.name, "VCP 0x60");
    assert_eq!(unknown.description, "");
    assert!(unknown.values.is_empty());
}

fn gather(parsed: ParsedCapabilities) -> CapabilitiesData {
    let (mut reader, mut request) = CapabilitiesReader::start(HANDLE);
    let mut parsed = Some(parsed);
    loop {
        let reply = match &request {
            DdcRequest::ReadCapabilities { handle } => {
                assert_eq!(*handle, HANDLE);
                DdcReply::Text { status: 0, text: bytes("(model(M1))") }
            }
            DdcRequest::ParseCapabilities { text } => {
                assert_eq!(text, b"(model(M1))");
                DdcReply::Capabilities { status: 0, parsed: parsed.take() }
            }
            DdcRequest::FeatureName { code } => DdcReply::Name {
                name: if *code == 2 { None } else { bytes("cmd") },
            },
            DdcRequest::FeatureMetadata { code, .. } => {
                if *code == 0x10 {
                    DdcReply::Metadata {
                        status: 0,
                        metadata: Some(RawMetadata {
                            feature_flags: 0,
                            feature_name: bytes("Brightness"),
                            feature_desc: bytes("b"),
                            sl_values: vec![named(1, "one"), end()],
                        }),
                    }
                } else {
                    DdcReply::Metadata { status: -4, metadata: None }
                }
            }
            _ => panic!("unexpected request"),
        };
        assert!(request.answered_by(&reply));
        match get_capabilities_data(reader, reply) {
            CapabilitiesProgress::Ask { reader: r, request: q } => {
                reader = r;
                request = q;
            }
            CapabilitiesProgress::Done { result } => return result.unwrap(),
        }
    }
}

fn parsed() -> ParsedCapabilities {
    ParsedCapabilities {
        major: 2,
        minor: 1,
        cmd_codes: vec![1, 2],
        vcp_codes: vec![
            RawFeature { feature_code: 0x10, values: vec![1, 5] },
            RawFeature { feature_code: 0xdf, values: vec![] },
        ],
    }
}

#[test]
fn capabilities_are_gathered() {
    let data = gather(parsed());
    assert_eq!(data.model_name, "M1");
    assert_eq!((data.mccs_major, data.mccs_minor), (2, 1));
    let commands: Vec<(u8, &str)> =
        data.commands.iter().map(|c| (c.code, c.description.as_str())).collect();
    assert_eq!(commands, vec![(1, "cmd"), (2, "0x02")]);
    assert_eq!(data.features.len(), 2);
    assert_eq!(data.features[0].name, "Brightness");
    assert_eq!(data.features[0].values.len(), 1);
    assert_eq!(data.features[0].values[0].name, "one");
    assert_eq!(data.features[1].name, "VCP 0xdf");
    let empty = gather(ParsedCapabilities {
        major: 0,
        minor: 0,
        cmd_codes: vec![],
        vcp_codes: vec![],
    });
    assert!(empty.commands.is_empty() && empty.features.is_empty());
}

#[test]
fn gathering_may_fail() {
    let fail = |replies: Vec<DdcReply>| {
        let (mut reader, _) = CapabilitiesReader::start(HANDLE);
        for reply in replies {
            match get_capabilities_data(reader, reply) {
                CapabilitiesProgress::Ask { reader: r, .. } => reader = r,
                CapabilitiesProgress::Done { result } => return result.unwrap_err(),
            }
        }
        panic!("expected an error")
    };
    let text = || DdcReply::Text { status: 0, text: bytes("x") };
    assert!(matches!(
        fail(vec![DdcReply::Text { status: -2, text: None }]),
        Error::Status(-2)
    ));
    assert!(matches!(
        fail(vec![DdcReply::Text { status: 0, text: None }]),
        Error::MissingCapabilities
    ));
    assert!(matches!(
        fail(vec![text(), DdcReply::Capabilities { status: -3, parsed: None }]),
        Error::Status(-3)
    ));
    assert!(matches!(
        fail(vec![text(), DdcReply::Capabilities { status: 0, parsed: None }]),
        Error::MissingCapabilities
    ));
}

#[test]
fn capabilities_are_keyed_by_code() {
    let reply = convert_capabilities_data(gather(parsed()));
    assert_eq!(reply.model_name, "M1");
    assert_eq!((reply.mccs_major, reply.mccs_minor), (2, 1));
    assert_eq!(reply.commands.get("01").unwrap(), "cmd");
    assert_eq!(reply.commands.get("02").unwrap(), "0x02");
    assert!(reply.commands.get("03").is_none());
    let feature = reply.capabilities.get("10").unwrap();
    assert_eq!(feature.feature_name, "Brightness");
    assert_eq!(feature.feature_description, "b");
    assert_eq!(feature.values.get("01").unwrap(), "one");
    assert_eq!(reply.capabilities.get("DF").unwrap().feature_name, "VCP 0xdf");
    let mut keys: Vec<String> =
        reply.capabilities.into_entries().into_iter().map(|e| e.key).collect();
    keys.sort();
    assert_eq!(keys, vec!["10".to_owned(), "DF".to_owned()]);
}

#[test]
fn later_entry_of_a_code_counts() {
    let mut data = gather(parsed());
    data.commands[1].code = 1;
    let reply = convert_capabilities_data(data);
    assert_eq!(reply.commands.get("01").unwrap(), "0x02");
    assert_eq!(reply.commands.into_entries().len(), 1);
}

fn dpms(value_status: i32, current: u8) -> (Option<bool>, Vec<&'static str>) {
    let mut calls = Vec::new();
    let (mut reader, mut request) = DpmsReader::start(7);
    loop {
        let reply = match request {
            DdcRequest::OpenDisplay { dref } => {
                assert_eq!(dref, 7);
                calls.push("open");
                DdcReply::Opened { status: 0, ddca_handle: 99 }
            }
            DdcRequest::ReadVcp { code, .. } => {
                assert_eq!(code, 0xd6);
                calls.push("read");
                let value = VcpBytes { mh: 0, ml: 5, sh: 0, sl: current };
                DdcReply::Value { status: value_status, value }
            }
            DdcRequest::FormatVcp { .. } => {
                calls.push("format");
                DdcReply::Text { status: 0, text: None }
            }
            DdcRequest::CloseDisplay { handle } => {
                assert_eq!(handle, HANDLE);
                calls.push("close");
                DdcReply::Done
            }
            _ => panic!("unexpected request"),
        };
        match is_dpms_awake(reader, reply) {
            DpmsProgress::Ask { reader: r, request: q } => {
                reader = r;
                request = q;
            }
            DpmsProgress::Done { result } => return (result.ok(), calls),
        }
    }
}

#[test]
fn power_mode_is_queried() {
    assert_eq!(dpms(0, 1), (Some(true), vec!["open", "read", "format", "close"]));
    assert_eq!(dpms(0, 4).0, Some(true));
    assert_eq!(dpms(0, 0).0, Some(false));
    // The display is closed even if it cannot be read.
    assert_eq!(dpms(-1, 1), (None, vec!["open", "read", "close"]));
}

#[test]
fn power_mode_needs_an_open_display() {
    let (reader, _) = DpmsReader::start(7);
    match is_dpms_awake(reader, DdcReply::Opened { status: -13, ddca_handle: 0 }) {
        DpmsProgress::Done { result } => assert_eq!(result.unwrap_err().status_code(), -13),
        _ => panic!("expected an error"),
    }
}
