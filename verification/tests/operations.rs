use crossbeam_channel::unbounded;
use ddcutil_varlink::ddcutil::{DisplayHandle, DisplayInfo, Error};
use ddcutil_varlink::device::{
    DdcReply, DdcRequest, Double, HeaderConstants, ParsedCapabilities, RawDisplay, RawFeature,
    RawMetadata, VcpBytes,
};
use ddcutil_varlink::events::InternalEventKind;
use ddcutil_varlink::operation::{Operation, Progress, Reply, Step};
use ddcutil_varlink::service::DdcutilService;
use ddcutil_varlink::subscribers::{
    broadcast_to_subscribers, subscribe_to_intneral_events, SubscriberRegistry,
};
use ddcutil_varlink::varlink_impl::{CallOptions, DetectEntry};

fn constants() -> HeaderConstants {
    HeaderConstants {
        ro: 0x0400,
        wo: 0x0200,
        rw: 0x0100,
        complex_cont: 0x0040,
        complex_nc: 0x0010,
        cont: 0x00c0,
        event_display_connected: 2,
        event_display_disconnected: 3,
        event_dpms_awake: 0,
        event_dpms_asleep: 1,
        event_ddc_working: 4,
        event_class_dpms: 1,
        event_class_display_connection: 2,
    }
}

fn display(dref: usize) -> RawDisplay {
    RawDisplay {
        dref,
        dispno: dref as i32,
        mfg_id: *b"DEL\0",
        model_name: *b"U2720Q\0\0\0\0\0\0\0\0",
        sn: [0; 14],
        product_code: 1,
        usb_bus: 0,
        usb_device: 0,
        edid_bytes: [dref as u8; 128],
    }
}

fn edid_of(dref: usize) -> String {
    DetectEntry::from_info(&DisplayInfo::from_raw(&display(dref))).edid_base64
}

fn bytes(text: &str) -> Option<Vec<u8>> {
    Some(text.as_bytes().to_vec())
}

/// A library with the displays 1 and 2, and a feature that keeps what is written.
struct Library {
    list_status: i32,
    redetect_status: i32,
    open_status: i32,
    read_status: i32,
    write_status: i32,
    value: (u8, u8),
    calls: Vec<String>,
}

impl Library {
    fn new() -> Library {
        Library {
            list_status: 0,
            redetect_status: 0,
            open_status: 0,
            read_status: 0,
            write_status: 0,
            value: (0, 50),
            calls: Vec::new(),
        }
    }

    fn perform(&mut self, request: &DdcRequest) -> DdcReply {
        let (call, reply) = match request {
            DdcRequest::Redetect => (
                "redetect".to_owned(),
                DdcReply::Status { status: self.redetect_status },
            ),
            DdcRequest::ListDisplays { include_invalid } => (
                format!("list {}", include_invalid),
                DdcReply::Displays {
                    status: self.list_status,
                    displays: Some(vec![display(1), display(2)]),
                },
            ),
            DdcRequest::OpenDisplay { dref } => (
                format!("open {}", dref),
                DdcReply::Opened { status: self.open_status, ddca_handle: dref + 100 },
            ),
            DdcRequest::CloseDisplay { handle } => {
                let expected = DisplayHandle { ddca_handle: handle.dref + 100, dref: handle.dref };
                assert_eq!(*handle, expected);
                (format!("close {}", handle.dref), DdcReply::Done)
            }
            DdcRequest::ValidateDisplay { dref } => (
                format!("validate {}", dref),
                DdcReply::Status { status: -3024 },
            ),
            DdcRequest::ReadVcp { code, .. } => (
                format!("read {}", code),
                DdcReply::Value {
                    status: self.read_status,
                    value: VcpBytes { mh: 0, ml: 100, sh: self.value.0, sl: self.value.1 },
                },
            ),
            DdcRequest::FormatVcp { code, .. } => (
                format!("format {}", code),
                DdcReply::Text { status: 0, text: bytes("formatted") },
            ),
            DdcRequest::EnableVerify { verify } => (format!("verify {}", verify), DdcReply::Done),
            DdcRequest::WriteVcp { code, high, low, .. } => {
                if self.write_status == 0 {
                    self.value = (*high, *low);
                }
                (
                    format!("write {} {} {}", code, high, low),
                    DdcReply::Status { status: self.write_status },
                )
            }
            DdcRequest::ReadCapabilities { .. } => (
                "capabilities".to_owned(),
                DdcReply::Text { status: self.read_status, text: bytes("(model(M))") },
            ),
            DdcRequest::ParseCapabilities { .. } => (
                "parse".to_owned(),
                DdcReply::Capabilities {
                    status: 0,
                    parsed: Some(ParsedCapabilities {
                        major: 2,
                        minor: 2,
                        cmd_codes: vec![0xe3],
                        vcp_codes: vec![RawFeature { feature_code: 0x10, values: vec![] }],
                    }),
                },
            ),
            DdcRequest::FeatureName { code } => (
                format!("name {}", code),
                DdcReply::Name { name: bytes("Capabilities") },
            ),
            DdcRequest::FeatureMetadata { code, .. } => (
                format!("metadata {}", code),
                DdcReply::Metadata {
                    status: self.read_status,
                    metadata: Some(RawMetadata {
                        feature_flags: 0x0100,
                        feature_name: bytes("Brightness"),
                        feature_desc: bytes("b"),
                        sl_values: vec![],
                    }),
                },
            ),
            DdcRequest::ReadSleepMultiplier { dref } => (
                format!("multiplier {}", dref),
                DdcReply::Multiplier {
                    status: self.read_status,
                    multiplier: Double { bits: 1.5f64.to_bits() },
                },
            ),
            DdcRequest::WriteSleepMultiplier { dref, multiplier } => (
                format!("multiplier {} {}", dref, f64::from_bits(multiplier.bits)),
                DdcReply::Status { status: self.write_status },
            ),
            DdcRequest::StatusName { status } => (
                format!("status {}", status),
                DdcReply::Name { name: bytes("NAME") },
            ),
            DdcRequest::StatusDescription { status } => (
                format!("describe {}", status),
                DdcReply::Name { name: bytes("description") },
            ),
            DdcRequest::ErrorDetail => ("detail".to_owned(), DdcReply::Detail { detail: None }),
            DdcRequest::DynamicSleepEnabled => {
                ("sleep?".to_owned(), DdcReply::Flag { enabled: true })
            }
            DdcRequest::EnableDynamicSleep { enabled } => {
                (format!("sleep {}", enabled), DdcReply::Done)
            }
            DdcRequest::OutputLevel => ("level?".to_owned(), DdcReply::Level { level: 8 }),
            DdcRequest::SetOutputLevel { level } => (format!("level {}", level), DdcReply::Done),
            DdcRequest::Version => ("version".to_owned(), DdcReply::Name { name: bytes("2.2.0") }),
            _ => panic!("unexpected request"),
        };
        self.calls.push(call);
        assert!(request.answered_by(&reply));
        reply
    }

    /// Runs an operation to its end, and gives its reply.
    fn run(&mut self, begun: (Operation, Step)) -> Result<Reply, Error> {
        let (mut operation, mut step) = begun;
        let mut reply = None;
        loop {
            let input = match step {
                Step::Ask { request } => self.perform(&request),
                Step::Broadcast { event } => {
                    assert_eq!(event.kind, InternalEventKind::VcpChange);
                    self.calls.push(event.data);
                    DdcReply::Done
                }
                Step::Reply { reply: r } => {
                    assert!(reply.is_none());
                    self.calls.push("reply".to_owned());
                    reply = Some(r);
                    DdcReply::Done
                }
            };
            match operation.resume(input) {
                Progress::Step { operation: o, step: s } => {
                    operation = o;
                    step = s;
                }
                Progress::Finished => return Ok(reply.unwrap()),
                Progress::Failed { error } => return Err(error),
            }
        }
    }
}

fn service() -> DdcutilService {
    DdcutilService::new(None)
}

#[test]
fn displays_are_detected() {
    let mut library = Library::new();
    match library.run(service().detect(true)).unwrap() {
        Reply::Detected { count, entries } => {
            assert_eq!(count, 2);
            assert_eq!(entries[1].display_ref, 2);
            assert_eq!(entries[1].edid_base64, edid_of(2));
        }
        _ => panic!("expected displays"),
    }
    assert_eq!(library.calls, vec!["redetect", "list true", "reply"]);
}

#[test]
fn failed_detection_is_replied() {
    let mut library = Library::new();
    library.redetect_status = -42;
    match library.run(service().detect(false)).unwrap() {
        Reply::DetectError { status, message } => {
            assert_eq!(status, -42);
            assert_eq!(message, "Detect failed: DDC/CI error: -42");
        }
        _ => panic!("expected an error"),
    }
    assert_eq!(library.calls, vec!["redetect", "reply"]);
}

#[test]
fn failed_list_fails_the_call() {
    let mut library = Library::new();
    library.list_status = -9;
    assert_eq!(library.run(service().list_detected(false)).err().unwrap().status_code(), -9);
    assert_eq!(library.calls, vec!["list false"]);
    let mut library = Library::new();
    assert!(matches!(
        library.run(service().list_detected(false)),
        Ok(Reply::Detected { count: 2, .. })
    ));
}

#[test]
fn settings_of_the_library_are_asked_for() {
    let mut library = Library::new();
    assert!(matches!(
        library.run(service().get_ddcutil_dynamic_sleep()),
        Ok(Reply::Flag { enabled: true })
    ));
    assert!(matches!(
        library.run(service().get_ddcutil_output_level()),
        Ok(Reply::Level { level: 8 })
    ));
    match library.run(service().get_ddcutil_version()).unwrap() {
        Reply::Text { text } => assert_eq!(text, "2.2.0"),
        _ => panic!("expected a text"),
    }
    assert!(matches!(
        library.run(service().set_ddcutil_dynamic_sleep(false).ok().unwrap()),
        Ok(Reply::Empty)
    ));
    assert!(matches!(
        library.run(service().set_ddcutil_output_level(4294967299).ok().unwrap()),
        Ok(Reply::Empty)
    ));
    assert_eq!(
        library.calls,
        vec![
            "sleep?", "reply", "level?", "reply", "version", "reply", "sleep false", "reply",
            "level 3", "reply",
        ]
    );
}

#[test]
fn state_of_a_display_is_put_in_words() {
    let mut library = Library::new();
    match library.run(service().get_display_state(Some(2), None, None)).unwrap() {
        Reply::DisplayState { status, message } => {
            assert_eq!(status, -3024);
            assert_eq!(message, "NAME: description: no details");
        }
        _ => panic!("expected a state"),
    }
    assert_eq!(
        library.calls,
        vec!["list false", "validate 2", "status -3024", "describe -3024", "detail", "reply"]
    );
}

#[test]
fn feature_of_a_display_is_read() {
    let mut library = Library::new();
    let options = Some(CallOptions { allow_edid_prefix: Some(true), skip_verify: None });
    let prefix = edid_of(2)[..6].to_owned();
    match library.run(service().get_vcp(None, Some(prefix), 0x110, options)).unwrap() {
        Reply::Value { current, maximum, formatted } => {
            assert_eq!((current, maximum), (50, 100));
            assert_eq!(formatted, "formatted");
        }
        _ => panic!("expected a value"),
    }
    // The code is reduced to eight bits.
    assert_eq!(
        library.calls,
        vec!["list true", "open 2", "read 16", "format 16", "close 2", "reply"]
    );
}

#[test]
fn failed_reading_is_explained_after_closing() {
    let mut library = Library::new();
    library.read_status = -3007;
    match library.run(service().get_vcp(Some(1), None, 16, None)).unwrap() {
        Reply::DdcError { error } => {
            assert_eq!(error.display_ref, -1);
            assert_eq!(error.display_number, 1);
            assert_eq!(error.edid_base64, "");
            assert_eq!(error.vcp_code, 16);
            assert_eq!(error.status, -3007);
            assert_eq!(error.message, "NAME: description: no details");
        }
        _ => panic!("expected an error"),
    }
    assert_eq!(
        library.calls,
        vec![
            "list false", "open 1", "read 16", "close 1", "status -3007", "describe -3007",
            "detail", "reply",
        ]
    );
}

#[test]
fn display_that_is_not_there_is_replied() {
    let mut library = Library::new();
    match library.run(service().get_vcp(None, Some("zz".to_owned()), 16, None)).unwrap() {
        Reply::DdcError { error } => {
            assert_eq!(error.display_number, -1);
            assert_eq!(error.edid_base64, "zz");
            assert_eq!(error.vcp_code, 16);
            assert_eq!(error.status, -1);
            assert_eq!(error.message, "Display not found");
        }
        _ => panic!("expected an error"),
    }
    assert_eq!(library.calls, vec!["list false", "reply"]);
    match library.run(service().get_capabilities_string(None, None, None)).unwrap() {
        Reply::DdcError { error } => {
            assert_eq!(error.vcp_code, -1);
            assert_eq!(error.message, "No Display_Number or EDID supplied");
        }
        _ => panic!("expected an error"),
    }
}

#[test]
fn display_that_cannot_be_opened_is_replied() {
    let mut library = Library::new();
    library.open_status = -13;
    match library.run(service().get_multiple_vcp(Some(1), None, vec![16], None)).unwrap() {
        Reply::DdcError { error } => {
            assert_eq!(error.status, -13);
            assert_eq!(error.vcp_code, -1);
        }
        _ => panic!("expected an error"),
    }
    assert_eq!(
        library.calls,
        vec!["list false", "open 1", "status -13", "describe -13", "detail", "reply"]
    );
}

#[test]
fn several_features_are_read_in_order() {
    let mut library = Library::new();
    let codes = vec![18i64, 16, 18];
    match library.run(service().get_multiple_vcp(Some(1), None, codes.clone(), None)).unwrap() {
        Reply::Values { values } => {
            let told: Vec<i64> = values.iter().map(|v| v.vcp_code).collect();
            assert_eq!(told, codes);
            assert_eq!(values[0].current, 50);
            assert_eq!(values[0].maximum, 100);
            assert_eq!(values[0].formatted, "formatted");
        }
        _ => panic!("expected values"),
    }
    // The display is closed after the reply.
    assert_eq!(
        library.calls,
        vec![
            "list false", "open 1", "read 18", "format 18", "read 16", "format 16", "read 18",
            "format 18", "reply", "close 1",
        ]
    );
    let mut library = Library::new();
    match library.run(service().get_multiple_vcp(Some(1), None, vec![], None)).unwrap() {
        Reply::Values { values } => assert!(values.is_empty()),
        _ => panic!("expected values"),
    }
    assert_eq!(library.calls, vec!["list false", "open 1", "reply", "close 1"]);
}

#[test]
fn failure_among_several_features_is_replied_before_closing() {
    let mut library = Library::new();
    library.read_status = -5;
    match library.run(service().get_multiple_vcp(Some(1), None, vec![18, 16], None)).unwrap() {
        Reply::DdcError { error } => {
            assert_eq!(error.vcp_code, 18);
            assert_eq!(error.status, -5);
        }
        _ => panic!("expected an error"),
    }
    assert_eq!(
        library.calls,
        vec![
            "list false", "open 1", "read 18", "status -5", "describe -5", "detail", "reply",
            "close 1",
        ]
    );
}

#[test]
fn capabilities_of_a_display_are_replied() {
    let mut library = Library::new();
    match library.run(service().get_capabilities_metadata(Some(1), None, None)).unwrap() {
        Reply::Capabilities { capabilities } => {
            assert_eq!(capabilities.model_name, "M");
            assert_eq!(capabilities.commands.get("E3").unwrap(), "Capabilities");
            assert_eq!(capabilities.capabilities.get("10").unwrap().feature_name, "Brightness");
        }
        _ => panic!("expected capabilities"),
    }
    assert_eq!(
        library.calls,
        vec![
            "list false", "open 1", "capabilities", "parse", "name 227", "metadata 16",
            "close 1", "reply",
        ]
    );
    let mut library = Library::new();
    match library.run(service().get_capabilities_string(Some(1), None, None)).unwrap() {
        Reply::Text { text } => assert_eq!(text, "(model(M))"),
        _ => panic!("expected a text"),
    }
    assert_eq!(library.calls, vec!["list false", "open 1", "capabilities", "close 1", "reply"]);
}

#[test]
fn metadata_of_a_feature_is_replied() {
    let mut library = Library::new();
    let begun = service().get_vcp_metadata(Some(1), None, 16, None, &constants());
    match library.run(begun).unwrap() {
        Reply::Metadata { metadata } => {
            assert_eq!(metadata.feature_name, "Brightness");
            assert!(metadata.is_rw);
            assert!(!metadata.is_read_only);
        }
        _ => panic!("expected metadata"),
    }
    assert_eq!(library.calls, vec!["list false", "open 1", "metadata 16", "close 1", "reply"]);
    library.read_status = -6;
    let begun = service().get_vcp_metadata(Some(1), None, 16, None, &constants());
    match library.run(begun).unwrap() {
        // The code is not part of this error.
        Reply::DdcError { error } => assert_eq!((error.status, error.vcp_code), (-6, -1)),
        _ => panic!("expected an error"),
    }
}

#[test]
fn sleep_multiplier_is_read_and_set() {
    let mut library = Library::new();
    match library.run(service().get_sleep_multiplier(Some(2), None, None)).unwrap() {
        Reply::Multiplier { multiplier } => assert_eq!(f64::from_bits(multiplier.bits), 1.5),
        _ => panic!("expected a multiplier"),
    }
    let two = Double { bits: 2.0f64.to_bits() };
    let begun = service().set_sleep_multiplier(Some(2), None, two, None).ok().unwrap();
    assert!(matches!(library.run(begun), Ok(Reply::Empty)));
    assert_eq!(
        library.calls,
        vec!["list false", "multiplier 2", "reply", "list false", "multiplier 2 2", "reply"]
    );
    library.write_status = -1;
    library.read_status = -2;
    let begun = service().set_sleep_multiplier(Some(2), None, two, None).ok().unwrap();
    assert!(matches!(library.run(begun), Ok(Reply::DdcError { .. })));
    assert!(matches!(
        library.run(service().get_sleep_multiplier(Some(2), None, None)),
        Ok(Reply::DdcError { .. })
    ));
}

#[test]
fn feature_is_written_and_told() {
    let mut library = Library::new();
    let begun = service()
        .set_vcp(Some(1), None, 16, 0x0205, Some("me".to_owned()), None)
        .ok()
        .unwrap();
    assert!(matches!(library.run(begun), Ok(Reply::Empty)));
    assert_eq!(
        library.calls,
        vec![
            "list false",
            "open 1",
            "verify true",
            "write 16 2 5",
            "{\"client_context\":\"me\",\"display_number\":1,\"edid_base64\":null,\
             \"event_type\":\"VcpChange\",\"new_value\":517,\"origin\":\"ddcutil-varlink\",\
             \"vcp_code\":16}",
            "close 1",
            "reply",
        ]
    );
}

#[test]
fn failed_writing_is_not_told() {
    let mut library = Library::new();
    library.write_status = -3;
    let options = Some(CallOptions { allow_edid_prefix: None, skip_verify: Some(true) });
    let begun = service().set_vcp(Some(1), None, 16, 7, None, options).ok().unwrap();
    match library.run(begun).unwrap() {
        Reply::DdcError { error } => assert_eq!((error.status, error.vcp_code), (-3, 16)),
        _ => panic!("expected an error"),
    }
    assert_eq!(
        library.calls,
        vec![
            "list false", "open 1", "verify false", "write 16 0 7", "close 1", "status -3",
            "describe -3", "detail", "reply",
        ]
    );
}

#[test]
fn written_value_is_read_back() {
    for value in [0i64, 1, 255, 256, 40000, 65535] {
        let mut library = Library::new();
        let begun = service().set_vcp(Some(1), None, 16, value, None, None).ok().unwrap();
        assert!(matches!(library.run(begun), Ok(Reply::Empty)));
        match library.run(service().get_vcp(Some(1), None, 16, None)).unwrap() {
            Reply::Value { current, .. } => assert_eq!(current, value),
            _ => panic!("expected a value"),
        }
    }
    // Only 16 bits are written.
    let mut library = Library::new();
    let begun = service().set_vcp(Some(1), None, 16, 65537, None, None).ok().unwrap();
    assert!(matches!(library.run(begun), Ok(Reply::Empty)));
    assert_eq!(library.value, (0, 1));
}

#[test]
fn step_calls_for_one_form() {
    let (_, step) = service().detect(false);
    assert!(step.answered_by(&DdcReply::Status { status: 0 }));
    assert!(!step.answered_by(&DdcReply::Done));
    let step = Step::Reply { reply: Reply::Empty };
    assert!(step.answered_by(&DdcReply::Done));
    assert!(!step.answered_by(&DdcReply::Status { status: 0 }));
}

#[test]
fn every_subscriber_is_told_of_a_write() {
    let mut registry = SubscriberRegistry::new();
    let (first, at_first) = unbounded();
    let (second, at_second) = unbounded();
    subscribe_to_intneral_events(&mut registry, first);
    subscribe_to_intneral_events(&mut registry, second);
    let mut library = Library::new();
    let (mut operation, mut step) =
        service().set_vcp(Some(2), Some(String::new()), 16, 50, None, None).ok().unwrap();
    let mut replies = 0;
    loop {
        let input = match step {
            Step::Ask { request } => library.perform(&request),
            Step::Broadcast { event } => {
                assert!(broadcast_to_subscribers(&mut registry, event).is_empty());
                DdcReply::Done
            }
            Step::Reply { reply } => {
                assert!(matches!(reply, Reply::Empty));
                replies += 1;
                DdcReply::Done
            }
        };
        match operation.resume(input) {
            Progress::Step { operation: o, step: s } => {
                operation = o;
                step = s;
            }
            Progress::Finished => break,
            Progress::Failed { .. } => panic!("expected to finish"),
        }
    }
    assert_eq!(replies, 1);
    assert_eq!(
        library.calls,
        vec!["list false", "open 2", "verify true", "write 16 0 50", "close 2"]
    );
    for receiver in [at_first, at_second] {
        let event = receiver.recv().unwrap();
        assert_eq!(event.kind, InternalEventKind::VcpChange);
        assert_eq!(
            event.data,
            "{\"client_context\":\"\",\"display_number\":2,\"edid_base64\":\"\",\
             \"event_type\":\"VcpChange\",\"new_value\":50,\"origin\":\"ddcutil-varlink\",\
             \"vcp_code\":16}"
        );
        assert!(receiver.try_recv().is_err());
    }
}
