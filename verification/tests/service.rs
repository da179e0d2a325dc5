use ddcutil_varlink::device::{
    DdcReply, DdcRequest, Double, HeaderConstants, HALF_BITS,
};
use ddcutil_varlink::events::{InternalEvent, InternalEventKind};
use ddcutil_varlink::methods::Refusal;
use ddcutil_varlink::poller::PollConfig;
use ddcutil_varlink::service::{
    is_redetect_wanted, DdcutilService, ServiceSharedState, StartupPlan, StartupStage, StartupStep,
};
use ddcutil_varlink::subscription::{
    subscribe, Stream, StreamAction, StreamEvent, StreamInput,
};
use ddcutil_varlink::textmap::TextMap;
use ddcutil_varlink::varlink_impl::{is_edid_prefix_allowed, is_setvcp_verifying, CallOptions};

fn constants() -> HeaderConstants {
    HeaderConstants {
        ro: 0x0400,
        wo: 0x0200,
        rw: 0x0100,
        complex_cont: 0x0040,
        complex_nc: 0x0010,
        cont: 0x00c0,
        event_display_connected: 2,
        event_display_disconnected: 3,
        event_dpms_awake: 0,
        event_dpms_asleep: 1,
        event_ddc_working: 4,
        event_class_dpms: 1,
        event_class_display_connection: 2,
    }
}

fn double(x: f64) -> Double {
    Double { bits: x.to_bits() }
}

#[test]
fn redetection_is_asked_for_by_environment() {
    let asks = |value: &str| ServiceSharedState::from_environment(Some(value)).poll_do_redetect;
    assert!(asks("true"));
    assert!(asks("TRUE"));
    assert!(asks("True"));
    assert!(asks("1"));
    assert!(!asks("false"));
    assert!(!asks("0"));
    assert!(!asks("yes"));
    assert!(!asks(""));
    assert!(!asks(" true"));
    assert!(!ServiceSharedState::from_environment(None).poll_do_redetect);
    assert!(is_redetect_wanted("TRUE", "true"));
    assert!(!is_redetect_wanted("TRUE", "TRUE"));
    assert!(is_redetect_wanted("1", "1"));
}

#[test]
fn service_starts_with_defaults() {
    let service = DdcutilService::new(Some("1"));
    assert!(!service.configuration_locked);
    assert_eq!(
        service.state.poll_config(),
        PollConfig {
            interval: 30,
            cascade: Double { bits: HALF_BITS },
            do_redetect: true,
            events_enabled: false,
        }
    );
    assert_eq!(service.get_service_poll_interval(), 30);
    assert_eq!(service.get_service_poll_cascade_interval(), double(0.5));
    assert_eq!(service.get_service_interface_version(), "1.0.0");
}

#[test]
fn events_are_enabled_once() {
    let mut service = DdcutilService::new(None);
    assert!(matches!(
        service.set_events_enabled(true, &constants()),
        Some(DdcRequest::StartWatch { classes: 3 })
    ));
    assert!(service.state.events_enabled);
    assert!(service.set_events_enabled(true, &constants()).is_none());
    assert!(matches!(
        service.set_events_enabled(false, &constants()),
        Some(DdcRequest::StopWatch { wait: false })
    ));
    // To disable events stops the watch even if they were not enabled.
    assert!(service.set_events_enabled(false, &constants()).is_some());
    assert!(!service.state.events_enabled);
}

#[test]
fn poll_interval_is_checked() {
    let mut service = DdcutilService::new(None);
    for bad in [-1i64, i64::MIN, 1, 9] {
        assert_eq!(service.set_service_poll_interval(bad), Err(Refusal::InvalidPollInterval));
        assert_eq!(service.get_service_poll_interval(), 30);
    }
    for good in [0i64, 10, 3600, 4294967295] {
        assert_eq!(service.set_service_poll_interval(good), Ok(()));
        assert_eq!(service.get_service_poll_interval(), good);
    }
    // Only 32 bits are kept.
    assert_eq!(service.set_service_poll_interval(4294967301), Ok(()));
    assert_eq!(service.get_service_poll_interval(), 5);
}

#[test]
fn cascade_interval_is_checked() {
    let mut service = DdcutilService::new(None);
    for bad in [-0.5, 0.5, 0.999] {
        assert_eq!(
            service.set_service_poll_cascade_interval(double(bad)),
            Err(Refusal::InvalidPollInterval)
        );
        assert_eq!(service.get_service_poll_cascade_interval(), double(0.5));
    }
    for good in [0.0, 1.0, 7.25] {
        assert_eq!(service.set_service_poll_cascade_interval(double(good)), Ok(()));
        assert_eq!(service.get_service_poll_cascade_interval(), double(good));
    }
}

#[test]
fn locked_configuration_is_not_changed() {
    let mut service = DdcutilService::new(None);
    service.configuration_locked = true;
    let before = service;
    assert_eq!(service.set_service_poll_interval(60), Err(Refusal::ConfigurationLocked));
    assert_eq!(service.set_service_poll_interval(-1), Err(Refusal::ConfigurationLocked));
    assert_eq!(
        service.set_service_poll_cascade_interval(double(2.0)),
        Err(Refusal::ConfigurationLocked)
    );
    assert!(service.set_vcp(Some(1), None, 16, 50, None, None).is_err());
    assert!(service.set_sleep_multiplier(Some(1), None, double(1.0), None).is_err());
    assert!(service.set_ddcutil_dynamic_sleep(true).is_err());
    assert!(service.set_ddcutil_output_level(1).is_err());
    assert_eq!(service, before);
    assert_eq!(Refusal::ConfigurationLocked.as_str(), "ConfigurationLocked");
    assert_eq!(Refusal::InvalidPollInterval.as_str(), "InvalidPollInterval");
}

#[test]
fn options_have_defaults() {
    let options = |prefix, skip| {
        Some(CallOptions { allow_edid_prefix: prefix, skip_verify: skip })
    };
    assert!(!is_edid_prefix_allowed(&None));
    assert!(!is_edid_prefix_allowed(&options(None, Some(true))));
    assert!(!is_edid_prefix_allowed(&options(Some(false), None)));
    assert!(is_edid_prefix_allowed(&options(Some(true), None)));
    assert!(is_setvcp_verifying(&None));
    assert!(is_setvcp_verifying(&options(Some(true), None)));
    assert!(is_setvcp_verifying(&options(None, Some(false))));
    assert!(!is_setvcp_verifying(&options(None, Some(true))));
}

fn start(plan: StartupPlan, fail_at: Option<StartupStage>) -> (Vec<StartupStage>, StartupStep) {
    let mut stages = Vec::new();
    let mut stage = StartupStage::Initializing;
    let mut request = stage.make_request();
    loop {
        stages.push(stage);
        let status = if fail_at == Some(stage) { -7 } else { 0 };
        let reply = match request {
            DdcRequest::ListDisplays { include_invalid: false } => {
                DdcReply::Displays { status, displays: Some(Vec::new()) }
            }
            _ => DdcReply::Status { status },
        };
        match stage.resume(plan, reply) {
            StartupStep::Ask { stage: s, request: r } => {
                stage = s;
                request = r;
            }
            end => return (stages, end),
        }
    }
}

#[test]
fn start_takes_its_stages() {
    let (stages, end) = start(StartupPlan::Service { diagnose: false }, None);
    assert_eq!(stages, vec![StartupStage::Initializing, StartupStage::Registering]);
    assert!(matches!(end, StartupStep::Ready { callback: Ok(()) }));
    let (stages, _) = start(StartupPlan::Service { diagnose: true }, None);
    assert_eq!(
        stages,
        vec![
            StartupStage::Initializing,
            StartupStage::Redetecting,
            StartupStage::Listing,
            StartupStage::Registering,
        ]
    );
    let (stages, _) = start(StartupPlan::Library, None);
    assert_eq!(
        stages,
        vec![StartupStage::Initializing, StartupStage::Redetecting, StartupStage::Registering]
    );
}

#[test]
fn start_may_fail_but_for_the_callback() {
    for stage in [StartupStage::Initializing, StartupStage::Redetecting, StartupStage::Listing] {
        let (_, end) = start(StartupPlan::Service { diagnose: true }, Some(stage));
        match end {
            StartupStep::Failed { stage: s, error } => {
                assert_eq!(s, stage);
                assert_eq!(error.status_code(), -7);
            }
            _ => panic!("expected a failure"),
        }
    }
    let (_, end) = start(StartupPlan::Library, Some(StartupStage::Registering));
    assert!(matches!(end, StartupStep::Ready { callback: Err(_) }));
}

fn event(data: &str) -> InternalEvent {
    InternalEvent { kind: InternalEventKind::DpmsAwake, data: data.to_owned() }
}

/// Runs a stream on the given events; the client takes so many replies.
fn run_stream(use_polling: bool, events: Vec<&str>, takes: usize) -> Vec<String> {
    let mut log = Vec::new();
    let mut events = events.into_iter();
    let mut taken = 0;
    let (mut stream, mut action) = subscribe(use_polling);
    loop {
        let input = match &action {
            StreamAction::StartPolling => {
                log.push("start".to_owned());
                StreamInput::Done
            }
            StreamAction::StopPolling => {
                log.push("stop".to_owned());
                StreamInput::Done
            }
            StreamAction::EnableEvents => {
                log.push("enable".to_owned());
                StreamInput::Done
            }
            StreamAction::Reply { event, continues } => {
                let text = match event {
                    StreamEvent::ServiceInitialized { data } => format!("initialized {}", data),
                    StreamEvent::Internal { event } => event.data.clone(),
                    StreamEvent::StreamClosed { data } => format!("closed {}", data),
                };
                assert_eq!(*continues, !text.starts_with("closed"));
                log.push(text);
                taken += 1;
                StreamInput::Sent { delivered: taken <= takes }
            }
            StreamAction::Register => {
                log.push("register".to_owned());
                StreamInput::Registered { id: 5 }
            }
            StreamAction::Receive => StreamInput::Received { event: events.next().map(event) },
            StreamAction::Unregister { id } => {
                log.push(format!("unregister {}", id));
                StreamInput::Done
            }
            StreamAction::End => return log,
        };
        assert!(action.answered_by(&input));
        let (next, then) = stream.resume(input);
        stream = next;
        action = then;
    }
}

#[test]
fn stream_hands_events_on() {
    assert_eq!(
        run_stream(true, vec!["a", "b"], 10),
        vec![
            "start",
            "enable",
            "initialized {}",
            "register",
            "a",
            "b",
            "unregister 5",
            "closed {}",
        ]
    );
}

#[test]
fn stream_ends_with_its_client() {
    assert_eq!(
        run_stream(false, vec!["a", "b", "c"], 2),
        vec![
            "stop",
            "enable",
            "initialized {}",
            "register",
            "a",
            "b",
            "unregister 5",
            "closed {}",
        ]
    );
    assert_eq!(run_stream(true, vec!["a"], 0), vec!["start", "enable", "initialized {}"]);
}

#[test]
fn action_of_a_stream_calls_for_one_form() {
    let (stream, action) = subscribe(true);
    assert_eq!(stream, Stream::Polling);
    assert!(!action.answered_by(&StreamInput::Sent { delivered: true }));
    assert!(!StreamAction::End.answered_by(&StreamInput::Done));
    assert!(!StreamAction::Receive.answered_by(&StreamInput::Registered { id: 1 }));
}

#[test]
fn text_map_keeps_one_value_per_key() {
    let mut map: TextMap<u8> = TextMap::new();
    assert!(map.get("a").is_none());
    map.insert("a".to_owned(), 1);
    map.insert("b".to_owned(), 2);
    map.insert("a".to_owned(), 3);
    assert_eq!(map.get("a"), Some(&3));
    assert_eq!(map.get("b"), Some(&2));
    let mut entries: Vec<(String, u8)> =
        map.into_entries().into_iter().map(|e| (e.key, e.value)).collect();
    entries.sort();
    assert_eq!(entries, vec![("a".to_owned(), 3), ("b".to_owned(), 2)]);
}
