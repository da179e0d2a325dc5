use ddcutil_varlink::controller::{Ddcutil, DdcutilConfig};
use ddcutil_varlink::ddcutil::DisplayHandle;
use ddcutil_varlink::device::{
    DdcReply, DdcRequest, Double, HeaderConstants, RawDisplay, VcpBytes, HALF_BITS,
};
use ddcutil_varlink::poller::{
    begin_sleep, polling_loop, polling_task, sleep_interruptible, PollAction, PollConfig,
    PollInput, PollPolicy, PollWait, Poller, SleepStep, IDLE_SECONDS,
};
use ddcutil_varlink::service::{DdcutilService, StopPolling};

const CASCADE: Double = Double { bits: HALF_BITS };

fn constants() -> HeaderConstants {
    HeaderConstants {
        ro: 0x0400,
        wo: 0x0200,
        rw: 0x0100,
        complex_cont: 0x0040,
        complex_nc: 0x0010,
        cont: 0x00c0,
        event_display_connected: 2,
        event_display_disconnected: 3,
        event_dpms_awake: 0,
        event_dpms_asleep: 1,
        event_ddc_working: 4,
        event_class_dpms: 1,
        event_class_display_connection: 2,
    }
}

fn config() -> PollConfig {
    PollConfig { interval: 30, cascade: CASCADE, do_redetect: false, events_enabled: true }
}

fn display(dref: usize) -> RawDisplay {
    RawDisplay {
        dref,
        dispno: dref as i32,
        mfg_id: *b"DEL\0",
        model_name: [0; 14],
        sn: [0; 14],
        product_code: 1,
        usb_bus: 0,
        usb_device: 0,
        edid_bytes: [dref as u8; 128],
    }
}

/// The displays that are there, each with its power mode. A display without one
/// cannot be opened.
type World = Vec<(usize, Option<u8>)>;

fn answer(request: &DdcRequest, world: &World) -> DdcReply {
    match request {
        DdcRequest::Redetect => DdcReply::Status { status: 0 },
        DdcRequest::ListDisplays { include_invalid } => {
            assert!(!include_invalid);
            let displays = world.iter().map(|(dref, _)| display(*dref)).collect();
            DdcReply::Displays { status: 0, displays: Some(displays) }
        }
        DdcRequest::OpenDisplay { dref } => {
            let (_, mode) = world.iter().find(|(d, _)| d == dref).unwrap();
            match mode {
                Some(_) => DdcReply::Opened { status: 0, ddca_handle: dref + 100 },
                None => DdcReply::Opened { status: -13, ddca_handle: 0 },
            }
        }
        DdcRequest::ReadVcp { handle, code } => {
            assert_eq!(*code, 0xd6);
            let (_, mode) = world.iter().find(|(d, _)| *d == handle.dref).unwrap();
            let value = VcpBytes { mh: 0, ml: 5, sh: 0, sl: mode.unwrap() };
            DdcReply::Value { status: 0, value }
        }
        DdcRequest::FormatVcp { .. } => DdcReply::Text { status: 0, text: None },
        DdcRequest::CloseDisplay { handle } => {
            assert_eq!(
                *handle,
                DisplayHandle { ddca_handle: handle.dref + 100, dref: handle.dref }
            );
            DdcReply::Done
        }
        _ => panic!("unexpected request"),
    }
}

/// Runs a pass of the loop until it sleeps or ends, and records what it did.
fn pass(
    poller: Poller,
    action: PollAction,
    config: PollConfig,
    world: &World,
) -> (Poller, PollAction, Vec<String>) {
    let mut poller = poller;
    let mut action = action;
    let mut log: Vec<String> = Vec::new();
    loop {
        let input = match &action {
            PollAction::CheckShutdown => PollInput::Shutdown { requested: false },
            PollAction::ReadConfig => {
                log.push("lock".to_owned());
                PollInput::Config { config }
            }
            PollAction::ClearNeedPoll => {
                log.push("clear".to_owned());
                PollInput::Done
            }
            PollAction::Ddc { request } => {
                if matches!(request, DdcRequest::Redetect) {
                    log.push("redetect".to_owned());
                }
                PollInput::Ddc { reply: answer(request, world) }
            }
            PollAction::Unlock => {
                log.push("unlock".to_owned());
                PollInput::Done
            }
            PollAction::Send { event } => {
                log.push(event.kind.as_str().to_owned());
                PollInput::Done
            }
            PollAction::Sleep { wait } => {
                log.push(match wait {
                    PollWait::Seconds(seconds) => format!("sleep {}", seconds),
                    PollWait::Cascade(_) => "sleep cascade".to_owned(),
                });
                PollInput::Done
            }
            PollAction::Stop => {
                log.push("stop".to_owned());
                return (poller, action, log);
            }
        };
        assert!(action.answered_by(&input));
        let asleep = matches!(action, PollAction::Sleep { .. });
        let (next, then) = match poller.policy {
            PollPolicy::Service => polling_loop(poller, input),
            PollPolicy::Library => polling_task(poller, input),
        };
        poller = next;
        action = then;
        if asleep {
            return (poller, action, log);
        }
    }
}

#[test]
fn service_sets_the_scene_first() {
    let (poller, action) = Poller::new(PollPolicy::Service);
    let (poller, action, log) = pass(poller, action, config(), &vec![(1, Some(1))]);
    assert_eq!(log, vec!["lock", "unlock", "sleep cascade"]);
    let (poller, action, log) = pass(poller, action, config(), &vec![(1, Some(1))]);
    assert_eq!(log, vec!["lock", "unlock", "sleep 30"]);
    let (poller, action, log) = pass(poller, action, config(), &vec![(1, Some(0)), (2, Some(1))]);
    assert_eq!(
        log,
        vec!["lock", "unlock", "ConnectedDisplaysChanged", "DpmsAsleep", "sleep cascade"]
    );
    let (_, _, log) = pass(poller, action, config(), &vec![(2, None)]);
    assert_eq!(
        log,
        vec!["lock", "unlock", "ConnectedDisplaysChanged", "DpmsAsleep", "sleep cascade"]
    );
}

#[test]
fn library_reports_its_first_look() {
    let (poller, action) = Poller::new(PollPolicy::Library);
    let (poller, action, log) = pass(poller, action, config(), &vec![(1, Some(1))]);
    assert_eq!(
        log,
        vec!["lock", "unlock", "clear", "redetect", "ConnectedDisplaysChanged", "sleep cascade"]
    );
    let (_, _, log) = pass(poller, action, config(), &vec![(1, Some(0))]);
    assert_eq!(log, vec!["lock", "unlock", "clear", "redetect", "DpmsAsleep", "sleep 30"]);
}

#[test]
fn service_redetects_if_told_to() {
    let (poller, action) = Poller::new(PollPolicy::Service);
    let told = PollConfig { do_redetect: true, ..config() };
    let (_, _, log) = pass(poller, action, told, &vec![]);
    assert_eq!(log, vec!["lock", "redetect", "unlock", "sleep 30"]);
}

#[test]
fn loop_idles_without_events() {
    let quiet = PollConfig { events_enabled: false, ..config() };
    let (poller, action) = Poller::new(PollPolicy::Service);
    let (_, _, log) = pass(poller, action, quiet, &vec![(1, Some(1))]);
    assert_eq!(log, vec!["lock", "unlock", "sleep 5"]);
    let (poller, action) = Poller::new(PollPolicy::Library);
    let (_, _, log) = pass(poller, action, quiet, &vec![(1, Some(1))]);
    assert_eq!(log, vec!["lock", "unlock", "clear", "sleep 5"]);
    assert_eq!(IDLE_SECONDS, 5);
}

#[test]
fn interval_of_zero_ends_the_service_loop() {
    let ended = PollConfig { interval: 0, ..config() };
    let (poller, action) = Poller::new(PollPolicy::Service);
    let (_, _, log) = pass(poller, action, ended, &vec![]);
    assert_eq!(log, vec!["lock", "unlock", "stop"]);
    let (poller, action) = Poller::new(PollPolicy::Library);
    let (_, _, log) = pass(poller, action, ended, &vec![]);
    assert_eq!(log, vec!["lock", "unlock", "clear", "redetect", "sleep 0"]);
}

#[test]
fn loop_ends_when_told() {
    let (poller, action) = Poller::new(PollPolicy::Service);
    assert!(matches!(action, PollAction::CheckShutdown));
    let (_, action) = polling_loop(poller, PollInput::Shutdown { requested: true });
    assert!(matches!(action, PollAction::Stop));
}

#[test]
fn failed_lists_give_the_pass_up() {
    let (poller, _) = Poller::new(PollPolicy::Service);
    let (poller, _) = polling_loop(poller, PollInput::Shutdown { requested: false });
    let (poller, action) = polling_loop(poller, PollInput::Config { config: config() });
    assert!(matches!(action, PollAction::Ddc { request: DdcRequest::ListDisplays { .. } }));
    let reply = DdcReply::Displays { status: -1, displays: None };
    let (poller, action) = polling_loop(poller, PollInput::Ddc { reply });
    assert!(matches!(action, PollAction::Unlock));
    let (_, action) = polling_loop(poller, PollInput::Done);
    assert!(matches!(action, PollAction::Sleep { wait: PollWait::Seconds(30) }));
}

#[test]
fn failed_redetection_gives_the_pass_up() {
    let (poller, _) = Poller::new(PollPolicy::Library);
    let (poller, _) = polling_task(poller, PollInput::Shutdown { requested: false });
    let (poller, _) = polling_task(poller, PollInput::Config { config: config() });
    let (poller, _) = polling_task(poller, PollInput::Done);
    let (poller, action) = polling_task(poller, PollInput::Done);
    assert!(matches!(action, PollAction::Ddc { request: DdcRequest::Redetect }));
    let reply = DdcReply::Status { status: -1 };
    let (_, action) = polling_task(poller, PollInput::Ddc { reply });
    assert!(matches!(action, PollAction::Sleep { wait: PollWait::Seconds(30) }));
}

#[test]
fn sleep_is_taken_in_pieces() {
    let mut slept = 0;
    let mut pieces = 0;
    let mut step = begin_sleep(620);
    while let SleepStep::Wait { millis, rest } = step {
        assert!(millis > 0 && millis <= 250);
        slept += millis;
        pieces += 1;
        step = sleep_interruptible(rest, false);
    }
    assert_eq!(step, SleepStep::Elapsed);
    assert_eq!((slept, pieces), (620, 3));
    assert_eq!(begin_sleep(0), SleepStep::Elapsed);
    assert_eq!(begin_sleep(250), SleepStep::Wait { millis: 250, rest: 0 });
    assert_eq!(sleep_interruptible(400, true), SleepStep::Interrupted);
    assert_eq!(sleep_interruptible(0, true), SleepStep::Interrupted);
}

#[test]
fn one_polling_thread_is_held() {
    let mut service = DdcutilService::new(None);
    assert!(service.start_polling(false));
    assert!(!service.start_polling(false));
    assert_eq!(service.stop_polling(), StopPolling { send_shutdown: true, join: true });
    assert_eq!(service.stop_polling(), StopPolling { send_shutdown: false, join: false });
    assert!(service.start_polling(false));
    let mut library = Ddcutil::create();
    assert_eq!(library.stop_polling(), StopPolling { send_shutdown: false, join: false });
    assert!(library.start_polling(false));
    assert!(!library.start_polling(false));
    assert!(library.start_polling(true));
    assert_eq!(library.stop_polling(), StopPolling { send_shutdown: true, join: true });
    assert_eq!(library.stop_polling(), StopPolling { send_shutdown: false, join: false });
}

#[test]
fn thread_that_ended_is_replaced() {
    let mut service = DdcutilService::new(None);
    assert!(service.start_polling(false));
    let config = service.state.poll_config();
    // The thread ends by itself, and polling is started again.
    assert!(service.start_polling(true));
    assert!(!service.start_polling(false));
    assert_eq!(service.state.poll_config(), config);
    assert_eq!(service.stop_polling(), StopPolling { send_shutdown: true, join: true });
}

#[test]
fn library_has_a_configuration() {
    let mut library = Ddcutil::create();
    assert_eq!(*library.config(), DdcutilConfig::default());
    assert_eq!(library.get_poll_interval(), 30);
    assert_eq!(library.get_cascade_interval(), CASCADE);
    assert!(!library.config().events_enabled);
    library.set_poll_interval(3).unwrap();
    let two = Double { bits: 2.0f64.to_bits() };
    library.set_cascade_interval(two).unwrap();
    assert!(matches!(
        library.set_events_enable(true, &constants()),
        DdcRequest::StartWatch { classes: 3 }
    ));
    assert_eq!(
        library.poll_config(),
        PollConfig { interval: 3, cascade: two, do_redetect: true, events_enabled: true }
    );
    assert!(matches!(
        library.set_events_enable(false, &constants()),
        DdcRequest::StopWatch { wait: false }
    ));
    assert!(!library.config().events_enabled);
    // What is written to the configuration stays.
    library.config().poll_interval_secs = 77;
    assert_eq!(library.get_poll_interval(), 77);
}

#[test]
fn later_display_of_an_edid_is_held() {
    // The displays 1 and 257 have the same EDID.
    let (poller, action) = Poller::new(PollPolicy::Service);
    let (poller, action, _) =
        pass(poller, action, config(), &vec![(1, Some(1)), (257, Some(0))]);
    let (_, _, log) = pass(poller, action, config(), &vec![(257, Some(0)), (1, Some(1))]);
    assert_eq!(log, vec!["lock", "unlock", "DpmsAwake", "sleep 30"]);
}
