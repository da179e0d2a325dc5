//! What the functions of the library give back, read off their results: descriptions,
//! events, texts, errors, and the steps of what runs in steps.
use crate::capabilities::{
    describe_feature, extract_model, get_capabilities_data, get_feature_name, CapabilitiesProgress,
    CapabilitiesReader, FeatureData,
};
use crate::changes::{
    cause_in_words, change_of_one_display_is_told, lacks_some, look_tells_what_changed,
    tell_of_turned, tells_of_connection,
};
use crate::courses::{number_member, said};
use crate::ddcutil::{DisplayHandle, DisplayRef, Error, ErrorModel, Result as DdcResult};
use crate::device::{DdcReply, DdcRequest, HeaderConstants, RawFeature, RawMetadata, VcpBytes};
use crate::dpms::{is_dpms_awake, DpmsProgress, DpmsProgressModel, DpmsReader, DpmsReaderModel};
use crate::events::{
    native_ddc_event_callback, DdcutilEvent, DdcutilEventKind, InternalEvent, InternalEventKind,
    InternalEventType, Notice,
};
use crate::gathering::{
    are_places, are_the_defined, closes, command_name, encloses,
    feature_is_described_by_its_metadata, is_defined, is_defined_as,
    model_stands_between_its_brackets,
};
use crate::json::{json_object, Json};
use crate::operation::{Operation, Progress, ProgressModel, Reply, ReplyModel, Step, StepModel};
use crate::poller::{
    begin_sleep, polling_loop, polling_task, sleep_interruptible, PollAction, PollActionModel,
    PollInput, PollPolicy, Poller, SleepStep,
};
use crate::polling::{
    build_connection_event, build_dpms_change_event, compare_states, event_models, DisplayState,
    StateTable,
};
use crate::service::{
    build_dpms_event, build_hotplug_event, build_vcp_changed_event, StartupPlan, StartupStage,
    StartupStep,
};
use crate::status::{StatusProgress, StatusReader};
use crate::subscription::{subscribe, Stream, StreamAction, StreamActionModel, StreamInput};
use crate::text::hex;
use crate::vcp::{
    get_vcp, get_vcp_metadata, join_bytes, set_vcp, VcpFeatureMetadata, VcpProgress, VcpReader,
};
use vstd::prelude::*;
use vstd::string::*;
use vstd::utf8::{decode_utf8, valid_utf8};

verus! {

/// The values of the feature are those at these places of the list, which are all that
/// the metadata names, each under its first name.
pub open spec fn holds_the_named_values(
    feature: FeatureData,
    raw: RawFeature,
    metadata: RawMetadata,
    places: Seq<int>,
) -> bool {
    let codes = raw.values@;
    let table = metadata.sl_values@;
    &&& places.len() == feature.values@.len()
    &&& are_places(places, codes.len())
    &&& forall|v: int|
        0 <= v < places.len() ==> (#[trigger] feature.values@[v]).code == codes[places[v]]
            && is_defined_as(table, codes[places[v]], feature.values@[v].name@)
    &&& forall|i: int|
        0 <= i < codes.len() && is_defined(table, #[trigger] codes[i]) ==> places.contains(i)
}

/// To describe a feature is to name it, and to hold each value that the display lists and
/// that has an entry in the table of values before the first unnamed entry: under the
/// name of the first such entry, in the order of the list, once for each time that it is
/// listed. No other value is there. Without metadata a feature has its code for a name,
/// and no values.
pub proof fn description_holds_every_named_value(
    raw: &RawFeature,
    metadata: &Option<RawMetadata>,
    feature: FeatureData,
)
    requires
        call_ensures(describe_feature, (raw, metadata), feature),
    ensures
        feature.code == raw.feature_code,
        match *metadata {
            Some(md) => {
                &&& feature.name@ == said(md.feature_name, ""@)
                &&& feature.description@ == said(md.feature_desc, ""@)
                &&& exists|places: Seq<int>| #[trigger]
                    holds_the_named_values(feature, *raw, md, places)
            },
            None => {
                &&& feature.name@ == "VCP 0x"@ + hex(raw.feature_code)
                &&& feature.description@.len() == 0
                &&& feature.values@.len() == 0
            },
        },
{
    feature_is_described_by_its_metadata(*raw, *metadata);
    match *metadata {
        Some(md) => {
            let model = feature@;
            let places = choose|places: Seq<int>| #[trigger]
                are_the_defined(
                    model.values,
                    raw.values@,
                    md.sl_values@,
                    places,
                );
            assert forall|v: int| 0 <= v < places.len() implies (
            #[trigger] feature.values@[v]).code == raw.values@[places[v]] && is_defined_as(
                md.sl_values@,
                raw.values@[places[v]],
                feature.values@[v].name@,
            ) by {
                assert(model.values[v] == feature.values@[v]@);
            }
            assert(holds_the_named_values(feature, *raw, md, places));
        },
        None => {
            assert(feature@.values.len() == 0);
        },
    }
}

/// A feature has the name that libddcutil gives it, or its code. A model is found in a
/// capabilities string of valid UTF-8 between the first brackets after `model` that are
/// closed.
pub proof fn names_are_taken_or_made_up(
    code: u8,
    name: &Option<Vec<u8>>,
    text: String,
    bytes: &Vec<u8>,
    model: Option<String>,
)
    requires
        call_ensures(get_feature_name, (code, name), text),
        call_ensures(extract_model, (bytes,), model),
    ensures
        text@ == command_name(code, *name),
        !valid_utf8(bytes@) ==> model is None,
        valid_utf8(bytes@) ==> match model {
            Some(found) => exists|p: int, q: int| #[trigger]
                encloses(decode_utf8(bytes@), p, q, found@),
            None => forall|p: int| !#[trigger] closes(decode_utf8(bytes@), p),
        },
{
    model_stands_between_its_brackets(decode_utf8(bytes@));
}

/// What the events say, one by one.
pub open spec fn sayings(events: Seq<DdcutilEvent>) -> Seq<(DdcutilEventKind, Seq<char>)> {
    Seq::new(events.len(), |i: int| (events[i].kind, events[i].data@))
}

/// A comparison of two looks tells of displays that came or went in one event, which
/// comes first, and after that of each display that both looks found and that was found
/// awake in one and asleep in the other. Such an event has the kind for what the display
/// is now, and its data are the JSON object that says whether the display is awake now,
/// with its number and its EDID. Nothing else is told, and nothing at all where the look
/// sets the scene.
pub proof fn comparison_tells_what_changed(
    current: &StateTable,
    previous: &StateTable,
    initializing: bool,
    res: (bool, Vec<DdcutilEvent>),
)
    requires
        call_ensures(compare_states, (current, previous, initializing), res),
        forall|i: int, j: int|
            0 <= i < j < previous@.len() ==> (#[trigger] previous@[i]).0 != (
            #[trigger] previous@[j]).0,
    ensures
        res.0 == (lacks_some(current@, previous@) || lacks_some(previous@, current@)),
        initializing ==> res.1@.len() == 0,
        !initializing && res.0 ==> tells_of_connection(
            sayings(res.1@)[0],
            lacks_some(current@, previous@),
        ) && exists|places: Seq<int>| #[trigger]
            tell_of_turned(sayings(res.1@), 1, current@, previous@, places),
        !initializing && !res.0 ==> exists|places: Seq<int>| #[trigger]
            tell_of_turned(sayings(res.1@), 0, current@, previous@, places),
{
    look_tells_what_changed(current@, previous@);
    assert(sayings(res.1@) =~= event_models(res.1@));
}

/// The event on the power of a display says what the display is: its kind and the member
/// `awake` agree with the state, and the number and the EDID are those of the display.
pub proof fn power_event_says_what_the_display_is(
    edid: &String,
    state: DisplayState,
    event: DdcutilEvent,
)
    requires
        call_ensures(build_dpms_change_event, (edid, state), event),
    ensures
        (event.kind is DpmsAwake) == state.awake,
        (event.kind is DpmsAsleep) == !state.awake,
        event.data@ == json_object(
            seq![
                ("awake"@, Json::Bool(event.kind is DpmsAwake)),
                ("display_number"@, Json::Number(state.display_number as int)),
                ("edid_base64"@, Json::Text(edid@)),
                ("flags"@, Json::Number(0)),
            ],
        ),
{
}

/// The event on connections says whether displays came or went.
pub proof fn connection_event_says_what_happened(connected: bool, event: DdcutilEvent)
    requires
        call_ensures(build_connection_event, (connected,), event),
    ensures
        tells_of_connection((event.kind, event.data@), connected),
{
}

/// A text in an event, null where it is missing.
pub open spec fn given_text(text: Option<&str>) -> Json {
    match text {
        Some(given) => Json::Text(given@),
        None => Json::Null,
    }
}

/// The event on a written feature holds what was written.
pub proof fn write_event_says_what_was_written(
    display_number: Option<i64>,
    edid_base64: Option<&str>,
    vcp_code: i64,
    new_value: i64,
    client_context: String,
    event: InternalEvent,
)
    requires
        call_ensures(
            build_vcp_changed_event,
            (display_number, edid_base64, vcp_code, new_value, client_context),
            event,
        ),
    ensures
        event.kind is VcpChange,
        event.data@ == json_object(
            seq![
                ("client_context"@, Json::Text(client_context@)),
                ("display_number"@, number_member(display_number)),
                ("edid_base64"@, given_text(edid_base64)),
                ("event_type"@, Json::Text("VcpChange"@)),
                ("new_value"@, Json::Number(new_value as int)),
                ("origin"@, Json::Text("ddcutil-varlink"@)),
                ("vcp_code"@, Json::Number(vcp_code as int)),
            ],
        ),
{
}

/// The events on one display hold its EDID and the cause, and the one on its power says
/// that it is awake exactly where that is the cause.
pub proof fn events_on_one_display_say_the_cause(
    edid: &String,
    cause: InternalEventType,
    plugged: InternalEvent,
    powered: InternalEvent,
)
    requires
        call_ensures(build_hotplug_event, (edid, cause), plugged),
        call_ensures(build_dpms_event, (edid, cause), powered),
    ensures
        plugged.kind is ConnectedDisplaysChanged,
        plugged.data@ == json_object(
            seq![
                ("edid_base64"@, Json::Text(edid@)),
                ("event_type"@, Json::Text(cause_in_words(cause))),
                ("flags"@, Json::Number(0)),
                ("origin"@, Json::Text("polling"@)),
            ],
        ),
        powered.kind is ConnectedDisplaysChanged,
        powered.data@ == json_object(
            seq![
                ("awake"@, Json::Bool(cause is DpmsAwake)),
                ("edid_base64"@, Json::Text(edid@)),
                ("event_type"@, Json::Text(cause_in_words(cause))),
                ("flags"@, Json::Number(0)),
                ("origin"@, Json::Text("polling"@)),
            ],
        ),
{
    change_of_one_display_is_told(edid@, cause);
}

/// A notice becomes the event for its code, and displays are polled at once exactly where
/// one came, went, woke or fell asleep.
pub proof fn notice_is_passed_on(event_type: u32, constants: &HeaderConstants, notice: Notice)
    requires
        call_ensures(native_ddc_event_callback, (event_type, constants), notice),
    ensures
        ({
            let connected = event_type == constants.event_display_connected;
            let disconnected = event_type == constants.event_display_disconnected;
            let awake = event_type == constants.event_dpms_awake;
            let asleep = event_type == constants.event_dpms_asleep;
            let working = event_type == constants.event_ddc_working;
            let kind = notice.event.kind;
            &&& connected ==> kind is Connected
            &&& !connected && disconnected ==> kind is Disconnected
            &&& !connected && !disconnected && awake ==> kind is DpmsAwake
            &&& !connected && !disconnected && !awake && asleep ==> kind is DpmsAsleep
            &&& !connected && !disconnected && !awake && !asleep && working ==> kind is DdcWorking
            &&& !connected && !disconnected && !awake && !asleep && !working ==> kind
                == DdcutilEventKind::Unknown(event_type as i32)
            &&& notice.need_poll == (connected || disconnected || awake || asleep)
            &&& notice.event.data@ == json_object(
                seq![
                    ("event_type"@, Json::Number(event_type as int)),
                    ("flags"@, Json::Number(0)),
                ],
            )
        }),
{
}

/// An event of a display goes to the subscribers with its data as they are, and with the
/// kind that it has.
pub proof fn event_keeps_its_kind_and_data(event: DdcutilEvent, internal: InternalEvent)
    requires
        call_ensures(DdcutilEvent::into_internal, (event,), internal),
    ensures
        internal.data@ == event.data@,
        event.kind is Connected ==> internal.kind is Connected,
        event.kind is Disconnected ==> internal.kind is Disconnected,
        event.kind is ConnectedDisplaysChanged ==> internal.kind is ConnectedDisplaysChanged,
        event.kind is DpmsAwake ==> internal.kind is DpmsAwake,
        event.kind is DpmsAsleep ==> internal.kind is DpmsAsleep,
        event.kind is DdcWorking ==> internal.kind is DdcWorking,
        event.kind is DdcNotWorking ==> internal.kind is DdcNotWorking,
        event.kind matches DdcutilEventKind::Unknown(code) ==> internal.kind
            == InternalEventKind::Unknown(code),
{
}

/// Clients know the kinds and the causes of events under these names.
pub proof fn kinds_have_their_names(
    kind: &DdcutilEventKind,
    name: &'static str,
    cause: &InternalEventType,
    word: &'static str,
)
    requires
        call_ensures(DdcutilEventKind::as_str, (kind,), name),
        call_ensures(InternalEventType::as_str, (cause,), word),
    ensures
        kind is Connected ==> name@ == "DisplayConnected"@,
        kind is Disconnected ==> name@ == "DisplayDisconnected"@,
        kind is ConnectedDisplaysChanged ==> name@ == "ConnectedDisplaysChanged"@,
        kind is DpmsAwake ==> name@ == "DpmsAwake"@,
        kind is DpmsAsleep ==> name@ == "DpmsAsleep"@,
        kind is DdcWorking ==> name@ == "DdcWorking"@,
        kind is DdcNotWorking ==> name@ == "DdcNotWorking"@,
        kind is Unknown ==> name@ == "Unknown"@,
        word@ == cause_in_words(*cause),
{
}

/// The reply holds what is meant, field by field.
pub open spec fn holds(reply: Reply, model: ReplyModel) -> bool {
    match (reply, model) {
        (Reply::Detected { count, entries }, ReplyModel::Detected { count: c, entries: told }) => {
            &&& count == c
            &&& entries@.len() == told.len()
            &&& forall|i: int| 0 <= i < told.len() ==> (#[trigger] entries@[i])@ == told[i]
        },
        (
            Reply::DetectError { status, message },
            ReplyModel::DetectError { status: s, message: told },
        ) => status == s && message@ == told,
        (Reply::Flag { enabled }, ReplyModel::Flag { enabled: told }) => enabled == told,
        (Reply::Level { level }, ReplyModel::Level { level: told }) => level == told,
        (Reply::Text { text }, ReplyModel::Text { text: told }) => text@ == told,
        (
            Reply::DisplayState { status, message },
            ReplyModel::DisplayState { status: s, message: told },
        ) => status == s && message@ == told,
        (
            Reply::Multiplier { multiplier },
            ReplyModel::Multiplier { multiplier: told },
        ) => multiplier == told,
        (
            Reply::Capabilities { capabilities },
            ReplyModel::Capabilities { capabilities: told },
        ) => capabilities@ == told,
        (Reply::Values { values }, ReplyModel::Values { values: told }) => {
            &&& values@.len() == told.len()
            &&& forall|i: int|
                0 <= i < told.len() ==> {
                    &&& (#[trigger] values@[i]).vcp_code == told[i].vcp_code
                    &&& values@[i].current == told[i].current
                    &&& values@[i].maximum == told[i].maximum
                    &&& values@[i].formatted@ == told[i].formatted
                }
        },
        (
            Reply::Value { current, maximum, formatted },
            ReplyModel::Value { current: c, maximum: m, formatted: told },
        ) => current == c && maximum == m && formatted@ == told,
        (Reply::Metadata { metadata }, ReplyModel::Metadata { metadata: told }) => {
            &&& metadata.feature_name@ == told.feature_name
            &&& metadata.description@ == told.description
            &&& metadata.is_read_only == told.is_read_only
            &&& metadata.is_write_only == told.is_write_only
            &&& metadata.is_rw == told.is_rw
            &&& metadata.is_complex == told.is_complex
            &&& metadata.is_continuous == told.is_continuous
        },
        (Reply::Empty, ReplyModel::Empty) => true,
        (Reply::DdcError { error }, ReplyModel::DdcError { error: told }) => {
            &&& error.display_ref == told.display_ref
            &&& error.display_number == told.display_number
            &&& error.edid_base64@ == told.edid_base64
            &&& error.vcp_code == told.vcp_code
            &&& error.status == told.status
            &&& error.message@ == told.message
        },
        _ => false,
    }
}

/// The step is what is meant.
pub open spec fn does(step: Step, model: StepModel) -> bool {
    match (step, model) {
        (Step::Ask { request }, StepModel::Ask { request: meant }) => request == meant,
        (Step::Broadcast { event }, StepModel::Broadcast { event: meant }) => event.kind
            == meant.0 && event.data@ == meant.1,
        (Step::Reply { reply }, StepModel::Reply { reply: meant }) => holds(reply, meant),
        _ => false,
    }
}

/// A method does, step by step, what its course says.
pub proof fn method_keeps_to_its_course(operation: Operation, reply: DdcReply, res: Progress)
    requires
        call_ensures(Operation::resume, (operation, reply), res),
    ensures
        res@ == operation@.next(reply),
        res matches Progress::Step { operation: after, step } ==> (operation@.next(reply) matches
            ProgressModel::Step { operation: meant, step: model } && after@
            == meant && after.purpose == meant.purpose && does(step, model)),
        res is Finished == operation@.next(reply) is Finished,
        res is Failed == operation@.next(reply) is Failed,
{
    if let Progress::Step { operation: after, step } = res {
        match step {
            Step::Reply { reply: Reply::Detected { count, entries } } => {
                assert(step@->reply->entries.len() == entries@.len());
                assert forall|i: int| 0 <= i < entries@.len() implies (#[trigger] entries@[i])@
                    == step@->reply->entries[i] by {}
            },
            Step::Reply { reply: Reply::Values { values } } => {
                assert(step@->reply->values.len() == values@.len());
                assert forall|i: int| 0 <= i < values@.len() implies (#[trigger] values@[i])@
                    == step@->reply->values[i] by {}
            },
            _ => {},
        }
    }
}

/// The polling loops do, step by step, what their passes say, and begin with the look
/// whether they are to end.
pub proof fn polling_keeps_to_its_passes(
    policy: PollPolicy,
    begun: (Poller, PollAction),
    poller: Poller,
    input: PollInput,
    res: (Poller, PollAction),
)
    requires
        call_ensures(Poller::new, (policy,), begun),
        call_ensures(Poller::resume, (poller, input), res) || call_ensures(
            polling_loop,
            (poller, input),
            res,
        ) || call_ensures(polling_task, (poller, input), res),
    ensures
        begun.0@.policy == policy,
        begun.0@.previous.len() == 0,
        begun.0@.initializing,
        begun.0@.stage is CheckingShutdown,
        begun.1 is CheckShutdown,
        res.0@ == poller@.next(input).0,
        res.1@ == poller@.next(input).1,
        res.1 matches PollAction::Ddc { request } ==> poller@.next(input).1
            == (PollActionModel::Ddc { request }),
        res.1 matches PollAction::Send { event } ==> poller@.next(input).1
            == (PollActionModel::Send { event: (event.kind, event.data@) }),
        res.1 matches PollAction::Sleep { wait } ==> poller@.next(input).1
            == (PollActionModel::Sleep { wait }),
{
}

/// A subscriber's stream does, step by step, what its course says; it begins by starting
/// the polling, or by stopping it, as the client asked.
pub proof fn stream_keeps_to_its_course(
    use_polling: bool,
    begun: (Stream, StreamAction),
    stream: Stream,
    input: StreamInput,
    res: (Stream, StreamAction),
)
    requires
        call_ensures(subscribe, (use_polling,), begun),
        call_ensures(Stream::resume, (stream, input), res),
    ensures
        begun.0 is Polling,
        use_polling ==> begun.1 is StartPolling,
        !use_polling ==> begun.1 is StopPolling,
        (res.0, res.1@) == stream.next(input),
        res.1 matches StreamAction::Unregister { id } ==> stream.next(input).1
            == (StreamActionModel::Unregister { id }),
{
}

/// The start does, step by step, what its plan says.
pub proof fn start_keeps_to_its_plan(
    stage: StartupStage,
    plan: StartupPlan,
    reply: DdcReply,
    request: DdcRequest,
    res: StartupStep,
)
    requires
        call_ensures(StartupStage::make_request, (stage,), request),
        call_ensures(StartupStage::resume, (stage, plan, reply), res),
    ensures
        stage is Initializing ==> request is Init,
        stage is Redetecting ==> request is Redetect,
        stage is Listing ==> request == (DdcRequest::ListDisplays { include_invalid: false }),
        stage is Registering ==> request is RegisterCallback,
        res@ == stage.next(plan, reply),
{
}

/// The readers of power modes, features, capabilities and statuses do what their courses
/// say.
pub proof fn readers_keep_to_their_courses(
    power: DpmsReader,
    powered: DpmsProgress,
    feature: VcpReader,
    featured: VcpProgress,
    capabilities: CapabilitiesReader,
    gathered: CapabilitiesProgress,
    status: StatusReader,
    stated: StatusProgress,
    reply: DdcReply,
)
    requires
        call_ensures(is_dpms_awake, (power, reply), powered),
        call_ensures(get_vcp, (feature, reply), featured),
        call_ensures(get_capabilities_data, (capabilities, reply), gathered),
        call_ensures(StatusReader::resume, (status, reply), stated),
    ensures
        powered@ == power@.next(reply),
        featured@ == feature.next(reply),
        gathered@ == capabilities@.next(reply),
        stated@ == status.next(reply),
{
}

/// The readers begin with these calls.
pub proof fn readers_begin_with_their_calls(
    dref: DisplayRef,
    handle: DisplayHandle,
    code: u8,
    power: (DpmsReader, DdcRequest),
    feature: (VcpReader, DdcRequest),
    capabilities: (CapabilitiesReader, DdcRequest),
)
    requires
        call_ensures(DpmsReader::start, (dref,), power),
        call_ensures(VcpReader::start, (handle, code), feature),
        call_ensures(CapabilitiesReader::start, (handle,), capabilities),
    ensures
        power.0 == (DpmsReader::Opening { dref }),
        power.1 == (DdcRequest::OpenDisplay { dref }),
        feature.0 == (VcpReader::Reading { handle, code }),
        feature.1 == (DdcRequest::ReadVcp { handle, code }),
        capabilities.0 == (CapabilitiesReader::Text { handle }),
        capabilities.1 == (DdcRequest::ReadCapabilities { handle }),
{
}

/// A power mode is read from an open display, which is closed whatever the reading gives;
/// the display is awake unless both bytes of the mode are zero.
pub proof fn power_mode_is_read(
    dref: DisplayRef,
    ddca_handle: usize,
    status: i32,
    value: VcpBytes,
    text_status: i32,
    text: Option<Vec<u8>>,
)
    ensures
        ({
            let handle = DisplayHandle { ddca_handle, dref };
            let opening = DpmsReaderModel::Opening { dref };
            let reading = opening.next(DdcReply::Opened { status: 0, ddca_handle });
            let formatting = power_goes_on(reading, DdcReply::Value { status: 0, value });
            let closing = power_goes_on(
                formatting,
                DdcReply::Text { status: text_status, text },
            );
            let failed = power_goes_on(reading, DdcReply::Value { status, value });
            &&& power_asks(reading, DdcRequest::ReadVcp { handle, code: 0xd6u8 })
            &&& power_asks(formatting, DdcRequest::FormatVcp { code: 0xd6u8, dref, value })
            &&& power_asks(closing, DdcRequest::CloseDisplay { handle })
            &&& power_goes_on(closing, DdcReply::Done) matches
                DpmsProgressModel::Done { result: Ok(awake) } && awake == (value.sh
                != 0 || value.sl != 0)
            &&& status != 0 ==> {
                &&& opening.next(DdcReply::Opened { status, ddca_handle }) matches
                    DpmsProgressModel::Done { result: Err(error) } && error
                    == ErrorModel::Status(status)
                &&& power_asks(failed, DdcRequest::CloseDisplay { handle })
                &&& power_goes_on(failed, DdcReply::Done) matches
                    DpmsProgressModel::Done { result: Err(error) } && error
                    == ErrorModel::Status(status)
            }
        }),
{
}

/// The query of a power mode calls libddcutil so.
pub open spec fn power_asks(
    progress: DpmsProgressModel,
    request: DdcRequest,
) -> bool {
    progress matches DpmsProgressModel::Ask { request: r, .. } && r == request
}

/// The query of a power mode after a reply.
pub open spec fn power_goes_on(
    progress: DpmsProgressModel,
    reply: DdcReply,
) -> DpmsProgressModel {
    match progress {
        DpmsProgressModel::Ask { reader, .. } => reader.next(reply),
        _ => arbitrary(),
    }
}

/// A value is written as the two bytes that it is read back from.
pub proof fn value_is_written_in_two_bytes(
    handle: DisplayHandle,
    code: u8,
    value: u16,
    request: DdcRequest,
    high: u8,
    low: u8,
    joined: u16,
)
    requires
        call_ensures(set_vcp, (handle, code, value), request),
        call_ensures(join_bytes, (high, low), joined),
    ensures
        joined == 256 * high + low,
        request matches DdcRequest::WriteVcp { handle: h, code: c, high: upper, low: lower } && h
            == handle && c == code && 256 * upper + lower == value,
{
}

/// The metadata hold the name, the description, and each property whose bit is set in
/// the flags; a status is an error, and so is a missing record.
pub proof fn metadata_are_read(
    status: i32,
    metadata: Option<RawMetadata>,
    constants: &HeaderConstants,
    res: DdcResult<VcpFeatureMetadata>,
)
    requires
        call_ensures(get_vcp_metadata, (status, metadata, constants), res),
    ensures
        status != 0 ==> (res matches Err(Error::Status(code)) && code == status),
        status == 0 && metadata is None ==> (res matches Err(Error::Status(code)) && code == -1),
        status == 0 ==> (metadata matches Some(raw) ==> (res matches Ok(told) && {
            &&& told.feature_name@ == said(raw.feature_name, "unknown"@)
            &&& told.description@ == said(raw.feature_desc, ""@)
            &&& told.is_read_only == (raw.feature_flags & constants.ro != 0)
            &&& told.is_write_only == (raw.feature_flags & constants.wo != 0)
            &&& told.is_rw == (raw.feature_flags & constants.rw != 0)
            &&& told.is_complex == (raw.feature_flags & (constants.complex_cont
                | constants.complex_nc) != 0)
            &&& told.is_continuous == (raw.feature_flags & constants.cont != 0)
        })),
{
}

/// A sleep goes on for a quarter of a second, or for what is left where that is less,
/// and is cut short where a poll is called for.
pub proof fn sleep_goes_on(
    duration: u64,
    begun: SleepStep,
    rest: u64,
    need_poll: bool,
    res: SleepStep,
)
    requires
        call_ensures(begin_sleep, (duration,), begun),
        call_ensures(sleep_interruptible, (rest, need_poll), res),
    ensures
        sleeps(duration, begun),
        need_poll ==> res is Interrupted,
        !need_poll ==> sleeps(rest, res),
{
}

/// With so much time left a sleeper does so.
pub open spec fn sleeps(left: u64, step: SleepStep) -> bool {
    if left == 0 {
        step is Elapsed
    } else {
        step matches SleepStep::Wait { millis, rest } && millis + rest == left && millis == if left
            < 250 {
            left as int
        } else {
            250
        }
    }
}

/// Each call of libddcutil is answered in its own form.
pub proof fn calls_are_answered_in_their_form(request: &DdcRequest, reply: &DdcReply, res: bool)
    requires
        call_ensures(DdcRequest::answered_by, (request, reply), res),
    ensures
        request is Init || request is Redetect || request is RegisterCallback
            || request is ValidateDisplay || request is WriteVcp || request is WriteSleepMultiplier
            || request is StartWatch || request is StopWatch ==> res == (reply is Status),
        request is CloseDisplay || request is EnableVerify || request is EnableDynamicSleep
            || request is SetOutputLevel ==> res == (reply is Done),
        request is FeatureName || request is StatusName || request is StatusDescription
            || request is Version ==> res == (reply is Name),
        request is FormatVcp || request is ReadCapabilities ==> res == (reply is Text),
        request is ListDisplays ==> res == (reply is Displays),
        request is OpenDisplay ==> res == (reply is Opened),
        request is ReadVcp ==> res == (reply is Value),
        request is ParseCapabilities ==> res == (reply is Capabilities),
        request is FeatureMetadata ==> res == (reply is Metadata),
        request is ReadSleepMultiplier ==> res == (reply is Multiplier),
        request is ErrorDetail ==> res == (reply is Detail),
        request is DynamicSleepEnabled ==> res == (reply is Flag),
        request is OutputLevel ==> res == (reply is Level),
{
}

/// A step that calls libddcutil is answered as the call is, and every other when it is
/// done.
pub proof fn steps_are_answered(
    request: DdcRequest,
    called: bool,
    step: &Step,
    action: &PollAction,
    reply: DdcReply,
    input: &PollInput,
    stepped: bool,
    polled: bool,
)
    requires
        call_ensures(DdcRequest::answered_by, (&request, &reply), called),
        call_ensures(Step::answered_by, (step, &reply), stepped),
        call_ensures(PollAction::answered_by, (action, input), polled),
    ensures
        *step == (Step::Ask { request }) ==> stepped == called,
        !(step is Ask) ==> stepped == (reply is Done),
        *action == (PollAction::Ddc { request }) && *input == (PollInput::Ddc { reply }) ==> polled
            == called,
        action is Ddc && !(input is Ddc) ==> !polled,
        action is CheckShutdown ==> polled == (input is Shutdown),
        action is ReadConfig ==> polled == (input is Config),
        action is Stop ==> !polled,
        action is ClearNeedPoll || action is Unlock || action is Send || action is Sleep ==> polled
            == (input is Done),
{
}

/// Each action of a stream is answered in its own form, and the last not at all.
pub proof fn stream_actions_are_answered(action: &StreamAction, input: &StreamInput, res: bool)
    requires
        call_ensures(StreamAction::answered_by, (action, input), res),
    ensures
        action is Reply ==> res == (input is Sent),
        action is Register ==> res == (input is Registered),
        action is Receive ==> res == (input is Received),
        action is End ==> !res,
        action is StartPolling || action is StopPolling || action is EnableEvents
            || action is Unregister ==> res == (input is Done),
{
}

} // verus!
