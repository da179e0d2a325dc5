//! What changes come to: which events tell of displays that come, go, wake or sleep and
//! of features that are written, and what a stream hands on to its client.
use crate::ddcutil::ErrorModel;
use crate::device::{DdcReply, DdcRequest, HeaderConstants, RawDisplay};
use crate::events::{
    calls_for_poll, internal_kind, notice_data, notice_kind, DdcutilEventKind, InternalEvent,
    InternalEventKind, InternalEventType,
};
use crate::gathering::are_places;
use crate::json::{json_object, Json};
use crate::polling::{
    are_distinct, connection_changed, dpms_changed, dpms_events, edid_index_is, has_edid, has_more,
    poll_events, recorded, state_of, DisplayState, States,
};
use crate::service::{
    hotplug_event, power_event, vcp_changed_event, wants_redetect, watch_change, ServiceSharedState,
    StartupPlan, StartupStage, StartupStepModel, StopPolling,
};
use crate::subscription::{Stream, StreamActionModel, StreamEventModel, StreamInput};
use vstd::prelude::*;
use vstd::string::*;

verus! {

/// Two looks found this display, and found it awake once and asleep once.
pub open spec fn has_turned(current: States, previous: States, i: int) -> bool {
    exists|j: int|
        0 <= j < previous.len() && (#[trigger] previous[j]).0 == current[i].0
            && previous[j].1.awake != current[i].1.awake
}

/// The display at this place is not among the others.
pub open spec fn is_absent(states: States, i: int, others: States) -> bool {
    0 <= i < states.len() && forall|j: int|
        0 <= j < others.len() ==> (#[trigger] others[j]).0 != states[i].0
}

/// Some display is not among the others.
pub open spec fn lacks_some(states: States, others: States) -> bool {
    exists|i: int| #[trigger] is_absent(states, i, others)
}

/// The event tells that this display is awake now, or asleep.
pub open spec fn tells_of_power(
    event: (DdcutilEventKind, Seq<char>),
    edid: Seq<char>,
    state: DisplayState,
) -> bool {
    &&& event.0 == if state.awake {
        DdcutilEventKind::DpmsAwake
    } else {
        DdcutilEventKind::DpmsAsleep
    }
    &&& event.1 == json_object(
        seq![
            ("awake"@, Json::Bool(state.awake)),
            ("display_number"@, Json::Number(state.display_number as int)),
            ("edid_base64"@, Json::Text(edid)),
            ("flags"@, Json::Number(0)),
        ],
    )
}

/// The event tells that displays have come, or else that displays have gone.
pub open spec fn tells_of_connection(
    event: (DdcutilEventKind, Seq<char>),
    connected: bool,
) -> bool {
    &&& event.0 is ConnectedDisplaysChanged
    &&& event.1 == json_object(
        seq![
            (
                "event_type"@,
                Json::Text(
                    if connected {
                        "DisplayConnected"@
                    } else {
                        "DisplayDisconnected"@
                    },
                ),
            ),
            ("flags"@, Json::Number(0)),
        ],
    )
}

/// The events, from the given one on, tell of the displays at these places, which are
/// all that have turned.
pub open spec fn tell_of_turned(
    events: Seq<(DdcutilEventKind, Seq<char>)>,
    first: int,
    current: States,
    previous: States,
    places: Seq<int>,
) -> bool {
    &&& events.len() == first + places.len()
    &&& are_places(places, current.len())
    &&& forall|v: int|
        0 <= v < places.len() ==> has_turned(current, previous, #[trigger] places[v])
            && tells_of_power(events[first + v], current[places[v]].0, current[places[v]].1)
    &&& forall|i: int|
        0 <= i < current.len() && #[trigger] has_turned(current, previous, i) ==> places.contains(i)
}

proof fn absence_is_lack(states: States, others: States)
    ensures
        lacks_some(states, others) == has_more(states, others),
{
    if has_more(states, others) {
        let i = choose|i: int|
            0 <= i < states.len() && !has_edid(others, (#[trigger] states[i]).0);
        assert(is_absent(states, i, others));
    }
    if lacks_some(states, others) {
        let i = choose|i: int| #[trigger] is_absent(states, i, others);
        assert(!has_edid(others, states[i].0));
    }
}

proof fn turned_is_changed(current: States, previous: States, i: int)
    requires
        are_distinct(previous),
        0 <= i < current.len(),
    ensures
        has_turned(current, previous, i) == dpms_changed(current[i].0, current[i].1, previous),
{
    let edid = current[i].0;
    if has_turned(current, previous, i) {
        let j = choose|j: int|
            0 <= j < previous.len() && (#[trigger] previous[j]).0 == current[i].0
                && previous[j].1.awake != current[i].1.awake;
        edid_index_is(previous, j);
    }
    if has_edid(previous, edid) {
        let j = choose|j: int| 0 <= j < previous.len() && (#[trigger] previous[j]).0 == edid;
        edid_index_is(previous, j);
        assert(state_of(previous, edid) == Some(previous[j].1));
    }
}

proof fn turned_displays_are_told(current: States, previous: States) -> (places: Seq<int>)
    requires
        are_distinct(previous),
    ensures
        tell_of_turned(dpms_events(current, previous), 0, current, previous, places),
    decreases current.len(),
{
    if current.len() == 0 {
        Seq::empty()
    } else {
        let init = current.drop_last();
        let end = current.len() - 1;
        let before = turned_displays_are_told(init, previous);
        let events = dpms_events(current, previous);
        turned_is_changed(current, previous, end);
        let places = if has_turned(current, previous, end) {
            before.push(end)
        } else {
            before
        };
        assert forall|v: int| 0 <= v < places.len() implies has_turned(
            current,
            previous,
            #[trigger] places[v],
        ) && tells_of_power(events[v], current[places[v]].0, current[places[v]].1) by {
            if v < before.len() {
                assert(places[v] == before[v]);
                assert(has_turned(init, previous, before[v]));
                assert(init[before[v]] == current[before[v]]);
                assert(events[v] == dpms_events(init, previous)[v]);
            }
        }
        assert forall|i: int|
            0 <= i < current.len() && #[trigger] has_turned(
                current,
                previous,
                i,
            ) implies places.contains(i) by {
            if i < end {
                assert(init[i] == current[i]);
                assert(has_turned(init, previous, i));
                let v = choose|v: int| 0 <= v < before.len() && before[v] == i;
                assert(places[v] == i);
            } else {
                assert(places[before.len() as int] == end);
            }
        }
        assert forall|v: int| 0 <= v < places.len() implies 0 <= #[trigger] places[v]
            < current.len() by {
            if v < before.len() {
                assert(places[v] == before[v]);
            }
        }
        assert forall|v: int, w: int| 0 <= v < w < places.len() implies #[trigger] places[v]
            < #[trigger] places[w] by {
            assert(places[v] == before[v]);
            if w < before.len() {
                assert(places[w] == before[w]);
            }
        }
        places
    }
}

/// A look tells, against the one before, of displays that came or else went, in one
/// event that comes first, and after that of each display that both looks found and
/// that turned: whether it is awake now, its number and its EDID, in the order of the
/// look. It tells of nothing else, and of nothing at all where it sets the scene.
pub proof fn look_tells_what_changed(current: States, previous: States)
    requires
        forall|i: int, j: int|
            0 <= i < j < previous.len() ==> (#[trigger] previous[i]).0 != (
            #[trigger] previous[j]).0,
    ensures
        poll_events(current, previous, true).len() == 0,
        connection_changed(current, previous) == (lacks_some(current, previous) || lacks_some(
            previous,
            current,
        )),
        ({
            let events = poll_events(current, previous, false);
            let come = lacks_some(current, previous);
            let gone = lacks_some(previous, current);
            if come || gone {
                &&& tells_of_connection(events[0], come)
                &&& exists|places: Seq<int>| #[trigger]
                    tell_of_turned(events, 1, current, previous, places)
            } else {
                exists|places: Seq<int>| #[trigger]
                    tell_of_turned(events, 0, current, previous, places)
            }
        }),
{
    let events = poll_events(current, previous, false);
    let turned = dpms_events(current, previous);
    absence_is_lack(current, previous);
    absence_is_lack(previous, current);
    let places = turned_displays_are_told(current, previous);
    let first: int = if lacks_some(current, previous) || lacks_some(previous, current) {
        1
    } else {
        0
    };
    assert forall|v: int| 0 <= v < places.len() implies has_turned(
        current,
        previous,
        #[trigger] places[v],
    ) && tells_of_power(events[first + v], current[places[v]].0, current[places[v]].1) by {
        assert(tells_of_power(turned[0 + v], current[places[v]].0, current[places[v]].1));
        assert(events[first + v] == turned[v]);
    }
    assert(tell_of_turned(events, first, current, previous, places));
}

/// To record a display leaves every other as it was and where it was, puts the display
/// where one with the same EDID was, and otherwise at the end.
pub proof fn recording_puts_one_display(states: States, edid: Seq<char>, state: DisplayState)
    requires
        forall|i: int, j: int|
            0 <= i < j < states.len() ==> (#[trigger] states[i]).0 != (#[trigger] states[j]).0,
    ensures
        ({
            let after = recorded(states, edid, state);
            &&& forall|i: int|
                0 <= i < states.len() ==> i < after.len() && #[trigger] after[i] == if states[i].0
                    == edid {
                    (edid, state)
                } else {
                    states[i]
                }
            &&& if exists|i: int| 0 <= i < states.len() && (#[trigger] states[i]).0 == edid {
                after.len() == states.len()
            } else {
                after.len() == states.len() + 1 && after.last() == (edid, state)
            }
        }),
{
    let after = recorded(states, edid, state);
    assert forall|i: int| 0 <= i < states.len() implies i < after.len() && #[trigger] after[i]
        == if states[i].0 == edid {
        (edid, state)
    } else {
        states[i]
    } by {
        edid_index_is(states, i);
        if has_edid(states, edid) {
            let k = choose|k: int| 0 <= k < states.len() && (#[trigger] states[k]).0 == edid;
            edid_index_is(states, k);
        }
    }
}

/// A notice of libddcutil becomes the event that it is the code of, with the code as
/// its type. Displays are polled at once exactly on the notices that one came, went,
/// woke or fell asleep. The codes are those of the header, which differ.
pub proof fn notice_becomes_its_event(constants: HeaderConstants, event_type: u32)
    requires
        constants.event_display_connected != constants.event_display_disconnected,
        constants.event_dpms_awake != constants.event_display_connected,
        constants.event_dpms_awake != constants.event_display_disconnected,
        constants.event_dpms_asleep != constants.event_display_connected,
        constants.event_dpms_asleep != constants.event_display_disconnected,
        constants.event_dpms_asleep != constants.event_dpms_awake,
        constants.event_ddc_working != constants.event_display_connected,
        constants.event_ddc_working != constants.event_display_disconnected,
        constants.event_ddc_working != constants.event_dpms_awake,
        constants.event_ddc_working != constants.event_dpms_asleep,
    ensures
        ({
            let kind = notice_kind(event_type, constants);
            &&& (kind is Connected) == (event_type == constants.event_display_connected)
            &&& (kind is Disconnected) == (event_type == constants.event_display_disconnected)
            &&& (kind is DpmsAwake) == (event_type == constants.event_dpms_awake)
            &&& (kind is DpmsAsleep) == (event_type == constants.event_dpms_asleep)
            &&& (kind is DdcWorking) == (event_type == constants.event_ddc_working)
            &&& !(kind is DdcNotWorking) && !(kind is ConnectedDisplaysChanged)
            &&& kind matches DdcutilEventKind::Unknown(code) ==> code == event_type as i32
            &&& calls_for_poll(kind) == (event_type == constants.event_display_connected
                || event_type == constants.event_display_disconnected || event_type
                == constants.event_dpms_awake || event_type == constants.event_dpms_asleep)
            &&& notice_data(event_type) == json_object(
                seq![
                    ("event_type"@, Json::Number(event_type as int)),
                    ("flags"@, Json::Number(0)),
                ],
            )
        }),
{
}

/// Subscribers know an event of a display under the kind that it has, whichever it is,
/// and clients know each kind under its name.
pub proof fn kinds_keep_their_meaning(code: i32)
    ensures
        internal_kind(DdcutilEventKind::Connected) == InternalEventKind::Connected,
        internal_kind(DdcutilEventKind::Disconnected) == InternalEventKind::Disconnected,
        internal_kind(DdcutilEventKind::ConnectedDisplaysChanged)
            == InternalEventKind::ConnectedDisplaysChanged,
        internal_kind(DdcutilEventKind::DpmsAwake) == InternalEventKind::DpmsAwake,
        internal_kind(DdcutilEventKind::DpmsAsleep) == InternalEventKind::DpmsAsleep,
        internal_kind(DdcutilEventKind::DdcWorking) == InternalEventKind::DdcWorking,
        internal_kind(DdcutilEventKind::DdcNotWorking) == InternalEventKind::DdcNotWorking,
        internal_kind(DdcutilEventKind::Unknown(code)) == InternalEventKind::Unknown(code),
        DdcutilEventKind::Connected.name() == "DisplayConnected"@,
        DdcutilEventKind::Disconnected.name() == "DisplayDisconnected"@,
        DdcutilEventKind::ConnectedDisplaysChanged.name() == "ConnectedDisplaysChanged"@,
        DdcutilEventKind::DpmsAwake.name() == "DpmsAwake"@,
        DdcutilEventKind::DpmsAsleep.name() == "DpmsAsleep"@,
        DdcutilEventKind::DdcWorking.name() == "DdcWorking"@,
        DdcutilEventKind::DdcNotWorking.name() == "DdcNotWorking"@,
        DdcutilEventKind::Unknown(code).name() == "Unknown"@,
        InternalEventType::Connected.name() == "DisplayConnected"@,
        InternalEventType::Disconnected.name() == "DisplayDisconnected"@,
        InternalEventType::DpmsAwake.name() == "DpmsAwake"@,
        InternalEventType::DpmsAsleep.name() == "DpmsAsleep"@,
        InternalEventType::VcpChange.name() == "VcpChange"@,
{
}

/// The name of what caused an event.
pub open spec fn cause_in_words(cause: InternalEventType) -> Seq<char> {
    match cause {
        InternalEventType::Connected => "DisplayConnected"@,
        InternalEventType::Disconnected => "DisplayDisconnected"@,
        InternalEventType::DpmsAwake => "DpmsAwake"@,
        InternalEventType::DpmsAsleep => "DpmsAsleep"@,
        InternalEventType::VcpChange => "VcpChange"@,
    }
}

/// The event on a written feature holds what was written, by whom and where; a number
/// or an EDID that was not given is null.
pub proof fn written_feature_is_told(
    display_number: Option<i64>,
    edid_base64: Option<Seq<char>>,
    vcp_code: i64,
    new_value: i64,
    client_context: Seq<char>,
)
    ensures
        ({
            let event = vcp_changed_event(
                display_number,
                edid_base64,
                vcp_code,
                new_value,
                client_context,
            );
            let number = match display_number {
                Some(n) => Json::Number(n as int),
                None => Json::Null,
            };
            let edid = match edid_base64 {
                Some(text) => Json::Text(text),
                None => Json::Null,
            };
            &&& event.0 is VcpChange
            &&& event.1 == json_object(
                seq![
                    ("client_context"@, Json::Text(client_context)),
                    ("display_number"@, number),
                    ("edid_base64"@, edid),
                    ("event_type"@, Json::Text("VcpChange"@)),
                    ("new_value"@, Json::Number(new_value as int)),
                    ("origin"@, Json::Text("ddcutil-varlink"@)),
                    ("vcp_code"@, Json::Number(vcp_code as int)),
                ],
            )
        }),
{
}

/// The events on one display hold its EDID and the cause; the one on its power says
/// that it is awake exactly where that is the cause.
pub proof fn change_of_one_display_is_told(edid: Seq<char>, cause: InternalEventType)
    ensures
        hotplug_event(edid, cause).0 is ConnectedDisplaysChanged,
        hotplug_event(edid, cause).1 == json_object(
            seq![
                ("edid_base64"@, Json::Text(edid)),
                ("event_type"@, Json::Text(cause_in_words(cause))),
                ("flags"@, Json::Number(0)),
                ("origin"@, Json::Text("polling"@)),
            ],
        ),
        power_event(edid, cause).0 is ConnectedDisplaysChanged,
        power_event(edid, cause).1 == json_object(
            seq![
                ("awake"@, Json::Bool(cause_in_words(cause) == "DpmsAwake"@)),
                ("edid_base64"@, Json::Text(edid)),
                ("event_type"@, Json::Text(cause_in_words(cause))),
                ("flags"@, Json::Number(0)),
                ("origin"@, Json::Text("polling"@)),
            ],
        ),
{
    reveal_strlit("DisplayConnected");
    reveal_strlit("DisplayDisconnected");
    reveal_strlit("DpmsAwake");
    reveal_strlit("DpmsAsleep");
    reveal_strlit("VcpChange");
    assert("DpmsAsleep"@.len() == 10 && "DpmsAwake"@.len() == 9 && "VcpChange"@.len() == 9);
    assert("VcpChange"@[0] == 'V' && "DpmsAwake"@[0] == 'D');
}

/// Displays are detected again where the variable is `1`, or `true` in any case, and on
/// no other value.
pub proof fn redetection_is_asked_for_by_name(value: Seq<char>, lower: Seq<char>)
    ensures
        wants_redetect(value, lower) == (value == seq!['1'] || lower == seq!['t', 'r', 'u', 'e']),
{
    reveal_strlit("true");
    reveal_strlit("1");
    assert("true"@ =~= seq!['t', 'r', 'u', 'e']);
    assert("1"@ =~= seq!['1']);
}

/// A polling thread is started where none is held or the held one has ended. To start
/// and to stop touch only what is held of the thread, and to stop is to tell the held
/// thread and to wait for it.
pub proof fn polling_thread_is_held(state: ServiceSharedState, ended: bool)
    ensures
        state.lacks_thread(ended) == (ended || !state.poll_thread),
        ({
            let started = state.started();
            let stopped = state.stopped();
            &&& started.poll_thread && started.shutdown_dispatcher
            &&& !stopped.poll_thread && !stopped.shutdown_dispatcher
            &&& started.poll_interval_secs == stopped.poll_interval_secs
                == state.poll_interval_secs
            &&& started.poll_cascade_secs == state.poll_cascade_secs
            &&& stopped.poll_cascade_secs == state.poll_cascade_secs
            &&& started.poll_do_redetect == state.poll_do_redetect
            &&& stopped.poll_do_redetect == state.poll_do_redetect
            &&& started.events_enabled == state.events_enabled
            &&& stopped.events_enabled == state.events_enabled
        }),
        state.stopping() == (StopPolling {
            send_shutdown: state.shutdown_dispatcher,
            join: state.poll_thread,
        }),
        state.polling().interval == state.poll_interval_secs,
        state.polling().cascade == state.poll_cascade_secs,
        state.polling().do_redetect == state.poll_do_redetect,
        state.polling().events_enabled == state.events_enabled,
{
}

/// To enable events starts the watch over power modes and connections, unless they are
/// enabled; to disable them stops it without waiting, also where they are disabled.
pub proof fn events_are_watched_for(enabled: bool, constants: HeaderConstants)
    ensures
        watch_change(true, true, constants) is None,
        watch_change(false, true, constants) == Some(
            DdcRequest::StartWatch {
                classes: constants.event_class_dpms | constants.event_class_display_connection,
            },
        ),
        watch_change(enabled, false, constants) == Some(DdcRequest::StopWatch { wait: false }),
{
}

/// The stage asks libddcutil for this.
pub open spec fn startup_asks(step: StartupStepModel, request: DdcRequest) -> bool {
    step matches StartupStepModel::Ask { request: r, .. } && r == request
}

/// The start after a reply.
pub open spec fn starts_on(
    step: StartupStepModel,
    plan: StartupPlan,
    reply: DdcReply,
) -> StartupStepModel {
    match step {
        StartupStepModel::Ask { stage, .. } => stage.next(plan, reply),
        _ => arbitrary(),
    }
}

/// A start whose calls succeed initializes libddcutil; detects and lists the displays,
/// if the service is to tell of them; detects them, for the library; and registers the
/// callback, whose failure does no harm. Any other call that fails ends the start.
pub proof fn startup_makes_its_calls(
    displays: Vec<RawDisplay>,
    status: i32,
    others: Option<Vec<RawDisplay>>,
)
    ensures
        ({
            let done = DdcReply::Status { status: 0 };
            let failed = DdcReply::Status { status };
            let listed = DdcReply::Displays { status: 0, displays: Some(displays) };
            let unlisted = DdcReply::Displays { status, displays: others };
            let initial = StartupStage::Initializing;
            let service = StartupPlan::Service { diagnose: false };
            let telling = StartupPlan::Service { diagnose: true };
            let library = StartupPlan::Library;
            let quiet = initial.next(service, done);
            let detecting = initial.next(telling, done);
            let listing = starts_on(detecting, telling, done);
            let told = starts_on(listing, telling, listed);
            let searching = initial.next(library, done);
            let searched = starts_on(searching, library, done);
            &&& initial.request() is Init
            &&& startup_asks(quiet, DdcRequest::RegisterCallback)
            &&& startup_asks(detecting, DdcRequest::Redetect)
            &&& startup_asks(listing, DdcRequest::ListDisplays { include_invalid: false })
            &&& startup_asks(told, DdcRequest::RegisterCallback)
            &&& startup_asks(searching, DdcRequest::Redetect)
            &&& startup_asks(searched, DdcRequest::RegisterCallback)
            &&& starts_on(quiet, service, done) matches StartupStepModel::Ready { callback: Ok(_) }
            &&& starts_on(told, telling, done) matches StartupStepModel::Ready { callback: Ok(_) }
            &&& starts_on(searched, library, done) matches StartupStepModel::Ready {
                callback: Ok(_),
            }
            &&& status != 0 ==> {
                &&& initial.next(service, failed) is Failed
                &&& initial.next(telling, failed) is Failed
                &&& initial.next(library, failed) is Failed
                &&& starts_on(detecting, telling, failed) is Failed
                &&& starts_on(listing, telling, unlisted) is Failed
                &&& starts_on(searching, library, failed) is Failed
                &&& starts_on(quiet, service, failed) matches StartupStepModel::Ready {
                    callback: Err(_),
                }
                &&& starts_on(told, telling, failed) matches StartupStepModel::Ready {
                    callback: Err(_),
                }
                &&& starts_on(searched, library, failed) matches StartupStepModel::Ready {
                    callback: Err(_),
                }
            }
        }),
{
}

/// A call of the start that fails ends it, and tells which call failed with which status;
/// a missing list counts as status -1. Whether the callback was taken is told at the end.
pub proof fn failed_start_tells_where(
    stage: StartupStage,
    plan: StartupPlan,
    status: i32,
    displays: Option<Vec<RawDisplay>>,
)
    requires
        status != 0,
    ensures
        stage is Initializing || stage is Redetecting ==> stage.next(
            plan,
            DdcReply::Status { status },
        ) == (StartupStepModel::Failed { stage, error: ErrorModel::Status(status) }),
        stage is Listing ==> stage.next(plan, DdcReply::Displays { status, displays }) == (
        StartupStepModel::Failed { stage, error: ErrorModel::Status(status) }),
        stage is Listing ==> stage.next(plan, DdcReply::Displays { status: 0, displays: None })
            == (StartupStepModel::Failed { stage, error: ErrorModel::Status(-1i32) }),
        stage is Registering ==> stage.next(plan, DdcReply::Status { status }) == (
        StartupStepModel::Ready { callback: Err(ErrorModel::Status(status)) }),
{
}

/// The stream after an input.
pub open spec fn runs_on(
    at: (Stream, StreamActionModel),
    input: StreamInput,
) -> (Stream, StreamActionModel) {
    at.0.next(input)
}

/// The stream once its client was greeted and it was registered under the number.
pub open spec fn greeted(id: usize) -> (Stream, StreamActionModel) {
    let enabling = Stream::Polling.next(StreamInput::Done);
    let greeting = runs_on(enabling, StreamInput::Done);
    let registering = runs_on(greeting, StreamInput::Sent { delivered: true });
    runs_on(registering, StreamInput::Registered { id })
}

/// The stream after it received so many events, each of which reached the client.
pub open spec fn handed_on(
    at: (Stream, StreamActionModel),
    events: Seq<InternalEvent>,
    n: nat,
) -> (Stream, StreamActionModel)
    decreases n,
{
    if n == 0 {
        at
    } else {
        let before = handed_on(at, events, (n - 1) as nat);
        let sending = runs_on(before, StreamInput::Received { event: Some(events[n - 1]) });
        runs_on(sending, StreamInput::Sent { delivered: true })
    }
}

proof fn stream_keeps_receiving(id: usize, events: Seq<InternalEvent>, n: nat)
    requires
        n <= events.len(),
    ensures
        handed_on(greeted(id), events, n) == greeted(id),
    decreases n,
{
    if n > 0 {
        stream_keeps_receiving(id, events, (n - 1) as nat);
    }
}

/// A stream enables events, greets its client, registers, and receives. Every event
/// that it receives, however many came before, goes to the client unchanged. Once one
/// does not reach the client, or none can come, the stream is removed under the number
/// that it was registered under, is closed, and ends. A client whom the greeting does
/// not reach is never registered.
pub proof fn stream_hands_on_every_event(
    id: usize,
    events: Seq<InternalEvent>,
    k: int,
    delivered: bool,
)
    requires
        0 <= k < events.len(),
    ensures
        ({
            let done = StreamInput::Done;
            let lost = StreamInput::Sent { delivered: false };
            let enabling = Stream::Polling.next(done);
            let greeting = runs_on(enabling, done);
            let registering = runs_on(greeting, StreamInput::Sent { delivered: true });
            let receiving = handed_on(greeted(id), events, k as nat);
            let sending = runs_on(receiving, StreamInput::Received { event: Some(events[k]) });
            let dropped = runs_on(sending, lost);
            let ended = runs_on(receiving, StreamInput::Received { event: None });
            let closing = runs_on(ended, done);
            &&& enabling.1 is EnableEvents
            &&& greeting.1 == StreamActionModel::Reply {
                event: StreamEventModel::ServiceInitialized { data: "{}"@ },
                continues: true,
            }
            &&& runs_on(greeting, lost).1 is End
            &&& registering.1 is Register
            &&& receiving.1 is Receive
            &&& sending.1 == StreamActionModel::Reply {
                event: StreamEventModel::Internal { event: events[k]@ },
                continues: true,
            }
            &&& dropped.1 == StreamActionModel::Unregister { id }
            &&& ended.1 == StreamActionModel::Unregister { id }
            &&& runs_on(dropped, done) == closing
            &&& closing.1 == StreamActionModel::Reply {
                event: StreamEventModel::StreamClosed { data: "{}"@ },
                continues: false,
            }
            &&& runs_on(closing, StreamInput::Sent { delivered }).1 is End
        }),
{
    stream_keeps_receiving(id, events, k as nat);
}

} // verus!
