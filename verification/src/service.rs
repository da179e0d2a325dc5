//! The state of the service: its configuration, its polling thread, and the events
//! that it makes.
use crate::ddcutil::{
    check_status, listed, outcome, status_outcome, text_of, DisplayList, Error, ErrorModel, Result,
};
use crate::device::{answers, DdcReply, DdcRequest, Double, HeaderConstants, HALF_BITS};
use crate::events::{event_keys_are_ordered, InternalEvent, InternalEventKind, InternalEventType};
use crate::json::{json_object, members_of, object_text, Json, JsonMember, JsonValue};
use crate::poller::PollConfig;
use crate::subscribers;
use crate::subscribers::{is_broadcast, is_newcomer, others, Subscriber, SubscriberRegistry};
use crate::text::{ascii_lower, lowercase, lowercase_text};
use crossbeam_channel::Sender;
use vstd::pervasive::unreached;
use vstd::prelude::*;
use vstd::string::*;

verus! {

/// The value of an environment variable, given with its lower case equivalent,
/// asks for displays to be detected again before each poll.
pub open spec fn wants_redetect(value: Seq<char>, lower: Seq<char>) -> bool {
    lower == "true"@ || value == "1"@
}

/// Tells whether the value of an environment variable, given with its lower case
/// equivalent, asks for displays to be detected again before each poll.
pub fn is_redetect_wanted(value: &str, lower: &str) -> (res: bool)
    ensures
        res == wants_redetect(value@, lower@),
{
    lower.to_owned() == "true".to_owned() || value.to_owned() == "1".to_owned()
}

/// All state that must be protected by the single mutex.
/// This includes configuration, the polling thread, and any other shared data.
///
/// Displays are detected again before each poll only for libddcutil up to 2.1.
/// From 2.2 onward its own events on displays that come and go are reliable.
#[derive(Clone, Copy, Debug, PartialEq, Eq, Structural)]
pub struct ServiceSharedState {
    pub poll_interval_secs: u32,
    pub poll_cascade_secs: Double,
    pub poll_do_redetect: bool,
    pub events_enabled: bool,
    /// A polling thread was started, and is not yet awaited.
    pub poll_thread: bool,
    /// The channel that tells the polling thread to end is held.
    pub shutdown_dispatcher: bool,
}

impl ServiceSharedState {
    /// The channel to the polling thread is held exactly while the thread is.
    pub open spec fn is_valid(self) -> bool {
        self.poll_thread == self.shutdown_dispatcher
    }

    /// The state at the start: polls every 30 seconds, half a second after displays
    /// came or went, no events yet, and no polling thread. `redetect` is what the
    /// environment variable `DDCUTIL_POLL_DO_REDETECT` holds, where it is set.
    pub fn from_environment(redetect: Option<&str>) -> (res: ServiceSharedState)
        ensures
            res == (ServiceSharedState {
                poll_interval_secs: 30,
                poll_cascade_secs: Double { bits: HALF_BITS },
                poll_do_redetect: match redetect {
                    Some(value) => wants_redetect(value@, lowercase(value@)),
                    None => false,
                },
                events_enabled: false,
                poll_thread: false,
                shutdown_dispatcher: false,
            }),
            res.is_valid(),
            redetect matches Some(value) ==> value.is_ascii() ==> res.poll_do_redetect
                == wants_redetect(value@, value@.map_values(|c: char| ascii_lower(c))),
    {
        let poll_do_redetect = match redetect {
            Some(value) => is_redetect_wanted(value, lowercase_text(value).as_str()),
            None => false,
        };
        ServiceSharedState {
            poll_interval_secs: 30,
            poll_cascade_secs: Double { bits: HALF_BITS },
            poll_do_redetect,
            events_enabled: false,
            poll_thread: false,
            shutdown_dispatcher: false,
        }
    }

    /// What the polling thread reads of the state.
    pub open spec fn polling(self) -> PollConfig {
        PollConfig {
            interval: self.poll_interval_secs,
            cascade: self.poll_cascade_secs,
            do_redetect: self.poll_do_redetect,
            events_enabled: self.events_enabled,
        }
    }

    /// A polling thread has to be started: none is held, or the one that is held has
    /// ended.
    pub open spec fn lacks_thread(self, ended: bool) -> bool {
        !self.poll_thread || ended
    }

    /// The state once a polling thread is held.
    pub open spec fn started(self) -> ServiceSharedState {
        ServiceSharedState { poll_thread: true, shutdown_dispatcher: true, ..self }
    }

    /// The state once no polling thread is held.
    pub open spec fn stopped(self) -> ServiceSharedState {
        ServiceSharedState { poll_thread: false, shutdown_dispatcher: false, ..self }
    }

    /// What is to be done so that no polling thread runs.
    pub open spec fn stopping(self) -> StopPolling {
        StopPolling { send_shutdown: self.shutdown_dispatcher, join: self.poll_thread }
    }

    /// Gives what the polling thread reads of the state.
    pub fn poll_config(&self) -> (res: PollConfig)
        ensures
            res == self.polling(),
    {
        PollConfig {
            interval: self.poll_interval_secs,
            cascade: self.poll_cascade_secs,
            do_redetect: self.poll_do_redetect,
            events_enabled: self.events_enabled,
        }
    }
}

/// The service: its state, and whether methods that change the configuration are
/// refused.
#[derive(Clone, Copy, Debug, PartialEq, Eq, Structural)]
pub struct DdcutilService {
    pub state: ServiceSharedState,
    pub configuration_locked: bool,
}

/// What is to be done to end the polling thread, in this order.
#[derive(Clone, Copy, Debug, PartialEq, Eq, Structural)]
pub struct StopPolling {
    /// Tell the thread to end, and drop the channel to it.
    pub send_shutdown: bool,
    /// Wait until the thread has ended.
    pub join: bool,
}

impl DdcutilService {
    /// A service that was just started, with an open configuration. `redetect` is
    /// what the environment variable `DDCUTIL_POLL_DO_REDETECT` holds.
    pub fn new(redetect: Option<&str>) -> (res: DdcutilService)
        ensures
            res.state.is_valid(),
            !res.configuration_locked,
            res.state.poll_interval_secs == 30,
            res.state.poll_cascade_secs.bits == HALF_BITS,
            res.state.poll_do_redetect == match redetect {
                Some(value) => wants_redetect(value@, lowercase(value@)),
                None => false,
            },
            redetect matches Some(value) ==> value.is_ascii() ==> res.state.poll_do_redetect
                == wants_redetect(value@, value@.map_values(|c: char| ascii_lower(c))),
            !res.state.events_enabled,
            !res.state.poll_thread,
    {
        DdcutilService {
            state: ServiceSharedState::from_environment(redetect),
            configuration_locked: false,
        }
    }

    /// Adds a subscriber to events, and gives its number.
    pub fn subscribe_to_internal_events(
        registry: &mut SubscriberRegistry,
        event_sender: Sender<InternalEvent>,
    ) -> (id: usize)
        ensures
            id == old(registry).next_id,
            final(registry).next_id == (if id == usize::MAX {
                0
            } else {
                id + 1
            }),
            final(registry).subscribers@.len() == old(registry).subscribers@.len() + 1,
            final(registry).subscribers@.drop_last() == old(registry).subscribers@,
            is_newcomer(final(registry).subscribers@.last(), id, event_sender),
            old(registry).is_valid() && id < usize::MAX ==> final(registry).is_valid(),
    {
        subscribers::subscribe_to_intneral_events(registry, event_sender)
    }

    /// Removes the subscriber with the given number.
    pub fn unsubscribe_from_events(registry: &mut SubscriberRegistry, id: usize)
        ensures
            final(registry).next_id == old(registry).next_id,
            final(registry).subscribers@ == others(old(registry).subscribers@, id),
            old(registry).is_valid() ==> final(registry).is_valid(),
    {
        subscribers::unsubscribe_from_events(registry, id)
    }

    /// Tells every subscriber that a feature was written. Gives those who cannot
    /// receive any more, who are subscribers no longer.
    pub fn broadcast_set_vcp(
        registry: &mut SubscriberRegistry,
        display_number: Option<i64>,
        edid_base64: Option<&str>,
        vcp_code: i64,
        new_value: i64,
        client_context: Option<String>,
    ) -> (gone: Vec<Subscriber>)
        ensures
            final(registry).next_id == old(registry).next_id,
            exists|event: InternalEvent|
                event@ == vcp_changed_event(
                    display_number,
                    text_of(edid_base64),
                    vcp_code,
                    new_value,
                    match client_context {
                        Some(context) => context@,
                        None => Seq::empty(),
                    },
                ) && #[trigger] is_broadcast(
                    old(registry).subscribers@,
                    final(registry).subscribers@,
                    gone@,
                    event,
                ),
            old(registry).is_valid() ==> final(registry).is_valid(),
    {
        let context = match client_context {
            Some(context) => context,
            None => String::new(),
        };
        let event = build_vcp_changed_event(
            display_number,
            edid_base64,
            vcp_code,
            new_value,
            context,
        );
        assert(client_context is None ==> context@ =~= Seq::empty());
        subscribers::broadcast_to_subscribers(registry, event)
    }

    /// Decides whether a polling thread is to be started: one is, unless one is
    /// running already. `ended` tells whether the thread that is held has ended, as one
    /// does by itself when the interval is zero; such a thread is replaced.
    pub fn start_polling(&mut self, ended: bool) -> (spawn: bool)
        ensures
            spawn == old(self).state.lacks_thread(ended),
            final(self).state == (if spawn {
                old(self).state.started()
            } else {
                old(self).state
            }),
            old(self).state.is_valid() ==> final(self).state == old(self).state.started(),
            final(self).configuration_locked == old(self).configuration_locked,
    {
        if self.state.poll_thread && !ended {
            return false;
        }
        self.state.poll_thread = true;
        self.state.shutdown_dispatcher = true;
        true
    }

    /// Decides what is to be done so that no polling thread runs.
    pub fn stop_polling(&mut self) -> (res: StopPolling)
        ensures
            res == old(self).state.stopping(),
            final(self).state == old(self).state.stopped(),
            final(self).configuration_locked == old(self).configuration_locked,
    {
        let res = StopPolling {
            send_shutdown: self.state.shutdown_dispatcher,
            join: self.state.poll_thread,
        };
        self.state.shutdown_dispatcher = false;
        self.state.poll_thread = false;
        res
    }

    /// Enables or disables events, and gives the call of libddcutil that starts or
    /// stops the watch over displays. There is nothing to call where events are to
    /// be enabled and already are.
    pub fn set_events_enabled(&mut self, enable: bool, constants: &HeaderConstants) -> (res: Option<
        DdcRequest,
    >)
        ensures
            res == watch_change(old(self).state.events_enabled, enable, *constants),
            final(self).state == (ServiceSharedState {
                events_enabled: enable,
                ..old(self).state
            }),
            final(self).configuration_locked == old(self).configuration_locked,
    {
        if enable && self.state.events_enabled {
            return None;
        }
        self.state.events_enabled = enable;
        Some(watch_displays(enable, constants))
    }
}

/// The call that starts or stops the watch over displays.
pub open spec fn watch_request(enable: bool, constants: HeaderConstants) -> DdcRequest {
    if enable {
        DdcRequest::StartWatch {
            classes: constants.event_class_dpms | constants.event_class_display_connection,
        }
    } else {
        DdcRequest::StopWatch { wait: false }
    }
}

/// The call that a change of the service's events takes, if any.
pub open spec fn watch_change(enabled: bool, enable: bool, constants: HeaderConstants) -> Option<
    DdcRequest,
> {
    if enable && enabled {
        None
    } else {
        Some(watch_request(enable, constants))
    }
}

/// Makes the call that starts the watch over displays, for their power modes and
/// their connections, or stops it without waiting.
pub fn watch_displays(enable: bool, constants: &HeaderConstants) -> (res: DdcRequest)
    ensures
        res == watch_request(enable, *constants),
{
    if enable {
        DdcRequest::StartWatch {
            classes: constants.event_class_dpms | constants.event_class_display_connection,
        }
    } else {
        DdcRequest::StopWatch { wait: false }
    }
}

/// After a start one polling thread is running: the one that ran before, or else a new
/// one, also where one had ended by itself. To start again starts no other, to stop
/// ends the one, and to stop again does nothing. What the state holds besides is not
/// touched.
pub proof fn polling_runs_one_thread(state: ServiceSharedState, ended: bool)
    requires
        state.is_valid(),
    ensures
        ({
            let running: int = if state.poll_thread && !ended {
                1
            } else {
                0
            };
            let begun: int = if state.lacks_thread(ended) {
                1
            } else {
                0
            };
            running + begun == 1
        }),
        !state.started().lacks_thread(false),
        state.stopped().lacks_thread(ended),
        state.started().is_valid() && state.started().poll_thread,
        state.started().started() == state.started(),
        state.started().stopping() == (StopPolling { send_shutdown: true, join: true }),
        state.stopped().is_valid() && !state.stopped().poll_thread,
        state.stopped().stopping() == (StopPolling { send_shutdown: false, join: false }),
        state.stopped().stopped() == state.stopped(),
        state.started().stopped() == state.stopped(),
        state.stopped().started() == state.started(),
        state.started().polling() == state.polling(),
        state.stopped().polling() == state.polling(),
{
}

/// What a member of an event holds for a value that may be missing.
pub open spec fn optional_number(number: Option<i64>) -> Json {
    match number {
        Some(n) => Json::Number(n as int),
        None => Json::Null,
    }
}

/// What a member of an event holds for a text that may be missing.
pub open spec fn optional_text(text: Option<Seq<char>>) -> Json {
    match text {
        Some(t) => Json::Text(t),
        None => Json::Null,
    }
}

/// The event that tells of a feature that a client wrote.
pub open spec fn vcp_changed_event(
    display_number: Option<i64>,
    edid_base64: Option<Seq<char>>,
    vcp_code: i64,
    new_value: i64,
    client_context: Seq<char>,
) -> (InternalEventKind, Seq<char>) {
    (
        InternalEventKind::VcpChange,
        json_object(
            seq![
                ("client_context"@, Json::Text(client_context)),
                ("display_number"@, optional_number(display_number)),
                ("edid_base64"@, optional_text(edid_base64)),
                ("event_type"@, Json::Text(InternalEventType::VcpChange.name())),
                ("new_value"@, Json::Number(new_value as int)),
                ("origin"@, Json::Text("ddcutil-varlink"@)),
                ("vcp_code"@, Json::Number(vcp_code as int)),
            ],
        ),
    )
}

/// Builds the event that tells of a feature that a client wrote.
pub fn build_vcp_changed_event(
    display_number: Option<i64>,
    edid_base64: Option<&str>,
    vcp_code: i64,
    new_value: i64,
    client_context: String,
) -> (res: InternalEvent)
    ensures
        res@ == vcp_changed_event(
            display_number,
            text_of(edid_base64),
            vcp_code,
            new_value,
            client_context@,
        ),
{
    let number = match display_number {
        Some(n) => JsonValue::Number(n),
        None => JsonValue::Null,
    };
    let edid = match edid_base64 {
        Some(edid) => JsonValue::Text(edid.to_owned()),
        None => JsonValue::Null,
    };
    let members = vec![
        JsonMember { key: "client_context", value: JsonValue::Text(client_context) },
        JsonMember { key: "display_number", value: number },
        JsonMember { key: "edid_base64", value: edid },
        JsonMember {
            key: "event_type",
            value: JsonValue::Text(InternalEventType::VcpChange.as_str().to_owned()),
        },
        JsonMember { key: "new_value", value: JsonValue::Number(new_value) },
        JsonMember { key: "origin", value: JsonValue::Text("ddcutil-varlink".to_owned()) },
        JsonMember { key: "vcp_code", value: JsonValue::Number(vcp_code) },
    ];
    proof {
        event_keys_are_ordered();
        assert(members_of(members@) =~= seq![
            ("client_context"@, Json::Text(client_context@)),
            ("display_number"@, optional_number(display_number)),
            ("edid_base64"@, optional_text(text_of(edid_base64))),
            ("event_type"@, Json::Text(InternalEventType::VcpChange.name())),
            ("new_value"@, Json::Number(new_value as int)),
            ("origin"@, Json::Text("ddcutil-varlink"@)),
            ("vcp_code"@, Json::Number(vcp_code as int)),
        ]);
    }
    InternalEvent { kind: InternalEventKind::VcpChange, data: object_text(&members) }
}

/// The event that tells of one display that was connected or disconnected.
pub open spec fn hotplug_event(edid: Seq<char>, event_type: InternalEventType) -> (
    InternalEventKind,
    Seq<char>,
) {
    (
        InternalEventKind::ConnectedDisplaysChanged,
        json_object(
            seq![
                ("edid_base64"@, Json::Text(edid)),
                ("event_type"@, Json::Text(event_type.name())),
                ("flags"@, Json::Number(0)),
                ("origin"@, Json::Text("polling"@)),
            ],
        ),
    )
}

/// Builds an event for a display that was connected or disconnected.
/// The EDID may be empty for a disconnect (no longer available).
pub fn build_hotplug_event(edid: &String, event_type: InternalEventType) -> (res: InternalEvent)
    ensures
        res@ == hotplug_event(edid@, event_type),
{
    let members = vec![
        JsonMember { key: "edid_base64", value: JsonValue::Text(edid.clone()) },
        JsonMember { key: "event_type", value: JsonValue::Text(event_type.as_str().to_owned()) },
        JsonMember { key: "flags", value: JsonValue::Number(0) },
        JsonMember { key: "origin", value: JsonValue::Text("polling".to_owned()) },
    ];
    proof {
        event_keys_are_ordered();
        assert(members_of(members@) =~= seq![
            ("edid_base64"@, Json::Text(edid@)),
            ("event_type"@, Json::Text(event_type.name())),
            ("flags"@, Json::Number(0)),
            ("origin"@, Json::Text("polling"@)),
        ]);
    }
    InternalEvent {
        kind: InternalEventKind::ConnectedDisplaysChanged,
        data: object_text(&members),
    }
}

/// The event that tells of one display that was woken or put to sleep.
pub open spec fn power_event(edid: Seq<char>, event_type: InternalEventType) -> (
    InternalEventKind,
    Seq<char>,
) {
    (
        InternalEventKind::ConnectedDisplaysChanged,
        json_object(
            seq![
                ("awake"@, Json::Bool(event_type is DpmsAwake)),
                ("edid_base64"@, Json::Text(edid)),
                ("event_type"@, Json::Text(event_type.name())),
                ("flags"@, Json::Number(0)),
                ("origin"@, Json::Text("polling"@)),
            ],
        ),
    )
}

/// Builds an event for a display that was woken or put to sleep.
pub fn build_dpms_event(edid: &String, event_type: InternalEventType) -> (res: InternalEvent)
    ensures
        res@ == power_event(edid@, event_type),
{
    let awake = event_type == InternalEventType::DpmsAwake;
    let members = vec![
        JsonMember { key: "awake", value: JsonValue::Bool(awake) },
        JsonMember { key: "edid_base64", value: JsonValue::Text(edid.clone()) },
        JsonMember { key: "event_type", value: JsonValue::Text(event_type.as_str().to_owned()) },
        JsonMember { key: "flags", value: JsonValue::Number(0) },
        JsonMember { key: "origin", value: JsonValue::Text("polling".to_owned()) },
    ];
    proof {
        event_keys_are_ordered();
        assert(members_of(members@) =~= seq![
            ("awake"@, Json::Bool(event_type is DpmsAwake)),
            ("edid_base64"@, Json::Text(edid@)),
            ("event_type"@, Json::Text(event_type.name())),
            ("flags"@, Json::Number(0)),
            ("origin"@, Json::Text("polling"@)),
        ]);
    }
    InternalEvent {
        kind: InternalEventKind::ConnectedDisplaysChanged,
        data: object_text(&members),
    }
}

/// Which of the two ways of running libddcutil is to be started.
#[derive(Clone, Copy, Debug, PartialEq, Eq, Structural)]
pub enum StartupPlan {
    /// The service. It may list the displays first, to log them.
    Service { diagnose: bool },
    /// The library with its own configuration.
    Library,
}

/// What the start is waiting for.
#[derive(Clone, Copy, Debug, PartialEq, Eq, Structural)]
pub enum StartupStage {
    Initializing,
    Redetecting,
    Listing,
    Registering,
}

/// How far the start has come.
pub enum StartupStep {
    Ask { stage: StartupStage, request: DdcRequest },
    /// All is set up. Polling works even if libddcutil did not take the callback.
    Ready { callback: Result<()> },
    /// The start cannot go on.
    Failed { stage: StartupStage, error: Error },
}

/// What a step of the start leads to.
pub enum StartupStepModel {
    Ask { stage: StartupStage, request: DdcRequest },
    Ready { callback: std::result::Result<(), ErrorModel> },
    Failed { stage: StartupStage, error: ErrorModel },
}

impl View for StartupStep {
    type V = StartupStepModel;

    open spec fn view(&self) -> StartupStepModel {
        match *self {
            StartupStep::Ask { stage, request } => StartupStepModel::Ask { stage, request },
            StartupStep::Ready { callback } => StartupStepModel::Ready {
                callback: outcome(callback),
            },
            StartupStep::Failed { stage, error } => StartupStepModel::Failed {
                stage,
                error: error@,
            },
        }
    }
}

impl StartupStage {
    /// The reply is one that this stage waits for.
    pub open spec fn accepts(self, reply: DdcReply) -> bool {
        if self is Listing {
            reply is Displays
        } else {
            reply is Status
        }
    }

    /// The call that this stage makes.
    pub open spec fn request(self) -> DdcRequest {
        match self {
            StartupStage::Initializing => DdcRequest::Init,
            StartupStage::Redetecting => DdcRequest::Redetect,
            StartupStage::Listing => DdcRequest::ListDisplays { include_invalid: false },
            StartupStage::Registering => DdcRequest::RegisterCallback,
        }
    }

    /// The stage that follows, where all went well.
    pub open spec fn following(self, plan: StartupPlan) -> StartupStage {
        match (self, plan) {
            (StartupStage::Initializing, StartupPlan::Service { diagnose }) => if diagnose {
                StartupStage::Redetecting
            } else {
                StartupStage::Registering
            },
            (StartupStage::Initializing, StartupPlan::Library) => StartupStage::Redetecting,
            (StartupStage::Redetecting, StartupPlan::Service { .. }) => StartupStage::Listing,
            _ => StartupStage::Registering,
        }
    }

    /// How many replies may still be needed.
    pub open spec fn rank(self) -> nat {
        match self {
            StartupStage::Initializing => 4,
            StartupStage::Redetecting => 3,
            StartupStage::Listing => 2,
            StartupStage::Registering => 1,
        }
    }

    /// What comes after a reply: every call but the last must succeed.
    pub open spec fn next(self, plan: StartupPlan, reply: DdcReply) -> StartupStepModel {
        let result = match reply {
            DdcReply::Status { status } => status_outcome(status),
            DdcReply::Displays { status, displays } => match listed(status, displays) {
                Ok(_) => Ok(()),
                Err(error) => Err(error),
            },
            _ => arbitrary(),
        };
        match (self, result) {
            (StartupStage::Registering, _) => StartupStepModel::Ready { callback: result },
            (_, Err(error)) => StartupStepModel::Failed { stage: self, error },
            (_, Ok(_)) => StartupStepModel::Ask {
                stage: self.following(plan),
                request: self.following(plan).request(),
            },
        }
    }

    /// Gives the call that this stage makes.
    pub fn make_request(self) -> (res: DdcRequest)
        ensures
            res == self.request(),
            forall|r: DdcReply| #[trigger] answers(res, r) ==> self.accepts(r),
    {
        match self {
            StartupStage::Initializing => DdcRequest::Init,
            StartupStage::Redetecting => DdcRequest::Redetect,
            StartupStage::Listing => DdcRequest::ListDisplays { include_invalid: false },
            StartupStage::Registering => DdcRequest::RegisterCallback,
        }
    }

    /// Takes a reply of libddcutil. The start begins with `Initializing`.
    pub fn resume(self, plan: StartupPlan, reply: DdcReply) -> (res: StartupStep)
        requires
            self.accepts(reply),
        ensures
            res@ == self.next(plan, reply),
            res matches StartupStep::Ask { stage, request } ==> stage.rank() < self.rank()
                && forall|r: DdcReply| #[trigger] answers(request, r) ==> stage.accepts(r),
    {
        let result = match reply {
            DdcReply::Status { status } => check_status(status),
            DdcReply::Displays { status, displays } => match DisplayList::new(status, displays) {
                Ok(_) => Ok(()),
                Err(error) => Err(error),
            },
            _ => unreached(),
        };
        match self {
            StartupStage::Registering => StartupStep::Ready { callback: result },
            _ => match result {
                Err(error) => StartupStep::Failed { stage: self, error },
                Ok(_) => {
                    let stage = match self {
                        StartupStage::Initializing => match plan {
                            StartupPlan::Service { diagnose: false } => StartupStage::Registering,
                            _ => StartupStage::Redetecting,
                        },
                        StartupStage::Redetecting => match plan {
                            StartupPlan::Service { .. } => StartupStage::Listing,
                            StartupPlan::Library => StartupStage::Registering,
                        },
                        _ => StartupStage::Registering,
                    };
                    StartupStep::Ask { stage, request: stage.make_request() }
                },
            },
        }
    }
}

} // verus!
