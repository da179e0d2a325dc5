//! What each method of the interface begins with, what is refused, and what the settings
//! of the service and of the library object come to.
use crate::changes::redetection_is_asked_for_by_name;
use crate::controller::{Ddcutil, DdcutilConfig};
use crate::courses::searching;
use crate::ddcutil::Result as DdcResult;
use crate::device::{DdcRequest, Double, HALF_BITS, HeaderConstants};
use crate::methods::Refusal;
use crate::operation::{Operation, OperationModel, Purpose, StageModel, Step, Target};
use crate::poller::PollConfig;
use crate::service::{
    is_redetect_wanted, watch_displays, DdcutilService, ServiceSharedState, StopPolling,
};
use crate::terms::{
    doubles_compare_by_sign_and_exponent, exponent, fraction, is_no_number, is_zero, sign,
};
use crate::text::{ascii_lower, lowercase};
use crate::varlink_impl::CallOptions;
use vstd::prelude::*;
use vstd::string::*;

verus! {

/// The display that a client names with these options.
pub open spec fn named(
    display_number: Option<i64>,
    edid_base64: Option<String>,
    options: Option<CallOptions>,
) -> Target {
    Target {
        display_number,
        edid_base64,
        allow_edid_prefix: match options {
            Some(given) => given.allow_edid_prefix == Some(true),
            None => false,
        },
    }
}

/// The method begins for this purpose: it asks libddcutil so, and waits for the reply.
pub open spec fn sets_out(
    begun: (Operation, Step),
    purpose: Purpose,
    stage: StageModel,
    request: DdcRequest,
) -> bool {
    &&& begun.0@ == OperationModel { purpose, stage }
    &&& begun.1 == Step::Ask { request }
}

/// The method begins by listing the displays in which it searches, with those that do not
/// work exactly where the beginning of an EDID will do.
pub open spec fn sets_out_to_search(
    begun: (Operation, Step),
    purpose: Purpose,
    target: Target,
) -> bool {
    &&& begun.0@ == searching(purpose)
    &&& begun.1 == Step::Ask {
        request: DdcRequest::ListDisplays { include_invalid: target.allow_edid_prefix },
    }
}

/// To detect displays begins with the redetection, and to list them with the list, for
/// the displays that the client asked for.
pub proof fn listing_begins(
    service: &DdcutilService,
    include_offline: bool,
    detecting: (Operation, Step),
    listing: (Operation, Step),
)
    requires
        call_ensures(DdcutilService::detect, (service, include_offline), detecting),
        call_ensures(DdcutilService::list_detected, (service, include_offline), listing),
    ensures
        sets_out(
            detecting,
            Purpose::Detect { include_offline },
            StageModel::Redetecting,
            DdcRequest::Redetect,
        ),
        sets_out(
            listing,
            Purpose::ListDetected { include_offline },
            StageModel::Listing,
            DdcRequest::ListDisplays { include_invalid: include_offline },
        ),
{
}

/// To ask for a setting of libddcutil begins with the call that gives it.
pub proof fn question_begins(
    service: &DdcutilService,
    sleep: (Operation, Step),
    level: (Operation, Step),
    version: (Operation, Step),
)
    requires
        call_ensures(DdcutilService::get_ddcutil_dynamic_sleep, (service,), sleep),
        call_ensures(DdcutilService::get_ddcutil_output_level, (service,), level),
        call_ensures(DdcutilService::get_ddcutil_version, (service,), version),
    ensures
        sets_out(
            sleep,
            Purpose::GetDynamicSleep,
            StageModel::Asking,
            DdcRequest::DynamicSleepEnabled,
        ),
        sets_out(level, Purpose::GetOutputLevel, StageModel::Asking, DdcRequest::OutputLevel),
        sets_out(version, Purpose::GetVersion, StageModel::Asking, DdcRequest::Version),
{
}

/// To ask for the state or the pauses of a display begins with the search for the
/// display that the client named.
pub proof fn question_on_a_display_begins(
    service: &DdcutilService,
    display_number: Option<i64>,
    edid_base64: Option<String>,
    options: Option<CallOptions>,
    state: (Operation, Step),
    multiplier: (Operation, Step),
)
    requires
        call_ensures(
            DdcutilService::get_display_state,
            (service, display_number, edid_base64, options),
            state,
        ),
        call_ensures(
            DdcutilService::get_sleep_multiplier,
            (service, display_number, edid_base64, options),
            multiplier,
        ),
    ensures
        ({
            let target = named(display_number, edid_base64, options);
            &&& sets_out_to_search(state, Purpose::GetDisplayState { target }, target)
            &&& sets_out_to_search(multiplier, Purpose::GetSleepMultiplier { target }, target)
        }),
{
}

/// To ask for the capabilities of a display begins with the search for it.
pub proof fn question_on_capabilities_begins(
    service: &DdcutilService,
    display_number: Option<i64>,
    edid_base64: Option<String>,
    options: Option<CallOptions>,
    gathering: (Operation, Step),
    text: (Operation, Step),
)
    requires
        call_ensures(
            DdcutilService::get_capabilities_metadata,
            (service, display_number, edid_base64, options),
            gathering,
        ),
        call_ensures(
            DdcutilService::get_capabilities_string,
            (service, display_number, edid_base64, options),
            text,
        ),
    ensures
        ({
            let target = named(display_number, edid_base64, options);
            &&& sets_out_to_search(gathering, Purpose::GetCapabilitiesMetadata { target }, target)
            &&& sets_out_to_search(text, Purpose::GetCapabilitiesString { target }, target)
        }),
{
}

/// To read features of a display, or to ask for the metadata of one, begins with the
/// search for it, for the codes that the client gave.
pub proof fn reading_begins(
    service: &DdcutilService,
    display_number: Option<i64>,
    edid_base64: Option<String>,
    vcp_code: i64,
    vcp_codes: Vec<i64>,
    options: Option<CallOptions>,
    constants: &HeaderConstants,
    one: (Operation, Step),
    several: (Operation, Step),
    metadata: (Operation, Step),
)
    requires
        call_ensures(
            DdcutilService::get_vcp,
            (service, display_number, edid_base64, vcp_code, options),
            one,
        ),
        call_ensures(
            DdcutilService::get_multiple_vcp,
            (service, display_number, edid_base64, vcp_codes, options),
            several,
        ),
        call_ensures(
            DdcutilService::get_vcp_metadata,
            (service, display_number, edid_base64, vcp_code, options, constants),
            metadata,
        ),
    ensures
        ({
            let target = named(display_number, edid_base64, options);
            &&& sets_out_to_search(one, Purpose::GetVcp { target, vcp_code }, target)
            &&& sets_out_to_search(several, Purpose::GetMultipleVcp { target, vcp_codes }, target)
            &&& sets_out_to_search(
                metadata,
                Purpose::GetVcpMetadata { target, vcp_code, constants: *constants },
                target,
            )
        }),
{
}

/// Where the configuration is locked, the method is refused for that reason and nothing
/// begins; otherwise it begins.
pub open spec fn is_refused_if_locked(
    service: DdcutilService,
    res: Result<(Operation, Step), Refusal>,
) -> bool {
    match res {
        Ok(_) => !service.configuration_locked,
        Err(refusal) => service.configuration_locked && refusal is ConfigurationLocked,
    }
}

/// To write a feature begins with the search for the display, with what the client gave;
/// it is verified unless the options waive that. A locked configuration refuses it.
pub proof fn writing_begins(
    service: &DdcutilService,
    display_number: Option<i64>,
    edid_base64: Option<String>,
    vcp_code: i64,
    new_value: i64,
    client_context: Option<String>,
    options: Option<CallOptions>,
    res: Result<(Operation, Step), Refusal>,
)
    requires
        call_ensures(
            DdcutilService::set_vcp,
            (service, display_number, edid_base64, vcp_code, new_value, client_context, options),
            res,
        ),
    ensures
        is_refused_if_locked(*service, res),
        res matches Ok(begun) ==> {
            let target = named(display_number, edid_base64, options);
            let verify = match options {
                Some(given) => given.skip_verify != Some(true),
                None => true,
            };
            sets_out_to_search(
                begun,
                Purpose::SetVcp { target, vcp_code, new_value, client_context, verify },
                target,
            )
        },
{
}

/// To set the pauses for a display begins with the search for it, with the number that
/// the client gave. A locked configuration refuses it.
pub proof fn tuning_begins(
    service: &DdcutilService,
    display_number: Option<i64>,
    edid_base64: Option<String>,
    multiplier: Double,
    options: Option<CallOptions>,
    res: Result<(Operation, Step), Refusal>,
)
    requires
        call_ensures(
            DdcutilService::set_sleep_multiplier,
            (service, display_number, edid_base64, multiplier, options),
            res,
        ),
    ensures
        is_refused_if_locked(*service, res),
        res matches Ok(begun) ==> {
            let target = named(display_number, edid_base64, options);
            sets_out_to_search(begun, Purpose::SetSleepMultiplier { target, multiplier }, target)
        },
{
}

/// To change a setting of libddcutil begins with the call that changes it to what the
/// client gave. A locked configuration refuses it.
pub proof fn change_of_libddcutil_begins(
    service: &DdcutilService,
    enabled: bool,
    level: i64,
    sleep: Result<(Operation, Step), Refusal>,
    output: Result<(Operation, Step), Refusal>,
)
    requires
        call_ensures(DdcutilService::set_ddcutil_dynamic_sleep, (service, enabled), sleep),
        call_ensures(DdcutilService::set_ddcutil_output_level, (service, level), output),
    ensures
        is_refused_if_locked(*service, sleep),
        sleep matches Ok(begun) ==> sets_out(
            begun,
            Purpose::SetDynamicSleep,
            StageModel::Asking,
            DdcRequest::EnableDynamicSleep { enabled },
        ),
        is_refused_if_locked(*service, output),
        output matches Ok(begun) ==> sets_out(
            begun,
            Purpose::SetOutputLevel,
            StageModel::Asking,
            DdcRequest::SetOutputLevel { level: level as u32 },
        ),
{
}

/// The service tells its version and its intervals as they are.
pub proof fn service_tells_its_settings(
    service: &DdcutilService,
    version: String,
    cascade: Double,
    interval: i64,
    polling: PollConfig,
)
    requires
        call_ensures(DdcutilService::get_service_interface_version, (service,), version),
        call_ensures(DdcutilService::get_service_poll_cascade_interval, (service,), cascade),
        call_ensures(DdcutilService::get_service_poll_interval, (service,), interval),
        call_ensures(ServiceSharedState::poll_config, (&service.state,), polling),
    ensures
        version@ == seq!['1', '.', '0', '.', '0'],
        cascade == service.state.poll_cascade_secs,
        interval == service.state.poll_interval_secs,
        polling.interval == service.state.poll_interval_secs,
        polling.cascade == service.state.poll_cascade_secs,
        polling.do_redetect == service.state.poll_do_redetect,
        polling.events_enabled == service.state.events_enabled,
{
    reveal_strlit("1.0.0");
}

/// The states are the same but for the interval of polls.
pub open spec fn differ_by_interval(before: DdcutilService, after: DdcutilService) -> bool {
    &&& after.configuration_locked == before.configuration_locked
    &&& after.state.poll_cascade_secs == before.state.poll_cascade_secs
    &&& after.state.poll_do_redetect == before.state.poll_do_redetect
    &&& after.state.events_enabled == before.state.events_enabled
    &&& after.state.poll_thread == before.state.poll_thread
    &&& after.state.shutdown_dispatcher == before.state.shutdown_dispatcher
}

/// An interval that is set is the one that is told from then on, and nothing else
/// changes. It is refused where the configuration is locked, and where it is below zero
/// or from one to nine; what is refused changes nothing.
pub proof fn interval_is_set(
    service: &mut DdcutilService,
    seconds: i64,
    res: Result<(), Refusal>,
)
    requires
        call_ensures(DdcutilService::set_service_poll_interval, (service, seconds), res),
    ensures
        ({
            let short = seconds < 0 || 1 <= seconds <= 9;
            &&& old(service).configuration_locked ==> res == Err::<(), _>(
                Refusal::ConfigurationLocked,
            )
            &&& !old(service).configuration_locked && short ==> res == Err::<(), _>(
                Refusal::InvalidPollInterval,
            )
            &&& !old(service).configuration_locked && !short ==> res is Ok
            &&& res is Err ==> *final(service) == *old(service)
            &&& res is Ok ==> differ_by_interval(*old(service), *final(service))
            &&& res is Ok && seconds <= u32::MAX ==> final(service).state.poll_interval_secs
                == seconds
            &&& res is Ok ==> final(service).state.poll_interval_secs == seconds as u32
        }),
{
}

/// A delay after changes that is set is the one that is told from then on, and nothing
/// else changes. It is refused where the configuration is locked, and where it is below
/// zero or between zero and one; what is refused changes nothing.
pub proof fn cascade_interval_is_set(
    service: &mut DdcutilService,
    seconds: Double,
    res: Result<(), Refusal>,
)
    requires
        call_ensures(DdcutilService::set_service_poll_cascade_interval, (service, seconds), res),
    ensures
        ({
            let negative = sign(seconds) == 1 && !is_zero(seconds) && !is_no_number(seconds);
            let small = sign(seconds) == 0 && !is_zero(seconds) && exponent(seconds) < 1023;
            let before = *old(service);
            let after = *final(service);
            &&& before.configuration_locked ==> res == Err::<(), _>(Refusal::ConfigurationLocked)
            &&& !before.configuration_locked && (negative || small) ==> res == Err::<(), _>(
                Refusal::InvalidPollInterval,
            )
            &&& !before.configuration_locked && !negative && !small ==> res is Ok
            &&& res is Err ==> after == before
            &&& res is Ok ==> {
                &&& after.state.poll_cascade_secs == seconds
                &&& after.state.poll_interval_secs == before.state.poll_interval_secs
                &&& differ_by_interval(
                    DdcutilService {
                        state: ServiceSharedState { poll_cascade_secs: seconds, ..before.state },
                        ..before
                    },
                    after,
                )
            }
        }),
{
    doubles_compare_by_sign_and_exponent(seconds);
}

/// A service that was just started polls every 30 seconds, half a second after changes,
/// has no events and no thread, is not locked, and detects displays again exactly where
/// the variable is `1`, or `true` in any case.
pub proof fn service_starts_so(redetect: Option<&str>, service: DdcutilService)
    requires
        call_ensures(DdcutilService::new, (redetect,), service),
    ensures
        !service.configuration_locked,
        service.state.poll_interval_secs == 30,
        sign(service.state.poll_cascade_secs) == 0,
        exponent(service.state.poll_cascade_secs) == 1022,
        fraction(service.state.poll_cascade_secs) == 0,
        !service.state.events_enabled,
        !service.state.poll_thread,
        !service.state.shutdown_dispatcher,
        redetect is None ==> !service.state.poll_do_redetect,
        redetect matches Some(value) ==> service.state.poll_do_redetect == (value@ == seq!['1']
            || lowercase(value@) == seq!['t', 'r', 'u', 'e']),
        redetect matches Some(value) ==> value.is_ascii() ==> service.state.poll_do_redetect == (
        value@ == seq!['1'] || value@.map_values(|c: char| ascii_lower(c)) == seq![
            't',
            'r',
            'u',
            'e',
        ]),
{
    doubles_compare_by_sign_and_exponent(service.state.poll_cascade_secs);
    if let Some(value) = redetect {
        let lower = value@.map_values(|c: char| ascii_lower(c));
        redetection_is_asked_for_by_name(value@, lowercase(value@));
        redetection_is_asked_for_by_name(value@, lower);
    }
}

/// A variable asks for redetection where it is `1`, or where its small letters are
/// `true`.
pub proof fn variable_asks_for_redetection(value: &str, lower: &str, res: bool)
    requires
        call_ensures(is_redetect_wanted, (value, lower), res),
    ensures
        res == (value@ == seq!['1'] || lower@ == seq!['t', 'r', 'u', 'e']),
{
    redetection_is_asked_for_by_name(value@, lower@);
}

/// What the service reads and writes of its settings, without what is held of the thread.
pub open spec fn same_settings(before: ServiceSharedState, after: ServiceSharedState) -> bool {
    &&& after.poll_interval_secs == before.poll_interval_secs
    &&& after.poll_cascade_secs == before.poll_cascade_secs
    &&& after.poll_do_redetect == before.poll_do_redetect
    &&& after.events_enabled == before.events_enabled
}

/// A thread is started exactly where none is held, or the held one has ended, and is held
/// after that; settings stay.
pub proof fn thread_is_started_once(service: &mut DdcutilService, ended: bool, spawn: bool)
    requires
        call_ensures(DdcutilService::start_polling, (service, ended), spawn),
    ensures
        spawn == (ended || !old(service).state.poll_thread),
        spawn ==> final(service).state.poll_thread && final(service).state.shutdown_dispatcher,
        !spawn ==> *final(service) == *old(service),
        same_settings(old(service).state, final(service).state),
        final(service).configuration_locked == old(service).configuration_locked,
{
}

/// To stop is to tell the thread, where there is a channel to it, and to wait for the
/// thread that is held; none is held after that, and settings stay.
pub proof fn thread_is_stopped(service: &mut DdcutilService, res: StopPolling)
    requires
        call_ensures(DdcutilService::stop_polling, (service,), res),
    ensures
        res.send_shutdown == old(service).state.shutdown_dispatcher,
        res.join == old(service).state.poll_thread,
        !final(service).state.poll_thread,
        !final(service).state.shutdown_dispatcher,
        same_settings(old(service).state, final(service).state),
        final(service).configuration_locked == old(service).configuration_locked,
{
}

/// To enable events starts the watch over power modes and connections unless they are
/// enabled, and to disable them stops it without waiting; what was asked for holds from
/// then on, and nothing else changes.
pub proof fn events_are_switched(
    service: &mut DdcutilService,
    enable: bool,
    constants: &HeaderConstants,
    res: Option<DdcRequest>,
)
    requires
        call_ensures(DdcutilService::set_events_enabled, (service, enable, constants), res),
    ensures
        enable && old(service).state.events_enabled ==> res is None,
        enable && !old(service).state.events_enabled ==> res == Some(
            DdcRequest::StartWatch {
                classes: constants.event_class_dpms | constants.event_class_display_connection,
            },
        ),
        !enable ==> res == Some(DdcRequest::StopWatch { wait: false }),
        final(service).state.events_enabled == enable,
        final(service).state.poll_interval_secs == old(service).state.poll_interval_secs,
        final(service).state.poll_cascade_secs == old(service).state.poll_cascade_secs,
        final(service).state.poll_do_redetect == old(service).state.poll_do_redetect,
        final(service).state.poll_thread == old(service).state.poll_thread,
        final(service).state.shutdown_dispatcher == old(service).state.shutdown_dispatcher,
        final(service).configuration_locked == old(service).configuration_locked,
{
}

/// The watch that is started is over power modes and connections; it is stopped without
/// waiting.
pub proof fn watch_is_switched(enable: bool, constants: &HeaderConstants, res: DdcRequest)
    requires
        call_ensures(watch_displays, (enable, constants), res),
    ensures
        enable ==> res == (DdcRequest::StartWatch {
            classes: constants.event_class_dpms | constants.event_class_display_connection,
        }),
        !enable ==> res == (DdcRequest::StopWatch { wait: false }),
{
}

/// A library object begins as the service does, but for what that reads from its
/// environment.
pub proof fn library_object_starts_so(object: Ddcutil)
    requires
        call_ensures(Ddcutil::create, (), object),
    ensures
        object.settings().poll_interval_secs == 30,
        object.settings().poll_cascade_secs.bits == HALF_BITS,
        !object.settings().events_enabled,
        !object.polling().poll_thread,
        !object.polling().shutdown_tx,
{
}

/// What is set of a library object is what is told from then on, whatever it is, and
/// nothing else changes.
pub proof fn library_object_keeps_what_is_set(
    object: &mut Ddcutil,
    seconds: u32,
    res: DdcResult<()>,
    other: &mut Ddcutil,
    cascade: Double,
    taken: DdcResult<()>,
)
    requires
        call_ensures(Ddcutil::set_poll_interval, (object, seconds), res),
        call_ensures(Ddcutil::set_cascade_interval, (other, cascade), taken),
    ensures
        res is Ok,
        final(object).settings().poll_interval_secs == seconds,
        final(object).settings().poll_cascade_secs == old(object).settings().poll_cascade_secs,
        final(object).settings().events_enabled == old(object).settings().events_enabled,
        final(object).polling() == old(object).polling(),
        taken is Ok,
        final(other).settings().poll_cascade_secs == cascade,
        final(other).settings().poll_interval_secs == old(other).settings().poll_interval_secs,
        final(other).settings().events_enabled == old(other).settings().events_enabled,
        final(other).polling() == old(other).polling(),
{
}

/// A library object tells its settings as they are; its thread always detects displays
/// again.
pub proof fn library_object_tells_its_settings(
    object: &Ddcutil,
    interval: u32,
    cascade: Double,
    polling: PollConfig,
)
    requires
        call_ensures(Ddcutil::get_poll_interval, (object,), interval),
        call_ensures(Ddcutil::get_cascade_interval, (object,), cascade),
        call_ensures(Ddcutil::poll_config, (object,), polling),
    ensures
        interval == object.settings().poll_interval_secs,
        cascade == object.settings().poll_cascade_secs,
        polling.interval == object.settings().poll_interval_secs,
        polling.cascade == object.settings().poll_cascade_secs,
        polling.do_redetect,
        polling.events_enabled == object.settings().events_enabled,
{
}

/// To enable or disable the events of a library object starts or stops the watch, always,
/// and changes nothing else.
pub proof fn library_events_are_switched(
    object: &mut Ddcutil,
    enable: bool,
    constants: &HeaderConstants,
    res: DdcRequest,
)
    requires
        call_ensures(Ddcutil::set_events_enable, (object, enable, constants), res),
    ensures
        enable ==> res == (DdcRequest::StartWatch {
            classes: constants.event_class_dpms | constants.event_class_display_connection,
        }),
        !enable ==> res == (DdcRequest::StopWatch { wait: false }),
        final(object).settings().events_enabled == enable,
        final(object).settings().poll_interval_secs == old(object).settings().poll_interval_secs,
        final(object).settings().poll_cascade_secs == old(object).settings().poll_cascade_secs,
        final(object).polling() == old(object).polling(),
{
}

/// The thread of a library object is started exactly where none is held, or the held one
/// has ended; to stop tells the held thread and waits for it, and does nothing where none
/// is held. Settings stay.
pub proof fn library_thread_is_started_and_stopped(
    object: &mut Ddcutil,
    ended: bool,
    spawn: bool,
    other: &mut Ddcutil,
    res: StopPolling,
)
    requires
        call_ensures(Ddcutil::start_polling, (object, ended), spawn),
        call_ensures(Ddcutil::stop_polling, (other,), res),
    ensures
        spawn == (ended || !old(object).polling().poll_thread),
        spawn ==> final(object).polling().poll_thread && final(object).polling().shutdown_tx,
        !spawn ==> final(object).polling() == old(object).polling(),
        final(object).settings() == old(object).settings(),
        res.join == old(other).polling().poll_thread,
        res.send_shutdown == (old(other).polling().poll_thread && old(
            other,
        ).polling().shutdown_tx),
        !final(other).polling().poll_thread,
        old(other).polling().poll_thread ==> !final(other).polling().shutdown_tx,
        final(other).settings() == old(other).settings(),
{
}

/// The state of a service that was just started.
pub proof fn state_starts_so(redetect: Option<&str>, state: ServiceSharedState)
    requires
        call_ensures(ServiceSharedState::from_environment, (redetect,), state),
    ensures
        state.poll_interval_secs == 30,
        sign(state.poll_cascade_secs) == 0,
        exponent(state.poll_cascade_secs) == 1022,
        fraction(state.poll_cascade_secs) == 0,
        !state.events_enabled,
        !state.poll_thread,
        !state.shutdown_dispatcher,
        redetect is None ==> !state.poll_do_redetect,
        redetect matches Some(value) ==> state.poll_do_redetect == (value@ == seq!['1']
            || lowercase(value@) == seq!['t', 'r', 'u', 'e']),
        redetect matches Some(value) ==> value.is_ascii() ==> state.poll_do_redetect == (value@
            == seq!['1'] || value@.map_values(|c: char| ascii_lower(c)) == seq!['t', 'r', 'u', 'e']),
{
    doubles_compare_by_sign_and_exponent(state.poll_cascade_secs);
    if let Some(value) = redetect {
        let lower = value@.map_values(|c: char| ascii_lower(c));
        redetection_is_asked_for_by_name(value@, lowercase(value@));
        redetection_is_asked_for_by_name(value@, lower);
    }
}

/// The configuration of a library object can be read and written in place.
pub proof fn library_object_lends_its_settings(object: &mut Ddcutil, res: &mut DdcutilConfig)
    requires
        call_ensures(Ddcutil::config, (object,), res),
    ensures
        *old(res) == old(object).settings(),
        final(object).settings() == *final(res),
        final(object).polling() == old(object).polling(),
{
}

} // verus!
