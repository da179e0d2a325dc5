//! What records, statuses, errors, options and texts are read as, and what tables and
//! registries hold after a change.
use crate::audience::{
    all_were_handed, are_the_marked, broadcast_reaches_everyone, have_other_numbers,
    marked_stay_in_their_order, opposite, removal_leaves_the_others, was_handed,
};
use crate::capabilities::{CapabilitiesData, CommandData, FeatureData};
use crate::changes::recording_puts_one_display;
use crate::courses::{
    field_text_is_what_the_field_holds, is_field_text, number_member, said, whole_is_a_prefix,
};
use crate::ddcutil::{
    check_status, display_model, display_models, find_display, found, get_capabilities_string,
    get_ddcutil_version, get_display_info_list, get_sleep_multiplier, init, is_meant, list_displays,
    models, open_display, redetect, search_finds_first_meant, set_sleep_multiplier, text_of,
    DisplayHandle, DisplayInfo, DisplayList, DisplayListIter, DisplayRef, Error, ErrorModel,
    Result as DdcResult,
};
use crate::device::{Double, RawDisplay};
use crate::edid::{base64_text, edid_serial_number};
use crate::events::InternalEvent;
use crate::gathering::{has_keys_of, is_last_code};
use crate::json::{json_object, Json};
use crate::methods::Refusal;
use crate::polling::{edid_index_is, DisplayState, StateTable, States};
use crate::results::given_text;
use crate::service::{vcp_changed_event, DdcutilService};
use crate::status::get_status_message;
use crate::subscribers::{
    broadcast_to_subscribers, is_broadcast, is_sent, retain_marked, send_to_subscribers,
    subscribe_to_intneral_events, turned, unsubscribe_from_events, Subscriber, SubscriberRegistry,
};
use crate::terms::{
    byte_is_written_in_two_digits, doubles_compare_by_sign_and_exponent, exponent, is_no_number,
    is_numeral, is_zero, number_is_written_in_digits, sign, worth, writes_byte,
};
use crate::text::{
    c_ptr_to_string, cstr_from_fixed_array, debug_notation, decimal, decimal_text, has_prefix,
    hex_text, upper_hex, upper_hex_text,
};
use crate::textmap::{has_key, key_index, TextEntry, TextMap};
use crate::varlink_impl::{
    convert_capabilities_data, detect_entries, detect_models, detected,
    gathered_capabilities_are_told, is_edid_prefix_allowed, is_setvcp_verifying, send_ddc_error,
    CallOptions, CapabilitiesReply, DdcError, DetectEntry,
};
use crossbeam_channel::Sender;
use vstd::prelude::*;
use vstd::string::*;

verus! {

/// The result is an error with this status of libddcutil.
pub open spec fn fails_with<T>(res: DdcResult<T>, status: i32) -> bool {
    res matches Err(Error::Status(code)) && code == status
}

/// A call of libddcutil succeeded exactly if its status is zero; any other is the error.
pub proof fn status_is_success_or_error(
    status: i32,
    checked: DdcResult<()>,
    initialized: DdcResult<()>,
    redetected: DdcResult<()>,
    tuned: DdcResult<()>,
)
    requires
        call_ensures(check_status, (status,), checked),
        call_ensures(init, (status,), initialized),
        call_ensures(redetect, (status,), redetected),
        call_ensures(set_sleep_multiplier, (status,), tuned),
    ensures
        status == 0 ==> checked is Ok && initialized is Ok && redetected is Ok && tuned is Ok,
        status != 0 ==> fails_with(checked, status) && fails_with(initialized, status)
            && fails_with(redetected, status) && fails_with(tuned, status),
{
    if status != 0 {
        assert(checked->Err_0@ == ErrorModel::Status(status));
        assert(initialized->Err_0@ == ErrorModel::Status(status));
        assert(redetected->Err_0@ == ErrorModel::Status(status));
        assert(tuned->Err_0@ == ErrorModel::Status(status));
    }
}

/// What a call gives beside status zero is taken as it is; beside any other status it is
/// not looked at.
pub proof fn reply_counts_with_status_zero(
    status: i32,
    dref: DisplayRef,
    ddca_handle: usize,
    handle: DdcResult<DisplayHandle>,
    text: &Option<Vec<u8>>,
    capabilities: DdcResult<String>,
    number: Double,
    multiplier: DdcResult<Double>,
    version: String,
)
    requires
        call_ensures(open_display, (dref, status, ddca_handle), handle),
        call_ensures(get_capabilities_string, (status, text), capabilities),
        call_ensures(get_sleep_multiplier, (status, number), multiplier),
        call_ensures(get_ddcutil_version, (text,), version),
    ensures
        status == 0 ==> {
            &&& handle matches Ok(opened) && opened.ddca_handle == ddca_handle && opened.dref
                == dref
            &&& capabilities matches Ok(told) && told@ == said(*text, ""@)
            &&& multiplier matches Ok(told) && told == number
        },
        status != 0 ==> fails_with(handle, status) && fails_with(capabilities, status)
            && fails_with(multiplier, status),
        version@ == said(*text, "unknown"@),
{
    if status != 0 {
        assert(handle->Err_0@ == ErrorModel::Status(status));
        assert(capabilities->Err_0@ == ErrorModel::Status(status));
        assert(multiplier->Err_0@ == ErrorModel::Status(status));
    }
}

/// What is known of a display is what its record holds.
pub open spec fn is_read_from(info: DisplayInfo, raw: RawDisplay) -> bool {
    &&& info.display_ref == raw.dref
    &&& info.display_number == raw.dispno
    &&& is_field_text(info.manufacturer_id@, raw.mfg_id@)
    &&& is_field_text(info.model_name@, raw.model_name@)
    &&& is_field_text(info.serial_number@, raw.sn@)
    &&& info.edid_bytes == raw.edid_bytes
    &&& info.product_code == raw.product_code
    &&& info.usb_bus == raw.usb_bus
    &&& info.usb_device == raw.usb_device
    &&& info.edid_serial_number@ == decimal(
        raw.edid_bytes@[12] + 256 * raw.edid_bytes@[13] + 65536 * raw.edid_bytes@[14] + 16777216
            * raw.edid_bytes@[15],
    )
}

proof fn model_is_read_from_the_record(info: DisplayInfo, raw: RawDisplay)
    requires
        info@ == display_model(raw),
    ensures
        is_read_from(info, raw),
{
    field_text_is_what_the_field_holds(raw.mfg_id@);
    field_text_is_what_the_field_holds(raw.model_name@);
    field_text_is_what_the_field_holds(raw.sn@);
}

/// A display is read from its record.
pub proof fn display_is_read_from_its_record(raw: &RawDisplay, info: DisplayInfo)
    requires
        call_ensures(DisplayInfo::from_raw, (raw,), info),
    ensures
        is_read_from(info, *raw),
{
    model_is_read_from_the_record(info, *raw);
}

/// The displays of a list are read from their records, all of them and in their order; a
/// status is an error, and so is a missing list.
pub proof fn displays_are_read_from_their_records(
    status: i32,
    displays: Option<Vec<RawDisplay>>,
    res: DdcResult<Vec<DisplayInfo>>,
)
    requires
        call_ensures(list_displays, (status, displays), res) || call_ensures(
            get_display_info_list,
            (status, displays),
            res,
        ),
    ensures
        status != 0 ==> fails_with(res, status),
        status == 0 && displays is None ==> fails_with(res, -1i32),
        status == 0 ==> (displays matches Some(list) ==> (res matches Ok(infos) && {
            &&& infos@.len() == list@.len()
            &&& forall|i: int|
                0 <= i < list@.len() ==> is_read_from(#[trigger] infos@[i], list@[i])
        })),
{
    if status != 0 {
        assert(res->Err_0@ == ErrorModel::Status(status));
    } else {
        match displays {
            Some(list) => {
                let infos = res->Ok_0;
                assert(models(infos@).len() == display_models(list@).len());
                assert forall|i: int| 0 <= i < list@.len() implies is_read_from(
                    #[trigger] infos@[i],
                    list@[i],
                ) by {
                    assert(models(infos@)[i] == display_models(list@)[i]);
                    model_is_read_from_the_record(infos@[i], list@[i]);
                }
            },
            None => {
                assert(res->Err_0@ == ErrorModel::Status(-1i32));
            },
        }
    }
}

/// The display is one that is sought: it has the number, or the EDID, or its EDID begins
/// so where that will do.
pub open spec fn is_sought(
    raw: RawDisplay,
    number: Option<i64>,
    edid: Option<&str>,
    prefix: bool,
) -> bool {
    ||| number == Some(raw.dispno as i64)
    ||| edid matches Some(text) && text@ == base64_text(raw.edid_bytes@)
    ||| prefix && (edid matches Some(text) && text@.is_prefix_of(base64_text(raw.edid_bytes@)))
}

/// The display at this place is the first one that is sought.
pub open spec fn is_first_sought(
    list: Seq<RawDisplay>,
    number: Option<i64>,
    edid: Option<&str>,
    prefix: bool,
    j: int,
) -> bool {
    &&& 0 <= j < list.len()
    &&& is_sought(list[j], number, edid, prefix)
    &&& forall|k: int| 0 <= k < j ==> !is_sought(#[trigger] list[k], number, edid, prefix)
}

proof fn sought_is_meant(raw: RawDisplay, number: Option<i64>, edid: Option<&str>, prefix: bool)
    ensures
        is_sought(raw, number, edid, prefix) == is_meant(raw, number, text_of(edid), prefix),
{
    whole_is_a_prefix(base64_text(raw.edid_bytes@));
}

/// A search in a list gives the first display that is sought, and none where there is no
/// such display.
pub proof fn search_gives_the_first_sought(
    list: &DisplayList,
    number: Option<i64>,
    edid: Option<&str>,
    prefix: bool,
    res: Option<DisplayRef>,
)
    requires
        call_ensures(DisplayList::find_by_id, (list, number, edid, prefix), res),
    ensures
        match res {
            Some(dref) => exists|j: int| #[trigger]
                is_first_sought(list@, number, edid, prefix, j) && list@[j].dref == dref,
            None => forall|k: int|
                0 <= k < list@.len() ==> !is_sought(#[trigger] list@[k], number, edid, prefix),
        },
{
    found_is_the_first_sought(list@, number, edid, prefix);
}

proof fn found_is_the_first_sought(
    list: Seq<RawDisplay>,
    number: Option<i64>,
    edid: Option<&str>,
    prefix: bool,
)
    ensures
        match found(list, number, text_of(edid), prefix) {
            Some(dref) => exists|j: int| #[trigger]
                is_first_sought(list, number, edid, prefix, j) && list[j].dref == dref,
            None => forall|k: int|
                0 <= k < list.len() ==> !is_sought(#[trigger] list[k], number, edid, prefix),
        },
{
    let text = text_of(edid);
    search_finds_first_meant(list, number, text, prefix);
    assert forall|k: int| 0 <= k < list.len() implies is_sought(
        #[trigger] list[k],
        number,
        edid,
        prefix,
    ) == is_meant(list[k], number, text, prefix) by {
        sought_is_meant(list[k], number, edid, prefix);
    }
    if let Some(dref) = found(list, number, text, prefix) {
        let j = choose|j: int|
            0 <= j < list.len() && (#[trigger] list[j]).dref == dref && is_meant(
                list[j],
                number,
                text,
                prefix,
            ) && (forall|k: int| 0 <= k < j ==> !is_meant(#[trigger] list[k], number, text, prefix));
        assert(is_first_sought(list, number, edid, prefix, j));
    }
}

/// A search that libddcutil answered with a list gives the first display that is sought,
/// with that list. It fails where neither number nor EDID is given, and where no display
/// is sought; the error tells what was given, with -1 or an empty text for what was not.
/// A status is an error, and so is a missing list.
pub proof fn search_gives_or_tells(
    status: i32,
    displays: Option<Vec<RawDisplay>>,
    number: Option<i64>,
    edid: Option<&str>,
    prefix: bool,
    res: DdcResult<(DisplayRef, DisplayList)>,
)
    requires
        call_ensures(find_display, (status, displays, number, edid, prefix), res),
    ensures
        status != 0 ==> fails_with(res, status),
        status == 0 && displays is None ==> fails_with(res, -1i32),
        status == 0 ==> (displays matches Some(raw) ==> if number is None && edid is None {
            res matches Err(Error::MissingIdentifier)
        } else {
            match res {
                Ok((dref, list)) => list@ == raw@ && exists|j: int| #[trigger]
                    is_first_sought(raw@, number, edid, prefix, j) && raw@[j].dref == dref,
                Err(error) => {
                    &&& forall|k: int|
                        0 <= k < raw@.len() ==> !is_sought(#[trigger] raw@[k], number, edid, prefix)
                    &&& error matches Error::DisplayNotFound {
                        display_number,
                        edid_base64,
                        status: told,
                        message,
                    } && {
                        let number_text = match number {
                            Some(n) => "Some("@ + decimal(n as int) + ")"@,
                            None => "None"@,
                        };
                        let edid_text = match edid {
                            Some(text) => text@,
                            None => Seq::empty(),
                        };
                        &&& display_number == match number {
                            Some(n) => n as int,
                            None => -1,
                        }
                        &&& edid_base64@ == edid_text
                        &&& told == -1
                        &&& message@ == "DisplayNumber="@ + number_text + " EDID="@
                            + debug_notation(edid_text) + " - display not found"@
                    }
                },
            }
        }),
{
    if status != 0 {
        assert(res->Err_0@ == ErrorModel::Status(status));
    } else {
        match displays {
            Some(raw) => {
                found_is_the_first_sought(raw@, number, edid, prefix);
                if number is None && edid is None {
                    assert(res->Err_0@ == ErrorModel::MissingIdentifier);
                }
            },
            None => {
                assert(res->Err_0@ == ErrorModel::Status(-1i32));
            },
        }
    }
}

/// An error of libddcutil has its status, and every other -1; each has its message.
pub proof fn error_tells_status_and_message(error: &Error, status: i64, message: String)
    requires
        call_ensures(Error::status_code, (error,), status),
        call_ensures(Error::message, (error,), message),
    ensures
        match *error {
            Error::Status(code) => status == code && message@ == "DDC/CI error: "@ + decimal(
                code as int,
            ),
            Error::Utf8 => status == -1 && message@ == "UTF-8 conversion error"@,
            Error::MissingIdentifier => status == -1 && message@
                == "No Display_Number or EDID supplied"@,
            Error::DisplayNotFound { .. } => status == -1 && message@ == "Display not found"@,
            Error::MissingCapabilities => status == -1 && message@ == "Missing Capabilities"@,
            Error::DpmsQueryFailed { .. } => status == -1 && message@
                == "DDC/CI DPMS query failed"@,
        },
{
}

/// The number, or -1 where there is none.
pub open spec fn number_or_none(number: Option<i64>) -> int {
    match number {
        Some(n) => n as int,
        None => -1,
    }
}

/// A failed call is answered what it was about, with the status of the error, and with
/// the explanation of a status of libddcutil or else the error's own message.
pub proof fn failure_is_answered(
    display_ref: Option<i64>,
    display_number: Option<i64>,
    edid: &Option<String>,
    vcp_code: Option<i64>,
    error: &Error,
    explanation: String,
    told: DdcError,
)
    requires
        call_ensures(
            send_ddc_error,
            (display_ref, display_number, edid, vcp_code, error, explanation),
            told,
        ),
    ensures
        told.display_ref == number_or_none(display_ref),
        told.display_number == number_or_none(display_number),
        told.vcp_code == number_or_none(vcp_code),
        edid matches Some(text) ==> told.edid_base64@ == text@,
        edid is None ==> told.edid_base64@.len() == 0,
        error matches Error::Status(code) ==> told.status == code && told.message@ == explanation@,
        !(error matches Error::Status(_)) ==> told.status == -1 && told.message@
            == error@.message(),
{
}

/// A status in words is its name alone where it is zero, and otherwise name, description
/// and detail.
pub proof fn status_is_told_in_words(
    status: i32,
    name: &Option<Vec<u8>>,
    description: &Option<Vec<u8>>,
    detail: &Option<Option<Vec<u8>>>,
    message: String,
)
    requires
        call_ensures(get_status_message, (status, name, description, detail), message),
    ensures
        ({
            let called = said(*name, "Unknown error code "@ + decimal(status as int));
            let more = match *detail {
                Some(text) => said(text, ""@),
                None => "no details"@,
            };
            if status == 0 {
                message@ == called
            } else {
                message@ == called + ": "@ + said(*description, ""@) + ": "@ + more
            }
        }),
{
}

/// Options count where they are given.
pub proof fn options_are_read(
    options: &Option<CallOptions>,
    prefix: bool,
    verifying: bool,
)
    requires
        call_ensures(is_edid_prefix_allowed, (options,), prefix),
        call_ensures(is_setvcp_verifying, (options,), verifying),
    ensures
        options is None ==> !prefix && verifying,
        options matches Some(given) ==> prefix == (given.allow_edid_prefix == Some(true))
            && verifying == (given.skip_verify != Some(true)),
{
}

/// Clients know the reasons for a refusal under these names.
pub proof fn refusals_have_their_names(refusal: &Refusal, name: &'static str)
    requires
        call_ensures(Refusal::as_str, (refusal,), name),
    ensures
        refusal is ConfigurationLocked ==> name@ == "ConfigurationLocked"@,
        refusal is InvalidPollInterval ==> name@ == "InvalidPollInterval"@,
{
}

/// A client is told of a display as the service knows it, with the EDID in Base64.
pub open spec fn is_told_of(entry: DetectEntry, info: DisplayInfo) -> bool {
    &&& entry.display_ref == info.display_ref as i64
    &&& entry.display_number == info.display_number
    &&& entry.usb_bus == info.usb_bus
    &&& entry.usb_device == info.usb_device
    &&& entry.mfg_id@ == info.manufacturer_id@
    &&& entry.model_name@ == info.model_name@
    &&& entry.serial_number@ == info.serial_number@
    &&& entry.product_code == info.product_code
    &&& entry.edid_base64@ == base64_text(info.edid_bytes@)
    &&& entry.edid_serial_number@ == info.edid_serial_number@
}

/// Clients are told of every display, in the order of the displays.
pub proof fn clients_are_told_of_displays(
    info: &DisplayInfo,
    entry: DetectEntry,
    infos: &Vec<DisplayInfo>,
    entries: Vec<DetectEntry>,
)
    requires
        call_ensures(DetectEntry::from_info, (info,), entry),
        call_ensures(detect_entries, (infos,), entries),
    ensures
        is_told_of(entry, *info),
        entries@.len() == infos@.len(),
        forall|i: int| 0 <= i < infos@.len() ==> is_told_of(#[trigger] entries@[i], infos@[i]),
{
    let told = detect_models(entries@);
    let known = detected(models(infos@));
    assert(told.len() == entries@.len() && known.len() == infos@.len());
    assert forall|i: int| 0 <= i < infos@.len() implies is_told_of(
        #[trigger] entries@[i],
        infos@[i],
    ) by {
        assert(told[i] == known[i]);
    }
}

/// The numerals of a number and of a byte.
pub proof fn numerals_write_their_numbers(
    n: i64,
    text: String,
    code: u8,
    small: String,
    large: String,
)
    requires
        call_ensures(decimal_text, (n,), text),
        call_ensures(hex_text, (code,), small),
        call_ensures(upper_hex_text, (code,), large),
    ensures
        n >= 0 ==> is_numeral(text@) && worth(text@) == n,
        n < 0 ==> text@[0] == '-' && is_numeral(text@.skip(1)) && worth(text@.skip(1)) == -n,
        writes_byte(small@, code, 'a'),
        writes_byte(large@, code, 'A'),
{
    number_is_written_in_digits(n as int);
    byte_is_written_in_two_digits(code);
}

/// A text begins with another if it has the characters of that at its beginning; a C
/// string is read as it is, or as the other text where it is missing.
pub proof fn texts_are_read(
    text: &str,
    prefix: &str,
    begins: bool,
    bytes: &Option<Vec<u8>>,
    otherwise: &str,
    read: String,
)
    requires
        call_ensures(has_prefix, (text, prefix), begins),
        call_ensures(c_ptr_to_string, (bytes, otherwise), read),
    ensures
        begins == (prefix@.len() <= text@.len() && forall|i: int|
            0 <= i < prefix@.len() ==> #[trigger] text@[i] == prefix@[i]),
        read@ == said(*bytes, otherwise@),
{
    if begins {
        assert forall|i: int| 0 <= i < prefix@.len() implies #[trigger] text@[i] == prefix@[i] by {
            assert(text@.subrange(0, prefix@.len() as int)[i] == text@[i]);
        }
    }
    if prefix@.len() <= text@.len() && forall|i: int|
        0 <= i < prefix@.len() ==> #[trigger] text@[i] == prefix@[i] {
        assert(text@.subrange(0, prefix@.len() as int) =~= prefix@);
    }
}

/// A field of fixed size is read up to its first zero byte.
pub proof fn field_is_read<const N: usize>(field: &[u8; N], text: String)
    requires
        call_ensures(cstr_from_fixed_array::<N>, (field,), text),
    ensures
        is_field_text(text@, field@),
{
    field_text_is_what_the_field_holds(field@);
}

/// The serial number of an EDID stands in its bytes 12 to 15, the least first; a delay is
/// refused where it is below zero or between zero and one.
pub proof fn numbers_are_read(edid: &[u8; 128], serial: u32, number: Double, refused: bool)
    requires
        call_ensures(edid_serial_number, (edid,), serial),
        call_ensures(Double::is_negative_or_fraction, (number,), refused),
    ensures
        serial == edid@[12] + 256 * edid@[13] + 65536 * edid@[14] + 16777216 * edid@[15],
        refused == (!is_zero(number) && ((sign(number) == 1 && !is_no_number(number)) || (sign(
            number,
        ) == 0 && exponent(number) < 1023))),
{
    doubles_compare_by_sign_and_exponent(number);
}

/// A table of displays begins without any. A display that is recorded is in the place of
/// the one with the same EDID, or else at the end; all others stay as and where they are.
/// It is looked up by its EDID.
pub proof fn table_holds_what_is_recorded(
    fresh: StateTable,
    table: &mut StateTable,
    edid: String,
    state: DisplayState,
    held: &StateTable,
    sought: &String,
    res: Option<DisplayState>,
    count: usize,
)
    requires
        call_ensures(StateTable::new, (), fresh),
        call_ensures(StateTable::insert, (table, edid, state), ()),
        call_ensures(StateTable::get, (held, sought), res),
        call_ensures(StateTable::len, (held,), count),
        has_edids_once(old(table)@),
        has_edids_once(held@),
    ensures
        fresh@.len() == 0,
        forall|i: int|
            0 <= i < old(table)@.len() ==> i < final(table)@.len() && #[trigger] final(table)@[i]
                == if old(table)@[i].0 == edid@ {
                (edid@, state)
            } else {
                old(table)@[i]
            },
        (exists|i: int| 0 <= i < old(table)@.len() && (#[trigger] old(table)@[i]).0 == edid@)
            ==> final(table)@.len() == old(table)@.len(),
        (forall|i: int| 0 <= i < old(table)@.len() ==> (#[trigger] old(table)@[i]).0 != edid@)
            ==> final(table)@ == old(table)@.push((edid@, state)),
        forall|i: int|
            0 <= i < held@.len() && (#[trigger] held@[i]).0 == sought@ ==> res == Some(held@[i].1),
        (forall|i: int| 0 <= i < held@.len() ==> (#[trigger] held@[i]).0 != sought@) ==> res is None,
        count == held@.len(),
{
    recording_puts_one_display(old(table)@, edid@, state);
    assert forall|i: int|
        0 <= i < held@.len() && (#[trigger] held@[i]).0 == sought@ implies res == Some(
        held@[i].1,
    ) by {
        edid_index_is(held@, i);
    }
}

/// No EDID occurs twice.
pub open spec fn has_edids_once(states: States) -> bool {
    forall|i: int, j: int|
        0 <= i < j < states.len() ==> (#[trigger] states[i]).0 != (#[trigger] states[j]).0
}

/// A map of texts begins empty, and holds for each key what was set last.
pub proof fn map_holds_what_was_set<T>(
    fresh: TextMap<T>,
    map: &mut TextMap<T>,
    key: String,
    value: T,
    held: &TextMap<T>,
    sought: &str,
    res: Option<&T>,
)
    requires
        call_ensures(TextMap::<T>::new, (), fresh),
        call_ensures(TextMap::<T>::insert, (map, key, value), ()),
        call_ensures(TextMap::<T>::get, (held, sought), res),
    ensures
        forall|k: Seq<char>| !#[trigger] fresh@.dom().contains(k),
        final(map)@.dom().contains(key@),
        final(map)@[key@] == value,
        forall|k: Seq<char>|
            k != key@ ==> (#[trigger] final(map)@.dom().contains(k) == old(map)@.dom().contains(k)),
        forall|k: Seq<char>|
            k != key@ && old(map)@.dom().contains(k) ==> #[trigger] final(map)@[k] == old(map)@[k],
        held@.dom().contains(sought@) ==> res == Some(&held@[sought@]),
        !held@.dom().contains(sought@) ==> res is None,
{
}

/// Who subscribes gets the next number, is on the channel that was given, was handed
/// nothing yet, and comes after those who are there.
pub proof fn subscriber_is_added(
    registry: &mut SubscriberRegistry,
    channel: Sender<InternalEvent>,
    id: usize,
)
    requires
        call_ensures(subscribe_to_intneral_events, (registry, channel), id) || call_ensures(
            DdcutilService::subscribe_to_internal_events,
            (registry, channel),
            id,
        ),
    ensures
        id == old(registry).next_id,
        id < usize::MAX ==> final(registry).next_id == id + 1,
        id == usize::MAX ==> final(registry).next_id == 0,
        ({
            let before = old(registry).subscribers@;
            let after = final(registry).subscribers@;
            &&& after.len() == before.len() + 1
            &&& forall|i: int| 0 <= i < before.len() ==> #[trigger] after[i] == before[i]
            &&& after.last().id == id
            &&& after.last().sender.channel() == channel
            &&& after.last().sender.log().len() == 0
        }),
{
    let before = old(registry).subscribers@;
    let after = final(registry).subscribers@;
    assert forall|i: int| 0 <= i < before.len() implies #[trigger] after[i] == before[i] by {
        assert(after.drop_last()[i] == before[i]);
    }
}

/// Who unsubscribes is removed, and nobody else is.
pub proof fn subscriber_is_removed(registry: &mut SubscriberRegistry, id: usize)
    requires
        call_ensures(unsubscribe_from_events, (registry, id), ()) || call_ensures(
            DdcutilService::unsubscribe_from_events,
            (registry, id),
            (),
        ),
    ensures
        final(registry).next_id == old(registry).next_id,
        exists|places: Seq<int>| #[trigger]
            have_other_numbers(
                final(registry).subscribers@,
                old(registry).subscribers@,
                id,
                places,
            ),
{
    removal_leaves_the_others(old(registry).subscribers@, id);
}

/// The event was handed to everyone; those whose channels took it are subscribers still,
/// and the others are gone.
pub open spec fn reaches_everyone(
    before: Seq<Subscriber>,
    stayed: Seq<Subscriber>,
    gone: Seq<Subscriber>,
    event: InternalEvent,
) -> bool {
    exists|after: Seq<Subscriber>, took: Seq<bool>|
        {
            &&& #[trigger] all_were_handed(before, after, took, event)
            &&& exists|places: Seq<int>| #[trigger] are_the_marked(stayed, after, took, places)
            &&& exists|places: Seq<int>| #[trigger]
                are_the_marked(gone, after, opposite(took), places)
        }
}

/// A broadcast reaches everyone.
pub proof fn event_is_broadcast(
    registry: &mut SubscriberRegistry,
    event: InternalEvent,
    gone: Vec<Subscriber>,
)
    requires
        call_ensures(broadcast_to_subscribers, (registry, event), gone),
    ensures
        final(registry).next_id == old(registry).next_id,
        reaches_everyone(old(registry).subscribers@, final(registry).subscribers@, gone@, event),
{
    broadcast_reaches_everyone(
        old(registry).subscribers@,
        final(registry).subscribers@,
        gone@,
        event,
    );
}

/// The event tells that this was written.
pub open spec fn tells_of_write(
    event: InternalEvent,
    display_number: Option<i64>,
    edid_base64: Option<&str>,
    vcp_code: i64,
    new_value: i64,
    context: Seq<char>,
) -> bool {
    &&& event.kind is VcpChange
    &&& event.data@ == json_object(
        seq![
            ("client_context"@, Json::Text(context)),
            ("display_number"@, number_member(display_number)),
            ("edid_base64"@, given_text(edid_base64)),
            ("event_type"@, Json::Text("VcpChange"@)),
            ("new_value"@, Json::Number(new_value as int)),
            ("origin"@, Json::Text("ddcutil-varlink"@)),
            ("vcp_code"@, Json::Number(vcp_code as int)),
        ],
    )
}

/// Everyone is told of what was written, with the context that the client gave, or an
/// empty one.
pub proof fn write_is_broadcast(
    registry: &mut SubscriberRegistry,
    display_number: Option<i64>,
    edid_base64: Option<&str>,
    vcp_code: i64,
    new_value: i64,
    client_context: Option<String>,
    gone: Vec<Subscriber>,
)
    requires
        call_ensures(
            DdcutilService::broadcast_set_vcp,
            (registry, display_number, edid_base64, vcp_code, new_value, client_context),
            gone,
        ),
    ensures
        final(registry).next_id == old(registry).next_id,
        exists|event: InternalEvent|
            {
                &&& tells_of_write(
                    event,
                    display_number,
                    edid_base64,
                    vcp_code,
                    new_value,
                    match client_context {
                        Some(context) => context@,
                        None => Seq::empty(),
                    },
                )
                &&& #[trigger] reaches_everyone(
                    old(registry).subscribers@,
                    final(registry).subscribers@,
                    gone@,
                    event,
                )
            },
{
    let before = old(registry).subscribers@;
    let after = final(registry).subscribers@;
    let context = match client_context {
        Some(context) => context@,
        None => Seq::empty(),
    };
    let event = choose|event: InternalEvent|
        event@ == vcp_changed_event(
            display_number,
            text_of(edid_base64),
            vcp_code,
            new_value,
            context,
        ) && #[trigger] is_broadcast(before, after, gone@, event);
    broadcast_reaches_everyone(before, after, gone@, event);
    assert(reaches_everyone(before, after, gone@, event));
    assert(tells_of_write(event, display_number, edid_base64, vcp_code, new_value, context));
}

/// Of subscribers that are marked, exactly the marked stay, and the others are given, each
/// in their order.
pub proof fn marked_are_retained(
    registry: &mut SubscriberRegistry,
    keep: &Vec<bool>,
    gone: Vec<Subscriber>,
)
    requires
        call_ensures(retain_marked, (registry, keep), gone),
    ensures
        final(registry).next_id == old(registry).next_id,
        exists|places: Seq<int>| #[trigger]
            are_the_marked(
                final(registry).subscribers@,
                old(registry).subscribers@,
                keep@,
                places,
            ),
        exists|places: Seq<int>| #[trigger]
            are_the_marked(gone@, old(registry).subscribers@, opposite(keep@), places),
{
    marked_stay_in_their_order(old(registry).subscribers@, keep@);
    marked_stay_in_their_order(old(registry).subscribers@, turned(keep@));
    assert(turned(keep@) =~= opposite(keep@));
}

/// Clients are told of the capabilities that were gathered: each command and each feature
/// under its code, the last one where several have the same.
pub proof fn clients_are_told_of_capabilities(data: CapabilitiesData, told: CapabilitiesReply)
    requires
        call_ensures(convert_capabilities_data, (data,), told),
    ensures
        told.model_name@ == data.model_name@,
        told.mccs_major == data.mccs_major,
        told.mccs_minor == data.mccs_minor,
        ({
            let codes = data.commands@.map_values(|c: CommandData| c.code);
            &&& has_keys_of(told.commands@, codes)
            &&& forall|i: int| #[trigger]
                is_last_code(codes, i) ==> told.commands@[upper_hex(codes[i])]@
                    == data.commands@[i].description@
        }),
        ({
            let codes = data.features@.map_values(|f: FeatureData| f.code);
            &&& has_keys_of(told.capabilities@, codes)
            &&& forall|i: int| #[trigger]
                is_last_code(codes, i) ==> {
                    let feature = told.capabilities@[upper_hex(codes[i])];
                    &&& feature.feature_name@ == data.features@[i].name@
                    &&& feature.feature_description@ == data.features@[i].description@
                }
        }),
{
    let model = data@;
    let reply = told@;
    gathered_capabilities_are_told(model);
    let codes = data.commands@.map_values(|c: CommandData| c.code);
    assert forall|key: Seq<char>| #[trigger]
        told.commands@.dom().contains(key) <==> exists|i: int|
        0 <= i < codes.len() && upper_hex(#[trigger] codes[i]) == key by {
        assert(reply.commands.dom().contains(key) == told.commands@.dom().contains(key));
        if exists|i: int| 0 <= i < codes.len() && upper_hex(#[trigger] codes[i]) == key {
            let i = choose|i: int| 0 <= i < codes.len() && upper_hex(#[trigger] codes[i]) == key;
            assert(upper_hex(model.commands[i].code) == key);
        }
        if told.commands@.dom().contains(key) {
            let i = choose|i: int|
                0 <= i < model.commands.len() && upper_hex((#[trigger] model.commands[i]).code)
                    == key;
            assert(upper_hex(codes[i]) == key);
        }
    }
    assert forall|i: int| #[trigger] is_last_code(codes, i) implies told.commands@[upper_hex(
        codes[i],
    )]@ == data.commands@[i].description@ by {
        assert(model.commands[i] == data.commands@[i]@);
        assert forall|j: int| i < j < model.commands.len() implies (
        #[trigger] model.commands[j]).code != model.commands[i].code by {
            assert(codes[j] != codes[i]);
        }
        assert(told.commands@.dom().contains(upper_hex(codes[i])));
        assert(reply.commands[upper_hex(codes[i])] == told.commands@[upper_hex(codes[i])]@);
    }
    let listed = data.features@.map_values(|f: FeatureData| f.code);
    assert forall|key: Seq<char>| #[trigger]
        told.capabilities@.dom().contains(key) <==> exists|i: int|
        0 <= i < listed.len() && upper_hex(#[trigger] listed[i]) == key by {
        assert(reply.capabilities.dom().contains(key) == told.capabilities@.dom().contains(key));
        if exists|i: int| 0 <= i < listed.len() && upper_hex(#[trigger] listed[i]) == key {
            let i = choose|i: int| 0 <= i < listed.len() && upper_hex(#[trigger] listed[i]) == key;
            assert(upper_hex(model.features[i].code) == key);
        }
        if told.capabilities@.dom().contains(key) {
            let i = choose|i: int|
                0 <= i < model.features.len() && upper_hex((#[trigger] model.features[i]).code)
                    == key;
            assert(upper_hex(listed[i]) == key);
        }
    }
    assert forall|i: int| #[trigger] is_last_code(listed, i) implies ({
        let feature = told.capabilities@[upper_hex(listed[i])];
        &&& feature.feature_name@ == data.features@[i].name@
        &&& feature.feature_description@ == data.features@[i].description@
    }) by {
        assert(model.features[i] == data.features@[i]@);
        assert forall|j: int| i < j < model.features.len() implies (
        #[trigger] model.features[j]).code != model.features[i].code by {
            assert(listed[j] != listed[i]);
        }
        assert(told.capabilities@.dom().contains(upper_hex(listed[i])));
        assert(reply.capabilities[upper_hex(listed[i])]
            == told.capabilities@[upper_hex(listed[i])]@);
    }
}

/// The list that libddcutil gave is taken as it is, and walked from its beginning; a
/// status is an error, and so is a missing list.
pub proof fn list_is_taken(
    status: i32,
    displays: Option<Vec<RawDisplay>>,
    res: DdcResult<DisplayList>,
    list: &DisplayList,
    count: usize,
    walk: DisplayListIter<'_>,
)
    requires
        call_ensures(DisplayList::new, (status, displays), res),
        call_ensures(DisplayList::len, (list,), count),
        call_ensures(DisplayList::iter, (list,), walk),
    ensures
        status != 0 ==> fails_with(res, status),
        status == 0 && displays is None ==> fails_with(res, -1i32),
        status == 0 ==> (displays matches Some(raw) ==> (res matches Ok(taken) && taken@ == raw@)),
        count == list@.len(),
        walk.rest() == list@,
{
    if status != 0 {
        assert(res->Err_0@ == ErrorModel::Status(status));
    } else if displays is None {
        assert(res->Err_0@ == ErrorModel::Status(-1i32));
    }
}

/// A walk gives one display after the other, and ends after the last.
pub proof fn walk_gives_every_display<'a>(
    walk: &mut DisplayListIter<'a>,
    res: Option<&'a RawDisplay>,
)
    requires
        call_ensures(DisplayListIter::<'a>::next, (walk,), res),
    ensures
        old(walk).rest().len() == 0 ==> res is None && final(walk).rest() == old(walk).rest(),
        old(walk).rest().len() > 0 ==> (res matches Some(raw) && *raw == old(walk).rest()[0]
            && final(walk).rest() == old(walk).rest().skip(1)),
{
    if old(walk).rest().len() > 0 {
        assert(old(walk).rest().drop_first() =~= old(walk).rest().skip(1));
    }
}

/// Everyone is handed the event, and for everyone it is told whether the channel took it.
pub proof fn event_is_sent_to_everyone(
    registry: &mut SubscriberRegistry,
    event: &InternalEvent,
    received: Vec<bool>,
)
    requires
        call_ensures(send_to_subscribers, (registry, event), received),
    ensures
        final(registry).next_id == old(registry).next_id,
        all_were_handed(
            old(registry).subscribers@,
            final(registry).subscribers@,
            received@,
            *event,
        ),
{
    let before = old(registry).subscribers@;
    let after = final(registry).subscribers@;
    assert forall|i: int| 0 <= i < before.len() implies was_handed(
        before[i],
        #[trigger] after[i],
        *event,
        received@[i],
    ) by {
        assert(is_sent(before[i], after[i], *event));
        let took = choose|took: bool|
            after[i].sender.log() == #[trigger] before[i].sender.log().push((*event, took));
        assert(after[i].sender.log().last() == (*event, took));
        assert(received@[i] == after[i].heard());
    }
}

/// A registry begins without subscribers, and numbers them from zero.
pub proof fn registry_begins_empty(registry: SubscriberRegistry)
    requires
        call_ensures(SubscriberRegistry::new, (), registry),
    ensures
        registry.next_id == 0,
        registry.subscribers@.len() == 0,
{
}

/// The entries of a map are its keys, each once, with what it holds for them.
pub proof fn entries_are_those_of_the_map<T>(map: TextMap<T>, entries: Vec<TextEntry<T>>)
    requires
        call_ensures(TextMap::<T>::into_entries, (map,), entries),
    ensures
        forall|i: int, j: int|
            0 <= i < j < entries@.len() ==> (#[trigger] entries@[i]).key@ != (
            #[trigger] entries@[j]).key@,
        forall|i: int|
            0 <= i < entries@.len() ==> map@.dom().contains((#[trigger] entries@[i]).key@)
                && map@[entries@[i].key@] == entries@[i].value,
        forall|key: Seq<char>| #[trigger]
            map@.dom().contains(key) ==> exists|i: int|
                0 <= i < entries@.len() && (#[trigger] entries@[i]).key@ == key,
{
    assert forall|i: int| 0 <= i < entries@.len() implies map@.dom().contains(
        (#[trigger] entries@[i]).key@,
    ) && map@[entries@[i].key@] == entries@[i].value by {
        let key = entries@[i].key@;
        assert(has_key(entries@, key));
        let k = key_index(entries@, key);
        assert(entries@[k].key@ == key);
    }
    assert forall|key: Seq<char>| #[trigger] map@.dom().contains(key) implies exists|i: int|
        0 <= i < entries@.len() && (#[trigger] entries@[i]).key@ == key by {
        assert(has_key(entries@, key));
    }
}

} // verus!
