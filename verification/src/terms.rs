//! What numbers, texts, options and errors stand for.
use crate::controller::initial_config;
use crate::courses::{is_about, searching};
use crate::ddcutil::{
    capabilities_string, listed, not_found, opened, status_outcome, DisplayHandle, DisplayRef,
    ErrorModel,
};
use crate::device::{DdcReply, DdcRequest, Double, HALF_BITS, RawDisplay};
use crate::edid::serial_number;
use crate::methods::{begins, begins_search, is_poll_interval, target_of, Refusal};
use crate::operation::{Operation, Purpose, StageModel, Step, StepModel, Target};
use crate::poller::{sleep_on, SleepStep};
use crate::status::status_message;
use crate::text::{ascii_lower, debug_notation, decimal, decimal_nat, hex, upper_hex, utf8_lossy};
use crate::varlink_impl::{allows_prefix, ddc_error, verifies, CallOptions};
use vstd::arithmetic::div_mod::lemma_fundamental_div_mod_converse;
use vstd::prelude::*;
use vstd::string::*;

verus! {

/// What a row of decimal digits is worth.
pub open spec fn worth(digits: Seq<char>) -> int
    decreases digits.len(),
{
    if digits.len() == 0 {
        0
    } else {
        10 * worth(digits.drop_last()) + (digits.last() as int - '0' as int)
    }
}

/// A row of decimal digits, of which the first is a zero only where it is the only one.
pub open spec fn is_numeral(digits: Seq<char>) -> bool {
    &&& digits.len() > 0
    &&& forall|i: int| 0 <= i < digits.len() ==> '0' <= #[trigger] digits[i] <= '9'
    &&& digits[0] == '0' ==> digits.len() == 1
}

proof fn natural_is_written_in_digits(n: nat)
    ensures
        is_numeral(decimal_nat(n)),
        worth(decimal_nat(n)) == n,
        n > 0 ==> decimal_nat(n)[0] != '0',
    decreases n,
{
    let text = decimal_nat(n);
    if n < 10 {
        assert(text.drop_last() =~= Seq::empty());
        assert(worth(text.drop_last()) == 0);
    } else {
        let front = decimal_nat(n / 10);
        natural_is_written_in_digits(n / 10);
        assert(text.drop_last() =~= front);
        assert(text[0] == front[0]);
        assert(n == 10 * (n / 10) + n % 10);
    }
}

/// A number is written in decimal digits, without leading zeros, after a minus sign
/// where it is below zero, so that the text is worth the number.
pub proof fn number_is_written_in_digits(n: int)
    ensures
        if n < 0 {
            &&& decimal(n)[0] == '-'
            &&& is_numeral(decimal(n).skip(1))
            &&& worth(decimal(n).skip(1)) == -n
        } else {
            is_numeral(decimal(n)) && worth(decimal(n)) == n
        },
{
    if n < 0 {
        natural_is_written_in_digits((-n) as nat);
        assert(decimal(n).skip(1) =~= decimal_nat((-n) as nat));
    } else {
        natural_is_written_in_digits(n as nat);
    }
}

/// The value of a hexadecimal digit, whose letters begin with the given one.
pub open spec fn digit_worth(c: char, ten: char) -> int {
    if '0' <= c <= '9' {
        c as int - '0' as int
    } else {
        c as int - ten as int + 10
    }
}

/// The two digits write the byte, in digits and the six letters from the given one on.
pub open spec fn writes_byte(text: Seq<char>, code: u8, ten: char) -> bool {
    &&& text.len() == 2
    &&& forall|i: int|
        0 <= i < 2 ==> '0' <= #[trigger] text[i] <= '9' || 0 <= text[i] as int - ten as int <= 5
    &&& 16 * digit_worth(text[0], ten) + digit_worth(text[1], ten) == code
}

/// A byte is written in two hexadecimal digits, in small letters or in capitals.
pub proof fn byte_is_written_in_two_digits(code: u8)
    ensures
        writes_byte(hex(code), code, 'a'),
        writes_byte(upper_hex(code), code, 'A'),
{
    assert(code as int == 16 * (code as int / 16) + code as int % 16);
}

/// Capitals become the small letters at the same place of the alphabet, and all else
/// stays as it is.
pub proof fn capitals_become_small(c: char)
    ensures
        'A' <= c <= 'Z' ==> ascii_lower(c) as int - 'a' as int == c as int - 'A' as int,
        !('A' <= c <= 'Z') ==> ascii_lower(c) == c,
{
}

/// The serial number holds the bytes from the twelfth on, the least first.
pub proof fn serial_number_holds_its_bytes(edid: Seq<u8>)
    ensures
        0 <= serial_number(edid) < 0x1_0000_0000,
        serial_number(edid) % 0x100 == edid[12],
        serial_number(edid) / 0x100 % 0x100 == edid[13],
        serial_number(edid) / 0x1_0000 % 0x100 == edid[14],
        serial_number(edid) / 0x100_0000 == edid[15],
{
    let n = serial_number(edid);
    let (a, b, c, d) = (edid[12] as int, edid[13] as int, edid[14] as int, edid[15] as int);
    lemma_fundamental_div_mod_converse(n, 0x100, b + 0x100 * c + 0x1_0000 * d, a);
    lemma_fundamental_div_mod_converse(n, 0x1_0000, c + 0x100 * d, a + 0x100 * b);
    lemma_fundamental_div_mod_converse(n, 0x100_0000, d, a + 0x100 * b + 0x1_0000 * c);
    lemma_fundamental_div_mod_converse(b + 0x100 * c + 0x1_0000 * d, 0x100, c + 0x100 * d, b);
    lemma_fundamental_div_mod_converse(c + 0x100 * d, 0x100, d, c);
}

/// The sign bit of a double.
pub open spec fn sign(d: Double) -> int {
    d.bits as int / 0x8000_0000_0000_0000
}

/// The biased exponent of a double.
pub open spec fn exponent(d: Double) -> int {
    d.bits as int % 0x8000_0000_0000_0000 / 0x10_0000_0000_0000
}

/// The fraction bits of a double.
pub open spec fn fraction(d: Double) -> int {
    d.bits as int % 0x10_0000_0000_0000
}

/// The double is no number.
pub open spec fn is_no_number(d: Double) -> bool {
    exponent(d) == 2047 && fraction(d) != 0
}

/// The double is one of the two zeros.
pub open spec fn is_zero(d: Double) -> bool {
    exponent(d) == 0 && fraction(d) == 0
}

/// A double is below zero if it is a number other than zero whose sign is set, and
/// between zero and one if it is not zero, its sign is not set, and its exponent is
/// below that of one, 1023. The delay after a change is one half at first.
pub proof fn doubles_compare_by_sign_and_exponent(d: Double)
    ensures
        d.is_negative() == (sign(d) == 1 && !is_zero(d) && !is_no_number(d)),
        d.is_proper_fraction() == (sign(d) == 0 && !is_zero(d) && exponent(d) < 1023),
        ({
            let half = Double { bits: HALF_BITS };
            sign(half) == 0 && exponent(half) == 1022 && fraction(half) == 0
        }),
{
    let b = d.bits as int;
    let top: int = 0x8000_0000_0000_0000;
    let unit: int = 0x10_0000_0000_0000;
    let m = b % top;
    assert(m % unit == b % unit) by {
        let q = b / top;
        lemma_fundamental_div_mod_converse(b, unit, 2048 * q + m / unit, m % unit);
    }
}

/// The library begins with a poll every 30 seconds, half a second after a change, and
/// without events.
pub proof fn library_begins_without_events()
    ensures
        initial_config().poll_interval_secs == 30,
        initial_config().poll_cascade_secs.bits == HALF_BITS,
        !initial_config().events_enabled,
{
}

/// An interval is taken exactly if it is neither below zero nor between zero and ten.
pub proof fn short_intervals_are_refused(seconds: i64)
    ensures
        is_poll_interval(seconds) == !(seconds < 0 || (1 <= seconds && seconds <= 9)),
        Refusal::ConfigurationLocked.name() == "ConfigurationLocked"@,
        Refusal::InvalidPollInterval.name() == "InvalidPollInterval"@,
{
}

/// Options hold only where they are given: a beginning of an EDID will do only if the
/// client allowed it, and what is written is verified unless the client waived that.
pub proof fn options_hold_where_given(options: CallOptions)
    ensures
        !allows_prefix(None),
        allows_prefix(Some(options)) == match options.allow_edid_prefix {
            Some(allow) => allow,
            None => false,
        },
        verifies(None),
        verifies(Some(options)) == match options.skip_verify {
            Some(skip) => !skip,
            None => true,
        },
{
}

/// A client means the displays with its number and those with its EDID; those whose EDID
/// only begins so exactly if its options say that this will do.
pub proof fn client_means_what_it_names(
    display_number: Option<i64>,
    edid_base64: Option<String>,
    options: CallOptions,
)
    ensures
        target_of(display_number, edid_base64, None) == (Target {
            display_number,
            edid_base64,
            allow_edid_prefix: false,
        }),
        target_of(display_number, edid_base64, Some(options)) == (Target {
            display_number,
            edid_base64,
            allow_edid_prefix: options.allow_edid_prefix == Some(true),
        }),
{
}

/// A method on one display begins by listing the displays, also those that do not work
/// where the beginning of an EDID will do, and by looking for its own.
pub proof fn method_begins_by_listing(
    begun: (Operation, Step),
    purpose: Purpose,
    target: Target,
    vcp_code: Option<i64>,
)
    requires
        is_about(purpose, target, vcp_code),
        begins_search(begun, purpose),
    ensures
        begun.0@ == searching(purpose),
        begun.1@ == (StepModel::Ask {
            request: DdcRequest::ListDisplays { include_invalid: target.allow_edid_prefix },
        }),
        begun.0@.is_valid(),
        forall|reply: DdcReply| reply is Displays ==> #[trigger] begun.0@.accepts(reply),
{
}

/// A method that begins with a call makes that call, for its purpose.
pub proof fn method_begins_with_its_call(
    begun: (Operation, Step),
    purpose: Purpose,
    stage: StageModel,
    request: DdcRequest,
)
    requires
        begins(begun, purpose, stage, request),
    ensures
        begun.0@.purpose == purpose,
        begun.0@.stage == stage,
        begun.1@ == (StepModel::Ask { request }),
{
}

/// A status other than zero is an error with that status, whatever came beside it. With
/// status zero the call gave what it was for; only a missing list is an error still.
pub proof fn status_decides(
    status: i32,
    displays: Option<Vec<RawDisplay>>,
    list: Vec<RawDisplay>,
    dref: DisplayRef,
    ddca_handle: usize,
    text: Option<Vec<u8>>,
    bytes: Vec<u8>,
)
    ensures
        status != 0 ==> {
            &&& status_outcome(status) == Err::<(), _>(ErrorModel::Status(status))
            &&& listed(status, displays) == Err::<Seq<RawDisplay>, _>(ErrorModel::Status(status))
            &&& opened(dref, status, ddca_handle) == Err::<DisplayHandle, _>(
                ErrorModel::Status(status),
            )
            &&& capabilities_string(status, text) == Err::<Seq<char>, _>(ErrorModel::Status(status))
        },
        status_outcome(0) == Ok::<(), ErrorModel>(()),
        listed(0, Some(list)) == Ok::<_, ErrorModel>(list@),
        listed(0, None) == Err::<Seq<RawDisplay>, _>(ErrorModel::Status(-1i32)),
        opened(dref, 0, ddca_handle) == Ok::<_, ErrorModel>(DisplayHandle { ddca_handle, dref }),
        capabilities_string(0, Some(bytes)) == Ok::<_, ErrorModel>(utf8_lossy(bytes@)),
        capabilities_string(0, None) == Ok::<_, ErrorModel>(""@),
{
}

/// An error of libddcutil has its status; every other has -1. Each has its message.
pub proof fn errors_speak_for_themselves(
    code: i32,
    number: i64,
    edid: Seq<char>,
    status: i64,
    message: Seq<char>,
)
    ensures
        ({
            let failed = ErrorModel::Status(code);
            let missing = ErrorModel::DisplayNotFound {
                display_number: number,
                edid_base64: edid,
                status,
                message,
            };
            let unasked = ErrorModel::DpmsQueryFailed { display_ref: number, message };
            &&& failed.status_code() == code
            &&& failed.message() == "DDC/CI error: "@ + decimal(code as int)
            &&& ErrorModel::Utf8.status_code() == -1
            &&& ErrorModel::Utf8.message() == "UTF-8 conversion error"@
            &&& ErrorModel::MissingIdentifier.status_code() == -1
            &&& ErrorModel::MissingIdentifier.message() == "No Display_Number or EDID supplied"@
            &&& missing.status_code() == -1
            &&& missing.message() == "Display not found"@
            &&& ErrorModel::MissingCapabilities.status_code() == -1
            &&& ErrorModel::MissingCapabilities.message() == "Missing Capabilities"@
            &&& unasked.status_code() == -1
            &&& unasked.message() == "DDC/CI DPMS query failed"@
        }),
{
}

/// A search that fails tells what was searched for: the number or -1, and the EDID or an
/// empty text.
pub proof fn failed_search_names_what_it_sought(number: i64, edid: Seq<char>)
    ensures
        ({
            let none = Seq::<char>::empty();
            let start = "DisplayNumber="@;
            let middle = " EDID="@;
            let end = " - display not found"@;
            let some = "Some("@ + decimal(number as int) + ")"@;
            &&& not_found(Some(number), Some(edid)) == ErrorModel::DisplayNotFound {
                display_number: number,
                edid_base64: edid,
                status: -1i64,
                message: start + some + middle + debug_notation(edid) + end,
            }
            &&& not_found(Some(number), None) == ErrorModel::DisplayNotFound {
                display_number: number,
                edid_base64: none,
                status: -1i64,
                message: start + some + middle + debug_notation(none) + end,
            }
            &&& not_found(None, Some(edid)) == ErrorModel::DisplayNotFound {
                display_number: -1i64,
                edid_base64: edid,
                status: -1i64,
                message: start + "None"@ + middle + debug_notation(edid) + end,
            }
        }),
{
}

/// A failed call is replied what it was about, with -1 or an empty text for what it did
/// not name, the status of the error, and the explanation of a status of libddcutil or
/// else the error's own message.
pub proof fn failed_call_is_answered(
    display_ref: i64,
    display_number: i64,
    edid: Seq<char>,
    vcp_code: i64,
    status: i32,
    error: ErrorModel,
    explanation: Seq<char>,
)
    ensures
        ({
            let told = ddc_error(
                Some(display_ref),
                Some(display_number),
                Some(edid),
                Some(vcp_code),
                ErrorModel::Status(status),
                explanation,
            );
            &&& told.display_ref == display_ref
            &&& told.display_number == display_number
            &&& told.edid_base64 == edid
            &&& told.vcp_code == vcp_code
            &&& told.status == status
            &&& told.message == explanation
        }),
        ({
            let told = ddc_error(None, None, None, None, error, explanation);
            &&& told.display_ref == -1
            &&& told.display_number == -1
            &&& told.edid_base64.len() == 0
            &&& told.vcp_code == -1
            &&& !(error is Status) ==> told.status == -1 && told.message == error.message()
        }),
{
}

/// A status in words is its name, and for any but zero the description and the detail
/// after it; what libddcutil does not name is an unknown code.
pub proof fn status_is_put_in_words(
    status: i32,
    name: Vec<u8>,
    description: Vec<u8>,
    detail: Vec<u8>,
    anything: Option<Vec<u8>>,
    more: Option<Option<Vec<u8>>>,
)
    ensures
        status_message(0, Some(name), anything, more) == utf8_lossy(name@),
        status_message(0, None, anything, more) == "Unknown error code "@ + decimal(0),
        status != 0 ==> {
            let unknown = "Unknown error code "@ + decimal(status as int);
            let colon = ": "@;
            &&& status_message(status, Some(name), Some(description), Some(Some(detail)))
                == utf8_lossy(name@) + colon + utf8_lossy(description@) + colon + utf8_lossy(
                detail@,
            )
            &&& status_message(status, None, None, None) == unknown + colon + ""@ + colon
                + "no details"@
            &&& status_message(status, None, None, Some(None)) == unknown + colon + ""@ + colon
                + ""@
        },
{
}

/// A sleeper with time left sleeps a quarter of a second, or all of it where less is
/// left, and has so much less left; without time left the sleep is over.
pub proof fn sleep_is_taken_in_pieces(remaining: u64)
    ensures
        sleep_on(0) is Elapsed,
        remaining > 0 ==> (sleep_on(remaining) matches SleepStep::Wait { millis, rest } && {
            &&& millis == if remaining < 250 {
                remaining as int
            } else {
                250
            }
            &&& rest == remaining - millis
        }),
{
}

} // verus!
