//! What each method of the interface does, from what libddcutil replies first to the
//! end: which calls it makes, in which order, and what the client is replied.
use crate::ddcutil::{
    display_model, display_models, found, is_meant, search_finds_first_meant, DisplayHandle,
    ErrorModel,
};
use crate::device::{
    DdcReply, DdcRequest, Double, HeaderConstants, RawDisplay, RawMetadata, VcpBytes,
};
use crate::edid::base64_text;
use crate::events::InternalEventKind;
use crate::json::{json_object, Json};
use crate::operation::{
    OperationModel, ProgressModel, Purpose, ReplyModel, StageModel, StepModel, Target,
};
use crate::text::{decimal, decimal_nat, field_text, opt_view, until_nul, utf8_lossy};
use crate::varlink_impl::{detect_model, detected, DdcErrorModel, DetectModel, VcpValueModel};
use crate::vcp::VcpMetadataModel;
use vstd::prelude::*;

verus! {

/// The step calls libddcutil so.
pub open spec fn asks(progress: ProgressModel, request: DdcRequest) -> bool {
    progress matches ProgressModel::Step { step: StepModel::Ask { request: r }, .. } && r == request
}

/// The step replies so to the client.
pub open spec fn gives(progress: ProgressModel, reply: ReplyModel) -> bool {
    progress matches ProgressModel::Step { step: StepModel::Reply { reply: r }, .. } && r == reply
}

/// What follows on what came of a step.
pub open spec fn goes_on(progress: ProgressModel, reply: DdcReply) -> ProgressModel {
    match progress {
        ProgressModel::Step { operation, .. } => operation.next(reply),
        _ => arbitrary(),
    }
}

/// The client is replied so, and that is the end.
pub open spec fn ends_with(progress: ProgressModel, reply: ReplyModel) -> bool {
    gives(progress, reply) && goes_on(progress, DdcReply::Done) is Finished
}

/// A method that looks for its display.
pub open spec fn searching(purpose: Purpose) -> OperationModel {
    OperationModel { purpose, stage: StageModel::Finding }
}

/// What a C string says; the other text where there is none.
pub open spec fn said(text: Option<Vec<u8>>, otherwise: Seq<char>) -> Seq<char> {
    match text {
        Some(bytes) => utf8_lossy(bytes@),
        None => otherwise,
    }
}

/// The client means this display: it gave its number, or its EDID in Base64, or, where
/// that will do, a beginning of it.
pub open spec fn names(target: Target, raw: RawDisplay) -> bool {
    ||| target.display_number == Some(raw.dispno as i64)
    ||| target.edid_base64 matches Some(edid) && edid@ == base64_text(raw.edid_bytes@)
    ||| target.allow_edid_prefix && (target.edid_base64 matches Some(edid) && edid@.is_prefix_of(
        base64_text(raw.edid_bytes@),
    ))
}

/// The display at this place is the first one that the client means.
pub open spec fn names_first(target: Target, list: Seq<RawDisplay>, j: int) -> bool {
    &&& 0 <= j < list.len()
    &&& names(target, list[j])
    &&& forall|k: int| 0 <= k < j ==> !names(target, #[trigger] list[k])
}

/// The client means none of the displays.
pub open spec fn names_none(target: Target, list: Seq<RawDisplay>) -> bool {
    forall|k: int| 0 <= k < list.len() ==> !names(target, #[trigger] list[k])
}

/// The client gave a number or an EDID.
pub open spec fn names_something(target: Target) -> bool {
    target.display_number is Some || target.edid_base64 is Some
}

/// The list that libddcutil replies.
pub open spec fn the_list(displays: Vec<RawDisplay>) -> DdcReply {
    DdcReply::Displays { status: 0, displays: Some(displays) }
}

/// The text of an EDID that may be missing.
pub open spec fn edid_given(target: Target) -> Seq<char> {
    match target.edid_base64 {
        Some(edid) => edid@,
        None => Seq::empty(),
    }
}

/// The number that stands for one that may be missing.
pub open spec fn number_given(number: Option<i64>) -> i64 {
    match number {
        Some(n) => n,
        None => -1i64,
    }
}

/// What the client is told of a failure: what it gave, the feature where one is at
/// fault, a status and a message.
pub open spec fn failure(
    target: Target,
    vcp_code: Option<i64>,
    status: int,
    message: Seq<char>,
) -> ReplyModel {
    ReplyModel::DdcError {
        error: DdcErrorModel {
            display_ref: -1i64,
            display_number: number_given(target.display_number),
            edid_base64: edid_given(target),
            vcp_code: number_given(vcp_code),
            status: status as i64,
            message,
        },
    }
}

/// What libddcutil says of a status.
pub struct Saying {
    pub name: Option<Vec<u8>>,
    pub description: Option<Vec<u8>>,
    pub detail: Option<Option<Vec<u8>>>,
}

/// A status other than zero in words.
pub open spec fn in_words(status: i32, saying: Saying) -> Seq<char> {
    said(saying.name, "Unknown error code "@ + decimal(status as int)) + ": "@ + said(
        saying.description,
        ""@,
    ) + ": "@ + match saying.detail {
        Some(detail) => said(detail, ""@),
        None => "no details"@,
    }
}

/// The client is told of the status with what libddcutil says of it, which is asked for
/// first: name, description and detail. A display that is still held is closed after
/// that.
pub open spec fn explains(
    progress: ProgressModel,
    target: Target,
    vcp_code: Option<i64>,
    status: i32,
    saying: Saying,
    held: Option<DisplayHandle>,
) -> bool {
    let described = goes_on(progress, DdcReply::Name { name: saying.name });
    let detailed = goes_on(described, DdcReply::Name { name: saying.description });
    let replied = goes_on(detailed, DdcReply::Detail { detail: saying.detail });
    let after = goes_on(replied, DdcReply::Done);
    &&& asks(progress, DdcRequest::StatusName { status })
    &&& asks(described, DdcRequest::StatusDescription { status })
    &&& asks(detailed, DdcRequest::ErrorDetail)
    &&& gives(replied, failure(target, vcp_code, status as int, in_words(status, saying)))
    &&& match held {
        None => after is Finished,
        Some(handle) => asks(after, DdcRequest::CloseDisplay { handle }) && goes_on(
            after,
            DdcReply::Done,
        ) is Finished,
    }
}

/// The client is told of an error of the service, which has no status of libddcutil.
pub open spec fn refuses(
    progress: ProgressModel,
    target: Target,
    vcp_code: Option<i64>,
    message: Seq<char>,
) -> bool {
    ends_with(progress, failure(target, vcp_code, -1, message))
}

/// The methods that are about one display, with the display and the feature that a
/// failure of the whole method names.
pub open spec fn is_about(purpose: Purpose, target: Target, vcp_code: Option<i64>) -> bool {
    match purpose {
        Purpose::GetDisplayState { target: t } => t == target && vcp_code is None,
        Purpose::GetSleepMultiplier { target: t } => t == target && vcp_code is None,
        Purpose::SetSleepMultiplier { target: t, .. } => t == target && vcp_code is None,
        Purpose::GetCapabilitiesMetadata { target: t } => t == target && vcp_code is None,
        Purpose::GetCapabilitiesString { target: t } => t == target && vcp_code is None,
        Purpose::GetMultipleVcp { target: t, .. } => t == target && vcp_code is None,
        Purpose::GetVcpMetadata { target: t, .. } => t == target && vcp_code is None,
        Purpose::GetVcp { target: t, vcp_code: c } => t == target && vcp_code == Some(c),
        Purpose::SetVcp { target: t, vcp_code: c, .. } => t == target && vcp_code == Some(c),
        _ => false,
    }
}

/// The methods that open their display.
pub open spec fn opens_display(purpose: Purpose) -> bool {
    ||| purpose is GetCapabilitiesMetadata
    ||| purpose is GetCapabilitiesString
    ||| purpose is GetMultipleVcp
    ||| purpose is GetVcpMetadata
    ||| purpose is GetVcp
    ||| purpose is SetVcp
}

/// A search finds the first display that the client means.
pub(crate) proof fn first_named_is_found(target: Target, list: Seq<RawDisplay>, j: int)
    requires
        names_first(target, list, j),
    ensures
        found(
            list,
            target.display_number,
            opt_view(target.edid_base64),
            target.allow_edid_prefix,
        ) == Some(list[j].dref),
{
    let edid = opt_view(target.edid_base64);
    search_finds_first_meant(list, target.display_number, edid, target.allow_edid_prefix);
    assert forall|k: int| 0 <= k < list.len() implies is_meant(
        #[trigger] list[k],
        target.display_number,
        edid,
        target.allow_edid_prefix,
    ) == names(target, list[k]) by {
        whole_is_a_prefix(base64_text(list[k].edid_bytes@));
    }
}

proof fn none_named_is_not_found(target: Target, list: Seq<RawDisplay>)
    requires
        names_none(target, list),
    ensures
        found(
            list,
            target.display_number,
            opt_view(target.edid_base64),
            target.allow_edid_prefix,
        ) is None,
{
    let edid = opt_view(target.edid_base64);
    search_finds_first_meant(list, target.display_number, edid, target.allow_edid_prefix);
    assert forall|k: int| 0 <= k < list.len() implies is_meant(
        #[trigger] list[k],
        target.display_number,
        edid,
        target.allow_edid_prefix,
    ) == names(target, list[k]) by {
        whole_is_a_prefix(base64_text(list[k].edid_bytes@));
    }
}

/// A text begins with itself.
pub(crate) proof fn whole_is_a_prefix(text: Seq<char>)
    ensures
        text.is_prefix_of(text),
{
    assert(text =~= text.subrange(0, text.len() as int));
}

/// A status other than zero is explained to the client wherever a method fails with it.
pub(crate) proof fn status_is_explained(
    purpose: Purpose,
    target: Target,
    about: Option<i64>,
    vcp_code: Option<i64>,
    status: i32,
    saying: Saying,
    held: Option<DisplayHandle>,
)
    requires
        is_about(purpose, target, about),
        status != 0,
    ensures
        explains(
            purpose.failing(ErrorModel::Status(status), vcp_code, held),
            target,
            vcp_code,
            status,
            saying,
            held,
        ),
{
}

/// A search that finds nothing is told to the client: a list that cannot be had with
/// its status, explained; a missing number and EDID; a display that is not there.
pub proof fn failed_search_is_told(
    purpose: Purpose,
    target: Target,
    vcp_code: Option<i64>,
    displays: Vec<RawDisplay>,
    missing: Option<Vec<RawDisplay>>,
    status: i32,
    saying: Saying,
)
    requires
        is_about(purpose, target, vcp_code),
    ensures
        status != 0 ==> explains(
            searching(purpose).next(DdcReply::Displays { status, displays: missing }),
            target,
            vcp_code,
            status,
            saying,
            None,
        ),
        explains(
            searching(purpose).next(DdcReply::Displays { status: 0, displays: None }),
            target,
            vcp_code,
            -1i32,
            saying,
            None,
        ),
        !names_something(target) ==> refuses(
            searching(purpose).next(the_list(displays)),
            target,
            vcp_code,
            "No Display_Number or EDID supplied"@,
        ),
        names_something(target) && names_none(target, displays@) ==> refuses(
            searching(purpose).next(the_list(displays)),
            target,
            vcp_code,
            "Display not found"@,
        ),
{
    if status != 0 {
        status_is_explained(purpose, target, vcp_code, vcp_code, status, saying, None);
    }
    status_is_explained(purpose, target, vcp_code, vcp_code, -1i32, saying, None);
    if names_something(target) && names_none(target, displays@) {
        none_named_is_not_found(target, displays@);
    }
}

/// The display that the client means, the first one of the list, is opened; if that
/// fails the client is told why.
pub proof fn meant_display_is_opened(
    purpose: Purpose,
    target: Target,
    vcp_code: Option<i64>,
    displays: Vec<RawDisplay>,
    j: int,
    status: i32,
    ddca_handle: usize,
    saying: Saying,
)
    requires
        is_about(purpose, target, vcp_code),
        opens_display(purpose),
        names_first(target, displays@, j),
    ensures
        ({
            let found = searching(purpose).next(the_list(displays));
            &&& asks(found, DdcRequest::OpenDisplay { dref: displays@[j].dref })
            &&& status != 0 ==> explains(
                goes_on(found, DdcReply::Opened { status, ddca_handle }),
                target,
                vcp_code,
                status,
                saying,
                None,
            )
        }),
{
    first_named_is_found(target, displays@, j);
    if status != 0 {
        status_is_explained(purpose, target, vcp_code, vcp_code, status, saying, None);
    }
}

/// A method once its display is found and opened.
pub open spec fn opened(
    purpose: Purpose,
    displays: Vec<RawDisplay>,
    ddca_handle: usize,
) -> ProgressModel {
    goes_on(
        searching(purpose).next(the_list(displays)),
        DdcReply::Opened { status: 0, ddca_handle },
    )
}

/// The handle of the display that was opened.
pub open spec fn handle_of(displays: Vec<RawDisplay>, j: int, ddca_handle: usize) -> DisplayHandle {
    DisplayHandle { ddca_handle, dref: displays@[j].dref }
}

/// The display is closed, and then the client is replied so.
pub open spec fn closes_and_ends(
    progress: ProgressModel,
    handle: DisplayHandle,
    reply: ReplyModel,
) -> bool {
    asks(progress, DdcRequest::CloseDisplay { handle }) && ends_with(
        goes_on(progress, DdcReply::Done),
        reply,
    )
}

/// The display is closed, and then the client is told of the status.
pub open spec fn closes_and_explains(
    progress: ProgressModel,
    handle: DisplayHandle,
    target: Target,
    vcp_code: Option<i64>,
    status: i32,
    saying: Saying,
) -> bool {
    asks(progress, DdcRequest::CloseDisplay { handle }) && explains(
        goes_on(progress, DdcReply::Done),
        target,
        vcp_code,
        status,
        saying,
        None,
    )
}

/// A feature value that was read, and its text: the value is in the last two of the
/// four bytes and the maximum in the first two, high byte first.
pub struct Report {
    pub value: VcpBytes,
    pub text_status: i32,
    pub text: Option<Vec<u8>>,
}

/// The current value of a report.
pub open spec fn current_of(report: Report) -> int {
    256 * report.value.sh + report.value.sl
}

/// The maximum of a report.
pub open spec fn maximum_of(report: Report) -> int {
    256 * report.value.mh + report.value.ml
}

/// The text of a report; empty where it could not be had.
pub open spec fn text_of_report(report: Report) -> Seq<char> {
    if report.text_status == 0 {
        said(report.text, ""@)
    } else {
        Seq::empty()
    }
}

/// To read a feature is to find and open the display that the client means, to read the
/// code, to have the bytes formatted, to close the display, and to reply the current
/// value, the maximum and the text that were reported.
pub proof fn get_vcp_replies_what_is_reported(
    target: Target,
    vcp_code: i64,
    displays: Vec<RawDisplay>,
    j: int,
    ddca_handle: usize,
    report: Report,
)
    requires
        names_first(target, displays@, j),
    ensures
        ({
            let handle = handle_of(displays, j, ddca_handle);
            let code = vcp_code as u8;
            let read = opened(Purpose::GetVcp { target, vcp_code }, displays, ddca_handle);
            let formatted = goes_on(read, DdcReply::Value { status: 0, value: report.value });
            let closing = goes_on(
                formatted,
                DdcReply::Text { status: report.text_status, text: report.text },
            );
            &&& asks(read, DdcRequest::ReadVcp { handle, code })
            &&& asks(
                formatted,
                DdcRequest::FormatVcp { code, dref: handle.dref, value: report.value },
            )
            &&& closes_and_ends(
                closing,
                handle,
                ReplyModel::Value {
                    current: current_of(report) as i64,
                    maximum: maximum_of(report) as i64,
                    formatted: text_of_report(report),
                },
            )
        }),
{
    first_named_is_found(target, displays@, j);
}

/// A feature that cannot be read: the display is closed, and the client is told of the
/// status and the code.
pub proof fn failed_get_vcp_is_told(
    target: Target,
    vcp_code: i64,
    displays: Vec<RawDisplay>,
    j: int,
    ddca_handle: usize,
    status: i32,
    value: VcpBytes,
    saying: Saying,
)
    requires
        names_first(target, displays@, j),
        status != 0,
    ensures
        closes_and_explains(
            goes_on(
                opened(Purpose::GetVcp { target, vcp_code }, displays, ddca_handle),
                DdcReply::Value { status, value },
            ),
            handle_of(displays, j, ddca_handle),
            target,
            Some(vcp_code),
            status,
            saying,
        ),
{
    first_named_is_found(target, displays@, j);
    let purpose = Purpose::GetVcp { target, vcp_code };
    status_is_explained(purpose, target, Some(vcp_code), Some(vcp_code), status, saying, None);
}

/// A number of the event on a written feature, which may be missing.
pub open spec fn number_member(number: Option<i64>) -> Json {
    match number {
        Some(n) => Json::Number(n as int),
        None => Json::Null,
    }
}

/// The EDID in the event on a written feature, which may be missing.
pub open spec fn edid_member(target: Target) -> Json {
    match target.edid_base64 {
        Some(edid) => Json::Text(edid@),
        None => Json::Null,
    }
}

/// What the client says of itself; nothing where it says nothing.
pub open spec fn context_given(client_context: Option<String>) -> Seq<char> {
    match client_context {
        Some(context) => context@,
        None => Seq::empty(),
    }
}

/// The event on a feature that a client wrote: what the client gave, member by member.
pub open spec fn event_of_write(
    target: Target,
    vcp_code: i64,
    new_value: i64,
    client_context: Option<String>,
) -> (InternalEventKind, Seq<char>) {
    (
        InternalEventKind::VcpChange,
        json_object(
            seq![
                ("client_context"@, Json::Text(context_given(client_context))),
                ("display_number"@, number_member(target.display_number)),
                ("edid_base64"@, edid_member(target)),
                ("event_type"@, Json::Text("VcpChange"@)),
                ("new_value"@, Json::Number(new_value as int)),
                ("origin"@, Json::Text("ddcutil-varlink"@)),
                ("vcp_code"@, Json::Number(vcp_code as int)),
            ],
        ),
    )
}

/// To write a feature is to find and open the display that the client means, to set
/// whether it is verified, to write the low sixteen bits of the value in two bytes, to
/// tell subscribers what the client gave, to close the display, and to reply nothing
/// more.
pub proof fn set_vcp_writes_and_tells(
    target: Target,
    vcp_code: i64,
    new_value: i64,
    client_context: Option<String>,
    verify: bool,
    displays: Vec<RawDisplay>,
    j: int,
    ddca_handle: usize,
)
    requires
        names_first(target, displays@, j),
    ensures
        ({
            let handle = handle_of(displays, j, ddca_handle);
            let purpose = Purpose::SetVcp { target, vcp_code, new_value, client_context, verify };
            let verifying = opened(purpose, displays, ddca_handle);
            let writing = goes_on(verifying, DdcReply::Done);
            let telling = goes_on(writing, DdcReply::Status { status: 0 });
            &&& asks(verifying, DdcRequest::EnableVerify { verify })
            &&& writing matches ProgressModel::Step {
                step: StepModel::Ask { request: DdcRequest::WriteVcp { handle: h, code, high, low } },
                ..
            } && h == handle && code == vcp_code as u8 && 256 * high + low == new_value as u16
            &&& telling matches ProgressModel::Step { step: StepModel::Broadcast { event }, .. }
                && event == event_of_write(target, vcp_code, new_value, client_context)
            &&& closes_and_ends(goes_on(telling, DdcReply::Done), handle, ReplyModel::Empty)
        }),
{
    first_named_is_found(target, displays@, j);
}

/// A feature that cannot be written: nobody is told, the display is closed, and the
/// client is told of the status and the code.
pub proof fn failed_set_vcp_is_told(
    target: Target,
    vcp_code: i64,
    new_value: i64,
    client_context: Option<String>,
    verify: bool,
    displays: Vec<RawDisplay>,
    j: int,
    ddca_handle: usize,
    status: i32,
    saying: Saying,
)
    requires
        names_first(target, displays@, j),
        status != 0,
    ensures
        ({
            let purpose = Purpose::SetVcp { target, vcp_code, new_value, client_context, verify };
            closes_and_explains(
                goes_on(
                    goes_on(opened(purpose, displays, ddca_handle), DdcReply::Done),
                    DdcReply::Status { status },
                ),
                handle_of(displays, j, ddca_handle),
                target,
                Some(vcp_code),
                status,
                saying,
            )
        }),
{
    first_named_is_found(target, displays@, j);
    let purpose = Purpose::SetVcp { target, vcp_code, new_value, client_context, verify };
    status_is_explained(purpose, target, Some(vcp_code), Some(vcp_code), status, saying, None);
}

/// A flag is set where one of its bits is.
pub open spec fn has_bit(flags: u32, mask: u32) -> bool {
    flags & mask != 0
}

/// To ask for the metadata of a feature is to find and open the display, to ask for the
/// code, to close the display, and to reply names and flags as the metadata has them.
/// Metadata that cannot be had is told with its status.
pub proof fn get_vcp_metadata_replies_the_metadata(
    target: Target,
    vcp_code: i64,
    constants: HeaderConstants,
    displays: Vec<RawDisplay>,
    j: int,
    ddca_handle: usize,
    raw: RawMetadata,
    missing: Option<RawMetadata>,
    status: i32,
    saying: Saying,
)
    requires
        names_first(target, displays@, j),
    ensures
        ({
            let handle = handle_of(displays, j, ddca_handle);
            let purpose = Purpose::GetVcpMetadata { target, vcp_code, constants };
            let asked = opened(purpose, displays, ddca_handle);
            let flags = raw.feature_flags;
            &&& asks(asked, DdcRequest::FeatureMetadata { handle, code: vcp_code as u8 })
            &&& closes_and_ends(
                goes_on(asked, DdcReply::Metadata { status: 0, metadata: Some(raw) }),
                handle,
                ReplyModel::Metadata {
                    metadata: VcpMetadataModel {
                        feature_name: said(raw.feature_name, "unknown"@),
                        description: said(raw.feature_desc, ""@),
                        is_read_only: has_bit(flags, constants.ro),
                        is_write_only: has_bit(flags, constants.wo),
                        is_rw: has_bit(flags, constants.rw),
                        is_complex: has_bit(flags, constants.complex_cont | constants.complex_nc),
                        is_continuous: has_bit(flags, constants.cont),
                    },
                },
            )
            &&& status != 0 ==> closes_and_explains(
                goes_on(asked, DdcReply::Metadata { status, metadata: missing }),
                handle,
                target,
                None,
                status,
                saying,
            )
            &&& closes_and_explains(
                goes_on(asked, DdcReply::Metadata { status: 0, metadata: None }),
                handle,
                target,
                None,
                -1i32,
                saying,
            )
        }),
{
    first_named_is_found(target, displays@, j);
    let purpose = Purpose::GetVcpMetadata { target, vcp_code, constants };
    if status != 0 {
        status_is_explained(purpose, target, None, None, status, saying, None);
    }
    status_is_explained(purpose, target, None, None, -1i32, saying, None);
}

/// A feature is complex if one of the bits of either sort of complexity is set.
pub proof fn complex_is_either_sort(flags: u32, cont: u32, nc: u32)
    ensures
        has_bit(flags, cont | nc) <==> has_bit(flags, cont) || has_bit(flags, nc),
{
    assert((flags & (cont | nc)) != 0 <==> (flags & cont) != 0 || (flags & nc) != 0)
        by (bit_vector);
}

/// To ask for the capabilities string is to find and open the display, to read the
/// string, to close the display, and to reply the string as it is.
pub proof fn get_capabilities_string_replies_the_string(
    target: Target,
    displays: Vec<RawDisplay>,
    j: int,
    ddca_handle: usize,
    text: Option<Vec<u8>>,
    status: i32,
    saying: Saying,
)
    requires
        names_first(target, displays@, j),
    ensures
        ({
            let handle = handle_of(displays, j, ddca_handle);
            let asked = opened(Purpose::GetCapabilitiesString { target }, displays, ddca_handle);
            &&& asks(asked, DdcRequest::ReadCapabilities { handle })
            &&& closes_and_ends(
                goes_on(asked, DdcReply::Text { status: 0, text }),
                handle,
                ReplyModel::Text { text: said(text, ""@) },
            )
            &&& status != 0 ==> closes_and_explains(
                goes_on(asked, DdcReply::Text { status, text }),
                handle,
                target,
                None,
                status,
                saying,
            )
        }),
{
    first_named_is_found(target, displays@, j);
    if status != 0 {
        let purpose = Purpose::GetCapabilitiesString { target };
        status_is_explained(purpose, target, None, None, status, saying, None);
    }
}

/// To ask for the state of a display is to find it, to have it validated, and to reply
/// the status that came of it, with its name, and if it is not zero with what libddcutil
/// says of it. The display is not opened.
pub proof fn get_display_state_replies_the_status(
    target: Target,
    displays: Vec<RawDisplay>,
    j: int,
    status: i32,
    saying: Saying,
)
    requires
        names_first(target, displays@, j),
    ensures
        ({
            let asked = searching(Purpose::GetDisplayState { target }).next(the_list(displays));
            let named = goes_on(asked, DdcReply::Status { status });
            let described = goes_on(named, DdcReply::Name { name: saying.name });
            let detailed = goes_on(described, DdcReply::Name { name: saying.description });
            let replied = goes_on(detailed, DdcReply::Detail { detail: saying.detail });
            &&& asks(asked, DdcRequest::ValidateDisplay { dref: displays@[j].dref })
            &&& asks(named, DdcRequest::StatusName { status })
            &&& status == 0 ==> ends_with(
                described,
                ReplyModel::DisplayState {
                    status: 0,
                    message: said(saying.name, "Unknown error code 0"@),
                },
            )
            &&& status != 0 ==> asks(described, DdcRequest::StatusDescription { status }) && asks(
                detailed,
                DdcRequest::ErrorDetail,
            ) && ends_with(
                replied,
                ReplyModel::DisplayState {
                    status: status as i64,
                    message: in_words(status, saying),
                },
            )
        }),
{
    first_named_is_found(target, displays@, j);
    reveal_strlit("Unknown error code 0");
    reveal_strlit("Unknown error code ");
    reveal_with_fuel(decimal_nat, 2);
    assert(decimal(0) =~= seq!['0']);
    assert("Unknown error code "@ + decimal(0) =~= "Unknown error code 0"@);
}

/// To ask for the sleep multiplier of a display is to find it, to ask for the number,
/// and to reply it as it is. The display is not opened.
pub proof fn get_sleep_multiplier_replies_the_number(
    target: Target,
    displays: Vec<RawDisplay>,
    j: int,
    multiplier: Double,
    status: i32,
    saying: Saying,
)
    requires
        names_first(target, displays@, j),
    ensures
        ({
            let purpose = Purpose::GetSleepMultiplier { target };
            let asked = searching(purpose).next(the_list(displays));
            &&& asks(asked, DdcRequest::ReadSleepMultiplier { dref: displays@[j].dref })
            &&& ends_with(
                goes_on(asked, DdcReply::Multiplier { status: 0, multiplier }),
                ReplyModel::Multiplier { multiplier },
            )
            &&& status != 0 ==> explains(
                goes_on(asked, DdcReply::Multiplier { status, multiplier }),
                target,
                None,
                status,
                saying,
                None,
            )
        }),
{
    first_named_is_found(target, displays@, j);
    if status != 0 {
        let purpose = Purpose::GetSleepMultiplier { target };
        status_is_explained(purpose, target, None, None, status, saying, None);
    }
}

/// To set the sleep multiplier of a display is to find it, to hand the number that the
/// client gave to libddcutil, and to reply nothing more. The display is not opened.
pub proof fn set_sleep_multiplier_sets_the_number(
    target: Target,
    multiplier: Double,
    displays: Vec<RawDisplay>,
    j: int,
    status: i32,
    saying: Saying,
)
    requires
        names_first(target, displays@, j),
    ensures
        ({
            let purpose = Purpose::SetSleepMultiplier { target, multiplier };
            let asked = searching(purpose).next(the_list(displays));
            &&& asks(
                asked,
                DdcRequest::WriteSleepMultiplier { dref: displays@[j].dref, multiplier },
            )
            &&& ends_with(goes_on(asked, DdcReply::Status { status: 0 }), ReplyModel::Empty)
            &&& status != 0 ==> explains(
                goes_on(asked, DdcReply::Status { status }),
                target,
                None,
                status,
                saying,
                None,
            )
        }),
{
    first_named_is_found(target, displays@, j);
    if status != 0 {
        let purpose = Purpose::SetSleepMultiplier { target, multiplier };
        status_is_explained(purpose, target, None, None, status, saying, None);
    }
}

/// The text is what a field of fixed size holds: what stands before its first zero
/// byte, or the whole field, with a question mark for each zero character.
pub open spec fn is_field_text(text: Seq<char>, bytes: Seq<u8>) -> bool {
    exists|n: int|
        0 <= n <= bytes.len() && (forall|k: int| 0 <= k < n ==> bytes[k] != 0) && (n < bytes.len()
            ==> bytes[n] == 0) && text == utf8_lossy(#[trigger] bytes.take(n)).map_values(
            |c: char|
                if c == '\0' {
                    '?'
                } else {
                    c
                },
        )
}

/// The entry tells of the display: its fields are those of the record, the EDID is in
/// Base64, and its serial number is in bytes 12 to 15, the least one first.
pub open spec fn tells_of(entry: DetectModel, raw: RawDisplay) -> bool {
    &&& entry.display_ref == raw.dref as i64
    &&& entry.display_number == raw.dispno
    &&& entry.usb_bus == raw.usb_bus
    &&& entry.usb_device == raw.usb_device
    &&& is_field_text(entry.mfg_id, raw.mfg_id@)
    &&& is_field_text(entry.model_name, raw.model_name@)
    &&& is_field_text(entry.serial_number, raw.sn@)
    &&& entry.product_code == raw.product_code
    &&& entry.edid_base64 == base64_text(raw.edid_bytes@)
    &&& entry.edid_serial_number == decimal(
        raw.edid_bytes@[12] + 256 * raw.edid_bytes@[13] + 65536 * raw.edid_bytes@[14] + 16777216
            * raw.edid_bytes@[15],
    )
}

/// The reply tells of every display of the list, in its order, and counts them.
pub open spec fn tells_of_all(progress: ProgressModel, list: Seq<RawDisplay>) -> bool {
    &&& progress matches ProgressModel::Step {
        step: StepModel::Reply { reply: ReplyModel::Detected { count, entries } },
        ..
    }
    &&& count == list.len() as i64
    &&& entries.len() == list.len()
    &&& forall|i: int| 0 <= i < list.len() ==> tells_of(#[trigger] entries[i], list[i])
    &&& goes_on(progress, DdcReply::Done) is Finished
}

/// The text of a field is what the field holds.
pub(crate) proof fn field_text_is_what_the_field_holds(bytes: Seq<u8>)
    ensures
        is_field_text(field_text(bytes), bytes),
{
    bytes.index_of_first_ensures(0u8);
    let n = match bytes.index_of_first(0u8) {
        Some(end) => end,
        None => bytes.len() as int,
    };
    assert(bytes.take(bytes.len() as int) =~= bytes);
    assert(until_nul(bytes) == bytes.take(n));
    assert forall|k: int| 0 <= k < n implies bytes[k] != 0 by {
        assert(bytes.contains(bytes[k]));
    }
    let text = utf8_lossy(bytes.take(n));
    assert(field_text(bytes) =~= text.map_values(
        |c: char|
            if c == '\0' {
                '?'
            } else {
                c
            },
    ));
}

proof fn entry_tells_of_its_display(raw: RawDisplay)
    ensures
        tells_of(detect_model(display_model(raw)), raw),
{
    field_text_is_what_the_field_holds(raw.mfg_id@);
    field_text_is_what_the_field_holds(raw.model_name@);
    field_text_is_what_the_field_holds(raw.sn@);
}

/// To list displays is to reply what libddcutil lists, every display of it; a list that
/// cannot be had ends the call with its status.
pub proof fn list_is_replied(
    purpose: Purpose,
    displays: Vec<RawDisplay>,
    missing: Option<Vec<RawDisplay>>,
    status: i32,
)
    requires
        purpose is Detect || purpose is ListDetected,
    ensures
        ({
            let listing = OperationModel { purpose, stage: StageModel::Listing };
            &&& tells_of_all(listing.next(the_list(displays)), displays@)
            &&& status != 0 ==> listing.next(DdcReply::Displays { status, displays: missing })
                == (ProgressModel::Failed { error: ErrorModel::Status(status) })
            &&& listing.next(DdcReply::Displays { status: 0, displays: None })
                == (ProgressModel::Failed { error: ErrorModel::Status(-1i32) })
        }),
{
    let list = displays@;
    let entries = detected(display_models(list));
    assert forall|i: int| 0 <= i < list.len() implies tells_of(#[trigger] entries[i], list[i]) by {
        assert(entries[i] == detect_model(display_model(list[i])));
        entry_tells_of_its_display(list[i]);
    }
}

/// To detect displays is to redetect, then to list, with those that are offline exactly
/// if the client asked for them, and to reply the list. A redetection that fails is
/// replied with its status, and nothing is listed.
pub proof fn detect_lists_what_was_asked_for(
    include_offline: bool,
    displays: Vec<RawDisplay>,
    status: i32,
)
    ensures
        ({
            let purpose = Purpose::Detect { include_offline };
            let redetecting = OperationModel { purpose, stage: StageModel::Redetecting };
            let listing = redetecting.next(DdcReply::Status { status: 0 });
            &&& asks(listing, DdcRequest::ListDisplays { include_invalid: include_offline })
            &&& tells_of_all(goes_on(listing, the_list(displays)), displays@)
            &&& status != 0 ==> ends_with(
                redetecting.next(DdcReply::Status { status }),
                ReplyModel::DetectError {
                    status: status as i64,
                    message: "Detect failed: "@ + ("DDC/CI error: "@ + decimal(status as int)),
                },
            )
        }),
{
    let purpose = Purpose::Detect { include_offline };
    list_is_replied(purpose, displays, None, 1);
}

/// What the settings of libddcutil are is replied as libddcutil gives it, and a setting
/// that was made is replied with nothing more.
pub proof fn settings_are_replied(enabled: bool, level: u32, version: Option<Vec<u8>>)
    ensures
        ends_with(
            (OperationModel { purpose: Purpose::GetDynamicSleep, stage: StageModel::Asking }).next(
                DdcReply::Flag { enabled },
            ),
            ReplyModel::Flag { enabled },
        ),
        ends_with(
            (OperationModel { purpose: Purpose::GetOutputLevel, stage: StageModel::Asking }).next(
                DdcReply::Level { level },
            ),
            ReplyModel::Level { level: level as i64 },
        ),
        ends_with(
            (OperationModel { purpose: Purpose::GetVersion, stage: StageModel::Asking }).next(
                DdcReply::Name { name: version },
            ),
            ReplyModel::Text { text: said(version, "unknown"@) },
        ),
        ends_with(
            (OperationModel { purpose: Purpose::SetDynamicSleep, stage: StageModel::Asking }).next(
                DdcReply::Done,
            ),
            ReplyModel::Empty,
        ),
        ends_with(
            (OperationModel { purpose: Purpose::SetOutputLevel, stage: StageModel::Asking }).next(
                DdcReply::Done,
            ),
            ReplyModel::Empty,
        ),
{
}

/// The method after so many features were read and formatted.
pub open spec fn after_reads(progress: ProgressModel, reports: Seq<Report>, n: nat) -> ProgressModel
    decreases n,
{
    if n == 0 {
        progress
    } else {
        let before = after_reads(progress, reports, (n - 1) as nat);
        let report = reports[n - 1];
        goes_on(
            goes_on(before, DdcReply::Value { status: 0, value: report.value }),
            DdcReply::Text { status: report.text_status, text: report.text },
        )
    }
}

/// The values that a client is replied are those of the reports: one for each code, in
/// their order, each with its own code, current value, maximum and text.
pub open spec fn are_reported(
    values: Seq<VcpValueModel>,
    vcp_codes: Seq<i64>,
    reports: Seq<Report>,
) -> bool {
    &&& values.len() == vcp_codes.len()
    &&& forall|i: int|
        0 <= i < values.len() ==> {
            let value = #[trigger] values[i];
            &&& value.vcp_code == vcp_codes[i]
            &&& value.current == current_of(reports[i])
            &&& value.maximum == maximum_of(reports[i])
            &&& value.formatted == text_of_report(reports[i])
        }
}

spec fn values_so_far(vcp_codes: Seq<i64>, reports: Seq<Report>, n: nat) -> Seq<VcpValueModel> {
    Seq::new(
        n,
        |i: int|
            VcpValueModel {
                vcp_code: vcp_codes[i],
                current: current_of(reports[i]) as i64,
                maximum: maximum_of(reports[i]) as i64,
                formatted: text_of_report(reports[i]),
            },
    )
}

proof fn reads_gather_values(
    target: Target,
    vcp_codes: Vec<i64>,
    displays: Vec<RawDisplay>,
    j: int,
    ddca_handle: usize,
    reports: Seq<Report>,
    n: nat,
)
    requires
        names_first(target, displays@, j),
        reports.len() == vcp_codes@.len(),
        n <= reports.len(),
    ensures
        ({
            let purpose = Purpose::GetMultipleVcp { target, vcp_codes };
            after_reads(opened(purpose, displays, ddca_handle), reports, n) == purpose.reading_on(
                handle_of(displays, j, ddca_handle),
                vcp_codes@,
                values_so_far(vcp_codes@, reports, n),
            )
        }),
    decreases n,
{
    let purpose = Purpose::GetMultipleVcp { target, vcp_codes };
    if n == 0 {
        first_named_is_found(target, displays@, j);
        assert(values_so_far(vcp_codes@, reports, 0) =~= Seq::empty());
    } else {
        let m = (n - 1) as nat;
        reads_gather_values(target, vcp_codes, displays, j, ddca_handle, reports, m);
        let report = reports[m as int];
        let before = values_so_far(vcp_codes@, reports, m);
        assert(before.len() == m);
        assert(before.push(
            VcpValueModel {
                vcp_code: vcp_codes@[m as int],
                current: current_of(report) as i64,
                maximum: maximum_of(report) as i64,
                formatted: text_of_report(report),
            },
        ) =~= values_so_far(vcp_codes@, reports, n));
    }
}

/// To read several features is to find and open the display, to read and format each of
/// the codes in their order, and to reply what was reported for each, in that order; the
/// display is closed after the reply.
pub proof fn get_multiple_vcp_replies_what_is_reported(
    target: Target,
    vcp_codes: Vec<i64>,
    displays: Vec<RawDisplay>,
    j: int,
    ddca_handle: usize,
    reports: Seq<Report>,
    k: int,
)
    requires
        names_first(target, displays@, j),
        reports.len() == vcp_codes@.len(),
    ensures
        ({
            let handle = handle_of(displays, j, ddca_handle);
            let start = opened(Purpose::GetMultipleVcp { target, vcp_codes }, displays, ddca_handle);
            let replied = after_reads(start, reports, reports.len());
            let closing = goes_on(replied, DdcReply::Done);
            &&& 0 <= k < reports.len() ==> {
                let code = vcp_codes@[k] as u8;
                let read = after_reads(start, reports, k as nat);
                let value = reports[k].value;
                &&& asks(read, DdcRequest::ReadVcp { handle, code })
                &&& asks(
                    goes_on(read, DdcReply::Value { status: 0, value }),
                    DdcRequest::FormatVcp { code, dref: handle.dref, value },
                )
            }
            &&& replied matches ProgressModel::Step {
                step: StepModel::Reply { reply: ReplyModel::Values { values } },
                ..
            } && are_reported(values, vcp_codes@, reports)
            &&& asks(closing, DdcRequest::CloseDisplay { handle })
            &&& goes_on(closing, DdcReply::Done) is Finished
        }),
{
    reads_gather_values(target, vcp_codes, displays, j, ddca_handle, reports, reports.len());
    if 0 <= k < reports.len() {
        reads_gather_values(target, vcp_codes, displays, j, ddca_handle, reports, k as nat);
        assert(values_so_far(vcp_codes@, reports, k as nat).len() == k);
    }
}

/// A feature among several that cannot be read ends the reading: the client is told of
/// the status and of that code, and the display is closed after that.
pub proof fn failed_get_multiple_vcp_is_told(
    target: Target,
    vcp_codes: Vec<i64>,
    displays: Vec<RawDisplay>,
    j: int,
    ddca_handle: usize,
    reports: Seq<Report>,
    k: int,
    status: i32,
    value: VcpBytes,
    saying: Saying,
)
    requires
        names_first(target, displays@, j),
        reports.len() == vcp_codes@.len(),
        0 <= k < reports.len(),
        status != 0,
    ensures
        ({
            let handle = handle_of(displays, j, ddca_handle);
            let start = opened(Purpose::GetMultipleVcp { target, vcp_codes }, displays, ddca_handle);
            explains(
                goes_on(
                    after_reads(start, reports, k as nat),
                    DdcReply::Value { status, value },
                ),
                target,
                Some(vcp_codes@[k]),
                status,
                saying,
                Some(handle),
            )
        }),
{
    reads_gather_values(target, vcp_codes, displays, j, ddca_handle, reports, k as nat);
    assert(values_so_far(vcp_codes@, reports, k as nat).len() == k);
    let purpose = Purpose::GetMultipleVcp { target, vcp_codes };
    let handle = handle_of(displays, j, ddca_handle);
    let code = Some(vcp_codes@[k]);
    status_is_explained(purpose, target, None, code, status, saying, Some(handle));
}

} // verus!
