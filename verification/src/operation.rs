//! The methods of the varlink interface that call libddcutil. Each is a course of
//! steps: a call of libddcutil, an event for the subscribers, or the reply to the
//! client. The caller carries a step out, and hands back what came of it.
use crate::capabilities::{
    gathering_covers_the_capabilities, get_capabilities_data, CapabilitiesProgress,
    CapabilitiesProgressModel, CapabilitiesReader, CapabilitiesReaderModel,
};
use crate::ddcutil::{
    capabilities_string, display_models, display_search, find_display, get_capabilities_string,
    get_ddcutil_version, get_sleep_multiplier, list_displays, listed, models, open_display, opened,
    redetect, set_sleep_multiplier, text_of, DisplayHandle, DisplayRef, Error, ErrorModel,
};
use crate::device::{answers, DdcReply, DdcRequest, Double, HeaderConstants, VcpBytes};
use crate::events::{InternalEvent, InternalEventKind};
use crate::service::{build_vcp_changed_event, vcp_changed_event};
use crate::status::{StatusProgress, StatusProgressModel, StatusReader};
use crate::subscribers::{everyone_is_sent_the_event, is_broadcast, is_sent, Subscriber};
use crate::text::{c_text, opt_view};
use crate::varlink_impl::{
    convert_capabilities_data, converted, ddc_error, detect_entries, detect_models, detected,
    or_minus_one, send_ddc_error, vcp_value_models, CapabilitiesReply, CapabilitiesReplyModel,
    DdcError, DdcErrorModel, DetectEntry, DetectModel, VcpValue, VcpValueModel,
};
use crate::vcp::{
    get_vcp, get_vcp_metadata, set_vcp, vcp_metadata, word, written_value_reads_back,
    VcpFeatureMetadata, VcpMetadataModel, VcpProgress, VcpProgressModel, VcpReader,
};
use vstd::pervasive::unreached;
use vstd::prelude::*;
use vstd::string::*;

verus! {

/// The display that a call is about, as the client names it.
pub struct Target {
    pub display_number: Option<i64>,
    pub edid_base64: Option<String>,
    pub allow_edid_prefix: bool,
}

/// What a method is called for.
pub enum Purpose {
    Detect { include_offline: bool },
    ListDetected { include_offline: bool },
    GetDynamicSleep,
    GetOutputLevel,
    GetVersion,
    SetDynamicSleep,
    SetOutputLevel,
    GetDisplayState { target: Target },
    GetSleepMultiplier { target: Target },
    SetSleepMultiplier { target: Target, multiplier: Double },
    GetCapabilitiesMetadata { target: Target },
    GetCapabilitiesString { target: Target },
    GetMultipleVcp { target: Target, vcp_codes: Vec<i64> },
    GetVcp { target: Target, vcp_code: i64 },
    GetVcpMetadata { target: Target, vcp_code: i64, constants: HeaderConstants },
    SetVcp {
        target: Target,
        vcp_code: i64,
        new_value: i64,
        client_context: Option<String>,
        verify: bool,
    },
}

impl Purpose {
    /// The display that the method is about, if it is about one.
    pub open spec fn target(self) -> Option<Target> {
        match self {
            Purpose::GetDisplayState { target } => Some(target),
            Purpose::GetSleepMultiplier { target } => Some(target),
            Purpose::SetSleepMultiplier { target, .. } => Some(target),
            Purpose::GetCapabilitiesMetadata { target } => Some(target),
            Purpose::GetCapabilitiesString { target } => Some(target),
            Purpose::GetMultipleVcp { target, .. } => Some(target),
            Purpose::GetVcp { target, .. } => Some(target),
            Purpose::GetVcpMetadata { target, .. } => Some(target),
            Purpose::SetVcp { target, .. } => Some(target),
            _ => None,
        }
    }

    /// The display has to be opened.
    pub open spec fn opens(self) -> bool {
        self.target() is Some && !(self is GetDisplayState) && !(self is GetSleepMultiplier) && !(
        self is SetSleepMultiplier)
    }

    /// The feature that a failure of the whole method is about, where it says.
    pub open spec fn failing_code(self) -> Option<i64> {
        match self {
            Purpose::GetVcp { vcp_code, .. } => Some(vcp_code),
            Purpose::SetVcp { vcp_code, .. } => Some(vcp_code),
            _ => None,
        }
    }

    fn borrow_target(&self) -> (res: &Target)
        requires
            self.target() is Some,
        ensures
            Some(*res) == self.target(),
    {
        match self {
            Purpose::GetDisplayState { target } => target,
            Purpose::GetSleepMultiplier { target } => target,
            Purpose::SetSleepMultiplier { target, .. } => target,
            Purpose::GetCapabilitiesMetadata { target } => target,
            Purpose::GetCapabilitiesString { target } => target,
            Purpose::GetMultipleVcp { target, .. } => target,
            Purpose::GetVcp { target, .. } => target,
            Purpose::GetVcpMetadata { target, .. } => target,
            Purpose::SetVcp { target, .. } => target,
            _ => unreached(),
        }
    }

    fn get_failing_code(&self) -> (res: Option<i64>)
        ensures
            res == self.failing_code(),
    {
        match self {
            Purpose::GetVcp { vcp_code, .. } => Some(*vcp_code),
            Purpose::SetVcp { vcp_code, .. } => Some(*vcp_code),
            _ => None,
        }
    }
}

/// The reply to a client.
pub enum Reply {
    Detected { count: i64, entries: Vec<DetectEntry> },
    DetectError { status: i64, message: String },
    Flag { enabled: bool },
    Level { level: i64 },
    Text { text: String },
    DisplayState { status: i64, message: String },
    Multiplier { multiplier: Double },
    Capabilities { capabilities: CapabilitiesReply },
    Values { values: Vec<VcpValue> },
    Value { current: i64, maximum: i64, formatted: String },
    Metadata { metadata: VcpFeatureMetadata },
    Empty,
    DdcError { error: DdcError },
}

/// What a reply says.
#[verifier::ext_equal]
pub enum ReplyModel {
    Detected { count: i64, entries: Seq<DetectModel> },
    DetectError { status: i64, message: Seq<char> },
    Flag { enabled: bool },
    Level { level: i64 },
    Text { text: Seq<char> },
    DisplayState { status: i64, message: Seq<char> },
    Multiplier { multiplier: Double },
    Capabilities { capabilities: CapabilitiesReplyModel },
    Values { values: Seq<VcpValueModel> },
    Value { current: i64, maximum: i64, formatted: Seq<char> },
    Metadata { metadata: VcpMetadataModel },
    Empty,
    DdcError { error: DdcErrorModel },
}

impl View for Reply {
    type V = ReplyModel;

    open spec fn view(&self) -> ReplyModel {
        match *self {
            Reply::Detected { count, entries } => ReplyModel::Detected {
                count,
                entries: detect_models(entries@),
            },
            Reply::DetectError { status, message } => ReplyModel::DetectError {
                status,
                message: message@,
            },
            Reply::Flag { enabled } => ReplyModel::Flag { enabled },
            Reply::Level { level } => ReplyModel::Level { level },
            Reply::Text { text } => ReplyModel::Text { text: text@ },
            Reply::DisplayState { status, message } => ReplyModel::DisplayState {
                status,
                message: message@,
            },
            Reply::Multiplier { multiplier } => ReplyModel::Multiplier { multiplier },
            Reply::Capabilities { capabilities } => ReplyModel::Capabilities {
                capabilities: capabilities@,
            },
            Reply::Values { values } => ReplyModel::Values { values: vcp_value_models(values@) },
            Reply::Value { current, maximum, formatted } => ReplyModel::Value {
                current,
                maximum,
                formatted: formatted@,
            },
            Reply::Metadata { metadata } => ReplyModel::Metadata { metadata: metadata@ },
            Reply::Empty => ReplyModel::Empty,
            Reply::DdcError { error } => ReplyModel::DdcError { error: error@ },
        }
    }
}

/// What the work on an open display came to.
pub enum Outcome {
    Success { reply: Reply },
    Failure { error: Error },
}

/// What an outcome says.
pub enum OutcomeModel {
    Success { reply: ReplyModel },
    Failure { error: ErrorModel },
}

impl View for Outcome {
    type V = OutcomeModel;

    open spec fn view(&self) -> OutcomeModel {
        match *self {
            Outcome::Success { reply } => OutcomeModel::Success { reply: reply@ },
            Outcome::Failure { error } => OutcomeModel::Failure { error: error@ },
        }
    }
}

/// What a method is waiting for.
#[allow(inconsistent_fields)]
pub enum Stage {
    Redetecting,
    Listing,
    Asking,
    Finding,
    Validating,
    Tuning,
    Opening { dref: DisplayRef },
    Gathering { handle: DisplayHandle, reader: CapabilitiesReader },
    Fetching { handle: DisplayHandle },
    Reading { handle: DisplayHandle, reader: VcpReader, values: Vec<VcpValue> },
    Verifying { handle: DisplayHandle },
    Writing { handle: DisplayHandle },
    Telling { handle: DisplayHandle },
    Closing { outcome: Outcome },
    /// The state of a display is put in words.
    Stating { status: i32, reader: StatusReader },
    /// A failure is put in words.
    Explaining {
        status: i32,
        reader: StatusReader,
        vcp_code: Option<i64>,
        held: Option<DisplayHandle>,
    },
    Replied { held: Option<DisplayHandle> },
    Ending,
}

/// The point that a method has reached.
#[allow(inconsistent_fields)]
pub enum StageModel {
    Redetecting,
    Listing,
    Asking,
    Finding,
    Validating,
    Tuning,
    Opening { dref: DisplayRef },
    Gathering { handle: DisplayHandle, reader: CapabilitiesReaderModel },
    Fetching { handle: DisplayHandle },
    Reading { handle: DisplayHandle, reader: VcpReader, values: Seq<VcpValueModel> },
    Verifying { handle: DisplayHandle },
    Writing { handle: DisplayHandle },
    Telling { handle: DisplayHandle },
    Closing { outcome: OutcomeModel },
    Stating { status: i32, reader: StatusReader },
    Explaining {
        status: i32,
        reader: StatusReader,
        vcp_code: Option<i64>,
        held: Option<DisplayHandle>,
    },
    Replied { held: Option<DisplayHandle> },
    Ending,
}

impl View for Stage {
    type V = StageModel;

    open spec fn view(&self) -> StageModel {
        match *self {
            Stage::Redetecting => StageModel::Redetecting,
            Stage::Listing => StageModel::Listing,
            Stage::Asking => StageModel::Asking,
            Stage::Finding => StageModel::Finding,
            Stage::Validating => StageModel::Validating,
            Stage::Tuning => StageModel::Tuning,
            Stage::Opening { dref } => StageModel::Opening { dref },
            Stage::Gathering { handle, reader } => StageModel::Gathering {
                handle,
                reader: reader@,
            },
            Stage::Fetching { handle } => StageModel::Fetching { handle },
            Stage::Reading { handle, reader, values } => StageModel::Reading {
                handle,
                reader,
                values: vcp_value_models(values@),
            },
            Stage::Verifying { handle } => StageModel::Verifying { handle },
            Stage::Writing { handle } => StageModel::Writing { handle },
            Stage::Telling { handle } => StageModel::Telling { handle },
            Stage::Closing { outcome } => StageModel::Closing { outcome: outcome@ },
            Stage::Stating { status, reader } => StageModel::Stating { status, reader },
            Stage::Explaining { status, reader, vcp_code, held } => StageModel::Explaining {
                status,
                reader,
                vcp_code,
                held,
            },
            Stage::Replied { held } => StageModel::Replied { held },
            Stage::Ending => StageModel::Ending,
        }
    }
}

/// A method call that is being carried out.
pub struct Operation {
    pub purpose: Purpose,
    pub stage: Stage,
}

/// What a method call is for, and the point that it has reached.
pub struct OperationModel {
    pub purpose: Purpose,
    pub stage: StageModel,
}

impl View for Operation {
    type V = OperationModel;

    open spec fn view(&self) -> OperationModel {
        OperationModel { purpose: self.purpose, stage: self.stage@ }
    }
}

/// What is to be done next.
pub enum Step {
    /// Call libddcutil.
    Ask { request: DdcRequest },
    /// Send the event to all subscribers.
    Broadcast { event: InternalEvent },
    /// Reply to the client.
    Reply { reply: Reply },
}

/// What a step says.
pub enum StepModel {
    Ask { request: DdcRequest },
    Broadcast { event: (InternalEventKind, Seq<char>) },
    Reply { reply: ReplyModel },
}

impl View for Step {
    type V = StepModel;

    open spec fn view(&self) -> StepModel {
        match *self {
            Step::Ask { request } => StepModel::Ask { request },
            Step::Broadcast { event } => StepModel::Broadcast { event: event@ },
            Step::Reply { reply } => StepModel::Reply { reply: reply@ },
        }
    }
}

/// What came back is of the form that the step calls for. `Done` stands for an
/// event that was sent, and for a reply, whether or not the client got it.
pub open spec fn step_answers(step: StepModel, reply: DdcReply) -> bool {
    match step {
        StepModel::Ask { request } => answers(request, reply),
        _ => reply is Done,
    }
}

impl Step {
    /// Tells whether what came back is of the form that the step calls for.
    pub fn answered_by(&self, reply: &DdcReply) -> (res: bool)
        ensures
            res == step_answers(self@, *reply),
    {
        match self {
            Step::Ask { request } => request.answered_by(reply),
            _ => match reply {
                DdcReply::Done => true,
                _ => false,
            },
        }
    }
}

/// How far a method call has come.
pub enum Progress {
    Step { operation: Operation, step: Step },
    /// The client has its reply, and no display is open.
    Finished,
    /// The call ends with an error of the service instead of a reply.
    Failed { error: Error },
}

/// What a step leads to.
pub enum ProgressModel {
    Step { operation: OperationModel, step: StepModel },
    Finished,
    Failed { error: ErrorModel },
}

impl View for Progress {
    type V = ProgressModel;

    open spec fn view(&self) -> ProgressModel {
        match *self {
            Progress::Step { operation, step } => ProgressModel::Step {
                operation: operation@,
                step: step@,
            },
            Progress::Finished => ProgressModel::Finished,
            Progress::Failed { error } => ProgressModel::Failed { error: error@ },
        }
    }
}

/// The values are of the first of the codes, in their order.
pub open spec fn are_values_of(values: Seq<VcpValueModel>, vcp_codes: Seq<i64>) -> bool {
    forall|i: int| 0 <= i < values.len() ==> (#[trigger] values[i]).vcp_code == vcp_codes[i]
}

impl Purpose {
    /// The displays that are listed are to hold those that are not there now.
    pub open spec fn includes_offline(self) -> bool {
        match self {
            Purpose::Detect { include_offline } => include_offline,
            Purpose::ListDetected { include_offline } => include_offline,
            _ => false,
        }
    }

    /// Calls libddcutil.
    pub open spec fn asking(self, stage: StageModel, request: DdcRequest) -> ProgressModel {
        ProgressModel::Step {
            operation: OperationModel { purpose: self, stage },
            step: StepModel::Ask { request },
        }
    }

    /// Replies to the client. A display that is still open is closed after that.
    pub open spec fn replying(
        self,
        reply: ReplyModel,
        held: Option<DisplayHandle>,
    ) -> ProgressModel {
        ProgressModel::Step {
            operation: OperationModel { purpose: self, stage: StageModel::Replied { held } },
            step: StepModel::Reply { reply },
        }
    }

    /// What the client is told of a failure.
    pub open spec fn error_reply(
        self,
        error: ErrorModel,
        vcp_code: Option<i64>,
        explanation: Seq<char>,
    ) -> ReplyModel {
        let target = self.target()->0;
        ReplyModel::DdcError {
            error: ddc_error(
                None,
                target.display_number,
                opt_view(target.edid_base64),
                vcp_code,
                error,
                explanation,
            ),
        }
    }

    /// Tells the client of a failure. For a status of libddcutil an explanation is
    /// asked for first.
    pub open spec fn failing(
        self,
        error: ErrorModel,
        vcp_code: Option<i64>,
        held: Option<DisplayHandle>,
    ) -> ProgressModel {
        match error {
            ErrorModel::Status(status) => self.asking(
                StageModel::Explaining {
                    status,
                    reader: StatusReader::Naming { status },
                    vcp_code,
                    held,
                },
                DdcRequest::StatusName { status },
            ),
            _ => self.replying(self.error_reply(error, vcp_code, Seq::empty()), held),
        }
    }

    /// Closes the display, before the outcome is told.
    pub open spec fn closing(self, handle: DisplayHandle, outcome: OutcomeModel) -> ProgressModel {
        self.asking(StageModel::Closing { outcome }, DdcRequest::CloseDisplay { handle })
    }

    /// Tells an outcome.
    pub open spec fn concluding(self, outcome: OutcomeModel) -> ProgressModel {
        match outcome {
            OutcomeModel::Success { reply } => self.replying(reply, None),
            OutcomeModel::Failure { error } => self.failing(error, self.failing_code(), None),
        }
    }

    /// What follows once the display is found.
    pub open spec fn located(self, dref: DisplayRef) -> ProgressModel {
        match self {
            Purpose::GetDisplayState { .. } => self.asking(
                StageModel::Validating,
                DdcRequest::ValidateDisplay { dref },
            ),
            Purpose::GetSleepMultiplier { .. } => self.asking(
                StageModel::Tuning,
                DdcRequest::ReadSleepMultiplier { dref },
            ),
            Purpose::SetSleepMultiplier { multiplier, .. } => self.asking(
                StageModel::Tuning,
                DdcRequest::WriteSleepMultiplier { dref, multiplier },
            ),
            _ => self.asking(StageModel::Opening { dref }, DdcRequest::OpenDisplay { dref }),
        }
    }

    /// Reads a feature.
    pub open spec fn reading(
        self,
        handle: DisplayHandle,
        vcp_code: i64,
        values: Seq<VcpValueModel>,
    ) -> ProgressModel {
        self.asking(
            StageModel::Reading {
                handle,
                reader: VcpReader::Reading { handle, code: vcp_code as u8 },
                values,
            },
            DdcRequest::ReadVcp { handle, code: vcp_code as u8 },
        )
    }

    /// Reads the next of several features, or replies after the last one.
    pub open spec fn reading_on(
        self,
        handle: DisplayHandle,
        vcp_codes: Seq<i64>,
        values: Seq<VcpValueModel>,
    ) -> ProgressModel {
        if values.len() < vcp_codes.len() {
            self.reading(handle, vcp_codes[values.len() as int], values)
        } else {
            self.replying(ReplyModel::Values { values }, Some(handle))
        }
    }

    /// What follows once the display is open.
    pub open spec fn working(self, handle: DisplayHandle) -> ProgressModel {
        match self {
            Purpose::GetCapabilitiesMetadata { .. } => self.asking(
                StageModel::Gathering {
                    handle,
                    reader: CapabilitiesReaderModel::Text { handle },
                },
                DdcRequest::ReadCapabilities { handle },
            ),
            Purpose::GetCapabilitiesString { .. } => self.asking(
                StageModel::Fetching { handle },
                DdcRequest::ReadCapabilities { handle },
            ),
            Purpose::GetMultipleVcp { vcp_codes, .. } => self.reading_on(
                handle,
                vcp_codes@,
                Seq::empty(),
            ),
            Purpose::GetVcp { vcp_code, .. } => self.reading(handle, vcp_code, Seq::empty()),
            Purpose::GetVcpMetadata { vcp_code, .. } => self.asking(
                StageModel::Fetching { handle },
                DdcRequest::FeatureMetadata { handle, code: vcp_code as u8 },
            ),
            Purpose::SetVcp { verify, .. } => self.asking(
                StageModel::Verifying { handle },
                DdcRequest::EnableVerify { verify },
            ),
            _ => arbitrary(),
        }
    }
}

impl OperationModel {
    /// The point that the method has reached is one that its purpose leads to.
    pub open spec fn is_valid(self) -> bool {
        match self.stage {
            StageModel::Redetecting => self.purpose is Detect,
            StageModel::Listing => self.purpose is Detect || self.purpose is ListDetected,
            StageModel::Asking => self.purpose is GetDynamicSleep || self.purpose is GetOutputLevel
                || self.purpose is GetVersion || self.purpose is SetDynamicSleep
                || self.purpose is SetOutputLevel,
            StageModel::Finding => self.purpose.target() is Some,
            StageModel::Validating => self.purpose is GetDisplayState,
            StageModel::Stating { .. } => self.purpose is GetDisplayState,
            StageModel::Tuning => self.purpose is GetSleepMultiplier
                || self.purpose is SetSleepMultiplier,
            StageModel::Opening { .. } => self.purpose.opens(),
            StageModel::Gathering { reader, .. } => self.purpose is GetCapabilitiesMetadata
                && reader.is_valid(),
            StageModel::Fetching { .. } => self.purpose is GetCapabilitiesString
                || self.purpose is GetVcpMetadata,
            StageModel::Reading { values, .. } => match self.purpose {
                Purpose::GetVcp { .. } => true,
                Purpose::GetMultipleVcp { vcp_codes, .. } => values.len() < vcp_codes@.len()
                    && are_values_of(values, vcp_codes@),
                _ => false,
            },
            StageModel::Verifying { .. } => self.purpose is SetVcp,
            StageModel::Writing { .. } => self.purpose is SetVcp,
            StageModel::Telling { .. } => self.purpose is SetVcp,
            StageModel::Closing { outcome } => self.purpose.target() is Some && (
            outcome matches OutcomeModel::Success { reply } ==> !(reply is Values) && !(
            reply is DdcError)),
            StageModel::Explaining { .. } => self.purpose.target() is Some,
            StageModel::Replied { .. } => true,
            StageModel::Ending => true,
        }
    }

    /// The reply is one that the method waits for.
    pub open spec fn accepts(self, reply: DdcReply) -> bool {
        match self.stage {
            StageModel::Redetecting => reply is Status,
            StageModel::Listing => reply is Displays,
            StageModel::Asking => match self.purpose {
                Purpose::GetDynamicSleep => reply is Flag,
                Purpose::GetOutputLevel => reply is Level,
                Purpose::GetVersion => reply is Name,
                _ => reply is Done,
            },
            StageModel::Finding => reply is Displays,
            StageModel::Validating => reply is Status,
            StageModel::Stating { reader, .. } => reader.accepts(reply),
            StageModel::Tuning => if self.purpose is GetSleepMultiplier {
                reply is Multiplier
            } else {
                reply is Status
            },
            StageModel::Opening { .. } => reply is Opened,
            StageModel::Gathering { reader, .. } => reader.accepts(reply),
            StageModel::Fetching { .. } => if self.purpose is GetCapabilitiesString {
                reply is Text
            } else {
                reply is Metadata
            },
            StageModel::Reading { reader, .. } => reader.accepts(reply),
            StageModel::Writing { .. } => reply is Status,
            StageModel::Explaining { reader, .. } => reader.accepts(reply),
            _ => reply is Done,
        }
    }

    /// The display that is open and that no call was made yet to close.
    pub open spec fn held(self) -> Option<DisplayHandle> {
        match self.stage {
            StageModel::Gathering { handle, .. } => Some(handle),
            StageModel::Fetching { handle } => Some(handle),
            StageModel::Reading { handle, .. } => Some(handle),
            StageModel::Verifying { handle } => Some(handle),
            StageModel::Writing { handle } => Some(handle),
            StageModel::Telling { handle } => Some(handle),
            StageModel::Explaining { held, .. } => held,
            StageModel::Replied { held } => held,
            _ => None,
        }
    }

    /// What follows on what came of the last step.
    pub open spec fn next(self, reply: DdcReply) -> ProgressModel {
        let purpose = self.purpose;
        match (self.stage, reply) {
            (StageModel::Redetecting, DdcReply::Status { status }) => if status != 0 {
                purpose.replying(
                    ReplyModel::DetectError {
                        status: status as i64,
                        message: "Detect failed: "@ + ErrorModel::Status(status).message(),
                    },
                    None,
                )
            } else {
                purpose.asking(
                    StageModel::Listing,
                    DdcRequest::ListDisplays { include_invalid: purpose.includes_offline() },
                )
            },
            (StageModel::Listing, DdcReply::Displays { status, displays }) => match listed(
                status,
                displays,
            ) {
                Err(error) => ProgressModel::Failed { error },
                Ok(list) => purpose.replying(
                    ReplyModel::Detected {
                        count: list.len() as i64,
                        entries: detected(display_models(list)),
                    },
                    None,
                ),
            },
            (StageModel::Asking, DdcReply::Flag { enabled }) => purpose.replying(
                ReplyModel::Flag { enabled },
                None,
            ),
            (StageModel::Asking, DdcReply::Level { level }) => purpose.replying(
                ReplyModel::Level { level: level as i64 },
                None,
            ),
            (StageModel::Asking, DdcReply::Name { name }) => purpose.replying(
                ReplyModel::Text { text: c_text(name, "unknown"@) },
                None,
            ),
            (StageModel::Asking, _) => purpose.replying(ReplyModel::Empty, None),
            (StageModel::Finding, DdcReply::Displays { status, displays }) => {
                let target = purpose.target()->0;
                match display_search(
                    status,
                    displays,
                    target.display_number,
                    opt_view(target.edid_base64),
                    target.allow_edid_prefix,
                ) {
                    Err(error) => purpose.failing(error, purpose.failing_code(), None),
                    Ok(dref) => purpose.located(dref),
                }
            },
            (StageModel::Validating, DdcReply::Status { status }) => purpose.asking(
                StageModel::Stating { status, reader: StatusReader::Naming { status } },
                DdcRequest::StatusName { status },
            ),
            (StageModel::Stating { status, reader }, _) => match reader.next(reply) {
                StatusProgressModel::Ask { reader, request } => purpose.asking(
                    StageModel::Stating { status, reader },
                    request,
                ),
                StatusProgressModel::Done { message } => purpose.replying(
                    ReplyModel::DisplayState { status: status as i64, message },
                    None,
                ),
            },
            (StageModel::Tuning, DdcReply::Multiplier { status, multiplier }) => if status != 0 {
                purpose.failing(ErrorModel::Status(status), None, None)
            } else {
                purpose.replying(ReplyModel::Multiplier { multiplier }, None)
            },
            (StageModel::Tuning, DdcReply::Status { status }) => if status != 0 {
                purpose.failing(ErrorModel::Status(status), None, None)
            } else {
                purpose.replying(ReplyModel::Empty, None)
            },
            (
                StageModel::Opening { dref },
                DdcReply::Opened { status, ddca_handle },
            ) => match opened(dref, status, ddca_handle) {
                Err(error) => purpose.failing(error, purpose.failing_code(), None),
                Ok(handle) => purpose.working(handle),
            },
            (StageModel::Gathering { handle, reader }, _) => match reader.next(reply) {
                CapabilitiesProgressModel::Ask { reader, request } => purpose.asking(
                    StageModel::Gathering { handle, reader },
                    request,
                ),
                CapabilitiesProgressModel::Done { result } => purpose.closing(
                    handle,
                    match result {
                        Ok(data) => OutcomeModel::Success {
                            reply: ReplyModel::Capabilities { capabilities: converted(data) },
                        },
                        Err(error) => OutcomeModel::Failure { error },
                    },
                ),
            },
            (StageModel::Fetching { handle }, DdcReply::Text { status, text }) => purpose.closing(
                handle,
                match capabilities_string(status, text) {
                    Ok(text) => OutcomeModel::Success { reply: ReplyModel::Text { text } },
                    Err(error) => OutcomeModel::Failure { error },
                },
            ),
            (StageModel::Fetching { handle }, DdcReply::Metadata { status, metadata }) => {
                let constants = purpose->GetVcpMetadata_constants;
                purpose.closing(
                    handle,
                    match vcp_metadata(status, metadata, constants) {
                        Ok(metadata) => OutcomeModel::Success {
                            reply: ReplyModel::Metadata { metadata },
                        },
                        Err(error) => OutcomeModel::Failure { error },
                    },
                )
            },
            (StageModel::Reading { handle, reader, values }, _) => match reader.next(reply) {
                VcpProgressModel::Ask { reader, request } => purpose.asking(
                    StageModel::Reading { handle, reader, values },
                    request,
                ),
                VcpProgressModel::Done { result } => match purpose {
                    Purpose::GetMultipleVcp { vcp_codes, .. } => {
                        let vcp_code = vcp_codes@[values.len() as int];
                        match result {
                            Ok(reading) => purpose.reading_on(
                                handle,
                                vcp_codes@,
                                values.push(
                                    VcpValueModel {
                                        vcp_code,
                                        current: reading.current as i64,
                                        maximum: reading.maximum as i64,
                                        formatted: reading.formatted,
                                    },
                                ),
                            ),
                            Err(error) => purpose.failing(error, Some(vcp_code), Some(handle)),
                        }
                    },
                    _ => purpose.closing(
                        handle,
                        match result {
                            Ok(reading) => OutcomeModel::Success {
                                reply: ReplyModel::Value {
                                    current: reading.current as i64,
                                    maximum: reading.maximum as i64,
                                    formatted: reading.formatted,
                                },
                            },
                            Err(error) => OutcomeModel::Failure { error },
                        },
                    ),
                },
            },
            (StageModel::Verifying { handle }, _) => {
                let value = purpose->new_value as u16;
                purpose.asking(
                    StageModel::Writing { handle },
                    DdcRequest::WriteVcp {
                        handle,
                        code: purpose->SetVcp_vcp_code as u8,
                        high: (value / 256) as u8,
                        low: (value % 256) as u8,
                    },
                )
            },
            (StageModel::Writing { handle }, DdcReply::Status { status }) => if status != 0 {
                purpose.closing(handle, OutcomeModel::Failure { error: ErrorModel::Status(status) })
            } else {
                ProgressModel::Step {
                    operation: OperationModel { purpose, stage: StageModel::Telling { handle } },
                    step: StepModel::Broadcast { event: purpose.written_event() },
                }
            },
            (StageModel::Telling { handle }, _) => purpose.closing(
                handle,
                OutcomeModel::Success { reply: ReplyModel::Empty },
            ),
            (StageModel::Closing { outcome }, _) => purpose.concluding(outcome),
            (StageModel::Explaining { status, reader, vcp_code, held }, _) => match reader.next(
                reply,
            ) {
                StatusProgressModel::Ask { reader, request } => purpose.asking(
                    StageModel::Explaining { status, reader, vcp_code, held },
                    request,
                ),
                StatusProgressModel::Done { message } => purpose.replying(
                    purpose.error_reply(ErrorModel::Status(status), vcp_code, message),
                    held,
                ),
            },
            (StageModel::Replied { held }, _) => match held {
                Some(handle) => purpose.asking(
                    StageModel::Ending,
                    DdcRequest::CloseDisplay { handle },
                ),
                None => ProgressModel::Finished,
            },
            (StageModel::Ending, _) => ProgressModel::Finished,
            _ => arbitrary(),
        }
    }
}

impl Purpose {
    /// The event that tells of the feature that the method wrote.
    pub open spec fn written_event(self) -> (InternalEventKind, Seq<char>) {
        match self {
            Purpose::SetVcp { target, vcp_code, new_value, client_context, .. } =>
                vcp_changed_event(
                target.display_number,
                opt_view(target.edid_base64),
                vcp_code,
                new_value,
                match client_context {
                    Some(context) => context@,
                    None => Seq::empty(),
                },
            ),
            _ => arbitrary(),
        }
    }
}

impl Purpose {
    fn ask(self, stage: Stage, request: DdcRequest) -> (res: Progress)
        ensures
            res@ == self.asking(stage@, request),
    {
        Progress::Step {
            operation: Operation { purpose: self, stage },
            step: Step::Ask { request },
        }
    }

    fn reply(self, reply: Reply, held: Option<DisplayHandle>) -> (res: Progress)
        ensures
            res@ == self.replying(reply@, held),
    {
        Progress::Step {
            operation: Operation { purpose: self, stage: Stage::Replied { held } },
            step: Step::Reply { reply },
        }
    }

    fn make_error(&self, error: &Error, vcp_code: Option<i64>, explanation: String) -> (res: Reply)
        requires
            self.target() is Some,
        ensures
            res@ == self.error_reply(error@, vcp_code, explanation@),
    {
        let target = self.borrow_target();
        let error = send_ddc_error(
            None,
            target.display_number,
            &target.edid_base64,
            vcp_code,
            error,
            explanation,
        );
        Reply::DdcError { error }
    }

    fn fail(self, error: Error, vcp_code: Option<i64>, held: Option<DisplayHandle>) -> (res:
        Progress)
        requires
            self.target() is Some,
        ensures
            res@ == self.failing(error@, vcp_code, held),
    {
        match error {
            Error::Status(status) => self.ask(
                Stage::Explaining {
                    status,
                    reader: StatusReader::Naming { status },
                    vcp_code,
                    held,
                },
                DdcRequest::StatusName { status },
            ),
            _ => {
                let explanation = String::new();
                assert(explanation@ =~= Seq::empty());
                let reply = self.make_error(&error, vcp_code, explanation);
                self.reply(reply, held)
            },
        }
    }

    fn close(self, handle: DisplayHandle, outcome: Outcome) -> (res: Progress)
        ensures
            res@ == self.closing(handle, outcome@),
    {
        self.ask(Stage::Closing { outcome }, DdcRequest::CloseDisplay { handle })
    }

    fn conclude(self, outcome: Outcome) -> (res: Progress)
        requires
            self.target() is Some,
        ensures
            res@ == self.concluding(outcome@),
    {
        match outcome {
            Outcome::Success { reply } => self.reply(reply, None),
            Outcome::Failure { error } => {
                let vcp_code = self.get_failing_code();
                self.fail(error, vcp_code, None)
            },
        }
    }

    fn locate(self, dref: DisplayRef) -> (res: Progress)
        ensures
            res@ == self.located(dref),
    {
        let (stage, request) = match &self {
            Purpose::GetDisplayState { .. } => (
                Stage::Validating,
                DdcRequest::ValidateDisplay { dref },
            ),
            Purpose::GetSleepMultiplier { .. } => (
                Stage::Tuning,
                DdcRequest::ReadSleepMultiplier { dref },
            ),
            Purpose::SetSleepMultiplier { multiplier, .. } => (
                Stage::Tuning,
                DdcRequest::WriteSleepMultiplier { dref, multiplier: *multiplier },
            ),
            _ => (Stage::Opening { dref }, DdcRequest::OpenDisplay { dref }),
        };
        self.ask(stage, request)
    }

    fn read(self, handle: DisplayHandle, vcp_code: i64, values: Vec<VcpValue>) -> (res: Progress)
        ensures
            res@ == self.reading(handle, vcp_code, vcp_value_models(values@)),
    {
        let (reader, request) = VcpReader::start(handle, #[verifier::truncate] (vcp_code as u8));
        self.ask(Stage::Reading { handle, reader, values }, request)
    }

    fn read_on(self, handle: DisplayHandle, values: Vec<VcpValue>) -> (res: Progress)
        requires
            self is GetMultipleVcp,
        ensures
            res@ == self.reading_on(
                handle,
                self->vcp_codes@,
                vcp_value_models(values@),
            ),
    {
        let next_code = match &self {
            Purpose::GetMultipleVcp { vcp_codes, .. } => if values.len() < vcp_codes.len() {
                Some(vcp_codes[values.len()])
            } else {
                None
            },
            _ => unreached(),
        };
        match next_code {
            Some(vcp_code) => self.read(handle, vcp_code, values),
            None => self.reply(Reply::Values { values }, Some(handle)),
        }
    }

    fn work(self, handle: DisplayHandle) -> (res: Progress)
        requires
            self.opens(),
        ensures
            res@ == self.working(handle),
    {
        let none: Vec<VcpValue> = Vec::new();
        assert(vcp_value_models(none@) =~= Seq::empty());
        match &self {
            Purpose::GetCapabilitiesMetadata { .. } => {
                let (reader, request) = CapabilitiesReader::start(handle);
                self.ask(Stage::Gathering { handle, reader }, request)
            },
            Purpose::GetCapabilitiesString { .. } => self.ask(
                Stage::Fetching { handle },
                DdcRequest::ReadCapabilities { handle },
            ),
            Purpose::GetMultipleVcp { .. } => self.read_on(handle, none),
            Purpose::GetVcp { vcp_code, .. } => {
                let vcp_code: i64 = *vcp_code;
                self.read(handle, vcp_code, none)
            },
            Purpose::GetVcpMetadata { vcp_code, .. } => {
                let code: u8 = #[verifier::truncate] (*vcp_code as u8);
                self.ask(Stage::Fetching { handle }, DdcRequest::FeatureMetadata { handle, code })
            },
            Purpose::SetVcp { verify, .. } => {
                let verify = *verify;
                self.ask(Stage::Verifying { handle }, DdcRequest::EnableVerify { verify })
            },
            _ => unreached(),
        }
    }

    fn make_written_event(&self) -> (res: InternalEvent)
        requires
            self is SetVcp,
        ensures
            res@ == self.written_event(),
    {
        match self {
            Purpose::SetVcp { target, vcp_code, new_value, client_context, .. } => {
                let edid = match &target.edid_base64 {
                    Some(edid) => Some(edid.as_str()),
                    None => None,
                };
                let context = match client_context {
                    Some(context) => context.clone(),
                    None => String::new(),
                };
                assert(client_context is None ==> context@ =~= Seq::empty());
                build_vcp_changed_event(
                    target.display_number,
                    edid,
                    *vcp_code,
                    *new_value,
                    context,
                )
            },
            _ => unreached(),
        }
    }

    fn write(self, handle: DisplayHandle) -> (res: Progress)
        requires
            self is SetVcp,
        ensures
            res@ == (OperationModel {
                purpose: self,
                stage: StageModel::Verifying { handle },
            }).next(DdcReply::Done),
    {
        let request = match &self {
            Purpose::SetVcp { vcp_code, new_value, .. } => set_vcp(
                handle,
                #[verifier::truncate] (*vcp_code as u8),
                #[verifier::truncate] (*new_value as u16),
            ),
            _ => unreached(),
        };
        self.ask(Stage::Writing { handle }, request)
    }

    fn list(self, reply: DdcReply) -> (res: Progress)
        requires
            reply is Displays,
        ensures
            res@ == (OperationModel { purpose: self, stage: StageModel::Listing }).next(reply),
    {
        match reply {
            DdcReply::Displays { status, displays } => match list_displays(status, displays) {
                Err(error) => Progress::Failed { error },
                Ok(infos) => {
                    let entries = detect_entries(&infos);
                    assert(detect_models(entries@).len() == entries@.len());
                    assert(detected(models(infos@)).len() == models(infos@).len());
                    let reply = Reply::Detected {
                        count: #[verifier::truncate] (entries.len() as i64),
                        entries,
                    };
                    self.reply(reply, None)
                },
            },
            _ => unreached(),
        }
    }

    fn find(self, reply: DdcReply) -> (res: Progress)
        requires
            self.target() is Some,
            reply is Displays,
        ensures
            res@ == (OperationModel { purpose: self, stage: StageModel::Finding }).next(reply),
    {
        let search = match reply {
            DdcReply::Displays { status, displays } => {
                let target = self.borrow_target();
                let edid = match &target.edid_base64 {
                    Some(edid) => Some(edid.as_str()),
                    None => None,
                };
                assert(text_of(edid) == opt_view(target.edid_base64));
                find_display(
                    status,
                    displays,
                    target.display_number,
                    edid,
                    target.allow_edid_prefix,
                )
            },
            _ => unreached(),
        };
        match search {
            Err(error) => {
                let vcp_code = self.get_failing_code();
                self.fail(error, vcp_code, None)
            },
            Ok((dref, _)) => self.locate(dref),
        }
    }
}

impl Purpose {
    fn fetch(self, handle: DisplayHandle, reply: DdcReply) -> (res: Progress)
        requires
            self is GetCapabilitiesString && reply is Text || self is GetVcpMetadata
                && reply is Metadata,
        ensures
            res@ == (OperationModel {
                purpose: self,
                stage: StageModel::Fetching { handle },
            }).next(reply),
    {
        match reply {
            DdcReply::Text { status, text } => {
                let outcome = match get_capabilities_string(status, &text) {
                    Ok(text) => Outcome::Success { reply: Reply::Text { text } },
                    Err(error) => Outcome::Failure { error },
                };
                self.close(handle, outcome)
            },
            DdcReply::Metadata { status, metadata } => {
                let result = match &self {
                    Purpose::GetVcpMetadata { constants, .. } => get_vcp_metadata(
                        status,
                        metadata,
                        constants,
                    ),
                    _ => unreached(),
                };
                let outcome = match result {
                    Ok(metadata) => Outcome::Success { reply: Reply::Metadata { metadata } },
                    Err(error) => Outcome::Failure { error },
                };
                self.close(handle, outcome)
            },
            _ => unreached(),
        }
    }

    fn take_reading(
        self,
        handle: DisplayHandle,
        reader: VcpReader,
        values: Vec<VcpValue>,
        reply: DdcReply,
    ) -> (res: Progress)
        requires
            (OperationModel {
                purpose: self,
                stage: StageModel::Reading { handle, reader, values: vcp_value_models(values@) },
            }).is_valid(),
            reader.accepts(reply),
        ensures
            res@ == (OperationModel {
                purpose: self,
                stage: StageModel::Reading { handle, reader, values: vcp_value_models(values@) },
            }).next(reply),
    {
        let result = match get_vcp(reader, reply) {
            VcpProgress::Ask { reader, request } => {
                return self.ask(Stage::Reading { handle, reader, values }, request);
            },
            VcpProgress::Done { result } => result,
        };
        let listed_code = match &self {
            Purpose::GetMultipleVcp { vcp_codes, .. } => Some(vcp_codes[values.len()]),
            _ => None,
        };
        match listed_code {
            Some(vcp_code) => match result {
                Ok(reading) => {
                    let value = VcpValue {
                        vcp_code,
                        current: reading.current as i64,
                        maximum: reading.maximum as i64,
                        formatted: reading.formatted,
                    };
                    let mut after = values;
                    after.push(value);
                    assert(vcp_value_models(after@) =~= vcp_value_models(values@).push(value@));
                    self.read_on(handle, after)
                },
                Err(error) => self.fail(error, Some(vcp_code), Some(handle)),
            },
            None => {
                let outcome = match result {
                    Ok(reading) => Outcome::Success {
                        reply: Reply::Value {
                            current: reading.current as i64,
                            maximum: reading.maximum as i64,
                            formatted: reading.formatted,
                        },
                    },
                    Err(error) => Outcome::Failure { error },
                };
                self.close(handle, outcome)
            },
        }
    }
}

impl Operation {
    /// Takes what came of the last step, and says what follows.
    pub fn resume(self, reply: DdcReply) -> (res: Progress)
        requires
            self@.is_valid(),
            self@.accepts(reply),
        ensures
            res@ == self@.next(reply),
            res matches Progress::Step { operation, step } ==> operation@.is_valid() && forall|
                r: DdcReply,
            | #[trigger]
                step_answers(step@, r) ==> operation@.accepts(r),
    {
        proof {
            operation_stays_valid(self@, reply);
        }
        let Operation { purpose, stage } = self;
        match stage {
            Stage::Redetecting => match reply {
                DdcReply::Status { status } => match redetect(status) {
                    Err(error) => {
                        let message = "Detect failed: ".to_owned().concat(
                            error.message().as_str(),
                        );
                        purpose.reply(
                            Reply::DetectError { status: error.status_code(), message },
                            None,
                        )
                    },
                    Ok(_) => {
                        let include_invalid = match &purpose {
                            Purpose::Detect { include_offline } => *include_offline,
                            _ => unreached(),
                        };
                        purpose.ask(Stage::Listing, DdcRequest::ListDisplays { include_invalid })
                    },
                },
                _ => unreached(),
            },
            Stage::Listing => purpose.list(reply),
            Stage::Asking => {
                let reply = match reply {
                    DdcReply::Flag { enabled } => Reply::Flag { enabled },
                    DdcReply::Level { level } => Reply::Level { level: level as i64 },
                    DdcReply::Name { name } => Reply::Text { text: get_ddcutil_version(&name) },
                    DdcReply::Done => Reply::Empty,
                    _ => unreached(),
                };
                purpose.reply(reply, None)
            },
            Stage::Finding => purpose.find(reply),
            Stage::Validating => match reply {
                DdcReply::Status { status } => purpose.ask(
                    Stage::Stating { status, reader: StatusReader::Naming { status } },
                    DdcRequest::StatusName { status },
                ),
                _ => unreached(),
            },
            Stage::Stating { status, reader } => match reader.resume(reply) {
                StatusProgress::Ask { reader, request } => purpose.ask(
                    Stage::Stating { status, reader },
                    request,
                ),
                StatusProgress::Done { message } => purpose.reply(
                    Reply::DisplayState { status: status as i64, message },
                    None,
                ),
            },
            Stage::Tuning => match reply {
                DdcReply::Multiplier { status, multiplier } => match get_sleep_multiplier(
                    status,
                    multiplier,
                ) {
                    Err(error) => purpose.fail(error, None, None),
                    Ok(multiplier) => purpose.reply(Reply::Multiplier { multiplier }, None),
                },
                DdcReply::Status { status } => match set_sleep_multiplier(status) {
                    Err(error) => purpose.fail(error, None, None),
                    Ok(_) => purpose.reply(Reply::Empty, None),
                },
                _ => unreached(),
            },
            Stage::Opening { dref } => match reply {
                DdcReply::Opened { status, ddca_handle } => match open_display(
                    dref,
                    status,
                    ddca_handle,
                ) {
                    Err(error) => {
                        let vcp_code = purpose.get_failing_code();
                        purpose.fail(error, vcp_code, None)
                    },
                    Ok(handle) => purpose.work(handle),
                },
                _ => unreached(),
            },
            Stage::Gathering { handle, reader } => match get_capabilities_data(reader, reply) {
                CapabilitiesProgress::Ask { reader, request } => purpose.ask(
                    Stage::Gathering { handle, reader },
                    request,
                ),
                CapabilitiesProgress::Done { result } => {
                    let outcome = match result {
                        Ok(data) => Outcome::Success {
                            reply: Reply::Capabilities {
                                capabilities: convert_capabilities_data(data),
                            },
                        },
                        Err(error) => Outcome::Failure { error },
                    };
                    purpose.close(handle, outcome)
                },
            },
            Stage::Fetching { handle } => purpose.fetch(handle, reply),
            Stage::Reading { handle, reader, values } => purpose.take_reading(
                handle,
                reader,
                values,
                reply,
            ),
            Stage::Verifying { handle } => purpose.write(handle),
            Stage::Writing { handle } => match reply {
                DdcReply::Status { status } => if status != 0 {
                    purpose.close(handle, Outcome::Failure { error: Error::Status(status) })
                } else {
                    let event = purpose.make_written_event();
                    Progress::Step {
                        operation: Operation { purpose, stage: Stage::Telling { handle } },
                        step: Step::Broadcast { event },
                    }
                },
                _ => unreached(),
            },
            Stage::Telling { handle } => purpose.close(
                handle,
                Outcome::Success { reply: Reply::Empty },
            ),
            Stage::Closing { outcome } => purpose.conclude(outcome),
            Stage::Explaining { status, reader, vcp_code, held } => match reader.resume(reply) {
                StatusProgress::Ask { reader, request } => purpose.ask(
                    Stage::Explaining { status, reader, vcp_code, held },
                    request,
                ),
                StatusProgress::Done { message } => {
                    let reply = purpose.make_error(&Error::Status(status), vcp_code, message);
                    purpose.reply(reply, held)
                },
            },
            Stage::Replied { held } => match held {
                Some(handle) => purpose.ask(Stage::Ending, DdcRequest::CloseDisplay { handle }),
                None => Progress::Finished,
            },
            Stage::Ending => Progress::Finished,
        }
    }
}

/// A step leads to a point that the purpose leads to, and waits for the reply that
/// it calls for.
pub proof fn operation_stays_valid(operation: OperationModel, reply: DdcReply)
    requires
        operation.is_valid(),
        operation.accepts(reply),
    ensures
        operation.next(reply) matches ProgressModel::Step { operation: after, step }
            ==> after.is_valid() && forall|r: DdcReply| #[trigger]
            step_answers(step, r) ==> after.accepts(r),
{
    match operation.stage {
        StageModel::Gathering { reader, .. } => {
            gathering_covers_the_capabilities(reader, reply);
        },
        _ => {},
    }
}

impl OperationModel {
    /// How many kinds of step may still be needed.
    pub open spec fn phase(self) -> nat {
        match self.stage {
            StageModel::Redetecting => 12,
            StageModel::Listing => 11,
            StageModel::Asking => 11,
            StageModel::Finding => 10,
            StageModel::Validating => 9,
            StageModel::Tuning => 9,
            StageModel::Opening { .. } => 9,
            StageModel::Gathering { .. } => 8,
            StageModel::Fetching { .. } => 8,
            StageModel::Reading { .. } => 8,
            StageModel::Verifying { .. } => 8,
            StageModel::Writing { .. } => 7,
            StageModel::Telling { .. } => 6,
            StageModel::Closing { .. } => 5,
            StageModel::Stating { .. } => 4,
            StageModel::Explaining { .. } => 4,
            StageModel::Replied { .. } => 3,
            StageModel::Ending => 2,
        }
    }

    /// How many things of the present kind are still to be asked for.
    pub open spec fn items(self) -> int {
        match (self.stage, self.purpose) {
            (StageModel::Gathering { reader, .. }, _) => reader.stage() as int,
            (
                StageModel::Reading { values, .. },
                Purpose::GetMultipleVcp { vcp_codes, .. },
            ) => vcp_codes@.len() - values.len(),
            _ => 0,
        }
    }

    /// How many replies on the present thing may still be needed.
    pub open spec fn replies(self) -> int {
        match self.stage {
            StageModel::Gathering { reader, .. } => reader.remaining(),
            StageModel::Reading { reader, .. } => reader.rank() as int,
            StageModel::Stating { reader, .. } => reader.rank() as int,
            StageModel::Explaining { reader, .. } => reader.rank() as int,
            _ => 0,
        }
    }
}

/// Every method comes to its end, whatever libddcutil replies: each step brings it
/// nearer.
pub proof fn operation_comes_to_its_end(operation: OperationModel, reply: DdcReply)
    requires
        operation.is_valid(),
        operation.accepts(reply),
    ensures
        operation.next(reply) matches ProgressModel::Step { operation: after, .. } ==> {
            ||| after.phase() < operation.phase()
            ||| after.phase() == operation.phase() && 0 <= after.items() < operation.items()
            ||| after.phase() == operation.phase() && after.items() == operation.items() && 0
                <= after.replies() < operation.replies()
        },
{
    match operation.stage {
        StageModel::Gathering { reader, .. } => {
            gathering_covers_the_capabilities(reader, reply);
        },
        _ => {},
    }
}

/// A display that a method opened stays open until the method asks to close it,
/// and no method ends while one is open. The one that is opened is the one that
/// libddcutil gave.
pub proof fn opened_display_is_closed(operation: OperationModel, reply: DdcReply)
    requires
        operation.is_valid(),
        operation.accepts(reply),
    ensures
        operation.held() matches Some(handle) ==> (operation.next(
            reply,
        ) matches ProgressModel::Step { operation: after, step } && (after.held() == Some(handle)
            || (after.held() is None && step == StepModel::Ask {
            request: DdcRequest::CloseDisplay { handle },
        }))),
        operation.held() is None ==> match operation.next(reply) {
            ProgressModel::Step { operation: after, .. } => after.held() matches Some(handle) ==> {
                &&& reply matches DdcReply::Opened { status, ddca_handle }
                &&& status == 0
                &&& operation.stage matches StageModel::Opening { dref }
                &&& handle == DisplayHandle { ddca_handle, dref }
            },
            _ => true,
        },
{
}

/// A client gets one reply: a step that replies is the last one that does, and no
/// method finishes before it has replied.
pub proof fn one_reply_is_given(operation: OperationModel, reply: DdcReply)
    requires
        operation.is_valid(),
        operation.accepts(reply),
    ensures
        match operation.next(reply) {
            ProgressModel::Step { operation: after, step } => {
                &&& step is Reply ==> after.stage is Replied && !(operation.stage is Replied)
                    && !(operation.stage is Ending)
                &&& after.stage is Replied || after.stage is Ending ==> step is Reply
                    || operation.stage is Replied
                &&& operation.stage is Replied || operation.stage is Ending
                    ==> after.stage is Ending
            },
            ProgressModel::Finished => operation.stage is Replied || operation.stage is Ending,
            ProgressModel::Failed { .. } => operation.stage is Listing,
        },
{
}

/// Where a course of steps has led to.
pub enum CourseEnd {
    Running { operation: OperationModel },
    Finished,
    Failed,
}

/// What a course of steps came to: how many replies the client was given, how many
/// displays were opened, and how many were asked to be closed.
pub struct Course {
    pub end: CourseEnd,
    pub replies: nat,
    pub opened: nat,
    pub closed: nat,
}

/// The course with one more step, on what came of the last one. A reply that the
/// method does not wait for is no part of a course.
pub open spec fn further(course: Course, reply: DdcReply) -> Course {
    match course.end {
        CourseEnd::Running { operation } => if operation.accepts(reply) {
            let opened = course.opened + if reply matches DdcReply::Opened { status, .. }
                && status == 0 {
                1nat
            } else {
                0nat
            };
            match operation.next(reply) {
                ProgressModel::Step { operation: after, step } => Course {
                    end: CourseEnd::Running { operation: after },
                    replies: course.replies + if step is Reply {
                        1nat
                    } else {
                        0nat
                    },
                    opened,
                    closed: course.closed + if step matches StepModel::Ask { request }
                        && request is CloseDisplay {
                        1nat
                    } else {
                        0nat
                    },
                },
                ProgressModel::Finished => Course { end: CourseEnd::Finished, opened, ..course },
                ProgressModel::Failed { .. } => Course { end: CourseEnd::Failed, opened, ..course },
            }
        } else {
            course
        },
        _ => course,
    }
}

/// The course that a method takes on the replies of libddcutil.
pub open spec fn course(operation: OperationModel, replies: Seq<DdcReply>) -> Course
    decreases replies.len(),
{
    if replies.len() == 0 {
        Course { end: CourseEnd::Running { operation }, replies: 0, opened: 0, closed: 0 }
    } else {
        further(course(operation, replies.drop_last()), replies.last())
    }
}

/// The method has not taken a step yet.
pub open spec fn is_fresh(operation: OperationModel) -> bool {
    operation.is_valid() && (operation.stage is Redetecting || operation.stage is Listing
        || operation.stage is Asking || operation.stage is Finding)
}

/// Whatever libddcutil replies: a method that finishes has given its client one
/// reply, and has closed every display that was opened; one that fails has given
/// none, and opened none.
pub proof fn finished_course_is_complete(operation: OperationModel, replies: Seq<DdcReply>)
    requires
        is_fresh(operation),
    ensures
        ({
            let c = course(operation, replies);
            match c.end {
                CourseEnd::Running { operation: now } => now.is_valid() && c.replies <= 1
                    && c.opened <= c.closed + 1,
                CourseEnd::Finished => c.replies == 1 && c.opened == c.closed,
                CourseEnd::Failed => c.replies == 0 && c.opened == 0 && c.closed == 0,
            }
        }),
{
    course_is_balanced(operation, replies);
}

/// A course keeps its books: while it runs, a reply was given exactly if the method
/// has replied, and a display is open exactly if it is held.
spec fn is_balanced(c: Course) -> bool {
    match c.end {
        CourseEnd::Running { operation } => {
            &&& operation.is_valid()
            &&& c.replies == if operation.stage is Replied || operation.stage is Ending {
                1nat
            } else {
                0nat
            }
            &&& c.opened == c.closed + if operation.held() is Some {
                1nat
            } else {
                0nat
            }
            &&& operation.stage is Redetecting || operation.stage is Listing ==> c.opened == 0
        },
        CourseEnd::Finished => c.replies == 1 && c.opened == c.closed,
        CourseEnd::Failed => c.replies == 0 && c.opened == 0 && c.closed == 0,
    }
}

proof fn course_is_balanced(operation: OperationModel, replies: Seq<DdcReply>)
    requires
        is_fresh(operation),
    ensures
        is_balanced(course(operation, replies)),
    decreases replies.len(),
{
    if replies.len() > 0 {
        course_is_balanced(operation, replies.drop_last());
        step_keeps_balance(course(operation, replies.drop_last()), replies.last());
    }
}

proof fn step_keeps_balance(c: Course, reply: DdcReply)
    requires
        is_balanced(c),
    ensures
        is_balanced(further(c, reply)),
{
    if let CourseEnd::Running { operation } = c.end {
        if operation.accepts(reply) {
            operation_stays_valid(operation, reply);
            opened_display_is_closed(operation, reply);
            one_reply_is_given(operation, reply);
            match operation.stage {
                StageModel::Gathering { reader, .. } => {
                    gathering_covers_the_capabilities(reader, reply);
                },
                _ => {},
            }
        }
    }
}

/// Subscribers are told of a feature exactly when libddcutil wrote it, with the
/// number, EDID, code, value and context that the client gave.
pub proof fn written_values_are_told(operation: OperationModel, reply: DdcReply)
    requires
        operation.is_valid(),
        operation.accepts(reply),
    ensures
        (operation.next(reply) matches ProgressModel::Step { step, .. } && step is Broadcast)
            <==> (operation.stage is Writing && reply == DdcReply::Status { status: 0i32 }),
        operation.next(reply) matches ProgressModel::Step {
            step: StepModel::Broadcast { event },
            ..
        } ==> event == operation.purpose.written_event(),
{
}

/// When a method wrote a feature, the event that it hands out reaches the channel of
/// every subscriber, once: what each account grows by is the event of the write.
pub proof fn every_subscriber_is_told_of_the_write(
    operation: OperationModel,
    reply: DdcReply,
    event: InternalEvent,
    before: Seq<Subscriber>,
    stayed: Seq<Subscriber>,
    gone: Seq<Subscriber>,
    i: int,
)
    requires
        operation.is_valid(),
        operation.stage is Writing,
        reply == (DdcReply::Status { status: 0i32 }),
        operation.next(reply) matches ProgressModel::Step {
            step: StepModel::Broadcast { event: told },
            ..
        } ==> event@ == told,
        is_broadcast(before, stayed, gone, event),
        0 <= i < before.len(),
    ensures
        event@ == operation.purpose.written_event(),
        exists|s: Subscriber| #[trigger]
            is_sent(before[i], s, event) && if s.heard() {
                stayed.contains(s)
            } else {
                gone.contains(s)
            },
{
    written_values_are_told(operation, reply);
    everyone_is_sent_the_event(before, stayed, gone, event, i);
}

/// What is written to a display is the value that the client gave, reduced to 16
/// bits, in two bytes.
pub proof fn given_value_is_written(operation: OperationModel, reply: DdcReply)
    requires
        operation.is_valid(),
        operation.accepts(reply),
    ensures
        operation.next(reply) matches ProgressModel::Step {
            step: StepModel::Ask { request: DdcRequest::WriteVcp { handle, code, high, low } },
            ..
        } ==> (operation.purpose matches Purpose::SetVcp { vcp_code, new_value, .. } && code
            == vcp_code as u8 && word(high, low) == new_value as u16 && operation.held() == Some(
            handle,
        )),
{
    match operation.stage {
        StageModel::Verifying { .. } => {
            written_value_reads_back(operation.purpose->new_value as u16);
        },
        StageModel::Gathering { reader, .. } => {
            gathering_covers_the_capabilities(reader, reply);
        },
        _ => {},
    }
}

/// A feature that a display reports with the bytes that were written to it is
/// replied with the value that was written, where that value has 16 bits.
pub proof fn written_value_is_replied(
    writing: OperationModel,
    reading: OperationModel,
    value: VcpBytes,
    text: DdcReply,
)
    requires
        writing.is_valid(),
        writing.stage is Verifying,
        0 <= writing.purpose->new_value <= 0xffff,
        writing.next(DdcReply::Done) matches ProgressModel::Step {
            step: StepModel::Ask { request: DdcRequest::WriteVcp { high, low, .. } },
            ..
        } && value.sh == high && value.sl == low,
        reading.is_valid(),
        reading.purpose is GetVcp,
        reading.stage matches StageModel::Reading {
            reader: VcpReader::Formatting { value: reported, .. },
            ..
        } && reported == value,
        reading.accepts(text),
    ensures
        ({
            &&& reading.next(text) matches ProgressModel::Step { operation: closing, .. }
            &&& closing.next(DdcReply::Done) matches ProgressModel::Step {
                step: StepModel::Reply { reply },
                ..
            }
            &&& reply matches ReplyModel::Value { current, .. }
            &&& current == writing.purpose->new_value
        }),
{
    written_value_reads_back(writing.purpose->new_value as u16);
}

/// The values of several features are replied in the order of the codes that the
/// client gave, one for each.
pub proof fn every_code_is_answered(operation: OperationModel, reply: DdcReply)
    requires
        operation.is_valid(),
        operation.accepts(reply),
    ensures
        operation.next(reply) matches ProgressModel::Step {
            step: StepModel::Reply { reply: ReplyModel::Values { values } },
            ..
        } ==> (operation.purpose matches Purpose::GetMultipleVcp { vcp_codes, .. } && values.len()
            == vcp_codes@.len() && are_values_of(values, vcp_codes@)),
{
}

/// Whatever fails, the client is told of the display that it named.
pub proof fn errors_name_the_display(operation: OperationModel, reply: DdcReply)
    requires
        operation.is_valid(),
        operation.accepts(reply),
    ensures
        operation.next(reply) matches ProgressModel::Step {
            step: StepModel::Reply { reply: ReplyModel::DdcError { error } },
            ..
        } ==> (operation.purpose.target() matches Some(target) && error.display_ref == -1
            && error.display_number == or_minus_one(target.display_number) && error.edid_base64
            == (match opt_view(target.edid_base64) {
            Some(edid) => edid,
            None => Seq::empty(),
        })),
{
}

} // verus!
