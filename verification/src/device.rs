//! What the service asks of libddcutil, and what the library answers, as plain
//! values. Pointers that may be null are `Option`; C strings are their bytes
//! without the terminating zero.
use crate::ddcutil::{DisplayHandle, DisplayRef};
use vstd::prelude::*;

verus! {

/// A double precision number, held as its IEEE 754 bit pattern. The service
/// stores and compares such numbers; it does not compute with them.
#[derive(Clone, Copy, Debug, PartialEq, Eq, Structural)]
pub struct Double {
    pub bits: u64,
}

/// The least bit pattern of a positive number that is not below one.
pub const ONE_BITS: u64 = 0x3ff0_0000_0000_0000;

/// The bit pattern of one half.
pub const HALF_BITS: u64 = 0x3fe0_0000_0000_0000;

/// The bit pattern of minus zero: the sign bit alone.
pub const SIGN_BIT: u64 = 0x8000_0000_0000_0000;

/// The bit pattern of negative infinity; larger patterns are no numbers.
pub const NEGATIVE_INFINITY_BITS: u64 = 0xfff0_0000_0000_0000;

impl Double {
    /// The number is below zero. Both zeros and what is no number are not.
    pub open spec fn is_negative(self) -> bool {
        SIGN_BIT < self.bits <= NEGATIVE_INFINITY_BITS
    }

    /// The number is above zero and below one.
    pub open spec fn is_proper_fraction(self) -> bool {
        0 < self.bits < ONE_BITS
    }

    /// Tells whether the number is below zero, or above zero and below one.
    pub fn is_negative_or_fraction(self) -> (res: bool)
        ensures
            res == (self.is_negative() || self.is_proper_fraction()),
    {
        (SIGN_BIT < self.bits && self.bits <= NEGATIVE_INFINITY_BITS) || (0 < self.bits && self.bits
            < ONE_BITS)
    }
}

/// A display as the list of libddcutil holds it.
#[derive(Clone, Copy, Debug)]
pub struct RawDisplay {
    pub dref: DisplayRef,
    pub dispno: i32,
    pub mfg_id: [u8; 4],
    pub model_name: [u8; 14],
    pub sn: [u8; 14],
    pub product_code: u16,
    pub usb_bus: i32,
    pub usb_device: i32,
    pub edid_bytes: [u8; 128],
}

/// A feature value in the four bytes in which a display reports it: the maximum
/// and the current value, high byte and low byte.
#[derive(Clone, Copy, Debug, PartialEq, Eq, Structural)]
pub struct VcpBytes {
    pub mh: u8,
    pub ml: u8,
    pub sh: u8,
    pub sl: u8,
}

/// A feature in a parsed capabilities string, with the values that the display
/// allows for it.
#[derive(Clone, Debug)]
pub struct RawFeature {
    pub feature_code: u8,
    pub values: Vec<u8>,
}

/// A parsed capabilities string.
#[derive(Clone, Debug)]
pub struct ParsedCapabilities {
    pub major: u8,
    pub minor: u8,
    pub cmd_codes: Vec<u8>,
    pub vcp_codes: Vec<RawFeature>,
}

/// The definition of one value of a feature. A missing name ends the table.
#[derive(Clone, Debug)]
pub struct RawValue {
    pub value_code: u8,
    pub value_name: Option<Vec<u8>>,
}

/// The metadata of a feature.
#[derive(Clone, Debug)]
pub struct RawMetadata {
    pub feature_flags: u32,
    pub feature_name: Option<Vec<u8>>,
    pub feature_desc: Option<Vec<u8>>,
    pub sl_values: Vec<RawValue>,
}

/// The numbers that the C header of libddcutil gives its flags and event types.
#[derive(Clone, Copy, Debug)]
pub struct HeaderConstants {
    pub ro: u32,
    pub wo: u32,
    pub rw: u32,
    pub complex_cont: u32,
    pub complex_nc: u32,
    pub cont: u32,
    pub event_display_connected: u32,
    pub event_display_disconnected: u32,
    pub event_dpms_awake: u32,
    pub event_dpms_asleep: u32,
    pub event_ddc_working: u32,
    pub event_class_dpms: u32,
    pub event_class_display_connection: u32,
}

/// A call of libddcutil that the caller is to make.
pub enum DdcRequest {
    Init,
    Redetect,
    RegisterCallback,
    ListDisplays { include_invalid: bool },
    OpenDisplay { dref: DisplayRef },
    CloseDisplay { handle: DisplayHandle },
    ValidateDisplay { dref: DisplayRef },
    ReadVcp { handle: DisplayHandle, code: u8 },
    FormatVcp { code: u8, dref: DisplayRef, value: VcpBytes },
    EnableVerify { verify: bool },
    WriteVcp { handle: DisplayHandle, code: u8, high: u8, low: u8 },
    ReadCapabilities { handle: DisplayHandle },
    ParseCapabilities { text: Vec<u8> },
    FeatureName { code: u8 },
    FeatureMetadata { handle: DisplayHandle, code: u8 },
    ReadSleepMultiplier { dref: DisplayRef },
    WriteSleepMultiplier { dref: DisplayRef, multiplier: Double },
    StatusName { status: i32 },
    StatusDescription { status: i32 },
    ErrorDetail,
    DynamicSleepEnabled,
    EnableDynamicSleep { enabled: bool },
    OutputLevel,
    SetOutputLevel { level: u32 },
    Version,
    StartWatch { classes: u32 },
    StopWatch { wait: bool },
}

/// What a call of libddcutil gave back.
pub enum DdcReply {
    /// The call, or another step that the caller was to take, was carried out.
    Done,
    /// The status that the call returned.
    Status { status: i32 },
    Flag { enabled: bool },
    Level { level: u32 },
    Displays { status: i32, displays: Option<Vec<RawDisplay>> },
    Opened { status: i32, ddca_handle: usize },
    Value { status: i32, value: VcpBytes },
    /// A string that the call returned through a pointer, beside a status.
    Text { status: i32, text: Option<Vec<u8>> },
    /// A string that the call returned as its result.
    Name { name: Option<Vec<u8>> },
    Capabilities { status: i32, parsed: Option<ParsedCapabilities> },
    Metadata { status: i32, metadata: Option<RawMetadata> },
    Multiplier { status: i32, multiplier: Double },
    /// The detail of the last error, where there is a record of it; its string
    /// may be missing too.
    Detail { detail: Option<Option<Vec<u8>>> },
}

/// The reply is of the form that the request calls for.
pub open spec fn answers(request: DdcRequest, reply: DdcReply) -> bool {
    match request {
        DdcRequest::Init => reply is Status,
        DdcRequest::Redetect => reply is Status,
        DdcRequest::RegisterCallback => reply is Status,
        DdcRequest::ListDisplays { .. } => reply is Displays,
        DdcRequest::OpenDisplay { .. } => reply is Opened,
        DdcRequest::CloseDisplay { .. } => reply is Done,
        DdcRequest::ValidateDisplay { .. } => reply is Status,
        DdcRequest::ReadVcp { .. } => reply is Value,
        DdcRequest::FormatVcp { .. } => reply is Text,
        DdcRequest::EnableVerify { .. } => reply is Done,
        DdcRequest::WriteVcp { .. } => reply is Status,
        DdcRequest::ReadCapabilities { .. } => reply is Text,
        DdcRequest::ParseCapabilities { .. } => reply is Capabilities,
        DdcRequest::FeatureName { .. } => reply is Name,
        DdcRequest::FeatureMetadata { .. } => reply is Metadata,
        DdcRequest::ReadSleepMultiplier { .. } => reply is Multiplier,
        DdcRequest::WriteSleepMultiplier { .. } => reply is Status,
        DdcRequest::StatusName { .. } => reply is Name,
        DdcRequest::StatusDescription { .. } => reply is Name,
        DdcRequest::ErrorDetail => reply is Detail,
        DdcRequest::DynamicSleepEnabled => reply is Flag,
        DdcRequest::EnableDynamicSleep { .. } => reply is Done,
        DdcRequest::OutputLevel => reply is Level,
        DdcRequest::SetOutputLevel { .. } => reply is Done,
        DdcRequest::Version => reply is Name,
        DdcRequest::StartWatch { .. } => reply is Status,
        DdcRequest::StopWatch { .. } => reply is Status,
    }
}

impl DdcRequest {
    /// Tells whether the reply is of the form that the request calls for.
    pub fn answered_by(&self, reply: &DdcReply) -> (res: bool)
        ensures
            res == answers(*self, *reply),
    {
        match (self, reply) {
            (DdcRequest::Init, DdcReply::Status { .. }) => true,
            (DdcRequest::Redetect, DdcReply::Status { .. }) => true,
            (DdcRequest::RegisterCallback, DdcReply::Status { .. }) => true,
            (DdcRequest::ListDisplays { .. }, DdcReply::Displays { .. }) => true,
            (DdcRequest::OpenDisplay { .. }, DdcReply::Opened { .. }) => true,
            (DdcRequest::CloseDisplay { .. }, DdcReply::Done) => true,
            (DdcRequest::ValidateDisplay { .. }, DdcReply::Status { .. }) => true,
            (DdcRequest::ReadVcp { .. }, DdcReply::Value { .. }) => true,
            (DdcRequest::FormatVcp { .. }, DdcReply::Text { .. }) => true,
            (DdcRequest::EnableVerify { .. }, DdcReply::Done) => true,
            (DdcRequest::WriteVcp { .. }, DdcReply::Status { .. }) => true,
            (DdcRequest::ReadCapabilities { .. }, DdcReply::Text { .. }) => true,
            (DdcRequest::ParseCapabilities { .. }, DdcReply::Capabilities { .. }) => true,
            (DdcRequest::FeatureName { .. }, DdcReply::Name { .. }) => true,
            (DdcRequest::FeatureMetadata { .. }, DdcReply::Metadata { .. }) => true,
            (DdcRequest::ReadSleepMultiplier { .. }, DdcReply::Multiplier { .. }) => true,
            (DdcRequest::WriteSleepMultiplier { .. }, DdcReply::Status { .. }) => true,
            (DdcRequest::StatusName { .. }, DdcReply::Name { .. }) => true,
            (DdcRequest::StatusDescription { .. }, DdcReply::Name { .. }) => true,
            (DdcRequest::ErrorDetail, DdcReply::Detail { .. }) => true,
            (DdcRequest::DynamicSleepEnabled, DdcReply::Flag { .. }) => true,
            (DdcRequest::EnableDynamicSleep { .. }, DdcReply::Done) => true,
            (DdcRequest::OutputLevel, DdcReply::Level { .. }) => true,
            (DdcRequest::SetOutputLevel { .. }, DdcReply::Done) => true,
            (DdcRequest::Version, DdcReply::Name { .. }) => true,
            (DdcRequest::StartWatch { .. }, DdcReply::Status { .. }) => true,
            (DdcRequest::StopWatch { .. }, DdcReply::Status { .. }) => true,
            _ => false,
        }
    }
}

} // verus!
