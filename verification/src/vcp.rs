//! Reading and writing the features of a display.
use crate::ddcutil::{DisplayHandle, Error, ErrorModel, Result};
use crate::device::{answers, DdcReply, DdcRequest, HeaderConstants, RawMetadata, VcpBytes};
use crate::text::{c_ptr_to_string, c_text};
use vstd::pervasive::unreached;
use vstd::prelude::*;

verus! {

/// The 16-bit value of a high and a low byte.
pub open spec fn word(high: u8, low: u8) -> u16 {
    (256 * high + low) as u16
}

/// Joins a high and a low byte.
pub fn join_bytes(high: u8, low: u8) -> (res: u16)
    ensures
        res == word(high, low),
{
    (high as u16) * 256 + low as u16
}

/// A feature value that was read: the current value, the maximum, and the text
/// that libddcutil makes of it.
#[derive(Debug)]
pub struct VcpReading {
    pub current: u16,
    pub maximum: u16,
    pub formatted: String,
}

/// What a reading says.
pub struct VcpReadingModel {
    pub current: u16,
    pub maximum: u16,
    pub formatted: Seq<char>,
}

impl View for VcpReading {
    type V = VcpReadingModel;

    open spec fn view(&self) -> VcpReadingModel {
        VcpReadingModel {
            current: self.current,
            maximum: self.maximum,
            formatted: self.formatted@,
        }
    }
}

/// The reading that the bytes of a display and the reply on their text give. A
/// text that could not be had is empty.
pub open spec fn vcp_reading(
    value: VcpBytes,
    status: i32,
    text: Option<Vec<u8>>,
) -> VcpReadingModel {
    VcpReadingModel {
        current: word(value.sh, value.sl),
        maximum: word(value.mh, value.ml),
        formatted: if status == 0 {
            c_text(text, ""@)
        } else {
            Seq::empty()
        },
    }
}

/// The reading of a feature of an open display.
#[derive(Clone, Copy, Debug, PartialEq, Eq, Structural)]
pub enum VcpReader {
    Reading { handle: DisplayHandle, code: u8 },
    Formatting { handle: DisplayHandle, code: u8, value: VcpBytes },
}

/// How far the reading has come.
pub enum VcpProgress {
    Ask { reader: VcpReader, request: DdcRequest },
    Done { result: Result<VcpReading> },
}

/// What a step of the reading leads to.
pub enum VcpProgressModel {
    Ask { reader: VcpReader, request: DdcRequest },
    Done { result: std::result::Result<VcpReadingModel, ErrorModel> },
}

impl View for VcpProgress {
    type V = VcpProgressModel;

    open spec fn view(&self) -> VcpProgressModel {
        match *self {
            VcpProgress::Ask { reader, request } => VcpProgressModel::Ask { reader, request },
            VcpProgress::Done { result } => VcpProgressModel::Done {
                result: match result {
                    Ok(reading) => Ok(reading@),
                    Err(error) => Err(error@),
                },
            },
        }
    }
}

impl VcpReader {
    /// The reply is one that this stage waits for.
    pub open spec fn accepts(self, reply: DdcReply) -> bool {
        match self {
            VcpReader::Reading { .. } => reply is Value,
            VcpReader::Formatting { .. } => reply is Text,
        }
    }

    /// How many replies may still be needed.
    pub open spec fn rank(self) -> nat {
        match self {
            VcpReader::Reading { .. } => 2,
            VcpReader::Formatting { .. } => 1,
        }
    }

    /// What comes after a reply: a value that was read is formatted, a status
    /// other than zero ends the reading; the text ends it too.
    pub open spec fn next(self, reply: DdcReply) -> VcpProgressModel {
        match (self, reply) {
            (
                VcpReader::Reading { handle, code },
                DdcReply::Value { status, value },
            ) => if status != 0 {
                VcpProgressModel::Done { result: Err(ErrorModel::Status(status)) }
            } else {
                VcpProgressModel::Ask {
                    reader: VcpReader::Formatting { handle, code, value },
                    request: DdcRequest::FormatVcp { code, dref: handle.dref, value },
                }
            },
            (VcpReader::Formatting { value, .. }, DdcReply::Text { status, text }) =>
                VcpProgressModel::Done { result: Ok(vcp_reading(value, status, text)) },
            _ => arbitrary(),
        }
    }

    /// Begins to read a feature.
    pub fn start(handle: DisplayHandle, code: u8) -> (res: (VcpReader, DdcRequest))
        ensures
            res.0 == (VcpReader::Reading { handle, code }),
            res.1 == (DdcRequest::ReadVcp { handle, code }),
    {
        (VcpReader::Reading { handle, code }, DdcRequest::ReadVcp { handle, code })
    }
}

/// Takes a reply of libddcutil on the reading of a feature.
pub fn get_vcp(reader: VcpReader, reply: DdcReply) -> (res: VcpProgress)
    requires
        reader.accepts(reply),
    ensures
        res@ == reader.next(reply),
        res matches VcpProgress::Ask { reader: after, request } ==> after.rank() < reader.rank()
            && forall|r: DdcReply| #[trigger] answers(request, r) ==> after.accepts(r),
{
    match (reader, reply) {
        (VcpReader::Reading { handle, code }, DdcReply::Value { status, value }) => {
            if status != 0 {
                return VcpProgress::Done { result: Err(Error::Status(status)) };
            }
            VcpProgress::Ask {
                reader: VcpReader::Formatting { handle, code, value },
                request: DdcRequest::FormatVcp { code, dref: handle.dref, value },
            }
        },
        (VcpReader::Formatting { value, .. }, DdcReply::Text { status, text }) => {
            let formatted = if status == 0 {
                c_ptr_to_string(&text, "")
            } else {
                String::new()
            };
            let reading = VcpReading {
                current: join_bytes(value.sh, value.sl),
                maximum: join_bytes(value.mh, value.ml),
                formatted,
            };
            VcpProgress::Done { result: Ok(reading) }
        },
        _ => unreached(),
    }
}

/// Makes the call that writes a feature, with the value in two bytes.
pub fn set_vcp(handle: DisplayHandle, vcp_code: u8, value: u16) -> (res: DdcRequest)
    ensures
        res == (DdcRequest::WriteVcp {
            handle,
            code: vcp_code,
            high: (value / 256) as u8,
            low: (value % 256) as u8,
        }),
{
    DdcRequest::WriteVcp {
        handle,
        code: vcp_code,
        high: (value / 256) as u8,
        low: (value % 256) as u8,
    }
}

/// A value that is written in two bytes and read back from them is unchanged.
pub proof fn written_value_reads_back(value: u16)
    ensures
        word((value / 256) as u8, (value % 256) as u8) == value,
{
}

/// The metadata of a feature, in the terms of the service.
#[derive(Debug)]
pub struct VcpFeatureMetadata {
    pub feature_name: String,
    pub description: String,
    pub is_read_only: bool,
    pub is_write_only: bool,
    pub is_rw: bool,
    pub is_complex: bool,
    pub is_continuous: bool,
}

/// What the metadata of a feature says.
pub struct VcpMetadataModel {
    pub feature_name: Seq<char>,
    pub description: Seq<char>,
    pub is_read_only: bool,
    pub is_write_only: bool,
    pub is_rw: bool,
    pub is_complex: bool,
    pub is_continuous: bool,
}

impl View for VcpFeatureMetadata {
    type V = VcpMetadataModel;

    open spec fn view(&self) -> VcpMetadataModel {
        VcpMetadataModel {
            feature_name: self.feature_name@,
            description: self.description@,
            is_read_only: self.is_read_only,
            is_write_only: self.is_write_only,
            is_rw: self.is_rw,
            is_complex: self.is_complex,
            is_continuous: self.is_continuous,
        }
    }
}

/// The metadata that a call of libddcutil gave; a missing record counts as
/// status -1.
pub open spec fn vcp_metadata(
    status: i32,
    metadata: Option<RawMetadata>,
    constants: HeaderConstants,
) -> std::result::Result<VcpMetadataModel, ErrorModel> {
    if status != 0 {
        Err(ErrorModel::Status(status))
    } else {
        match metadata {
            Some(raw) => Ok(
                VcpMetadataModel {
                    feature_name: c_text(raw.feature_name, "unknown"@),
                    description: c_text(raw.feature_desc, ""@),
                    is_read_only: raw.feature_flags & constants.ro != 0,
                    is_write_only: raw.feature_flags & constants.wo != 0,
                    is_rw: raw.feature_flags & constants.rw != 0,
                    is_complex: raw.feature_flags & (constants.complex_cont | constants.complex_nc)
                        != 0,
                    is_continuous: raw.feature_flags & constants.cont != 0,
                },
            ),
            None => Err(ErrorModel::Status(-1i32)),
        }
    }
}

/// Reads the metadata that a call of libddcutil gave.
pub fn get_vcp_metadata(
    status: i32,
    metadata: Option<RawMetadata>,
    constants: &HeaderConstants,
) -> (res: Result<VcpFeatureMetadata>)
    ensures
        match (vcp_metadata(status, metadata, *constants), res) {
            (Ok(expected), Ok(metadata)) => metadata@ == expected,
            (Err(expected), Err(error)) => error@ == expected,
            _ => false,
        },
{
    if status != 0 {
        return Err(Error::Status(status));
    }
    match metadata {
        Some(raw) => {
            let flags: u32 = raw.feature_flags;
            Ok(
                VcpFeatureMetadata {
                    feature_name: c_ptr_to_string(&raw.feature_name, "unknown"),
                    description: c_ptr_to_string(&raw.feature_desc, ""),
                    is_read_only: (flags & constants.ro) != 0,
                    is_write_only: (flags & constants.wo) != 0,
                    is_rw: (flags & constants.rw) != 0,
                    is_complex: (flags & (constants.complex_cont | constants.complex_nc)) != 0,
                    is_continuous: (flags & constants.cont) != 0,
                },
            )
        },
        None => Err(Error::Status(-1)),
    }
}

} // verus!
