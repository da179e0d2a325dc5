//! Finding out whether a display is awake.
use crate::ddcutil::{open_display, opened, DisplayHandle, DisplayRef, ErrorModel, Result};
use crate::device::{answers, DdcReply, DdcRequest};
use crate::vcp::{get_vcp, VcpProgress, VcpProgressModel, VcpReader};
use vstd::pervasive::unreached;
use vstd::prelude::*;

verus! {

/// The feature that holds the power mode of a display.
pub const DPMS_CODE: u8 = 0xd6;

/// The query of a display's power mode: the display is opened, the feature read,
/// and the display closed again.
pub enum DpmsReader {
    Opening { dref: DisplayRef },
    Reading { handle: DisplayHandle, reader: VcpReader },
    Closing { result: Result<bool> },
}

/// What the query is about to do.
pub enum DpmsReaderModel {
    Opening { dref: DisplayRef },
    Reading { handle: DisplayHandle, reader: VcpReader },
    Closing { result: std::result::Result<bool, ErrorModel> },
}

impl View for DpmsReader {
    type V = DpmsReaderModel;

    open spec fn view(&self) -> DpmsReaderModel {
        match *self {
            DpmsReader::Opening { dref } => DpmsReaderModel::Opening { dref },
            DpmsReader::Reading { handle, reader } => DpmsReaderModel::Reading { handle, reader },
            DpmsReader::Closing { result } => DpmsReaderModel::Closing {
                result: match result {
                    Ok(awake) => Ok(awake),
                    Err(error) => Err(error@),
                },
            },
        }
    }
}

/// How far the query has come.
pub enum DpmsProgress {
    Ask { reader: DpmsReader, request: DdcRequest },
    Done { result: Result<bool> },
}

/// What a step of the query leads to.
pub enum DpmsProgressModel {
    Ask { reader: DpmsReaderModel, request: DdcRequest },
    Done { result: std::result::Result<bool, ErrorModel> },
}

impl View for DpmsProgress {
    type V = DpmsProgressModel;

    open spec fn view(&self) -> DpmsProgressModel {
        match *self {
            DpmsProgress::Ask { reader, request } => DpmsProgressModel::Ask {
                reader: reader@,
                request,
            },
            DpmsProgress::Done { result } => DpmsProgressModel::Done {
                result: match result {
                    Ok(awake) => Ok(awake),
                    Err(error) => Err(error@),
                },
            },
        }
    }
}

impl DpmsReaderModel {
    /// The reply is one that this stage waits for.
    pub open spec fn accepts(self, reply: DdcReply) -> bool {
        match self {
            DpmsReaderModel::Opening { .. } => reply is Opened,
            DpmsReaderModel::Reading { reader, .. } => reader.accepts(reply),
            DpmsReaderModel::Closing { .. } => reply is Done,
        }
    }

    /// How many replies may still be needed.
    pub open spec fn rank(self) -> nat {
        match self {
            DpmsReaderModel::Opening { .. } => 4,
            DpmsReaderModel::Reading { reader, .. } => 1 + reader.rank(),
            DpmsReaderModel::Closing { .. } => 1,
        }
    }

    /// The display that is open and that no call was made yet to close.
    pub open spec fn held(self) -> Option<DisplayHandle> {
        match self {
            DpmsReaderModel::Reading { handle, .. } => Some(handle),
            _ => None,
        }
    }

    /// What comes after a reply: a display that could be opened is read, and
    /// closed whatever the reading gave. It is awake unless its power mode is
    /// zero.
    pub open spec fn next(self, reply: DdcReply) -> DpmsProgressModel {
        match (self, reply) {
            (
                DpmsReaderModel::Opening { dref },
                DdcReply::Opened { status, ddca_handle },
            ) => match opened(dref, status, ddca_handle) {
                Err(error) => DpmsProgressModel::Done { result: Err(error) },
                Ok(handle) => DpmsProgressModel::Ask {
                    reader: DpmsReaderModel::Reading {
                        handle,
                        reader: VcpReader::Reading { handle, code: DPMS_CODE },
                    },
                    request: DdcRequest::ReadVcp { handle, code: DPMS_CODE },
                },
            },
            (DpmsReaderModel::Reading { handle, reader }, _) => match reader.next(reply) {
                VcpProgressModel::Ask { reader, request } => DpmsProgressModel::Ask {
                    reader: DpmsReaderModel::Reading { handle, reader },
                    request,
                },
                VcpProgressModel::Done { result } => DpmsProgressModel::Ask {
                    reader: DpmsReaderModel::Closing {
                        result: match result {
                            Ok(reading) => Ok(reading.current != 0),
                            Err(error) => Err(error),
                        },
                    },
                    request: DdcRequest::CloseDisplay { handle },
                },
            },
            (DpmsReaderModel::Closing { result }, _) => DpmsProgressModel::Done { result },
            _ => arbitrary(),
        }
    }
}

impl DpmsReader {
    /// Begins to query the power mode of a display.
    pub fn start(dref: DisplayRef) -> (res: (DpmsReader, DdcRequest))
        ensures
            res.0@ == (DpmsReaderModel::Opening { dref }),
            res.1 == (DdcRequest::OpenDisplay { dref }),
    {
        (DpmsReader::Opening { dref }, DdcRequest::OpenDisplay { dref })
    }
}

/// Takes a reply of libddcutil on the power mode of a display.
pub fn is_dpms_awake(reader: DpmsReader, reply: DdcReply) -> (res: DpmsProgress)
    requires
        reader@.accepts(reply),
    ensures
        res@ == reader@.next(reply),
        res matches DpmsProgress::Ask { reader: after, request } ==> after@.rank() < reader@.rank()
            && forall|r: DdcReply| #[trigger] answers(request, r) ==> after@.accepts(r),
{
    match reader {
        DpmsReader::Opening { dref } => match reply {
            DdcReply::Opened { status, ddca_handle } => match open_display(
                dref,
                status,
                ddca_handle,
            ) {
                Err(error) => DpmsProgress::Done { result: Err(error) },
                Ok(handle) => {
                    let (reader, request) = VcpReader::start(handle, DPMS_CODE);
                    DpmsProgress::Ask { reader: DpmsReader::Reading { handle, reader }, request }
                },
            },
            _ => unreached(),
        },
        DpmsReader::Reading { handle, reader } => match get_vcp(reader, reply) {
            VcpProgress::Ask { reader, request } => DpmsProgress::Ask {
                reader: DpmsReader::Reading { handle, reader },
                request,
            },
            VcpProgress::Done { result } => {
                let result = match result {
                    Ok(reading) => Ok(reading.current != 0),
                    Err(error) => Err(error),
                };
                DpmsProgress::Ask {
                    reader: DpmsReader::Closing { result },
                    request: DdcRequest::CloseDisplay { handle },
                }
            },
        },
        DpmsReader::Closing { result } => DpmsProgress::Done { result },
    }
}

/// A display that the query opened is closed before the query ends: a step either
/// keeps the open display or asks to close it.
pub proof fn query_closes_the_display(reader: DpmsReaderModel, reply: DdcReply)
    requires
        reader.accepts(reply),
        reader.held() is Some,
    ensures
        reader.next(reply) matches DpmsProgressModel::Ask { reader: after, request } && (
        after.held() == reader.held() || (after.held() is None && request
            == DdcRequest::CloseDisplay { handle: reader.held()->0 })),
{
}

} // verus!
