//! The message that explains a status of libddcutil.
use crate::device::{answers, DdcReply, DdcRequest};
use crate::text::{c_ptr_to_string, c_text, decimal, decimal_text};
use vstd::pervasive::unreached;
use vstd::prelude::*;
use vstd::string::*;

verus! {

/// The name of a status, or a text that stands for an unknown one.
pub open spec fn status_name(status: i32, name: Option<Vec<u8>>) -> Seq<char> {
    c_text(name, "Unknown error code "@ + decimal(status as int))
}

/// The message for a status: its name alone if it is zero, else name, description
/// and the detail of the last error.
pub open spec fn status_message(
    status: i32,
    name: Option<Vec<u8>>,
    description: Option<Vec<u8>>,
    detail: Option<Option<Vec<u8>>>,
) -> Seq<char> {
    if status == 0 {
        status_name(status, name)
    } else {
        status_name(status, name) + ": "@ + c_text(description, ""@) + ": "@ + match detail {
            Some(text) => c_text(text, ""@),
            None => "no details"@,
        }
    }
}

/// Composes the message for a status from what libddcutil says of it.
pub fn get_status_message(
    status: i32,
    name: &Option<Vec<u8>>,
    description: &Option<Vec<u8>>,
    detail: &Option<Option<Vec<u8>>>,
) -> (res: String)
    ensures
        res@ == status_message(status, *name, *description, *detail),
{
    let unknown = "Unknown error code ".to_owned().concat(decimal_text(status as i64).as_str());
    let name = c_ptr_to_string(name, unknown.as_str());
    if status == 0 {
        return name;
    }
    let description = c_ptr_to_string(description, "");
    let detail = match detail {
        Some(text) => c_ptr_to_string(text, ""),
        None => "no details".to_owned(),
    };
    name.concat(": ").concat(description.as_str()).concat(": ").concat(detail.as_str())
}

/// The gathering of what libddcutil says of a status.
pub enum StatusReader {
    Naming { status: i32 },
    Describing { status: i32, name: Option<Vec<u8>> },
    Detailing { status: i32, name: Option<Vec<u8>>, description: Option<Vec<u8>> },
}

/// How far the gathering has come.
pub enum StatusProgress {
    Ask { reader: StatusReader, request: DdcRequest },
    Done { message: String },
}

/// What a step of the gathering leads to.
pub enum StatusProgressModel {
    Ask { reader: StatusReader, request: DdcRequest },
    Done { message: Seq<char> },
}

impl View for StatusProgress {
    type V = StatusProgressModel;

    open spec fn view(&self) -> StatusProgressModel {
        match *self {
            StatusProgress::Ask { reader, request } => StatusProgressModel::Ask { reader, request },
            StatusProgress::Done { message } => StatusProgressModel::Done { message: message@ },
        }
    }
}

impl StatusReader {
    /// The reply is one that this stage waits for.
    pub open spec fn accepts(self, reply: DdcReply) -> bool {
        match self {
            StatusReader::Naming { .. } => reply is Name,
            StatusReader::Describing { .. } => reply is Name,
            StatusReader::Detailing { .. } => reply is Detail,
        }
    }

    /// How many replies may still be needed.
    pub open spec fn rank(self) -> nat {
        match self {
            StatusReader::Naming { .. } => 3,
            StatusReader::Describing { .. } => 2,
            StatusReader::Detailing { .. } => 1,
        }
    }

    /// What comes after a reply: a status of zero has a name only; any other is
    /// described, and the detail of the last error asked for.
    pub open spec fn next(self, reply: DdcReply) -> StatusProgressModel {
        match (self, reply) {
            (StatusReader::Naming { status }, DdcReply::Name { name }) => if status == 0 {
                StatusProgressModel::Done { message: status_message(status, name, None, None) }
            } else {
                StatusProgressModel::Ask {
                    reader: StatusReader::Describing { status, name },
                    request: DdcRequest::StatusDescription { status },
                }
            },
            (
                StatusReader::Describing { status, name },
                DdcReply::Name { name: description },
            ) => StatusProgressModel::Ask {
                reader: StatusReader::Detailing { status, name, description },
                request: DdcRequest::ErrorDetail,
            },
            (
                StatusReader::Detailing { status, name, description },
                DdcReply::Detail { detail },
            ) => StatusProgressModel::Done {
                message: status_message(status, name, description, detail),
            },
            _ => arbitrary(),
        }
    }

    /// Takes a reply of libddcutil.
    pub fn resume(self, reply: DdcReply) -> (res: StatusProgress)
        requires
            self.accepts(reply),
        ensures
            res@ == self.next(reply),
            res matches StatusProgress::Ask { reader, request } ==> reader.rank() < self.rank()
                && forall|r: DdcReply| #[trigger] answers(request, r) ==> reader.accepts(r),
    {
        match (self, reply) {
            (StatusReader::Naming { status }, DdcReply::Name { name }) => if status == 0 {
                StatusProgress::Done { message: get_status_message(status, &name, &None, &None) }
            } else {
                StatusProgress::Ask {
                    reader: StatusReader::Describing { status, name },
                    request: DdcRequest::StatusDescription { status },
                }
            },
            (StatusReader::Describing { status, name }, DdcReply::Name { name: description }) =>
                StatusProgress::Ask {
                reader: StatusReader::Detailing { status, name, description },
                request: DdcRequest::ErrorDetail,
            },
            (StatusReader::Detailing { status, name, description }, DdcReply::Detail { detail }) =>
                StatusProgress::Done {
                message: get_status_message(status, &name, &description, &detail),
            },
            _ => unreached(),
        }
    }
}

} // verus!
