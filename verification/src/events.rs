//! The events of the service, and the notices of libddcutil that become events.
use crate::device::HeaderConstants;
use crate::json::{json_object, key_before, members_of, object_text, Json, JsonMember, JsonValue};
use vstd::prelude::*;
use vstd::string::*;

verus! {

/// What happened to a display, as libddcutil or the polling of it tells.
#[derive(Debug, Clone, Copy, PartialEq, Eq, Structural)]
pub enum DdcutilEventKind {
    Connected,
    Disconnected,
    ConnectedDisplaysChanged,
    DpmsAwake,
    DpmsAsleep,
    DdcWorking,
    DdcNotWorking,
    Unknown(i32),
}

impl DdcutilEventKind {
    /// The name under which clients know the kind.
    pub open spec fn name(self) -> Seq<char> {
        match self {
            DdcutilEventKind::Connected => "DisplayConnected"@,
            DdcutilEventKind::Disconnected => "DisplayDisconnected"@,
            DdcutilEventKind::ConnectedDisplaysChanged => "ConnectedDisplaysChanged"@,
            DdcutilEventKind::DpmsAwake => "DpmsAwake"@,
            DdcutilEventKind::DpmsAsleep => "DpmsAsleep"@,
            DdcutilEventKind::DdcWorking => "DdcWorking"@,
            DdcutilEventKind::DdcNotWorking => "DdcNotWorking"@,
            DdcutilEventKind::Unknown(_) => "Unknown"@,
        }
    }

    /// The name under which clients know the kind.
    pub fn as_str(&self) -> (res: &'static str)
        ensures
            res@ == self.name(),
    {
        match self {
            DdcutilEventKind::Connected => "DisplayConnected",
            DdcutilEventKind::Disconnected => "DisplayDisconnected",
            DdcutilEventKind::ConnectedDisplaysChanged => "ConnectedDisplaysChanged",
            DdcutilEventKind::DpmsAwake => "DpmsAwake",
            DdcutilEventKind::DpmsAsleep => "DpmsAsleep",
            DdcutilEventKind::DdcWorking => "DdcWorking",
            DdcutilEventKind::DdcNotWorking => "DdcNotWorking",
            DdcutilEventKind::Unknown(_) => "Unknown",
        }
    }
}

/// An event: its kind, and more of it as a JSON object.
#[derive(Debug)]
pub struct DdcutilEvent {
    pub kind: DdcutilEventKind,
    pub data: String,
}

impl View for DdcutilEvent {
    type V = (DdcutilEventKind, Seq<char>);

    open spec fn view(&self) -> (DdcutilEventKind, Seq<char>) {
        (self.kind, self.data@)
    }
}

/// What an event to the subscribers is about.
#[derive(Debug, Clone, Copy, PartialEq, Eq, Structural)]
pub enum InternalEventKind {
    Connected,
    Disconnected,
    ConnectedDisplaysChanged,
    DpmsAwake,
    DpmsAsleep,
    DdcWorking,
    DdcNotWorking,
    VcpChange,
    Unknown(i32),
}

/// What caused an event to the subscribers.
#[derive(Debug, Clone, Copy, PartialEq, Eq, Structural)]
pub enum InternalEventType {
    Connected,
    Disconnected,
    DpmsAwake,
    DpmsAsleep,
    VcpChange,
}

impl InternalEventType {
    /// The name under which clients know the type.
    pub open spec fn name(self) -> Seq<char> {
        match self {
            InternalEventType::Connected => "DisplayConnected"@,
            InternalEventType::Disconnected => "DisplayDisconnected"@,
            InternalEventType::DpmsAwake => "DpmsAwake"@,
            InternalEventType::DpmsAsleep => "DpmsAsleep"@,
            InternalEventType::VcpChange => "VcpChange"@,
        }
    }

    /// The name under which clients know the type.
    pub fn as_str(&self) -> (res: &'static str)
        ensures
            res@ == self.name(),
    {
        match self {
            InternalEventType::Connected => "DisplayConnected",
            InternalEventType::Disconnected => "DisplayDisconnected",
            InternalEventType::DpmsAwake => "DpmsAwake",
            InternalEventType::DpmsAsleep => "DpmsAsleep",
            InternalEventType::VcpChange => "VcpChange",
        }
    }
}

/// An event to the subscribers: its kind, and more of it as a JSON object.
#[derive(Debug)]
pub struct InternalEvent {
    pub kind: InternalEventKind,
    pub data: String,
}

impl View for InternalEvent {
    type V = (InternalEventKind, Seq<char>);

    open spec fn view(&self) -> (InternalEventKind, Seq<char>) {
        (self.kind, self.data@)
    }
}

impl Clone for InternalEvent {
    fn clone(&self) -> (res: InternalEvent)
        ensures
            res == *self,
    {
        InternalEvent { kind: self.kind, data: self.data.clone() }
    }
}

/// The kind of the event to the subscribers that an event of a display becomes.
pub open spec fn internal_kind(kind: DdcutilEventKind) -> InternalEventKind {
    match kind {
        DdcutilEventKind::Connected => InternalEventKind::Connected,
        DdcutilEventKind::Disconnected => InternalEventKind::Disconnected,
        DdcutilEventKind::ConnectedDisplaysChanged => InternalEventKind::ConnectedDisplaysChanged,
        DdcutilEventKind::DpmsAwake => InternalEventKind::DpmsAwake,
        DdcutilEventKind::DpmsAsleep => InternalEventKind::DpmsAsleep,
        DdcutilEventKind::DdcWorking => InternalEventKind::DdcWorking,
        DdcutilEventKind::DdcNotWorking => InternalEventKind::DdcNotWorking,
        DdcutilEventKind::Unknown(code) => InternalEventKind::Unknown(code),
    }
}

impl DdcutilEvent {
    /// Makes the event to the subscribers that this event becomes.
    pub fn into_internal(self) -> (res: InternalEvent)
        ensures
            res@ == (internal_kind(self.kind), self.data@),
    {
        let kind = match self.kind {
            DdcutilEventKind::Connected => InternalEventKind::Connected,
            DdcutilEventKind::Disconnected => InternalEventKind::Disconnected,
            DdcutilEventKind::ConnectedDisplaysChanged =>
                InternalEventKind::ConnectedDisplaysChanged,
            DdcutilEventKind::DpmsAwake => InternalEventKind::DpmsAwake,
            DdcutilEventKind::DpmsAsleep => InternalEventKind::DpmsAsleep,
            DdcutilEventKind::DdcWorking => InternalEventKind::DdcWorking,
            DdcutilEventKind::DdcNotWorking => InternalEventKind::DdcNotWorking,
            DdcutilEventKind::Unknown(code) => InternalEventKind::Unknown(code),
        };
        InternalEvent { kind, data: self.data }
    }
}

proof fn key_before_at(a: Seq<char>, b: Seq<char>, k: int)
    requires
        0 <= k < a.len(),
        k < b.len(),
        forall|j: int| 0 <= j < k ==> a[j] == b[j],
        a[k] < b[k],
    ensures
        key_before(a, b),
{
    assert(a.take(k) =~= b.take(k));
}

/// The keys of event objects come in this order.
pub(crate) proof fn event_keys_are_ordered()
    ensures
        key_before("awake"@, "display_number"@),
        key_before("awake"@, "edid_base64"@),
        key_before("client_context"@, "display_number"@),
        key_before("display_number"@, "edid_base64"@),
        key_before("edid_base64"@, "event_type"@),
        key_before("edid_base64"@, "flags"@),
        key_before("event_type"@, "flags"@),
        key_before("event_type"@, "new_value"@),
        key_before("flags"@, "origin"@),
        key_before("new_value"@, "origin"@),
        key_before("origin"@, "vcp_code"@),
{
    reveal_strlit("awake");
    reveal_strlit("client_context");
    reveal_strlit("display_number");
    reveal_strlit("edid_base64");
    reveal_strlit("event_type");
    reveal_strlit("flags");
    reveal_strlit("new_value");
    reveal_strlit("origin");
    reveal_strlit("vcp_code");
    key_before_at("awake"@, "display_number"@, 0);
    key_before_at("awake"@, "edid_base64"@, 0);
    key_before_at("client_context"@, "display_number"@, 0);
    key_before_at("display_number"@, "edid_base64"@, 0);
    key_before_at("edid_base64"@, "event_type"@, 1);
    key_before_at("edid_base64"@, "flags"@, 0);
    key_before_at("event_type"@, "flags"@, 0);
    key_before_at("event_type"@, "new_value"@, 0);
    key_before_at("flags"@, "origin"@, 0);
    key_before_at("new_value"@, "origin"@, 0);
    key_before_at("origin"@, "vcp_code"@, 0);
}

/// The data of an event that a notice of libddcutil becomes.
pub open spec fn notice_data(event_type: u32) -> Seq<char> {
    json_object(
        seq![
            ("event_type"@, Json::Number(event_type as int)),
            ("flags"@, Json::Number(0)),
        ],
    )
}

/// The kind of event for the event type of a notice.
pub open spec fn notice_kind(event_type: u32, constants: HeaderConstants) -> DdcutilEventKind {
    if event_type == constants.event_display_connected {
        DdcutilEventKind::Connected
    } else if event_type == constants.event_display_disconnected {
        DdcutilEventKind::Disconnected
    } else if event_type == constants.event_dpms_awake {
        DdcutilEventKind::DpmsAwake
    } else if event_type == constants.event_dpms_asleep {
        DdcutilEventKind::DpmsAsleep
    } else if event_type == constants.event_ddc_working {
        DdcutilEventKind::DdcWorking
    } else {
        DdcutilEventKind::Unknown(event_type as i32)
    }
}

/// A kind of notice on which the displays are to be polled at once.
pub open spec fn calls_for_poll(kind: DdcutilEventKind) -> bool {
    kind is Connected || kind is Disconnected || kind is DpmsAwake || kind is DpmsAsleep
}

/// What is to be done on a notice of libddcutil: whether to poll at once, and the
/// event to send.
pub struct Notice {
    pub need_poll: bool,
    pub event: DdcutilEvent,
}

/// Decides what is to be done when libddcutil notices that a display changed.
pub fn native_ddc_event_callback(event_type: u32, constants: &HeaderConstants) -> (res: Notice)
    ensures
        res.event@ == (notice_kind(event_type, *constants), notice_data(event_type)),
        res.need_poll == calls_for_poll(notice_kind(event_type, *constants)),
{
    let kind = if event_type == constants.event_display_connected {
        DdcutilEventKind::Connected
    } else if event_type == constants.event_display_disconnected {
        DdcutilEventKind::Disconnected
    } else if event_type == constants.event_dpms_awake {
        DdcutilEventKind::DpmsAwake
    } else if event_type == constants.event_dpms_asleep {
        DdcutilEventKind::DpmsAsleep
    } else if event_type == constants.event_ddc_working {
        DdcutilEventKind::DdcWorking
    } else {
        DdcutilEventKind::Unknown(event_type as i32)
    };
    let need_poll = match kind {
        DdcutilEventKind::Connected => true,
        DdcutilEventKind::Disconnected => true,
        DdcutilEventKind::DpmsAwake => true,
        DdcutilEventKind::DpmsAsleep => true,
        _ => false,
    };
    let members = vec![
        JsonMember { key: "event_type", value: JsonValue::Number(event_type as i64) },
        JsonMember { key: "flags", value: JsonValue::Number(0) },
    ];
    proof {
        event_keys_are_ordered();
        assert(members_of(members@) =~= seq![
            ("event_type"@, Json::Number(event_type as int)),
            ("flags"@, Json::Number(0)),
        ]);
    }
    Notice { need_poll, event: DdcutilEvent { kind, data: object_text(&members) } }
}

} // verus!
