//! The stream of events to one client, from its call of `Subscribe` to its end.
use crate::events::{InternalEvent, InternalEventKind};
use vstd::pervasive::unreached;
use vstd::prelude::*;
use vstd::string::*;

verus! {

/// What a client receives on its stream.
pub enum StreamEvent {
    /// The stream is set up.
    ServiceInitialized { data: String },
    /// Something happened to a display.
    Internal { event: InternalEvent },
    /// The stream is closed.
    StreamClosed { data: String },
}

/// What an event of a stream says.
pub enum StreamEventModel {
    ServiceInitialized { data: Seq<char> },
    Internal { event: (InternalEventKind, Seq<char>) },
    StreamClosed { data: Seq<char> },
}

impl View for StreamEvent {
    type V = StreamEventModel;

    open spec fn view(&self) -> StreamEventModel {
        match *self {
            StreamEvent::ServiceInitialized { data } => StreamEventModel::ServiceInitialized {
                data: data@,
            },
            StreamEvent::Internal { event } => StreamEventModel::Internal { event: event@ },
            StreamEvent::StreamClosed { data } => StreamEventModel::StreamClosed { data: data@ },
        }
    }
}

/// What is to be done next for a stream.
pub enum StreamAction {
    StartPolling,
    StopPolling,
    /// Enable events. It does no harm if that fails: events may be enabled already.
    EnableEvents,
    /// Reply to the client, and say whether more replies follow.
    Reply { event: StreamEvent, continues: bool },
    /// Register the stream as a subscriber.
    Register,
    /// Wait for the next event.
    Receive,
    /// Remove the subscriber with the number.
    Unregister { id: usize },
    /// There is nothing more to do.
    End,
}

/// What an action says.
pub enum StreamActionModel {
    StartPolling,
    StopPolling,
    EnableEvents,
    Reply { event: StreamEventModel, continues: bool },
    Register,
    Receive,
    Unregister { id: usize },
    End,
}

impl View for StreamAction {
    type V = StreamActionModel;

    open spec fn view(&self) -> StreamActionModel {
        match *self {
            StreamAction::StartPolling => StreamActionModel::StartPolling,
            StreamAction::StopPolling => StreamActionModel::StopPolling,
            StreamAction::EnableEvents => StreamActionModel::EnableEvents,
            StreamAction::Reply { event, continues } => StreamActionModel::Reply {
                event: event@,
                continues,
            },
            StreamAction::Register => StreamActionModel::Register,
            StreamAction::Receive => StreamActionModel::Receive,
            StreamAction::Unregister { id } => StreamActionModel::Unregister { id },
            StreamAction::End => StreamActionModel::End,
        }
    }
}

/// What came of an action.
pub enum StreamInput {
    /// It was carried out.
    Done,
    /// Whether the reply reached the client.
    Sent { delivered: bool },
    /// The number of the new subscriber.
    Registered { id: usize },
    /// The event that came, or none if none can come any more.
    Received { event: Option<InternalEvent> },
}

/// The input is of the form that the action calls for.
pub open spec fn stream_answers(action: StreamActionModel, input: StreamInput) -> bool {
    match action {
        StreamActionModel::Reply { .. } => input is Sent,
        StreamActionModel::Register => input is Registered,
        StreamActionModel::Receive => input is Received,
        StreamActionModel::End => false,
        _ => input is Done,
    }
}

impl StreamAction {
    /// Tells whether the input is of the form that the action calls for.
    pub fn answered_by(&self, input: &StreamInput) -> (res: bool)
        ensures
            res == stream_answers(self@, *input),
    {
        match (self, input) {
            (StreamAction::Reply { .. }, StreamInput::Sent { .. }) => true,
            (StreamAction::Register, StreamInput::Registered { .. }) => true,
            (StreamAction::Receive, StreamInput::Received { .. }) => true,
            (StreamAction::StartPolling, StreamInput::Done) => true,
            (StreamAction::StopPolling, StreamInput::Done) => true,
            (StreamAction::EnableEvents, StreamInput::Done) => true,
            (StreamAction::Unregister { .. }, StreamInput::Done) => true,
            _ => false,
        }
    }
}

/// The point that a stream has reached.
#[derive(Clone, Copy, Debug, PartialEq, Eq, Structural)]
pub enum Stream {
    Polling,
    Enabling,
    Greeting,
    Registering,
    Receiving { id: usize },
    Forwarding { id: usize },
    Unregistering,
    Closing,
    Ended,
}

/// The event that opens a stream.
pub open spec fn greeting() -> StreamEventModel {
    StreamEventModel::ServiceInitialized { data: "{}"@ }
}

/// The event that closes a stream.
pub open spec fn farewell() -> StreamEventModel {
    StreamEventModel::StreamClosed { data: "{}"@ }
}

impl Stream {
    /// The input is one that the stream waits for.
    pub open spec fn accepts(self, input: StreamInput) -> bool {
        match self {
            Stream::Polling => input is Done,
            Stream::Enabling => input is Done,
            Stream::Greeting => input is Sent,
            Stream::Registering => input is Registered,
            Stream::Receiving { .. } => input is Received,
            Stream::Forwarding { .. } => input is Sent,
            Stream::Unregistering => input is Done,
            Stream::Closing => input is Sent,
            Stream::Ended => false,
        }
    }

    /// The subscriber that is registered for the stream and that no action was taken
    /// yet to remove.
    pub open spec fn registered(self) -> Option<usize> {
        match self {
            Stream::Receiving { id } => Some(id),
            Stream::Forwarding { id } => Some(id),
            _ => None,
        }
    }

    /// What follows on an input: the client is greeted, its stream is registered, and
    /// each event is handed on. A client that a greeting does not reach is given up;
    /// one that an event does not reach is removed, as is every one when no event can
    /// come any more.
    pub open spec fn next(self, input: StreamInput) -> (Stream, StreamActionModel) {
        match (self, input) {
            (Stream::Polling, _) => (Stream::Enabling, StreamActionModel::EnableEvents),
            (Stream::Enabling, _) => (
                Stream::Greeting,
                StreamActionModel::Reply { event: greeting(), continues: true },
            ),
            (Stream::Greeting, StreamInput::Sent { delivered }) => if delivered {
                (Stream::Registering, StreamActionModel::Register)
            } else {
                (Stream::Ended, StreamActionModel::End)
            },
            (Stream::Registering, StreamInput::Registered { id }) => (
                Stream::Receiving { id },
                StreamActionModel::Receive,
            ),
            (Stream::Receiving { id }, StreamInput::Received { event }) => match event {
                Some(event) => (
                    Stream::Forwarding { id },
                    StreamActionModel::Reply {
                        event: StreamEventModel::Internal { event: event@ },
                        continues: true,
                    },
                ),
                None => (Stream::Unregistering, StreamActionModel::Unregister { id }),
            },
            (Stream::Forwarding { id }, StreamInput::Sent { delivered }) => if delivered {
                (Stream::Receiving { id }, StreamActionModel::Receive)
            } else {
                (Stream::Unregistering, StreamActionModel::Unregister { id })
            },
            (Stream::Unregistering, _) => (
                Stream::Closing,
                StreamActionModel::Reply { event: farewell(), continues: false },
            ),
            (Stream::Closing, _) => (Stream::Ended, StreamActionModel::End),
            _ => arbitrary(),
        }
    }

    /// Takes what came of the last action, and says what is to be done next.
    pub fn resume(self, input: StreamInput) -> (res: (Stream, StreamAction))
        requires
            self.accepts(input),
        ensures
            (res.0, res.1@) == self.next(input),
            forall|i: StreamInput| #[trigger] stream_answers(res.1@, i) ==> res.0.accepts(i),
    {
        match (self, input) {
            (Stream::Polling, _) => (Stream::Enabling, StreamAction::EnableEvents),
            (Stream::Enabling, _) => (
                Stream::Greeting,
                StreamAction::Reply {
                    event: StreamEvent::ServiceInitialized { data: "{}".to_owned() },
                    continues: true,
                },
            ),
            (Stream::Greeting, StreamInput::Sent { delivered }) => if delivered {
                (Stream::Registering, StreamAction::Register)
            } else {
                (Stream::Ended, StreamAction::End)
            },
            (Stream::Registering, StreamInput::Registered { id }) => (
                Stream::Receiving { id },
                StreamAction::Receive,
            ),
            (Stream::Receiving { id }, StreamInput::Received { event }) => match event {
                Some(event) => (
                    Stream::Forwarding { id },
                    StreamAction::Reply { event: StreamEvent::Internal { event }, continues: true },
                ),
                None => (Stream::Unregistering, StreamAction::Unregister { id }),
            },
            (Stream::Forwarding { id }, StreamInput::Sent { delivered }) => if delivered {
                (Stream::Receiving { id }, StreamAction::Receive)
            } else {
                (Stream::Unregistering, StreamAction::Unregister { id })
            },
            (Stream::Unregistering, _) => (
                Stream::Closing,
                StreamAction::Reply {
                    event: StreamEvent::StreamClosed { data: "{}".to_owned() },
                    continues: false,
                },
            ),
            (Stream::Closing, _) => (Stream::Ended, StreamAction::End),
            _ => unreached(),
        }
    }
}

/// Begins a stream: polling is started, or else stopped, as the client asks.
pub fn subscribe(use_polling: bool) -> (res: (Stream, StreamAction))
    ensures
        res.0 == Stream::Polling,
        res.1@ == (if use_polling {
            StreamActionModel::StartPolling
        } else {
            StreamActionModel::StopPolling
        }),
        forall|i: StreamInput| #[trigger] stream_answers(res.1@, i) ==> res.0.accepts(i),
{
    if use_polling {
        (Stream::Polling, StreamAction::StartPolling)
    } else {
        (Stream::Polling, StreamAction::StopPolling)
    }
}

/// A stream that is registered stays so until it is removed under its own number,
/// and none ends while it is registered. One is registered only after its client
/// was greeted.
pub proof fn registered_stream_is_removed(stream: Stream, input: StreamInput)
    requires
        stream.accepts(input),
    ensures
        stream.registered() matches Some(id) ==> stream.next(input).0.registered() == Some(id)
            || stream.next(input).0.registered() is None && stream.next(input).1
            == (StreamActionModel::Unregister { id }),
        stream.registered() is Some ==> !(stream.next(input).1 is End),
        stream.next(input).1 is Register ==> stream is Greeting && input == (StreamInput::Sent {
            delivered: true,
        }),
        stream.registered() is None && stream.next(input).0.registered() is Some
            ==> stream is Registering,
{
}

/// Each event that a stream receives is handed on as it is, with more to follow,
/// before the next one is received.
pub proof fn received_events_are_handed_on(stream: Stream, input: StreamInput)
    requires
        stream.accepts(input),
    ensures
        input matches StreamInput::Received { event: Some(event) } ==> stream.next(input).1
            == (StreamActionModel::Reply {
            event: StreamEventModel::Internal { event: event@ },
            continues: true,
        }),
        stream.next(input).1 is Receive ==> stream is Registering || (stream is Forwarding && input
            == (StreamInput::Sent { delivered: true })),
{
}

/// The reply that closes a stream is the one reply that no other follows: after it
/// the stream ends, and a stream that ends otherwise was never greeted.
pub proof fn last_reply_closes_the_stream(stream: Stream, input: StreamInput)
    requires
        stream.accepts(input),
    ensures
        stream.next(input).1 matches StreamActionModel::Reply { event, continues } ==> (continues
            <==> event != farewell()) && (!continues ==> stream.next(input).0 is Closing),
        stream is Closing ==> stream.next(input).1 is End,
        stream.next(input).1 is End ==> stream is Closing || stream is Greeting && input == (
        StreamInput::Sent { delivered: false }),
{
}

} // verus!
