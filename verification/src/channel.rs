//! The sending side of a subscriber's channel, with an account of what went through
//! it.
use crate::events::InternalEvent;
use crossbeam_channel::Sender;
use vstd::prelude::*;

verus! {

/// The sending side of a channel of the crate `crossbeam-channel`.
#[verifier::external_type_specification]
#[verifier::external_body]
#[verifier::reject_recursive_types(T)]
pub struct ExSender<T>(crossbeam_channel::Sender<T>);

/// The sending side of a channel, and the events that were handed to it, each with
/// whether the channel took it. Only `send` adds to the account.
pub struct EventSender {
    sender: Sender<InternalEvent>,
    log: Ghost<Seq<(InternalEvent, bool)>>,
}

impl EventSender {
    /// The channel.
    pub closed spec fn channel(self) -> Sender<InternalEvent> {
        self.sender
    }

    /// The events that were handed to the channel, in their order, each with whether
    /// the channel took it.
    pub closed spec fn log(self) -> Seq<(InternalEvent, bool)> {
        self.log@
    }

    /// The sending side of a channel through which nothing went yet.
    pub fn new(sender: Sender<InternalEvent>) -> (res: EventSender)
        ensures
            res.channel() == sender,
            res.log() == Seq::<(InternalEvent, bool)>::empty(),
    {
        EventSender { sender, log: Ghost(Seq::empty()) }
    }

    /// `crossbeam_channel::Sender::send` hands the event to the channel, or, if nobody
    /// can receive from the channel any more, gives the event back as it was. Which of
    /// the two happens depends on the receiver. The account grows by this event. A
    /// bounded channel that is full is waited for.
    #[verifier::external_body]
    pub(crate) fn send(&mut self, event: InternalEvent) -> (res: Result<(), InternalEvent>)
        ensures
            final(self).channel() == old(self).channel(),
            final(self).log() == old(self).log().push((event, res is Ok)),
            res matches Err(back) ==> back == event,
    {
        self.sender.send(event).map_err(|refused| refused.into_inner())
    }
}

} // verus!
