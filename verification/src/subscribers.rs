//! The subscribers to events. Each one receives the events over a channel of its
//! own.
use crate::channel::EventSender;
use crate::events::InternalEvent;
use crossbeam_channel::Sender;
use vstd::prelude::*;

verus! {

/// One who is to receive events.
pub struct Subscriber {
    pub id: usize,
    pub sender: EventSender,
}

impl Subscriber {
    /// The channel took the last event that was sent to the subscriber.
    pub open spec fn heard(self) -> bool {
        self.sender.log().len() > 0 && self.sender.log().last().1
    }
}

/// A subscriber with the number and the channel, to whom nothing was sent yet.
pub open spec fn is_newcomer(
    subscriber: Subscriber,
    id: usize,
    event_sender: Sender<InternalEvent>,
) -> bool {
    &&& subscriber.id == id
    &&& subscriber.sender.channel() == event_sender
    &&& subscriber.sender.log() == Seq::<(InternalEvent, bool)>::empty()
}

/// All who are to receive events, in the order in which they subscribed, and the
/// number that the next one will be given.
pub struct SubscriberRegistry {
    pub next_id: usize,
    pub subscribers: Vec<Subscriber>,
}

impl SubscriberRegistry {
    /// The numbers that were given out are below the next one, and grow in the
    /// order of subscription.
    pub open spec fn is_valid(self) -> bool {
        &&& forall|i: int|
            0 <= i < self.subscribers@.len() ==> (#[trigger] self.subscribers@[i]).id < self.next_id
        &&& forall|i: int, j: int|
            0 <= i < j < self.subscribers@.len() ==> (#[trigger] self.subscribers@[i]).id < (
            #[trigger] self.subscribers@[j]).id
    }

    /// A registry without subscribers.
    pub fn new() -> (res: SubscriberRegistry)
        ensures
            res.next_id == 0,
            res.subscribers@.len() == 0,
            res.is_valid(),
    {
        SubscriberRegistry { next_id: 0, subscribers: Vec::new() }
    }
}

/// Adds a subscriber, and gives the number that was assigned to it. Numbers start
/// over only after all of them were given out.
pub fn subscribe_to_intneral_events(
    registry: &mut SubscriberRegistry,
    event_sender: Sender<InternalEvent>,
) -> (id: usize)
    ensures
        id == old(registry).next_id,
        final(registry).next_id == (if id == usize::MAX {
            0
        } else {
            id + 1
        }),
        final(registry).subscribers@.len() == old(registry).subscribers@.len() + 1,
        final(registry).subscribers@.drop_last() == old(registry).subscribers@,
        is_newcomer(final(registry).subscribers@.last(), id, event_sender),
        old(registry).is_valid() && id < usize::MAX ==> final(registry).is_valid(),
{
    let id: usize = registry.next_id;
    registry.next_id = if id == usize::MAX {
        0
    } else {
        id + 1
    };
    registry.subscribers.push(Subscriber { id, sender: EventSender::new(event_sender) });
    assert(registry.subscribers@.drop_last() =~= old(registry).subscribers@);
    id
}

/// The subscribers that are marked to be kept, in their order.
pub open spec fn kept(subscribers: Seq<Subscriber>, keep: Seq<bool>) -> Seq<Subscriber>
    decreases subscribers.len(),
{
    if subscribers.len() == 0 {
        Seq::empty()
    } else {
        let before = kept(subscribers.drop_last(), keep);
        if keep[subscribers.len() - 1] {
            before.push(subscribers.last())
        } else {
            before
        }
    }
}

/// Who is kept was there before, and the order of the numbers is kept too.
proof fn kept_keeps_order(subscribers: Seq<Subscriber>, keep: Seq<bool>, bound: usize)
    requires
        forall|i: int| 0 <= i < subscribers.len() ==> (#[trigger] subscribers[i]).id < bound,
        forall|i: int, j: int|
            0 <= i < j < subscribers.len() ==> (#[trigger] subscribers[i]).id < (
            #[trigger] subscribers[j]).id,
    ensures
        forall|i: int|
            0 <= i < kept(subscribers, keep).len() ==> (#[trigger] kept(subscribers, keep)[i]).id
                < bound,
        forall|i: int, j: int|
            0 <= i < j < kept(subscribers, keep).len() ==> (#[trigger] kept(subscribers, keep)[i]).id
                < (#[trigger] kept(subscribers, keep)[j]).id,
    decreases subscribers.len(),
{
    if subscribers.len() > 0 {
        let init = subscribers.drop_last();
        let last = subscribers.last();
        assert(last == subscribers[subscribers.len() - 1]);
        assert forall|i: int| 0 <= i < init.len() implies (#[trigger] init[i]).id < last.id by {
            assert(init[i] == subscribers[i]);
        }
        assert forall|i: int, j: int| 0 <= i < j < init.len() implies (#[trigger] init[i]).id < (
        #[trigger] init[j]).id by {
            assert(init[i] == subscribers[i] && init[j] == subscribers[j]);
        }
        kept_keeps_order(init, keep, last.id);
        let before = kept(init, keep);
        let after = kept(subscribers, keep);
        assert forall|i: int| 0 <= i < after.len() implies (#[trigger] after[i]).id < bound by {
            if i < before.len() {
                assert(after[i] == before[i]);
            }
        }
        assert forall|i: int, j: int| 0 <= i < j < after.len() implies (#[trigger] after[i]).id < (
        #[trigger] after[j]).id by {
            assert(after[i] == before[i]);
            if j < before.len() {
                assert(after[j] == before[j]);
            }
        }
    }
}

/// The marks turned round.
pub open spec fn turned(marks: Seq<bool>) -> Seq<bool> {
    marks.map_values(|mark: bool| !mark)
}

/// Keeps the subscribers that are marked, in their order, and gives the others.
pub fn retain_marked(registry: &mut SubscriberRegistry, keep: &Vec<bool>) -> (gone: Vec<Subscriber>)
    requires
        keep@.len() == old(registry).subscribers@.len(),
    ensures
        final(registry).next_id == old(registry).next_id,
        final(registry).subscribers@ == kept(old(registry).subscribers@, keep@),
        gone@ == kept(old(registry).subscribers@, turned(keep@)),
        old(registry).is_valid() ==> final(registry).is_valid(),
{
    let ghost all = registry.subscribers@;
    let ghost valid = registry.is_valid();
    let mut gone: Vec<Subscriber> = Vec::new();
    let mut i: usize = 0;
    for seen in 0..keep.len()
        invariant
            keep@.len() == all.len(),
            i <= seen,
            registry.next_id == old(registry).next_id,
            registry.subscribers@ =~= kept(all.take(seen as int), keep@) + all.skip(seen as int),
            kept(all.take(seen as int), keep@).len() == i,
            gone@ =~= kept(all.take(seen as int), turned(keep@)),
    {
        assert(all.take(seen + 1).drop_last() =~= all.take(seen as int));
        assert(all.take(seen + 1).last() == all[seen as int]);
        assert(registry.subscribers@[i as int] == all[seen as int]);
        assert(turned(keep@)[seen as int] == !keep@[seen as int]);
        if keep[seen] {
            i += 1;
        } else {
            let deaf = registry.subscribers.remove(i);
            gone.push(deaf);
        }
    }
    proof {
        assert(all.take(all.len() as int) =~= all);
        assert(all.skip(all.len() as int) =~= Seq::empty());
        if valid {
            kept_keeps_order(all, keep@, registry.next_id);
        }
    }
    gone
}

/// The subscribers without those that have the number.
pub open spec fn others(subscribers: Seq<Subscriber>, id: usize) -> Seq<Subscriber> {
    subscribers.filter(|s: Subscriber| s.id != id)
}

/// To keep those who are marked is to pick those for whom the marks stand.
proof fn kept_are_picked(
    subscribers: Seq<Subscriber>,
    keep: Seq<bool>,
    pick: spec_fn(Subscriber) -> bool,
)
    requires
        forall|i: int| 0 <= i < subscribers.len() ==> #[trigger] keep[i] == pick(subscribers[i]),
    ensures
        kept(subscribers, keep) == subscribers.filter(pick),
    decreases subscribers.len(),
{
    reveal(Seq::filter);
    if subscribers.len() > 0 {
        let init = subscribers.drop_last();
        assert forall|i: int| 0 <= i < init.len() implies #[trigger] keep[i] == pick(init[i]) by {
            assert(init[i] == subscribers[i]);
        }
        kept_are_picked(init, keep, pick);
        assert(keep[subscribers.len() - 1] == pick(subscribers[subscribers.len() - 1]));
    }
}

/// Removes the subscriber with the given number. All others stay, in their order.
pub fn unsubscribe_from_events(registry: &mut SubscriberRegistry, id: usize)
    ensures
        final(registry).next_id == old(registry).next_id,
        final(registry).subscribers@ == others(old(registry).subscribers@, id),
        old(registry).is_valid() ==> final(registry).is_valid(),
{
    let mut keep: Vec<bool> = Vec::new();
    for i in 0..registry.subscribers.len()
        invariant
            registry == old(registry),
            keep@.len() == i,
            forall|j: int|
                0 <= j < i ==> #[trigger] keep@[j] == (registry.subscribers@[j].id != id),
    {
        keep.push(registry.subscribers[i].id != id);
    }
    proof {
        kept_are_picked(registry.subscribers@, keep@, |s: Subscriber| s.id != id);
    }
    retain_marked(registry, &keep);
}

/// The event was sent to the subscriber, once: it is the same subscriber on the same
/// channel, and the account of the channel has grown by the event.
pub open spec fn is_sent(before: Subscriber, after: Subscriber, event: InternalEvent) -> bool {
    &&& after.id == before.id
    &&& after.sender.channel() == before.sender.channel()
    &&& exists|received: bool|
        after.sender.log() == #[trigger] before.sender.log().push((event, received))
}

/// The event was sent to every subscriber, once.
pub open spec fn are_sent(
    before: Seq<Subscriber>,
    after: Seq<Subscriber>,
    event: InternalEvent,
) -> bool {
    &&& after.len() == before.len()
    &&& forall|i: int| 0 <= i < before.len() ==> is_sent(before[i], #[trigger] after[i], event)
}

/// The event was sent to every subscriber, once; those whose channels took it stay,
/// in their order, and the others are gone.
pub open spec fn is_broadcast(
    before: Seq<Subscriber>,
    stayed: Seq<Subscriber>,
    gone: Seq<Subscriber>,
    event: InternalEvent,
) -> bool {
    exists|after: Seq<Subscriber>| #[trigger]
        are_sent(before, after, event) && stayed == after.filter(|s: Subscriber| s.heard()) && gone
            == after.filter(|s: Subscriber| !s.heard())
}

/// Sends a clone of an event to every subscriber, in their order. Tells of each
/// whether the channel took the event.
pub fn send_to_subscribers(registry: &mut SubscriberRegistry, event: &InternalEvent) -> (received:
    Vec<bool>)
    ensures
        final(registry).next_id == old(registry).next_id,
        are_sent(old(registry).subscribers@, final(registry).subscribers@, *event),
        received@.len() == final(registry).subscribers@.len(),
        forall|i: int|
            0 <= i < received@.len() ==> #[trigger] received@[i]
                == final(registry).subscribers@[i].heard(),
        old(registry).is_valid() ==> final(registry).is_valid(),
{
    let ghost before = registry.subscribers@;
    let mut received: Vec<bool> = Vec::new();
    let count: usize = registry.subscribers.len();
    for i in 0..count
        invariant
            registry.next_id == old(registry).next_id,
            before == old(registry).subscribers@,
            count == before.len(),
            registry.subscribers@.len() == before.len(),
            received@.len() == i,
            forall|j: int|
                0 <= j < i ==> is_sent(before[j], #[trigger] registry.subscribers@[j], *event),
            forall|j: int|
                0 <= j < i ==> #[trigger] received@[j] == registry.subscribers@[j].heard(),
            forall|j: int|
                i <= j < before.len() ==> #[trigger] registry.subscribers@[j] == before[j],
    {
        let sent = registry.subscribers[i].sender.send(event.clone());
        received.push(sent.is_ok());
        let ghost grown = before[i as int].sender.log().push((*event, sent is Ok));
        assert(registry.subscribers@[i as int].sender.log() == grown);
    }
    received
}

/// Sends a clone of an event to every subscriber, and gives those who cannot
/// receive any more, who are subscribers no longer. Who that is depends on the
/// receivers.
pub fn broadcast_to_subscribers(
    registry: &mut SubscriberRegistry,
    internal_event: InternalEvent,
) -> (gone: Vec<Subscriber>)
    ensures
        final(registry).next_id == old(registry).next_id,
        is_broadcast(
            old(registry).subscribers@,
            final(registry).subscribers@,
            gone@,
            internal_event,
        ),
        old(registry).is_valid() ==> final(registry).is_valid(),
{
    let received = send_to_subscribers(registry, &internal_event);
    proof {
        let after = registry.subscribers@;
        kept_are_picked(after, received@, |s: Subscriber| s.heard());
        kept_are_picked(after, turned(received@), |s: Subscriber| !s.heard());
    }
    retain_marked(registry, &received)
}

/// A broadcast hands its event to every subscriber, once: each of them is among those
/// who stay or among those who are gone, with an account that has grown by the event.
/// Who stays has received it, and who is gone has not.
pub proof fn everyone_is_sent_the_event(
    before: Seq<Subscriber>,
    stayed: Seq<Subscriber>,
    gone: Seq<Subscriber>,
    event: InternalEvent,
    i: int,
)
    requires
        is_broadcast(before, stayed, gone, event),
        0 <= i < before.len(),
    ensures
        exists|s: Subscriber| #[trigger]
            is_sent(before[i], s, event) && if s.heard() {
                stayed.contains(s)
            } else {
                gone.contains(s)
            },
        stayed.len() + gone.len() == before.len(),
{
    broadcast use vstd::seq_lib::group_filter_ensures;

    let after = choose|after: Seq<Subscriber>| #[trigger]
        are_sent(before, after, event) && stayed == after.filter(|s: Subscriber| s.heard()) && gone
            == after.filter(|s: Subscriber| !s.heard());
    assert(is_sent(before[i], after[i], event));
    assert(after.contains(after[i]));
    picked_and_left_are_all(after);
}

proof fn picked_and_left_are_all(all: Seq<Subscriber>)
    ensures
        all.filter(|s: Subscriber| s.heard()).len() + all.filter(|s: Subscriber| !s.heard()).len()
            == all.len(),
    decreases all.len(),
{
    reveal(Seq::filter);
    if all.len() > 0 {
        picked_and_left_are_all(all.drop_last());
    }
}

/// The broadcasts of events, one after the other: `registries` are the subscribers
/// before the first and after each.
pub open spec fn are_broadcasts(
    registries: Seq<Seq<Subscriber>>,
    gone: Seq<Seq<Subscriber>>,
    events: Seq<InternalEvent>,
) -> bool {
    &&& registries.len() == events.len() + 1
    &&& gone.len() == events.len()
    &&& forall|k: int|
        0 <= k < events.len() ==> is_broadcast(
            registries[k],
            registries[k + 1],
            gone[k],
            #[trigger] events[k],
        )
}

/// Events as an account shows them that all were taken.
pub open spec fn taken(events: Seq<InternalEvent>) -> Seq<(InternalEvent, bool)> {
    events.map_values(|e: InternalEvent| (e, true))
}

/// Who is still subscribed after a series of broadcasts was subscribed before it, and
/// has received every event of it, once, in the order of the broadcasts, and no other.
pub proof fn subscriber_has_every_event(
    registries: Seq<Seq<Subscriber>>,
    gone: Seq<Seq<Subscriber>>,
    events: Seq<InternalEvent>,
    subscriber: Subscriber,
)
    requires
        are_broadcasts(registries, gone, events),
        registries.last().contains(subscriber),
    ensures
        exists|b: Subscriber| #[trigger]
            registries[0].contains(b) && b.id == subscriber.id && b.sender.channel()
                == subscriber.sender.channel() && subscriber.sender.log() == b.sender.log() + taken(
                events,
            ),
    decreases events.len(),
{
    if events.len() == 0 {
        assert(subscriber.sender.log() =~= subscriber.sender.log() + taken(events));
    } else {
        let n = events.len() - 1;
        assert(is_broadcast(registries[n], registries[n + 1], gone[n], events[n]));
        let m = who_stays_was_there(
            registries[n],
            registries[n + 1],
            gone[n],
            events[n],
            subscriber,
        );
        let earlier = registries.drop_last();
        assert forall|k: int| 0 <= k < n implies is_broadcast(
            earlier[k],
            earlier[k + 1],
            gone.drop_last()[k],
            #[trigger] events.drop_last()[k],
        ) by {
            assert(events.drop_last()[k] == events[k]);
        }
        subscriber_has_every_event(earlier, gone.drop_last(), events.drop_last(), m);
        let b = choose|b: Subscriber| #[trigger]
            earlier[0].contains(b) && b.id == m.id && b.sender.channel() == m.sender.channel()
                && m.sender.log() == b.sender.log() + taken(events.drop_last());
        assert(registries[0].contains(b));
        assert(subscriber.sender.log() =~= b.sender.log() + taken(events));
    }
}

proof fn who_stays_was_there(
    before: Seq<Subscriber>,
    stayed: Seq<Subscriber>,
    gone: Seq<Subscriber>,
    event: InternalEvent,
    subscriber: Subscriber,
) -> (b: Subscriber)
    requires
        is_broadcast(before, stayed, gone, event),
        stayed.contains(subscriber),
    ensures
        before.contains(b),
        b.id == subscriber.id,
        b.sender.channel() == subscriber.sender.channel(),
        subscriber.sender.log() == b.sender.log().push((event, true)),
{
    let after = choose|after: Seq<Subscriber>| #[trigger]
        are_sent(before, after, event) && stayed == after.filter(|s: Subscriber| s.heard()) && gone
            == after.filter(|s: Subscriber| !s.heard());
    let heard = |s: Subscriber| s.heard();
    let at = choose|at: int| 0 <= at < stayed.len() && stayed[at] == subscriber;
    after.lemma_filter_pred(heard, at);
    after.lemma_filter_contains_rev(heard, subscriber);
    let i = choose|i: int| 0 <= i < after.len() && after[i] == subscriber;
    assert(is_sent(before[i], after[i], event));
    before[i]
}

/// No two subscribers of a registry have the same number.
pub proof fn subscriber_ids_are_unique(registry: SubscriberRegistry, i: int, j: int)
    requires
        registry.is_valid(),
        0 <= i < registry.subscribers@.len(),
        0 <= j < registry.subscribers@.len(),
        registry.subscribers@[i].id == registry.subscribers@[j].id,
    ensures
        i == j,
{
}

/// After a subscriber is removed nobody has its number, and everybody else is
/// still there.
pub proof fn removed_subscriber_is_gone(subscribers: Seq<Subscriber>, id: usize)
    ensures
        forall|i: int|
            0 <= i < others(subscribers, id).len() ==> (#[trigger] others(subscribers, id)[i]).id
                != id,
        forall|i: int|
            0 <= i < subscribers.len() && (#[trigger] subscribers[i]).id != id ==> others(
                subscribers,
                id,
            ).contains(subscribers[i]),
{
    broadcast use vstd::seq_lib::group_filter_ensures;

    let other = |s: Subscriber| s.id != id;
    assert forall|i: int| 0 <= i < others(subscribers, id).len() implies (#[trigger] others(
        subscribers,
        id,
    )[i]).id != id by {
        assert(other(subscribers.filter(other)[i]));
    }
}

/// To subscribe and then to unsubscribe leaves the subscribers as they were.
pub proof fn unsubscribing_undoes_subscribing(
    registry: SubscriberRegistry,
    newcomer: Subscriber,
)
    requires
        registry.is_valid(),
        newcomer.id == registry.next_id,
    ensures
        others(registry.subscribers@.push(newcomer), newcomer.id) == registry.subscribers@,
{
    reveal(Seq::filter);
    let all = registry.subscribers@.push(newcomer);
    assert(all.drop_last() =~= registry.subscribers@);
    nobody_is_removed(registry.subscribers@, newcomer.id);
}

proof fn nobody_is_removed(subscribers: Seq<Subscriber>, id: usize)
    requires
        forall|i: int| 0 <= i < subscribers.len() ==> (#[trigger] subscribers[i]).id != id,
    ensures
        others(subscribers, id) == subscribers,
    decreases subscribers.len(),
{
    reveal(Seq::filter);
    if subscribers.len() > 0 {
        let init = subscribers.drop_last();
        assert forall|i: int| 0 <= i < init.len() implies (#[trigger] init[i]).id != id by {
            assert(init[i] == subscribers[i]);
        }
        assert(subscribers[subscribers.len() - 1].id != id);
        nobody_is_removed(init, id);
        assert(init.push(subscribers.last()) =~= subscribers);
    }
}

} // verus!
