//! What the subscribers get: who is sent an event, who stays subscribed, and in which
//! order.
use crate::events::InternalEvent;
use crate::gathering::are_places;
use crate::subscribers::{are_sent, is_broadcast, is_newcomer, is_sent, kept, others, Subscriber};
use crossbeam_channel::Sender;
use vstd::prelude::*;

verus! {

/// The picked ones are those at these places, in their order.
pub open spec fn stand_at(picked: Seq<Subscriber>, all: Seq<Subscriber>, places: Seq<int>) -> bool {
    &&& picked.len() == places.len()
    &&& are_places(places, all.len())
    &&& forall|v: int| 0 <= v < places.len() ==> #[trigger] picked[v] == all[places[v]]
}

/// The picked ones are those at these places, which are the marked places.
pub open spec fn are_the_marked(
    picked: Seq<Subscriber>,
    all: Seq<Subscriber>,
    marks: Seq<bool>,
    places: Seq<int>,
) -> bool {
    &&& stand_at(picked, all, places)
    &&& forall|i: int| 0 <= i < all.len() ==> (#[trigger] marks[i] <==> places.contains(i))
}

proof fn kept_stand_at_their_places(all: Seq<Subscriber>, marks: Seq<bool>) -> (places: Seq<int>)
    ensures
        are_the_marked(kept(all, marks), all, marks, places),
    decreases all.len(),
{
    if all.len() == 0 {
        Seq::empty()
    } else {
        let init = all.drop_last();
        let end = all.len() - 1;
        let before = kept_stand_at_their_places(init, marks);
        let places = if marks[end] {
            before.push(end)
        } else {
            before
        };
        let picked = kept(all, marks);
        assert forall|v: int| 0 <= v < places.len() implies #[trigger] picked[v]
            == all[places[v]] by {
            if v < before.len() {
                assert(picked[v] == kept(init, marks)[v]);
                assert(places[v] == before[v]);
            }
        }
        assert forall|v: int| 0 <= v < places.len() implies 0 <= #[trigger] places[v]
            < all.len() by {
            if v < before.len() {
                assert(places[v] == before[v]);
            }
        }
        assert forall|v: int, w: int| 0 <= v < w < places.len() implies #[trigger] places[v]
            < #[trigger] places[w] by {
            assert(places[v] == before[v]);
            if w < before.len() {
                assert(places[w] == before[w]);
            }
        }
        assert forall|i: int| 0 <= i < all.len() implies (#[trigger] marks[i] <==> places.contains(
            i,
        )) by {
            if i < end {
                if marks[i] {
                    let v = choose|v: int| 0 <= v < before.len() && before[v] == i;
                    assert(places[v] == i);
                }
                if places.contains(i) {
                    let v = choose|v: int| 0 <= v < places.len() && places[v] == i;
                    assert(before[v] == i);
                }
            } else {
                if marks[end] {
                    assert(places[before.len() as int] == end);
                }
                if places.contains(end) {
                    let v = choose|v: int| 0 <= v < places.len() && places[v] == end;
                    if v < before.len() {
                        assert(before[v] < init.len());
                    }
                }
            }
        }
        places
    }
}

/// Of subscribers that are marked, exactly the marked stay, once each and in their
/// order.
pub proof fn marked_stay_in_their_order(all: Seq<Subscriber>, marks: Seq<bool>)
    ensures
        exists|places: Seq<int>| #[trigger] are_the_marked(kept(all, marks), all, marks, places),
{
    let places = kept_stand_at_their_places(all, marks);
}

proof fn filtered_are_kept(
    all: Seq<Subscriber>,
    marks: Seq<bool>,
    pick: spec_fn(Subscriber) -> bool,
)
    requires
        forall|i: int| 0 <= i < all.len() ==> #[trigger] marks[i] == pick(all[i]),
    ensures
        kept(all, marks) == all.filter(pick),
    decreases all.len(),
{
    reveal(Seq::filter);
    if all.len() > 0 {
        let init = all.drop_last();
        assert forall|i: int| 0 <= i < init.len() implies #[trigger] marks[i] == pick(init[i]) by {
            assert(init[i] == all[i]);
        }
        filtered_are_kept(init, marks, pick);
        assert(marks[all.len() - 1] == pick(all[all.len() - 1]));
    }
}

/// These are all who have another number, in their order.
pub open spec fn have_other_numbers(
    rest: Seq<Subscriber>,
    all: Seq<Subscriber>,
    id: usize,
    places: Seq<int>,
) -> bool {
    &&& stand_at(rest, all, places)
    &&& forall|i: int|
        0 <= i < all.len() ==> ((#[trigger] all[i]).id != id <==> places.contains(i))
}

/// To remove a number removes those who have it and nobody else, and the others keep
/// their order.
pub proof fn removal_leaves_the_others(all: Seq<Subscriber>, id: usize)
    ensures
        exists|places: Seq<int>| #[trigger]
            have_other_numbers(others(all, id), all, id, places),
{
    let marks = Seq::new(all.len(), |i: int| all[i].id != id);
    filtered_are_kept(all, marks, |s: Subscriber| s.id != id);
    let places = kept_stand_at_their_places(all, marks);
    assert forall|i: int| 0 <= i < all.len() implies ((#[trigger] all[i]).id != id
        <==> places.contains(i)) by {
        assert(marks[i] == (all[i].id != id));
    }
    assert(have_other_numbers(others(all, id), all, id, places));
}

/// The subscriber is the same one, on the same channel, which was handed this event, and
/// nothing else, since; it took the event, or did not.
pub open spec fn was_handed(
    before: Subscriber,
    after: Subscriber,
    event: InternalEvent,
    took: bool,
) -> bool {
    &&& after.id == before.id
    &&& after.sender.channel() == before.sender.channel()
    &&& after.sender.log().len() == before.sender.log().len() + 1
    &&& after.sender.log().last() == (event, took)
    &&& forall|k: int|
        0 <= k < before.sender.log().len() ==> #[trigger] after.sender.log()[k]
            == before.sender.log()[k]
}

/// Each subscriber was handed the event; those whose channels took it stay, and those
/// whose channels did not are gone, in their order.
pub open spec fn all_were_handed(
    before: Seq<Subscriber>,
    after: Seq<Subscriber>,
    took: Seq<bool>,
    event: InternalEvent,
) -> bool {
    &&& after.len() == before.len() == took.len()
    &&& forall|i: int|
        0 <= i < before.len() ==> was_handed(before[i], #[trigger] after[i], event, took[i])
}

/// The opposite marks.
pub open spec fn opposite(marks: Seq<bool>) -> Seq<bool> {
    Seq::new(marks.len(), |i: int| !marks[i])
}

/// A broadcast hands its event to every subscriber, once. Exactly those whose channels
/// took it stay, in their order, and exactly the others are gone, in theirs.
pub proof fn broadcast_reaches_everyone(
    before: Seq<Subscriber>,
    stayed: Seq<Subscriber>,
    gone: Seq<Subscriber>,
    event: InternalEvent,
)
    requires
        is_broadcast(before, stayed, gone, event),
    ensures
        exists|after: Seq<Subscriber>, took: Seq<bool>|
            {
                &&& #[trigger] all_were_handed(before, after, took, event)
                &&& exists|places: Seq<int>| #[trigger]
                    are_the_marked(stayed, after, took, places)
                &&& exists|places: Seq<int>| #[trigger]
                    are_the_marked(gone, after, opposite(took), places)
            },
{
    let after = choose|after: Seq<Subscriber>| #[trigger]
        are_sent(before, after, event) && stayed == after.filter(|s: Subscriber| s.heard()) && gone
            == after.filter(|s: Subscriber| !s.heard());
    let took = Seq::new(after.len(), |i: int| after[i].heard());
    assert forall|i: int| 0 <= i < before.len() implies was_handed(
        before[i],
        #[trigger] after[i],
        event,
        took[i],
    ) by {
        assert(is_sent(before[i], after[i], event));
        let received = choose|received: bool|
            after[i].sender.log() == #[trigger] before[i].sender.log().push((event, received));
        assert(after[i].sender.log().last() == (event, received));
    }
    filtered_are_kept(after, took, |s: Subscriber| s.heard());
    filtered_are_kept(after, opposite(took), |s: Subscriber| !s.heard());
    let stay = kept_stand_at_their_places(after, took);
    let leave = kept_stand_at_their_places(after, opposite(took));
    assert(all_were_handed(before, after, took, event));
    assert(are_the_marked(stayed, after, took, stay));
    assert(are_the_marked(gone, after, opposite(took), leave));
}

/// Who subscribes has the number, is on the channel that was given, and was handed
/// nothing yet.
pub proof fn newcomer_was_handed_nothing(
    subscriber: Subscriber,
    id: usize,
    channel: Sender<InternalEvent>,
)
    requires
        is_newcomer(subscriber, id, channel),
    ensures
        subscriber.id == id,
        subscriber.sender.channel() == channel,
        subscriber.sender.log().len() == 0,
{
}

} // verus!
