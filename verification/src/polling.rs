//! Polling: finding out which displays were connected, disconnected, woken or put
//! to sleep since the last look.
use crate::ddcutil::DisplayRef;
use crate::events::{event_keys_are_ordered, DdcutilEvent, DdcutilEventKind};
use crate::json::{json_object, members_of, object_text, Json, JsonMember, JsonValue};
use vstd::prelude::*;
use vstd::string::*;

verus! {

/// What polling knows of a display.
#[derive(Debug, Clone, Copy, PartialEq, Eq, Structural)]
pub struct DisplayState {
    pub display_number: i32,
    pub display_ref: DisplayRef,
    pub awake: bool,
}

/// The displays that a look found, each under the Base64 text of its EDID.
pub type States = Seq<(Seq<char>, DisplayState)>;

/// There is a display with the EDID.
pub open spec fn has_edid(states: States, edid: Seq<char>) -> bool {
    exists|i: int| 0 <= i < states.len() && (#[trigger] states[i]).0 == edid
}

/// The place of the display with the EDID.
pub open spec fn edid_index(states: States, edid: Seq<char>) -> int {
    choose|i: int| 0 <= i < states.len() && (#[trigger] states[i]).0 == edid
}

/// No two displays have the same EDID.
pub open spec fn are_distinct(states: States) -> bool {
    forall|i: int, j: int|
        0 <= i < j < states.len() ==> (#[trigger] states[i]).0 != (#[trigger] states[j]).0
}

/// The state of the display with the EDID.
pub open spec fn state_of(states: States, edid: Seq<char>) -> Option<DisplayState> {
    if has_edid(states, edid) {
        Some(states[edid_index(states, edid)].1)
    } else {
        None
    }
}

/// The displays with one more: a display with the same EDID gives way to it.
pub open spec fn recorded(states: States, edid: Seq<char>, state: DisplayState) -> States {
    if has_edid(states, edid) {
        states.update(edid_index(states, edid), (edid, state))
    } else {
        states.push((edid, state))
    }
}

/// Where no EDID occurs twice, the place of a display is the place of its EDID.
pub(crate) proof fn edid_index_is(states: States, i: int)
    requires
        are_distinct(states),
        0 <= i < states.len(),
    ensures
        has_edid(states, states[i].0),
        edid_index(states, states[i].0) == i,
{
    let k = edid_index(states, states[i].0);
    assert(has_edid(states, states[i].0));
    assert(states[k].0 == states[i].0);
}

/// After a display is recorded it is known by its EDID, every other display is
/// known as before, and no EDID occurs twice.
pub proof fn recording_changes_one_display(
    states: States,
    edid: Seq<char>,
    state: DisplayState,
    other: Seq<char>,
)
    requires
        are_distinct(states),
    ensures
        are_distinct(recorded(states, edid, state)),
        state_of(recorded(states, edid, state), edid) == Some(state),
        other != edid ==> state_of(recorded(states, edid, state), other) == state_of(states, other),
{
    let after = recorded(states, edid, state);
    let at = if has_edid(states, edid) {
        edid_index(states, edid)
    } else {
        states.len() as int
    };
    assert(after[at] == (edid, state));
    if has_edid(states, edid) {
        assert(states[at].0 == edid);
    } else {
        assert(forall|i: int| 0 <= i < states.len() ==> (#[trigger] states[i]).0 != edid);
    }
    assert forall|i: int, j: int| 0 <= i < j < after.len() implies (#[trigger] after[i]).0 != (
    #[trigger] after[j]).0 by {
        if i != at {
            assert(after[i] == states[i]);
        }
        if j != at {
            assert(after[j] == states[j]);
        }
    }
    edid_index_is(after, at);
    if other != edid {
        if has_edid(states, other) {
            let k = edid_index(states, other);
            assert(states[k].0 == other);
            assert(after[k] == states[k]);
            edid_index_is(after, k);
        } else if has_edid(after, other) {
            let k = edid_index(after, other);
            assert(after[k].0 == other);
            assert(after[k] == states[k]);
        }
    }
}

/// The displays that a look found.
pub struct StateTable {
    entries: Vec<StateEntry>,
}

struct StateEntry {
    edid: String,
    state: DisplayState,
}

impl View for StateTable {
    type V = States;

    closed spec fn view(&self) -> States {
        self.entries@.map_values(|e: StateEntry| (e.edid@, e.state))
    }
}

impl StateTable {
    /// A table without displays.
    pub fn new() -> (res: StateTable)
        ensures
            res@ == Seq::<(Seq<char>, DisplayState)>::empty(),
    {
        let res = StateTable { entries: Vec::new() };
        assert(res@ =~= Seq::empty());
        res
    }

    /// The number of displays.
    pub fn len(&self) -> (res: usize)
        ensures
            res == self@.len(),
    {
        self.entries.len()
    }

    fn position(&self, edid: &String) -> (res: Option<usize>)
        ensures
            match res {
                Some(i) => i < self@.len() && self@[i as int].0 == edid@,
                None => !has_edid(self@, edid@),
            },
    {
        for i in 0..self.entries.len()
            invariant
                forall|j: int| 0 <= j < i ==> (#[trigger] self@[j]).0 != edid@,
        {
            assert(self@[i as int].0 == self.entries@[i as int].edid@);
            if self.entries[i].edid == *edid {
                return Some(i);
            }
        }
        None
    }

    /// Looks up a display by its EDID.
    pub fn get(&self, edid: &String) -> (res: Option<DisplayState>)
        requires
            are_distinct(self@),
        ensures
            res == state_of(self@, edid@),
    {
        match self.position(edid) {
            Some(i) => {
                proof {
                    edid_index_is(self@, i as int);
                }
                Some(self.entries[i].state)
            },
            None => None,
        }
    }

    /// Records a display.
    pub fn insert(&mut self, edid: String, state: DisplayState)
        requires
            are_distinct(old(self)@),
        ensures
            final(self)@ == recorded(old(self)@, edid@, state),
            are_distinct(final(self)@),
    {
        proof {
            recording_changes_one_display(self@, edid@, state, edid@);
        }
        match self.position(&edid) {
            Some(i) => {
                proof {
                    edid_index_is(self@, i as int);
                }
                let ghost before = self@;
                self.entries.set(i, StateEntry { edid, state });
                assert(self@ =~= before.update(i as int, (edid@, state)));
            },
            None => {
                let ghost before = self@;
                self.entries.push(StateEntry { edid, state });
                assert(self@ =~= before.push((edid@, state)));
            },
        }
    }
}

/// Some display of the first look is not in the second.
pub open spec fn has_more(states: States, others: States) -> bool {
    exists|i: int| 0 <= i < states.len() && !has_edid(others, (#[trigger] states[i]).0)
}

/// The displays that are connected are not the same as before.
pub open spec fn connection_changed(current: States, previous: States) -> bool {
    has_more(current, previous) || has_more(previous, current)
}

/// The event that tells of displays that were connected or else disconnected.
pub open spec fn connection_event(connected: bool) -> (DdcutilEventKind, Seq<char>) {
    let cause = if connected {
        DdcutilEventKind::Connected
    } else {
        DdcutilEventKind::Disconnected
    };
    (
        DdcutilEventKind::ConnectedDisplaysChanged,
        json_object(seq![("event_type"@, Json::Text(cause.name())), ("flags"@, Json::Number(0))]),
    )
}

/// The event that tells of a display that was woken or put to sleep.
pub open spec fn dpms_event(edid: Seq<char>, state: DisplayState) -> (DdcutilEventKind, Seq<char>) {
    (
        if state.awake {
            DdcutilEventKind::DpmsAwake
        } else {
            DdcutilEventKind::DpmsAsleep
        },
        json_object(
            seq![
                ("awake"@, Json::Bool(state.awake)),
                ("display_number"@, Json::Number(state.display_number as int)),
                ("edid_base64"@, Json::Text(edid)),
                ("flags"@, Json::Number(0)),
            ],
        ),
    )
}

/// The display was there before, and was woken or put to sleep since.
pub open spec fn dpms_changed(edid: Seq<char>, state: DisplayState, previous: States) -> bool {
    state_of(previous, edid) matches Some(before) && before.awake != state.awake
}

/// One event for each display that was woken or put to sleep.
pub open spec fn dpms_events(current: States, previous: States) -> Seq<
    (DdcutilEventKind, Seq<char>),
>
    decreases current.len(),
{
    if current.len() == 0 {
        Seq::empty()
    } else {
        let before = dpms_events(current.drop_last(), previous);
        let (edid, state) = current.last();
        if dpms_changed(edid, state, previous) {
            before.push(dpms_event(edid, state))
        } else {
            before
        }
    }
}

/// The events that a look calls for: one if the connected displays changed, and
/// one for each display that was woken or put to sleep. The first look calls for
/// none if it only sets the scene.
pub open spec fn poll_events(current: States, previous: States, initializing: bool) -> Seq<
    (DdcutilEventKind, Seq<char>),
> {
    if initializing {
        Seq::empty()
    } else if connection_changed(current, previous) {
        seq![connection_event(has_more(current, previous))] + dpms_events(current, previous)
    } else {
        dpms_events(current, previous)
    }
}

/// What each event says.
pub open spec fn event_models(events: Seq<DdcutilEvent>) -> Seq<(DdcutilEventKind, Seq<char>)> {
    events.map_values(|e: DdcutilEvent| e@)
}

fn tells_of_more(states: &StateTable, others: &StateTable) -> (res: bool)
    ensures
        res == has_more(states@, others@),
{
    for i in 0..states.entries.len()
        invariant
            forall|j: int| 0 <= j < i ==> has_edid(others@, (#[trigger] states@[j]).0),
    {
        assert(states@[i as int].0 == states.entries@[i as int].edid@);
        match others.position(&states.entries[i].edid) {
            Some(k) => {
                assert(others@[k as int].0 == states@[i as int].0);
            },
            None => return true,
        }
    }
    false
}

/// Builds the event that tells of displays that were connected or disconnected.
pub fn build_connection_event(connected: bool) -> (res: DdcutilEvent)
    ensures
        res@ == connection_event(connected),
{
    let event_type = if connected {
        DdcutilEventKind::Connected.as_str()
    } else {
        DdcutilEventKind::Disconnected.as_str()
    };
    let members = vec![
        JsonMember { key: "event_type", value: JsonValue::Text(event_type.to_owned()) },
        JsonMember { key: "flags", value: JsonValue::Number(0) },
    ];
    proof {
        event_keys_are_ordered();
        assert(members_of(members@) =~= seq![
            ("event_type"@, Json::Text(event_type@)),
            ("flags"@, Json::Number(0)),
        ]);
    }
    DdcutilEvent {
        kind: DdcutilEventKind::ConnectedDisplaysChanged,
        data: object_text(&members),
    }
}

/// Builds the event that tells of a display that was woken or put to sleep.
pub fn build_dpms_change_event(edid: &String, state: DisplayState) -> (res: DdcutilEvent)
    ensures
        res@ == dpms_event(edid@, state),
{
    let kind = if state.awake {
        DdcutilEventKind::DpmsAwake
    } else {
        DdcutilEventKind::DpmsAsleep
    };
    let members = vec![
        JsonMember { key: "awake", value: JsonValue::Bool(state.awake) },
        JsonMember { key: "display_number", value: JsonValue::Number(state.display_number as i64) },
        JsonMember { key: "edid_base64", value: JsonValue::Text(edid.clone()) },
        JsonMember { key: "flags", value: JsonValue::Number(0) },
    ];
    proof {
        event_keys_are_ordered();
        assert(members_of(members@) =~= seq![
            ("awake"@, Json::Bool(state.awake)),
            ("display_number"@, Json::Number(state.display_number as int)),
            ("edid_base64"@, Json::Text(edid@)),
            ("flags"@, Json::Number(0)),
        ]);
    }
    DdcutilEvent { kind, data: object_text(&members) }
}

/// Compares a look with the one before: tells whether the connected displays
/// changed, and gives the events that are to be sent.
pub fn compare_states(
    current: &StateTable,
    previous: &StateTable,
    initializing: bool,
) -> (res: (bool, Vec<DdcutilEvent>))
    requires
        are_distinct(current@),
        are_distinct(previous@),
    ensures
        res.0 == connection_changed(current@, previous@),
        event_models(res.1@) == poll_events(current@, previous@, initializing),
{
    let some_newly_detected = tells_of_more(current, previous);
    let some_lost = tells_of_more(previous, current);
    let connection_change = some_newly_detected || some_lost;
    let mut events: Vec<DdcutilEvent> = Vec::new();
    if initializing {
        assert(event_models(events@) =~= Seq::empty());
        return (connection_change, events);
    }
    let ghost mut first: Seq<(DdcutilEventKind, Seq<char>)> = Seq::empty();
    if connection_change {
        events.push(build_connection_event(some_newly_detected));
        proof {
            first = seq![connection_event(has_more(current@, previous@))];
        }
    }
    assert(event_models(events@) =~= first);
    for i in 0..current.entries.len()
        invariant
            are_distinct(previous@),
            event_models(events@) =~= first + dpms_events(current@.take(i as int), previous@),
    {
        let entry = &current.entries[i];
        assert(current@[i as int] == (entry.edid@, entry.state));
        assert(current@.take(i + 1).drop_last() =~= current@.take(i as int));
        assert(current@.take(i + 1).last() == current@[i as int]);
        let ghost so_far = events@;
        match previous.get(&entry.edid) {
            Some(before) => {
                if before.awake != entry.state.awake {
                    events.push(build_dpms_change_event(&entry.edid, entry.state));
                    assert(event_models(events@) =~= event_models(so_far).push(
                        dpms_event(entry.edid@, entry.state),
                    ));
                }
            },
            None => {},
        }
    }
    assert(current@.take(current@.len() as int) =~= current@);
    assert(first + dpms_events(current@, previous@) =~= poll_events(current@, previous@, false));
    (connection_change, events)
}

/// A look that finds the displays as they were calls for no event.
pub proof fn unchanged_displays_are_silent(current: States, previous: States, initializing: bool)
    requires
        are_distinct(current),
        are_distinct(previous),
        forall|edid: Seq<char>| #[trigger]
            has_edid(current, edid) == has_edid(previous, edid) && (has_edid(current, edid)
                ==> state_of(current, edid)->0.awake == state_of(previous, edid)->0.awake),
    ensures
        !connection_changed(current, previous),
        poll_events(current, previous, initializing) == Seq::<(DdcutilEventKind, Seq<char>)>::empty(),
{
    assert forall|i: int| 0 <= i < current.len() implies has_edid(
        previous,
        (#[trigger] current[i]).0,
    ) by {
        assert(has_edid(current, current[i].0));
    }
    assert forall|i: int| 0 <= i < previous.len() implies has_edid(
        current,
        (#[trigger] previous[i]).0,
    ) by {
        assert(has_edid(previous, previous[i].0));
    }
    assert forall|i: int| 0 <= i < current.len() implies !dpms_changed(
        (#[trigger] current[i]).0,
        current[i].1,
        previous,
    ) by {
        edid_index_is(current, i);
        assert(has_edid(current, current[i].0));
    }
    quiet_displays(current, previous);
}

proof fn quiet_displays(current: States, previous: States)
    requires
        forall|i: int|
            0 <= i < current.len() ==> !dpms_changed(
                (#[trigger] current[i]).0,
                current[i].1,
                previous,
            ),
    ensures
        dpms_events(current, previous) == Seq::<(DdcutilEventKind, Seq<char>)>::empty(),
    decreases current.len(),
{
    if current.len() > 0 {
        assert forall|i: int| 0 <= i < current.drop_last().len() implies !dpms_changed(
            (#[trigger] current.drop_last()[i]).0,
            current.drop_last()[i].1,
            previous,
        ) by {
            assert(current.drop_last()[i] == current[i]);
        }
        assert(current[current.len() - 1] == current.last());
        quiet_displays(current.drop_last(), previous);
    }
}

/// The event is that of a display which was woken or put to sleep.
pub open spec fn is_dpms_change(
    event: (DdcutilEventKind, Seq<char>),
    current: States,
    previous: States,
) -> bool {
    exists|i: int|
        0 <= i < current.len() && dpms_changed((#[trigger] current[i]).0, current[i].1, previous)
            && event == dpms_event(current[i].0, current[i].1)
}

/// A display that was there before and was woken or put to sleep since has its
/// event, and each such event is about such a display.
pub proof fn dpms_events_tell_the_changes(current: States, previous: States)
    ensures
        forall|i: int|
            0 <= i < current.len() && dpms_changed(
                (#[trigger] current[i]).0,
                current[i].1,
                previous,
            ) ==> dpms_events(current, previous).contains(dpms_event(current[i].0, current[i].1)),
        forall|k: int|
            0 <= k < dpms_events(current, previous).len() ==> is_dpms_change(
                #[trigger] dpms_events(current, previous)[k],
                current,
                previous,
            ),
    decreases current.len(),
{
    if current.len() > 0 {
        let init = current.drop_last();
        dpms_events_tell_the_changes(init, previous);
        let events = dpms_events(current, previous);
        let before = dpms_events(init, previous);
        assert forall|i: int|
            0 <= i < current.len() && dpms_changed(
                (#[trigger] current[i]).0,
                current[i].1,
                previous,
            ) implies events.contains(dpms_event(current[i].0, current[i].1)) by {
            if i < init.len() {
                assert(init[i] == current[i]);
                let k = choose|k: int|
                    0 <= k < before.len() && before[k] == dpms_event(init[i].0, init[i].1);
                assert(events[k] == before[k]);
            } else {
                assert(events[before.len() as int] == dpms_event(current[i].0, current[i].1));
            }
        }
        assert forall|k: int| 0 <= k < events.len() implies is_dpms_change(
            #[trigger] events[k],
            current,
            previous,
        ) by {
            if k < before.len() {
                assert(events[k] == before[k]);
                let i = choose|i: int|
                    0 <= i < init.len() && dpms_changed(
                        (#[trigger] init[i]).0,
                        init[i].1,
                        previous,
                    ) && before[k] == dpms_event(init[i].0, init[i].1);
                assert(current[i] == init[i]);
            } else {
                assert(current[current.len() - 1] == current.last());
            }
        }
    }
}

} // verus!
