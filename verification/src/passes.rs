//! What a pass of the polling loop comes to, from the look whether it is to end to the
//! sleep: which calls it makes, in which order, and what it tells.
use crate::changes::{
    lacks_some, look_tells_what_changed, recording_puts_one_display, tell_of_turned,
    tells_of_connection,
};
use crate::ddcutil::{display_models, DisplayHandle, DisplayModel, DisplayRef};
use crate::device::{DdcReply, DdcRequest, RawDisplay, VcpBytes};
use crate::edid::base64_text;
use crate::events::DdcutilEventKind;
use crate::poller::{
    delivery, delivery_stage, every_event_is_sent, look, look_at, PollActionModel, PollConfig,
    PollInput, PollPolicy, PollStageModel, PollWait, PollerModel,
};
use crate::polling::{
    are_distinct, edid_index_is, has_edid, poll_events, recorded, DisplayState, States,
};
use vstd::prelude::*;

verus! {

/// A loop, and what it does next.
pub type Pass = (PollerModel, PollActionModel);

/// The loop after what came of its action.
pub open spec fn passes_on(pass: Pass, input: PollInput) -> Pass {
    pass.0.next(input)
}

/// The loop after a reply of libddcutil.
pub open spec fn passes_reply(pass: Pass, reply: DdcReply) -> Pass {
    pass.0.next(PollInput::Ddc { reply })
}

/// The loop calls libddcutil so.
pub open spec fn calls(pass: Pass, request: DdcRequest) -> bool {
    pass.1 matches PollActionModel::Ddc { request: r } && r == request
}

/// The loop sleeps so long, and begins anew after that; what it knows is this look, or
/// that there was none yet.
pub open spec fn rests(pass: Pass, wait: PollWait, known: States, initializing: bool) -> bool {
    let woken = passes_on(pass, PollInput::Done);
    &&& pass.1 == PollActionModel::Sleep { wait }
    &&& woken.1 is CheckShutdown
    &&& is_begun(woken.0, pass.0.policy, known, initializing)
}

/// The loop is at the beginning of a pass, and knows this look.
pub open spec fn is_begun(
    poller: PollerModel,
    policy: PollPolicy,
    known: States,
    initializing: bool,
) -> bool {
    poller == PollerModel {
        policy,
        previous: known,
        initializing,
        stage: PollStageModel::CheckingShutdown,
    }
}

/// The loop after it was not told to end and has read its settings.
pub open spec fn has_read(poller: PollerModel, config: PollConfig) -> Pass {
    passes_on(
        poller.next(PollInput::Shutdown { requested: false }),
        PollInput::Config { config },
    )
}

/// A loop first sees whether it is to end, and ends if it is; if not it reads its
/// settings. The loop of the service ends, too, where the interval is zero, and gives
/// the lock back first.
pub proof fn pass_begins_with_its_settings(
    policy: PollPolicy,
    known: States,
    initializing: bool,
    poller: PollerModel,
    config: PollConfig,
)
    requires
        is_begun(poller, policy, known, initializing),
    ensures
        poller.next(PollInput::Shutdown { requested: true }).1 is Stop,
        poller.next(PollInput::Shutdown { requested: false }).1 is ReadConfig,
        policy is Service && config.interval == 0 ==> has_read(poller, config).1 is Unlock
            && passes_on(has_read(poller, config), PollInput::Done).1 is Stop,
{
}

/// Without events the loop does nothing for five seconds; the lock is given back first,
/// and the loop of the library drops a call for a poll.
pub proof fn pass_without_events_is_idle(
    policy: PollPolicy,
    known: States,
    initializing: bool,
    poller: PollerModel,
    config: PollConfig,
)
    requires
        is_begun(poller, policy, known, initializing),
        !config.events_enabled,
        policy is Service ==> config.interval > 0,
    ensures
        ({
            let read = has_read(poller, config);
            let unlocked = passes_on(read, PollInput::Done);
            let cleared = passes_on(unlocked, PollInput::Done);
            &&& read.1 is Unlock
            &&& match policy {
                PollPolicy::Service => rests(unlocked, PollWait::Seconds(5), known, initializing),
                PollPolicy::Library => unlocked.1 is ClearNeedPoll && rests(
                    cleared,
                    PollWait::Seconds(5),
                    known,
                    initializing,
                ),
            }
        }),
{
}

/// The loop at the point where it lists the displays. The loop of the service holds the
/// lock, and has displays detected again only if its settings say so; the loop of the
/// library gives the lock back, drops a call for a poll, and always does.
pub open spec fn at_list(poller: PollerModel, config: PollConfig) -> Pass {
    let read = has_read(poller, config);
    match poller.policy {
        PollPolicy::Service => if config.do_redetect {
            passes_reply(read, DdcReply::Status { status: 0 })
        } else {
            read
        },
        PollPolicy::Library => passes_reply(
            passes_on(passes_on(read, PollInput::Done), PollInput::Done),
            DdcReply::Status { status: 0 },
        ),
    }
}

/// The pass is given up: the service gives the lock back, and the loop sleeps until the
/// next pass, which knows what this one knew.
pub open spec fn gives_up(
    pass: Pass,
    policy: PollPolicy,
    config: PollConfig,
    known: States,
    initializing: bool,
) -> bool {
    let wait = PollWait::Seconds(config.interval as u64);
    match policy {
        PollPolicy::Service => pass.1 is Unlock && rests(
            passes_on(pass, PollInput::Done),
            wait,
            known,
            initializing,
        ),
        PollPolicy::Library => rests(pass, wait, known, initializing),
    }
}

/// With events enabled the displays are detected again, where the service is told to and
/// always for the library, and listed, without those that do not work. If either fails
/// the pass is given up.
pub proof fn pass_lists_the_displays(
    policy: PollPolicy,
    known: States,
    initializing: bool,
    poller: PollerModel,
    config: PollConfig,
    status: i32,
    displays: Option<Vec<RawDisplay>>,
)
    requires
        is_begun(poller, policy, known, initializing),
        config.events_enabled,
        policy is Service ==> config.interval > 0,
    ensures
        ({
            let read = has_read(poller, config);
            let unlocked = passes_on(read, PollInput::Done);
            let cleared = passes_on(unlocked, PollInput::Done);
            let failed = DdcReply::Status { status };
            &&& policy is Service && config.do_redetect ==> calls(read, DdcRequest::Redetect) && (
            status != 0 ==> gives_up(
                passes_reply(read, failed),
                policy,
                config,
                known,
                initializing,
            ))
            &&& policy is Library ==> {
                &&& read.1 is Unlock
                &&& unlocked.1 is ClearNeedPoll
                &&& calls(cleared, DdcRequest::Redetect)
                &&& status != 0 ==> gives_up(
                    passes_reply(cleared, failed),
                    policy,
                    config,
                    known,
                    initializing,
                )
            }
            &&& calls(
                at_list(poller, config),
                DdcRequest::ListDisplays { include_invalid: false },
            )
            &&& status != 0 || displays is None ==> gives_up(
                passes_reply(at_list(poller, config), DdcReply::Displays { status, displays }),
                policy,
                config,
                known,
                initializing,
            )
        }),
{
}

/// What libddcutil replies when a display is asked for its power mode.
pub struct PowerReplies {
    pub open_status: i32,
    pub ddca_handle: usize,
    pub read_status: i32,
    pub value: VcpBytes,
    pub text_status: i32,
    pub text: Option<Vec<u8>>,
}

/// The display was found awake: it could be opened and its power mode read, which is
/// not zero.
pub open spec fn is_awake(replies: PowerReplies) -> bool {
    replies.open_status == 0 && replies.read_status == 0 && (replies.value.sh != 0
        || replies.value.sl != 0)
}

/// The loop after a display was opened.
pub open spec fn after_opening(pass: Pass, replies: PowerReplies) -> Pass {
    passes_reply(
        pass,
        DdcReply::Opened { status: replies.open_status, ddca_handle: replies.ddca_handle },
    )
}

/// The loop after the power mode of an open display was read.
pub open spec fn after_reading(pass: Pass, replies: PowerReplies) -> Pass {
    passes_reply(
        after_opening(pass, replies),
        DdcReply::Value { status: replies.read_status, value: replies.value },
    )
}

/// The loop at the point where an open display is closed.
pub open spec fn before_closing(pass: Pass, replies: PowerReplies) -> Pass {
    if replies.read_status == 0 {
        passes_reply(
            after_reading(pass, replies),
            DdcReply::Text { status: replies.text_status, text: replies.text },
        )
    } else {
        after_reading(pass, replies)
    }
}

/// The loop after it asked one display.
pub open spec fn after_display(pass: Pass, replies: PowerReplies) -> Pass {
    if replies.open_status == 0 {
        passes_reply(before_closing(pass, replies), DdcReply::Done)
    } else {
        after_opening(pass, replies)
    }
}

/// The loop after it asked so many displays.
pub open spec fn after_displays(pass: Pass, replies: Seq<PowerReplies>, n: nat) -> Pass
    decreases n,
{
    if n == 0 {
        pass
    } else {
        after_display(after_displays(pass, replies, (n - 1) as nat), replies[n - 1])
    }
}

/// The loop asks this display for its power mode: it opens the display, reads feature
/// D6, has the value put in words, and closes the display, whatever the reading gave.
pub open spec fn asks_for_power(pass: Pass, dref: DisplayRef, replies: PowerReplies) -> bool {
    let handle = DisplayHandle { ddca_handle: replies.ddca_handle, dref };
    &&& calls(pass, DdcRequest::OpenDisplay { dref })
    &&& replies.open_status == 0 ==> {
        &&& calls(after_opening(pass, replies), DdcRequest::ReadVcp { handle, code: 0xd6u8 })
        &&& replies.read_status == 0 ==> calls(
            after_reading(pass, replies),
            DdcRequest::FormatVcp { code: 0xd6u8, dref, value: replies.value },
        )
        &&& calls(before_closing(pass, replies), DdcRequest::CloseDisplay { handle })
    }
}

spec fn awake_displays(replies: Seq<PowerReplies>, n: nat) -> Seq<bool> {
    Seq::new(n, |i: int| is_awake(replies[i]))
}

proof fn displays_are_asked(
    poller: PollerModel,
    config: PollConfig,
    displays: Seq<DisplayModel>,
    replies: Seq<PowerReplies>,
    n: nat,
)
    requires
        replies.len() == displays.len(),
        n <= displays.len(),
    ensures
        after_displays(poller.query(config, displays, 0, Seq::empty()), replies, n) == poller.query(
            config,
            displays,
            n as int,
            look(displays, awake_displays(replies, n)),
        ),
        n < displays.len() ==> asks_for_power(
            after_displays(poller.query(config, displays, 0, Seq::empty()), replies, n),
            displays[n as int].display_ref,
            replies[n as int],
        ),
    decreases n,
{
    if n > 0 {
        let m = (n - 1) as nat;
        displays_are_asked(poller, config, displays, replies, m);
        let awake = awake_displays(replies, n);
        assert(awake.drop_last() =~= awake_displays(replies, m));
        assert(awake.last() == is_awake(replies[m as int]));
        one_display_is_asked(
            poller,
            config,
            displays,
            m as int,
            look(displays, awake_displays(replies, m)),
            replies[m as int],
        );
    } else {
        assert(awake_displays(replies, 0) =~= Seq::empty());
        assert(look(displays, awake_displays(replies, 0)) =~= Seq::empty());
    }
    if n < displays.len() {
        one_display_is_asked(
            poller,
            config,
            displays,
            n as int,
            look(displays, awake_displays(replies, n)),
            replies[n as int],
        );
    }
}

proof fn one_display_is_asked(
    poller: PollerModel,
    config: PollConfig,
    displays: Seq<DisplayModel>,
    index: int,
    current: States,
    replies: PowerReplies,
)
    requires
        0 <= index < displays.len(),
    ensures
        after_display(poller.query(config, displays, index, current), replies) == poller.query(
            config,
            displays,
            index + 1,
            look_at(current, displays[index], is_awake(replies)),
        ),
        asks_for_power(
            poller.query(config, displays, index, current),
            displays[index].display_ref,
            replies,
        ),
{
}

/// No later display has the same EDID.
pub open spec fn is_last_with_edid(displays: Seq<RawDisplay>, k: int) -> bool {
    0 <= k < displays.len() && forall|j: int|
        k < j < displays.len() ==> base64_text((#[trigger] displays[j]).edid_bytes@)
            != base64_text(displays[k].edid_bytes@)
}

/// The entry is what was found of the display.
pub open spec fn is_entry_of(
    entry: (Seq<char>, DisplayState),
    raw: RawDisplay,
    replies: PowerReplies,
) -> bool {
    &&& entry.0 == base64_text(raw.edid_bytes@)
    &&& entry.1.display_number == raw.dispno
    &&& entry.1.display_ref == raw.dref
    &&& entry.1.awake == is_awake(replies)
}

/// The look holds an entry for each display; of displays with the same EDID for the last.
#[verifier::opaque]
pub open spec fn holds_entries(
    seen: States,
    displays: Seq<RawDisplay>,
    replies: Seq<PowerReplies>,
) -> bool {
    forall|k: int| #[trigger]
        is_last_with_edid(displays, k) ==> exists|i: int|
            0 <= i < seen.len() && is_entry_of(#[trigger] seen[i], displays[k], replies[k])
}

/// The look holds no other entries.
#[verifier::opaque]
pub open spec fn holds_only_entries(
    seen: States,
    displays: Seq<RawDisplay>,
    replies: Seq<PowerReplies>,
) -> bool {
    forall|i: int|
        0 <= i < seen.len() ==> exists|k: int| #[trigger]
            is_last_with_edid(displays, k) && is_entry_of(
                #[trigger] seen[i],
                displays[k],
                replies[k],
            )
}

/// The entries are in the order of the displays.
pub open spec fn holds_in_order(
    seen: States,
    displays: Seq<RawDisplay>,
    replies: Seq<PowerReplies>,
) -> bool {
    seen.len() == displays.len() && forall|k: int|
        0 <= k < seen.len() ==> is_entry_of(#[trigger] seen[k], displays[k], replies[k])
}

/// No two displays have the same EDID.
pub open spec fn edids_differ(displays: Seq<RawDisplay>) -> bool {
    forall|k: int, j: int|
        0 <= k < j < displays.len() ==> base64_text((#[trigger] displays[j]).edid_bytes@)
            != base64_text((#[trigger] displays[k]).edid_bytes@)
}

/// The look holds an entry for each display, and no other; of displays with the same
/// EDID it holds the last. No EDID occurs twice. Where no two displays have the same
/// EDID, the entries are in the order of the displays.
pub open spec fn shows(
    seen: States,
    displays: Seq<RawDisplay>,
    replies: Seq<PowerReplies>,
) -> bool {
    &&& forall|i: int, j: int|
        0 <= i < j < seen.len() ==> (#[trigger] seen[i]).0 != (#[trigger] seen[j]).0
    &&& holds_entries(seen, displays, replies)
    &&& holds_only_entries(seen, displays, replies)
    &&& edids_differ(displays) ==> holds_in_order(seen, displays, replies)
}

/// The look is the one before with this entry: in the place of the one with the same
/// EDID, or else at the end.
spec fn is_before_with(
    seen: States,
    before: States,
    edid: Seq<char>,
    entry: (Seq<char>, DisplayState),
    at: int,
) -> bool {
    &&& 0 <= at < seen.len()
    &&& before.len() <= seen.len() <= before.len() + 1
    &&& seen.len() == before.len() + 1 ==> at == before.len()
    &&& seen[at] == entry
    &&& entry.0 == edid
    &&& forall|i: int| 0 <= i < before.len() ==> (i == at <==> (#[trigger] before[i]).0 == edid)
    &&& forall|i: int| 0 <= i < before.len() && i != at ==> #[trigger] seen[i] == before[i]
}

proof fn last_displays_have_entries(
    seen: States,
    before: States,
    entry: (Seq<char>, DisplayState),
    at: int,
    earlier: Seq<RawDisplay>,
    raw: RawDisplay,
    replies: Seq<PowerReplies>,
)
    requires
        is_before_with(seen, before, base64_text(raw.edid_bytes@), entry, at),
        is_entry_of(entry, raw, replies[earlier.len() as int]),
        holds_entries(before, earlier, replies),
    ensures
        holds_entries(seen, earlier.push(raw), replies),
{
    reveal(holds_entries);
    let shown = earlier.push(raw);
    let last = earlier.len() as int;
    assert forall|k: int| #[trigger] is_last_with_edid(shown, k) implies exists|i: int|
        0 <= i < seen.len() && is_entry_of(#[trigger] seen[i], shown[k], replies[k]) by {
        if k == last {
            assert(is_entry_of(seen[at], shown[k], replies[k]));
        } else {
            assert(shown[last] == raw);
            assert forall|j: int| k < j < earlier.len() implies base64_text(
                (#[trigger] earlier[j]).edid_bytes@,
            ) != base64_text(earlier[k].edid_bytes@) by {
                assert(earlier[j] == shown[j]);
            }
            assert(is_last_with_edid(earlier, k));
            let i = choose|i: int|
                0 <= i < before.len() && is_entry_of(#[trigger] before[i], earlier[k], replies[k]);
            assert(seen[i] == before[i]);
        }
    }
}

proof fn entries_are_of_last_displays(
    seen: States,
    before: States,
    entry: (Seq<char>, DisplayState),
    at: int,
    earlier: Seq<RawDisplay>,
    raw: RawDisplay,
    replies: Seq<PowerReplies>,
)
    requires
        is_before_with(seen, before, base64_text(raw.edid_bytes@), entry, at),
        is_entry_of(entry, raw, replies[earlier.len() as int]),
        holds_only_entries(before, earlier, replies),
    ensures
        holds_only_entries(seen, earlier.push(raw), replies),
{
    reveal(holds_only_entries);
    let shown = earlier.push(raw);
    let last = earlier.len() as int;
    assert forall|i: int| 0 <= i < seen.len() implies exists|k: int| #[trigger]
        is_last_with_edid(shown, k) && is_entry_of(#[trigger] seen[i], shown[k], replies[k]) by {
        if i == at {
            assert(is_last_with_edid(shown, last));
        } else {
            assert(seen[i] == before[i]);
            let k = choose|k: int| #[trigger]
                is_last_with_edid(earlier, k) && is_entry_of(before[i], earlier[k], replies[k]);
            assert forall|j: int| k < j < shown.len() implies base64_text(
                (#[trigger] shown[j]).edid_bytes@,
            ) != base64_text(shown[k].edid_bytes@) by {
                if j < last {
                    assert(shown[j] == earlier[j]);
                }
            }
            assert(is_last_with_edid(shown, k));
        }
    }
}

proof fn entries_stay_in_order(
    seen: States,
    before: States,
    entry: (Seq<char>, DisplayState),
    at: int,
    earlier: Seq<RawDisplay>,
    raw: RawDisplay,
    replies: Seq<PowerReplies>,
)
    requires
        is_before_with(seen, before, base64_text(raw.edid_bytes@), entry, at),
        is_entry_of(entry, raw, replies[earlier.len() as int]),
        edids_differ(earlier) ==> holds_in_order(before, earlier, replies),
        edids_differ(earlier.push(raw)),
    ensures
        holds_in_order(seen, earlier.push(raw), replies),
{
    let shown = earlier.push(raw);
    let last = earlier.len() as int;
    assert forall|k: int, j: int| 0 <= k < j < earlier.len() implies base64_text(
        (#[trigger] earlier[j]).edid_bytes@,
    ) != base64_text((#[trigger] earlier[k]).edid_bytes@) by {
        assert(earlier[j] == shown[j] && earlier[k] == shown[k]);
    }
    if at < before.len() {
        assert(is_entry_of(before[at], earlier[at], replies[at]));
        assert(before[at].0 == base64_text(raw.edid_bytes@));
        assert(shown[at] == earlier[at] && shown[last] == raw);
    }
    assert forall|k: int| 0 <= k < seen.len() implies is_entry_of(
        #[trigger] seen[k],
        shown[k],
        replies[k],
    ) by {
        if k < last {
            assert(is_entry_of(before[k], earlier[k], replies[k]));
            assert(seen[k] == before[k]);
        }
    }
}

proof fn look_shows_the_displays(displays: Seq<RawDisplay>, replies: Seq<PowerReplies>, n: nat)
    requires
        replies.len() == displays.len(),
        n <= displays.len(),
    ensures
        shows(
            look(display_models(displays), awake_displays(replies, n)),
            displays.take(n as int),
            replies,
        ),
    decreases n,
{
    let infos = display_models(displays);
    let seen = look(infos, awake_displays(replies, n));
    if n == 0 {
        assert(awake_displays(replies, 0) =~= Seq::empty());
        assert(seen =~= Seq::empty());
        assert(displays.take(0) =~= Seq::empty());
        reveal(holds_entries);
        reveal(holds_only_entries);
    } else {
        let m = (n - 1) as nat;
        let last = m as int;
        look_shows_the_displays(displays, replies, m);
        let before = look(infos, awake_displays(replies, m));
        let raw = displays[last];
        let earlier = displays.take(last);
        let edid = base64_text(raw.edid_bytes@);
        let state = DisplayState {
            display_number: raw.dispno,
            display_ref: raw.dref,
            awake: is_awake(replies[last]),
        };
        assert(seen == recorded(before, edid, state)) by {
            assert(awake_displays(replies, n).drop_last() =~= awake_displays(replies, m));
        }
        assert(are_distinct(before));
        recording_puts_one_display(before, edid, state);
        let at = entry_at(before, edid, state);
        assert(is_before_with(seen, before, edid, (edid, state), at));
        assert(displays.take(n as int) =~= earlier.push(raw));
        last_displays_have_entries(seen, before, (edid, state), at, earlier, raw, replies);
        entries_are_of_last_displays(seen, before, (edid, state), at, earlier, raw, replies);
        if edids_differ(earlier.push(raw)) {
            entries_stay_in_order(seen, before, (edid, state), at, earlier, raw, replies);
        }
        assert forall|i: int, j: int| 0 <= i < j < seen.len() implies (#[trigger] seen[i]).0 != (
        #[trigger] seen[j]).0 by {
            if i < before.len() {
                assert(seen[i].0 == before[i].0);
            }
            if j < before.len() {
                assert(seen[j].0 == before[j].0);
            }
        }
    }
}

proof fn entry_at(states: States, edid: Seq<char>, state: DisplayState) -> (at: int)
    requires
        are_distinct(states),
    ensures
        0 <= at < recorded(states, edid, state).len(),
        recorded(states, edid, state)[at] == (edid, state),
        forall|i: int| 0 <= i < states.len() ==> (i == at <==> (#[trigger] states[i]).0 == edid),
{
    if has_edid(states, edid) {
        let k = choose|k: int| 0 <= k < states.len() && (#[trigger] states[k]).0 == edid;
        edid_index_is(states, k);
        k
    } else {
        states.len() as int
    }
}

/// The events tell what changed between two looks, and nothing else.
pub open spec fn tell_the_changes(
    events: Seq<(DdcutilEventKind, Seq<char>)>,
    seen: States,
    known: States,
) -> bool {
    if lacks_some(seen, known) || lacks_some(known, seen) {
        &&& tells_of_connection(events[0], lacks_some(seen, known))
        &&& exists|places: Seq<int>| #[trigger] tell_of_turned(events, 1, seen, known, places)
    } else {
        exists|places: Seq<int>| #[trigger] tell_of_turned(events, 0, seen, known, places)
    }
}

/// The loop after it has sent so many events.
pub open spec fn after_sends(pass: Pass, n: nat) -> Pass
    decreases n,
{
    if n == 0 {
        pass
    } else {
        passes_on(after_sends(pass, (n - 1) as nat), PollInput::Done)
    }
}

/// The loop sends these events, each once and in their order, and then rests.
pub open spec fn sends_and_rests(
    pass: Pass,
    events: Seq<(DdcutilEventKind, Seq<char>)>,
    wait: PollWait,
    known: States,
) -> bool {
    &&& forall|k: int|
        0 <= k < events.len() ==> (#[trigger] after_sends(pass, k as nat)).1
            == (PollActionModel::Send { event: events[k] })
    &&& rests(after_sends(pass, events.len()), wait, known, false)
}

/// The look ends with this: what was seen is known from now on, the changes are told,
/// unless the service looked for the first time, and the next pass is near if displays
/// came or went.
pub open spec fn ends_the_look(
    pass: Pass,
    policy: PollPolicy,
    config: PollConfig,
    seen: States,
    known: States,
    initializing: bool,
    events: Seq<(DdcutilEventKind, Seq<char>)>,
) -> bool {
    let wait = if lacks_some(seen, known) || lacks_some(known, seen) {
        PollWait::Cascade(config.cascade)
    } else {
        PollWait::Seconds(config.interval as u64)
    };
    &&& if policy is Service && initializing {
        events.len() == 0
    } else {
        tell_the_changes(events, seen, known)
    }
    &&& match policy {
        PollPolicy::Service => pass.1 is Unlock && sends_and_rests(
            passes_on(pass, PollInput::Done),
            events,
            wait,
            seen,
        ),
        PollPolicy::Library => sends_and_rests(pass, events, wait, seen),
    }
}

proof fn deliveries_are_sends(
    poller: PollerModel,
    events: Seq<(DdcutilEventKind, Seq<char>)>,
    wait: PollWait,
    n: nat,
)
    ensures
        after_sends(poller.deliver(events, wait), n) == delivery(poller, events, wait, n),
    decreases n,
{
    if n > 0 {
        deliveries_are_sends(poller, events, wait, (n - 1) as nat);
    }
}

proof fn delivery_rests(
    poller: PollerModel,
    events: Seq<(DdcutilEventKind, Seq<char>)>,
    wait: PollWait,
)
    requires
        !poller.initializing,
    ensures
        sends_and_rests(poller.deliver(events, wait), events, wait, poller.previous),
{
    assert forall|k: int| 0 <= k < events.len() implies (
    #[trigger] after_sends(poller.deliver(events, wait), k as nat)).1 == (PollActionModel::Send {
        event: events[k],
    }) by {
        deliveries_are_sends(poller, events, wait, k as nat);
        every_event_is_sent(poller, events, wait, k as nat);
    }
    deliveries_are_sends(poller, events, wait, events.len());
    delivery_stage(poller, events, wait, events.len());
    assert(events.skip(events.len() as int) =~= Seq::empty());
}

/// A pass with events enabled asks every display of the list for its power mode, in the
/// order of the list; a display that cannot be asked counts as asleep. What it saw is
/// compared with what was known, and the changes are told.
pub proof fn pass_asks_every_display(
    policy: PollPolicy,
    known: States,
    initializing: bool,
    poller: PollerModel,
    config: PollConfig,
    displays: Vec<RawDisplay>,
    replies: Seq<PowerReplies>,
)
    requires
        is_begun(poller, policy, known, initializing),
        forall|i: int, j: int|
            0 <= i < j < known.len() ==> (#[trigger] known[i]).0 != (#[trigger] known[j]).0,
        config.events_enabled,
        policy is Service ==> config.interval > 0,
        replies.len() == displays@.len(),
    ensures
        ({
            let listed = passes_reply(
                at_list(poller, config),
                DdcReply::Displays { status: 0, displays: Some(displays) },
            );
            &&& forall|k: int|
                0 <= k < replies.len() ==> asks_for_power(
                    #[trigger] after_displays(listed, replies, k as nat),
                    displays@[k].dref,
                    replies[k],
                )
            &&& exists|seen: States, events: Seq<(DdcutilEventKind, Seq<char>)>| #[trigger]
                shows(seen, displays@, replies) && #[trigger] ends_the_look(
                    after_displays(listed, replies, replies.len()),
                    policy,
                    config,
                    seen,
                    known,
                    initializing,
                    events,
                )
        }),
{
    let infos = display_models(displays@);
    let at = at_list(poller, config);
    let listed = passes_reply(
        at,
        DdcReply::Displays { status: 0, displays: Some(displays) },
    );
    assert(listed == at.0.query(config, infos, 0, Seq::empty()));
    assert forall|k: int| 0 <= k < replies.len() implies asks_for_power(
        #[trigger] after_displays(listed, replies, k as nat),
        displays@[k].dref,
        replies[k],
    ) by {
        displays_are_asked(at.0, config, infos, replies, k as nat);
    }
    let n = replies.len();
    displays_are_asked(at.0, config, infos, replies, n);
    let seen = look(infos, awake_displays(replies, n));
    look_shows_the_displays(displays@, replies, n);
    assert(displays@.take(n as int) =~= displays@);
    let end = after_displays(listed, replies, n);
    assert(end == at.0.conclude(config, seen));
    look_is_concluded(at.0, policy, known, initializing, config, seen);
}

proof fn look_is_concluded(
    poller: PollerModel,
    policy: PollPolicy,
    known: States,
    initializing: bool,
    config: PollConfig,
    seen: States,
)
    requires
        poller.policy == policy,
        poller.previous == known,
        poller.initializing == initializing,
        forall|i: int, j: int|
            0 <= i < j < known.len() ==> (#[trigger] known[i]).0 != (#[trigger] known[j]).0,
    ensures
        exists|events: Seq<(DdcutilEventKind, Seq<char>)>| #[trigger]
            ends_the_look(
                poller.conclude(config, seen),
                policy,
                config,
                seen,
                known,
                initializing,
                events,
            ),
{
    let end = poller.conclude(config, seen);
    let events = poll_events(seen, known, initializing && policy is Service);
    look_tells_what_changed(seen, known);
    let after = PollerModel {
        previous: seen,
        initializing: false,
        policy,
        stage: PollStageModel::Sleeping,
    };
    let wait = if lacks_some(seen, known) || lacks_some(known, seen) {
        PollWait::Cascade(config.cascade)
    } else {
        PollWait::Seconds(config.interval as u64)
    };
    delivery_rests(after, events, wait);
    match policy {
        PollPolicy::Service => {
            assert(passes_on(end, PollInput::Done) == after.deliver(events, wait));
        },
        PollPolicy::Library => {
            assert(end == after.deliver(events, wait));
        },
    }
    assert(ends_the_look(end, policy, config, seen, known, initializing, events));
}

} // verus!
