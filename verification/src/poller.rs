//! The polling loop, as a machine: it says what is to be done next, and takes what
//! came of it.
use crate::ddcutil::{
    display_models, get_display_info_list, listed, models, DisplayInfo, DisplayModel,
};
use crate::device::{answers, DdcReply, DdcRequest, Double};
use crate::dpms::{is_dpms_awake, DpmsProgress, DpmsProgressModel, DpmsReader, DpmsReaderModel};
use crate::edid::{base64_text, encode_base64};
use crate::events::{DdcutilEvent, DdcutilEventKind};
use crate::polling::{
    are_distinct, compare_states, connection_changed, event_models, has_edid, poll_events, recorded,
    recording_changes_one_display, state_of, DisplayState, StateTable, States,
};
use vstd::pervasive::unreached;
use vstd::prelude::*;

verus! {

/// The settings that a pass of the loop goes by.
#[derive(Debug, Clone, Copy, PartialEq, Eq, Structural)]
pub struct PollConfig {
    pub interval: u32,
    pub cascade: Double,
    pub do_redetect: bool,
    pub events_enabled: bool,
}

/// Whose loop it is. The loop of the service holds the lock of the service while
/// it works with libddcutil, sets the scene with its first look, redetects
/// displays only if it is told to, and ends if the interval is zero. The loop of
/// the library object holds the lock only to read the settings, reports what the
/// first look finds, always redetects, and drops a pending call for a poll when
/// it begins one.
#[derive(Debug, Clone, Copy, PartialEq, Eq, Structural)]
pub enum PollPolicy {
    Service,
    Library,
}

/// How long to sleep.
#[derive(Debug, Clone, Copy, PartialEq, Eq, Structural)]
pub enum PollWait {
    Seconds(u64),
    Cascade(Double),
}

/// The sleep while events are not enabled.
pub const IDLE_SECONDS: u64 = 5;

/// What the caller is to do next.
pub enum PollAction {
    /// See whether the loop was told to end.
    CheckShutdown,
    /// Take the lock and read the settings.
    ReadConfig,
    /// Forget that a poll was called for.
    ClearNeedPoll,
    /// Call libddcutil.
    Ddc { request: DdcRequest },
    /// Give the lock back.
    Unlock,
    /// Send an event.
    Send { event: DdcutilEvent },
    /// Sleep, unless a poll is called for.
    Sleep { wait: PollWait },
    /// End.
    Stop,
}

/// What is meant by an action.
pub enum PollActionModel {
    CheckShutdown,
    ReadConfig,
    ClearNeedPoll,
    Ddc { request: DdcRequest },
    Unlock,
    Send { event: (DdcutilEventKind, Seq<char>) },
    Sleep { wait: PollWait },
    Stop,
}

impl View for PollAction {
    type V = PollActionModel;

    open spec fn view(&self) -> PollActionModel {
        match *self {
            PollAction::CheckShutdown => PollActionModel::CheckShutdown,
            PollAction::ReadConfig => PollActionModel::ReadConfig,
            PollAction::ClearNeedPoll => PollActionModel::ClearNeedPoll,
            PollAction::Ddc { request } => PollActionModel::Ddc { request },
            PollAction::Unlock => PollActionModel::Unlock,
            PollAction::Send { event } => PollActionModel::Send { event: event@ },
            PollAction::Sleep { wait } => PollActionModel::Sleep { wait },
            PollAction::Stop => PollActionModel::Stop,
        }
    }
}

/// What came of an action.
pub enum PollInput {
    Shutdown { requested: bool },
    Config { config: PollConfig },
    Ddc { reply: DdcReply },
    Done,
}

/// The input is of the form that the action calls for.
pub open spec fn input_answers(action: PollActionModel, input: PollInput) -> bool {
    match action {
        PollActionModel::CheckShutdown => input is Shutdown,
        PollActionModel::ReadConfig => input is Config,
        PollActionModel::Ddc { request } => input matches PollInput::Ddc { reply } && answers(
            request,
            reply,
        ),
        PollActionModel::Stop => false,
        _ => input is Done,
    }
}

impl PollAction {
    /// Tells whether the input is of the form that the action calls for.
    pub fn answered_by(&self, input: &PollInput) -> (res: bool)
        ensures
            res == input_answers(self@, *input),
    {
        match (self, input) {
            (PollAction::CheckShutdown, PollInput::Shutdown { .. }) => true,
            (PollAction::ReadConfig, PollInput::Config { .. }) => true,
            (PollAction::Ddc { request }, PollInput::Ddc { reply }) => request.answered_by(reply),
            (PollAction::ClearNeedPoll, PollInput::Done) => true,
            (PollAction::Unlock, PollInput::Done) => true,
            (PollAction::Send { .. }, PollInput::Done) => true,
            (PollAction::Sleep { .. }, PollInput::Done) => true,
            _ => false,
        }
    }
}

/// What is to be done once the lock is given back.
pub enum AfterRelease {
    Stop,
    Sleep { wait: PollWait },
    Clear { config: PollConfig },
    Announce { events: Vec<DdcutilEvent>, wait: PollWait },
}

/// What is meant to be done once the lock is given back.
pub enum AfterReleaseModel {
    Stop,
    Sleep { wait: PollWait },
    Clear { config: PollConfig },
    Announce { events: Seq<(DdcutilEventKind, Seq<char>)>, wait: PollWait },
}

impl View for AfterRelease {
    type V = AfterReleaseModel;

    open spec fn view(&self) -> AfterReleaseModel {
        match *self {
            AfterRelease::Stop => AfterReleaseModel::Stop,
            AfterRelease::Sleep { wait } => AfterReleaseModel::Sleep { wait },
            AfterRelease::Clear { config } => AfterReleaseModel::Clear { config },
            AfterRelease::Announce { events, wait } => AfterReleaseModel::Announce {
                events: event_models(events@),
                wait,
            },
        }
    }
}

/// The point that a pass of the loop has reached.
pub enum PollStage {
    CheckingShutdown,
    ReadingConfig,
    Clearing { config: PollConfig },
    Redetecting { config: PollConfig },
    Listing { config: PollConfig },
    Querying {
        config: PollConfig,
        displays: Vec<DisplayInfo>,
        index: usize,
        current: StateTable,
        reader: DpmsReader,
    },
    Releasing { next: AfterRelease },
    Sending { events: Vec<DdcutilEvent>, wait: PollWait },
    Sleeping,
    Stopped,
}

/// What is known at the point that a pass of the loop has reached.
pub enum PollStageModel {
    CheckingShutdown,
    ReadingConfig,
    Clearing { config: PollConfig },
    Redetecting { config: PollConfig },
    Listing { config: PollConfig },
    Querying {
        config: PollConfig,
        displays: Seq<DisplayModel>,
        index: int,
        current: States,
        reader: DpmsReaderModel,
    },
    Releasing { next: AfterReleaseModel },
    Sending { events: Seq<(DdcutilEventKind, Seq<char>)>, wait: PollWait },
    Sleeping,
    Stopped,
}

impl View for PollStage {
    type V = PollStageModel;

    open spec fn view(&self) -> PollStageModel {
        match *self {
            PollStage::CheckingShutdown => PollStageModel::CheckingShutdown,
            PollStage::ReadingConfig => PollStageModel::ReadingConfig,
            PollStage::Clearing { config } => PollStageModel::Clearing { config },
            PollStage::Redetecting { config } => PollStageModel::Redetecting { config },
            PollStage::Listing { config } => PollStageModel::Listing { config },
            PollStage::Querying { config, displays, index, current, reader } =>
                PollStageModel::Querying {
                config,
                displays: models(displays@),
                index: index as int,
                current: current@,
                reader: reader@,
            },
            PollStage::Releasing { next } => PollStageModel::Releasing { next: next@ },
            PollStage::Sending { events, wait } => PollStageModel::Sending {
                events: event_models(events@),
                wait,
            },
            PollStage::Sleeping => PollStageModel::Sleeping,
            PollStage::Stopped => PollStageModel::Stopped,
        }
    }
}

/// A polling loop.
pub struct Poller {
    pub policy: PollPolicy,
    pub previous: StateTable,
    pub initializing: bool,
    pub stage: PollStage,
}

/// What a polling loop knows: what the last look found, whether there was one, and
/// the point that it has reached.
pub struct PollerModel {
    pub policy: PollPolicy,
    pub previous: States,
    pub initializing: bool,
    pub stage: PollStageModel,
}

impl View for Poller {
    type V = PollerModel;

    open spec fn view(&self) -> PollerModel {
        PollerModel {
            policy: self.policy,
            previous: self.previous@,
            initializing: self.initializing,
            stage: self.stage@,
        }
    }
}

impl PollerModel {
    /// The last look holds no EDID twice, a query is about a display of the list and
    /// those before it were looked at, and only the library object drops a pending
    /// call for a poll.
    pub open spec fn is_valid(self) -> bool {
        &&& are_distinct(self.previous)
        &&& self.stage is Clearing ==> self.policy is Library
        &&& self.stage matches PollStageModel::Releasing { next } ==> next is Clear
            ==> self.policy is Library
        &&& self.stage matches PollStageModel::Querying { displays, index, current, .. } ==> {
            &&& 0 <= index < displays.len()
            &&& is_look(current, displays, index)
        }
    }

    /// The input is one that the loop waits for.
    pub open spec fn accepts(self, input: PollInput) -> bool {
        match self.stage {
            PollStageModel::CheckingShutdown => input is Shutdown,
            PollStageModel::ReadingConfig => input is Config,
            PollStageModel::Redetecting { .. } => input matches PollInput::Ddc { reply }
                && reply is Status,
            PollStageModel::Listing { .. } => input matches PollInput::Ddc { reply }
                && reply is Displays,
            PollStageModel::Querying { reader, .. } => input matches PollInput::Ddc { reply }
                && reader.accepts(reply),
            PollStageModel::Stopped => false,
            _ => input is Done,
        }
    }

    /// The loop holds the lock.
    pub open spec fn holds_lock(self) -> bool {
        match self.stage {
            PollStageModel::Redetecting { .. } => self.policy is Service,
            PollStageModel::Listing { .. } => self.policy is Service,
            PollStageModel::Querying { .. } => self.policy is Service,
            PollStageModel::Releasing { .. } => true,
            _ => false,
        }
    }

    pub open spec fn at(self, stage: PollStageModel) -> PollerModel {
        PollerModel { stage, ..self }
    }

    /// Gives the pass up and sleeps.
    pub open spec fn give_up(self, wait: PollWait) -> (PollerModel, PollActionModel) {
        match self.policy {
            PollPolicy::Service => (
                self.at(PollStageModel::Releasing { next: AfterReleaseModel::Sleep { wait } }),
                PollActionModel::Unlock,
            ),
            PollPolicy::Library => (
                self.at(PollStageModel::Sleeping),
                PollActionModel::Sleep { wait },
            ),
        }
    }

    /// Sends what is still to be sent, then sleeps.
    pub open spec fn deliver(
        self,
        events: Seq<(DdcutilEventKind, Seq<char>)>,
        wait: PollWait,
    ) -> (PollerModel, PollActionModel) {
        if events.len() == 0 {
            (self.at(PollStageModel::Sleeping), PollActionModel::Sleep { wait })
        } else {
            (
                self.at(PollStageModel::Sending { events: events.drop_first(), wait }),
                PollActionModel::Send { event: events.first() },
            )
        }
    }

    /// Compares a finished look with the one before. It is the one before from
    /// now on. After a change of the connected displays the next pass is near.
    pub open spec fn conclude(self, config: PollConfig, current: States) -> (
        PollerModel,
        PollActionModel,
    ) {
        let silent = self.initializing && self.policy is Service;
        let events = poll_events(current, self.previous, silent);
        let wait = if connection_changed(current, self.previous) {
            PollWait::Cascade(config.cascade)
        } else {
            PollWait::Seconds(config.interval as u64)
        };
        let after = PollerModel { previous: current, initializing: false, ..self };
        match self.policy {
            PollPolicy::Service => (
                after.at(
                    PollStageModel::Releasing { next: AfterReleaseModel::Announce { events, wait } },
                ),
                PollActionModel::Unlock,
            ),
            PollPolicy::Library => after.deliver(events, wait),
        }
    }

    /// Queries the next display, or concludes the look after the last one.
    pub open spec fn query(
        self,
        config: PollConfig,
        displays: Seq<DisplayModel>,
        index: int,
        current: States,
    ) -> (PollerModel, PollActionModel) {
        if index < displays.len() {
            let dref = displays[index].display_ref;
            (
                self.at(
                    PollStageModel::Querying {
                        config,
                        displays,
                        index,
                        current,
                        reader: DpmsReaderModel::Opening { dref },
                    },
                ),
                PollActionModel::Ddc { request: DdcRequest::OpenDisplay { dref } },
            )
        } else {
            self.conclude(config, current)
        }
    }

    pub open spec fn redetect(self, config: PollConfig) -> (PollerModel, PollActionModel) {
        (
            self.at(PollStageModel::Redetecting { config }),
            PollActionModel::Ddc { request: DdcRequest::Redetect },
        )
    }

    pub open spec fn list(self, config: PollConfig) -> (PollerModel, PollActionModel) {
        (
            self.at(PollStageModel::Listing { config }),
            PollActionModel::Ddc { request: DdcRequest::ListDisplays { include_invalid: false } },
        )
    }

    /// What follows once the settings are read.
    pub open spec fn configured(self, config: PollConfig) -> (PollerModel, PollActionModel) {
        match self.policy {
            PollPolicy::Library => (
                self.at(PollStageModel::Releasing { next: AfterReleaseModel::Clear { config } }),
                PollActionModel::Unlock,
            ),
            PollPolicy::Service => if config.interval == 0 {
                (
                    self.at(PollStageModel::Releasing { next: AfterReleaseModel::Stop }),
                    PollActionModel::Unlock,
                )
            } else if !config.events_enabled {
                self.give_up(PollWait::Seconds(IDLE_SECONDS))
            } else if config.do_redetect {
                self.redetect(config)
            } else {
                self.list(config)
            },
        }
    }

    /// What follows on an input.
    pub open spec fn next(self, input: PollInput) -> (PollerModel, PollActionModel) {
        match (self.stage, input) {
            (
                PollStageModel::CheckingShutdown,
                PollInput::Shutdown { requested },
            ) => if requested {
                (self.at(PollStageModel::Stopped), PollActionModel::Stop)
            } else {
                (self.at(PollStageModel::ReadingConfig), PollActionModel::ReadConfig)
            },
            (PollStageModel::ReadingConfig, PollInput::Config { config }) => self.configured(config),
            (PollStageModel::Clearing { config }, _) => if config.events_enabled {
                self.redetect(config)
            } else {
                self.give_up(PollWait::Seconds(IDLE_SECONDS))
            },
            (
                PollStageModel::Redetecting { config },
                PollInput::Ddc { reply: DdcReply::Status { status } },
            ) => if status != 0 {
                self.give_up(PollWait::Seconds(config.interval as u64))
            } else {
                self.list(config)
            },
            (
                PollStageModel::Listing { config },
                PollInput::Ddc { reply: DdcReply::Displays { status, displays } },
            ) => match listed(status, displays) {
                Err(_) => self.give_up(PollWait::Seconds(config.interval as u64)),
                Ok(list) => self.query(config, display_models(list), 0, Seq::empty()),
            },
            (
                PollStageModel::Querying { config, displays, index, current, reader },
                PollInput::Ddc { reply },
            ) => match reader.next(reply) {
                DpmsProgressModel::Ask { reader, request } => (
                    self.at(
                        PollStageModel::Querying { config, displays, index, current, reader },
                    ),
                    PollActionModel::Ddc { request },
                ),
                DpmsProgressModel::Done { result } => self.query(
                    config,
                    displays,
                    index + 1,
                    look_at(current, displays[index], result matches Ok(awake) && awake),
                ),
            },
            (PollStageModel::Releasing { next }, _) => match next {
                AfterReleaseModel::Stop => (
                    self.at(PollStageModel::Stopped),
                    PollActionModel::Stop,
                ),
                AfterReleaseModel::Sleep { wait } => (
                    self.at(PollStageModel::Sleeping),
                    PollActionModel::Sleep { wait },
                ),
                AfterReleaseModel::Clear { config } => (
                    self.at(PollStageModel::Clearing { config }),
                    PollActionModel::ClearNeedPoll,
                ),
                AfterReleaseModel::Announce { events, wait } => self.deliver(events, wait),
            },
            (PollStageModel::Sending { events, wait }, _) => self.deliver(events, wait),
            (PollStageModel::Sleeping, _) => (
                self.at(PollStageModel::CheckingShutdown),
                PollActionModel::CheckShutdown,
            ),
            _ => arbitrary(),
        }
    }
}

/// A look with one more display in it. A display whose power mode could not be had
/// counts as asleep.
pub open spec fn look_at(current: States, display: DisplayModel, awake: bool) -> States {
    recorded(
        current,
        base64_text(display.edid_bytes@),
        DisplayState {
            display_number: display.display_number,
            display_ref: display.display_ref,
            awake,
        },
    )
}

/// A look at the first displays of a list, of which each was found awake or not.
pub open spec fn look(displays: Seq<DisplayModel>, awake: Seq<bool>) -> States
    decreases awake.len(),
{
    if awake.len() == 0 {
        Seq::empty()
    } else {
        look_at(look(displays, awake.drop_last()), displays[awake.len() - 1], awake.last())
    }
}

/// The states are those of a look at the first `n` displays of a list.
pub open spec fn is_look(states: States, displays: Seq<DisplayModel>, n: int) -> bool {
    exists|awake: Seq<bool>| awake.len() == n && states == #[trigger] look(displays, awake)
}

/// What polling knows of a display that was found awake or not.
pub open spec fn display_state(display: DisplayModel, awake: bool) -> DisplayState {
    DisplayState {
        display_number: display.display_number,
        display_ref: display.display_ref,
        awake,
    }
}

/// A look holds every display that it looked at, under its EDID, and no other. Of
/// displays with the same EDID one is held. No EDID occurs twice.
pub proof fn look_holds_the_displays(displays: Seq<DisplayModel>, awake: Seq<bool>)
    requires
        awake.len() <= displays.len(),
    ensures
        are_distinct(look(displays, awake)),
        forall|k: int|
            0 <= k < awake.len() ==> has_edid(
                look(displays, awake),
                base64_text((#[trigger] displays[k]).edid_bytes@),
            ),
        forall|edid: Seq<char>| #[trigger]
            has_edid(look(displays, awake), edid) ==> exists|k: int|
                0 <= k < awake.len() && base64_text((#[trigger] displays[k]).edid_bytes@) == edid
                    && state_of(look(displays, awake), edid) == Some(
                    display_state(displays[k], awake[k]),
                ),
    decreases awake.len(),
{
    let now = look(displays, awake);
    if awake.len() > 0 {
        let before = look(displays, awake.drop_last());
        let last = awake.len() - 1;
        let key = base64_text(displays[last].edid_bytes@);
        let state = display_state(displays[last], awake[last]);
        look_holds_the_displays(displays, awake.drop_last());
        recording_changes_one_display(before, key, state, key);
        assert forall|k: int| 0 <= k < awake.len() implies has_edid(
            now,
            base64_text((#[trigger] displays[k]).edid_bytes@),
        ) by {
            let other = base64_text(displays[k].edid_bytes@);
            recording_changes_one_display(before, key, state, other);
            if k < last {
                assert(has_edid(before, other));
            }
        }
        assert forall|edid: Seq<char>| #[trigger] has_edid(now, edid) implies exists|k: int|
            0 <= k < awake.len() && base64_text((#[trigger] displays[k]).edid_bytes@) == edid
                && state_of(now, edid) == Some(display_state(displays[k], awake[k])) by {
            recording_changes_one_display(before, key, state, edid);
            if edid == key {
                assert(base64_text(displays[last].edid_bytes@) == edid);
            } else {
                assert(has_edid(before, edid));
                let k = choose|k: int|
                    0 <= k < last && base64_text((#[trigger] displays[k]).edid_bytes@) == edid
                        && state_of(before, edid) == Some(
                        display_state(displays[k], awake.drop_last()[k]),
                    );
                assert(awake.drop_last()[k] == awake[k]);
                assert(base64_text(displays[k].edid_bytes@) == edid);
            }
        }
    }
}

proof fn look_is_distinct(states: States, displays: Seq<DisplayModel>, n: int)
    requires
        n <= displays.len(),
        is_look(states, displays, n),
    ensures
        are_distinct(states),
{
    let awake = choose|awake: Seq<bool>|
        awake.len() == n && states == #[trigger] look(displays, awake);
    look_holds_the_displays(displays, awake);
}

impl Poller {
    /// A loop that has not looked yet. It begins by seeing whether it was told to
    /// end.
    pub fn new(policy: PollPolicy) -> (res: (Poller, PollAction))
        ensures
            res.0@ == (PollerModel {
                policy,
                previous: Seq::empty(),
                initializing: true,
                stage: PollStageModel::CheckingShutdown,
            }),
            res.1@ == PollActionModel::CheckShutdown,
            res.0@.is_valid(),
    {
        let poller = Poller {
            policy,
            previous: StateTable::new(),
            initializing: true,
            stage: PollStage::CheckingShutdown,
        };
        (poller, PollAction::CheckShutdown)
    }

    fn at(self, stage: PollStage) -> (res: Poller)
        ensures
            res@ == self@.at(stage@),
    {
        Poller { stage, ..self }
    }

    fn give_up(self, wait: PollWait) -> (res: (Poller, PollAction))
        ensures
            (res.0@, res.1@) == self@.give_up(wait),
    {
        match self.policy {
            PollPolicy::Service => (
                self.at(PollStage::Releasing { next: AfterRelease::Sleep { wait } }),
                PollAction::Unlock,
            ),
            PollPolicy::Library => (self.at(PollStage::Sleeping), PollAction::Sleep { wait }),
        }
    }

    fn deliver(self, events: Vec<DdcutilEvent>, wait: PollWait) -> (res: (Poller, PollAction))
        ensures
            (res.0@, res.1@) == self@.deliver(event_models(events@), wait),
    {
        if events.len() == 0 {
            (self.at(PollStage::Sleeping), PollAction::Sleep { wait })
        } else {
            let mut events = events;
            let ghost all = events@;
            let event = events.remove(0);
            assert(event_models(events@) =~= event_models(all).drop_first());
            (self.at(PollStage::Sending { events, wait }), PollAction::Send { event })
        }
    }

    fn conclude(self, config: PollConfig, current: StateTable) -> (res: (Poller, PollAction))
        requires
            self@.is_valid(),
            are_distinct(current@),
        ensures
            (res.0@, res.1@) == self@.conclude(config, current@),
    {
        let silent = match self.policy {
            PollPolicy::Service => self.initializing,
            PollPolicy::Library => false,
        };
        let (connection_change, events) = compare_states(&current, &self.previous, silent);
        let wait = if connection_change {
            PollWait::Cascade(config.cascade)
        } else {
            PollWait::Seconds(config.interval as u64)
        };
        let after = Poller { previous: current, initializing: false, ..self };
        match after.policy {
            PollPolicy::Service => (
                after.at(PollStage::Releasing { next: AfterRelease::Announce { events, wait } }),
                PollAction::Unlock,
            ),
            PollPolicy::Library => after.deliver(events, wait),
        }
    }

    fn query(
        self,
        config: PollConfig,
        displays: Vec<DisplayInfo>,
        index: usize,
        current: StateTable,
    ) -> (res: (Poller, PollAction))
        requires
            self@.is_valid(),
            are_distinct(current@),
        ensures
            (res.0@, res.1@) == self@.query(config, models(displays@), index as int, current@),
    {
        if index < displays.len() {
            let (reader, request) = DpmsReader::start(displays[index].display_ref);
            (
                self.at(PollStage::Querying { config, displays, index, current, reader }),
                PollAction::Ddc { request },
            )
        } else {
            self.conclude(config, current)
        }
    }

    fn redetect(self, config: PollConfig) -> (res: (Poller, PollAction))
        ensures
            (res.0@, res.1@) == self@.redetect(config),
    {
        (
            self.at(PollStage::Redetecting { config }),
            PollAction::Ddc { request: DdcRequest::Redetect },
        )
    }

    fn list(self, config: PollConfig) -> (res: (Poller, PollAction))
        ensures
            (res.0@, res.1@) == self@.list(config),
    {
        (
            self.at(PollStage::Listing { config }),
            PollAction::Ddc { request: DdcRequest::ListDisplays { include_invalid: false } },
        )
    }

    fn configured(self, config: PollConfig) -> (res: (Poller, PollAction))
        ensures
            (res.0@, res.1@) == self@.configured(config),
    {
        match self.policy {
            PollPolicy::Library => (
                self.at(PollStage::Releasing { next: AfterRelease::Clear { config } }),
                PollAction::Unlock,
            ),
            PollPolicy::Service => if config.interval == 0 {
                (
                    self.at(PollStage::Releasing { next: AfterRelease::Stop }),
                    PollAction::Unlock,
                )
            } else if !config.events_enabled {
                self.give_up(PollWait::Seconds(IDLE_SECONDS))
            } else if config.do_redetect {
                self.redetect(config)
            } else {
                self.list(config)
            },
        }
    }

    fn with_reply(self, reply: DdcReply) -> (res: (Poller, PollAction))
        requires
            self@.is_valid(),
            self@.accepts(PollInput::Ddc { reply }),
        ensures
            (res.0@, res.1@) == self@.next(PollInput::Ddc { reply }),
    {
        let Poller { policy, previous, initializing, stage } = self;
        let rest = Poller { policy, previous, initializing, stage: PollStage::Sleeping };
        match stage {
            PollStage::Redetecting { config } => match reply {
                DdcReply::Status { status } => if status != 0 {
                    rest.give_up(PollWait::Seconds(config.interval as u64))
                } else {
                    rest.list(config)
                },
                _ => unreached(),
            },
            PollStage::Listing { config } => match reply {
                DdcReply::Displays { status, displays } => match get_display_info_list(
                    status,
                    displays,
                ) {
                    Err(_) => rest.give_up(PollWait::Seconds(config.interval as u64)),
                    Ok(infos) => rest.query(config, infos, 0, StateTable::new()),
                },
                _ => unreached(),
            },
            PollStage::Querying { config, displays, index, current, reader } => {
                match is_dpms_awake(reader, reply) {
                    DpmsProgress::Ask { reader, request } => (
                        rest.at(PollStage::Querying { config, displays, index, current, reader }),
                        PollAction::Ddc { request },
                    ),
                    DpmsProgress::Done { result } => {
                        let awake = match result {
                            Ok(awake) => awake,
                            Err(_) => false,
                        };
                        let display = &displays[index];
                        let state = DisplayState {
                            display_number: display.display_number,
                            display_ref: display.display_ref,
                            awake,
                        };
                        let mut current = current;
                        proof {
                            look_is_distinct(current@, models(displays@), index as int);
                        }
                        current.insert(encode_base64(&display.edid_bytes), state);
                        assert(index < displays.len());
                        rest.query(config, displays, index + 1, current)
                    },
                }
            },
            _ => unreached(),
        }
    }

    /// Takes what came of the last action, and says what is to be done next.
    pub fn resume(self, input: PollInput) -> (res: (Poller, PollAction))
        requires
            self@.is_valid(),
            self@.accepts(input),
        ensures
            (res.0@, res.1@) == self@.next(input),
            res.0@.is_valid(),
            forall|i: PollInput| #[trigger] input_answers(res.1@, i) ==> res.0@.accepts(i),
    {
        proof {
            polling_stays_valid(self@, input);
        }
        match input {
            PollInput::Shutdown { requested } => if requested {
                (self.at(PollStage::Stopped), PollAction::Stop)
            } else {
                (self.at(PollStage::ReadingConfig), PollAction::ReadConfig)
            },
            PollInput::Config { config } => self.configured(config),
            PollInput::Ddc { reply } => self.with_reply(reply),
            PollInput::Done => {
                let Poller { policy, previous, initializing, stage } = self;
                let rest = Poller { policy, previous, initializing, stage: PollStage::Sleeping };
                match stage {
                    PollStage::Clearing { config } => if config.events_enabled {
                        rest.redetect(config)
                    } else {
                        rest.give_up(PollWait::Seconds(IDLE_SECONDS))
                    },
                    PollStage::Releasing { next } => match next {
                        AfterRelease::Stop => (rest.at(PollStage::Stopped), PollAction::Stop),
                        AfterRelease::Sleep { wait } => (rest, PollAction::Sleep { wait }),
                        AfterRelease::Clear { config } => (
                            rest.at(PollStage::Clearing { config }),
                            PollAction::ClearNeedPoll,
                        ),
                        AfterRelease::Announce { events, wait } => rest.deliver(events, wait),
                    },
                    PollStage::Sending { events, wait } => rest.deliver(events, wait),
                    PollStage::Sleeping => (
                        rest.at(PollStage::CheckingShutdown),
                        PollAction::CheckShutdown,
                    ),
                    _ => unreached(),
                }
            },
        }
    }
}

/// A step keeps the tables free of doubles, and waits for the input that its
/// action calls for.
pub proof fn polling_stays_valid(poller: PollerModel, input: PollInput)
    requires
        poller.is_valid(),
        poller.accepts(input),
    ensures
        poller.next(input).0.is_valid(),
        forall|i: PollInput| #[trigger]
            input_answers(poller.next(input).1, i) ==> poller.next(input).0.accepts(i),
{
    match poller.stage {
        PollStageModel::Querying { displays, index, current, .. } => {
            let awake = choose|awake: Seq<bool>|
                awake.len() == index && current == #[trigger] look(displays, awake);
            look_holds_the_displays(displays, awake);
            look_goes_on(displays, awake, true);
            look_goes_on(displays, awake, false);
        },
        PollStageModel::Listing { .. } => {
            if let PollInput::Ddc { reply: DdcReply::Displays { status, displays } } = input {
                if let Ok(list) = listed(status, displays) {
                    assert(look(display_models(list), Seq::empty()) =~= Seq::empty());
                }
            }
        },
        _ => {},
    }
}

proof fn look_goes_on(displays: Seq<DisplayModel>, awake: Seq<bool>, last: bool)
    requires
        awake.len() < displays.len(),
    ensures
        look(displays, awake.push(last)) == look_at(
            look(displays, awake),
            displays[awake.len() as int],
            last,
        ),
        are_distinct(look(displays, awake.push(last))),
{
    assert(awake.push(last).drop_last() =~= awake);
    look_holds_the_displays(displays, awake.push(last));
}

/// When a look at a list of displays is concluded, what the loop knows from then on
/// is a look at the whole list. Until then it knows what it knew.
pub proof fn concluded_look_is_of_the_whole_list(poller: PollerModel, input: PollInput)
    requires
        poller.is_valid(),
        poller.accepts(input),
    ensures
        poller.stage matches PollStageModel::Querying { displays, .. } ==> poller.next(
            input,
        ).0.previous == poller.previous || is_look(
            poller.next(input).0.previous,
            displays,
            displays.len() as int,
        ),
        !(poller.stage is Querying) && !(poller.stage is Listing) ==> poller.next(input).0.previous
            == poller.previous,
{
    match poller.stage {
        PollStageModel::Querying { displays, index, current, .. } => {
            let awake = choose|awake: Seq<bool>|
                awake.len() == index && current == #[trigger] look(displays, awake);
            look_goes_on(displays, awake, true);
            look_goes_on(displays, awake, false);
        },
        _ => {},
    }
}

/// A step of the polling loop of the service.
pub fn polling_loop(poller: Poller, input: PollInput) -> (res: (Poller, PollAction))
    requires
        poller.policy is Service,
        poller@.is_valid(),
        poller@.accepts(input),
    ensures
        (res.0@, res.1@) == poller@.next(input),
        res.0.policy is Service,
        res.0@.is_valid(),
        forall|i: PollInput| #[trigger] input_answers(res.1@, i) ==> res.0@.accepts(i),
{
    let res = poller.resume(input);
    assert(res.0@.policy == poller@.policy);
    res
}

/// A step of the polling loop of the library object.
pub fn polling_task(poller: Poller, input: PollInput) -> (res: (Poller, PollAction))
    requires
        poller.policy is Library,
        poller@.is_valid(),
        poller@.accepts(input),
    ensures
        (res.0@, res.1@) == poller@.next(input),
        res.0.policy is Library,
        res.0@.is_valid(),
        forall|i: PollInput| #[trigger] input_answers(res.1@, i) ==> res.0@.accepts(i),
{
    let res = poller.resume(input);
    assert(res.0@.policy == poller@.policy);
    res
}

/// The loop of the service calls libddcutil only while it holds the lock, and
/// neither sends nor sleeps nor ends with it. The lock is taken when the settings
/// are read, and given back by the step that says so.
pub proof fn lock_guards_the_library(poller: PollerModel, input: PollInput)
    requires
        poller.is_valid(),
        poller.accepts(input),
    ensures
        ({
            let (after, action) = poller.next(input);
            &&& poller.policy is Service && action is Ddc ==> after.holds_lock()
            &&& action is Send || action is Sleep || action is Stop || action is CheckShutdown
                ==> !after.holds_lock()
            &&& action is Unlock ==> after.holds_lock()
            &&& !poller.holds_lock() && after.holds_lock() ==> poller.stage is ReadingConfig
            &&& poller.holds_lock() && !after.holds_lock() ==> poller.stage is Releasing
            &&& after.stage is Releasing ==> action is Unlock
        }),
{
}

/// How many steps of each sort a pass may still take before it sleeps or ends.
pub open spec fn pass_stage(stage: PollStageModel) -> nat {
    match stage {
        PollStageModel::CheckingShutdown => 8,
        PollStageModel::ReadingConfig => 7,
        PollStageModel::Releasing { next: AfterReleaseModel::Clear { .. } } => 6,
        PollStageModel::Clearing { .. } => 5,
        PollStageModel::Redetecting { .. } => 4,
        PollStageModel::Listing { .. } => 3,
        PollStageModel::Querying { .. } => 2,
        PollStageModel::Releasing { .. } => 1,
        _ => 0,
    }
}

/// How many displays or events a pass has still to see to.
pub open spec fn pass_items(stage: PollStageModel) -> int {
    match stage {
        PollStageModel::Querying { displays, index, .. } => displays.len() - index,
        PollStageModel::Sending { events, .. } => events.len() as int,
        _ => 0,
    }
}

/// How many replies the query of a display may still need.
pub open spec fn pass_replies(stage: PollStageModel) -> nat {
    match stage {
        PollStageModel::Querying { reader, .. } => reader.rank(),
        _ => 0,
    }
}

/// A pass of the loop comes to its end: every step of it either sleeps or ends the
/// loop, or brings the pass nearer to that.
pub proof fn pass_comes_to_its_end(poller: PollerModel, input: PollInput)
    requires
        poller.is_valid(),
        poller.accepts(input),
        !(poller.stage is Sleeping),
    ensures
        ({
            let (after, action) = poller.next(input);
            let (before, now) = (poller.stage, after.stage);
            ||| action is Sleep
            ||| action is Stop
            ||| pass_stage(now) < pass_stage(before)
            ||| pass_stage(now) == pass_stage(before) && 0 <= pass_items(now) < pass_items(before)
            ||| pass_stage(now) == pass_stage(before) && pass_items(now) == pass_items(before)
                && pass_replies(now) < pass_replies(before)
        }),
{
}

/// The state and the action after so many events were sent.
pub open spec fn delivery(
    poller: PollerModel,
    events: Seq<(DdcutilEventKind, Seq<char>)>,
    wait: PollWait,
    sent: nat,
) -> (PollerModel, PollActionModel)
    decreases sent,
{
    if sent == 0 {
        poller.deliver(events, wait)
    } else {
        delivery(poller, events, wait, (sent - 1) as nat).0.next(PollInput::Done)
    }
}

/// Every event that a look calls for is sent, in order, and then the loop sleeps.
pub proof fn every_event_is_sent(
    poller: PollerModel,
    events: Seq<(DdcutilEventKind, Seq<char>)>,
    wait: PollWait,
    sent: nat,
)
    requires
        sent <= events.len(),
    ensures
        delivery(poller, events, wait, sent).1 == (if sent < events.len() {
            PollActionModel::Send { event: events[sent as int] }
        } else {
            PollActionModel::Sleep { wait }
        }),
{
    delivery_stage(poller, events, wait, sent);
}

/// After so many events were sent, the rest is still to be sent.
pub(crate) proof fn delivery_stage(
    poller: PollerModel,
    events: Seq<(DdcutilEventKind, Seq<char>)>,
    wait: PollWait,
    sent: nat,
)
    requires
        sent <= events.len(),
    ensures
        delivery(poller, events, wait, sent) == poller.deliver(events.skip(sent as int), wait),
    decreases sent,
{
    if sent == 0 {
        assert(events.skip(0) =~= events);
    } else {
        let before = (sent - 1) as nat;
        delivery_stage(poller, events, wait, before);
        assert(events.skip(before as int).drop_first() =~= events.skip(sent as int));
    }
}

/// The first look of the service's loop sends no event, whatever it finds; it only
/// becomes the look that the next one is compared with.
pub proof fn first_look_of_the_service_is_silent(
    poller: PollerModel,
    config: PollConfig,
    current: States,
)
    requires
        poller.policy is Service,
        poller.initializing,
    ensures
        ({
            let after = poller.conclude(config, current).0;
            &&& after.previous == current
            &&& !after.initializing
            &&& after.stage matches PollStageModel::Releasing { next } && (next matches
                AfterReleaseModel::Announce { events, .. } && events.len() == 0)
        }),
{
}

/// A loop that is told to end ends before anything else, and so does the loop of
/// the service when its interval is zero.
pub proof fn told_to_end_the_loop_ends(poller: PollerModel, config: PollConfig)
    requires
        poller.is_valid(),
    ensures
        poller.stage is CheckingShutdown ==> poller.next(
            PollInput::Shutdown { requested: true },
        ).1 is Stop,
        poller.stage is ReadingConfig && poller.policy is Service && config.interval == 0 ==> {
            let (after, action) = poller.next(PollInput::Config { config });
            action is Unlock && after.next(PollInput::Done).1 is Stop
        },
{
}

/// The sleep is taken in pieces of this length, to see whether a poll is called
/// for.
pub const POLL_WAKE_STEP_MS: u64 = 250;

/// What a sleeper is to do.
#[derive(Debug, Clone, Copy, PartialEq, Eq, Structural)]
pub enum SleepStep {
    /// Sleep for so many milliseconds, with so many left after that.
    Wait { millis: u64, rest: u64 },
    /// Wake up early: a poll is called for.
    Interrupted,
    /// Wake up: the time is over.
    Elapsed,
}

/// What a sleeper is to do with so many milliseconds left.
pub open spec fn sleep_on(remaining: u64) -> SleepStep {
    if remaining == 0 {
        SleepStep::Elapsed
    } else if remaining < POLL_WAKE_STEP_MS {
        SleepStep::Wait { millis: remaining, rest: 0 }
    } else {
        SleepStep::Wait {
            millis: POLL_WAKE_STEP_MS,
            rest: (remaining - POLL_WAKE_STEP_MS) as u64,
        }
    }
}

/// Begins to sleep.
pub fn begin_sleep(duration: u64) -> (res: SleepStep)
    ensures
        res == sleep_on(duration),
{
    if duration == 0 {
        SleepStep::Elapsed
    } else if duration < POLL_WAKE_STEP_MS {
        SleepStep::Wait { millis: duration, rest: 0 }
    } else {
        SleepStep::Wait { millis: POLL_WAKE_STEP_MS, rest: duration - POLL_WAKE_STEP_MS }
    }
}

/// Goes on after a piece of the sleep: wakes up early if a poll is called for.
pub fn sleep_interruptible(rest: u64, need_poll: bool) -> (res: SleepStep)
    ensures
        res == (if need_poll {
            SleepStep::Interrupted
        } else {
            sleep_on(rest)
        }),
{
    if need_poll {
        return SleepStep::Interrupted;
    }
    begin_sleep(rest)
}

/// The time that a sleeper sleeps who is not interrupted.
pub open spec fn time_slept(remaining: u64) -> int
    decreases remaining,
{
    match sleep_on(remaining) {
        SleepStep::Wait { millis, rest } => if rest < remaining {
            millis + time_slept(rest)
        } else {
            0
        },
        _ => 0,
    }
}

/// An uninterrupted sleep lasts as long as it was meant to, in pieces none of which
/// is longer than a quarter of a second.
pub proof fn uninterrupted_sleep_lasts(duration: u64)
    ensures
        time_slept(duration) == duration,
        sleep_on(duration) matches SleepStep::Wait { millis, rest } ==> 0 < millis <= 250
            && millis + rest == duration,
    decreases duration,
{
    match sleep_on(duration) {
        SleepStep::Wait { rest, .. } => {
            uninterrupted_sleep_lasts(rest);
        },
        _ => {},
    }
}

} // verus!
