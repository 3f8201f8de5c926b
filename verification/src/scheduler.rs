//! The background worker as a state machine. Each wake-up, and each answer
//! to work done outside, is an event; the machine moves the shared state on
//! and says what is to be done next.

use crate::app_config::AppConfigView;
use crate::app_constants::AppConstants;
use crate::app_gui::{Activity, MyApp, MyAppView};
use crate::clock::local_time_text;
use crate::common_utils::{
    bytes_view, decode_body, inferred_kind, picture_view, record_fetch, resolve_fetch,
    start_fetch, FallbackImage, FallbackImageView, SavedImage, SavedImageView,
};
use crate::preview::{body_decoder, ImageKind, PreviewImage, PreviewImageView};
use crate::windows_os_utils::{
    finish_wallpaper, set_pic_as_wallpaper, ApplyError, WallpaperRequest, WallpaperRequestView,
};
use vstd::prelude::*;

verus! {

/// The outside work that the worker is waiting for.
#[derive(Clone, Copy, Debug, PartialEq, Eq, Structural)]
pub enum Stage {
    /// Nothing: the worker sleeps until the next tick.
    Resting,
    /// The transfer of a periodic cycle, for an address of the given kind.
    CycleFetch(ImageKind),
    /// The writing of the image of a periodic cycle.
    CycleSave,
    /// The desktop's answer in a periodic cycle.
    CycleApply,
    /// The transfer of a test fetch, for an address of the given kind.
    TestFetch(ImageKind),
    /// The writing of the image of a test fetch.
    TestSave,
}

/// The worker as seen from outside.
#[derive(Clone, Copy, Debug, PartialEq, Eq, Structural)]
pub enum SchedulerState {
    /// No time has been counted: auto-update is off, or has just come on.
    Disabled,
    /// So many seconds have been counted since the last cycle began.
    Waiting(u64),
    /// Outside work is under way.
    Running,
}

#[derive(Clone, Copy, Debug, PartialEq, Eq, Structural)]
pub struct Scheduler {
    /// Seconds counted since the last cycle began; zero while auto-update
    /// is off.
    pub elapsed: u64,
    pub stage: Stage,
}

/// The image could not be kept.
#[derive(Clone, Copy, Debug, PartialEq, Eq, Structural)]
pub enum PersistenceError {
    FileWriteError,
}

/// What happened outside.
#[derive(Debug, PartialEq, Eq)]
pub enum Event {
    /// The sleep between two ticks is over.
    Tick,
    /// The transfer ended: with the body received, or without one where it failed.
    Fetched(Option<Vec<u8>>),
    /// The image was written, or could not be.
    Saved(Result<(), PersistenceError>),
    /// The desktop took the image, or refused it.
    Applied(Result<(), ApplyError>),
}

pub enum EventView {
    Tick,
    Fetched(Option<Seq<u8>>),
    Saved(Result<(), PersistenceError>),
    Applied(Result<(), ApplyError>),
}

impl View for Event {
    type V = EventView;

    open spec fn view(&self) -> EventView {
        match self {
            Event::Tick => EventView::Tick,
            Event::Fetched(body) => EventView::Fetched(bytes_view(*body)),
            Event::Saved(written) => EventView::Saved(*written),
            Event::Applied(taken) => EventView::Applied(*taken),
        }
    }
}

/// What is to be done outside next.
#[derive(Debug, PartialEq, Eq)]
pub enum Action {
    /// Sleep for one tick interval, then report `Tick`.
    Sleep,
    /// Get the address, following redirects, then report `Fetched`.
    Fetch(String),
    /// Write the image, replacing what is there, then report `Saved`.
    Save(SavedImage),
    /// Hand the request to the desktop, then report `Applied`.
    Apply(WallpaperRequest),
}

pub enum ActionView {
    Sleep,
    Fetch(Seq<char>),
    Save(SavedImageView),
    Apply(WallpaperRequestView),
}

impl View for Action {
    type V = ActionView;

    open spec fn view(&self) -> ActionView {
        match self {
            Action::Sleep => ActionView::Sleep,
            Action::Fetch(address) => ActionView::Fetch(address@),
            Action::Save(file) => ActionView::Save(file@),
            Action::Apply(request) => ActionView::Apply(request@),
        }
    }
}

/// The bundled images that the worker falls back on.
#[derive(Debug, PartialEq, Eq)]
pub struct FallbackAssets {
    /// Shown while a transfer is under way.
    pub in_progress: PreviewImage,
    /// Kept and shown when a transfer or a decode fails.
    pub failed: FallbackImage,
}

pub struct FallbackAssetsView {
    pub in_progress: PreviewImageView,
    pub failed: FallbackImageView,
}

impl View for FallbackAssets {
    type V = FallbackAssetsView;

    open spec fn view(&self) -> FallbackAssetsView {
        FallbackAssetsView { in_progress: self.in_progress@, failed: self.failed@ }
    }
}

impl Clone for FallbackAssets {
    fn clone(&self) -> (copy: Self)
        ensures
            copy@ == self@,
    {
        Self { in_progress: self.in_progress.clone(), failed: self.failed.clone() }
    }
}

/// Periodic cycles run: auto-update is on and the configuration meets its rules.
pub open spec fn cycles_enabled(config: AppConfigView) -> bool {
    config.is_auto_update_active && config.valid()
}

/// A tick that finds `elapsed` seconds counted begins a cycle: cycles run,
/// and either no time has been counted or a whole interval has.
pub open spec fn cycle_due(elapsed: u64, config: AppConfigView) -> bool {
    cycles_enabled(config) && (elapsed == 0 || elapsed >= config.auto_update_interval)
}

/// The seconds counted after a tick that found `elapsed`: none while cycles
/// do not run; one tick interval when a cycle begins, the tick that begins it
/// being counted; one tick interval more otherwise.
pub open spec fn next_elapsed(elapsed: u64, config: AppConfigView) -> u64 {
    if !cycles_enabled(config) {
        0
    } else if cycle_due(elapsed, config) {
        AppConstants::TICK_INTERVAL
    } else {
        (elapsed + AppConstants::TICK_INTERVAL) as u64
    }
}

/// The seconds counted after `ticks` more ticks under one configuration.
pub open spec fn elapsed_after(elapsed: u64, config: AppConfigView, ticks: nat) -> u64
    decreases ticks,
{
    if ticks == 0 {
        elapsed
    } else {
        next_elapsed(elapsed_after(elapsed, config, (ticks - 1) as nat), config)
    }
}

impl MyAppView {
    /// The state with auto-update switched off where the configuration
    /// does not allow it to run.
    pub open spec fn auto_update_checked(self) -> MyAppView {
        if self.config.is_auto_update_active && !self.config.valid() {
            MyAppView {
                config: AppConfigView { is_auto_update_active: false, ..self.config },
                ..self
            }
        } else {
            self
        }
    }
}

impl Scheduler {
    /// The worker before its first tick.
    pub open spec fn initial() -> Scheduler {
        Scheduler { elapsed: 0, stage: Stage::Resting }
    }

    pub open spec fn state(self) -> SchedulerState {
        if self.stage != Stage::Resting {
            SchedulerState::Running
        } else if self.elapsed == 0 {
            SchedulerState::Disabled
        } else {
            SchedulerState::Waiting(self.elapsed)
        }
    }

    /// Begins a transfer for the address in the configuration.
    pub open spec fn transfer_begun(
        elapsed: u64,
        app: MyAppView,
        assets: FallbackAssetsView,
        periodic: bool,
    ) -> (Scheduler, MyAppView, ActionView) {
        let kind = inferred_kind(app.config.image_address);
        (
            Scheduler {
                elapsed,
                stage: if periodic {
                    Stage::CycleFetch(kind)
                } else {
                    Stage::TestFetch(kind)
                },
            },
            app.fetch_started(assets.in_progress),
            ActionView::Fetch(app.config.image_address),
        )
    }

    /// Serves a pending request for a test fetch, or goes to rest.
    pub open spec fn request_served(elapsed: u64, app: MyAppView, assets: FallbackAssetsView) -> (
        Scheduler,
        MyAppView,
        ActionView,
    ) {
        if app.is_test_image_fetch_requested {
            Self::transfer_begun(elapsed, app, assets, false)
        } else {
            (
                Scheduler { elapsed, stage: Stage::Resting },
                MyAppView { status: Activity::Idle, ..app },
                ActionView::Sleep,
            )
        }
    }

    /// A tick. Whatever was under way is given up. Auto-update is switched
    /// off where the configuration does not allow it. A cycle begins where
    /// one is due; otherwise a pending test fetch is served.
    pub open spec fn ticked(self, app: MyAppView, assets: FallbackAssetsView) -> (
        Scheduler,
        MyAppView,
        ActionView,
    ) {
        let elapsed = next_elapsed(self.elapsed, app.config);
        if cycle_due(self.elapsed, app.config) {
            Self::transfer_begun(elapsed, app, assets, true)
        } else {
            Self::request_served(elapsed, app.auto_update_checked(), assets)
        }
    }

    /// The worker, the shared state and the next action after an event.
    /// `decoded` is what the decoder made of a body that arrived, and `at`
    /// the moment the transfer ended; both matter only when a transfer that
    /// was awaited is reported.
    pub open spec fn stepped(
        self,
        app: MyAppView,
        event: EventView,
        decoded: Option<PreviewImageView>,
        at: Seq<char>,
        assets: FallbackAssetsView,
    ) -> (Scheduler, MyAppView, ActionView) {
        match (event, self.stage) {
            (EventView::Tick, _) => self.ticked(app, assets),
            (EventView::Fetched(body), Stage::CycleFetch(kind)) => {
                let (recorded, saved) = app.fetch_completed(kind, body, decoded, at, assets.failed);
                (Scheduler { stage: Stage::CycleSave, ..self }, recorded, ActionView::Save(saved))
            },
            (EventView::Fetched(body), Stage::TestFetch(kind)) => {
                let (recorded, saved) = app.fetch_completed(kind, body, decoded, at, assets.failed);
                (
                    Scheduler { stage: Stage::TestSave, ..self },
                    MyAppView { is_test_image_fetch_requested: false, ..recorded },
                    ActionView::Save(saved),
                )
            },
            (EventView::Saved(written), Stage::CycleSave) => if written is Ok {
                (
                    Scheduler { stage: Stage::CycleApply, ..self },
                    app.wallpaper_started(),
                    ActionView::Apply(app.wallpaper_request()),
                )
            } else {
                Self::request_served(self.elapsed, app, assets)
            },
            (EventView::Applied(_), Stage::CycleApply) => Self::request_served(
                self.elapsed,
                app,
                assets,
            ),
            (EventView::Saved(_), Stage::TestSave) => (
                Scheduler { stage: Stage::Resting, ..self },
                MyAppView { status: Activity::Idle, ..app },
                ActionView::Sleep,
            ),
            _ => (self, app, ActionView::Sleep),
        }
    }

    /// The kind of image that the awaited transfer is for, if one is awaited.
    pub open spec fn awaited_kind(self) -> Option<ImageKind> {
        match self.stage {
            Stage::CycleFetch(kind) => Some(kind),
            Stage::TestFetch(kind) => Some(kind),
            _ => None,
        }
    }

    pub fn new() -> (scheduler: Scheduler)
        ensures
            scheduler == Scheduler::initial(),
    {
        Scheduler { elapsed: 0, stage: Stage::Resting }
    }

    /// The state as seen from outside.
    pub fn current_state(&self) -> (state: SchedulerState)
        ensures
            state == self.state(),
    {
        if self.stage != Stage::Resting {
            SchedulerState::Running
        } else if self.elapsed == 0 {
            SchedulerState::Disabled
        } else {
            SchedulerState::Waiting(self.elapsed)
        }
    }

    fn begin_transfer(
        elapsed: u64,
        app: &mut MyApp,
        assets: &FallbackAssets,
        periodic: bool,
    ) -> (next: (Scheduler, Action))
        ensures
            (next.0, final(app)@, next.1@) == Self::transfer_begun(
                elapsed,
                old(app)@,
                assets@,
                periodic,
            ),
    {
        let (address, kind) = start_fetch(app, &assets.in_progress);
        let stage = if periodic {
            Stage::CycleFetch(kind)
        } else {
            Stage::TestFetch(kind)
        };
        (Scheduler { elapsed, stage }, Action::Fetch(address))
    }

    fn serve_request(elapsed: u64, app: &mut MyApp, assets: &FallbackAssets) -> (next: (
        Scheduler,
        Action,
    ))
        ensures
            (next.0, final(app)@, next.1@) == Self::request_served(elapsed, old(app)@, assets@),
    {
        if app.is_test_image_fetch_requested {
            Self::begin_transfer(elapsed, app, assets, false)
        } else {
            app.status = Activity::Idle;
            (Scheduler { elapsed, stage: Stage::Resting }, Action::Sleep)
        }
    }

    fn tick(&self, app: &mut MyApp, assets: &FallbackAssets) -> (next: (Scheduler, Action))
        ensures
            (next.0, final(app)@, next.1@) == self.ticked(old(app)@, assets@),
    {
        if !app.config.is_auto_update_active {
            Self::serve_request(0, app, assets)
        } else if !app.config.validate() {
            app.config.is_auto_update_active = false;
            Self::serve_request(0, app, assets)
        } else if self.elapsed == 0 || self.elapsed >= app.config.auto_update_interval {
            Self::begin_transfer(AppConstants::TICK_INTERVAL, app, assets, true)
        } else {
            Self::serve_request(self.elapsed + AppConstants::TICK_INTERVAL, app, assets)
        }
    }

    /// Moves on by one event, given what the decoder made of a body that
    /// arrived and the moment the transfer ended.
    pub fn advance(
        &mut self,
        app: &mut MyApp,
        event: Event,
        decoded: Option<PreviewImage>,
        now: String,
        assets: &FallbackAssets,
    ) -> (action: Action)
        ensures
            (*final(self), final(app)@, action@) == old(self).stepped(
                old(app)@,
                event@,
                picture_view(decoded),
                now@,
                assets@,
            ),
    {
        let stage = self.stage;
        let (next, action) = match event {
            Event::Tick => self.tick(app, assets),
            Event::Fetched(body) => match stage {
                Stage::CycleFetch(kind) => {
                    let outcome = resolve_fetch(kind, body, decoded, &assets.failed);
                    let saved = record_fetch(app, outcome, now);
                    (
                        Scheduler { elapsed: self.elapsed, stage: Stage::CycleSave },
                        Action::Save(saved),
                    )
                },
                Stage::TestFetch(kind) => {
                    let outcome = resolve_fetch(kind, body, decoded, &assets.failed);
                    let saved = record_fetch(app, outcome, now);
                    app.is_test_image_fetch_requested = false;
                    (
                        Scheduler { elapsed: self.elapsed, stage: Stage::TestSave },
                        Action::Save(saved),
                    )
                },
                _ => (*self, Action::Sleep),
            },
            Event::Saved(written) => match stage {
                Stage::CycleSave => {
                    if written.is_ok() {
                        let request = set_pic_as_wallpaper(app);
                        (
                            Scheduler { elapsed: self.elapsed, stage: Stage::CycleApply },
                            Action::Apply(request),
                        )
                    } else {
                        Self::serve_request(self.elapsed, app, assets)
                    }
                },
                Stage::TestSave => {
                    app.status = Activity::Idle;
                    (Scheduler { elapsed: self.elapsed, stage: Stage::Resting }, Action::Sleep)
                },
                _ => (*self, Action::Sleep),
            },
            Event::Applied(taken) => match stage {
                Stage::CycleApply => {
                    let _ = finish_wallpaper(app, taken.is_ok());
                    Self::serve_request(self.elapsed, app, assets)
                },
                _ => (*self, Action::Sleep),
            },
        };
        *self = next;
        action
    }

    /// The kind of image that the awaited transfer is for, if one is awaited.
    pub fn awaited(&self) -> (kind: Option<ImageKind>)
        ensures
            kind == self.awaited_kind(),
    {
        match self.stage {
            Stage::CycleFetch(kind) => Some(kind),
            Stage::TestFetch(kind) => Some(kind),
            _ => None,
        }
    }

    /// Does the slow part of taking an event, which needs no access to the
    /// shared state: where the event reports a transfer that was awaited,
    /// the body is decoded and the current time is read. What comes back is
    /// what `advance` asks for; for every other event it is nothing and an
    /// empty text.
    pub fn prepare(&self, event: &Event) -> (given: (Option<PreviewImage>, String))
        ensures
            given.0 is Some ==> {
                &&& event@ matches EventView::Fetched(body)
                &&& self.awaited_kind() matches Some(kind)
                &&& body_decoder(body, kind) is Some
            },
            given.0 matches Some(picture) ==> picture@.renderable(),
            !(event@ is Fetched && self.awaited_kind() is Some) ==> given.0 is None && given.1@
                == Seq::<char>::empty(),
    {
        match (event, self.awaited()) {
            (Event::Fetched(body), Some(kind)) => (
                decode_body(body, kind),
                local_time_text(AppConstants::FETCH_TIME_FORMAT),
            ),
            _ => (None, String::new()),
        }
    }

    /// Moves on by one event: `prepare`, then `advance` with what it gave.
    /// A caller that shares the state with others calls the two itself, and
    /// holds the state only for the second.
    pub fn step(&mut self, app: &mut MyApp, event: Event, assets: &FallbackAssets) -> (action:
        Action)
        ensures
            exists|decoded: Option<PreviewImageView>, at: Seq<char>|
                {
                    &&& #[trigger] old(self).stepped(old(app)@, event@, decoded, at, assets@) == (
                        *final(self),
                        final(app)@,
                        action@,
                    )
                    &&& decoded is Some ==> {
                        &&& event@ matches EventView::Fetched(body)
                        &&& old(self).awaited_kind() matches Some(kind)
                        &&& body_decoder(body, kind) is Some
                    }
                },
            !(event@ is Fetched && old(self).awaited_kind() is Some) ==> old(self).stepped(
                old(app)@,
                event@,
                None,
                Seq::empty(),
                assets@,
            ) == (*final(self), final(app)@, action@),
    {
        let (decoded, now) = self.prepare(&event);
        let ghost seen = picture_view(decoded);
        let ghost at = now@;
        let action = self.advance(app, event, decoded, now, assets);
        assert(old(self).stepped(old(app)@, event@, seen, at, assets@) == (*self, app@, action@));
        action
    }
}

/// Under a configuration that lets cycles run, with an interval of `m` tick
/// intervals: the tick that finds no time counted begins a cycle; after `n`
/// ticks, for `n` from 1 to `m`, `n` tick intervals are counted; and the
/// next tick begins a cycle only for `n == m`. So a cycle begins at the
/// first tick and again at tick `m + 1`, never in between.
pub proof fn lemma_cadence(config: AppConfigView, n: nat)
    requires
        cycles_enabled(config),
        1 <= n <= config.auto_update_interval / AppConstants::TICK_INTERVAL,
    ensures
        cycle_due(0, config),
        elapsed_after(0, config, n) == n * AppConstants::TICK_INTERVAL,
        cycle_due(elapsed_after(0, config, n), config) <==> n == config.auto_update_interval
            / AppConstants::TICK_INTERVAL,
    decreases n,
{
    let tick = AppConstants::TICK_INTERVAL;
    let interval = config.auto_update_interval;
    assert(tick == 5);
    assert(interval % 60 == 0);
    assert(interval == 5 * (interval / 5));
    if n == 1 {
        assert(elapsed_after(0, config, 0) == 0);
        assert(elapsed_after(0, config, 1) == next_elapsed(0, config));
    } else {
        let before = (n - 1) as nat;
        lemma_cadence(config, before);
        let counted = elapsed_after(0, config, before);
        assert(counted == 5 * before);
        assert(counted < interval);
        assert(!cycle_due(counted, config));
        assert(elapsed_after(0, config, n) == next_elapsed(counted, config));
        assert(next_elapsed(counted, config) == counted + 5);
    }
}

/// A tick that finds auto-update off, or a configuration that does not
/// allow it, counts no time: whatever was counted before, the first tick
/// that then finds cycles running begins a cycle at once.
pub proof fn lemma_toggle_safety(elapsed: u64, off: AppConfigView, on: AppConfigView)
    requires
        !cycles_enabled(off),
        cycles_enabled(on),
    ensures
        next_elapsed(elapsed, off) == 0,
        cycle_due(next_elapsed(elapsed, off), on),
{
}

/// The same at the level of the machine. From any state, a tick that finds
/// auto-update off leaves no time counted. Whatever the worker does next
/// without counting time (see `lemma_only_ticks_count`), the first tick that
/// finds a configuration under which cycles run asks for the transfer of a
/// cycle.
pub proof fn lemma_restart_after_disable(
    worker: Scheduler,
    off: MyAppView,
    later: Scheduler,
    on: MyAppView,
    assets: FallbackAssetsView,
)
    requires
        !off.config.is_auto_update_active,
        later.elapsed == worker.ticked(off, assets).0.elapsed,
        cycles_enabled(on.config),
    ensures
        worker.ticked(off, assets).0.elapsed == 0,
        later.ticked(on, assets).0.stage == Stage::CycleFetch(
            inferred_kind(on.config.image_address),
        ),
        later.ticked(on, assets).2 == ActionView::Fetch(on.config.image_address),
{
}

/// The activity on show agrees with what the worker is waiting for:
/// fetching during a transfer, setting while the desktop is asked, idle
/// otherwise.
pub open spec fn status_follows_stage(worker: Scheduler, app: MyAppView) -> bool {
    app.status == (match worker.stage {
        Stage::CycleFetch(_) => Activity::Fetching,
        Stage::TestFetch(_) => Activity::Fetching,
        Stage::CycleApply => Activity::Setting,
        _ => Activity::Idle,
    })
}

/// The worker keeps the activity on show in agreement with its stage: where
/// they agree before an event, they agree after it; and after a tick they
/// agree whatever was there before.
pub proof fn lemma_status_follows_stage(
    worker: Scheduler,
    app: MyAppView,
    event: EventView,
    decoded: Option<PreviewImageView>,
    at: Seq<char>,
    assets: FallbackAssetsView,
)
    requires
        status_follows_stage(worker, app) || event is Tick,
    ensures
        status_follows_stage(
            worker.stepped(app, event, decoded, at, assets).0,
            worker.stepped(app, event, decoded, at, assets).1,
        ),
{
}

/// Whether an event is the answer to an action.
pub open spec fn answers(event: EventView, action: ActionView) -> bool {
    match action {
        ActionView::Sleep => event is Tick,
        ActionView::Fetch(_) => event is Fetched,
        ActionView::Save(_) => event is Saved,
        ActionView::Apply(_) => event is Applied,
    }
}

/// The worker, the shared state and the last action after a tick followed by
/// the given answers, the foreground leaving the shared state alone; answers
/// that come after the worker has gone to sleep are not delivered.
pub open spec fn tick_answered(
    worker: Scheduler,
    app: MyAppView,
    answers: Seq<(EventView, Option<PreviewImageView>, Seq<char>)>,
    assets: FallbackAssetsView,
) -> (Scheduler, MyAppView, ActionView)
    decreases answers.len(),
{
    if answers.len() == 0 {
        worker.ticked(app, assets)
    } else {
        let before = tick_answered(worker, app, answers.drop_last(), assets);
        if before.2 is Sleep {
            before
        } else {
            before.0.stepped(
                before.1,
                answers.last().0,
                answers.last().1,
                answers.last().2,
                assets,
            )
        }
    }
}

/// Each of the given answers is the answer to the action that the worker
/// asked for just before it, as far as the worker had not yet gone to sleep.
pub open spec fn answered_in_turn(
    worker: Scheduler,
    app: MyAppView,
    answers_given: Seq<(EventView, Option<PreviewImageView>, Seq<char>)>,
    assets: FallbackAssetsView,
) -> bool {
    forall|i: int|
        0 <= i < answers_given.len() ==> {
            ||| tick_answered(worker, app, answers_given.subrange(0, i), assets).2 is Sleep
            ||| answers(
                (#[trigger] answers_given[i]).0,
                tick_answered(worker, app, answers_given.subrange(0, i), assets).2,
            )
        }
}

/// How many answers a stage is away from rest, at most.
pub open spec fn answers_left(stage: Stage) -> nat {
    match stage {
        Stage::CycleFetch(_) => 5,
        Stage::CycleSave => 4,
        Stage::CycleApply => 3,
        Stage::TestFetch(_) => 2,
        Stage::TestSave => 1,
        Stage::Resting => 0,
    }
}

/// After a tick and answers given in turn, the action asked for is the one
/// that the stage waits for, the activity on show agrees with the stage, a
/// worker that rests has no request for a test fetch pending, and each
/// answer has brought the worker nearer to rest.
pub proof fn lemma_answers_lead_to_rest(
    worker: Scheduler,
    app: MyAppView,
    answers_given: Seq<(EventView, Option<PreviewImageView>, Seq<char>)>,
    assets: FallbackAssetsView,
)
    requires
        answered_in_turn(worker, app, answers_given, assets),
    ensures
        ({
            let after = tick_answered(worker, app, answers_given, assets);
            &&& status_follows_stage(after.0, after.1)
            &&& after.2 is Sleep <==> after.0.stage == Stage::Resting
            &&& after.2 is Fetch <==> after.0.stage is CycleFetch || after.0.stage is TestFetch
            &&& after.2 is Save <==> after.0.stage == Stage::CycleSave || after.0.stage
                == Stage::TestSave
            &&& after.2 is Apply <==> after.0.stage == Stage::CycleApply
            &&& after.0.stage == Stage::Resting ==> !after.1.is_test_image_fetch_requested
            &&& after.0.stage is TestSave ==> !after.1.is_test_image_fetch_requested
            &&& answers_left(after.0.stage) + answers_given.len() <= 5 || after.0.stage
                == Stage::Resting
        }),
    decreases answers_given.len(),
{
    if answers_given.len() > 0 {
        let earlier = answers_given.drop_last();
        assert forall|i: int| 0 <= i < earlier.len() implies {
            ||| tick_answered(worker, app, earlier.subrange(0, i), assets).2 is Sleep
            ||| answers(
                (#[trigger] earlier[i]).0,
                tick_answered(worker, app, earlier.subrange(0, i), assets).2,
            )
        } by {
            assert(earlier.subrange(0, i) =~= answers_given.subrange(0, i));
            assert(earlier[i] == answers_given[i]);
        }
        lemma_answers_lead_to_rest(worker, app, earlier, assets);
        let last = answers_given.len() - 1;
        assert(answers_given.subrange(0, last) =~= earlier);
        assert(answers_given[last] == answers_given.last());
    }
}

/// Every tick ends in sleep. Whatever the transfers, the decoder, the disk
/// and the desktop answer, once five requests of the worker have been
/// answered in turn, if it asked for so many, the worker has asked to sleep:
/// it rests, the activity on show is idle and no request for a test fetch is
/// pending.
pub proof fn lemma_every_tick_ends_in_sleep(
    worker: Scheduler,
    app: MyAppView,
    answers_given: Seq<(EventView, Option<PreviewImageView>, Seq<char>)>,
    assets: FallbackAssetsView,
)
    requires
        answers_given.len() == 5,
        answered_in_turn(worker, app, answers_given, assets),
    ensures
        tick_answered(worker, app, answers_given, assets).2 is Sleep,
        tick_answered(worker, app, answers_given, assets).0.stage == Stage::Resting,
        tick_answered(worker, app, answers_given, assets).1.status == Activity::Idle,
        !tick_answered(worker, app, answers_given, assets).1.is_test_image_fetch_requested,
{
    lemma_answers_lead_to_rest(worker, app, answers_given, assets);
}

/// The worker leaves alone what belongs to the surface: the address, the
/// interval, the fit style, the form and what windows are up. It takes a
/// request for a test fetch back, never places one; and it switches
/// auto-update off, never on.
pub proof fn lemma_worker_keeps_to_its_side(
    worker: Scheduler,
    app: MyAppView,
    event: EventView,
    decoded: Option<PreviewImageView>,
    at: Seq<char>,
    assets: FallbackAssetsView,
)
    ensures
        ({
            let after = worker.stepped(app, event, decoded, at, assets).1;
            &&& after.config.image_address == app.config.image_address
            &&& after.config.auto_update_interval == app.config.auto_update_interval
            &&& after.config.wallpaper_fit_style == app.config.wallpaper_fit_style
            &&& after.autoupdate_interval_input_string == app.autoupdate_interval_input_string
            &&& after.is_form_valid == app.is_form_valid
            &&& after.is_diagnostic_image_shown == app.is_diagnostic_image_shown
            &&& after.is_license_info_shown == app.is_license_info_shown
            &&& after.is_test_image_fetch_requested ==> app.is_test_image_fetch_requested
            &&& after.config.is_auto_update_active ==> app.config.is_auto_update_active
        }),
{
}

/// A tick counts time as `next_elapsed` says, and asks for the transfer of
/// a cycle exactly when a cycle is due.
pub proof fn lemma_tick_counts(worker: Scheduler, app: MyAppView, assets: FallbackAssetsView)
    ensures
        worker.ticked(app, assets).0.elapsed == next_elapsed(worker.elapsed, app.config),
        worker.ticked(app, assets).0.stage is CycleFetch <==> cycle_due(
            worker.elapsed,
            app.config,
        ),
        cycle_due(worker.elapsed, app.config) ==> worker.ticked(app, assets).2
            == ActionView::Fetch(app.config.image_address),
{
}

/// Only a tick changes the time counted.
pub proof fn lemma_only_ticks_count(
    worker: Scheduler,
    app: MyAppView,
    event: EventView,
    decoded: Option<PreviewImageView>,
    at: Seq<char>,
    assets: FallbackAssetsView,
)
    requires
        !(event is Tick),
    ensures
        worker.stepped(app, event, decoded, at, assets).0.elapsed == worker.elapsed,
{
}

/// A worker that is not waiting for the transfer of a cycle comes to wait
/// for one only at a tick, and only under a configuration that lets cycles
/// run.
pub proof fn lemma_cycle_needs_valid_config(
    worker: Scheduler,
    app: MyAppView,
    event: EventView,
    decoded: Option<PreviewImageView>,
    at: Seq<char>,
    assets: FallbackAssetsView,
)
    requires
        !(worker.stage is CycleFetch),
        worker.stepped(app, event, decoded, at, assets).0.stage is CycleFetch,
    ensures
        event is Tick,
        cycles_enabled(app.config),
        cycle_due(worker.elapsed, app.config),
{
}

/// After a tick, auto-update is on only under a configuration that meets
/// its rules; no other event of the worker touches either.
pub proof fn lemma_worker_keeps_auto_update_sound(
    worker: Scheduler,
    app: MyAppView,
    event: EventView,
    decoded: Option<PreviewImageView>,
    at: Seq<char>,
    assets: FallbackAssetsView,
)
    ensures
        event is Tick ==> worker.stepped(app, event, decoded, at, assets).1.sound(),
        app.sound() ==> worker.stepped(app, event, decoded, at, assets).1.sound(),
{
}

/// The desktop is asked to take the image only once the image of a periodic
/// cycle has been written in full; a test fetch never leads there.
pub proof fn lemma_apply_follows_save(
    worker: Scheduler,
    app: MyAppView,
    event: EventView,
    decoded: Option<PreviewImageView>,
    at: Seq<char>,
    assets: FallbackAssetsView,
)
    requires
        worker.stepped(app, event, decoded, at, assets).2 is Apply,
    ensures
        worker.stage == Stage::CycleSave,
        event is Saved,
        event matches EventView::Saved(written) ==> written is Ok,
        worker.stepped(app, event, decoded, at, assets).2 == ActionView::Apply(
            app.wallpaper_request(),
        ),
{
}

/// A request for a test fetch that a tick finds while no cycle is due is
/// served by exactly one transfer, its image is written, and the worker
/// then rests with the request cleared; the desktop is not asked.
pub proof fn lemma_test_fetch_is_served_once(
    worker: Scheduler,
    app: MyAppView,
    body: Option<Seq<u8>>,
    decoded: Option<PreviewImageView>,
    at: Seq<char>,
    written: Result<(), PersistenceError>,
    assets: FallbackAssetsView,
)
    requires
        app.is_test_image_fetch_requested,
        !cycle_due(worker.elapsed, app.config),
    ensures
        ({
            let first = worker.ticked(app, assets);
            let second = first.0.stepped(first.1, EventView::Fetched(body), decoded, at, assets);
            let third = second.0.stepped(second.1, EventView::Saved(written), decoded, at, assets);
            &&& first.2 == ActionView::Fetch(app.config.image_address)
            &&& first.1.status == Activity::Fetching
            &&& second.2 is Save
            &&& !second.1.is_test_image_fetch_requested
            &&& third.2 == ActionView::Sleep
            &&& third.0.stage == Stage::Resting
            &&& third.1.status == Activity::Idle
            &&& !third.1.is_test_image_fetch_requested
        }),
{
}

} // verus!
