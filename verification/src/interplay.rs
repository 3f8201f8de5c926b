//! The two sides together. The surface and the worker take turns on the
//! shared state, one whole step at a time; what holds after every step of
//! either holds after any run of both.

use crate::app_config::AppConfigView;
use crate::app_gui::{lemma_surface_keeps_to_its_side, IntentView, MyAppView};
use crate::preview::PreviewImageView;
use crate::scheduler::{
    lemma_status_follows_stage, lemma_worker_keeps_auto_update_sound, status_follows_stage,
    EventView, FallbackAssetsView, Scheduler,
};
use vstd::prelude::*;

verus! {

/// One step of either side.
pub enum Turn {
    /// The surface carries out a user's intent.
    Surface(IntentView),
    /// The worker takes an event, with what the decoder and the clock gave.
    Worker(EventView, Option<PreviewImageView>, Seq<char>),
}

/// The worker and the shared state after one turn.
pub open spec fn turn_taken(
    worker: Scheduler,
    app: MyAppView,
    turn: Turn,
    assets: FallbackAssetsView,
) -> (Scheduler, MyAppView) {
    match turn {
        Turn::Surface(intent) => (worker, app.performed(intent)),
        Turn::Worker(event, decoded, at) => {
            let next = worker.stepped(app, event, decoded, at, assets);
            (next.0, next.1)
        },
    }
}

/// The worker and the shared state after a run of turns.
pub open spec fn turns_taken(
    worker: Scheduler,
    app: MyAppView,
    turns: Seq<Turn>,
    assets: FallbackAssetsView,
) -> (Scheduler, MyAppView)
    decreases turns.len(),
{
    if turns.len() == 0 {
        (worker, app)
    } else {
        let before = turns_taken(worker, app, turns.drop_last(), assets);
        turn_taken(before.0, before.1, turns.last(), assets)
    }
}

/// What holds whenever neither side is in the middle of a step: auto-update
/// is on only under a configuration that meets its rules, and the activity
/// on show agrees with what the worker is waiting for.
pub open spec fn settled(worker: Scheduler, app: MyAppView) -> bool {
    app.sound() && status_follows_stage(worker, app)
}

/// The state at start is settled.
pub proof fn lemma_start_is_settled(config: AppConfigView, blank: PreviewImageView)
    requires
        !config.is_auto_update_active || config.valid(),
    ensures
        settled(Scheduler::initial(), MyAppView::initial(config, blank)),
{
}

/// However the turns of the surface and the worker fall, a settled state
/// stays settled.
pub proof fn lemma_settled_under_any_interleaving(
    worker: Scheduler,
    app: MyAppView,
    turns: Seq<Turn>,
    assets: FallbackAssetsView,
)
    requires
        settled(worker, app),
    ensures
        settled(
            turns_taken(worker, app, turns, assets).0,
            turns_taken(worker, app, turns, assets).1,
        ),
    decreases turns.len(),
{
    if turns.len() > 0 {
        lemma_settled_under_any_interleaving(worker, app, turns.drop_last(), assets);
        let before = turns_taken(worker, app, turns.drop_last(), assets);
        match turns.last() {
            Turn::Surface(intent) => {
                lemma_surface_keeps_to_its_side(before.1, intent);
            },
            Turn::Worker(event, decoded, at) => {
                lemma_worker_keeps_auto_update_sound(
                    before.0,
                    before.1,
                    event,
                    decoded,
                    at,
                    assets,
                );
                lemma_status_follows_stage(before.0, before.1, event, decoded, at, assets);
            },
        }
    }
}

/// Whatever was there before, one tick of the worker settles the state: a
/// stored configuration that has auto-update on against its rules is put
/// right by the first tick.
pub proof fn lemma_tick_settles(worker: Scheduler, app: MyAppView, assets: FallbackAssetsView)
    ensures
        settled(worker.ticked(app, assets).0, worker.ticked(app, assets).1),
{
    lemma_worker_keeps_auto_update_sound(worker, app, EventView::Tick, None, Seq::empty(), assets);
    lemma_status_follows_stage(worker, app, EventView::Tick, None, Seq::empty(), assets);
}

} // verus!
