//! What holds of every sync run.

use vstd::prelude::*;
use crate::catalog::{image_file_path, json_url, latest_json_url, Xkcd};
use crate::sync::model::{ActionView, Event, Phase, RunModel, CHECKPOINT_INTERVAL};

verus! {

/// A step leads from a state that a run can be in to another such state,
/// whatever the outcome reported.
pub proof fn lemma_step_keeps_wf(m: RunModel, event: Event)
    requires
        m.wf(),
    ensures
        m.step(event).wf(),
{
}

/// However a run goes on, it stays in the states that a run can be in.
pub proof fn lemma_run_keeps_wf(m: RunModel, events: Seq<Event>)
    requires
        m.wf(),
    ensures
        m.run(events).wf(),
    decreases events.len(),
{
    if events.len() > 0 {
        lemma_run_keeps_wf(m, events.drop_last());
        lemma_step_keeps_wf(m.run(events.drop_last()), events.last());
    }
}

/// A step writes to the record at most once, and never over what is there:
/// every comic on record stays on record with the metadata it had, and
/// what is new is the comic at hand alone, with the metadata just fetched.
pub proof fn lemma_step_keeps_record(m: RunModel, event: Event)
    requires
        m.wf(),
    ensures
        m.store.submap_of(m.step(event).store),
        m.step(event).store != m.store ==> {
            ||| m.phase is Loading
            ||| event matches Event::Fetched(entry) && m.phase is FetchingMetadata
                && !m.store.contains_key(m.num) && m.step(event).store == m.store.insert(
                m.num,
                entry,
            )
        },
{
}

/// However a run goes on, every comic on record stays on record with the
/// metadata it had.
pub proof fn lemma_run_keeps_record(m: RunModel, events: Seq<Event>)
    requires
        m.wf(),
    ensures
        m.store.submap_of(m.run(events).store),
    decreases events.len(),
{
    if events.len() > 0 {
        let before = m.run(events.drop_last());
        lemma_run_keeps_record(m, events.drop_last());
        lemma_run_keeps_wf(m, events.drop_last());
        lemma_step_keeps_record(before, events.last());
        assert(m.store.submap_of(m.run(events).store)) by {
            assert forall|k: usize| m.store.contains_key(k) implies #[trigger] m.run(
                events,
            ).store.contains_key(k) && m.run(events).store[k] == m.store[k] by {
                assert(before.store.contains_key(k));
            }
        }
    }
}

/// The comics are taken in hand one by one in ascending order, none left
/// out, and the latest stays what it was found to be: so the fraction
/// shown, the number at hand over the latest, never falls.
pub proof fn lemma_progress_never_falls(m: RunModel, event: Event)
    requires
        m.wf(),
    ensures
        m.num <= m.step(event).num <= m.num + 1,
        m.step(event).num == m.num + 1 ==> m.step(event).num <= m.step(event).latest,
        !(m.phase is FetchingLatest) ==> m.step(event).latest == m.latest,
{
}

/// A save amid the run is announced exactly when a comic has just been
/// done with, its image found in place, fetched or given up for this run,
/// and the comics updated so far are a positive multiple of the interval.
/// The save itself follows at once, before any other comic is taken in
/// hand.
pub proof fn lemma_checkpoint_cadence(m: RunModel, event: Event)
    requires
        m.wf(),
    ensures
        m.step(event).phase is AnnouncingCheckpoint <==> m.step(event).checkpoint_due() && {
            ||| m.phase is Probing && event == Event::Found(true)
            ||| m.phase is Downloading && event is Done
            ||| m.phase is WarningImage && event is Done
        },
        m.step(event).phase is Checkpointing <==> m.phase is AnnouncingCheckpoint && event is Done,
        m.phase is AnnouncingCheckpoint || m.phase is Checkpointing ==> m.checkpoint_due()
            && m.step(event).store == m.store && m.step(event).updated == m.updated,
{
}

impl RunModel {
    /// Whether the step asked for is a save, and `event` tells that it was
    /// done.
    pub open spec fn saves(self, event: Event) -> bool {
        self.action() is Save && event is Done
    }

    /// How many updated comics the last save among the steps that ended
    /// with `events` covered; none where no step was a save.
    pub open spec fn saved(self, events: Seq<Event>) -> usize
        decreases events.len(),
    {
        if events.len() == 0 {
            0
        } else if self.run(events.drop_last()).saves(events.last()) {
            self.run(events.drop_last()).updated
        } else {
            self.saved(events.drop_last())
        }
    }

    /// Whether the comic at hand made the update for which a checkpoint
    /// is due, and the run is still busy with that comic or with the save.
    pub open spec fn awaits_checkpoint(self) -> bool {
        self.checkpoint_due() && match self.phase {
            Phase::Probing
            | Phase::AnnouncingImage
            | Phase::Downloading
            | Phase::WarningImage => self.counted,
            Phase::AnnouncingCheckpoint | Phase::Checkpointing => true,
            _ => false,
        }
    }

    /// Whether the run is over or has nothing left but to report.
    pub open spec fn past_saving(self) -> bool {
        self.phase is Reporting || self.phase is Finished || self.phase is Failed
    }

    /// How the updates of a run stand to the `saved` ones that its last
    /// save covered: no more than an interval ahead, and a full interval
    /// only while the save for it is awaited or after the run was given
    /// up. Saves amid the run cover whole intervals.
    pub open spec fn within_interval_of(self, saved: usize) -> bool {
        &&& saved <= self.updated <= saved + CHECKPOINT_INTERVAL
        &&& self.updated == saved + CHECKPOINT_INTERVAL ==> self.awaits_checkpoint()
            || self.phase is Failed
        &&& self.past_saving() || saved % CHECKPOINT_INTERVAL == 0
    }
}

/// A step keeps the updates within an interval of the last save, which is
/// the one just done where the step was a save.
pub proof fn lemma_step_stays_within_interval(m: RunModel, saved: usize, event: Event)
    requires
        m.wf(),
        m.within_interval_of(saved),
    ensures
        m.step(event).within_interval_of(
            if m.saves(event) {
                m.updated
            } else {
                saved
            },
        ),
{
}

/// What a kill can lose is bounded by the interval. In a run that starts
/// with nothing updated, after whatever outcomes, the comics updated since
/// the last save are never more than the interval; they are as many only
/// while the comic that made the last of them is still in hand or the save
/// for it is under way, or where the run was given up at that point.
pub proof fn lemma_unsaved_updates_bounded(m: RunModel, events: Seq<Event>)
    requires
        m.wf(),
        m.updated == 0,
    ensures
        m.run(events).within_interval_of(m.saved(events)),
        m.saved(events) <= m.run(events).updated <= m.saved(events) + CHECKPOINT_INTERVAL,
        m.run(events).updated == m.saved(events) + CHECKPOINT_INTERVAL ==> m.run(
            events,
        ).awaits_checkpoint() || m.run(events).phase is Failed,
    decreases events.len(),
{
    if events.len() > 0 {
        lemma_unsaved_updates_bounded(m, events.drop_last());
        lemma_run_keeps_wf(m, events.drop_last());
        lemma_step_stays_within_interval(
            m.run(events.drop_last()),
            m.saved(events.drop_last()),
            events.last(),
        );
    }
}

/// The save comes before the run goes on: whenever a step takes another
/// comic in hand, fewer comics than the interval were updated since the
/// last save.
pub proof fn lemma_next_comic_waits_for_the_save(m: RunModel, events: Seq<Event>)
    requires
        m.wf(),
        m.updated == 0,
        events.len() > 0,
    ensures
        m.run(events).num != m.run(events.drop_last()).num ==> m.run(events).updated < m.saved(
            events,
        ) + CHECKPOINT_INTERVAL,
{
    lemma_unsaved_updates_bounded(m, events.drop_last());
    lemma_run_keeps_wf(m, events.drop_last());
}

/// A run that takes up a record fetches metadata only for comics that the
/// record lacks: whenever it announces or asks for a comic's metadata,
/// after whatever outcomes, that comic was not on record at the outset.
pub proof fn lemma_fetches_only_what_is_missing(m: RunModel, events: Seq<Event>)
    requires
        m.wf(),
    ensures
        ({
            let now = m.run(events);
            now.phase is AnnouncingMetadata || now.phase is FetchingMetadata
                ==> !m.store.contains_key(now.num)
        }),
        m.run(events).action() matches ActionView::Fetch { url } ==> {
            ||| m.run(events).phase is FetchingLatest
            ||| url == json_url(m.run(events).num) && !m.store.contains_key(m.run(events).num)
        },
{
    lemma_run_keeps_wf(m, events);
    lemma_run_keeps_record(m, events);
}

/// Every comic up to `latest` is on record, with an image that has a local
/// path in `comic_dir`.
pub open spec fn mirrored_up_to(store: Map<usize, Xkcd>, comic_dir: Seq<char>, latest: usize) -> bool {
    forall|n: usize|
        1 <= n <= latest ==> #[trigger] store.contains_key(n) && image_file_path(
            n,
            store[n].img@,
            comic_dir,
        ) is Some
}

impl RunModel {
    /// What a world in which everything is mirrored already reports of
    /// the step asked for: no step fails, the latest comic is one of
    /// those mirrored, and every image is found in place.
    pub open spec fn nothing_to_do(self, event: Event) -> bool {
        match self.phase {
            Phase::Loading => event is Missing || event is Loaded,
            Phase::FetchingLatest => event matches Event::Fetched(latest) && mirrored_up_to(
                self.store,
                self.comic_dir,
                latest.num,
            ),
            Phase::Probing => event matches Event::Found(found) && found,
            Phase::Finished | Phase::Failed(_) => true,
            _ => event is Done,
        }
    }

    /// The world reports `nothing_to_do` of each step of the run.
    pub open spec fn nothing_to_do_throughout(self, events: Seq<Event>) -> bool {
        forall|i: int|
            0 <= i < events.len() ==> #[trigger] self.run(events.take(i)).nothing_to_do(events[i])
    }

    /// A run that has updated nothing and skipped every comic behind it.
    pub open spec fn idle(self) -> bool {
        &&& self.wf()
        &&& self.updated == 0
        &&& match self.phase {
            Phase::CreatingDir
            | Phase::AnnouncingLoad
            | Phase::Loading
            | Phase::AnnouncingLatest
            | Phase::FetchingLatest => true,
            Phase::Probing => self.skipped + 1 == self.num && mirrored_up_to(
                self.store,
                self.comic_dir,
                self.latest,
            ),
            Phase::AnnouncingFinalSave
            | Phase::Finalizing
            | Phase::Reporting
            | Phase::Finished => self.skipped == self.latest,
            _ => false,
        }
    }
}

/// Where everything is mirrored already, a step of an idle run leaves it
/// idle, and leaves the record as it is once that has been loaded.
pub proof fn lemma_step_stays_idle(m: RunModel, event: Event)
    requires
        m.idle(),
        m.nothing_to_do(event),
    ensures
        m.step(event).idle(),
        !(m.phase is Loading) ==> m.step(event).store == m.store,
{
}

/// Running again over what is mirrored already updates nothing: a run
/// from the start, in a world where the record read holds every comic up
/// to the latest and every image is found in place, never asks for a
/// comic's metadata or image, counts no update, and ends, if it ends,
/// with every comic skipped.
pub proof fn lemma_second_run_updates_nothing(
    comic_dir: Seq<char>,
    sync_state_file: Seq<char>,
    events: Seq<Event>,
)
    requires
        RunModel::initial(comic_dir, sync_state_file).nothing_to_do_throughout(events),
    ensures
        ({
            let end = RunModel::initial(comic_dir, sync_state_file).run(events);
            &&& end.idle()
            &&& end.updated == 0
            &&& !(end.phase is Failed)
            &&& !(end.phase is AnnouncingMetadata) && !(end.phase is FetchingMetadata)
            &&& !(end.phase is AnnouncingImage) && !(end.phase is Downloading)
            &&& !(end.action() is Download)
            &&& end.action() matches ActionView::Fetch { url } ==> url == latest_json_url()
            &&& end.phase is Finished ==> end.action() == (ActionView::Finish {
                updated: 0,
                skipped: end.latest,
            })
        }),
    decreases events.len(),
{
    let start = RunModel::initial(comic_dir, sync_state_file);
    if events.len() > 0 {
        let front = events.drop_last();
        assert forall|i: int| 0 <= i < front.len() implies #[trigger] start.run(
            front.take(i),
        ).nothing_to_do(front[i]) by {
            assert(front.take(i) == events.take(i));
        }
        lemma_second_run_updates_nothing(comic_dir, sync_state_file, front);
        lemma_step_stays_idle(start.run(front), events.last());
    }
}

} // verus!
