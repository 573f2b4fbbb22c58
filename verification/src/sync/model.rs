//! What a sync run decides, as a function from its state and the outcome
//! of the step it asked for to its next state. The state says which step
//! it asks for next.

use vstd::prelude::*;
use crate::catalog::{image_file_path, json_url, latest_json_url, Xkcd};
use crate::cli_progress::Fraction;
use crate::store::SyncState;
use crate::text::decimal;

verus! {

/// After how many updated comics the sync state is saved amid the run.
pub const CHECKPOINT_INTERVAL: usize = 50;

/// Why a run was given up.
#[derive(Clone, Copy, Debug, PartialEq, Eq)]
pub enum SyncError {
    /// The directory for the images could not be created.
    CreateDir,
    /// The file of the sync state exists and could not be read as one.
    CorruptState,
    /// The progress line could not be drawn.
    Render,
    /// A line could not be printed.
    Output,
    /// The latest comic, and with it the range to go through, is unknown.
    LatestUnavailable,
    /// No local path can be derived for the image of the comic at hand.
    PathDerivation,
    /// Whether the image's file exists could not be established.
    Probe,
    /// The sync state could not be saved.
    Save,
    /// The outcome reported does not belong to the step asked for.
    Protocol,
}

/// Where a run stands: the step whose outcome it waits for.
#[derive(Clone, Copy, Debug, PartialEq, Eq)]
pub enum Phase {
    /// Creating the directory for the images.
    CreatingDir,
    /// Telling which file the sync state is read from.
    AnnouncingLoad,
    /// Reading the sync state.
    Loading,
    /// Drawing the progress line for the fetch of the latest comic.
    AnnouncingLatest,
    /// Fetching the latest comic's metadata, for its number.
    FetchingLatest,
    /// Drawing the progress line for the fetch of the metadata at hand.
    AnnouncingMetadata,
    /// Fetching the metadata of the comic at hand.
    FetchingMetadata,
    /// Telling that the metadata at hand could not be fetched.
    WarningMetadata,
    /// Finding out whether the image at hand is in place.
    Probing,
    /// Drawing the progress line for the fetch of the image at hand.
    AnnouncingImage,
    /// Fetching the image of the comic at hand.
    Downloading,
    /// Telling that the image at hand could not be fetched.
    WarningImage,
    /// Drawing the progress line for a save amid the run.
    AnnouncingCheckpoint,
    /// Saving the sync state amid the run.
    Checkpointing,
    /// Telling of the save at the end.
    AnnouncingFinalSave,
    /// Saving the sync state at the end.
    Finalizing,
    /// Telling how many comics were updated and skipped.
    Reporting,
    /// The run went through.
    Finished,
    /// The run was given up.
    Failed(SyncError),
}

/// The outcome of a step, as whoever performed it reports it.
#[derive(Clone, Debug)]
pub enum Event {
    /// The step was done and has nothing to tell.
    Done,
    /// The step failed, for the reason given.
    Failed(String),
    /// There is no file of the sync state.
    Missing,
    /// The sync state that was read from its file.
    Loaded(SyncState),
    /// The metadata that the catalog served.
    Fetched(Xkcd),
    /// Whether the file exists.
    Found(bool),
}

/// A step for whoever drives the run to perform, texts as sequences.
pub enum ActionView {
    CreateDir { path: Seq<char> },
    Print { text: Seq<char> },
    Load { path: Seq<char> },
    Render { fraction: Fraction, description: Seq<char> },
    Fetch { url: Seq<char> },
    Probe { path: Seq<char> },
    Download { url: Seq<char>, path: Seq<char> },
    Save { path: Seq<char> },
    Finish { updated: usize, skipped: usize },
    Abort { error: SyncError },
}

pub open spec fn opening_line(file: Seq<char>) -> Seq<char> {
    "Opening "@ + file + " as sync state"@
}

pub open spec fn latest_label() -> Seq<char> {
    "Fetching latest comic information..."@
}

pub open spec fn metadata_label(num: usize) -> Seq<char> {
    "Fetching comic metadata #"@ + decimal(num as nat)
}

pub open spec fn image_label(num: usize) -> Seq<char> {
    "Fetching comic image #"@ + decimal(num as nat)
}

pub open spec fn saving_label(file: Seq<char>) -> Seq<char> {
    "Saving sync state to "@ + file
}

/// The two lines that tell of a comic left for the next run; `what` names
/// what could not be retrieved.
pub open spec fn warning_lines(what: Seq<char>, num: usize, reason: Seq<char>) -> Seq<char> {
    "Error retrieving "@ + what + " for #"@ + decimal(num as nat) + ": "@ + reason
        + "\nNote: Skipping #"@ + decimal(num as nat) + " as it will be retieved next time."@
}

pub open spec fn finished_line(updated: usize, skipped: usize) -> Seq<char> {
    "Finished sync run: Updated "@ + decimal(updated as nat) + " comics, skipped "@ + decimal(
        skipped as nat,
    ) + " comics."@
}

/// The state of a run.
pub struct RunModel {
    /// Directory that holds the images.
    pub comic_dir: Seq<char>,
    /// File that holds the sync state.
    pub sync_state_file: Seq<char>,
    /// Metadata on record.
    pub store: Map<usize, Xkcd>,
    pub phase: Phase,
    /// Number of the latest comic, once known.
    pub latest: usize,
    /// Number of the comic at hand; zero before the first.
    pub num: usize,
    /// Comics updated in this run: metadata or image fetched, each comic
    /// counted once.
    pub updated: usize,
    /// Comics whose image was found in place.
    pub skipped: usize,
    /// Whether the comic at hand is counted as updated already.
    pub counted: bool,
    /// Why the last fetch failed.
    pub reason: Seq<char>,
}

impl RunModel {
    /// A run that has done nothing yet.
    pub open spec fn initial(comic_dir: Seq<char>, sync_state_file: Seq<char>) -> RunModel {
        RunModel {
            comic_dir,
            sync_state_file,
            store: Map::empty(),
            phase: Phase::CreatingDir,
            latest: 0,
            num: 0,
            updated: 0,
            skipped: 0,
            counted: false,
            reason: Seq::empty(),
        }
    }

    pub open spec fn at(self, phase: Phase) -> RunModel {
        RunModel { phase, ..self }
    }

    pub open spec fn failed(self, error: SyncError) -> RunModel {
        self.at(Phase::Failed(error))
    }

    /// Local path for the image of the comic at hand, whose metadata is
    /// on record.
    pub open spec fn image_path(self) -> Option<Seq<char>> {
        image_file_path(self.num, self.store[self.num].img@, self.comic_dir)
    }

    /// With the metadata of the comic at hand on record, the run turns to
    /// its image; it is given up where the image has no local path.
    pub open spec fn turn_to_image(self) -> RunModel {
        if self.image_path() is Some {
            self.at(Phase::Probing)
        } else {
            self.failed(SyncError::PathDerivation)
        }
    }

    /// Takes comic `num` in hand: its metadata is fetched unless on
    /// record.
    pub open spec fn start(self, num: usize) -> RunModel {
        let next = RunModel { num, counted: false, ..self };
        if next.store.contains_key(num) {
            next.turn_to_image()
        } else {
            next.at(Phase::AnnouncingMetadata)
        }
    }

    /// Goes on to the comic after the one at hand, or to the final save
    /// behind the latest.
    pub open spec fn advance(self) -> RunModel {
        if self.num >= self.latest {
            self.at(Phase::AnnouncingFinalSave)
        } else {
            self.start((self.num + 1) as usize)
        }
    }

    /// Whether a checkpoint is due: some comics were updated, a multiple
    /// of the interval.
    pub open spec fn checkpoint_due(self) -> bool {
        self.updated > 0 && self.updated % CHECKPOINT_INTERVAL == 0
    }

    /// Done with the comic at hand, whether its image is in place, was
    /// fetched or could not be fetched: saves where a checkpoint is due,
    /// then goes on.
    pub open spec fn close(self) -> RunModel {
        if self.checkpoint_due() {
            self.at(Phase::AnnouncingCheckpoint)
        } else {
            self.advance()
        }
    }

    /// The state after the step asked for ended with `event`.
    pub open spec fn step(self, event: Event) -> RunModel {
        match self.phase {
            Phase::CreatingDir => match event {
                Event::Done => self.at(Phase::AnnouncingLoad),
                Event::Failed(_) => self.failed(SyncError::CreateDir),
                _ => self.failed(SyncError::Protocol),
            },
            Phase::AnnouncingLoad => match event {
                Event::Done => self.at(Phase::Loading),
                Event::Failed(_) => self.failed(SyncError::Output),
                _ => self.failed(SyncError::Protocol),
            },
            Phase::Loading => match event {
                Event::Missing => self.at(Phase::AnnouncingLatest),
                Event::Loaded(state) => RunModel { store: state@, ..self }.at(
                    Phase::AnnouncingLatest,
                ),
                Event::Failed(_) => self.failed(SyncError::CorruptState),
                _ => self.failed(SyncError::Protocol),
            },
            Phase::AnnouncingLatest => match event {
                Event::Done => self.at(Phase::FetchingLatest),
                Event::Failed(_) => self.failed(SyncError::Render),
                _ => self.failed(SyncError::Protocol),
            },
            Phase::FetchingLatest => match event {
                Event::Fetched(latest) => RunModel { latest: latest.num, ..self }.advance(),
                Event::Failed(_) => self.failed(SyncError::LatestUnavailable),
                _ => self.failed(SyncError::Protocol),
            },
            Phase::AnnouncingMetadata => match event {
                Event::Done => self.at(Phase::FetchingMetadata),
                Event::Failed(_) => self.failed(SyncError::Render),
                _ => self.failed(SyncError::Protocol),
            },
            Phase::FetchingMetadata => match event {
                Event::Fetched(entry) => RunModel {
                    store: self.store.insert(self.num, entry),
                    updated: (self.updated + 1) as usize,
                    counted: true,
                    ..self
                }.turn_to_image(),
                Event::Failed(reason) => RunModel { reason: reason@, ..self }.at(
                    Phase::WarningMetadata,
                ),
                _ => self.failed(SyncError::Protocol),
            },
            Phase::WarningMetadata => match event {
                Event::Done => self.advance(),
                Event::Failed(_) => self.failed(SyncError::Output),
                _ => self.failed(SyncError::Protocol),
            },
            Phase::Probing => match event {
                Event::Found(true) => RunModel {
                    skipped: (self.skipped + 1) as usize,
                    ..self
                }.close(),
                Event::Found(false) => self.at(Phase::AnnouncingImage),
                Event::Failed(_) => self.failed(SyncError::Probe),
                _ => self.failed(SyncError::Protocol),
            },
            Phase::AnnouncingImage => match event {
                Event::Done => self.at(Phase::Downloading),
                Event::Failed(_) => self.failed(SyncError::Render),
                _ => self.failed(SyncError::Protocol),
            },
            Phase::Downloading => match event {
                Event::Done => RunModel {
                    updated: if self.counted {
                        self.updated
                    } else {
                        (self.updated + 1) as usize
                    },
                    ..self
                }.close(),
                Event::Failed(reason) => RunModel { reason: reason@, ..self }.at(
                    Phase::WarningImage,
                ),
                _ => self.failed(SyncError::Protocol),
            },
            Phase::WarningImage => match event {
                Event::Done => self.close(),
                Event::Failed(_) => self.failed(SyncError::Output),
                _ => self.failed(SyncError::Protocol),
            },
            Phase::AnnouncingCheckpoint => match event {
                Event::Done => self.at(Phase::Checkpointing),
                Event::Failed(_) => self.failed(SyncError::Render),
                _ => self.failed(SyncError::Protocol),
            },
            Phase::Checkpointing => match event {
                Event::Done => self.advance(),
                Event::Failed(_) => self.failed(SyncError::Save),
                _ => self.failed(SyncError::Protocol),
            },
            Phase::AnnouncingFinalSave => match event {
                Event::Done => self.at(Phase::Finalizing),
                Event::Failed(_) => self.failed(SyncError::Output),
                _ => self.failed(SyncError::Protocol),
            },
            Phase::Finalizing => match event {
                Event::Done => self.at(Phase::Reporting),
                Event::Failed(_) => self.failed(SyncError::Save),
                _ => self.failed(SyncError::Protocol),
            },
            Phase::Reporting => match event {
                Event::Done => self.at(Phase::Finished),
                Event::Failed(_) => self.failed(SyncError::Output),
                _ => self.failed(SyncError::Protocol),
            },
            Phase::Finished => self,
            Phase::Failed(_) => self,
        }
    }

    /// How far the run has come, for the progress line.
    pub open spec fn fraction(self) -> Fraction {
        Fraction { done: self.num, total: self.latest }
    }

    /// The step that the run asks for.
    pub open spec fn action(self) -> ActionView {
        match self.phase {
            Phase::CreatingDir => ActionView::CreateDir { path: self.comic_dir },
            Phase::AnnouncingLoad => ActionView::Print {
                text: opening_line(self.sync_state_file),
            },
            Phase::Loading => ActionView::Load { path: self.sync_state_file },
            Phase::AnnouncingLatest => ActionView::Render {
                fraction: Fraction { done: 0, total: 1 },
                description: latest_label(),
            },
            Phase::FetchingLatest => ActionView::Fetch { url: latest_json_url() },
            Phase::AnnouncingMetadata => ActionView::Render {
                fraction: self.fraction(),
                description: metadata_label(self.num),
            },
            Phase::FetchingMetadata => ActionView::Fetch { url: json_url(self.num) },
            Phase::WarningMetadata => ActionView::Print {
                text: warning_lines("metadata"@, self.num, self.reason),
            },
            Phase::Probing => ActionView::Probe { path: self.image_path().unwrap() },
            Phase::AnnouncingImage => ActionView::Render {
                fraction: self.fraction(),
                description: image_label(self.num),
            },
            Phase::Downloading => ActionView::Download {
                url: self.store[self.num].img@,
                path: self.image_path().unwrap(),
            },
            Phase::WarningImage => ActionView::Print {
                text: warning_lines("image"@, self.num, self.reason),
            },
            Phase::AnnouncingCheckpoint => ActionView::Render {
                fraction: self.fraction(),
                description: saving_label(self.sync_state_file),
            },
            Phase::Checkpointing => ActionView::Save { path: self.sync_state_file },
            Phase::AnnouncingFinalSave => ActionView::Print {
                text: saving_label(self.sync_state_file),
            },
            Phase::Finalizing => ActionView::Save { path: self.sync_state_file },
            Phase::Reporting => ActionView::Print {
                text: finished_line(self.updated, self.skipped),
            },
            Phase::Finished => ActionView::Finish { updated: self.updated, skipped: self.skipped },
            Phase::Failed(error) => ActionView::Abort { error },
        }
    }

    /// The comic at hand lies in the range, and the counts do not yet
    /// include its image.
    pub open spec fn in_entry(self) -> bool {
        &&& 1 <= self.num <= self.latest
        &&& self.skipped < self.num
        &&& self.updated < self.num || (self.counted && self.updated == self.num)
    }

    /// The states that a run can be in. Neither count ever passes the
    /// number of the latest comic.
    pub open spec fn wf(self) -> bool {
        &&& self.updated <= self.latest
        &&& self.skipped <= self.latest
        &&& match self.phase {
            Phase::CreatingDir | Phase::AnnouncingLoad | Phase::Loading => {
                &&& self.num == 0
                &&& self.updated == 0
                &&& self.skipped == 0
                &&& self.store == Map::<usize, Xkcd>::empty()
            },
            Phase::AnnouncingLatest | Phase::FetchingLatest => {
                &&& self.num == 0
                &&& self.updated == 0
                &&& self.skipped == 0
            },
            Phase::AnnouncingMetadata | Phase::FetchingMetadata => {
                &&& self.in_entry()
                &&& !self.counted
                &&& !self.store.contains_key(self.num)
            },
            Phase::WarningMetadata | Phase::WarningImage => self.in_entry(),
            Phase::Probing | Phase::AnnouncingImage | Phase::Downloading => {
                &&& self.in_entry()
                &&& self.store.contains_key(self.num)
                &&& self.image_path() is Some
            },
            Phase::AnnouncingCheckpoint | Phase::Checkpointing => {
                &&& 1 <= self.num <= self.latest
                &&& self.skipped <= self.num
                &&& self.updated <= self.num
                &&& self.checkpoint_due()
            },
            Phase::AnnouncingFinalSave | Phase::Finalizing | Phase::Reporting | Phase::Finished => {
                &&& self.num == self.latest
                &&& self.skipped <= self.num
                &&& self.updated <= self.num
            },
            Phase::Failed(_) => true,
        }
    }

    /// The state after the outcomes `events`, one step each, in order.
    pub open spec fn run(self, events: Seq<Event>) -> RunModel
        decreases events.len(),
    {
        if events.len() == 0 {
            self
        } else {
            self.run(events.drop_last()).step(events.last())
        }
    }
}

} // verus!
