//! The sync run in executable form. Whoever drives it performs the step
//! that `action` names and reports how it ended to `step`, until the step
//! is to finish or to abort.

use vstd::prelude::*;
use vstd::pervasive::unreached;
use crate::catalog::{build_json_url_for_num, build_latest_json_url, create_image_file_path};
use crate::cli_progress::Fraction;
use crate::store::SyncState;
use crate::sync::laws::lemma_step_keeps_wf;
use crate::sync::model::{
    finished_line, opening_line, saving_label, warning_lines, ActionView, Event, Phase, RunModel,
    SyncError, CHECKPOINT_INTERVAL,
};
use crate::text::{append_decimal, append_str, chars_of, decimal, string_of};

verus! {

/// A step for whoever drives the run to perform.
#[derive(Clone, Debug, PartialEq, Eq)]
pub enum Action {
    /// Create the directory, with what lies above it.
    CreateDir { path: String },
    /// Print the text as lines of their own.
    Print { text: String },
    /// Read the sync state from the file.
    Load { path: String },
    /// Draw the progress line.
    Render { fraction: Fraction, description: String },
    /// Fetch the metadata document at the address.
    Fetch { url: String },
    /// Find out whether the file exists.
    Probe { path: String },
    /// Stream what the address serves into the file.
    Download { url: String, path: String },
    /// Write the sync state to the file.
    Save { path: String },
    /// The run is over: so many comics were updated and skipped.
    Finish { updated: usize, skipped: usize },
    /// The run is given up.
    Abort { error: SyncError },
}

impl View for Action {
    type V = ActionView;

    open spec fn view(&self) -> ActionView {
        match *self {
            Action::CreateDir { path } => ActionView::CreateDir { path: path@ },
            Action::Print { text } => ActionView::Print { text: text@ },
            Action::Load { path } => ActionView::Load { path: path@ },
            Action::Render { fraction, description } => ActionView::Render {
                fraction,
                description: description@,
            },
            Action::Fetch { url } => ActionView::Fetch { url: url@ },
            Action::Probe { path } => ActionView::Probe { path: path@ },
            Action::Download { url, path } => ActionView::Download { url: url@, path: path@ },
            Action::Save { path } => ActionView::Save { path: path@ },
            Action::Finish { updated, skipped } => ActionView::Finish { updated, skipped },
            Action::Abort { error } => ActionView::Abort { error },
        }
    }
}

fn opening_text(file: &str) -> (text: String)
    ensures
        text@ == opening_line(file@),
{
    let mut text = chars_of("Opening ");
    append_str(&mut text, file);
    append_str(&mut text, " as sync state");
    string_of(&text)
}

fn numbered_text(label: &str, num: usize) -> (text: String)
    ensures
        text@ == label@ + decimal(num as nat),
{
    let mut text = chars_of(label);
    append_decimal(&mut text, num);
    string_of(&text)
}

fn saving_text(file: &str) -> (text: String)
    ensures
        text@ == saving_label(file@),
{
    let mut text = chars_of("Saving sync state to ");
    append_str(&mut text, file);
    string_of(&text)
}

fn warning_text(what: &str, num: usize, reason: &str) -> (text: String)
    ensures
        text@ == warning_lines(what@, num, reason@),
{
    let mut text = chars_of("Error retrieving ");
    append_str(&mut text, what);
    append_str(&mut text, " for #");
    append_decimal(&mut text, num);
    append_str(&mut text, ": ");
    append_str(&mut text, reason);
    append_str(&mut text, "\nNote: Skipping #");
    append_decimal(&mut text, num);
    append_str(&mut text, " as it will be retieved next time.");
    string_of(&text)
}

fn finished_text(updated: usize, skipped: usize) -> (text: String)
    ensures
        text@ == finished_line(updated, skipped),
{
    let mut text = chars_of("Finished sync run: Updated ");
    append_decimal(&mut text, updated);
    append_str(&mut text, " comics, skipped ");
    append_decimal(&mut text, skipped);
    append_str(&mut text, " comics.");
    string_of(&text)
}

/// The fields of a run, with nothing said of how they hang together.
struct RunData {
    comic_dir: String,
    sync_state_file: String,
    store: SyncState,
    phase: Phase,
    latest: usize,
    num: usize,
    updated: usize,
    skipped: usize,
    counted: bool,
    reason: String,
}

impl View for RunData {
    type V = RunModel;

    closed spec fn view(&self) -> RunModel {
        RunModel {
            comic_dir: self.comic_dir@,
            sync_state_file: self.sync_state_file@,
            store: self.store@,
            phase: self.phase,
            latest: self.latest,
            num: self.num,
            updated: self.updated,
            skipped: self.skipped,
            counted: self.counted,
            reason: self.reason@,
        }
    }
}

impl RunData {
    fn at(self, phase: Phase) -> (next: RunData)
        ensures
            next@ == self@.at(phase),
    {
        RunData { phase, ..self }
    }

    fn failed(self, error: SyncError) -> (next: RunData)
        ensures
            next@ == self@.failed(error),
    {
        self.at(Phase::Failed(error))
    }

    fn unexpected(self) -> (next: RunData)
        ensures
            next@ == self@.failed(SyncError::Protocol),
    {
        self.failed(SyncError::Protocol)
    }

    fn image_path(&self) -> (path: Option<String>)
        requires
            self@.store.contains_key(self@.num),
        ensures
            path is Some == self@.image_path() is Some,
            path matches Some(p) ==> self@.image_path() == Some(p@),
    {
        match self.store.get(self.num) {
            Some(entry) => {
                match create_image_file_path(
                    self.num,
                    entry.img.as_str(),
                    self.comic_dir.as_str(),
                ) {
                    Ok(p) => Some(p),
                    Err(_) => None,
                }
            },
            None => None,
        }
    }

    fn turn_to_image(self) -> (next: RunData)
        requires
            self@.store.contains_key(self@.num),
        ensures
            next@ == self@.turn_to_image(),
    {
        if self.image_path().is_some() {
            self.at(Phase::Probing)
        } else {
            self.failed(SyncError::PathDerivation)
        }
    }

    fn start(self, num: usize) -> (next: RunData)
        ensures
            next@ == self@.start(num),
    {
        let next = RunData { num, counted: false, ..self };
        if next.store.contains(num) {
            next.turn_to_image()
        } else {
            next.at(Phase::AnnouncingMetadata)
        }
    }

    fn advance(self) -> (next: RunData)
        ensures
            next@ == self@.advance(),
    {
        if self.num >= self.latest {
            self.at(Phase::AnnouncingFinalSave)
        } else {
            let num = self.num + 1;
            self.start(num)
        }
    }

    fn close(self) -> (next: RunData)
        ensures
            next@ == self@.close(),
    {
        if self.updated > 0 && self.updated % CHECKPOINT_INTERVAL == 0 {
            self.at(Phase::AnnouncingCheckpoint)
        } else {
            self.advance()
        }
    }

    /// What a step that only tells whether it was done leads to.
    fn after(self, event: Event, done: Phase, error: SyncError) -> (next: RunData)
        ensures
            next@ == match event {
                Event::Done => self@.at(done),
                Event::Failed(_) => self@.failed(error),
                _ => self@.failed(SyncError::Protocol),
            },
    {
        match event {
            Event::Done => self.at(done),
            Event::Failed(_) => self.failed(error),
            _ => self.unexpected(),
        }
    }

    fn step(self, event: Event) -> (next: RunData)
        requires
            self@.wf(),
        ensures
            next@ == self@.step(event),
    {
        match self.phase {
            Phase::CreatingDir => self.after(event, Phase::AnnouncingLoad, SyncError::CreateDir),
            Phase::AnnouncingLoad => self.after(event, Phase::Loading, SyncError::Output),
            Phase::Loading => match event {
                Event::Missing => self.at(Phase::AnnouncingLatest),
                Event::Loaded(state) => RunData { store: state, ..self }.at(
                    Phase::AnnouncingLatest,
                ),
                Event::Failed(_) => self.failed(SyncError::CorruptState),
                _ => self.unexpected(),
            },
            Phase::AnnouncingLatest => self.after(event, Phase::FetchingLatest, SyncError::Render),
            Phase::FetchingLatest => match event {
                Event::Fetched(latest) => RunData { latest: latest.num, ..self }.advance(),
                Event::Failed(_) => self.failed(SyncError::LatestUnavailable),
                _ => self.unexpected(),
            },
            Phase::AnnouncingMetadata => self.after(
                event,
                Phase::FetchingMetadata,
                SyncError::Render,
            ),
            Phase::FetchingMetadata => match event {
                Event::Fetched(entry) => {
                    let mut next = self;
                    match next.store.insert(next.num, entry) {
                        Ok(()) => {
                            next.updated = next.updated + 1;
                            next.counted = true;
                            next.turn_to_image()
                        },
                        Err(_) => unreached(),
                    }
                },
                Event::Failed(reason) => RunData { reason, ..self }.at(Phase::WarningMetadata),
                _ => self.unexpected(),
            },
            Phase::WarningMetadata => match event {
                Event::Done => self.advance(),
                Event::Failed(_) => self.failed(SyncError::Output),
                _ => self.unexpected(),
            },
            Phase::Probing => match event {
                Event::Found(found) => {
                    if found {
                        let skipped = self.skipped + 1;
                        RunData { skipped, ..self }.close()
                    } else {
                        self.at(Phase::AnnouncingImage)
                    }
                },
                Event::Failed(_) => self.failed(SyncError::Probe),
                _ => self.unexpected(),
            },
            Phase::AnnouncingImage => self.after(event, Phase::Downloading, SyncError::Render),
            Phase::Downloading => match event {
                Event::Done => {
                    let updated = if self.counted {
                        self.updated
                    } else {
                        self.updated + 1
                    };
                    RunData { updated, ..self }.close()
                },
                Event::Failed(reason) => RunData { reason, ..self }.at(Phase::WarningImage),
                _ => self.unexpected(),
            },
            Phase::WarningImage => match event {
                Event::Done => self.close(),
                Event::Failed(_) => self.failed(SyncError::Output),
                _ => self.unexpected(),
            },
            Phase::AnnouncingCheckpoint => self.after(
                event,
                Phase::Checkpointing,
                SyncError::Render,
            ),
            Phase::Checkpointing => match event {
                Event::Done => self.advance(),
                Event::Failed(_) => self.failed(SyncError::Save),
                _ => self.unexpected(),
            },
            Phase::AnnouncingFinalSave => self.after(event, Phase::Finalizing, SyncError::Output),
            Phase::Finalizing => self.after(event, Phase::Reporting, SyncError::Save),
            Phase::Reporting => self.after(event, Phase::Finished, SyncError::Output),
            Phase::Finished => self,
            Phase::Failed(_) => self,
        }
    }

    fn action(&self) -> (action: Action)
        requires
            self@.wf(),
        ensures
            action@ == self@.action(),
    {
        match self.phase {
            Phase::CreatingDir => Action::CreateDir { path: self.comic_dir.clone() },
            Phase::AnnouncingLoad => Action::Print {
                text: opening_text(self.sync_state_file.as_str()),
            },
            Phase::Loading => Action::Load { path: self.sync_state_file.clone() },
            Phase::AnnouncingLatest => Action::Render {
                fraction: Fraction::zero(),
                description: "Fetching latest comic information...".to_owned(),
            },
            Phase::FetchingLatest => Action::Fetch { url: build_latest_json_url() },
            Phase::AnnouncingMetadata => Action::Render {
                fraction: Fraction { done: self.num, total: self.latest },
                description: numbered_text("Fetching comic metadata #", self.num),
            },
            Phase::FetchingMetadata => Action::Fetch { url: build_json_url_for_num(self.num) },
            Phase::WarningMetadata => Action::Print {
                text: warning_text("metadata", self.num, self.reason.as_str()),
            },
            Phase::Probing => match self.image_path() {
                Some(path) => Action::Probe { path },
                None => unreached(),
            },
            Phase::AnnouncingImage => Action::Render {
                fraction: Fraction { done: self.num, total: self.latest },
                description: numbered_text("Fetching comic image #", self.num),
            },
            Phase::Downloading => match (self.store.get(self.num), self.image_path()) {
                (Some(entry), Some(path)) => Action::Download { url: entry.img.clone(), path },
                _ => unreached(),
            },
            Phase::WarningImage => Action::Print {
                text: warning_text("image", self.num, self.reason.as_str()),
            },
            Phase::AnnouncingCheckpoint => Action::Render {
                fraction: Fraction { done: self.num, total: self.latest },
                description: saving_text(self.sync_state_file.as_str()),
            },
            Phase::Checkpointing => Action::Save { path: self.sync_state_file.clone() },
            Phase::AnnouncingFinalSave => Action::Print {
                text: saving_text(self.sync_state_file.as_str()),
            },
            Phase::Finalizing => Action::Save { path: self.sync_state_file.clone() },
            Phase::Reporting => Action::Print { text: finished_text(self.updated, self.skipped) },
            Phase::Finished => Action::Finish { updated: self.updated, skipped: self.skipped },
            Phase::Failed(error) => Action::Abort { error },
        }
    }
}

/// A sync run.
pub struct SyncRun {
    data: RunData,
}

impl View for SyncRun {
    type V = RunModel;

    closed spec fn view(&self) -> RunModel {
        self.data@
    }
}

impl SyncRun {
    #[verifier::type_invariant]
    spec fn inv(self) -> bool {
        self.data@.wf()
    }

    /// A run that has done nothing yet, for images in `comic_dir` and a
    /// sync state in `sync_state_file`.
    pub fn new(comic_dir: String, sync_state_file: String) -> (run: SyncRun)
        ensures
            run@ == RunModel::initial(comic_dir@, sync_state_file@),
            run@.wf(),
    {
        SyncRun {
            data: RunData {
                comic_dir,
                sync_state_file,
                store: SyncState::new(),
                phase: Phase::CreatingDir,
                latest: 0,
                num: 0,
                updated: 0,
                skipped: 0,
                counted: false,
                reason: String::new(),
            },
        }
    }

    /// The step that the run asks for.
    pub fn action(&self) -> (action: Action)
        ensures
            action@ == self@.action(),
            action matches Action::Render { fraction, .. } ==> fraction.wf(),
            self@.wf(),
    {
        proof {
            use_type_invariant(self);
        }
        self.data.action()
    }

    /// The run after the step it asked for ended with `event`.
    pub fn step(self, event: Event) -> (next: SyncRun)
        ensures
            next@ == self@.step(event),
            self@.wf(),
            next@.wf(),
    {
        proof {
            use_type_invariant(&self);
            lemma_step_keeps_wf(self@, event);
        }
        SyncRun { data: self.data.step(event) }
    }

    /// Whether the run is over, finished or given up.
    pub fn is_over(&self) -> (over: bool)
        ensures
            over == (self@.phase is Finished || self@.phase is Failed),
    {
        match self.data.phase {
            Phase::Finished => true,
            Phase::Failed(_) => true,
            _ => false,
        }
    }

    pub fn phase(&self) -> (phase: Phase)
        ensures
            phase == self@.phase,
    {
        self.data.phase
    }

    /// The sync state as it stands, which is what a save writes.
    pub fn store(&self) -> (store: &SyncState)
        ensures
            store@ == self@.store,
    {
        &self.data.store
    }

    pub fn latest(&self) -> (latest: usize)
        ensures
            latest == self@.latest,
    {
        self.data.latest
    }

    pub fn num(&self) -> (num: usize)
        ensures
            num == self@.num,
    {
        self.data.num
    }

    pub fn updated(&self) -> (updated: usize)
        ensures
            updated == self@.updated,
    {
        self.data.updated
    }

    pub fn skipped(&self) -> (skipped: usize)
        ensures
            skipped == self@.skipped,
    {
        self.data.skipped
    }
}

} // verus!
