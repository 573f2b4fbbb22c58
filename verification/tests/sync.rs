use std::collections::HashSet;

use xkcd_sync::catalog::Xkcd;
use xkcd_sync::cli_progress::Fraction;
use xkcd_sync::store::SyncState;
use xkcd_sync::sync::model::{Event, Phase, SyncError, CHECKPOINT_INTERVAL};
use xkcd_sync::sync::run::{Action, SyncRun};

const DIR: &str = "comics";
const FILE: &str = "xkcd_sync_state.json";
const LATEST_URL: &str = "https://xkcd.com/info.0.json";

fn comic(num: usize) -> Xkcd {
    Xkcd {
        month: String::from("1"),
        link: String::new(),
        year: String::from("2006"),
        news: String::new(),
        safe_title: format!("Comic {}", num),
        transcript: String::new(),
        alt: format!("Alt {}", num),
        title: format!("Comic {}", num),
        day: String::from("1"),
        num,
        img: format!("https://imgs.xkcd.com/comics/name{}.png", num),
    }
}

fn new_run() -> SyncRun {
    SyncRun::new(String::from(DIR), String::from(FILE))
}

/// A catalog, a disk and a terminal that never leave the test.
struct World {
    latest: Option<usize>,
    broken_metadata: HashSet<usize>,
    broken_images: HashSet<usize>,
    files: HashSet<String>,
    persisted: Option<SyncState>,
    stop_after_saves: Option<usize>,
    fetched: Vec<String>,
    downloaded: Vec<String>,
    printed: Vec<String>,
    rendered: Vec<(Fraction, String)>,
    saves_at: Vec<usize>,
    most_unsaved: usize,
    most_unsaved_at_a_new_comic: usize,
    last_num: usize,
}

impl World {
    fn new(latest: usize) -> World {
        World {
            latest: Some(latest),
            broken_metadata: HashSet::new(),
            broken_images: HashSet::new(),
            files: HashSet::new(),
            persisted: None,
            stop_after_saves: None,
            fetched: Vec::new(),
            downloaded: Vec::new(),
            printed: Vec::new(),
            rendered: Vec::new(),
            saves_at: Vec::new(),
            most_unsaved: 0,
            most_unsaved_at_a_new_comic: 0,
            last_num: 0,
        }
    }

    fn forget_what_happened(&mut self) {
        self.fetched.clear();
        self.downloaded.clear();
        self.printed.clear();
        self.rendered.clear();
        self.saves_at.clear();
        self.most_unsaved = 0;
        self.most_unsaved_at_a_new_comic = 0;
        self.last_num = 0;
    }

    /// Notes how many updates a kill at this point would lose.
    fn watch(&mut self, run: &SyncRun) {
        let unsaved = run.updated() - self.saves_at.last().copied().unwrap_or(0);
        self.most_unsaved = self.most_unsaved.max(unsaved);
        if run.num() != self.last_num {
            self.most_unsaved_at_a_new_comic = self.most_unsaved_at_a_new_comic.max(unsaved);
            self.last_num = run.num();
        }
    }

    fn num_of(url: &str) -> usize {
        let rest = url.strip_prefix("http://xkcd.com/").unwrap();
        rest.strip_suffix("/info.0.json").unwrap().parse().unwrap()
    }

    fn perform(&mut self, run: &SyncRun, action: &Action) -> Event {
        match action {
            Action::CreateDir { .. } => Event::Done,
            Action::Print { text } => {
                self.printed.push(text.clone());
                Event::Done
            }
            Action::Load { .. } => match &self.persisted {
                Some(state) => Event::Loaded(state.clone()),
                None => Event::Missing,
            },
            Action::Render { fraction, description } => {
                self.rendered.push((*fraction, description.clone()));
                Event::Done
            }
            Action::Fetch { url } => {
                self.fetched.push(url.clone());
                if url == LATEST_URL {
                    match self.latest {
                        Some(num) => Event::Fetched(comic(num)),
                        None => Event::Failed(String::from("offline")),
                    }
                } else {
                    let num = World::num_of(url);
                    if self.broken_metadata.contains(&num) {
                        Event::Failed(String::from("status code 404"))
                    } else {
                        Event::Fetched(comic(num))
                    }
                }
            }
            Action::Probe { path } => Event::Found(self.files.contains(path)),
            Action::Download { url, path } => {
                self.downloaded.push(url.clone());
                let broken = self.broken_images.iter().any(|n| *url == comic(*n).img);
                if broken {
                    Event::Failed(String::from("timed out"))
                } else {
                    self.files.insert(path.clone());
                    Event::Done
                }
            }
            Action::Save { .. } => {
                self.persisted = Some(run.store().clone());
                self.saves_at.push(run.updated());
                Event::Done
            }
            Action::Finish { .. } | Action::Abort { .. } => unreachable!(),
        }
    }

    /// Drives a run from the start to its end, or until it is killed.
    fn run(&mut self) -> Option<Action> {
        let mut run = new_run();
        loop {
            let action = run.action();
            if matches!(action, Action::Finish { .. } | Action::Abort { .. }) {
                assert!(run.is_over());
                return Some(action);
            }
            assert!(!run.is_over());
            self.watch(&run);
            let event = self.perform(&run, &action);
            if let Some(limit) = self.stop_after_saves {
                if self.saves_at.len() == limit {
                    return None;
                }
            }
            run = run.step(event);
        }
    }

    fn on_record(&self) -> Vec<usize> {
        let mut nums = self.persisted.as_ref().unwrap().nums();
        nums.sort();
        nums
    }

    fn files(&self) -> Vec<String> {
        let mut files: Vec<String> = self.files.iter().cloned().collect();
        files.sort();
        files
    }
}

fn finish(updated: usize, skipped: usize) -> Option<Action> {
    Some(Action::Finish { updated, skipped })
}

fn abort(error: SyncError) -> Option<Action> {
    Some(Action::Abort { error })
}

fn metadata_urls(nums: &[usize]) -> Vec<String> {
    let mut urls = vec![String::from(LATEST_URL)];
    for num in nums {
        urls.push(format!("http://xkcd.com/{}/info.0.json", num));
    }
    urls
}

#[test]
fn fresh_run_mirrors_everything() {
    let mut world = World::new(3);
    assert_eq!(world.run(), finish(3, 0));
    assert_eq!(world.on_record(), vec![1, 2, 3]);
    assert_eq!(
        world.files(),
        vec!["comics/00001_name1.png", "comics/00002_name2.png", "comics/00003_name3.png"]
    );
    assert_eq!(world.fetched, metadata_urls(&[1, 2, 3]));
    assert_eq!(world.saves_at, vec![3]);
    assert_eq!(world.persisted.as_ref().unwrap().get(2), Some(&comic(2)));
}

#[test]
fn fresh_run_step_by_step() {
    let mut run = new_run();
    let path = String::from("comics/00001_name1.png");
    let script: Vec<(Action, Event)> = vec![
        (Action::CreateDir { path: String::from("comics") }, Event::Done),
        (
            Action::Print { text: String::from("Opening xkcd_sync_state.json as sync state") },
            Event::Done,
        ),
        (Action::Load { path: String::from("xkcd_sync_state.json") }, Event::Missing),
        (
            Action::Render {
                fraction: Fraction { done: 0, total: 1 },
                description: String::from("Fetching latest comic information..."),
            },
            Event::Done,
        ),
        (Action::Fetch { url: String::from("https://xkcd.com/info.0.json") }, Event::Fetched(comic(1))),
        (
            Action::Render {
                fraction: Fraction { done: 1, total: 1 },
                description: String::from("Fetching comic metadata #1"),
            },
            Event::Done,
        ),
        (
            Action::Fetch { url: String::from("http://xkcd.com/1/info.0.json") },
            Event::Fetched(comic(1)),
        ),
        (Action::Probe { path: path.clone() }, Event::Found(false)),
        (
            Action::Render {
                fraction: Fraction { done: 1, total: 1 },
                description: String::from("Fetching comic image #1"),
            },
            Event::Done,
        ),
        (
            Action::Download {
                url: String::from("https://imgs.xkcd.com/comics/name1.png"),
                path: path.clone(),
            },
            Event::Done,
        ),
        (
            Action::Print { text: String::from("Saving sync state to xkcd_sync_state.json") },
            Event::Done,
        ),
        (Action::Save { path: String::from("xkcd_sync_state.json") }, Event::Done),
        (
            Action::Print {
                text: String::from("Finished sync run: Updated 1 comics, skipped 0 comics."),
            },
            Event::Done,
        ),
    ];
    for (expected, event) in script {
        assert_eq!(run.action(), expected);
        run = run.step(event);
    }
    assert_eq!(run.action(), Action::Finish { updated: 1, skipped: 0 });
    assert_eq!(run.phase(), Phase::Finished);
    assert_eq!((run.latest(), run.num(), run.updated(), run.skipped()), (1, 1, 1, 0));
    assert!(run.store().contains(1));
}

#[test]
fn second_run_updates_nothing() {
    let mut world = World::new(3);
    assert_eq!(world.run(), finish(3, 0));
    world.forget_what_happened();
    assert_eq!(world.run(), finish(0, 3));
    assert_eq!(world.fetched, metadata_urls(&[]));
    assert_eq!(world.downloaded, Vec::<String>::new());
    assert_eq!(world.rendered.len(), 1);
    assert_eq!(world.on_record(), vec![1, 2, 3]);
    assert_eq!(world.saves_at, vec![0]);
    assert_eq!(
        world.printed.last().unwrap(),
        "Finished sync run: Updated 0 comics, skipped 3 comics."
    );
}

#[test]
fn failed_metadata_is_left_for_the_next_run() {
    let mut world = World::new(3);
    world.broken_metadata.insert(2);
    assert_eq!(world.run(), finish(2, 0));
    assert_eq!(world.on_record(), vec![1, 3]);
    assert_eq!(world.files(), vec!["comics/00001_name1.png", "comics/00003_name3.png"]);
    assert_eq!(world.fetched, metadata_urls(&[1, 2, 3]));
    assert!(world.printed.contains(&String::from(
        "Error retrieving metadata for #2: status code 404\nNote: Skipping #2 as it will be retieved next time."
    )));

    world.broken_metadata.clear();
    world.forget_what_happened();
    assert_eq!(world.run(), finish(1, 2));
    assert_eq!(world.fetched, metadata_urls(&[2]));
    assert_eq!(world.downloaded, vec!["https://imgs.xkcd.com/comics/name2.png"]);
    assert_eq!(world.on_record(), vec![1, 2, 3]);
}

#[test]
fn failed_image_is_left_for_the_next_run() {
    let mut world = World::new(3);
    world.broken_images.insert(2);
    assert_eq!(world.run(), finish(3, 0));
    assert_eq!(world.on_record(), vec![1, 2, 3]);
    assert_eq!(world.files(), vec!["comics/00001_name1.png", "comics/00003_name3.png"]);
    assert!(world.printed.contains(&String::from(
        "Error retrieving image for #2: timed out\nNote: Skipping #2 as it will be retieved next time."
    )));

    world.broken_images.clear();
    world.forget_what_happened();
    assert_eq!(world.run(), finish(1, 2));
    assert_eq!(world.fetched, metadata_urls(&[]));
    assert_eq!(world.downloaded, vec!["https://imgs.xkcd.com/comics/name2.png"]);
}

#[test]
fn comic_counts_once_when_metadata_and_image_are_fetched() {
    let mut world = World::new(1);
    assert_eq!(world.run(), finish(1, 0));
    assert_eq!(world.fetched.len(), 2);
    assert_eq!(world.downloaded.len(), 1);
}

#[test]
fn image_in_place_without_metadata_counts_both_ways() {
    let mut world = World::new(1);
    world.files.insert(String::from("comics/00001_name1.png"));
    assert_eq!(world.run(), finish(1, 1));
    assert_eq!(world.downloaded, Vec::<String>::new());
    assert_eq!(world.on_record(), vec![1]);
}

#[test]
fn checkpoints_at_every_fiftieth_update() {
    let mut world = World::new(120);
    assert_eq!(world.run(), finish(120, 0));
    assert_eq!(world.saves_at, vec![50, 100, 120]);
    let announced: Vec<&(Fraction, String)> =
        world.rendered.iter().filter(|(_, d)| d.starts_with("Saving")).collect();
    assert_eq!(
        announced,
        vec![
            &(Fraction { done: 50, total: 120 }, String::from("Saving sync state to xkcd_sync_state.json")),
            &(Fraction { done: 100, total: 120 }, String::from("Saving sync state to xkcd_sync_state.json")),
        ]
    );
    assert_eq!(CHECKPOINT_INTERVAL, 50);
}

#[test]
fn no_checkpoint_short_of_the_interval() {
    let mut world = World::new(49);
    assert_eq!(world.run(), finish(49, 0));
    assert_eq!(world.saves_at, vec![49]);
    let mut world = World::new(50);
    assert_eq!(world.run(), finish(50, 0));
    assert_eq!(world.saves_at, vec![50, 50]);
}

#[test]
fn checkpoint_repeats_while_the_count_stands_at_a_multiple() {
    let mut world = World::new(52);
    let mut state = SyncState::new();
    for num in [51, 52] {
        assert_eq!(state.insert(num, comic(num)), Ok(()));
        world.files.insert(format!("comics/{:05}_name{}.png", num, num));
    }
    world.persisted = Some(state);
    assert_eq!(world.run(), finish(50, 2));
    assert_eq!(world.saves_at, vec![50, 50, 50, 50]);
}

#[test]
fn failed_image_does_not_pass_over_the_checkpoint() {
    let mut world = World::new(51);
    world.broken_images.insert(50);
    assert_eq!(world.run(), finish(51, 0));
    assert_eq!(world.saves_at, vec![50, 51]);
    assert_eq!(world.on_record(), (1..=51).collect::<Vec<usize>>());
    let saving = String::from("Saving sync state to xkcd_sync_state.json");
    let announced: Vec<&(Fraction, String)> =
        world.rendered.iter().filter(|(_, d)| *d == saving).collect();
    assert_eq!(announced, vec![&(Fraction { done: 50, total: 51 }, saving.clone())]);
}

#[test]
fn checkpoint_after_a_failed_image_comes_before_the_next_comic() {
    let mut world = World::new(51);
    world.broken_images.insert(50);
    world.stop_after_saves = Some(1);
    assert_eq!(world.run(), None);
    assert_eq!(world.saves_at, vec![50]);
    assert_eq!(world.on_record(), (1..=50).collect::<Vec<usize>>());
    assert_eq!(world.fetched, metadata_urls(&(1..=50).collect::<Vec<usize>>()));
    assert_eq!(
        world.printed.last().unwrap(),
        "Error retrieving image for #50: timed out\nNote: Skipping #50 as it will be retieved next time."
    );
    assert!(!world.files.contains("comics/00050_name50.png"));
}

#[test]
fn step_after_the_image_warning_announces_the_save() {
    let mut run = new_run();
    for event in up_to_latest(51) {
        run = run.step(event);
    }
    for num in 1..=49 {
        for event in [Event::Done, Event::Fetched(comic(num)), Event::Found(false), Event::Done, Event::Done] {
            run = run.step(event);
        }
    }
    for event in [Event::Done, Event::Fetched(comic(50)), Event::Found(false), Event::Done] {
        run = run.step(event);
    }
    assert_eq!(run.phase(), Phase::Downloading);
    run = run.step(failed());
    assert_eq!(run.phase(), Phase::WarningImage);
    assert_eq!((run.num(), run.updated()), (50, 50));
    run = run.step(Event::Done);
    assert_eq!(run.phase(), Phase::AnnouncingCheckpoint);
    assert_eq!(
        run.action(),
        Action::Render {
            fraction: Fraction { done: 50, total: 51 },
            description: String::from("Saving sync state to xkcd_sync_state.json"),
        }
    );
    run = run.step(Event::Done);
    assert_eq!(run.action(), Action::Save { path: String::from("xkcd_sync_state.json") });
    assert_eq!(run.store().len(), 50);
    run = run.step(Event::Done);
    assert_eq!((run.phase(), run.num()), (Phase::AnnouncingMetadata, 51));
}

#[test]
fn image_warning_short_of_the_interval_goes_on() {
    let mut events = up_to_latest(2);
    events.extend(vec![Event::Done, Event::Fetched(comic(1)), Event::Found(false), Event::Done, failed()]);
    let run = after(events);
    assert_eq!(run.phase(), Phase::WarningImage);
    let run = run.step(Event::Done);
    assert_eq!((run.phase(), run.num(), run.updated()), (Phase::AnnouncingMetadata, 2, 1));
}

#[test]
fn failed_metadata_asks_for_no_save_of_its_own() {
    let mut world = World::new(52);
    world.broken_metadata.insert(51);
    assert_eq!(world.run(), finish(51, 0));
    assert_eq!(world.saves_at, vec![50, 51]);
    let mut on_record: Vec<usize> = (1..=50).collect();
    on_record.push(52);
    assert_eq!(world.on_record(), on_record);
}

#[test]
fn failed_image_of_a_comic_on_record_saves_again_at_a_multiple() {
    let mut world = World::new(51);
    let mut state = SyncState::new();
    assert_eq!(state.insert(51, comic(51)), Ok(()));
    world.persisted = Some(state);
    world.broken_images.insert(51);
    assert_eq!(world.run(), finish(50, 0));
    assert_eq!(world.saves_at, vec![50, 50, 50]);
}

#[test]
fn unsaved_updates_stay_within_the_interval() {
    let mut world = World::new(230);
    for num in [51, 75, 150] {
        world.broken_images.insert(num);
    }
    for num in [7, 60, 149, 200] {
        world.broken_metadata.insert(num);
    }
    for num in [3, 99, 102] {
        world.files.insert(format!("comics/{:05}_name{}.png", num, num));
    }
    assert_eq!(world.run(), finish(226, 3));
    assert_eq!(world.saves_at, vec![50, 100, 150, 200, 226]);
    assert_eq!(world.most_unsaved, 50);
    assert_eq!(world.most_unsaved_at_a_new_comic, 49);
}

#[test]
fn killed_run_resumes_from_its_checkpoint() {
    let mut world = World::new(120);
    world.stop_after_saves = Some(2);
    assert_eq!(world.run(), None);
    assert_eq!(world.saves_at, vec![50, 100]);
    assert_eq!(world.on_record(), (1..=100).collect::<Vec<usize>>());

    world.stop_after_saves = None;
    world.forget_what_happened();
    assert_eq!(world.run(), finish(20, 100));
    assert_eq!(world.fetched, metadata_urls(&(101..=120).collect::<Vec<usize>>()));
    assert_eq!(world.downloaded.len(), 20);
    assert_eq!(world.on_record(), (1..=120).collect::<Vec<usize>>());
}

#[test]
fn killed_between_checkpoints_refetches_what_was_not_saved() {
    let mut world = World::new(60);
    world.stop_after_saves = Some(1);
    assert_eq!(world.run(), None);
    assert_eq!(world.on_record(), (1..=50).collect::<Vec<usize>>());
    world.stop_after_saves = None;
    world.forget_what_happened();
    assert_eq!(world.run(), finish(10, 50));
    assert_eq!(world.fetched, metadata_urls(&(51..=60).collect::<Vec<usize>>()));
}

#[test]
fn empty_catalog() {
    let mut world = World::new(0);
    assert_eq!(world.run(), finish(0, 0));
    assert_eq!(world.fetched, metadata_urls(&[]));
    assert_eq!(world.saves_at, vec![0]);
    assert_eq!(world.on_record(), Vec::<usize>::new());
}

#[test]
fn progress_is_the_number_over_the_latest() {
    let mut world = World::new(4);
    world.files.insert(String::from("comics/00003_name3.png"));
    assert_eq!(world.run(), finish(4, 1));
    let expected: Vec<(Fraction, String)> = vec![
        (Fraction { done: 0, total: 1 }, String::from("Fetching latest comic information...")),
        (Fraction { done: 1, total: 4 }, String::from("Fetching comic metadata #1")),
        (Fraction { done: 1, total: 4 }, String::from("Fetching comic image #1")),
        (Fraction { done: 2, total: 4 }, String::from("Fetching comic metadata #2")),
        (Fraction { done: 2, total: 4 }, String::from("Fetching comic image #2")),
        (Fraction { done: 3, total: 4 }, String::from("Fetching comic metadata #3")),
        (Fraction { done: 4, total: 4 }, String::from("Fetching comic metadata #4")),
        (Fraction { done: 4, total: 4 }, String::from("Fetching comic image #4")),
    ];
    assert_eq!(world.rendered, expected);
}

#[test]
fn unknown_latest_is_fatal() {
    let mut world = World::new(3);
    world.latest = None;
    assert_eq!(world.run(), abort(SyncError::LatestUnavailable));
    assert_eq!(world.saves_at, Vec::<usize>::new());
    assert_eq!(world.fetched, metadata_urls(&[]));
}

/// Steps a new run through `events` and gives the run that results.
fn after(events: Vec<Event>) -> SyncRun {
    let mut run = new_run();
    for event in events {
        run = run.step(event);
    }
    run
}

fn failed() -> Event {
    Event::Failed(String::from("no"))
}

fn up_to_latest(latest: usize) -> Vec<Event> {
    vec![Event::Done, Event::Done, Event::Missing, Event::Done, Event::Fetched(comic(latest))]
}

#[test]
fn directory_failure_is_fatal() {
    let run = after(vec![failed()]);
    assert_eq!(run.action(), Action::Abort { error: SyncError::CreateDir });
    assert_eq!(run.phase(), Phase::Failed(SyncError::CreateDir));
    assert!(run.is_over());
}

#[test]
fn corrupt_state_is_fatal() {
    let run = after(vec![Event::Done, Event::Done, failed()]);
    assert_eq!(run.action(), Action::Abort { error: SyncError::CorruptState });
}

#[test]
fn print_failure_is_fatal() {
    let run = after(vec![Event::Done, failed()]);
    assert_eq!(run.action(), Action::Abort { error: SyncError::Output });
}

#[test]
fn render_failure_is_fatal() {
    let run = after(vec![Event::Done, Event::Done, Event::Missing, failed()]);
    assert_eq!(run.action(), Action::Abort { error: SyncError::Render });
    let mut events = up_to_latest(2);
    events.push(failed());
    assert_eq!(after(events).action(), Action::Abort { error: SyncError::Render });
    let mut events = up_to_latest(2);
    events.extend(vec![Event::Done, Event::Fetched(comic(1)), Event::Found(false), failed()]);
    assert_eq!(after(events).action(), Action::Abort { error: SyncError::Render });
}

#[test]
fn probe_failure_is_fatal() {
    let mut events = up_to_latest(2);
    events.extend(vec![Event::Done, Event::Fetched(comic(1)), failed()]);
    assert_eq!(after(events).action(), Action::Abort { error: SyncError::Probe });
}

#[test]
fn save_failure_is_fatal() {
    let mut events = up_to_latest(0);
    assert_eq!(after(up_to_latest(0)).phase(), Phase::AnnouncingFinalSave);
    events.extend(vec![Event::Done, failed()]);
    assert_eq!(after(events).action(), Action::Abort { error: SyncError::Save });
}

#[test]
fn underivable_path_is_fatal() {
    let mut odd = comic(1);
    odd.img = String::from("https://imgs.xkcd.com/comics/");
    let mut events = up_to_latest(3);
    events.extend(vec![Event::Done, Event::Fetched(odd.clone())]);
    let run = after(events);
    assert_eq!(run.action(), Action::Abort { error: SyncError::PathDerivation });
    assert_eq!(run.updated(), 1);
    assert_eq!(run.store().get(1), Some(&odd));

    let mut state = SyncState::new();
    assert_eq!(state.insert(1, odd), Ok(()));
    let run = after(vec![
        Event::Done,
        Event::Done,
        Event::Loaded(state),
        Event::Done,
        Event::Fetched(comic(3)),
    ]);
    assert_eq!(run.action(), Action::Abort { error: SyncError::PathDerivation });
    assert_eq!(run.updated(), 0);
}

#[test]
fn outcome_of_another_step_is_fatal() {
    assert_eq!(after(vec![Event::Found(true)]).action(), Action::Abort { error: SyncError::Protocol });
    assert_eq!(
        after(vec![Event::Done, Event::Done, Event::Done]).action(),
        Action::Abort { error: SyncError::Protocol }
    );
    let mut events = up_to_latest(2);
    events.push(Event::Missing);
    assert_eq!(after(events).action(), Action::Abort { error: SyncError::Protocol });
    let mut events = up_to_latest(2);
    events.extend(vec![Event::Done, Event::Fetched(comic(1)), Event::Done]);
    assert_eq!(after(events).action(), Action::Abort { error: SyncError::Protocol });
}

#[test]
fn a_run_that_is_over_stays_as_it_is() {
    let mut events = up_to_latest(0);
    events.extend(vec![Event::Done, Event::Done, Event::Done]);
    let run = after(events);
    assert_eq!(run.phase(), Phase::Finished);
    let run = run.step(Event::Done).step(failed()).step(Event::Fetched(comic(9)));
    assert_eq!(run.action(), Action::Finish { updated: 0, skipped: 0 });
    let run = after(vec![failed()]).step(Event::Done).step(Event::Missing);
    assert_eq!(run.action(), Action::Abort { error: SyncError::CreateDir });
}

#[test]
fn loaded_state_is_kept_as_it_is() {
    let mut state = SyncState::new();
    let mut old = comic(2);
    old.title = String::from("as it was");
    assert_eq!(state.insert(2, old.clone()), Ok(()));
    let mut world = World::new(3);
    world.persisted = Some(state);
    assert_eq!(world.run(), finish(3, 0));
    assert_eq!(world.fetched, metadata_urls(&[1, 3]));
    assert_eq!(world.persisted.as_ref().unwrap().get(2), Some(&old));
}

#[test]
fn new_run_is_at_the_start() {
    let run = new_run();
    assert_eq!(run.phase(), Phase::CreatingDir);
    assert_eq!((run.latest(), run.num(), run.updated(), run.skipped()), (0, 0, 0, 0));
    assert_eq!(run.store().len(), 0);
    assert!(!run.is_over());
}
