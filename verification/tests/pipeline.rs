use watchmove::listing::DirectoryEntry;
use watchmove::model::{Failure, EVENT_BUFFER_LEN, POLL_INTERVAL_MS};
use watchmove::pipeline::{
    Action, ChangeEvent, Input, Notice, Pipeline, Relocation, Settings,
};
use watchmove::filter::PatternFilter;

fn settings(pattern: &str) -> Settings {
    Settings {
        watch_path: "/tmp/src".to_string(),
        destination_path: "/tmp/dst".to_string(),
        filter: PatternFilter::new(pattern).unwrap(),
    }
}

fn pipeline(pattern: &str) -> Pipeline {
    Pipeline::new(settings(pattern))
}

fn created(name: &str) -> ChangeEvent {
    ChangeEvent { name: Some(name.to_string()) }
}

fn nameless() -> ChangeEvent {
    ChangeEvent { name: None }
}

fn batch(events: Vec<ChangeEvent>) -> Input {
    Input::Batch { events }
}

fn listing(names: &[&str]) -> Input {
    Input::Listing {
        entries: names
            .iter()
            .map(|name| DirectoryEntry { name: name.to_string(), is_file: true })
            .collect(),
    }
}

fn poll(delay_ms: u64) -> Action {
    Action::PollDirectory { directory: "/tmp/src".to_string(), delay_ms }
}

fn rename(name: &str) -> Action {
    Action::Rename { source: format!("/tmp/src/{}", name), target: format!("/tmp/dst/{}", name) }
}

fn matched(name: &str) -> Vec<Notice> {
    vec![
        Notice::Matched { path: format!("/tmp/src/{}", name) },
        Notice::Waiting { path: format!("/tmp/src/{}", name) },
    ]
}

fn moving(name: &str) -> Vec<Notice> {
    vec![Notice::Moving { path: format!("/tmp/src/{}", name), destination: "/tmp/dst".to_string() }]
}

#[test]
fn new_pipeline_asks_for_events() {
    assert_eq!(pipeline(r"\.mkv$").request(), Action::ReadEvents);
}

#[test]
fn matched_file_is_moved_once_the_directory_is_settled() {
    let pipeline = pipeline(r"\.mkv$");
    let (pipeline, notices) = pipeline.step(batch(vec![created("movie.mkv")]));
    assert_eq!(notices, matched("movie.mkv"));
    assert_eq!(pipeline.request(), poll(0));
    let (pipeline, notices) = pipeline.step(listing(&["movie.mkv", "notes.txt"]));
    assert_eq!(notices, moving("movie.mkv"));
    assert_eq!(pipeline.request(), rename("movie.mkv"));
    let (pipeline, notices) = pipeline.step(Input::Moved);
    assert_eq!(notices, vec![]);
    assert_eq!(pipeline.request(), Action::ReadEvents);
}

#[test]
fn move_waits_until_the_partial_file_is_gone() {
    let pipeline = pipeline(r"\.mkv$");
    let (mut pipeline, _) = pipeline.step(batch(vec![created("movie.mkv")]));
    assert_eq!(pipeline.request(), poll(0));
    let mut slept_ms = 0;
    // The partial file is removed 2.5 s after the match: the listings taken
    // at 0 s, 1 s and 2 s still hold it, the one taken at 3 s does not.
    for _ in 0..3 {
        let (next, notices) = pipeline.step(listing(&["movie.mkv", "movie.mkv.part"]));
        assert_eq!(notices, vec![]);
        assert_eq!(next.request(), poll(POLL_INTERVAL_MS));
        slept_ms += POLL_INTERVAL_MS;
        pipeline = next;
    }
    let (pipeline, notices) = pipeline.step(listing(&["movie.mkv"]));
    assert_eq!(notices, moving("movie.mkv"));
    assert_eq!(pipeline.request(), rename("movie.mkv"));
    assert_eq!(slept_ms, 3000);
}

#[test]
fn poll_interval_is_one_second() {
    assert_eq!(POLL_INTERVAL_MS, 1000);
}

#[test]
fn event_buffer_holds_one_kibibyte() {
    assert_eq!(EVENT_BUFFER_LEN, 1024);
}

#[test]
fn nameless_event_is_passed_over() {
    let (pipeline, notices) = pipeline(".").step(batch(vec![nameless()]));
    assert_eq!(notices, vec![]);
    assert_eq!(pipeline.request(), Action::ReadEvents);
}

#[test]
fn nameless_event_does_not_hold_up_the_events_behind_it() {
    let (pipeline, notices) =
        pipeline(r"\.mkv$").step(batch(vec![nameless(), created("movie.mkv")]));
    assert_eq!(notices, matched("movie.mkv"));
    assert_eq!(pipeline.request(), poll(0));
}

#[test]
fn unmatched_event_is_passed_over() {
    let (pipeline, notices) =
        pipeline(r"\.mkv$").step(batch(vec![created("song.mp3"), created("movie.mkv.part")]));
    assert_eq!(notices, vec![]);
    assert_eq!(pipeline.request(), Action::ReadEvents);
}

#[test]
fn empty_batch_leaves_the_pipeline_idle() {
    let (pipeline, notices) = pipeline(r"\.mkv$").step(batch(vec![]));
    assert_eq!(notices, vec![]);
    assert_eq!(pipeline.request(), Action::ReadEvents);
}

#[test]
fn pattern_is_tested_against_the_whole_candidate_path() {
    let (pipeline, notices) = pipeline("^/tmp/src/movie").step(batch(vec![created("movie.avi")]));
    assert_eq!(notices, matched("movie.avi"));
    assert_eq!(pipeline.request(), poll(0));
}

#[test]
fn events_of_a_batch_are_handled_in_delivery_order() {
    let events = vec![
        created("skip.txt"),
        created("first.mkv"),
        nameless(),
        created("second.mkv"),
        created("skip.mp3"),
    ];
    let (pipeline, notices) = pipeline(r"\.mkv$").step(batch(events));
    assert_eq!(notices, matched("first.mkv"));
    let (pipeline, _) = pipeline.step(listing(&[]));
    assert_eq!(pipeline.request(), rename("first.mkv"));
    let (pipeline, notices) = pipeline.step(Input::Moved);
    assert_eq!(notices, matched("second.mkv"));
    assert_eq!(pipeline.request(), poll(0));
    let (pipeline, notices) = pipeline.step(listing(&["second.mkv"]));
    assert_eq!(notices, moving("second.mkv"));
    assert_eq!(pipeline.request(), rename("second.mkv"));
    let (pipeline, notices) = pipeline.step(Input::Moved);
    assert_eq!(notices, vec![]);
    assert_eq!(pipeline.request(), Action::ReadEvents);
}

#[test]
fn empty_read_is_tried_again() {
    let (pipeline, notices) = pipeline(r"\.mkv$").step(Input::NoEventsYet);
    assert_eq!(notices, vec![]);
    assert_eq!(pipeline.request(), Action::ReadEvents);
    let (pipeline, notices) = pipeline.step(batch(vec![created("movie.mkv")]));
    assert_eq!(notices, matched("movie.mkv"));
    assert_eq!(pipeline.request(), poll(0));
}

#[test]
fn failed_read_ends_the_pipeline() {
    let (pipeline, notices) = pipeline(r"\.mkv$").step(Input::ReadFailed);
    assert_eq!(notices, vec![]);
    assert_eq!(pipeline.request(), Action::Abort { failure: Failure::NotificationChannel });
}

#[test]
fn failed_listing_ends_the_pipeline() {
    let (pipeline, _) = pipeline(r"\.mkv$").step(batch(vec![created("movie.mkv")]));
    let (pipeline, notices) = pipeline.step(Input::ListingFailed);
    assert_eq!(notices, vec![]);
    assert_eq!(pipeline.request(), Action::Abort { failure: Failure::DirectoryRead });
}

#[test]
fn failed_move_ends_the_pipeline() {
    let (pipeline, _) = pipeline(r"\.mkv$").step(batch(vec![created("a.mkv"), created("b.mkv")]));
    let (pipeline, _) = pipeline.step(listing(&[]));
    let (pipeline, notices) = pipeline.step(Input::MoveFailed);
    assert_eq!(notices, vec![]);
    assert_eq!(pipeline.request(), Action::Abort { failure: Failure::Move });
}

#[test]
fn ended_pipeline_stays_ended() {
    let (pipeline, _) = pipeline(r"\.mkv$").step(Input::ReadFailed);
    let (pipeline, notices) = pipeline.step(batch(vec![created("movie.mkv")]));
    assert_eq!(notices, vec![]);
    assert_eq!(pipeline.request(), Action::Abort { failure: Failure::NotificationChannel });
    let (pipeline, _) = pipeline.step(Input::Moved);
    assert_eq!(pipeline.request(), Action::Abort { failure: Failure::NotificationChannel });
}

#[test]
fn report_that_answers_nothing_changes_nothing() {
    let (pipeline, notices) = pipeline(r"\.mkv$").step(Input::Moved);
    assert_eq!(notices, vec![]);
    assert_eq!(pipeline.request(), Action::ReadEvents);
    let (pipeline, _) = pipeline.step(listing(&["x.part"]));
    assert_eq!(pipeline.request(), Action::ReadEvents);
    let (pipeline, _) = pipeline.step(batch(vec![created("movie.mkv")]));
    let (pipeline, notices) = pipeline.step(batch(vec![created("other.mkv")]));
    assert_eq!(notices, vec![]);
    assert_eq!(pipeline.request(), poll(0));
    let (pipeline, _) = pipeline.step(Input::Moved);
    assert_eq!(pipeline.request(), poll(0));
    let (pipeline, _) = pipeline.step(listing(&[]));
    let (pipeline, notices) = pipeline.step(listing(&["x.part"]));
    assert_eq!(notices, vec![]);
    assert_eq!(pipeline.request(), rename("movie.mkv"));
}

#[test]
fn directory_named_like_a_partial_file_does_not_hold_up_the_move() {
    let (pipeline, _) = pipeline(r"\.mkv$").step(batch(vec![created("movie.mkv")]));
    let entries = vec![
        DirectoryEntry { name: "incoming.part".to_string(), is_file: false },
        DirectoryEntry { name: "movie.mkv".to_string(), is_file: true },
    ];
    let (pipeline, _) = pipeline.step(Input::Listing { entries });
    assert_eq!(pipeline.request(), rename("movie.mkv"));
}

#[test]
fn verdict_follows_the_filter() {
    let candidate = "/tmp/src/movie.mkv".to_string();
    assert_eq!(
        Relocation::when_matched(candidate.clone(), "/tmp/dst", "movie.mkv", true),
        Some(Relocation { source: candidate.clone(), target: "/tmp/dst/movie.mkv".to_string() })
    );
    assert_eq!(Relocation::when_matched(candidate, "/tmp/dst", "movie.mkv", false), None);
}

#[test]
fn accepted_event_starts_a_relocation() {
    assert_eq!(
        settings(r"\.mkv$").examine(&created("movie.mkv")),
        Some(Relocation {
            source: "/tmp/src/movie.mkv".to_string(),
            target: "/tmp/dst/movie.mkv".to_string(),
        })
    );
}

#[test]
fn other_events_start_nothing() {
    assert_eq!(settings(r"\.mkv$").examine(&created("movie.avi")), None);
    assert_eq!(settings(r"\.mkv$").examine(&nameless()), None);
    assert_eq!(settings("").examine(&nameless()), None);
}
