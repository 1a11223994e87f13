use ios::manifest::ManifestEntry;
use ios::outcome::{ExtractError, Outcome, SkipReason};
use ios::policy::Organizer;
use ios::run::{conclude, elapsed, run_manifest, summarize, ExtractionResult, Summary, Tally};
use ios::task::{Action, Event, Layout};
use std::cell::RefCell;
use std::collections::BTreeMap;

fn layout(organize: Organizer) -> Layout {
    Layout { backup_root: "/backup".to_string(), output_root: "/out".to_string(), organize }
}

fn entry(file_id: &str, relative_path: &str) -> ManifestEntry {
    ManifestEntry { file_id: file_id.to_string(), relative_path: relative_path.to_string() }
}

fn result(outcome: Outcome) -> ExtractionResult {
    ExtractionResult { entry: entry("abcd", "a.jpg"), outcome }
}

fn synthetic_manifest(count: usize) -> Vec<ManifestEntry> {
    let mut entries = Vec::new();
    let mut i = 0;
    while i < count {
        let file_id = if i % 10 == 9 { "x".to_string() } else { format!("{:040x}", i) };
        entries.push(entry(&file_id, &format!("Media/DCIM/{}/IMG_{}.JPG", i % 7, i)));
        i += 1;
    }
    entries
}

fn answer(action: Action) -> Event {
    match action {
        Action::Probe { path } => Event::Found(!path.ends_with('3')),
        Action::Measure { .. } => Event::Measured(1),
        Action::CreateDirs { .. } => Event::Completed,
        Action::Copy { from, .. } => {
            if from.ends_with('7') {
                Event::Failed("disk full".to_string())
            } else {
                Event::Completed
            }
        },
    }
}

#[test]
fn summary_counts_each_kind() {
    let results = vec![
        result(Outcome::Success),
        result(Outcome::Skipped(SkipReason::SourceMissing)),
        result(Outcome::Success),
        result(Outcome::Failed(ExtractError::InvalidFileId)),
        result(Outcome::Failed(ExtractError::Io("denied".to_string()))),
        result(Outcome::Success),
    ];
    assert_eq!(
        summarize(&results, 12),
        Summary { success_count: 3, skipped_count: 1, failed_count: 2, elapsed_seconds: 12 }
    );
}

#[test]
fn summary_of_nothing_is_empty() {
    assert_eq!(
        summarize(&Vec::new(), 0),
        Summary { success_count: 0, skipped_count: 0, failed_count: 0, elapsed_seconds: 0 }
    );
}

#[test]
fn counts_add_up_to_the_number_of_entries() {
    let entries = synthetic_manifest(1000);
    let results = run_manifest(&layout(Organizer::Auto), &entries, &answer);
    assert_eq!(results.len(), 1000);
    let summary = summarize(&results, 1);
    assert_eq!(summary.success_count + summary.skipped_count + summary.failed_count, 1000);
    let mut skipped = 0;
    let mut failed = 0;
    let mut i = 0;
    while i < 1000 {
        if i % 10 == 9 || i % 16 == 7 {
            failed += 1;
        } else if i % 16 == 3 {
            skipped += 1;
        }
        i += 1;
    }
    assert_eq!(summary.failed_count, failed);
    assert_eq!(summary.skipped_count, skipped);
    assert_eq!(summary.success_count, 1000 - failed - skipped);
    assert!(failed > 100 && skipped > 0);
}

#[test]
fn results_keep_the_order_of_the_manifest() {
    let entries = synthetic_manifest(50);
    let results = run_manifest(&layout(Organizer::Type), &entries, &answer);
    let mut i = 0;
    while i < entries.len() {
        assert_eq!(results[i].entry, entries[i]);
        i += 1;
    }
}

#[test]
fn a_missing_source_does_not_stop_the_run() {
    let entries = vec![entry("aaaa", "a/1.jpg"), entry("bbbb", "a/2.jpg"), entry("cccc", "a/3.jpg")];
    let perform = |action: Action| match action {
        Action::Probe { path } => Event::Found(!path.ends_with("bbbb")),
        _ => Event::Completed,
    };
    let results = run_manifest(&layout(Organizer::Auto), &entries, &perform);
    assert_eq!(results[0].outcome, Outcome::Success);
    assert_eq!(results[1].outcome, Outcome::Skipped(SkipReason::SourceMissing));
    assert_eq!(results[2].outcome, Outcome::Success);
}

#[test]
fn a_failure_does_not_stop_the_run() {
    let entries = vec![entry("aaaa", "a/1.jpg"), entry("b", "a/2.jpg"), entry("cccc", "a/3.jpg")];
    let perform = |action: Action| match action {
        Action::Probe { .. } => Event::Found(true),
        Action::Copy { from, .. } if from.ends_with("aaaa") => Event::Failed("denied".to_string()),
        _ => Event::Completed,
    };
    let results = run_manifest(&layout(Organizer::Auto), &entries, &perform);
    assert_eq!(results[0].outcome, Outcome::Failed(ExtractError::Io("denied".to_string())));
    assert_eq!(results[1].outcome, Outcome::Failed(ExtractError::InvalidFileId));
    assert_eq!(results[2].outcome, Outcome::Success);
}

#[test]
fn the_order_of_completion_does_not_change_the_summary() {
    let entries = synthetic_manifest(1000);
    let results = run_manifest(&layout(Organizer::Auto), &entries, &answer);
    let expected = summarize(&results, 0);
    for workers in [1usize, 4, 16] {
        let mut lanes: Vec<Vec<ExtractionResult>> = Vec::new();
        let mut lane = 0;
        while lane < workers {
            lanes.push(Vec::new());
            lane += 1;
        }
        let mut i = 0;
        for result in run_manifest(&layout(Organizer::Auto), &entries, &answer) {
            lanes[i % workers].push(result);
            i += 1;
        }
        let mut completed: Vec<ExtractionResult> = Vec::new();
        for lane in lanes.into_iter().rev() {
            completed.extend(lane);
        }
        assert_eq!(completed.len(), 1000);
        assert_eq!(summarize(&completed, 0), expected);
        let mut tally = Tally::new(1000);
        for result in &completed {
            assert!(tally.record(&result.outcome));
        }
        assert_eq!(tally.summary(0), Some(expected));
    }
}

#[test]
fn running_twice_plans_the_same_copies() {
    let entries = synthetic_manifest(200);
    let copies = |entries: &Vec<ManifestEntry>| {
        let made: RefCell<BTreeMap<String, String>> = RefCell::new(BTreeMap::new());
        let perform = |action: Action| match action {
            Action::Probe { .. } => Event::Found(true),
            Action::Copy { from, to } => {
                made.borrow_mut().insert(to, from);
                Event::Completed
            },
            _ => Event::Completed,
        };
        let results = run_manifest(&layout(Organizer::Auto), entries, &perform);
        (summarize(&results, 0), made.into_inner())
    };
    let (first_summary, first) = copies(&entries);
    let (second_summary, second) = copies(&entries);
    assert_eq!(first_summary, second_summary);
    assert_eq!(first, second);
    assert_eq!(first.len(), first_summary.success_count);
}

#[test]
fn duplicate_paths_share_one_destination() {
    let entries = vec![entry("aaaa", "Media/a.jpg"), entry("bbbb", "Media/a.jpg")];
    let made: RefCell<BTreeMap<String, String>> = RefCell::new(BTreeMap::new());
    let perform = |action: Action| match action {
        Action::Probe { .. } => Event::Found(true),
        Action::Copy { from, to } => {
            made.borrow_mut().insert(to, from);
            Event::Completed
        },
        _ => Event::Completed,
    };
    let results = run_manifest(&layout(Organizer::Auto), &entries, &perform);
    assert_eq!(summarize(&results, 0).success_count, 2);
    let made = made.into_inner();
    assert_eq!(made.len(), 1);
    assert_eq!(made.get("/out/Media/a.jpg"), Some(&"/backup/bb/bbbb".to_string()));
}

#[test]
fn root_layout_lets_the_later_entry_win() {
    let entries = vec![entry("aaaa", "Media/1/a.jpg"), entry("bbbb", "Media/2/a.jpg")];
    let made: RefCell<BTreeMap<String, String>> = RefCell::new(BTreeMap::new());
    let perform = |action: Action| match action {
        Action::Probe { .. } => Event::Found(true),
        Action::Copy { from, to } => {
            made.borrow_mut().insert(to, from);
            Event::Completed
        },
        _ => Event::Completed,
    };
    run_manifest(&layout(Organizer::Root), &entries, &perform);
    let made = made.into_inner();
    assert_eq!(made.len(), 1);
    assert_eq!(made.get("/out/a.jpg"), Some(&"/backup/bb/bbbb".to_string()));
}

#[test]
fn a_tally_takes_what_it_expects_and_no_more() {
    let mut tally = Tally::new(2);
    assert_eq!(tally.expected(), 2);
    assert!(!tally.is_complete());
    assert_eq!(tally.summary(5), None);
    assert!(tally.record(&Outcome::Success));
    assert_eq!(tally.recorded(), 1);
    assert!(tally.record(&Outcome::Skipped(SkipReason::SourceMissing)));
    assert!(tally.is_complete());
    assert!(!tally.record(&Outcome::Failed(ExtractError::InvalidFileId)));
    assert_eq!(tally.recorded(), 2);
    assert_eq!(
        tally.summary(5),
        Some(Summary { success_count: 1, skipped_count: 1, failed_count: 0, elapsed_seconds: 5 })
    );
}

#[test]
fn an_empty_tally_is_complete_at_once() {
    let tally = Tally::new(0);
    assert!(tally.is_complete());
    assert_eq!(
        tally.summary(0),
        Some(Summary { success_count: 0, skipped_count: 0, failed_count: 0, elapsed_seconds: 0 })
    );
}

#[test]
fn elapsed_time_never_runs_backwards() {
    assert_eq!(elapsed(100, 160), 60);
    assert_eq!(elapsed(100, 100), 0);
    assert_eq!(elapsed(160, 100), 0);
    assert_eq!(elapsed(0, u64::MAX), u64::MAX);
}

#[test]
fn a_broken_manifest_fails_the_run() {
    let results = vec![result(Outcome::Success), result(Outcome::Success)];
    let broken = ExtractError::Database("disk I/O error".to_string());
    assert_eq!(conclude(Some(broken.clone()), &results, 3), Err(broken.clone()));
    assert_eq!(conclude(Some(broken.clone()), &Vec::new(), 0), Err(broken));
}

#[test]
fn failed_entries_do_not_fail_the_run() {
    let results = vec![
        result(Outcome::Failed(ExtractError::Io("denied".to_string()))),
        result(Outcome::Skipped(SkipReason::SourceMissing)),
        result(Outcome::Failed(ExtractError::InvalidFileId)),
    ];
    assert_eq!(
        conclude(None, &results, 9),
        Ok(Summary { success_count: 0, skipped_count: 1, failed_count: 2, elapsed_seconds: 9 })
    );
}
