use ingest_bench::driver::{
    can_summarize, summarize, Action, Event, Log, Progress, Summary,
};

/// Drives a run the way an insertion loop does: one insert of `batch_size`
/// rows per batch, failing at the insert whose number is `fail_at`.
/// Returns the number of inserts attempted and the actions taken.
fn drive(max_rows: usize, batch_size: usize, fail_at: Option<usize>) -> (usize, Vec<Action>) {
    let mut progress = Progress::new(max_rows);
    let mut attempts = 0;
    let mut actions = Vec::new();
    loop {
        attempts += 1;
        let event = if fail_at == Some(attempts) {
            Event::InsertFailed
        } else {
            Event::Inserted { rows: batch_size }
        };
        assert!(progress.can_take(event));
        let action = progress.on_event(event);
        actions.push(action);
        if action.stop {
            return (attempts, actions);
        }
        assert!(attempts < 100_000);
    }
}

fn logged(actions: &[Action]) -> Vec<usize> {
    let mut percents = Vec::new();
    for action in actions {
        if let Log::Progress { percent, .. } = action.log {
            percents.push(percent);
        }
    }
    percents
}

#[test]
fn run_stops_after_five_inserts() {
    let (attempts, actions) = drive(50, 10, None);
    assert_eq!(attempts, 5);
    assert_eq!(actions.last().unwrap().log, Log::Progress { rows_inserted: 50, percent: 100 });
    assert_eq!(logged(&actions), vec![20, 40, 60, 80, 100]);
}

#[test]
fn run_stops_at_the_failed_insert() {
    let (attempts, actions) = drive(50, 10, Some(3));
    assert_eq!(attempts, 3);
    assert_eq!(actions, vec![
        Action { log: Log::Progress { rows_inserted: 10, percent: 20 }, stop: false },
        Action { log: Log::Progress { rows_inserted: 20, percent: 40 }, stop: false },
        Action { log: Log::InsertFailed, stop: true },
    ]);
}

#[test]
fn run_may_pass_the_target() {
    let (attempts, actions) = drive(25, 10, None);
    assert_eq!(attempts, 3);
    assert_eq!(actions.last().unwrap(), &Action {
        log: Log::Progress { rows_inserted: 30, percent: 120 },
        stop: true,
    });
}

#[test]
fn percentages_are_logged_once_and_in_order() {
    for (max_rows, batch_size) in [(10000usize, 10usize), (1000, 3), (7, 1), (100, 100), (3, 10)] {
        let (_, actions) = drive(max_rows, batch_size, None);
        let percents = logged(&actions);
        assert!(!percents.is_empty());
        for pair in percents.windows(2) {
            assert!(pair[0] < pair[1]);
        }
    }
    let (attempts, actions) = drive(10000, 10, None);
    assert_eq!(attempts, 1000);
    assert_eq!(logged(&actions), (1..=100).collect::<Vec<usize>>());
}

#[test]
fn new_progress_is_empty() {
    assert_eq!(Progress::new(50), Progress { max_rows: 50, rows_inserted: 0, percent: 0 });
}

#[test]
fn skipped_batch_is_a_warning() {
    let mut progress = Progress::new(50);
    assert_eq!(progress.on_event(Event::Skipped), Action { log: Log::BuildFailed, stop: false });
    assert_eq!(progress, Progress::new(50));
}

#[test]
fn failed_insert_stops_the_run() {
    let mut progress = Progress { max_rows: 50, rows_inserted: 20, percent: 40 };
    assert_eq!(progress.on_event(Event::InsertFailed), Action {
        log: Log::InsertFailed,
        stop: true,
    });
    assert_eq!(progress, Progress { max_rows: 50, rows_inserted: 20, percent: 40 });
}

#[test]
fn insert_without_a_new_percentage_is_silent() {
    let mut progress = Progress::new(1000);
    assert_eq!(progress.on_event(Event::Inserted { rows: 9 }), Action {
        log: Log::Silent,
        stop: false,
    });
    assert_eq!(progress, Progress { max_rows: 1000, rows_inserted: 9, percent: 0 });
    assert_eq!(progress.on_event(Event::Inserted { rows: 1 }), Action {
        log: Log::Progress { rows_inserted: 10, percent: 1 },
        stop: false,
    });
    assert_eq!(progress, Progress { max_rows: 1000, rows_inserted: 10, percent: 1 });
    assert_eq!(progress.on_event(Event::Inserted { rows: 0 }), Action {
        log: Log::Silent,
        stop: false,
    });
}

#[test]
fn events_that_cannot_be_taken() {
    let zero_target = Progress::new(0);
    assert!(!zero_target.can_take(Event::Inserted { rows: 1 }));
    assert!(zero_target.can_take(Event::Skipped));
    assert!(zero_target.can_take(Event::InsertFailed));

    let progress = Progress { max_rows: 50, rows_inserted: 10, percent: 20 };
    assert!(progress.can_take(Event::Inserted { rows: 10 }));
    assert!(progress.can_take(Event::Inserted { rows: usize::MAX / 100 - 10 }));
    assert!(!progress.can_take(Event::Inserted { rows: usize::MAX / 100 - 9 }));
    assert!(!progress.can_take(Event::Inserted { rows: usize::MAX }));
}

#[test]
fn throughput() {
    assert_eq!(summarize(50, 10, 25), Summary {
        rows_inserted: 50,
        elapsed_ms: 25,
        tps: 2000,
        pps: 20000,
    });
    assert_eq!(summarize(10000, 1200, 3000), Summary {
        rows_inserted: 10000,
        elapsed_ms: 3000,
        tps: 3333,
        pps: 4_000_000,
    });
    assert_eq!(summarize(0, 1200, 7).tps, 0);
    assert_eq!(summarize(20, 0, 7), Summary { rows_inserted: 20, elapsed_ms: 7, tps: 2857, pps: 0 });
}

#[test]
fn throughput_that_cannot_be_computed() {
    assert!(can_summarize(50, 10, 25));
    assert!(!can_summarize(50, 10, 0));
    assert!(can_summarize(usize::MAX / 1000, 1, 1));
    assert!(!can_summarize(usize::MAX / 1000 + 1, 0, 1));
    assert!(!can_summarize(usize::MAX / 1000, 2, 1));
    assert!(!can_summarize(usize::MAX / 2, usize::MAX / 2, 1));
}
