use rustbuster::collector::ResultCollector;
use rustbuster::engine::process_outcome;
use rustbuster::engine::run_scan;
use rustbuster::engine::should_emit;
use rustbuster::outcome::ProbeOutcome;
use rustbuster::progress::ProgressCounter;
use rustbuster::url::join_url;

fn response(entry: &str, status: u16, body_size: usize) -> ProbeOutcome {
    ProbeOutcome::Response {
        status,
        body_size,
        target_url: join_url("http://x.test", entry),
    }
}

fn failure(entry: &str, message: &str) -> ProbeOutcome {
    ProbeOutcome::Failure {
        target_url: join_url("http://x.test", entry),
        error_message: String::from(message),
    }
}

#[test]
fn empty_wordlist_completes_with_nothing_to_report() {
    let entries: Vec<String> = Vec::new();
    let outcomes: Vec<ProbeOutcome> = Vec::new();
    let report = run_scan(&entries, &outcomes, true, true);
    assert_eq!(report.processed, 0);
    assert!(report.completed);
    assert_eq!(report.emitted.len(), 0);
    assert_eq!(report.collected.len(), 0);
}

#[test]
fn largest_body_size_is_rendered_in_full() {
    let outcome = ProbeOutcome::Response {
        status: 200,
        body_size: usize::MAX,
        target_url: String::from("http://x.test/big"),
    };
    let line = rustbuster::line::format_line("big", &outcome);
    assert!(line.contains(&format!("[Size: {}]", usize::MAX)));
}

#[test]
fn progress_reaches_the_total_and_completes() {
    let entries: Vec<String> = (0..25).map(|i| format!("path{}", i)).collect();
    let outcomes: Vec<ProbeOutcome> =
        entries.iter().map(|e| response(e, 404, 10)).collect();
    let report = run_scan(&entries, &outcomes, false, false);
    assert_eq!(report.processed, 25);
    assert!(report.completed);
}

#[test]
fn quiet_scan_over_404s_emits_and_collects_nothing() {
    let entries: Vec<String> = (0..10).map(|i| format!("p{}", i)).collect();
    let outcomes: Vec<ProbeOutcome> =
        entries.iter().map(|e| response(e, 404, 0)).collect();
    let report = run_scan(&entries, &outcomes, false, true);
    assert_eq!(report.emitted.len(), 0);
    assert_eq!(report.collected.len(), 0);
    assert_eq!(report.processed, 10);
}

#[test]
fn verbose_scan_emits_one_line_per_entry() {
    let entries: Vec<String> = vec![
        String::from("ok"),
        String::from("moved"),
        String::from("missing"),
        String::from("broken"),
        String::from("denied"),
    ];
    let outcomes = vec![
        response("ok", 200, 12),
        response("moved", 301, 0),
        response("missing", 404, 7),
        failure("broken", "connection refused"),
        response("denied", 403, 3),
    ];
    let report = run_scan(&entries, &outcomes, true, true);
    assert_eq!(report.emitted.len(), 5);
    assert_eq!(report.collected, report.emitted);
    assert_eq!(report.processed, 5);
}

#[test]
fn quiet_scan_keeps_only_relevant_lines() {
    let entries: Vec<String> = vec![
        String::from("ok"),
        String::from("missing"),
        String::from("broken"),
        String::from("denied"),
    ];
    let outcomes = vec![
        response("ok", 200, 12),
        response("missing", 404, 7),
        failure("broken", "connection refused"),
        response("denied", 401, 3),
    ];
    let report = run_scan(&entries, &outcomes, false, true);
    assert_eq!(report.emitted.len(), 2);
    assert!(report.emitted[0].starts_with("./ok"));
    assert!(report.emitted[1].starts_with("./denied"));
}

#[test]
fn completion_order_changes_only_the_order_of_lines() {
    let entries: Vec<String> = (0..16).map(|i| format!("e{}", i)).collect();
    let outcomes: Vec<ProbeOutcome> = (0..16)
        .map(|i| {
            if i % 3 == 0 {
                response(&format!("e{}", i), 200, i)
            } else if i % 3 == 1 {
                response(&format!("e{}", i), 404, i)
            } else {
                failure(&format!("e{}", i), "timeout")
            }
        })
        .collect();

    // One schedule finishes the entries in wordlist order, another in the
    // reverse order, as different worker counts may.
    let forward = run_scan(&entries, &outcomes, true, true);
    let rev_entries: Vec<String> = entries.iter().rev().cloned().collect();
    let rev_outcomes: Vec<ProbeOutcome> = outcomes.iter().rev().cloned().collect();
    let backward = run_scan(&rev_entries, &rev_outcomes, true, true);

    assert_eq!(forward.emitted.len(), backward.emitted.len());
    let mut a = forward.emitted.clone();
    let mut b = backward.emitted.clone();
    a.sort();
    b.sort();
    assert_eq!(a, b);
}

#[test]
fn emission_policy_on_single_outcomes() {
    assert!(should_emit(&response("a", 200, 0), false));
    assert!(should_emit(&response("a", 302, 0), false));
    assert!(!should_emit(&response("a", 404, 0), false));
    assert!(should_emit(&response("a", 404, 0), true));
    assert!(!should_emit(&failure("a", "dns error"), false));
    assert!(should_emit(&failure("a", "dns error"), true));

    assert!(process_outcome("a", &response("a", 404, 0), false).is_none());
    let line = process_outcome("a", &response("a", 404, 0), true);
    assert!(line.is_some());
}

#[test]
fn collector_keeps_every_append_in_order() {
    let mut collector = ResultCollector::new();
    assert_eq!(collector.len(), 0);
    collector.append(String::from("first"));
    collector.append(String::from("second"));
    collector.append(String::from("second"));
    assert_eq!(collector.len(), 3);
    let lines = collector.drain();
    assert_eq!(lines, vec!["first", "second", "second"]);
}

#[test]
fn progress_counter_counts_each_entry_once() {
    let mut progress = ProgressCounter::new(3);
    assert_eq!(progress.count(), 0);
    progress.increment();
    progress.increment();
    progress.increment();
    assert_eq!(progress.count(), 3);
    progress.finish();
    assert_eq!(progress.count(), 3);
}
