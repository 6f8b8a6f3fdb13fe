use std::collections::HashMap;

use website_status_checker::config::Config;
use website_status_checker::pool::{Collector, WorkQueue};
use website_status_checker::probe::{finish_probe, AttemptResult, ProbeState, RetryPolicy};
use website_status_checker::status::{ProbeOutcome, WorkResult};

/// Runs a whole batch against a stub transport, with the workers taking turns
/// and results arriving in reverse order of completion within each round.
fn run_with_stub(
    config: &Config,
    transport: &dyn Fn(&str) -> AttemptResult,
) -> (Vec<WorkResult>, HashMap<String, usize>) {
    let policy = RetryPolicy::new(config.retry_count);
    let mut queue = WorkQueue::new(config.urls.clone());
    let mut collector = Collector::new(config.urls.clone());
    let mut attempts: HashMap<String, usize> = HashMap::new();
    loop {
        let mut round = Vec::new();
        for _ in 0..config.worker_count {
            if let Some(job) = queue.claim() {
                let mut state = policy.start();
                while let ProbeState::Attempting { .. } = state {
                    *attempts.entry(job.url.clone()).or_insert(0) += 1;
                    state = policy.step(state, transport(&job.url));
                }
                round.push((job.index, finish_probe(job.url, state, 0, 0)));
            }
        }
        if round.is_empty() {
            break;
        }
        for (index, result) in round.into_iter().rev() {
            collector.accept(index, result).unwrap();
        }
    }
    assert!(collector.is_complete());
    (collector.finish(), attempts)
}

fn sorted_urls(report: &[WorkResult]) -> Vec<String> {
    let mut v: Vec<String> = report.iter().map(|r| r.url.clone()).collect();
    v.sort();
    v
}

#[test]
fn ok_and_down_sites() {
    let config = Config::new(
        vec!["https://ok.example".to_string(), "https://down.example".to_string()],
        2,
        1,
        1,
    )
    .unwrap();
    let transport = |url: &str| {
        if url == "https://ok.example" {
            AttemptResult::Response(200)
        } else {
            AttemptResult::Error("connection refused".to_string())
        }
    };
    let (report, attempts) = run_with_stub(&config, &transport);
    assert_eq!(report.len(), 2);
    let ok: Vec<&WorkResult> = report.iter().filter(|r| r.url == "https://ok.example").collect();
    let down: Vec<&WorkResult> = report.iter().filter(|r| r.url == "https://down.example").collect();
    assert_eq!(ok.len(), 1);
    assert_eq!(down.len(), 1);
    assert_eq!(ok[0].outcome, ProbeOutcome::Success { status_code: 200 });
    assert!(matches!(down[0].outcome, ProbeOutcome::Failure { .. }));
    assert_eq!(attempts["https://down.example"], 2);
    assert_eq!(attempts["https://ok.example"], 1);
}

#[test]
fn all_sites_down() {
    let list = vec!["https://a".to_string(), "https://b".to_string(), "https://c".to_string()];
    let config = Config::new(list.clone(), 2, 1, 2).unwrap();
    let (report, attempts) =
        run_with_stub(&config, &|_: &str| AttemptResult::Error("unreachable".to_string()));
    assert_eq!(report.len(), 3);
    assert!(report.iter().all(|r| r.outcome
        == ProbeOutcome::Failure { message: "unreachable".to_string() }));
    assert_eq!(sorted_urls(&report), list);
    assert!(attempts.values().all(|&n| n == 3));
}

#[test]
fn duplicate_url_is_probed_twice() {
    let list = vec!["https://d".to_string(), "https://e".to_string(), "https://d".to_string()];
    let config = Config::new(list.clone(), 1, 1, 0).unwrap();
    let (report, attempts) = run_with_stub(&config, &|_: &str| AttemptResult::Response(500));
    assert_eq!(report.len(), 3);
    assert_eq!(report.iter().filter(|r| r.url == "https://d").count(), 2);
    assert_eq!(attempts["https://d"], 2);
}

#[test]
fn report_matches_input_multiset_for_many_worker_counts() {
    let list: Vec<String> = ["x", "y", "x", "z", "y", "x"].iter().map(|s| s.to_string()).collect();
    let mut expected = list.clone();
    expected.sort();
    for workers in 1..9 {
        let config = Config::new(list.clone(), workers, 1, 1).unwrap();
        let (report, _) = run_with_stub(&config, &|u: &str| {
            if u == "y" { AttemptResult::Error("e".to_string()) } else { AttemptResult::Response(200) }
        });
        assert_eq!(report.len(), list.len());
        assert_eq!(sorted_urls(&report), expected);
    }
}
