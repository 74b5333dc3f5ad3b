use core_api::headers::HeadersGen;
use core_api::process::Process;
use core_api::state::State;
use core_api::worker::{all_succeeded, download_range, run_worker, worker_decision, WorkerAction};

#[test]
fn joined_outcome_needs_every_worker() {
    assert!(all_succeeded(&vec![]));
    assert!(all_succeeded(&vec![true, true, true, true]));
    assert!(!all_succeeded(&vec![true, true, false, true]));
    assert!(!all_succeeded(&vec![false]));
}

fn source_bytes(n: usize) -> Vec<u8> {
    (0..n).map(|i| (i % 251) as u8).collect()
}

#[test]
fn decisions_per_state() {
    assert!(matches!(worker_decision(State::Working), WorkerAction::Proceed));
    assert!(matches!(worker_decision(State::Pausing), WorkerAction::Wait));
    assert!(matches!(worker_decision(State::Cancelled), WorkerAction::Stop));
    assert!(matches!(worker_decision(State::Finished), WorkerAction::Stop));
}

#[test]
fn resume_after_failure_no_gap_no_duplication() {
    // the stream drops after 3 bytes, then succeeds: the range arrives
    // intact and finished counts each byte exactly once
    let source = source_bytes(10);
    let mut file = vec![0u8; 10];
    let mut process = Process::new();
    process.add_total(10);
    let failures = vec![3];
    download_range(&mut file, &source, 2, 7, &failures, &mut process);
    assert_eq!(&file[2..=7], &source[2..=7]);
    assert_eq!(&file[0..2], &[0, 0]);
    assert_eq!(&file[8..], &[0, 0]);
    assert_eq!(process.finished(), 6);
}

#[test]
fn resume_across_many_failures() {
    let source = source_bytes(100);
    let mut file = vec![0u8; 100];
    let mut process = Process::new();
    process.add_total(100);
    let failures = vec![0, 1, 0, 7, 2, 0, 5];
    download_range(&mut file, &source, 10, 89, &failures, &mut process);
    assert_eq!(&file[10..=89], &source[10..=89]);
    assert_eq!(process.finished(), 80);
    assert!(file[..10].iter().all(|&b| b == 0));
    assert!(file[90..].iter().all(|&b| b == 0));
}

#[test]
fn worker_completes_stream() {
    let source = source_bytes(1000);
    let mut file = vec![0u8; 1000];
    let mut gen = HeadersGen::new(0, 999, 128);
    let mut process = Process::new();
    process.add_total(1000);
    let polls: Vec<State> = Vec::new();
    let failures: Vec<usize> = Vec::new();
    let completed = run_worker(&mut file, &source, &mut gen, &mut process, &polls, &failures);
    assert!(completed);
    assert_eq!(file, source);
    assert_eq!(process.finished(), 1000);
    assert!(process.finished() <= process.total());
}

#[test]
fn worker_stops_on_cancellation() {
    let source = source_bytes(1000);
    let mut file = vec![0u8; 1000];
    let mut gen = HeadersGen::new(0, 999, 128);
    let mut process = Process::new();
    process.add_total(1000);
    let polls = vec![State::Cancelled];
    let failures: Vec<usize> = Vec::new();
    let completed = run_worker(&mut file, &source, &mut gen, &mut process, &polls, &failures);
    assert!(!completed);
    assert_eq!(process.finished(), 0);
    assert!(file.iter().all(|&b| b == 0));
}

#[test]
fn worker_waits_through_pause_then_completes() {
    let source = source_bytes(500);
    let mut file = vec![0u8; 500];
    let mut gen = HeadersGen::new(0, 499, 100);
    let mut process = Process::new();
    process.add_total(500);
    let polls = vec![State::Pausing, State::Pausing, State::Working];
    let failures = vec![13];
    let completed = run_worker(&mut file, &source, &mut gen, &mut process, &polls, &failures);
    assert!(completed);
    assert_eq!(file, source);
    assert_eq!(process.finished(), 500);
}

#[test]
fn cancellation_overrides_earlier_pause() {
    let source = source_bytes(300);
    let mut file = vec![0u8; 300];
    let mut gen = HeadersGen::new(0, 299, 50);
    let mut process = Process::new();
    process.add_total(300);
    let polls = vec![State::Pausing, State::Cancelled];
    let failures: Vec<usize> = Vec::new();
    let completed = run_worker(&mut file, &source, &mut gen, &mut process, &polls, &failures);
    assert!(!completed);
    assert_eq!(process.finished(), 0);
}
