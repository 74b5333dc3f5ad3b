use core_api::state::State;
use core_api::task::Task;
use core_api::worker::run_worker;

fn patterned(n: usize) -> Vec<u8> {
    (0..n).map(|i| (i % 239) as u8).collect()
}

#[test]
fn full_download_reaches_finished() {
    // a 10 MB stream, 1 MB chunks: progress ends at the full byte count
    // and the task settles into the finished state
    let total: usize = 10_485_760;
    let mut task = Task::new(0, String::from("https://example.invalid/v/0"), String::from("/tmp/dl"));
    let mut gen = task.begin_stream(total, 1_048_576);
    let source = patterned(total);
    let mut file = vec![0u8; total];
    let polls: Vec<State> = Vec::new();
    let failures: Vec<usize> = Vec::new();
    let completed = run_worker(&mut file, &source, &mut gen, &mut task.process, &polls, &failures);
    assert!(completed);
    assert_eq!(file, source);
    assert_eq!(task.process(), "10485760/10485760");
    task.complete(true);
    assert_eq!(task.state(), 3);
}

#[test]
fn cancel_mid_download() {
    let total: usize = 4_096;
    let mut task = Task::new(1, String::from("https://example.invalid/v/1"), String::from("/tmp/dl"));
    let mut gen = task.begin_stream(total, 512);
    let source = patterned(total);
    let mut file = vec![0u8; total];
    // the worker observes the cancellation after its first range
    let polls = vec![State::Working, State::Cancelled];
    let failures: Vec<usize> = Vec::new();
    let completed = run_worker(&mut file, &source, &mut gen, &mut task.process, &polls, &failures);
    assert!(!completed);
    task.complete(false);
    assert_eq!(task.state(), 2);
    // the first range was still written whole before the worker stopped
    assert_eq!(&file[..512], &source[..512]);
}

#[test]
fn pause_then_resume_reaches_finished() {
    let total: usize = 2_048;
    let mut task = Task::new(2, String::from("https://example.invalid/v/2"), String::from("/tmp/dl"));
    let mut gen = task.begin_stream(total, 512);
    let source = patterned(total);
    let mut file = vec![0u8; total];

    task.switch();
    assert_eq!(task.state(), 1);
    let paused_progress = task.process();
    assert_eq!(paused_progress, task.process(), "no growth while paused");
    task.switch();
    assert_eq!(task.state(), 0);

    let polls = vec![State::Pausing, State::Working];
    let failures: Vec<usize> = Vec::new();
    let completed = run_worker(&mut file, &source, &mut gen, &mut task.process, &polls, &failures);
    assert!(completed);
    assert_eq!(file, source);
    task.complete(true);
    assert_eq!(task.state(), 3);
    assert_eq!(task.process(), "2048/2048");
}

#[test]
fn double_cancel_is_a_no_op() {
    let mut task = Task::new(3, String::from("https://example.invalid/v/3"), String::from("/tmp/dl"));
    task.cancel();
    assert_eq!(task.state(), 2);
    task.cancel();
    assert_eq!(task.state(), 2);
}

#[test]
fn resume_and_progress_stay_consistent() {
    // transient failures while two streams share one progress counter:
    // finished never exceeds total and ends exactly at it
    let mut task = Task::new(4, String::from("https://example.invalid/v/4"), String::from("/tmp/dl"));
    let v_total: usize = 1_500;
    let a_total: usize = 700;
    let mut gen_v = task.begin_stream(v_total, 400);
    let mut gen_a = task.begin_stream(a_total, 400);
    assert_eq!(task.process(), "0/2200");

    let source_v = patterned(v_total);
    let mut file_v = vec![0u8; v_total];
    let source_a = patterned(a_total);
    let mut file_a = vec![0u8; a_total];
    let polls: Vec<State> = Vec::new();
    let failures = vec![100, 3, 0, 250];

    let done_v =
        run_worker(&mut file_v, &source_v, &mut gen_v, &mut task.process, &polls, &failures);
    assert!(task.process.finished() <= task.process.total());
    let done_a =
        run_worker(&mut file_a, &source_a, &mut gen_a, &mut task.process, &polls, &failures);

    assert!(done_v && done_a);
    assert_eq!(file_v, source_v);
    assert_eq!(file_a, source_a);
    assert_eq!(task.process(), "2200/2200");
    task.complete(done_v && done_a);
    assert_eq!(task.state(), 3);
}
