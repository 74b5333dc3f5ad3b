use core_api::task::Task;

#[test]
fn size() {
    println!("size of task is {} bytes", std::mem::size_of::<Task>());
}

#[test]
fn fresh_task_is_blank() {
    let task = Task::new(0, String::from("https://example.invalid/page"), String::from("/tmp/dl"));
    assert_eq!(task.title(), "");
    assert_eq!(task.process(), "0/0");
    assert_eq!(task.state(), 0);
}

#[test]
fn cache_and_output_paths() {
    let mut task = Task::new(3, String::from("https://example.invalid/page"), String::from("/tmp/dl"));
    assert_eq!(task.cache_dir(), "/tmp/dl/cache_3/");
    task.set_title(String::from("clip"));
    assert_eq!(task.title(), "clip");
    assert_eq!(task.cache_path("mp4"), "/tmp/dl/cache_3/clip.mp4");
    assert_eq!(task.cache_path("aac"), "/tmp/dl/cache_3/clip.aac");
    assert_eq!(task.out_path("mp4"), "/tmp/dl/clip.mp4");
}

#[test]
fn stream_totals_accumulate() {
    let mut task = Task::new(0, String::from("t"), String::from("/tmp/dl"));
    let mut gen_v = task.begin_stream(1500, 400);
    let mut gen_a = task.begin_stream(500, 400);
    assert_eq!(task.process(), "0/2000");
    // each allocator spans its own stream
    assert_eq!(gen_v.next(), Some((0, 400)));
    assert_eq!(gen_a.next(), Some((0, 400)));
    assert_eq!(gen_a.next(), Some((401, 499)));
    assert_eq!(gen_a.next(), None);
}

#[test]
fn completion_outcomes() {
    let mut task = Task::new(0, String::from("t"), String::from("/tmp/dl"));
    task.complete(true);
    assert_eq!(task.state(), 3);

    let mut task = Task::new(1, String::from("t"), String::from("/tmp/dl"));
    task.complete(false);
    assert_eq!(task.state(), 2);
}

#[test]
fn cancellation_beats_late_success() {
    // a cancel that already landed keeps the task cancelled even when the
    // join point later reports success
    let mut task = Task::new(0, String::from("t"), String::from("/tmp/dl"));
    task.cancel();
    task.complete(true);
    assert_eq!(task.state(), 2);
}

#[test]
fn switch_toggles_task() {
    let mut task = Task::new(0, String::from("t"), String::from("/tmp/dl"));
    task.switch();
    assert_eq!(task.state(), 1);
    task.switch();
    assert_eq!(task.state(), 0);
}
