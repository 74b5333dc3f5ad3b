use core_api::executor::Executor;
use core_api::message::{Message, Reply};
use core_api::task::Task;

fn job(id: usize) -> Message {
    Message::Job(Task::new(id, format!("https://example.invalid/v/{}", id), String::from("/tmp/dl")))
}

fn expect_text(reply: Reply) -> String {
    match reply {
        Reply::Text(s) => s,
        other => panic!("expected a text reply, got {:?}", other),
    }
}

fn expect_code(reply: Reply) -> usize {
    match reply {
        Reply::Code(c) => c,
        other => panic!("expected a code reply, got {:?}", other),
    }
}

#[test]
fn mailbox_queries() {
    let mut exe = Executor::new();
    assert!(matches!(exe.handle(job(0)), Reply::Done));
    assert_eq!(expect_text(exe.handle(Message::Process(0))), "0/0");
    assert_eq!(expect_code(exe.handle(Message::State(0))), 0);
    assert_eq!(expect_text(exe.handle(Message::Title(0))), "");
    assert_eq!(expect_text(exe.handle(Message::Process(9))), "Unknown id 9");
    assert_eq!(expect_code(exe.handle(Message::State(9))), 404);
    assert_eq!(expect_text(exe.handle(Message::Title(9))), "");
}

#[test]
fn mailbox_control() {
    let mut exe = Executor::new();
    exe.handle(job(0));
    exe.handle(job(1));
    exe.handle(Message::Switch(0));
    assert_eq!(expect_code(exe.handle(Message::State(0))), 1);
    assert_eq!(expect_code(exe.handle(Message::State(1))), 0);
    exe.handle(Message::Cancel(0));
    assert_eq!(expect_code(exe.handle(Message::State(0))), 2);
    exe.handle(Message::SwitchAll);
    assert_eq!(expect_code(exe.handle(Message::State(0))), 2);
    assert_eq!(expect_code(exe.handle(Message::State(1))), 1);
    exe.handle(Message::Terminate);
    assert_eq!(expect_code(exe.handle(Message::State(0))), 2);
    assert_eq!(expect_code(exe.handle(Message::State(1))), 2);
}

#[test]
fn title_is_write_once() {
    let mut exe = Executor::new();
    exe.handle(job(0));
    exe.record_title(0, String::from("first"));
    assert_eq!(expect_text(exe.handle(Message::Title(0))), "first");
    exe.record_title(0, String::from("second"));
    assert_eq!(expect_text(exe.handle(Message::Title(0))), "first");
    // unknown id: a no-op
    exe.record_title(9, String::from("ghost"));
    assert_eq!(expect_text(exe.handle(Message::Title(9))), "");
}

#[test]
fn progress_accumulates_through_the_registry() {
    let mut exe = Executor::new();
    exe.handle(job(0));
    let gen = exe.register_stream(0, 1000, 300);
    assert!(gen.is_some());
    let mut gen = gen.unwrap();
    assert_eq!(gen.next(), Some((0, 300)));
    assert_eq!(expect_text(exe.handle(Message::Process(0))), "0/1000");
    exe.add_progress(0, 301);
    exe.add_progress(0, 699);
    assert_eq!(expect_text(exe.handle(Message::Process(0))), "1000/1000");
    // unknown ids change nothing and return nothing
    assert!(exe.register_stream(9, 1000, 300).is_none());
    exe.add_progress(9, 5);
    // a zero-length stream has no usable length
    assert!(exe.register_stream(0, 0, 300).is_none());
}

#[test]
fn complete_task_settles_terminal_states() {
    let mut exe = Executor::new();
    exe.handle(job(0));
    exe.handle(job(1));
    exe.complete_task(0, true);
    assert_eq!(expect_code(exe.handle(Message::State(0))), 3);
    exe.complete_task(1, false);
    assert_eq!(expect_code(exe.handle(Message::State(1))), 2);
    // a cancellation that already landed wins over a late success report
    exe.complete_task(1, true);
    assert_eq!(expect_code(exe.handle(Message::State(1))), 2);
}

#[test]
fn completed_task_leaves_the_registry() {
    let mut exe = Executor::new();
    exe.handle(job(0));
    exe.handle(job(1));
    let removed = exe.remove_task(0);
    assert!(removed.is_some());
    assert_eq!(removed.unwrap().id, 0);
    assert_eq!(expect_code(exe.handle(Message::State(0))), 404);
    assert_eq!(expect_code(exe.handle(Message::State(1))), 0);
    assert!(exe.remove_task(5).is_none());
}
