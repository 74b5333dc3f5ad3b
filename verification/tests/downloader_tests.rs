use core_api::config::Config;
use core_api::downloader::Downloader;

fn test_downloader() -> Downloader {
    Downloader::new(Config::fallback(String::from("/tmp/media")))
}

#[test]
fn operate_when_no_task() {
    let mut dl = test_downloader();
    dl.cancel(0);
    dl.switch_all();
    dl.switch(0);
}

#[test]
fn unknown_id_is_a_normal_outcome() {
    let dl = test_downloader();
    assert_eq!(dl.process(7), "Unknown id 7");
    assert_eq!(dl.state(7), 404);
    assert_eq!(dl.title(7), "");
}

#[test]
fn submissions_yield_distinct_ids() {
    let mut dl = test_downloader();
    let mut ids = Vec::new();
    for i in 0..5 {
        let id = dl.add_task(format!("https://example.invalid/v/{}", i));
        ids.push(id);
    }
    assert_eq!(ids, vec![0, 1, 2, 3, 4]);
    for id in 0..5usize {
        assert_eq!(dl.process(id), "0/0");
        assert_eq!(dl.state(id), 0);
    }
    assert_eq!(dl.process(5), "Unknown id 5");
}

#[test]
fn control_reaches_only_the_named_task() {
    let mut dl = test_downloader();
    let a = dl.add_task(String::from("https://example.invalid/a"));
    let b = dl.add_task(String::from("https://example.invalid/b"));
    dl.switch(a);
    assert_eq!(dl.state(a), 1);
    assert_eq!(dl.state(b), 0);
    dl.cancel(b);
    assert_eq!(dl.state(a), 1);
    assert_eq!(dl.state(b), 2);
}

#[test]
fn switch_all_and_terminate() {
    let mut dl = test_downloader();
    let a = dl.add_task(String::from("https://example.invalid/a"));
    let b = dl.add_task(String::from("https://example.invalid/b"));
    dl.switch_all();
    assert_eq!(dl.state(a), 1);
    assert_eq!(dl.state(b), 1);
    dl.terminate();
    assert_eq!(dl.state(a), 2);
    assert_eq!(dl.state(b), 2);
}

#[test]
fn no_jobs_accepted_after_terminate() {
    let mut dl = test_downloader();
    let a = dl.add_task(String::from("https://example.invalid/a"));
    dl.terminate();
    let b = dl.add_task(String::from("https://example.invalid/b"));
    assert_ne!(a, b);
    // the refused job is never registered
    assert_eq!(dl.state(b), 404);
    assert_eq!(dl.state(a), 2);
}
