use email_cli::daemon::{
    account_label, idle_ticks, new_mail_notification, poll_click, status_label, status_title,
    worker_step, ClickPoll, WorkerAction,
};

#[test]
fn status_title_cases() {
    assert_eq!(status_title(0, false), "");
    assert_eq!(status_title(7, false), "7");
    assert_eq!(status_title(99, false), "99");
    assert_eq!(status_title(100, false), "99+");
    assert_eq!(status_title(5, true), "\u{21BB}");
}

#[test]
fn status_label_cases() {
    assert_eq!(account_label(None), "All accounts");
    assert_eq!(account_label(Some("me@example.com")), "me@example.com");
    assert_eq!(status_label(3, false, "All accounts"), "3 unread \u{00b7} All accounts");
    assert_eq!(status_label(3, true, "me@x"), "Syncing\u{2026} \u{00b7} me@x");
}

#[test]
fn idle_ticks_are_quarter_seconds() {
    assert_eq!(idle_ticks(60), 240);
    assert_eq!(idle_ticks(0), 0);
}

#[test]
fn press_and_release_is_one_click() {
    let mut tag = 0i64;
    let mut clicks = 0;
    for highlighted in [false, true, true, false, false, true, false] {
        let p = poll_click(highlighted, tag);
        tag = p.tag;
        if p.clicked {
            clicks += 1;
        }
    }
    assert_eq!(clicks, 2);
    assert_eq!(tag, 0);
}

#[test]
fn poll_click_single_steps() {
    assert_eq!(poll_click(true, 0), ClickPoll { tag: 1, clicked: false });
    assert_eq!(poll_click(false, 1), ClickPoll { tag: 0, clicked: true });
    assert_eq!(poll_click(false, 0), ClickPoll { tag: 0, clicked: false });
}

#[test]
fn new_mail_notification_text() {
    let (title, body) = new_mail_notification("me@example.com", "a@b.c", "Hello");
    assert_eq!(title, "New email to me@example.com");
    assert_eq!(body, "From: a@b.c\nHello");
}

#[test]
fn worker_rounds_are_ticks_apart() {
    let ticks = 3;
    let first = worker_step(0, ticks, false, false);
    assert_eq!(first.action, WorkerAction::Round { mark_read: false });
    assert_eq!(first.ticks_left, 3);
    let mut left = first.ticks_left;
    for _ in 0..3 {
        let step = worker_step(left, ticks, false, false);
        assert_eq!(step.action, WorkerAction::Wait { mark_read: false });
        left = step.ticks_left;
    }
    assert_eq!(left, 0);
    assert_eq!(worker_step(left, ticks, false, false).action, WorkerAction::Round { mark_read: false });
}

#[test]
fn worker_requests_cut_the_wait_or_mark_read() {
    let asked = worker_step(2, 8, true, true);
    assert_eq!(asked.action, WorkerAction::Round { mark_read: true });
    assert_eq!(asked.ticks_left, 8);
    assert!(asked.sync_served);
    let mark = worker_step(2, 8, false, true);
    assert_eq!(mark.action, WorkerAction::Wait { mark_read: true });
    assert_eq!(mark.ticks_left, 1);
    let due = worker_step(0, 8, true, false);
    assert_eq!(due.action, WorkerAction::Round { mark_read: false });
    assert!(!due.sync_served);
}
