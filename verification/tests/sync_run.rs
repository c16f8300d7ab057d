use email_cli::models::{ReceivedEmail, SentEmail};
use email_cli::sync::ReceivedPage;
use email_cli::sync_run::{
    sync_start, sync_step, MailWalk, SyncAction, SyncEvent, SyncRun, SyncStage,
};

fn received(id: &str, to: &str) -> ReceivedEmail {
    ReceivedEmail {
        id: id.to_string(),
        from: Some("a@b.io".to_string()),
        to: vec![to.to_string()],
        cc: vec![],
        bcc: vec![],
        reply_to: vec![],
        subject: Some("hi".to_string()),
        created_at: None,
        message_id: None,
        html: None,
        text: None,
        attachments: vec![],
        headers: None,
    }
}

fn sent(id: &str, from: &str) -> SentEmail {
    SentEmail {
        id: id.to_string(),
        from: Some(from.to_string()),
        to: vec!["x@y.io".to_string()],
        cc: vec![],
        bcc: vec![],
        reply_to: vec![],
        subject: None,
        created_at: None,
        last_event: None,
        html: None,
        text: None,
    }
}

fn page(ids: &[&str], has_more: Option<bool>) -> SyncEvent {
    SyncEvent::PageListed(ReceivedPage { ids: ids.iter().map(|s| s.to_string()).collect(), has_more })
}

fn step(run: SyncRun, ev: SyncEvent) -> (SyncRun, SyncAction) {
    sync_step(run, ev)
}

/// Runs the sent walk of the current account over an empty listing.
fn empty_sent_walk(run: SyncRun, account: usize) -> (SyncRun, SyncAction) {
    let (run, a) = step(run, SyncEvent::ClientOpened);
    assert!(matches!(a, SyncAction::LoadCursor(i, MailWalk::Sent) if i == account));
    let (run, a) = step(run, SyncEvent::CursorLoaded(None));
    assert!(matches!(a, SyncAction::ListPage(i, MailWalk::Sent, None) if i == account));
    step(run, page(&[], None))
}

#[test]
fn sync_run_stores_only_messages_addressed_to_the_account() {
    let (run, a) = sync_start(vec!["me@x.io".to_string()], true, false);
    assert!(matches!(a, SyncAction::OpenClient(0)));
    let (run, a) = empty_sent_walk(run, 0);
    assert!(matches!(a, SyncAction::LoadCursor(0, MailWalk::Received)));
    let (run, a) = step(run, SyncEvent::CursorLoaded(Some("old".to_string())));
    assert!(matches!(a, SyncAction::ListPage(0, MailWalk::Received, None)));
    let (run, a) = step(run, page(&["m2", "m1", "old", "older"], Some(true)));
    assert!(matches!(&a, SyncAction::FetchDetail(MailWalk::Received, id) if id == "m2"));
    let (run, a) = step(run, SyncEvent::DetailFetched(received("m2", " Me@X.io")));
    match &a {
        SyncAction::StoreAndNotify { account, detail, notify } => {
            assert_eq!(*account, 0);
            assert_eq!(detail.id, "m2");
            assert!(*notify);
        }
        other => panic!("unexpected {:?}", other),
    }
    let (run, a) = step(run, SyncEvent::Stored);
    assert!(matches!(&a, SyncAction::FetchDetail(MailWalk::Received, id) if id == "m1"));
    let (run, a) = step(run, SyncEvent::DetailFetched(received("m1", "someone@else.io")));
    assert!(matches!(&a, SyncAction::SaveCursor(0, MailWalk::Received, c) if c == "m2"));
    let (run, a) = step(run, SyncEvent::CursorSaved);
    assert!(matches!(a, SyncAction::Finish));
    assert_eq!(run.stage, SyncStage::Done);
}

#[test]
fn sync_run_stores_only_mail_sent_from_the_account() {
    let (run, _) = sync_start(vec!["me@x.io".to_string()], false, true);
    let (run, _) = step(run, SyncEvent::ClientOpened);
    let (run, _) = step(run, SyncEvent::CursorLoaded(None));
    let (run, a) = step(run, page(&["s2", "s1"], Some(false)));
    assert!(matches!(&a, SyncAction::FetchDetail(MailWalk::Sent, id) if id == "s2"));
    let (run, a) = step(run, SyncEvent::SentDetailFetched(sent("s2", "Me <me@x.io>")));
    assert!(matches!(&a, SyncAction::StoreSent { account: 0, detail } if detail.id == "s2"));
    let (run, a) = step(run, SyncEvent::Stored);
    assert!(matches!(&a, SyncAction::FetchDetail(MailWalk::Sent, id) if id == "s1"));
    let (run, a) = step(run, SyncEvent::SentDetailFetched(sent("s1", "other@x.io")));
    assert!(matches!(&a, SyncAction::SaveCursor(0, MailWalk::Sent, c) if c == "s2"));
    let (_, a) = step(run, SyncEvent::CursorSaved);
    assert!(matches!(a, SyncAction::LoadCursor(0, MailWalk::Received)));
}

#[test]
fn sync_run_failed_sent_walk_is_ignored_unless_required() {
    let (run, _) = sync_start(vec!["me@x.io".to_string()], true, false);
    let (run, _) = step(run, SyncEvent::ClientOpened);
    let (run, _) = step(run, SyncEvent::CursorLoaded(None));
    let (_, a) = step(run, SyncEvent::Failed);
    assert!(matches!(a, SyncAction::LoadCursor(0, MailWalk::Received)));

    let (run, _) = sync_start(vec!["me@x.io".to_string()], false, true);
    let (run, _) = step(run, SyncEvent::ClientOpened);
    let (run, a) = step(run, SyncEvent::Failed);
    assert!(matches!(a, SyncAction::Stop));
    assert_eq!(run.stage, SyncStage::Stopped);
}

#[test]
fn sync_run_failure_stops_before_the_cursor_moves() {
    let (run, _) = sync_start(vec!["me@x.io".to_string(), "you@x.io".to_string()], true, false);
    let (run, _) = empty_sent_walk(run, 0);
    let (run, _) = step(run, SyncEvent::CursorLoaded(None));
    let (run, a) = step(run, page(&["m1"], Some(false)));
    assert!(matches!(&a, SyncAction::FetchDetail(MailWalk::Received, id) if id == "m1"));
    let (run, a) = step(run, SyncEvent::Failed);
    assert!(matches!(a, SyncAction::Stop));
    let (run, a) = step(run, SyncEvent::CursorSaved);
    assert!(matches!(a, SyncAction::Stop));
    let (run, a) = step(run, page(&["m0"], None));
    assert!(matches!(a, SyncAction::Stop));
    assert_eq!(run.stage, SyncStage::Stopped);
}

#[test]
fn sync_run_walks_pages_then_moves_to_the_next_account() {
    let (run, _) = sync_start(vec!["a@x.io".to_string(), "b@x.io".to_string()], false, true);
    let (run, _) = empty_sent_walk(run, 0);
    let (run, _) = step(run, SyncEvent::CursorLoaded(Some("c".to_string())));
    let (run, a) = step(run, page(&[], Some(true)));
    assert!(matches!(a, SyncAction::OpenClient(1)));
    let (run, _) = empty_sent_walk(run, 1);
    let (run, _) = step(run, SyncEvent::CursorLoaded(None));
    let (run, a) = step(run, page(&["p1"], Some(true)));
    assert!(matches!(&a, SyncAction::FetchDetail(MailWalk::Received, id) if id == "p1"));
    let (run, a) = step(run, SyncEvent::DetailFetched(received("p1", "b@x.io")));
    assert!(matches!(&a, SyncAction::StoreAndNotify { account: 1, notify: false, .. }));
    let (run, a) = step(run, SyncEvent::Stored);
    assert!(matches!(&a, SyncAction::ListPage(1, MailWalk::Received, Some(after)) if after == "p1"));
    let (run, a) = step(run, page(&["p0"], None));
    assert!(matches!(&a, SyncAction::FetchDetail(MailWalk::Received, id) if id == "p0"));
    let (run, a) = step(run, SyncEvent::DetailFetched(received("p0", "a@x.io")));
    assert!(matches!(&a, SyncAction::SaveCursor(1, MailWalk::Received, c) if c == "p1"));
    let (_, a) = step(run, SyncEvent::CursorSaved);
    assert!(matches!(a, SyncAction::Finish));
}

#[test]
fn sync_run_without_accounts_finishes_at_once() {
    let (run, a) = sync_start(vec![], true, false);
    assert!(matches!(a, SyncAction::Finish));
    let (_, a) = step(run, SyncEvent::Failed);
    assert!(matches!(a, SyncAction::Finish));
}
