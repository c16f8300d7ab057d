use email_cli::models::ReceivedEmail;
use email_cli::sync::{daemon_sync, received_email_matches_account, ReceivedPage, ReceivedSync};

fn page(ids: &[&str], has_more: Option<bool>) -> ReceivedPage {
    ReceivedPage { ids: ids.iter().map(|s| s.to_string()).collect(), has_more }
}

#[test]
fn daemon_sync_stops_at_stored_cursor() {
    let mut walk = ReceivedSync::new(Some("c".to_string()));
    let fetch = daemon_sync(&mut walk, &page(&["a", "b", "c", "d"], Some(true)));
    assert_eq!(fetch, vec!["a".to_string(), "b".to_string()]);
    assert!(walk.finished);
    assert_eq!(walk.next_request(), None);
    assert_eq!(walk.new_cursor(), Some("a".to_string()));
}

#[test]
fn daemon_sync_walks_pages_until_the_listing_ends() {
    let mut walk = ReceivedSync::new(Some("x".to_string()));
    assert_eq!(walk.next_request(), Some(None));
    let first = daemon_sync(&mut walk, &page(&["a", "b"], Some(true)));
    assert_eq!(first, vec!["a".to_string(), "b".to_string()]);
    assert!(!walk.finished);
    assert_eq!(walk.next_request(), Some(Some("b".to_string())));
    let second = daemon_sync(&mut walk, &page(&["c"], None));
    assert_eq!(second, vec!["c".to_string()]);
    assert!(walk.finished);
    assert_eq!(walk.new_cursor(), Some("a".to_string()));
}

#[test]
fn daemon_sync_first_sync_takes_everything() {
    let mut walk = ReceivedSync::new(None);
    let fetch = daemon_sync(&mut walk, &page(&["n1", "n2"], Some(false)));
    assert_eq!(fetch, vec!["n1".to_string(), "n2".to_string()]);
    assert!(walk.finished);
    assert_eq!(walk.new_cursor(), Some("n1".to_string()));
}

#[test]
fn daemon_sync_empty_page_ends_walk() {
    let mut walk = ReceivedSync::new(Some("c".to_string()));
    let fetch = daemon_sync(&mut walk, &page(&[], Some(true)));
    assert!(fetch.is_empty());
    assert!(walk.finished);
    assert_eq!(walk.new_cursor(), None);
}

#[test]
fn daemon_sync_cursor_on_top_fetches_nothing() {
    let mut walk = ReceivedSync::new(Some("a".to_string()));
    let fetch = daemon_sync(&mut walk, &page(&["a", "b"], Some(true)));
    assert!(fetch.is_empty());
    assert!(walk.finished);
    assert_eq!(walk.new_cursor(), Some("a".to_string()));
}

#[test]
fn received_email_matches_account_by_normalized_address() {
    let mut detail = ReceivedEmail {
        id: "r1".to_string(),
        from: None,
        to: vec!["other@x.io".to_string()],
        cc: vec![" Me@Example.com ".to_string()],
        bcc: vec![],
        reply_to: vec![],
        subject: None,
        created_at: None,
        message_id: None,
        html: None,
        text: None,
        attachments: vec![],
        headers: None,
    };
    assert!(received_email_matches_account(&detail, "me@example.com"));
    detail.cc.clear();
    assert!(!received_email_matches_account(&detail, "me@example.com"));
}

#[test]
fn second_sync_without_new_mail_fetches_nothing() {
    let first_page = page(&["n3", "n2"], Some(true));
    let mut walk = ReceivedSync::new(Some("n1".to_string()));
    let fetched = daemon_sync(&mut walk, &first_page);
    assert_eq!(fetched, vec!["n3".to_string(), "n2".to_string()]);
    let stored = walk.new_cursor();
    let mut again = ReceivedSync::new(stored);
    let fetched_again = daemon_sync(&mut again, &first_page);
    assert!(fetched_again.is_empty());
    assert!(again.finished);
    assert_eq!(again.new_cursor(), Some("n3".to_string()));
}
