use email_cli::cli::{InboxListArgs, InboxSearchArgs};
use email_cli::inbox::{
    cut_page, inbox_list_query, inbox_search_query, inbox_stats, read_state_value, render_body,
    require_ids, split_ids, split_ids_requiring_match, thread_ids, unsubscribe_url, InboxError,
    SqlValue,
};
use email_cli::models::MessageRecord;

fn message() -> MessageRecord {
    MessageRecord {
        id: 7,
        remote_id: "r7".to_string(),
        direction: "received".to_string(),
        account_email: "me@example.com".to_string(),
        from_addr: "a@example.com".to_string(),
        to: vec!["me@example.com".to_string()],
        cc: vec![],
        bcc: vec![],
        reply_to: vec![],
        subject: "hi".to_string(),
        text_body: None,
        html_body: None,
        rfc_message_id: None,
        in_reply_to: None,
        references: vec![],
        last_event: None,
        is_read: false,
        created_at: "2024-01-01".to_string(),
        synced_at: "2024-01-01".to_string(),
    }
}

fn texts(params: &[SqlValue]) -> Vec<String> {
    params
        .iter()
        .map(|p| match p {
            SqlValue::Int(i) => format!("i{}", i),
            SqlValue::Text(t) => format!("t{}", t),
        })
        .collect()
}

#[test]
fn split_ids_keeps_request_order() {
    let s = split_ids(&vec![5, 1, 9, 1], &vec![1, 9]);
    assert_eq!(s.found_ids, vec![1, 9, 1]);
    assert_eq!(s.missing_ids, vec![5]);
    assert_eq!(s.count, 3);
    assert_eq!(s.requested_ids, vec![5, 1, 9, 1]);
}

#[test]
fn split_ids_requiring_match_refuses_when_nothing_exists() {
    assert_eq!(
        split_ids_requiring_match(&vec![3, 4], &vec![]).unwrap_err(),
        InboxError::NoMatchingMessages
    );
    assert_eq!(split_ids_requiring_match(&vec![3, 4], &vec![4]).unwrap().found_ids, vec![4]);
}

#[test]
fn require_ids_refuses_empty() {
    assert_eq!(require_ids(&vec![]), Err(InboxError::NoMessageIds));
    assert_eq!(require_ids(&vec![1]), Ok(()));
}

#[test]
fn read_state_values() {
    assert_eq!(read_state_value(true), 0);
    assert_eq!(read_state_value(false), 1);
}

#[test]
fn inbox_list_query_default() {
    let args = InboxListArgs {
        account: None,
        limit: 25,
        unread: false,
        archived: false,
        starred: false,
        snoozed: false,
        after: None,
    };
    let q = inbox_list_query(&args, "2024-05-01T00:00:00+00:00");
    assert!(q.sql.ends_with(
        " FROM messages m WHERE m.archived = ? AND (m.snoozed_until IS NULL OR m.snoozed_until <= ?) ORDER BY m.created_at DESC, m.id DESC LIMIT ?"
    ));
    assert_eq!(texts(&q.params), vec!["i0", "t2024-05-01T00:00:00+00:00", "i26"]);
}

#[test]
fn inbox_list_query_all_filters() {
    let args = InboxListArgs {
        account: Some("  Me@Example.COM ".to_string()),
        limit: 10,
        unread: true,
        archived: true,
        starred: true,
        snoozed: true,
        after: Some(40),
    };
    let q = inbox_list_query(&args, "NOW");
    assert!(q.sql.contains(
        "WHERE m.archived = ? AND m.account_email = ? AND m.is_read = 0 AND m.starred = 1 AND m.snoozed_until IS NOT NULL AND m.snoozed_until > ? AND m.id < ? ORDER BY"
    ));
    assert_eq!(texts(&q.params), vec!["i1", "tme@example.com", "tNOW", "i40", "i11"]);
}

fn search_args() -> InboxSearchArgs {
    InboxSearchArgs {
        query: "  ".to_string(),
        account: None,
        from: None,
        to: None,
        subject: None,
        has_attachment: false,
        unread: false,
        starred: false,
        limit: 20,
    }
}

#[test]
fn inbox_search_needs_criteria() {
    assert_eq!(inbox_search_query(&search_args()).unwrap_err(), InboxError::NoSearchCriteria);
}

#[test]
fn inbox_search_builds_fts_and_like() {
    let mut a = search_args();
    a.query = " invoice ".to_string();
    a.from = Some("bob".to_string());
    a.has_attachment = true;
    let q = inbox_search_query(&a).unwrap();
    assert!(q.sql.contains(" JOIN messages_fts fts ON m.id = fts.rowid WHERE messages_fts MATCH ? AND m.from_addr LIKE ? AND EXISTS (SELECT 1 FROM attachments a WHERE a.message_id = m.id) ORDER BY m.created_at DESC LIMIT ?"));
    assert_eq!(texts(&q.params), vec!["tinvoice", "t%bob%", "i20"]);
}

#[test]
fn inbox_search_without_query_has_no_join() {
    let mut a = search_args();
    a.unread = true;
    let q = inbox_search_query(&a).unwrap();
    assert!(!q.sql.contains("JOIN"));
    assert!(q.sql.contains("WHERE m.is_read = 0 ORDER BY"));
}

#[test]
fn cut_page_with_more() {
    let c = cut_page(&vec![9, 8, 7, 6], 3);
    assert!(c.has_more);
    assert_eq!(c.keep, 3);
    assert_eq!(c.next_cursor, Some(7));
}

#[test]
fn cut_page_last_page() {
    let c = cut_page(&vec![2, 1], 3);
    assert!(!c.has_more);
    assert_eq!(c.keep, 2);
    assert_eq!(c.next_cursor, Some(1));
    assert_eq!(cut_page(&vec![], 3).next_cursor, None);
}

#[test]
fn thread_ids_dedupes_references() {
    let mut m = message();
    m.rfc_message_id = Some("<a>".to_string());
    m.in_reply_to = Some("<b>".to_string());
    m.references = vec!["<b>".to_string(), "<c>".to_string(), "<c>".to_string(), "<a>".to_string()];
    assert_eq!(thread_ids(&m), vec!["<a>", "<b>", "<c>"]);
}

#[test]
fn thread_ids_empty_without_threading_info() {
    assert!(thread_ids(&message()).is_empty());
}

#[test]
fn inbox_stats_inbox_excludes_archived_and_sent() {
    let s = inbox_stats(10, 3, 2, 4);
    assert_eq!((s.total, s.inbox, s.unread, s.archived, s.sent), (10, 4, 3, 2, 4));
}

#[test]
fn unsubscribe_prefers_first_link() {
    assert_eq!(
        unsubscribe_url("<mailto:leave@list.example>, <https://list.example/u?x=1>"),
        "mailto:leave@list.example"
    );
    assert_eq!(
        unsubscribe_url(" <<https://a.example/u>> "),
        "https://a.example/u"
    );
}

#[test]
fn unsubscribe_skips_unfollowable_entries() {
    assert_eq!(unsubscribe_url("<ftp://x>, <http://y>"), "http://y");
}

#[test]
fn unsubscribe_falls_back_to_header() {
    assert_eq!(unsubscribe_url("<ftp://x>"), "<ftp://x>");
}

#[test]
fn render_body_prefers_text_and_strips() {
    let mut m = message();
    m.text_body = Some("\x1b[1mhi\x1b[0m".to_string());
    m.html_body = Some("<p>ignored</p>".to_string());
    assert_eq!(render_body(&m, false).unwrap(), "hi");
    assert_eq!(render_body(&m, true).unwrap(), "\x1b[1mhi\x1b[0m");
}

#[test]
fn render_body_falls_back_to_html() {
    let mut m = message();
    m.html_body = Some("<p>Hello</p>".to_string());
    assert_eq!(render_body(&m, false).unwrap(), "Hello\n");
    assert_eq!(render_body(&m, true).unwrap(), "<p>Hello</p>");
    assert_eq!(render_body(&message(), false), None);
}

#[test]
fn next_page_repeats_nothing_on_descending_ids() {
    let ids = vec![50, 41, 33, 20, 7];
    let c = cut_page(&ids, 3);
    let cursor = c.next_cursor.unwrap();
    assert!(c.keep <= 3);
    assert!(ids[..c.keep].iter().all(|id| !(*id < cursor)));
    assert!(ids[c.keep..].iter().all(|id| *id < cursor));
}
