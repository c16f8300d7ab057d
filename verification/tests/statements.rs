use email_cli::inbox::SqlValue;
use email_cli::statements::{
    archive_statement, attachment_saved_statement, delete_statement, events_statement,
    existing_ids_statement, mark_read_statement, placeholders, prefetch_candidates_statement,
    purge_statement, read_one_statement, snooze_statement, star_statement, stats_statements,
    store_event_statements, thread_statement, unsnooze_statement, unsubscribe_header_statement,
};

fn shown(params: &[SqlValue]) -> Vec<String> {
    params
        .iter()
        .map(|p| match p {
            SqlValue::Int(i) => format!("i{}", i),
            SqlValue::Text(t) => format!("t{}", t),
        })
        .collect()
}

#[test]
fn placeholders_are_numbered() {
    assert_eq!(placeholders(1, 0), "");
    assert_eq!(placeholders(1, 1), "?1");
    assert_eq!(placeholders(1, 3), "?1,?2,?3");
    assert_eq!(placeholders(2, 2), "?2,?3");
    assert_eq!(placeholders(9, 3), "?9,?10,?11");
}

#[test]
fn mark_read_and_select_back_share_the_id_list() {
    let ids = vec![4, 8, 15];
    let mark = mark_read_statement(&ids, false);
    assert_eq!(mark.sql, "UPDATE messages SET is_read = 1 WHERE id IN (?1,?2,?3)");
    assert_eq!(shown(&mark.params), vec!["i4", "i8", "i15"]);
    let unread = mark_read_statement(&ids, true);
    assert_eq!(unread.sql, "UPDATE messages SET is_read = 0 WHERE id IN (?1,?2,?3)");
    let select = existing_ids_statement(&ids);
    assert_eq!(select.sql, "SELECT id FROM messages WHERE id IN (?1,?2,?3)");
    assert_eq!(shown(&select.params), shown(&mark.params));
}

#[test]
fn id_statements() {
    let ids = vec![2, 3];
    assert_eq!(delete_statement(&ids).sql, "DELETE FROM messages WHERE id IN (?1,?2)");
    assert_eq!(archive_statement(&ids, true).sql, "UPDATE messages SET archived = 1 WHERE id IN (?1,?2)");
    assert_eq!(archive_statement(&ids, false).sql, "UPDATE messages SET archived = 0 WHERE id IN (?1,?2)");
    assert_eq!(star_statement(&ids, true).sql, "UPDATE messages SET starred = 1 WHERE id IN (?1,?2)");
    assert_eq!(star_statement(&ids, false).sql, "UPDATE messages SET starred = 0 WHERE id IN (?1,?2)");
    assert_eq!(
        unsnooze_statement(&ids).sql,
        "UPDATE messages SET snoozed_until = NULL WHERE id IN (?1,?2)"
    );
}

#[test]
fn snooze_binds_wake_time_first() {
    let q = snooze_statement(&vec![7, 9], "2024-01-01T09:00:00+00:00");
    assert_eq!(q.sql, "UPDATE messages SET snoozed_until = ?1 WHERE id IN (?2,?3)");
    assert_eq!(shown(&q.params), vec!["t2024-01-01T09:00:00+00:00", "i7", "i9"]);
}

#[test]
fn thread_statement_names_the_list_twice() {
    let q = thread_statement(&vec!["<a>".to_string(), "<b>".to_string()]);
    assert!(q.sql.ends_with(
        " WHERE m.rfc_message_id IN (?1,?2) OR m.in_reply_to IN (?1,?2) ORDER BY m.created_at ASC"
    ));
    assert_eq!(shown(&q.params), vec!["t<a>", "t<b>"]);
}

#[test]
fn single_message_statements() {
    let q = read_one_statement(5);
    assert_eq!(q.sql, "UPDATE messages SET is_read = 1 WHERE id = ?1");
    assert_eq!(shown(&q.params), vec!["i5"]);
    let q = unsubscribe_header_statement(6);
    assert_eq!(q.sql, "SELECT list_unsubscribe FROM messages WHERE id = ?1");
    assert_eq!(shown(&q.params), vec!["i6"]);
}

#[test]
fn purge_statement_forms() {
    let q = purge_statement("2024-01-01", None);
    assert_eq!(q.sql, "DELETE FROM messages WHERE created_at < ?1");
    assert_eq!(shown(&q.params), vec!["t2024-01-01"]);
    let q = purge_statement("2024-01-01", Some(" Me@X.io "));
    assert_eq!(q.sql, "DELETE FROM messages WHERE created_at < ?1 AND account_email = ?2");
    assert_eq!(shown(&q.params), vec!["t2024-01-01", "tme@x.io"]);
}

#[test]
fn stats_statement_forms() {
    let all = stats_statements(None);
    assert_eq!(all.total.sql, "SELECT COUNT(*) FROM messages");
    assert_eq!(
        all.unread.sql,
        "SELECT COUNT(*) FROM messages WHERE is_read = 0 AND direction = 'received' AND archived = 0"
    );
    assert_eq!(all.archived.sql, "SELECT COUNT(*) FROM messages WHERE archived = 1");
    assert_eq!(all.sent.sql, "SELECT COUNT(*) FROM messages WHERE direction = 'sent'");
    assert!(all.total.params.is_empty());
    let one = stats_statements(Some("A@B.c"));
    assert_eq!(one.total.sql, "SELECT COUNT(*) FROM messages WHERE account_email = ?1");
    assert_eq!(shown(&one.sent.params), vec!["ta@b.c"]);
}

#[test]
fn events_statement_forms() {
    let q = events_statement(Some("re_1"), 20);
    assert!(q.sql.contains("WHERE email_remote_id = ?1 ORDER BY created_at DESC LIMIT ?2"));
    assert_eq!(shown(&q.params), vec!["tre_1", "i20"]);
    let q = events_statement(None, 20);
    assert!(q.sql.ends_with("FROM events ORDER BY created_at DESC LIMIT ?2"));
    assert_eq!(shown(&q.params), vec!["i20"]);
}

#[test]
fn store_event_statement_pair() {
    let (insert, update) = store_event_statements("re_1", "delivered", "{}");
    assert_eq!(
        insert.sql,
        "INSERT INTO events (email_remote_id, event_type, payload_json) VALUES (?1, ?2, ?3)"
    );
    assert_eq!(shown(&insert.params), vec!["tre_1", "tdelivered", "t{}"]);
    assert_eq!(update.sql, "UPDATE messages SET last_event = ?1 WHERE remote_id = ?2");
    assert_eq!(shown(&update.params), vec!["tdelivered", "tre_1"]);
}

#[test]
fn prefetch_candidates_forms() {
    let q = prefetch_candidates_statement(None, 50);
    assert!(q.sql.ends_with("ORDER BY m.created_at DESC LIMIT ?1"));
    assert_eq!(shown(&q.params), vec!["i50"]);
    let q = prefetch_candidates_statement(Some("ME@x.io"), 5);
    assert!(q.sql.contains("AND m.account_email = ?1 ORDER BY m.created_at DESC LIMIT ?2"));
    assert_eq!(shown(&q.params), vec!["tme@x.io", "i5"]);
}

#[test]
fn attachment_saved_statement_binds_path_then_id() {
    let q = attachment_saved_statement(3, "/d/a.pdf");
    assert_eq!(q.sql, "UPDATE attachments SET local_path = ?1 WHERE id = ?2");
    assert_eq!(shown(&q.params), vec!["t/d/a.pdf", "i3"]);
}

#[test]
fn signature_statement_normalizes_the_account() {
    let q = email_cli::statements::signature_statement(" Me@X.io", "-- Me");
    assert_eq!(
        q.sql,
        "UPDATE accounts SET signature = ?1, updated_at = CURRENT_TIMESTAMP WHERE email = ?2"
    );
    assert_eq!(shown(&q.params), vec!["t-- Me", "tme@x.io"]);
}

#[test]
fn unarchive_touches_the_rows_archive_touched() {
    let ids = vec![4i64, 9, 11];
    let archive = archive_statement(&ids, true);
    let unarchive = archive_statement(&ids, false);
    let a: Vec<char> = archive.sql.chars().collect();
    let u: Vec<char> = unarchive.sql.chars().collect();
    assert_eq!(a.len(), u.len());
    let differing: Vec<usize> = (0..a.len()).filter(|&i| a[i] != u[i]).collect();
    assert_eq!(differing, vec!["UPDATE messages SET archived = ".len()]);
    assert_eq!(shown(&archive.params), shown(&unarchive.params));
}
