use email_cli::app::{App, ErrorKind, Format};
use email_cli::attachments::AttachmentError;
use email_cli::inbox::SqlValue;
use email_cli::models::MessageRecord;

fn app() -> App {
    App::new("/tmp/mail.db".to_string(), Format::Json)
}

fn message(direction: &str) -> MessageRecord {
    MessageRecord {
        id: 41,
        remote_id: "rem_1".to_string(),
        direction: direction.to_string(),
        account_email: "me@example.com".to_string(),
        from_addr: "a@example.com".to_string(),
        to: vec![],
        cc: vec![],
        bcc: vec![],
        reply_to: vec![],
        subject: "s".to_string(),
        text_body: None,
        html_body: None,
        rfc_message_id: None,
        in_reply_to: None,
        references: vec![],
        last_event: None,
        is_read: false,
        created_at: "t".to_string(),
        synced_at: "t".to_string(),
    }
}

fn text_params(params: &[SqlValue]) -> Vec<String> {
    params
        .iter()
        .map(|p| match p {
            SqlValue::Text(t) => t.clone(),
            SqlValue::Int(i) => i.to_string(),
        })
        .collect()
}

#[test]
fn app_new_keeps_settings() {
    let a = app();
    assert_eq!(a.db_path, "/tmp/mail.db");
    assert_eq!(a.format, Format::Json);
}

#[test]
fn mark_all_read_statement() {
    let q = app().mark_all_read(None);
    assert_eq!(q.sql, "UPDATE messages SET is_read = 1 WHERE is_read = 0 AND direction = 'received'");
    assert!(q.params.is_empty());
    let q = app().mark_all_read(Some("me@example.com"));
    assert_eq!(
        q.sql,
        "UPDATE messages SET is_read = 1 WHERE is_read = 0 AND direction = 'received' AND account_email = ?1"
    );
    assert_eq!(text_params(&q.params), vec!["me@example.com".to_string()]);
}

#[test]
fn count_unread_shares_the_condition_of_mark_all_read() {
    for filter in [None, Some("me@example.com")] {
        let count = app().count_unread(filter);
        let mark = app().mark_all_read(filter);
        let c = count.sql.strip_prefix("SELECT COUNT(*) FROM messages WHERE ").unwrap();
        let m = mark.sql.strip_prefix("UPDATE messages SET is_read = 1 WHERE ").unwrap();
        assert_eq!(c, m);
        assert_eq!(text_params(&count.params), text_params(&mark.params));
    }
}

#[test]
fn fetch_attachment_metadata_paths() {
    assert_eq!(
        app().fetch_attachment_metadata("received", "r9"),
        Ok("/emails/receiving/r9/attachments".to_string())
    );
    assert_eq!(
        app().fetch_attachment_metadata("sent", "s9"),
        Ok("/emails/s9/attachments".to_string())
    );
    assert_eq!(
        app().fetch_attachment_metadata("draft", "d9"),
        Err(AttachmentError::UnsupportedDirection("draft".to_string()))
    );
}

#[test]
fn refresh_attachment_metadata_plan() {
    let plan = app().refresh_attachment_metadata(&message("received")).unwrap();
    assert_eq!(plan.account_email, "me@example.com");
    assert_eq!(plan.path, "/emails/receiving/rem_1/attachments");
    assert_eq!(plan.message_id, 41);
    let err = app().refresh_attachment_metadata(&message("outbound")).unwrap_err();
    assert_eq!(err, AttachmentError::UnsupportedDirection("outbound".to_string()));
}

#[test]
fn format_detection() {
    assert_eq!(Format::detect(true, true), Format::Json);
    assert_eq!(Format::detect(false, false), Format::Json);
    assert_eq!(Format::detect(false, true), Format::Human);
}

#[test]
fn exit_codes_by_kind() {
    let kinds = [ErrorKind::Transient, ErrorKind::Config, ErrorKind::BadInput, ErrorKind::RateLimited];
    let codes: Vec<i32> = kinds.iter().map(|k| k.exit_code()).collect();
    assert_eq!(codes, vec![1, 2, 3, 4]);
    assert_eq!(ErrorKind::Config.code(), "config_error");
}
