use email_cli::api::{
    api_url, backoff_millis, list_page_query, may_attempt, received_attachments_path,
    received_email_path, retry_after_millis, retry_step, sent_attachments_path, sent_email_path,
    AttemptOutcome, RetryStep,
};

#[test]
fn paths_and_urls() {
    assert_eq!(api_url("/emails"), "https://api.resend.com/emails");
    assert_eq!(sent_email_path("e1"), "/emails/e1");
    assert_eq!(received_email_path("r1"), "/emails/receiving/r1");
    assert_eq!(received_attachments_path("r1"), "/emails/receiving/r1/attachments");
    assert_eq!(sent_attachments_path("e1"), "/emails/e1/attachments");
}

#[test]
fn list_page_query_pairs() {
    assert_eq!(list_page_query(100, None), vec![("limit".to_string(), "100".to_string())]);
    assert_eq!(
        list_page_query(25, Some("abc")),
        vec![
            ("limit".to_string(), "25".to_string()),
            ("after".to_string(), "abc".to_string())
        ]
    );
}

#[test]
fn retry_policy_by_outcome() {
    assert_eq!(retry_step(AttemptOutcome::Status(429)), RetryStep::RetryAfter);
    assert_eq!(retry_step(AttemptOutcome::Status(500)), RetryStep::Backoff);
    assert_eq!(retry_step(AttemptOutcome::Status(503)), RetryStep::Backoff);
    assert_eq!(retry_step(AttemptOutcome::Status(599)), RetryStep::Backoff);
    assert_eq!(retry_step(AttemptOutcome::Status(600)), RetryStep::Deliver);
    assert_eq!(retry_step(AttemptOutcome::Status(200)), RetryStep::Deliver);
    assert_eq!(retry_step(AttemptOutcome::Status(404)), RetryStep::Deliver);
    assert_eq!(retry_step(AttemptOutcome::Transport { retryable: true }), RetryStep::Backoff);
    assert_eq!(retry_step(AttemptOutcome::Transport { retryable: false }), RetryStep::Fail);
}

#[test]
fn five_attempts_at_most() {
    let allowed: Vec<u32> = (0..10).filter(|a| may_attempt(*a)).collect();
    assert_eq!(allowed, vec![0, 1, 2, 3, 4]);
}

#[test]
fn request_settles_at_first_final_answer() {
    let outcomes = [
        AttemptOutcome::Status(429),
        AttemptOutcome::Transport { retryable: true },
        AttemptOutcome::Status(201),
        AttemptOutcome::Status(500),
    ];
    let mut settled = None;
    for (i, o) in outcomes.iter().enumerate() {
        if !may_attempt(i as u32) {
            break;
        }
        match retry_step(*o) {
            RetryStep::Deliver | RetryStep::Fail => {
                settled = Some(i);
                break;
            }
            _ => {}
        }
    }
    assert_eq!(settled, Some(2));
}

#[test]
fn backoff_doubles_from_half_a_second() {
    let waits: Vec<u64> = (0..5).map(backoff_millis).collect();
    assert_eq!(waits, vec![500, 1000, 2000, 4000, 8000]);
}

#[test]
fn retry_after_header_in_seconds() {
    assert_eq!(retry_after_millis(Some("3"), 0), 3000);
    assert_eq!(retry_after_millis(Some(" 0 "), 2), 0);
    assert_eq!(retry_after_millis(Some("soon"), 1), 1000);
    assert_eq!(retry_after_millis(Some("-5"), 2), 2000);
    assert_eq!(retry_after_millis(None, 3), 4000);
}
