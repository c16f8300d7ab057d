use email_cli::compose::{
    base64_encode, message_id_for, outgoing_headers, reply_headers, reply_recipients,
    reply_subject, sent_from_account, with_signature,
};
use email_cli::models::{MessageRecord, ReplyHeaders};

fn parent() -> MessageRecord {
    MessageRecord {
        id: 3,
        remote_id: "r3".to_string(),
        direction: "received".to_string(),
        account_email: "me@x.io".to_string(),
        from_addr: "bob@y.io".to_string(),
        to: vec!["me@x.io".to_string()],
        cc: vec![],
        bcc: vec![],
        reply_to: vec![],
        subject: "Lunch".to_string(),
        text_body: None,
        html_body: None,
        rfc_message_id: Some("<c@y.io>".to_string()),
        in_reply_to: Some("<b@y.io>".to_string()),
        references: vec!["<a@y.io>".to_string(), "<b@y.io>".to_string()],
        last_event: None,
        is_read: false,
        created_at: "t".to_string(),
        synced_at: "t".to_string(),
    }
}

#[test]
fn reply_threads_under_the_parent() {
    let h = reply_headers(&parent());
    assert_eq!(h.in_reply_to, Some("<c@y.io>".to_string()));
    assert_eq!(h.references, vec!["<a@y.io>", "<b@y.io>", "<c@y.io>"]);
    let mut p = parent();
    p.references.clear();
    assert_eq!(reply_headers(&p).references, vec!["<b@y.io>", "<c@y.io>"]);
    p.in_reply_to = None;
    assert_eq!(reply_headers(&p).references, vec!["<c@y.io>"]);
}

#[test]
fn outgoing_headers_of_send_and_reply() {
    let plain = outgoing_headers("<u@x.io>", &None);
    assert_eq!(plain, vec![("Message-ID".to_string(), "<u@x.io>".to_string())]);
    let reply = outgoing_headers("<u@x.io>", &Some(reply_headers(&parent())));
    assert_eq!(
        reply,
        vec![
            ("Message-ID".to_string(), "<u@x.io>".to_string()),
            ("In-Reply-To".to_string(), "<c@y.io>".to_string()),
            ("References".to_string(), "<a@y.io> <b@y.io> <c@y.io>".to_string()),
        ]
    );
    let empty = ReplyHeaders { in_reply_to: None, references: vec![] };
    assert_eq!(outgoing_headers("<u@x.io>", &Some(empty)).len(), 1);
}

#[test]
fn reply_subject_and_recipients() {
    assert_eq!(reply_subject("Lunch"), "Re: Lunch");
    assert_eq!(reply_subject("RE: Lunch"), "RE: Lunch");
    assert_eq!(reply_subject("re:x"), "re:x");
    assert_eq!(reply_recipients(&parent()), vec!["bob@y.io"]);
    let mut p = parent();
    p.reply_to = vec!["list@y.io".to_string()];
    assert_eq!(reply_recipients(&p), vec!["list@y.io"]);
}

#[test]
fn message_ids_use_the_sender_domain() {
    assert_eq!(message_id_for("abc", "agent@mail.example.com"), "<abc@mail.example.com>");
    assert_eq!(message_id_for("abc", "odd"), "<abc@odd>");
}

#[test]
fn sent_from_account_matches_address_or_display_form() {
    assert!(sent_from_account(&Some("Me@X.io".to_string()), "me@x.io"));
    assert!(sent_from_account(&Some("Agent <me@x.io>".to_string()), "ME@x.io"));
    assert!(!sent_from_account(&Some("other@x.io".to_string()), "me@x.io"));
    assert!(!sent_from_account(&None, "me@x.io"));
}

#[test]
fn signature_follows_a_blank_line() {
    assert_eq!(with_signature("Hi", ""), "Hi");
    assert_eq!(with_signature("Hi", "-- Me"), "Hi\n\n-- Me");
}

#[test]
fn base64_matches_rfc_4648_vectors() {
    let cases = [
        ("", ""),
        ("f", "Zg=="),
        ("fo", "Zm8="),
        ("foo", "Zm9v"),
        ("foob", "Zm9vYg=="),
        ("fooba", "Zm9vYmE="),
        ("foobar", "Zm9vYmFy"),
    ];
    for (plain, encoded) in cases {
        assert_eq!(base64_encode(&plain.as_bytes().to_vec()), encoded);
    }
    assert_eq!(base64_encode(&vec![0xfb, 0xff]), "+/8=");
}
