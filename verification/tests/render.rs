use email_cli::models::{Domain, DomainCapabilities};
use email_cli::render::{
    compact_targets, contact_name, domain_status_line, event_line, list_line, more_results_line,
    skill_status_line, stats_lines, summary_line, thread_footer,
};

#[test]
fn message_lines() {
    let to = vec!["a@x.io".to_string(), "b@x.io".to_string()];
    assert_eq!(compact_targets(&to), "a@x.io, b@x.io");
    assert_eq!(
        list_line(12, false, "received", "me@x.io", &to, "Hi"),
        "12* [received] me@x.io -> a@x.io, b@x.io | Hi"
    );
    assert_eq!(summary_line(3, true, "sent", "me@x.io", "Re: Hi"), "3  [sent] me@x.io | Re: Hi");
    assert_eq!(more_results_line(40), "--- more results: --after 40");
    assert_eq!(thread_footer(2), "--- 2 messages in thread");
}

#[test]
fn event_and_contact_lines() {
    assert_eq!(event_line("delivered", "re_1", "2024-01-01"), "delivered re_1 2024-01-01");
    let f = Some("Ada".to_string());
    let l = Some("Lovelace".to_string());
    assert_eq!(contact_name(&f, &l), "Ada Lovelace");
    assert_eq!(contact_name(&f, &None), "Ada");
    assert_eq!(contact_name(&None, &l), "Lovelace");
    assert_eq!(contact_name(&None, &None), "");
}

#[test]
fn domain_line_defaults_to_unknown() {
    let bare = Domain { name: "x.io".to_string(), status: None, region: None, capabilities: None };
    assert_eq!(domain_status_line(&bare), "x.io status=unknown sending=unknown receiving=unknown");
    let full = Domain {
        name: "y.io".to_string(),
        status: Some("verified".to_string()),
        region: Some("us-east-1".to_string()),
        capabilities: Some(DomainCapabilities {
            sending: Some("enabled".to_string()),
            receiving: None,
        }),
    };
    assert_eq!(domain_status_line(&full), "y.io status=verified sending=enabled receiving=unknown");
}

#[test]
fn skill_and_stats_lines() {
    assert_eq!(skill_status_line("gemini", true, "/h/SKILL.md"), "gemini: ok (/h/SKILL.md)");
    assert_eq!(skill_status_line("codex", false, "/c/SKILL.md"), "codex: missing (/c/SKILL.md)");
    assert_eq!(
        stats_lines(10, 4, 3, 2, 4),
        vec!["total: 10", "inbox: 4 (3 unread)", "archived: 2", "sent: 4"]
    );
}
