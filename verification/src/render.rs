//! The lines the commands print for a person (the JSON output carries the
//! same data as values).

use vstd::prelude::*;
use crate::fmt::{decimal, i64_to_decimal, join, join_strings, signed_decimal, usize_to_decimal};
use crate::models::{views, Domain};

verus! {

/// The marker after a message id: blank when read, `*` when unread.
pub open spec fn read_flag(is_read: bool) -> Seq<char> {
    if is_read {
        " "@
    } else {
        "*"@
    }
}

fn read_flag_exec(is_read: bool) -> (s: &'static str)
    ensures
        s@ == read_flag(is_read),
{
    if is_read {
        " "
    } else {
        "*"
    }
}

/// The recipients of a message as one short field: the addresses separated
/// by commas.
pub fn compact_targets(to: &Vec<String>) -> (s: String)
    ensures
        s@ == join(views(to@), ", "@),
{
    join_strings(to, ", ")
}

/// A line of `inbox ls`: id, unread marker, direction, account, recipients
/// and subject.
pub fn list_line(
    id: i64,
    is_read: bool,
    direction: &str,
    account: &str,
    to: &Vec<String>,
    subject: &str,
) -> (s: String)
    ensures
        s@ == signed_decimal(id as int) + read_flag(is_read) + " ["@ + direction@ + "] "@ + account@
            + " -> "@ + join(views(to@), ", "@) + " | "@ + subject@,
{
    let mut s = i64_to_decimal(id);
    s.append(read_flag_exec(is_read));
    s.append(" [");
    s.append(direction);
    s.append("] ");
    s.append(account);
    s.append(" -> ");
    let t = compact_targets(to);
    s.append(t.as_str());
    s.append(" | ");
    s.append(subject);
    s
}

/// A line of `inbox search` and `inbox thread`: id, unread marker,
/// direction, sender and subject.
pub fn summary_line(id: i64, is_read: bool, direction: &str, from: &str, subject: &str) -> (s:
    String)
    ensures
        s@ == signed_decimal(id as int) + read_flag(is_read) + " ["@ + direction@ + "] "@ + from@
            + " | "@ + subject@,
{
    let mut s = i64_to_decimal(id);
    s.append(read_flag_exec(is_read));
    s.append(" [");
    s.append(direction);
    s.append("] ");
    s.append(from);
    s.append(" | ");
    s.append(subject);
    s
}

/// The hint printed under a page of `inbox ls` when more pages follow.
pub fn more_results_line(cursor: i64) -> (s: String)
    ensures
        s@ == "--- more results: --after "@ + signed_decimal(cursor as int),
{
    let mut s = String::from_str("--- more results: --after ");
    let c = i64_to_decimal(cursor);
    s.append(c.as_str());
    s
}

/// The footer of `inbox thread`.
pub fn thread_footer(count: usize) -> (s: String)
    ensures
        s@ == "--- "@ + decimal(count as nat) + " messages in thread"@,
{
    let mut s = String::from_str("--- ");
    let c = usize_to_decimal(count);
    s.append(c.as_str());
    s.append(" messages in thread");
    s
}

/// A line of `events list`: the event type, the message's remote id and
/// when the event happened.
pub fn event_line(event_type: &str, remote_id: &str, created_at: &str) -> (s: String)
    ensures
        s@ == event_type@ + " "@ + remote_id@ + " "@ + created_at@,
{
    let mut s = String::from_str(event_type);
    s.append(" ");
    s.append(remote_id);
    s.append(" ");
    s.append(created_at);
    s
}

/// The name shown for a contact: first and last name when both are known,
/// else whichever is, else nothing.
pub open spec fn contact_name_text(first: Option<String>, last: Option<String>) -> Seq<char> {
    match (first, last) {
        (Some(f), Some(l)) => f@ + " "@ + l@,
        (Some(f), None) => f@,
        (None, Some(l)) => l@,
        (None, None) => Seq::empty(),
    }
}

pub fn contact_name(first: &Option<String>, last: &Option<String>) -> (s: String)
    ensures
        s@ == contact_name_text(*first, *last),
{
    match (first, last) {
        (Some(f), Some(l)) => {
            let mut s = f.clone();
            s.append(" ");
            s.append(l.as_str());
            s
        },
        (Some(f), None) => f.clone(),
        (None, Some(l)) => l.clone(),
        (None, None) => String::new(),
    }
}

/// A text field, or `unknown` when the API left it out.
pub open spec fn or_unknown(v: Option<String>) -> Seq<char> {
    match v {
        Some(s) => s@,
        None => "unknown"@,
    }
}

fn or_unknown_exec(v: &Option<String>) -> (s: String)
    ensures
        s@ == or_unknown(*v),
{
    match v {
        Some(s) => s.clone(),
        None => String::from_str("unknown"),
    }
}

/// The line `profile test` prints for a domain: its name, status, and
/// whether it can send and receive.
pub fn domain_status_line(domain: &Domain) -> (s: String)
    ensures
        s@ == domain.name@ + " status="@ + or_unknown(domain.status) + " sending="@ + (match domain.capabilities {
            Some(c) => or_unknown(c.sending),
            None => "unknown"@,
        }) + " receiving="@ + (match domain.capabilities {
            Some(c) => or_unknown(c.receiving),
            None => "unknown"@,
        }),
{
    let (sending, receiving) = match &domain.capabilities {
        Some(c) => (or_unknown_exec(&c.sending), or_unknown_exec(&c.receiving)),
        None => (String::from_str("unknown"), String::from_str("unknown")),
    };
    let mut s = domain.name.clone();
    s.append(" status=");
    let st = or_unknown_exec(&domain.status);
    s.append(st.as_str());
    s.append(" sending=");
    s.append(sending.as_str());
    s.append(" receiving=");
    s.append(receiving.as_str());
    s
}

/// The line `skill status` prints for an agent platform.
pub fn skill_status_line(platform: &str, installed: bool, path: &str) -> (s: String)
    ensures
        s@ == platform@ + ": "@ + (if installed {
            "ok"@
        } else {
            "missing"@
        }) + " ("@ + path@ + ")"@,
{
    let mut s = String::from_str(platform);
    s.append(": ");
    if installed {
        s.append("ok");
    } else {
        s.append("missing");
    }
    s.append(" (");
    s.append(path);
    s.append(")");
    s
}

/// The lines `inbox stats` prints.
pub fn stats_lines(total: i64, inbox: i64, unread: i64, archived: i64, sent: i64) -> (lines: Vec<
    String,
>)
    ensures
        views(lines@) == seq![
            "total: "@ + signed_decimal(total as int),
            "inbox: "@ + signed_decimal(inbox as int) + " ("@ + signed_decimal(unread as int)
                + " unread)"@,
            "archived: "@ + signed_decimal(archived as int),
            "sent: "@ + signed_decimal(sent as int),
        ],
{
    let mut lines: Vec<String> = Vec::new();
    let mut a = String::from_str("total: ");
    let t = i64_to_decimal(total);
    a.append(t.as_str());
    lines.push(a);
    let mut b = String::from_str("inbox: ");
    let i = i64_to_decimal(inbox);
    b.append(i.as_str());
    b.append(" (");
    let u = i64_to_decimal(unread);
    b.append(u.as_str());
    b.append(" unread)");
    lines.push(b);
    let mut c = String::from_str("archived: ");
    let ar = i64_to_decimal(archived);
    c.append(ar.as_str());
    lines.push(c);
    let mut d = String::from_str("sent: ");
    let se = i64_to_decimal(sent);
    d.append(se.as_str());
    lines.push(d);
    assert(views(lines@) =~= seq![
        "total: "@ + signed_decimal(total as int),
        "inbox: "@ + signed_decimal(inbox as int) + " ("@ + signed_decimal(unread as int)
            + " unread)"@,
        "archived: "@ + signed_decimal(archived as int),
        "sent: "@ + signed_decimal(sent as int),
    ]);
    lines
}

} // verus!
