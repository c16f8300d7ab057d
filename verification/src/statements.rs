//! The statements the mailbox commands run: those on a list of message ids
//! bind each id to its own numbered placeholder, in the order requested.

use vstd::prelude::*;
use crate::fmt::{decimal, normalize_email, normalized_email, usize_to_decimal};
use crate::inbox::{param_views, summary_columns, summary_columns_exec, ParamView, SqlQuery, SqlValue};
use crate::models::views;

verus! {

/// `?first,?first+1,…`: `count` numbered placeholders separated by commas.
pub open spec fn numbered(first: nat, count: nat) -> Seq<char>
    decreases count,
{
    if count == 0 {
        Seq::empty()
    } else if count == 1 {
        "?"@ + decimal(first)
    } else {
        numbered(first, (count - 1) as nat) + ","@ + "?"@ + decimal((first + count - 1) as nat)
    }
}

/// Writes `count` numbered placeholders starting at `?first`.
pub fn placeholders(first: usize, count: usize) -> (s: String)
    requires
        first + count <= usize::MAX + 1,
    ensures
        s@ == numbered(first as nat, count as nat),
{
    let mut s = String::new();
    let mut i: usize = 0;
    while i < count
        invariant
            i <= count,
            first + count <= usize::MAX + 1,
            s@ == numbered(first as nat, i as nat),
        decreases count - i,
    {
        let ghost before = s@;
        if i > 0 {
            s.append(",");
        }
        s.append("?");
        let d = usize_to_decimal(first + i);
        s.append(d.as_str());
        if i == 0 {
            assert(s@ =~= "?"@ + decimal(first as nat));
        }
        i += 1;
    }
    s
}

/// The ids, each bound as an integer.
pub open spec fn int_params(ids: Seq<i64>) -> Seq<ParamView> {
    ids.map_values(|id: i64| ParamView::Int(id))
}

/// The strings, each bound as text.
pub open spec fn text_params(values: Seq<Seq<char>>) -> Seq<ParamView> {
    values.map_values(|v: Seq<char>| ParamView::Text(v))
}

fn push_ids(params: &mut Vec<SqlValue>, ids: &Vec<i64>)
    ensures
        param_views(final(params)@) == param_views(old(params)@) + int_params(ids@),
{
    let ghost start = param_views(params@);
    let mut i: usize = 0;
    while i < ids.len()
        invariant
            i <= ids.len(),
            param_views(params@) == start + int_params(ids@.take(i as int)),
        decreases ids.len() - i,
    {
        let ghost prev = params@;
        params.push(SqlValue::Int(ids[i]));
        let ghost x = ParamView::Int(ids@[i as int]);
        assert(int_params(ids@.take(i + 1)) =~= int_params(ids@.take(i as int)).push(x));
        assert(param_views(params@) =~= param_views(prev).push(x));
        assert(start + int_params(ids@.take(i + 1)) =~= (start + int_params(
            ids@.take(i as int),
        )).push(x));
        i += 1;
    }
    assert(ids@.take(ids.len() as int) =~= ids@);
}

/// `head` followed by the id list `(?1,…,?n)`.
pub open spec fn id_list_sql(head: Seq<char>, count: nat) -> Seq<char> {
    head + "("@ + numbered(1, count) + ")"@
}

fn id_list_statement(head: &str, ids: &Vec<i64>) -> (q: SqlQuery)
    requires
        ids.len() < usize::MAX,
    ensures
        q.sql@ == id_list_sql(head@, ids.len() as nat),
        param_views(q.params@) == int_params(ids@),
{
    let mut sql = String::from_str(head);
    sql.append("(");
    let ph = placeholders(1, ids.len());
    sql.append(ph.as_str());
    sql.append(")");
    let mut params: Vec<SqlValue> = Vec::new();
    push_ids(&mut params, ids);
    assert(param_views(Seq::<SqlValue>::empty()) =~= Seq::<ParamView>::empty());
    assert(Seq::<ParamView>::empty() + int_params(ids@) =~= int_params(ids@));
    SqlQuery { sql, params }
}

/// `inbox mark`: sets the read state of the requested messages (`0` for
/// unread, `1` for read).
pub fn mark_read_statement(ids: &Vec<i64>, unread: bool) -> (q: SqlQuery)
    requires
        ids.len() < usize::MAX,
    ensures
        q.sql@ == id_list_sql(
            if unread {
                "UPDATE messages SET is_read = 0 WHERE id IN "@
            } else {
                "UPDATE messages SET is_read = 1 WHERE id IN "@
            },
            ids.len() as nat,
        ),
        param_views(q.params@) == int_params(ids@),
{
    if unread {
        id_list_statement("UPDATE messages SET is_read = 0 WHERE id IN ", ids)
    } else {
        id_list_statement("UPDATE messages SET is_read = 1 WHERE id IN ", ids)
    }
}

/// Unarchiving a list of messages updates exactly the rows archiving that
/// list updated: the two statements differ only in the value they set, and
/// share their id list and its parameters.
pub proof fn unarchive_targets_what_archive_set(ids: Seq<i64>, archive: SqlQuery, unarchive: SqlQuery)
    requires
        archive.sql@ == id_list_sql("UPDATE messages SET archived = 1 WHERE id IN "@, ids.len()),
        param_views(archive.params@) == int_params(ids),
        unarchive.sql@ == id_list_sql("UPDATE messages SET archived = 0 WHERE id IN "@, ids.len()),
        param_views(unarchive.params@) == int_params(ids),
    ensures
        archive.sql@.len() == unarchive.sql@.len(),
        forall|i: int|
            0 <= i < archive.sql@.len() && i != "UPDATE messages SET archived = "@.len() ==> archive.sql@[i]
                == unarchive.sql@[i],
        param_views(archive.params@) == param_views(unarchive.params@),
{
    reveal_strlit("UPDATE messages SET archived = 1 WHERE id IN ");
    reveal_strlit("UPDATE messages SET archived = 0 WHERE id IN ");
    reveal_strlit("UPDATE messages SET archived = ");
    let tail = "("@ + numbered(1, ids.len()) + ")"@;
    let a = "UPDATE messages SET archived = 1 WHERE id IN "@;
    let u = "UPDATE messages SET archived = 0 WHERE id IN "@;
    assert(archive.sql@ == a + tail);
    assert(unarchive.sql@ == u + tail);
    assert forall|i: int|
        0 <= i < archive.sql@.len() && i != "UPDATE messages SET archived = "@.len() implies archive.sql@[i]
            == unarchive.sql@[i] by {
        if i < a.len() {
            assert(a[i] == u[i]);
        } else {
            assert(archive.sql@[i] == tail[i - a.len()]);
            assert(unarchive.sql@[i] == tail[i - u.len()]);
        }
    }
}

/// Which of the requested messages exist.
pub fn existing_ids_statement(ids: &Vec<i64>) -> (q: SqlQuery)
    requires
        ids.len() < usize::MAX,
    ensures
        q.sql@ == id_list_sql("SELECT id FROM messages WHERE id IN "@, ids.len() as nat),
        param_views(q.params@) == int_params(ids@),
{
    id_list_statement("SELECT id FROM messages WHERE id IN ", ids)
}

/// `inbox delete`: removes the requested messages.
pub fn delete_statement(ids: &Vec<i64>) -> (q: SqlQuery)
    requires
        ids.len() < usize::MAX,
    ensures
        q.sql@ == id_list_sql("DELETE FROM messages WHERE id IN "@, ids.len() as nat),
        param_views(q.params@) == int_params(ids@),
{
    id_list_statement("DELETE FROM messages WHERE id IN ", ids)
}

/// `inbox archive` (`archived`) and `inbox unarchive`.
pub fn archive_statement(ids: &Vec<i64>, archived: bool) -> (q: SqlQuery)
    requires
        ids.len() < usize::MAX,
    ensures
        q.sql@ == id_list_sql(
            if archived {
                "UPDATE messages SET archived = 1 WHERE id IN "@
            } else {
                "UPDATE messages SET archived = 0 WHERE id IN "@
            },
            ids.len() as nat,
        ),
        param_views(q.params@) == int_params(ids@),
{
    if archived {
        id_list_statement("UPDATE messages SET archived = 1 WHERE id IN ", ids)
    } else {
        id_list_statement("UPDATE messages SET archived = 0 WHERE id IN ", ids)
    }
}

/// `inbox star` (`starred`) and `inbox unstar`.
pub fn star_statement(ids: &Vec<i64>, starred: bool) -> (q: SqlQuery)
    requires
        ids.len() < usize::MAX,
    ensures
        q.sql@ == id_list_sql(
            if starred {
                "UPDATE messages SET starred = 1 WHERE id IN "@
            } else {
                "UPDATE messages SET starred = 0 WHERE id IN "@
            },
            ids.len() as nat,
        ),
        param_views(q.params@) == int_params(ids@),
{
    if starred {
        id_list_statement("UPDATE messages SET starred = 1 WHERE id IN ", ids)
    } else {
        id_list_statement("UPDATE messages SET starred = 0 WHERE id IN ", ids)
    }
}

/// `inbox unsnooze`: clears the wake time of the requested messages.
pub fn unsnooze_statement(ids: &Vec<i64>) -> (q: SqlQuery)
    requires
        ids.len() < usize::MAX,
    ensures
        q.sql@ == id_list_sql("UPDATE messages SET snoozed_until = NULL WHERE id IN "@, ids.len() as nat),
        param_views(q.params@) == int_params(ids@),
{
    id_list_statement("UPDATE messages SET snoozed_until = NULL WHERE id IN ", ids)
}

/// `inbox snooze`: the wake time is bound to `?1`, the ids to `?2` onwards.
pub fn snooze_statement(ids: &Vec<i64>, wake_iso: &str) -> (q: SqlQuery)
    requires
        ids.len() + 1 < usize::MAX,
    ensures
        q.sql@ == "UPDATE messages SET snoozed_until = ?1 WHERE id IN ("@ + numbered(
            2,
            ids.len() as nat,
        ) + ")"@,
        param_views(q.params@) == seq![ParamView::Text(wake_iso@)] + int_params(ids@),
{
    let mut sql = String::from_str("UPDATE messages SET snoozed_until = ?1 WHERE id IN (");
    let ph = placeholders(2, ids.len());
    sql.append(ph.as_str());
    sql.append(")");
    let mut params: Vec<SqlValue> = Vec::new();
    params.push(SqlValue::Text(String::from_str(wake_iso)));
    assert(param_views(params@) =~= seq![ParamView::Text(wake_iso@)]);
    push_ids(&mut params, ids);
    SqlQuery { sql, params }
}

fn push_texts(params: &mut Vec<SqlValue>, values: &Vec<String>)
    ensures
        param_views(final(params)@) == param_views(old(params)@) + text_params(views(values@)),
{
    let ghost start = param_views(params@);
    let mut i: usize = 0;
    while i < values.len()
        invariant
            i <= values.len(),
            param_views(params@) == start + text_params(views(values@).take(i as int)),
        decreases values.len() - i,
    {
        let ghost prev = params@;
        let v = values[i].clone();
        params.push(SqlValue::Text(v));
        let ghost x = ParamView::Text(values@[i as int]@);
        assert(text_params(views(values@).take(i + 1)) =~= text_params(
            views(values@).take(i as int),
        ).push(x));
        assert(param_views(params@) =~= param_views(prev).push(x));
        assert(start + text_params(views(values@).take(i + 1)) =~= (start + text_params(
            views(values@).take(i as int),
        )).push(x));
        i += 1;
    }
    assert(views(values@).take(values.len() as int) =~= views(values@));
}

/// `inbox thread`: the messages whose own id or whose parent is among the
/// thread's message ids, oldest first. The one id list is bound once and
/// named twice.
pub fn thread_statement(thread_ids: &Vec<String>) -> (q: SqlQuery)
    requires
        thread_ids.len() < usize::MAX,
    ensures
        q.sql@ == summary_columns() + " WHERE m.rfc_message_id IN ("@ + numbered(
            1,
            thread_ids.len() as nat,
        ) + ") OR m.in_reply_to IN ("@ + numbered(1, thread_ids.len() as nat)
            + ") ORDER BY m.created_at ASC"@,
        param_views(q.params@) == text_params(views(thread_ids@)),
{
    let ph = placeholders(1, thread_ids.len());
    let mut sql = String::from_str(summary_columns_exec());
    sql.append(" WHERE m.rfc_message_id IN (");
    sql.append(ph.as_str());
    sql.append(") OR m.in_reply_to IN (");
    sql.append(ph.as_str());
    sql.append(") ORDER BY m.created_at ASC");
    let mut params: Vec<SqlValue> = Vec::new();
    push_texts(&mut params, thread_ids);
    assert(param_views(Seq::<SqlValue>::empty()) =~= Seq::<ParamView>::empty());
    assert(Seq::<ParamView>::empty() + text_params(views(thread_ids@)) =~= text_params(
        views(thread_ids@),
    ));
    SqlQuery { sql, params }
}

/// `inbox read --mark-read`: marks one message read.
pub fn read_one_statement(id: i64) -> (q: SqlQuery)
    ensures
        q.sql@ == "UPDATE messages SET is_read = 1 WHERE id = ?1"@,
        param_views(q.params@) == seq![ParamView::Int(id)],
{
    let mut params: Vec<SqlValue> = Vec::new();
    params.push(SqlValue::Int(id));
    assert(param_views(params@) =~= seq![ParamView::Int(id)]);
    SqlQuery { sql: String::from_str("UPDATE messages SET is_read = 1 WHERE id = ?1"), params }
}

/// `inbox unsubscribe`: the stored List-Unsubscribe header of a message.
pub fn unsubscribe_header_statement(id: i64) -> (q: SqlQuery)
    ensures
        q.sql@ == "SELECT list_unsubscribe FROM messages WHERE id = ?1"@,
        param_views(q.params@) == seq![ParamView::Int(id)],
{
    let mut params: Vec<SqlValue> = Vec::new();
    params.push(SqlValue::Int(id));
    assert(param_views(params@) =~= seq![ParamView::Int(id)]);
    SqlQuery { sql: String::from_str("SELECT list_unsubscribe FROM messages WHERE id = ?1"), params }
}

/// `inbox purge`: deletes the messages created before `before` (of one
/// account, when given).
pub fn purge_statement(before: &str, account: Option<&str>) -> (q: SqlQuery)
    ensures
        q.sql@ == (if account is Some {
            "DELETE FROM messages WHERE created_at < ?1 AND account_email = ?2"@
        } else {
            "DELETE FROM messages WHERE created_at < ?1"@
        }),
        param_views(q.params@) == (match account {
            Some(a) => seq![ParamView::Text(before@), ParamView::Text(normalized_email(a@))],
            None => seq![ParamView::Text(before@)],
        }),
{
    let mut params: Vec<SqlValue> = Vec::new();
    params.push(SqlValue::Text(String::from_str(before)));
    match account {
        Some(a) => {
            params.push(SqlValue::Text(normalize_email(a)));
            assert(param_views(params@) =~= seq![
                ParamView::Text(before@),
                ParamView::Text(normalized_email(a@)),
            ]);
            SqlQuery {
                sql: String::from_str(
                    "DELETE FROM messages WHERE created_at < ?1 AND account_email = ?2",
                ),
                params,
            }
        },
        None => {
            assert(param_views(params@) =~= seq![ParamView::Text(before@)]);
            SqlQuery { sql: String::from_str("DELETE FROM messages WHERE created_at < ?1"), params }
        },
    }
}

/// The account parameter of a per-account count, when there is one.
pub open spec fn account_params(account: Option<&str>) -> Seq<ParamView> {
    match account {
        Some(a) => seq![ParamView::Text(normalized_email(a@))],
        None => Seq::empty(),
    }
}

fn account_param(account: Option<&str>) -> (p: Vec<SqlValue>)
    ensures
        param_views(p@) == account_params(account),
{
    let mut p: Vec<SqlValue> = Vec::new();
    match account {
        Some(a) => {
            p.push(SqlValue::Text(normalize_email(a)));
        },
        None => {},
    }
    assert(param_views(p@) =~= account_params(account));
    p
}

/// The four counts behind `inbox stats`.
#[derive(Debug, Clone)]
pub struct StatsStatements {
    /// All messages.
    pub total: SqlQuery,
    /// Unread received messages still in the inbox.
    pub unread: SqlQuery,
    /// Archived messages.
    pub archived: SqlQuery,
    /// Sent messages.
    pub sent: SqlQuery,
}

/// The counts of `inbox stats`, over all messages or those of one account.
pub fn stats_statements(account: Option<&str>) -> (s: StatsStatements)
    ensures
        s.total.sql@ == (if account is Some {
            "SELECT COUNT(*) FROM messages WHERE account_email = ?1"@
        } else {
            "SELECT COUNT(*) FROM messages"@
        }),
        s.unread.sql@ == (if account is Some {
            "SELECT COUNT(*) FROM messages WHERE account_email = ?1 AND is_read = 0 AND direction = 'received' AND archived = 0"@
        } else {
            "SELECT COUNT(*) FROM messages WHERE is_read = 0 AND direction = 'received' AND archived = 0"@
        }),
        s.archived.sql@ == (if account is Some {
            "SELECT COUNT(*) FROM messages WHERE account_email = ?1 AND archived = 1"@
        } else {
            "SELECT COUNT(*) FROM messages WHERE archived = 1"@
        }),
        s.sent.sql@ == (if account is Some {
            "SELECT COUNT(*) FROM messages WHERE account_email = ?1 AND direction = 'sent'"@
        } else {
            "SELECT COUNT(*) FROM messages WHERE direction = 'sent'"@
        }),
        param_views(s.total.params@) == account_params(account),
        param_views(s.unread.params@) == account_params(account),
        param_views(s.archived.params@) == account_params(account),
        param_views(s.sent.params@) == account_params(account),
{
    if account.is_some() {
        StatsStatements {
            total: SqlQuery {
                sql: String::from_str("SELECT COUNT(*) FROM messages WHERE account_email = ?1"),
                params: account_param(account),
            },
            unread: SqlQuery {
                sql: String::from_str(
                    "SELECT COUNT(*) FROM messages WHERE account_email = ?1 AND is_read = 0 AND direction = 'received' AND archived = 0",
                ),
                params: account_param(account),
            },
            archived: SqlQuery {
                sql: String::from_str(
                    "SELECT COUNT(*) FROM messages WHERE account_email = ?1 AND archived = 1",
                ),
                params: account_param(account),
            },
            sent: SqlQuery {
                sql: String::from_str(
                    "SELECT COUNT(*) FROM messages WHERE account_email = ?1 AND direction = 'sent'",
                ),
                params: account_param(account),
            },
        }
    } else {
        StatsStatements {
            total: SqlQuery {
                sql: String::from_str("SELECT COUNT(*) FROM messages"),
                params: account_param(account),
            },
            unread: SqlQuery {
                sql: String::from_str(
                    "SELECT COUNT(*) FROM messages WHERE is_read = 0 AND direction = 'received' AND archived = 0",
                ),
                params: account_param(account),
            },
            archived: SqlQuery {
                sql: String::from_str("SELECT COUNT(*) FROM messages WHERE archived = 1"),
                params: account_param(account),
            },
            sent: SqlQuery {
                sql: String::from_str("SELECT COUNT(*) FROM messages WHERE direction = 'sent'"),
                params: account_param(account),
            },
        }
    }
}

/// `events list`: the newest events, of one message when its remote id is
/// given. Both forms name the page size `?2`; without a message, that
/// statement has no `?1`.
pub fn events_statement(message_remote_id: Option<&str>, limit: usize) -> (q: SqlQuery)
    ensures
        q.sql@ == (if message_remote_id is Some {
            "SELECT id, email_remote_id, event_type, created_at FROM events WHERE email_remote_id = ?1 ORDER BY created_at DESC LIMIT ?2"@
        } else {
            "SELECT id, email_remote_id, event_type, created_at FROM events ORDER BY created_at DESC LIMIT ?2"@
        }),
        param_views(q.params@) == (match message_remote_id {
            Some(r) => seq![ParamView::Text(r@), ParamView::Int(limit as i64)],
            None => seq![ParamView::Int(limit as i64)],
        }),
{
    let n: i64 = #[verifier::truncate] (limit as i64);
    let mut params: Vec<SqlValue> = Vec::new();
    match message_remote_id {
        Some(r) => {
            params.push(SqlValue::Text(String::from_str(r)));
            params.push(SqlValue::Int(n));
            assert(param_views(params@) =~= seq![ParamView::Text(r@), ParamView::Int(n)]);
            SqlQuery {
                sql: String::from_str(
                    "SELECT id, email_remote_id, event_type, created_at FROM events WHERE email_remote_id = ?1 ORDER BY created_at DESC LIMIT ?2",
                ),
                params,
            }
        },
        None => {
            params.push(SqlValue::Int(n));
            assert(param_views(params@) =~= seq![ParamView::Int(n)]);
            SqlQuery {
                sql: String::from_str(
                    "SELECT id, email_remote_id, event_type, created_at FROM events ORDER BY created_at DESC LIMIT ?2",
                ),
                params,
            }
        },
    }
}

/// Storing a delivery event: the event row, then the `last_event` of the
/// message it concerns.
pub fn store_event_statements(remote_id: &str, event_type: &str, payload: &str) -> (s: (
    SqlQuery,
    SqlQuery,
))
    ensures
        s.0.sql@ == "INSERT INTO events (email_remote_id, event_type, payload_json) VALUES (?1, ?2, ?3)"@,
        param_views(s.0.params@) == seq![
            ParamView::Text(remote_id@),
            ParamView::Text(event_type@),
            ParamView::Text(payload@),
        ],
        s.1.sql@ == "UPDATE messages SET last_event = ?1 WHERE remote_id = ?2"@,
        param_views(s.1.params@) == seq![ParamView::Text(event_type@), ParamView::Text(remote_id@)],
{
    let mut insert: Vec<SqlValue> = Vec::new();
    insert.push(SqlValue::Text(String::from_str(remote_id)));
    insert.push(SqlValue::Text(String::from_str(event_type)));
    insert.push(SqlValue::Text(String::from_str(payload)));
    let mut update: Vec<SqlValue> = Vec::new();
    update.push(SqlValue::Text(String::from_str(event_type)));
    update.push(SqlValue::Text(String::from_str(remote_id)));
    assert(param_views(insert@) =~= seq![
        ParamView::Text(remote_id@),
        ParamView::Text(event_type@),
        ParamView::Text(payload@),
    ]);
    assert(param_views(update@) =~= seq![ParamView::Text(event_type@), ParamView::Text(remote_id@)]);
    (
        SqlQuery {
            sql: String::from_str(
                "INSERT INTO events (email_remote_id, event_type, payload_json) VALUES (?1, ?2, ?3)",
            ),
            params: insert,
        },
        SqlQuery {
            sql: String::from_str("UPDATE messages SET last_event = ?1 WHERE remote_id = ?2"),
            params: update,
        },
    )
}

/// `attachments prefetch`: the messages (newest first, at most `limit`)
/// that have attachments not yet cached, among received and sent messages
/// (of one account, when given); one row per message.
pub fn prefetch_candidates_statement(account: Option<&str>, limit: usize) -> (q: SqlQuery)
    ensures
        q.sql@ == (if account is Some {
            "SELECT DISTINCT a.message_id, m.remote_id, m.account_email, m.direction FROM attachments a JOIN messages m ON a.message_id = m.id WHERE a.local_path IS NULL AND m.direction IN ('received', 'sent') AND m.account_email = ?1 ORDER BY m.created_at DESC LIMIT ?2"@
        } else {
            "SELECT DISTINCT a.message_id, m.remote_id, m.account_email, m.direction FROM attachments a JOIN messages m ON a.message_id = m.id WHERE a.local_path IS NULL AND m.direction IN ('received', 'sent') ORDER BY m.created_at DESC LIMIT ?1"@
        }),
        param_views(q.params@) == account_params(account) + seq![ParamView::Int(limit as i64)],
{
    let n: i64 = #[verifier::truncate] (limit as i64);
    let mut params = account_param(account);
    params.push(SqlValue::Int(n));
    assert(param_views(params@) =~= account_params(account) + seq![ParamView::Int(n)]);
    if account.is_some() {
        SqlQuery {
            sql: String::from_str(
                "SELECT DISTINCT a.message_id, m.remote_id, m.account_email, m.direction FROM attachments a JOIN messages m ON a.message_id = m.id WHERE a.local_path IS NULL AND m.direction IN ('received', 'sent') AND m.account_email = ?1 ORDER BY m.created_at DESC LIMIT ?2",
            ),
            params,
        }
    } else {
        SqlQuery {
            sql: String::from_str(
                "SELECT DISTINCT a.message_id, m.remote_id, m.account_email, m.direction FROM attachments a JOIN messages m ON a.message_id = m.id WHERE a.local_path IS NULL AND m.direction IN ('received', 'sent') ORDER BY m.created_at DESC LIMIT ?1",
            ),
            params,
        }
    }
}

/// Records where the bytes of an attachment were saved.
pub fn attachment_saved_statement(attachment_id: i64, path: &str) -> (q: SqlQuery)
    ensures
        q.sql@ == "UPDATE attachments SET local_path = ?1 WHERE id = ?2"@,
        param_views(q.params@) == seq![ParamView::Text(path@), ParamView::Int(attachment_id)],
{
    let mut params: Vec<SqlValue> = Vec::new();
    params.push(SqlValue::Text(String::from_str(path)));
    params.push(SqlValue::Int(attachment_id));
    assert(param_views(params@) =~= seq![ParamView::Text(path@), ParamView::Int(attachment_id)]);
    SqlQuery { sql: String::from_str("UPDATE attachments SET local_path = ?1 WHERE id = ?2"), params }
}

/// `signature set`: stores the signature of an account, named by its
/// normalized address.
pub fn signature_statement(account: &str, signature: &str) -> (q: SqlQuery)
    ensures
        q.sql@ == "UPDATE accounts SET signature = ?1, updated_at = CURRENT_TIMESTAMP WHERE email = ?2"@,
        param_views(q.params@) == seq![
            ParamView::Text(signature@),
            ParamView::Text(normalized_email(account@)),
        ],
{
    let mut params: Vec<SqlValue> = Vec::new();
    params.push(SqlValue::Text(String::from_str(signature)));
    params.push(SqlValue::Text(normalize_email(account)));
    assert(param_views(params@) =~= seq![
        ParamView::Text(signature@),
        ParamView::Text(normalized_email(account@)),
    ]);
    SqlQuery {
        sql: String::from_str(
            "UPDATE accounts SET signature = ?1, updated_at = CURRENT_TIMESTAMP WHERE email = ?2",
        ),
        params,
    }
}

} // verus!
