//! The decisions behind the `inbox` commands: which rows a listing or a
//! search selects (as SQL text and parameters), how requested message ids
//! split into found and missing ones, pagination, threading, statistics,
//! unsubscribe links and the rendering of a message body.

use vstd::prelude::*;
use crate::chars::{chars_of, string_from_range, trim, trim_bounds, trim_str};
use crate::cli::{InboxListArgs, InboxSearchArgs};
use crate::fmt::{
    concat3, has_prefix, join, join_strings, normalize_email, normalized_email, starts_with,
    str_eq,
};
use crate::models::{views, MessageRecord};
use crate::sync::opt_view;
use crate::text::{ansi_stripped, html_stripped, strip_ansi, strip_html_tags};

verus! {

/// Why an inbox command refused its input.
#[derive(Debug, Clone, PartialEq, Eq)]
pub enum InboxError {
    /// No message id was given.
    NoMessageIds,
    /// None of the given ids names a stored message.
    NoMatchingMessages,
    /// A search with neither a query nor a filter.
    NoSearchCriteria,
}

// ── Requested ids ──────────────────────────────────────────────────────────

/// The ids of `requested`, in order, whose presence in `existing` is `present`.
pub open spec fn ids_where(requested: Seq<i64>, existing: Seq<i64>, present: bool) -> Seq<i64>
    decreases requested.len(),
{
    if requested.len() == 0 {
        Seq::empty()
    } else {
        let rest = ids_where(requested.drop_last(), existing, present);
        if existing.contains(requested.last()) == present {
            rest.push(requested.last())
        } else {
            rest
        }
    }
}

/// How the ids of a bulk command split up.
#[derive(Debug, Clone)]
pub struct IdSplit {
    /// The ids as requested.
    pub requested_ids: Vec<i64>,
    /// The requested ids that name stored messages, in request order.
    pub found_ids: Vec<i64>,
    /// The requested ids that name no stored message, in request order.
    pub missing_ids: Vec<i64>,
    /// The number of found ids.
    pub count: usize,
}

/// A bulk command needs at least one id.
pub fn require_ids(ids: &Vec<i64>) -> (r: Result<(), InboxError>)
    ensures
        r is Err <==> ids.len() == 0,
        r matches Err(e) ==> e == InboxError::NoMessageIds,
{
    if ids.len() == 0 {
        Err(InboxError::NoMessageIds)
    } else {
        Ok(())
    }
}

/// Splits the requested ids by whether they name a stored message.
pub fn split_ids(requested: &Vec<i64>, existing: &Vec<i64>) -> (r: IdSplit)
    ensures
        r.requested_ids@ == requested@,
        r.found_ids@ == ids_where(requested@, existing@, true),
        r.missing_ids@ == ids_where(requested@, existing@, false),
        r.count == r.found_ids.len(),
{
    let mut found: Vec<i64> = Vec::new();
    let mut missing: Vec<i64> = Vec::new();
    let mut i: usize = 0;
    while i < requested.len()
        invariant
            i <= requested.len(),
            found@ == ids_where(requested@.take(i as int), existing@, true),
            missing@ == ids_where(requested@.take(i as int), existing@, false),
        decreases requested.len() - i,
    {
        let id = requested[i];
        let mut present = false;
        let mut j: usize = 0;
        while j < existing.len()
            invariant
                j <= existing.len(),
                present <==> exists|k: int| 0 <= k < j && existing@[k] == id,
            decreases existing.len() - j,
        {
            if existing[j] == id {
                present = true;
            }
            j += 1;
        }
        assert(present <==> existing@.contains(id));
        let ghost pre = requested@.take(i as int);
        assert(requested@.take(i + 1) =~= pre.push(id));
        assert(requested@.take(i + 1).drop_last() =~= pre);
        if present {
            found.push(id);
        } else {
            missing.push(id);
        }
        i += 1;
    }
    assert(requested@.take(requested.len() as int) =~= requested@);
    let count = found.len();
    IdSplit { requested_ids: requested.clone(), found_ids: found, missing_ids: missing, count }
}

/// The split of a delete, archive or unarchive: refused when no requested
/// id names a stored message.
pub fn split_ids_requiring_match(requested: &Vec<i64>, existing: &Vec<i64>) -> (r: Result<
    IdSplit,
    InboxError,
>)
    ensures
        match r {
            Ok(s) => {
                &&& s.requested_ids@ == requested@
                &&& s.found_ids@ == ids_where(requested@, existing@, true)
                &&& s.missing_ids@ == ids_where(requested@, existing@, false)
                &&& s.count == s.found_ids.len()
                &&& s.count > 0
            },
            Err(e) => e == InboxError::NoMatchingMessages && ids_where(
                requested@,
                existing@,
                true,
            ).len() == 0,
        },
{
    let s = split_ids(requested, existing);
    if s.count == 0 {
        Err(InboxError::NoMatchingMessages)
    } else {
        Ok(s)
    }
}

proof fn lemma_ids_where_partition(requested: Seq<i64>, existing: Seq<i64>)
    ensures
        ids_where(requested, existing, true).len() + ids_where(requested, existing, false).len()
            == requested.len(),
        forall|x: i64|
            ids_where(requested, existing, true).contains(x) <==> (requested.contains(x)
                && existing.contains(x)),
        forall|x: i64|
            ids_where(requested, existing, false).contains(x) <==> (requested.contains(x)
                && !existing.contains(x)),
    decreases requested.len(),
{
    if requested.len() > 0 {
        let init = requested.drop_last();
        let last = requested.last();
        lemma_ids_where_partition(init, existing);
        assert(requested =~= init.push(last));
        assert forall|x: i64| requested.contains(x) <==> (init.contains(x) || x == last) by {
            if requested.contains(x) {
                let k = choose|k: int| 0 <= k < requested.len() && requested[k] == x;
                if k < init.len() {
                    assert(init[k] == x);
                }
            }
            if init.contains(x) {
                let k = choose|k: int| 0 <= k < init.len() && init[k] == x;
                assert(requested[k] == x);
            }
            if x == last {
                assert(requested[requested.len() - 1] == x);
            }
        }
        let t = ids_where(init, existing, true);
        let f = ids_where(init, existing, false);
        assert forall|x: i64| t.push(last).contains(x) <==> (t.contains(x) || x == last) by {
            if t.push(last).contains(x) {
                let k = choose|k: int| 0 <= k < t.push(last).len() && t.push(last)[k] == x;
                if k < t.len() {
                    assert(t[k] == x);
                }
            }
            if t.contains(x) {
                let k = choose|k: int| 0 <= k < t.len() && t[k] == x;
                assert(t.push(last)[k] == x);
            }
            if x == last {
                assert(t.push(last)[t.len() as int] == x);
            }
        }
        assert forall|x: i64| f.push(last).contains(x) <==> (f.contains(x) || x == last) by {
            if f.push(last).contains(x) {
                let k = choose|k: int| 0 <= k < f.push(last).len() && f.push(last)[k] == x;
                if k < f.len() {
                    assert(f[k] == x);
                }
            }
            if f.contains(x) {
                let k = choose|k: int| 0 <= k < f.len() && f[k] == x;
                assert(f.push(last)[k] == x);
            }
            if x == last {
                assert(f.push(last)[f.len() as int] == x);
            }
        }
    }
}

/// Every requested id lands in exactly one of the found and missing lists,
/// and together they are as long as the request.
pub proof fn split_ids_partitions_request(requested: Seq<i64>, existing: Seq<i64>)
    ensures
        ids_where(requested, existing, true).len() + ids_where(requested, existing, false).len()
            == requested.len(),
        forall|x: i64|
            #![trigger requested.contains(x)]
            requested.contains(x) ==> (ids_where(requested, existing, true).contains(x)
                <==> !ids_where(requested, existing, false).contains(x)),
        forall|x: i64|
            ids_where(requested, existing, true).contains(x) ==> #[trigger] existing.contains(x),
{
    lemma_ids_where_partition(requested, existing);
}

/// The stored read state that `inbox mark` writes: 0 for `--unread`, else 1.
pub fn read_state_value(unread: bool) -> (v: i64)
    ensures
        v == (if unread {
            0i64
        } else {
            1i64
        }),
{
    if unread {
        0
    } else {
        1
    }
}

// ── SQL ────────────────────────────────────────────────────────────────────

/// A bound SQL parameter.
#[derive(Debug, Clone)]
pub enum SqlValue {
    Int(i64),
    Text(String),
}

/// The value of a bound parameter.
pub enum ParamView {
    Int(i64),
    Text(Seq<char>),
}

pub open spec fn param_view(p: SqlValue) -> ParamView {
    match p {
        SqlValue::Int(i) => ParamView::Int(i),
        SqlValue::Text(s) => ParamView::Text(s@),
    }
}

pub open spec fn param_views(ps: Seq<SqlValue>) -> Seq<ParamView> {
    ps.map_values(|p: SqlValue| param_view(p))
}

/// A statement and the parameters bound to its placeholders, in order.
#[derive(Debug, Clone)]
pub struct SqlQuery {
    pub sql: String,
    pub params: Vec<SqlValue>,
}

/// The columns of a message summary row.
pub open spec fn summary_columns() -> Seq<char> {
    "SELECT m.id, m.remote_id, m.direction, m.account_email, m.from_addr, m.to_json, m.cc_json, m.subject, m.rfc_message_id, m.in_reply_to, m.last_event, m.is_read, m.created_at, m.archived, m.text_body, m.starred, m.snoozed_until, m.list_unsubscribe, (SELECT COUNT(*) FROM attachments a WHERE a.message_id = m.id) AS has_attachments FROM messages m"@
}

pub fn summary_columns_exec() -> (s: &'static str)
    ensures
        s@ == summary_columns(),
{
    "SELECT m.id, m.remote_id, m.direction, m.account_email, m.from_addr, m.to_json, m.cc_json, m.subject, m.rfc_message_id, m.in_reply_to, m.last_event, m.is_read, m.created_at, m.archived, m.text_body, m.starred, m.snoozed_until, m.list_unsubscribe, (SELECT COUNT(*) FROM attachments a WHERE a.message_id = m.id) AS has_attachments FROM messages m"
}

/// The conditions of an inbox listing, in the order they are joined.
pub open spec fn inbox_list_conditions(args: InboxListArgs) -> Seq<Seq<char>> {
    let c1 = seq!["m.archived = ?"@];
    let c2 = if args.account is Some {
        c1.push("m.account_email = ?"@)
    } else {
        c1
    };
    let c3 = if args.unread {
        c2.push("m.is_read = 0"@)
    } else {
        c2
    };
    let c4 = if args.starred {
        c3.push("m.starred = 1"@)
    } else {
        c3
    };
    let c5 = if args.snoozed {
        c4.push("m.snoozed_until IS NOT NULL AND m.snoozed_until > ?"@)
    } else {
        c4.push("(m.snoozed_until IS NULL OR m.snoozed_until <= ?)"@)
    };
    if args.after is Some {
        c5.push("m.id < ?"@)
    } else {
        c5
    }
}

/// The parameters of an inbox listing, in placeholder order. One row more
/// than the page size is fetched, to tell whether more pages follow.
pub open spec fn inbox_list_params(args: InboxListArgs, now: Seq<char>) -> Seq<ParamView> {
    let p1 = seq![ParamView::Int(if args.archived { 1 } else { 0 })];
    let p2 = match args.account {
        Some(a) => p1.push(ParamView::Text(normalized_email(a@))),
        None => p1,
    };
    let p3 = p2.push(ParamView::Text(now));
    let p4 = match args.after {
        Some(id) => p3.push(ParamView::Int(id)),
        None => p3,
    };
    p4.push(ParamView::Int((args.limit + 1) as i64))
}

/// The query behind `inbox ls`: messages of the archive or of the inbox,
/// optionally of one account, unread, starred, currently snoozed (or else
/// not snoozed into the future), older than a cursor; newest first.
pub fn inbox_list_query(args: &InboxListArgs, now_iso: &str) -> (q: SqlQuery)
    requires
        args.limit < usize::MAX,
    ensures
        q.sql@ == summary_columns() + " WHERE "@ + join(inbox_list_conditions(*args), " AND "@)
            + " ORDER BY m.created_at DESC, m.id DESC LIMIT ?"@,
        param_views(q.params@) == inbox_list_params(*args, now_iso@),
{
    let mut conditions: Vec<String> = Vec::new();
    let mut params: Vec<SqlValue> = Vec::new();
    conditions.push(String::from_str("m.archived = ?"));
    params.push(SqlValue::Int(if args.archived { 1 } else { 0 }));
    match &args.account {
        Some(account) => {
            conditions.push(String::from_str("m.account_email = ?"));
            params.push(SqlValue::Text(normalize_email(account.as_str())));
        },
        None => {},
    }
    if args.unread {
        conditions.push(String::from_str("m.is_read = 0"));
    }
    if args.starred {
        conditions.push(String::from_str("m.starred = 1"));
    }
    if args.snoozed {
        conditions.push(String::from_str("m.snoozed_until IS NOT NULL AND m.snoozed_until > ?"));
    } else {
        conditions.push(String::from_str("(m.snoozed_until IS NULL OR m.snoozed_until <= ?)"));
    }
    params.push(SqlValue::Text(String::from_str(now_iso)));
    match args.after {
        Some(after) => {
            conditions.push(String::from_str("m.id < ?"));
            params.push(SqlValue::Int(after));
        },
        None => {},
    }
    let fetch: usize = args.limit + 1;
    params.push(SqlValue::Int(#[verifier::truncate] (fetch as i64)));
    assert(views(conditions@) =~= inbox_list_conditions(*args));
    assert(param_views(params@) =~= inbox_list_params(*args, now_iso@));
    let where_clause = join_strings(&conditions, " AND ");
    let mut sql = String::from_str(summary_columns_exec());
    sql.append(" WHERE ");
    sql.append(where_clause.as_str());
    sql.append(" ORDER BY m.created_at DESC, m.id DESC LIMIT ?");
    SqlQuery { sql, params }
}

/// Whether a search has anything to search by.
pub open spec fn search_has_criteria(args: InboxSearchArgs) -> bool {
    trim(args.query@).len() > 0 || args.from is Some || args.to is Some || args.subject is Some
        || args.has_attachment || args.unread || args.starred || args.account is Some
}

/// `%value%`, a LIKE pattern matching any text that contains `value`.
pub open spec fn like_pattern(value: Seq<char>) -> Seq<char> {
    "%"@ + value + "%"@
}

/// `s`, with `c` appended when `b` holds.
pub open spec fn push_when(s: Seq<Seq<char>>, b: bool, c: Seq<char>) -> Seq<Seq<char>> {
    if b {
        s.push(c)
    } else {
        s
    }
}

fn push_condition_when(conditions: &mut Vec<String>, b: bool, c: &str)
    ensures
        views(final(conditions)@) == push_when(views(old(conditions)@), b, c@),
{
    if b {
        let ghost before = conditions@;
        conditions.push(String::from_str(c));
        assert(views(conditions@) =~= views(before).push(c@));
    }
}

/// The conditions of a search, in the order they are joined.
pub open spec fn search_conditions(args: InboxSearchArgs) -> Seq<Seq<char>> {
    let c1 = push_when(Seq::empty(), trim(args.query@).len() > 0, "messages_fts MATCH ?"@);
    let c2 = push_when(c1, args.account is Some, "m.account_email = ?"@);
    let c3 = push_when(c2, args.from is Some, "m.from_addr LIKE ?"@);
    let c4 = push_when(c3, args.to is Some, "m.to_json LIKE ?"@);
    let c5 = push_when(c4, args.subject is Some, "m.subject LIKE ?"@);
    let c6 = push_when(
        c5,
        args.has_attachment,
        "EXISTS (SELECT 1 FROM attachments a WHERE a.message_id = m.id)"@,
    );
    let c7 = push_when(c6, args.unread, "m.is_read = 0"@);
    push_when(c7, args.starred, "m.starred = 1"@)
}

/// The parameters of a search, in placeholder order.
pub open spec fn search_params(args: InboxSearchArgs) -> Seq<ParamView> {
    let q = trim(args.query@);
    let p1: Seq<ParamView> = if q.len() > 0 {
        seq![ParamView::Text(q)]
    } else {
        Seq::empty()
    };
    let p2 = match args.account {
        Some(a) => p1.push(ParamView::Text(normalized_email(a@))),
        None => p1,
    };
    let p3 = match args.from {
        Some(f) => p2.push(ParamView::Text(like_pattern(f@))),
        None => p2,
    };
    let p4 = match args.to {
        Some(t) => p3.push(ParamView::Text(like_pattern(t@))),
        None => p3,
    };
    let p5 = match args.subject {
        Some(s) => p4.push(ParamView::Text(like_pattern(s@))),
        None => p4,
    };
    p5.push(ParamView::Int(args.limit as i64))
}

proof fn lemma_push_when_contains(s: Seq<Seq<char>>, b: bool, c: Seq<char>, x: Seq<char>)
    ensures
        push_when(s, b, c).contains(x) <==> s.contains(x) || (b && c == x),
{
    if b {
        let t = s.push(c);
        if s.contains(x) {
            let k = choose|k: int| 0 <= k < s.len() && s[k] == x;
            assert(t[k] == x);
        }
        if c == x {
            assert(t[s.len() as int] == x);
        }
        if t.contains(x) {
            let k = choose|k: int| 0 <= k < t.len() && t[k] == x;
            if k < s.len() {
                assert(s[k] == x);
            }
        }
    }
}

/// A search filters on a column exactly when its option is given: the
/// condition on the subject column is there exactly when `--subject` is,
/// the one on the sender column exactly when `--from` is, the one on the
/// recipients exactly when `--to` is, the account condition exactly when
/// `--account` is, the full-text match exactly when the query has text, and
/// the attachment, unread and starred conditions exactly when those flags
/// are set.
/// Each of these conditions stands at the position of the parameter it is
/// bound to: the LIKE pattern of the subject for the subject condition, of
/// the sender for the sender condition, and so on.
pub proof fn search_filters_bind_their_own_columns(args: InboxSearchArgs)
    ensures
        search_conditions(args).contains("m.subject LIKE ?"@) <==> args.subject is Some,
        search_conditions(args).contains("m.from_addr LIKE ?"@) <==> args.from is Some,
        search_conditions(args).contains("m.to_json LIKE ?"@) <==> args.to is Some,
        search_conditions(args).contains("m.account_email = ?"@) <==> args.account is Some,
        search_conditions(args).contains("messages_fts MATCH ?"@) <==> trim(args.query@).len() > 0,
        search_conditions(args).contains(
            "EXISTS (SELECT 1 FROM attachments a WHERE a.message_id = m.id)"@,
        ) <==> args.has_attachment,
        search_conditions(args).contains("m.is_read = 0"@) <==> args.unread,
        search_conditions(args).contains("m.starred = 1"@) <==> args.starred,
        args.subject matches Some(v) ==> exists|i: int|
            0 <= i < search_conditions(args).len() && i < search_params(args).len()
                && search_conditions(args)[i] == "m.subject LIKE ?"@ && #[trigger] search_params(
                args,
            )[i] == ParamView::Text(like_pattern(v@)),
        args.from matches Some(v) ==> exists|i: int|
            0 <= i < search_conditions(args).len() && i < search_params(args).len()
                && search_conditions(args)[i] == "m.from_addr LIKE ?"@ && #[trigger] search_params(
                args,
            )[i] == ParamView::Text(like_pattern(v@)),
        args.to matches Some(v) ==> exists|i: int|
            0 <= i < search_conditions(args).len() && i < search_params(args).len()
                && search_conditions(args)[i] == "m.to_json LIKE ?"@ && #[trigger] search_params(
                args,
            )[i] == ParamView::Text(like_pattern(v@)),
{
    reveal_strlit("messages_fts MATCH ?");
    reveal_strlit("m.account_email = ?");
    reveal_strlit("m.from_addr LIKE ?");
    reveal_strlit("m.to_json LIKE ?");
    reveal_strlit("m.subject LIKE ?");
    reveal_strlit("EXISTS (SELECT 1 FROM attachments a WHERE a.message_id = m.id)");
    reveal_strlit("m.is_read = 0");
    reveal_strlit("m.starred = 1");
    let names = seq![
        "messages_fts MATCH ?"@,
        "m.account_email = ?"@,
        "m.from_addr LIKE ?"@,
        "m.to_json LIKE ?"@,
        "m.subject LIKE ?"@,
        "EXISTS (SELECT 1 FROM attachments a WHERE a.message_id = m.id)"@,
        "m.is_read = 0"@,
        "m.starred = 1"@,
    ];
    assert forall|i: int, j: int| 0 <= i < j < 8 implies names[i] != names[j] by {
        if names[i] == names[j] {
            assert(names[i].len() == names[j].len());
            assert(names[i][2] == names[j][2]);
            assert(names[i][3] == names[j][3]);
        }
    }
    let c1 = push_when(Seq::empty(), trim(args.query@).len() > 0, names[0]);
    let c2 = push_when(c1, args.account is Some, names[1]);
    let c3 = push_when(c2, args.from is Some, names[2]);
    let c4 = push_when(c3, args.to is Some, names[3]);
    let c5 = push_when(c4, args.subject is Some, names[4]);
    let c6 = push_when(c5, args.has_attachment, names[5]);
    let c7 = push_when(c6, args.unread, names[6]);
    let c8 = push_when(c7, args.starred, names[7]);
    assert(search_conditions(args) == c8);
    assert forall|k: int| 0 <= k < 8 implies (#[trigger] c8.contains(names[k])) <==> (if k == 0 {
        trim(args.query@).len() > 0
    } else if k == 1 {
        args.account is Some
    } else if k == 2 {
        args.from is Some
    } else if k == 3 {
        args.to is Some
    } else if k == 4 {
        args.subject is Some
    } else if k == 5 {
        args.has_attachment
    } else if k == 6 {
        args.unread
    } else {
        args.starred
    }) by {
        let x = names[k];
        assert(!Seq::<Seq<char>>::empty().contains(x));
        lemma_push_when_contains(Seq::empty(), trim(args.query@).len() > 0, names[0], x);
        lemma_push_when_contains(c1, args.account is Some, names[1], x);
        lemma_push_when_contains(c2, args.from is Some, names[2], x);
        lemma_push_when_contains(c3, args.to is Some, names[3], x);
        lemma_push_when_contains(c4, args.subject is Some, names[4], x);
        lemma_push_when_contains(c5, args.has_attachment, names[5], x);
        lemma_push_when_contains(c6, args.unread, names[6], x);
        lemma_push_when_contains(c7, args.starred, names[7], x);
    }
    assert(c8.contains(names[0]) <==> trim(args.query@).len() > 0);
    assert(c8.contains(names[1]) <==> args.account is Some);
    assert(c8.contains(names[2]) <==> args.from is Some);
    assert(c8.contains(names[3]) <==> args.to is Some);
    assert(c8.contains(names[4]) <==> args.subject is Some);
    assert(c8.contains(names[5]) <==> args.has_attachment);
    assert(c8.contains(names[6]) <==> args.unread);
    assert(c8.contains(names[7]) <==> args.starred);
    // Each condition up to the subject comes with exactly one parameter.
    let q = trim(args.query@);
    let p1: Seq<ParamView> = if q.len() > 0 {
        seq![ParamView::Text(q)]
    } else {
        Seq::empty()
    };
    let p2 = match args.account {
        Some(a) => p1.push(ParamView::Text(normalized_email(a@))),
        None => p1,
    };
    let p3 = match args.from {
        Some(f) => p2.push(ParamView::Text(like_pattern(f@))),
        None => p2,
    };
    let p4 = match args.to {
        Some(t) => p3.push(ParamView::Text(like_pattern(t@))),
        None => p3,
    };
    let p5 = match args.subject {
        Some(v) => p4.push(ParamView::Text(like_pattern(v@))),
        None => p4,
    };
    assert(search_params(args) == p5.push(ParamView::Int(args.limit as i64)));
    assert(p1.len() == c1.len() && p2.len() == c2.len() && p3.len() == c3.len() && p4.len()
        == c4.len() && p5.len() == c5.len());
    assert(c5.len() <= c6.len() <= c7.len() <= c8.len());
    assert forall|i: int| 0 <= i < c5.len() implies c8[i] == c5[i] by {
        assert(c6[i] == c5[i]);
        assert(c7[i] == c6[i]);
    }
    let sp = search_params(args);
    match args.from {
        Some(v) => {
            let i = c2.len() as int;
            assert(c3[i] == names[2] && c8[i] == c3[i] && c4[i] == c3[i] && c5[i] == c4[i]);
            assert(p3[i] == ParamView::Text(like_pattern(v@)) && p4[i] == p3[i] && p5[i] == p4[i]);
            assert(sp[i] == ParamView::Text(like_pattern(v@)));
        },
        None => {},
    }
    match args.to {
        Some(v) => {
            let i = c3.len() as int;
            assert(c4[i] == names[3] && c8[i] == c4[i] && c5[i] == c4[i]);
            assert(p4[i] == ParamView::Text(like_pattern(v@)) && p5[i] == p4[i]);
            assert(sp[i] == ParamView::Text(like_pattern(v@)));
        },
        None => {},
    }
    match args.subject {
        Some(v) => {
            let i = c4.len() as int;
            assert(c5[i] == names[4] && c8[i] == c5[i]);
            assert(p5[i] == ParamView::Text(like_pattern(v@)));
            assert(sp[i] == ParamView::Text(like_pattern(v@)));
        },
        None => {},
    }
}

/// The query behind `inbox search`: full-text match on the query, and
/// account, sender, recipient, subject, attachment, unread and starred
/// filters; newest first. A search with no criterion is refused.
pub fn inbox_search_query(args: &InboxSearchArgs) -> (r: Result<SqlQuery, InboxError>)
    ensures
        r is Err <==> !search_has_criteria(*args),
        r matches Err(e) ==> e == InboxError::NoSearchCriteria,
        r matches Ok(q) ==> {
            &&& q.sql@ == "SELECT m.id, m.remote_id, m.direction, m.account_email, m.from_addr, m.to_json, m.cc_json, m.subject, m.rfc_message_id, m.in_reply_to, m.last_event, m.is_read, m.created_at, m.archived, m.text_body, m.starred, m.snoozed_until, m.list_unsubscribe, (SELECT COUNT(*) FROM attachments a2 WHERE a2.message_id = m.id) AS has_attachments FROM messages m"@
                + (if trim(args.query@).len() > 0 {
                " JOIN messages_fts fts ON m.id = fts.rowid"@
            } else {
                ""@
            }) + " WHERE "@ + join(search_conditions(*args), " AND "@)
                + " ORDER BY m.created_at DESC LIMIT ?"@
            &&& param_views(q.params@) == search_params(*args)
        },
{
    let query = trim_str(args.query.as_str());
    let has_query = query.unicode_len() > 0;
    if !(has_query || args.from.is_some() || args.to.is_some() || args.subject.is_some()
        || args.has_attachment || args.unread || args.starred || args.account.is_some()) {
        return Err(InboxError::NoSearchCriteria);
    }
    let conditions = search_conditions_exec(args, has_query);
    let params = search_params_exec(args, query);
    let where_clause = join_strings(&conditions, " AND ");
    let mut sql = String::from_str(
        "SELECT m.id, m.remote_id, m.direction, m.account_email, m.from_addr, m.to_json, m.cc_json, m.subject, m.rfc_message_id, m.in_reply_to, m.last_event, m.is_read, m.created_at, m.archived, m.text_body, m.starred, m.snoozed_until, m.list_unsubscribe, (SELECT COUNT(*) FROM attachments a2 WHERE a2.message_id = m.id) AS has_attachments FROM messages m",
    );
    if has_query {
        sql.append(" JOIN messages_fts fts ON m.id = fts.rowid");
    } else {
        sql.append("");
    }
    sql.append(" WHERE ");
    sql.append(where_clause.as_str());
    sql.append(" ORDER BY m.created_at DESC LIMIT ?");
    Ok(SqlQuery { sql, params })
}

fn search_conditions_exec(args: &InboxSearchArgs, has_query: bool) -> (conditions: Vec<String>)
    requires
        has_query == (trim(args.query@).len() > 0),
    ensures
        views(conditions@) == search_conditions(*args),
{
    let mut conditions: Vec<String> = Vec::new();
    assert(views(conditions@) =~= Seq::<Seq<char>>::empty());
    push_condition_when(&mut conditions, has_query, "messages_fts MATCH ?");
    push_condition_when(&mut conditions, args.account.is_some(), "m.account_email = ?");
    push_condition_when(&mut conditions, args.from.is_some(), "m.from_addr LIKE ?");
    push_condition_when(&mut conditions, args.to.is_some(), "m.to_json LIKE ?");
    push_condition_when(&mut conditions, args.subject.is_some(), "m.subject LIKE ?");
    push_condition_when(
        &mut conditions,
        args.has_attachment,
        "EXISTS (SELECT 1 FROM attachments a WHERE a.message_id = m.id)",
    );
    push_condition_when(&mut conditions, args.unread, "m.is_read = 0");
    push_condition_when(&mut conditions, args.starred, "m.starred = 1");
    conditions
}

fn search_params_exec(args: &InboxSearchArgs, query: String) -> (params: Vec<SqlValue>)
    requires
        query@ == trim(args.query@),
    ensures
        param_views(params@) == search_params(*args),
{
    let mut params: Vec<SqlValue> = Vec::new();
    if query.unicode_len() > 0 {
        params.push(SqlValue::Text(query));
    }
    match &args.account {
        Some(account) => {
            params.push(SqlValue::Text(normalize_email(account.as_str())));
        },
        None => {},
    }
    match &args.from {
        Some(from) => {
            params.push(SqlValue::Text(concat3("%", from.as_str(), "%")));
        },
        None => {},
    }
    match &args.to {
        Some(to) => {
            params.push(SqlValue::Text(concat3("%", to.as_str(), "%")));
        },
        None => {},
    }
    match &args.subject {
        Some(subject) => {
            params.push(SqlValue::Text(concat3("%", subject.as_str(), "%")));
        },
        None => {},
    }
    params.push(SqlValue::Int(#[verifier::truncate] (args.limit as i64)));
    assert(param_views(params@) =~= search_params(*args));
    params
}

// ── Pages ──────────────────────────────────────────────────────────────────

/// The outcome of cutting a fetched listing down to one page.
#[derive(Debug, Clone)]
pub struct PageCut {
    /// How many of the fetched rows the page keeps.
    pub keep: usize,
    /// Whether rows beyond the page were fetched.
    pub has_more: bool,
    /// The id of the last kept row: where the next page starts.
    pub next_cursor: Option<i64>,
}

/// Cuts the ids of a listing (fetched with one row beyond the page size)
/// down to a page of `limit` rows.
pub fn cut_page(ids: &Vec<i64>, limit: usize) -> (c: PageCut)
    ensures
        c.has_more == (ids.len() > limit),
        c.keep == (if c.has_more {
            limit as int
        } else {
            ids.len() as int
        }),
        c.next_cursor == (if c.keep > 0 {
            Some(ids@[c.keep - 1])
        } else {
            None::<i64>
        }),
{
    let has_more = ids.len() > limit;
    let keep = if has_more {
        limit
    } else {
        ids.len()
    };
    let next_cursor = if keep > 0 {
        Some(ids[keep - 1])
    } else {
        None
    };
    PageCut { keep, has_more, next_cursor }
}

/// Paging with `--after`: when the listing comes in decreasing id order, a
/// page keeps at most `limit` rows and none of them has an id below its
/// cursor, so the next page (`m.id < ?` bound to the cursor) repeats none of
/// them.
pub proof fn next_page_repeats_nothing(ids: Seq<i64>, limit: int, keep: int, cursor: i64)
    requires
        0 <= limit,
        keep == (if ids.len() > limit {
            limit
        } else {
            ids.len() as int
        }),
        keep > 0,
        cursor == ids[keep - 1],
        forall|i: int, j: int| 0 <= i < j < ids.len() ==> ids[i] > ids[j],
    ensures
        keep <= limit,
        forall|k: int| 0 <= k < keep ==> !(#[trigger] ids[k] < cursor),
{
    assert forall|k: int| 0 <= k < keep implies !(#[trigger] ids[k] < cursor) by {
        if k < keep - 1 {
            assert(ids[k] > ids[keep - 1]);
        }
    }
}

// ── Threads ────────────────────────────────────────────────────────────────

/// `acc` extended with the ids of `refs` it does not hold yet, in order.
pub open spec fn add_new_ids(acc: Seq<Seq<char>>, refs: Seq<Seq<char>>) -> Seq<Seq<char>>
    decreases refs.len(),
{
    if refs.len() == 0 {
        acc
    } else {
        let prev = add_new_ids(acc, refs.drop_last());
        if prev.contains(refs.last()) {
            prev
        } else {
            prev.push(refs.last())
        }
    }
}

/// The Message-IDs that make up the thread of a message: its own id, the id
/// it replies to, then each of its references not listed yet.
pub open spec fn thread_message_ids(seed: MessageRecord) -> Seq<Seq<char>> {
    let base0: Seq<Seq<char>> = Seq::empty();
    let base1 = match seed.rfc_message_id {
        Some(m) => base0.push(m@),
        None => base0,
    };
    let base2 = match seed.in_reply_to {
        Some(r) => base1.push(r@),
        None => base1,
    };
    add_new_ids(base2, views(seed.references@))
}

fn contains_string(v: &Vec<String>, s: &String) -> (r: bool)
    ensures
        r == views(v@).contains(s@),
{
    let mut i: usize = 0;
    while i < v.len()
        invariant
            i <= v.len(),
            forall|k: int| 0 <= k < i ==> v@[k]@ != s@,
        decreases v.len() - i,
    {
        if str_eq(v[i].as_str(), s.as_str()) {
            assert(views(v@)[i as int] == s@);
            return true;
        }
        i += 1;
    }
    assert forall|k: int| 0 <= k < views(v@).len() implies views(v@)[k] != s@ by {
        assert(views(v@)[k] == v@[k]@);
    }
    false
}

/// Collects the Message-IDs of the thread of `seed` (`inbox thread`).
pub fn thread_ids(seed: &MessageRecord) -> (ids: Vec<String>)
    ensures
        views(ids@) == thread_message_ids(*seed),
{
    let mut ids: Vec<String> = Vec::new();
    match &seed.rfc_message_id {
        Some(m) => {
            ids.push(m.clone());
        },
        None => {},
    }
    match &seed.in_reply_to {
        Some(r) => {
            ids.push(r.clone());
        },
        None => {},
    }
    let ghost base = views(ids@);
    assert(base =~= {
        let base0: Seq<Seq<char>> = Seq::empty();
        let base1 = match seed.rfc_message_id {
            Some(m) => base0.push(m@),
            None => base0,
        };
        match seed.in_reply_to {
            Some(r) => base1.push(r@),
            None => base1,
        }
    });
    let ghost refs = views(seed.references@);
    let mut i: usize = 0;
    while i < seed.references.len()
        invariant
            i <= seed.references.len(),
            refs == views(seed.references@),
            views(ids@) == add_new_ids(base, refs.take(i as int)),
        decreases seed.references.len() - i,
    {
        let r = &seed.references[i];
        assert(refs.take(i + 1).drop_last() =~= refs.take(i as int));
        assert(refs.take(i + 1).last() == r@);
        if !contains_string(&ids, r) {
            let ghost before = ids@;
            ids.push(r.clone());
            assert(views(ids@) =~= views(before).push(r@));
        }
        i += 1;
    }
    assert(refs.take(seed.references.len() as int) =~= refs);
    ids
}

proof fn lemma_add_new_ids_contains(acc: Seq<Seq<char>>, refs: Seq<Seq<char>>)
    ensures
        forall|x: Seq<char>| #[trigger] acc.contains(x) ==> add_new_ids(acc, refs).contains(x),
        forall|x: Seq<char>| #[trigger] refs.contains(x) ==> add_new_ids(acc, refs).contains(x),
    decreases refs.len(),
{
    if refs.len() > 0 {
        let init = refs.drop_last();
        lemma_add_new_ids_contains(acc, init);
        let prev = add_new_ids(acc, init);
        assert forall|x: Seq<char>| #[trigger] refs.contains(x) implies add_new_ids(
            acc,
            refs,
        ).contains(x) by {
            let k = choose|k: int| 0 <= k < refs.len() && refs[k] == x;
            if k < init.len() {
                assert(init[k] == x);
                assert(init.contains(x));
            }
            if !prev.contains(refs.last()) {
                let n = prev.push(refs.last());
                if k == refs.len() - 1 {
                    assert(n[prev.len() as int] == x);
                } else {
                    let j = choose|j: int| 0 <= j < prev.len() && prev[j] == x;
                    assert(n[j] == x);
                }
            }
        }
        assert forall|x: Seq<char>| #[trigger] acc.contains(x) implies add_new_ids(
            acc,
            refs,
        ).contains(x) by {
            if !prev.contains(refs.last()) {
                let n = prev.push(refs.last());
                let j = choose|j: int| 0 <= j < prev.len() && prev[j] == x;
                assert(n[j] == x);
            }
        }
    }
}

proof fn lemma_add_new_ids_no_dup(acc: Seq<Seq<char>>, refs: Seq<Seq<char>>)
    requires
        acc.no_duplicates(),
    ensures
        add_new_ids(acc, refs).no_duplicates(),
    decreases refs.len(),
{
    if refs.len() > 0 {
        lemma_add_new_ids_no_dup(acc, refs.drop_last());
        let prev = add_new_ids(acc, refs.drop_last());
        if !prev.contains(refs.last()) {
            let n = prev.push(refs.last());
            assert forall|i: int, j: int| 0 <= i < n.len() && 0 <= j < n.len() && i != j implies n[i]
                != n[j] by {
                if i == prev.len() {
                    assert(prev[j] == n[j]);
                } else if j == prev.len() {
                    assert(prev[i] == n[i]);
                }
            }
        }
    }
}

/// The thread of a message covers its own id, the id it replies to and all
/// its references; and when its own id differs from the id it replies to,
/// no id is listed twice.
pub proof fn thread_ids_cover_references(seed: MessageRecord)
    ensures
        forall|x: Seq<char>|
            #[trigger] views(seed.references@).contains(x) ==> thread_message_ids(seed).contains(x),
        seed.rfc_message_id matches Some(m) ==> thread_message_ids(seed).contains(m@),
        seed.in_reply_to matches Some(r) ==> thread_message_ids(seed).contains(r@),
        (seed.rfc_message_id matches Some(m) && seed.in_reply_to matches Some(r) ==> m@ != r@)
            ==> thread_message_ids(seed).no_duplicates(),
{
    let base0: Seq<Seq<char>> = Seq::empty();
    let base1 = match seed.rfc_message_id {
        Some(m) => base0.push(m@),
        None => base0,
    };
    let base2 = match seed.in_reply_to {
        Some(r) => base1.push(r@),
        None => base1,
    };
    lemma_add_new_ids_contains(base2, views(seed.references@));
    match seed.rfc_message_id {
        Some(m) => {
            assert(base1[0] == m@);
            assert(base2[0] == m@);
            assert(base2.contains(m@));
        },
        None => {},
    }
    match seed.in_reply_to {
        Some(r) => {
            assert(base2[base2.len() - 1] == r@);
            assert(base2.contains(r@));
        },
        None => {},
    }
    if (seed.rfc_message_id matches Some(m) && seed.in_reply_to matches Some(r) ==> m@ != r@) {
        assert(base2.no_duplicates());
        lemma_add_new_ids_no_dup(base2, views(seed.references@));
    }
}

// ── Statistics ─────────────────────────────────────────────────────────────

/// Message counts of the mailbox (or of one account).
#[derive(Debug, Clone)]
pub struct InboxStats {
    pub total: i64,
    pub inbox: i64,
    pub unread: i64,
    pub archived: i64,
    pub sent: i64,
}

/// Assembles the statistics from the counted rows: the inbox is what is
/// neither archived nor sent.
pub fn inbox_stats(total: i64, unread: i64, archived: i64, sent: i64) -> (s: InboxStats)
    requires
        i64::MIN <= total - archived <= i64::MAX,
        i64::MIN <= total - archived - sent <= i64::MAX,
    ensures
        s.total == total,
        s.unread == unread,
        s.archived == archived,
        s.sent == sent,
        s.inbox == total - archived - sent,
{
    InboxStats { total, inbox: total - archived - sent, unread, archived, sent }
}

// ── Unsubscribe ────────────────────────────────────────────────────────────

/// `s` without any leading `<`.
pub open spec fn drop_leading_angles(s: Seq<char>) -> Seq<char>
    decreases s.len(),
{
    if s.len() > 0 && s[0] == '<' {
        drop_leading_angles(s.skip(1))
    } else {
        s
    }
}

/// `s` without any trailing `>`.
pub open spec fn drop_trailing_angles(s: Seq<char>) -> Seq<char>
    decreases s.len(),
{
    if s.len() > 0 && s.last() == '>' {
        drop_trailing_angles(s.drop_last())
    } else {
        s
    }
}

/// One comma-separated entry of a List-Unsubscribe header, unwrapped: trimmed,
/// angle brackets removed, trimmed again.
pub open spec fn unwrap_entry(s: Seq<char>) -> Seq<char> {
    trim(drop_trailing_angles(drop_leading_angles(trim(s))))
}

/// A link the client can follow: an http(s) URL or a mailto: address.
pub open spec fn is_followable(s: Seq<char>) -> bool {
    has_prefix(s, "http"@) || has_prefix(s, "mailto:"@)
}

/// Index of the first `,` at or after `i`, or the end of `s`.
pub open spec fn comma_end(s: Seq<char>, i: int) -> int
    decreases s.len() - i,
{
    if i >= s.len() {
        s.len() as int
    } else if s[i] == ',' {
        i
    } else {
        comma_end(s, i + 1)
    }
}

/// The first followable entry among the comma-separated entries of `s` that
/// start at `i`, if any.
pub open spec fn first_followable_from(s: Seq<char>, i: int) -> Option<Seq<char>>
    decreases s.len() - i,
{
    if i < 0 || i > s.len() {
        None
    } else {
        let e = comma_end(s, i);
        if e < i || e > s.len() {
            None
        } else {
            let entry = unwrap_entry(s.subrange(i, e));
            if is_followable(entry) {
                Some(entry)
            } else if e < s.len() {
                first_followable_from(s, e + 1)
            } else {
                None
            }
        }
    }
}

/// The link `inbox unsubscribe` reports for a List-Unsubscribe header: the
/// first entry that is an http(s) URL or a mailto: address, else the raw
/// header.
pub open spec fn unsubscribe_link(header: Seq<char>) -> Seq<char> {
    match first_followable_from(header, 0) {
        Some(l) => l,
        None => header,
    }
}

proof fn lemma_comma_end_bounds(s: Seq<char>, i: int)
    requires
        0 <= i <= s.len(),
    ensures
        i <= comma_end(s, i) <= s.len(),
    decreases s.len() - i,
{
    if i < s.len() && s[i] != ',' {
        lemma_comma_end_bounds(s, i + 1);
    }
}

fn unwrap_entry_exec(v: &Vec<char>, lo: usize, hi: usize) -> (s: String)
    requires
        lo <= hi <= v.len(),
    ensures
        s@ == unwrap_entry(v@.subrange(lo as int, hi as int)),
{
    let (a0, b0) = trim_bounds(v, lo, hi);
    let ghost t0 = v@.subrange(a0 as int, b0 as int);
    let mut a = a0;
    while a < b0 && v[a] == '<'
        invariant
            a0 <= a <= b0 <= v.len(),
            drop_leading_angles(t0) == drop_leading_angles(v@.subrange(a as int, b0 as int)),
        decreases b0 - a,
    {
        assert(v@.subrange(a as int, b0 as int).skip(1) =~= v@.subrange(a + 1, b0 as int));
        a += 1;
    }
    assert(drop_leading_angles(v@.subrange(a as int, b0 as int)) == v@.subrange(
        a as int,
        b0 as int,
    ));
    let mut b = b0;
    while b > a && v[b - 1] == '>'
        invariant
            a <= b <= b0 <= v.len(),
            drop_trailing_angles(v@.subrange(a as int, b0 as int)) == drop_trailing_angles(
                v@.subrange(a as int, b as int),
            ),
        decreases b - a,
    {
        assert(v@.subrange(a as int, b as int).drop_last() =~= v@.subrange(a as int, b - 1));
        b -= 1;
    }
    let (a2, b2) = trim_bounds(v, a, b);
    string_from_range(v, a2, b2)
}

/// Picks the link to follow out of a List-Unsubscribe header.
pub fn unsubscribe_url(header: &str) -> (url: String)
    ensures
        url@ == unsubscribe_link(header@),
{
    let v = chars_of(header);
    let mut i: usize = 0;
    loop
        invariant
            i <= v.len(),
            v@ == header@,
            first_followable_from(v@, 0) == first_followable_from(v@, i as int),
        decreases v.len() - i,
    {
        let mut e = i;
        while e < v.len() && v[e] != ','
            invariant
                i <= e <= v.len(),
                comma_end(v@, i as int) == comma_end(v@, e as int),
            decreases v.len() - e,
        {
            e += 1;
        }
        proof {
            lemma_comma_end_bounds(v@, i as int);
        }
        let entry = unwrap_entry_exec(&v, i, e);
        if starts_with(entry.as_str(), "http") || starts_with(entry.as_str(), "mailto:") {
            return entry;
        }
        if e < v.len() {
            i = e + 1;
        } else {
            return String::from_str(header);
        }
    }
}

// ── Reading ────────────────────────────────────────────────────────────────

/// The body `inbox read` shows: the text part, or else the HTML part turned
/// into text; escape sequences are removed unless `raw` is set.
pub open spec fn shown_body(message: MessageRecord, raw: bool) -> Option<Seq<char>> {
    match message.text_body {
        Some(t) => Some(if raw {
            t@
        } else {
            ansi_stripped(t@)
        }),
        None => match message.html_body {
            Some(h) => Some(if raw {
                h@
            } else {
                ansi_stripped(html_stripped(h@))
            }),
            None => None,
        },
    }
}

/// Renders the body of a message for the terminal.
pub fn render_body(message: &MessageRecord, raw: bool) -> (body: Option<String>)
    ensures
        opt_view(body) == shown_body(*message, raw),
{
    match &message.text_body {
        Some(text) => {
            if raw {
                Some(text.clone())
            } else {
                Some(strip_ansi(text.as_str()))
            }
        },
        None => match &message.html_body {
            Some(html) => {
                if raw {
                    Some(html.clone())
                } else {
                    let plain = strip_html_tags(html.as_str());
                    Some(strip_ansi(plain.as_str()))
                }
            },
            None => None,
        },
    }
}

} // verus!
