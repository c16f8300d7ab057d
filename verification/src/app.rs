//! The application: its database location and output format, and the
//! statements and requests its mailbox operations are made of. The caller
//! runs them against the SQLite mailbox and the Resend API.

use vstd::prelude::*;
use crate::api::{received_attachments_path, sent_attachments_path};
use crate::attachments::AttachmentError;
use crate::fmt::str_eq;
use crate::inbox::{param_views, ParamView, SqlQuery, SqlValue};
use crate::models::MessageRecord;

verus! {

/// How results are printed: JSON envelopes, or lines for a person.
#[derive(Debug, Clone, Copy, PartialEq, Eq)]
pub enum Format {
    Human,
    Json,
}

impl Format {
    /// JSON when asked for with `--json` or when the output is not a
    /// terminal (piped); lines for a person otherwise.
    pub fn detect(json_flag: bool, stdout_is_terminal: bool) -> (f: Format)
        ensures
            f == (if json_flag || !stdout_is_terminal {
                Format::Json
            } else {
                Format::Human
            }),
    {
        if json_flag || !stdout_is_terminal {
            Format::Json
        } else {
            Format::Human
        }
    }
}

/// The kinds of failure, each with its own exit code so that an agent knows
/// what to do next.
#[derive(Debug, Clone, Copy, PartialEq, Eq)]
pub enum ErrorKind {
    /// A network or I/O failure: retry.
    Transient,
    /// Missing or wrong configuration: fix the setup.
    Config,
    /// Wrong arguments: fix the call.
    BadInput,
    /// The API kept rate limiting: wait, then retry.
    RateLimited,
}

/// The exit code of a failure (success exits with 0).
pub open spec fn exit_code_of(kind: ErrorKind) -> i32 {
    match kind {
        ErrorKind::Transient => 1,
        ErrorKind::Config => 2,
        ErrorKind::BadInput => 3,
        ErrorKind::RateLimited => 4,
    }
}

impl ErrorKind {
    pub fn exit_code(&self) -> (c: i32)
        ensures
            c == exit_code_of(*self),
            1 <= c <= 4,
    {
        match self {
            ErrorKind::Transient => 1,
            ErrorKind::Config => 2,
            ErrorKind::BadInput => 3,
            ErrorKind::RateLimited => 4,
        }
    }

    /// The `code` field of the error envelope.
    pub fn code(&self) -> (s: &'static str)
        ensures
            s@ == (match *self {
                ErrorKind::Transient => "transient_error"@,
                ErrorKind::Config => "config_error"@,
                ErrorKind::BadInput => "bad_input"@,
                ErrorKind::RateLimited => "rate_limited"@,
            }),
    {
        match self {
            ErrorKind::Transient => "transient_error",
            ErrorKind::Config => "config_error",
            ErrorKind::BadInput => "bad_input",
            ErrorKind::RateLimited => "rate_limited",
        }
    }
}

/// Different failures exit differently, and none exits as a success does.
pub proof fn exit_codes_tell_failures_apart(a: ErrorKind, b: ErrorKind)
    ensures
        exit_code_of(a) != 0,
        exit_code_of(a) == exit_code_of(b) <==> a == b,
{
}

/// The application state shared by the commands.
#[derive(Debug, Clone)]
pub struct App {
    /// Path of the SQLite mailbox.
    pub db_path: String,
    pub format: Format,
}

/// The rows that are unread received messages (of one account, when
/// filtered): what the unread count counts and what "mark all read" marks.
pub open spec fn unread_where(filtered: bool) -> Seq<char> {
    if filtered {
        "is_read = 0 AND direction = 'received' AND account_email = ?1"@
    } else {
        "is_read = 0 AND direction = 'received'"@
    }
}

/// The parameters bound to `unread_where`.
pub open spec fn unread_params(filter: Option<Seq<char>>) -> Seq<ParamView> {
    match filter {
        Some(a) => seq![ParamView::Text(a)],
        None => Seq::empty(),
    }
}

pub open spec fn filter_view(filter: Option<&str>) -> Option<Seq<char>> {
    match filter {
        Some(a) => Some(a@),
        None => None,
    }
}

fn unread_params_exec(account_filter: Option<&str>) -> (p: Vec<SqlValue>)
    ensures
        param_views(p@) == unread_params(filter_view(account_filter)),
{
    let mut p: Vec<SqlValue> = Vec::new();
    match account_filter {
        Some(a) => {
            p.push(SqlValue::Text(String::from_str(a)));
        },
        None => {},
    }
    assert(param_views(p@) =~= unread_params(filter_view(account_filter)));
    p
}

/// What to fetch to refresh the attachment metadata of a message.
#[derive(Debug, Clone)]
pub struct AttachmentRefresh {
    /// The account whose API profile makes the request.
    pub account_email: String,
    /// The API path that lists the attachments.
    pub path: String,
    /// The local message the listed attachments belong to.
    pub message_id: i64,
}

impl App {
    pub fn new(db_path: String, format: Format) -> (a: App)
        ensures
            a.db_path@ == db_path@,
            a.format == format,
    {
        App { db_path, format }
    }

    /// The statement that counts unread received messages.
    pub fn count_unread(&self, account_filter: Option<&str>) -> (q: SqlQuery)
        ensures
            q.sql@ == "SELECT COUNT(*) FROM messages WHERE "@ + unread_where(account_filter is Some),
            param_views(q.params@) == unread_params(filter_view(account_filter)),
    {
        let mut sql = String::from_str("SELECT COUNT(*) FROM messages WHERE ");
        if account_filter.is_some() {
            sql.append("is_read = 0 AND direction = 'received' AND account_email = ?1");
        } else {
            sql.append("is_read = 0 AND direction = 'received'");
        }
        SqlQuery { sql, params: unread_params_exec(account_filter) }
    }

    /// The statement that marks every unread received message read.
    pub fn mark_all_read(&self, account_filter: Option<&str>) -> (q: SqlQuery)
        ensures
            q.sql@ == "UPDATE messages SET is_read = 1 WHERE "@ + unread_where(
                account_filter is Some,
            ),
            param_views(q.params@) == unread_params(filter_view(account_filter)),
    {
        let mut sql = String::from_str("UPDATE messages SET is_read = 1 WHERE ");
        if account_filter.is_some() {
            sql.append("is_read = 0 AND direction = 'received' AND account_email = ?1");
        } else {
            sql.append("is_read = 0 AND direction = 'received'");
        }
        SqlQuery { sql, params: unread_params_exec(account_filter) }
    }

    /// The API path that lists the attachments of a message, by the
    /// direction it travelled: received and sent messages each have their
    /// own listing; other directions have none.
    pub fn fetch_attachment_metadata(&self, direction: &str, remote_id: &str) -> (r: Result<
        String,
        AttachmentError,
    >)
        ensures
            direction@ == "received"@ ==> (r matches Ok(p) && p@ == "/emails/receiving/"@
                + remote_id@ + "/attachments"@),
            direction@ == "sent"@ ==> (r matches Ok(p) && p@ == "/emails/"@ + remote_id@
                + "/attachments"@),
            direction@ != "received"@ && direction@ != "sent"@ ==> (r matches Err(
                AttachmentError::UnsupportedDirection(d),
            ) && d@ == direction@),
    {
        proof {
            reveal_strlit("received");
            reveal_strlit("sent");
            assert("sent"@.len() != "received"@.len());
        }
        if str_eq(direction, "received") {
            Ok(received_attachments_path(remote_id))
        } else if str_eq(direction, "sent") {
            Ok(sent_attachments_path(remote_id))
        } else {
            Err(AttachmentError::UnsupportedDirection(String::from_str(direction)))
        }
    }

    /// What refreshing the attachment metadata of a message takes: the
    /// message's account, the listing to fetch, and the message to store
    /// the listed attachments under.
    pub fn refresh_attachment_metadata(&self, message: &MessageRecord) -> (r: Result<
        AttachmentRefresh,
        AttachmentError,
    >)
        ensures
            match r {
                Ok(plan) => {
                    &&& plan.account_email@ == message.account_email@
                    &&& plan.message_id == message.id
                    &&& (message.direction@ == "received"@ ==> plan.path@ == "/emails/receiving/"@
                        + message.remote_id@ + "/attachments"@)
                    &&& (message.direction@ == "sent"@ ==> plan.path@ == "/emails/"@
                        + message.remote_id@ + "/attachments"@)
                    &&& (message.direction@ == "received"@ || message.direction@ == "sent"@)
                },
                Err(e) => {
                    &&& message.direction@ != "received"@
                    &&& message.direction@ != "sent"@
                    &&& e matches AttachmentError::UnsupportedDirection(d)
                    &&& d@ == message.direction@
                },
            },
    {
        let path = self.fetch_attachment_metadata(
            message.direction.as_str(),
            message.remote_id.as_str(),
        )?;
        Ok(AttachmentRefresh {
            account_email: message.account_email.clone(),
            path,
            message_id: message.id,
        })
    }
}

/// "Mark all read" changes exactly the rows the unread count counts: both
/// statements share their condition and its parameters, for every filter.
pub proof fn mark_all_read_targets_what_count_unread_counts(
    app: App,
    count: SqlQuery,
    mark: SqlQuery,
    account_filter: Option<&str>,
)
    requires
        count.sql@ == "SELECT COUNT(*) FROM messages WHERE "@ + unread_where(account_filter is Some),
        param_views(count.params@) == unread_params(filter_view(account_filter)),
        mark.sql@ == "UPDATE messages SET is_read = 1 WHERE "@ + unread_where(
            account_filter is Some,
        ),
        param_views(mark.params@) == unread_params(filter_view(account_filter)),
    ensures
        count.sql@.skip("SELECT COUNT(*) FROM messages WHERE "@.len() as int) == mark.sql@.skip(
            "UPDATE messages SET is_read = 1 WHERE "@.len() as int,
        ),
        param_views(count.params@) == param_views(mark.params@),
{
    let a = "SELECT COUNT(*) FROM messages WHERE "@;
    let b = "UPDATE messages SET is_read = 1 WHERE "@;
    let w = unread_where(account_filter is Some);
    assert((a + w).skip(a.len() as int) =~= w);
    assert((b + w).skip(b.len() as int) =~= w);
}

} // verus!
