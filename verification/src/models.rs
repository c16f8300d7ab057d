//! Records of the local mailbox and payloads of the Resend API, as plain
//! values. Paths are held as strings and header maps as ordered pairs.

use vstd::prelude::*;

verus! {

// ── Local records ──────────────────────────────────────────────────────────

#[derive(Debug, Clone)]
pub struct ProfileRecord {
    pub name: String,
    pub created_at: String,
}

#[derive(Debug, Clone)]
pub struct AccountRecord {
    pub email: String,
    pub profile_name: String,
    pub display_name: Option<String>,
    pub signature: String,
    pub is_default: bool,
    pub created_at: String,
    pub updated_at: String,
}

#[derive(Debug, Clone)]
pub struct MessageRecord {
    pub id: i64,
    pub remote_id: String,
    pub direction: String,
    pub account_email: String,
    pub from_addr: String,
    pub to: Vec<String>,
    pub cc: Vec<String>,
    pub bcc: Vec<String>,
    pub reply_to: Vec<String>,
    pub subject: String,
    pub text_body: Option<String>,
    pub html_body: Option<String>,
    pub rfc_message_id: Option<String>,
    pub in_reply_to: Option<String>,
    pub references: Vec<String>,
    pub last_event: Option<String>,
    pub is_read: bool,
    pub created_at: String,
    pub synced_at: String,
}

#[derive(Debug, Clone)]
pub struct DraftRecord {
    pub id: String,
    pub account_email: String,
    pub to: Vec<String>,
    pub cc: Vec<String>,
    pub bcc: Vec<String>,
    pub subject: String,
    pub text_body: Option<String>,
    pub html_body: Option<String>,
    pub reply_to_message_id: Option<i64>,
    pub attachment_paths: Vec<String>,
    pub created_at: String,
    pub updated_at: String,
}

#[derive(Debug, Clone)]
pub struct AttachmentRecord {
    pub id: i64,
    pub message_id: i64,
    pub remote_attachment_id: Option<String>,
    pub filename: Option<String>,
    pub content_type: Option<String>,
    pub size: Option<i64>,
    pub download_url: Option<String>,
    pub local_path: Option<String>,
}

#[derive(Debug, Clone)]
pub struct SyncSummary {
    pub profiles: usize,
    pub sent_messages: usize,
    pub received_messages: usize,
}

// ── Resend API types ───────────────────────────────────────────────────────

#[derive(Debug, Clone)]
pub struct DomainList {
    pub data: Vec<Domain>,
}

#[derive(Debug, Clone)]
pub struct Domain {
    pub name: String,
    pub status: Option<String>,
    pub region: Option<String>,
    pub capabilities: Option<DomainCapabilities>,
}

#[derive(Debug, Clone)]
pub struct DomainCapabilities {
    pub sending: Option<String>,
    pub receiving: Option<String>,
}

#[derive(Debug, Clone)]
pub struct SendEmailRequest {
    pub from: String,
    pub to: Vec<String>,
    pub cc: Vec<String>,
    pub bcc: Vec<String>,
    pub subject: String,
    pub text: Option<String>,
    pub html: Option<String>,
    /// Extra headers as (name, value) pairs.
    pub headers: Option<Vec<(String, String)>>,
    pub attachments: Vec<SendAttachment>,
}

#[derive(Debug, Clone)]
pub struct SendAttachment {
    pub filename: String,
    pub content: String,
}

#[derive(Debug, Clone)]
pub struct SendEmailResponse {
    pub id: String,
}

#[derive(Debug, Clone)]
pub struct ListResponse<T> {
    pub data: Vec<T>,
    pub has_more: Option<bool>,
}

#[derive(Debug, Clone)]
pub struct SentEmail {
    pub id: String,
    pub from: Option<String>,
    pub to: Vec<String>,
    pub cc: Vec<String>,
    pub bcc: Vec<String>,
    pub reply_to: Vec<String>,
    pub subject: Option<String>,
    pub created_at: Option<String>,
    pub last_event: Option<String>,
    pub html: Option<String>,
    pub text: Option<String>,
}

#[derive(Debug, Clone)]
pub struct ReceivedEmail {
    pub id: String,
    pub from: Option<String>,
    pub to: Vec<String>,
    pub cc: Vec<String>,
    pub bcc: Vec<String>,
    pub reply_to: Vec<String>,
    pub subject: Option<String>,
    pub created_at: Option<String>,
    pub message_id: Option<String>,
    pub html: Option<String>,
    pub text: Option<String>,
    pub attachments: Vec<ReceivedAttachment>,
    /// Raw headers as (name, JSON text of the value) pairs.
    pub headers: Option<Vec<(String, String)>>,
}

#[derive(Debug, Clone)]
pub struct ReceivedAttachment {
    pub id: Option<String>,
    pub filename: Option<String>,
    pub content_type: Option<String>,
    pub size: Option<i64>,
    pub download_url: Option<String>,
}

// ── Internal types ─────────────────────────────────────────────────────────

#[derive(Debug, Clone)]
pub struct ResolvedCompose {
    pub account: AccountRecord,
    pub to: Vec<String>,
    pub cc: Vec<String>,
    pub bcc: Vec<String>,
    pub subject: String,
    pub text: Option<String>,
    pub html: Option<String>,
    pub attachments: Vec<String>,
}

#[derive(Debug, Clone)]
pub struct ReplyHeaders {
    pub in_reply_to: Option<String>,
    pub references: Vec<String>,
}

#[derive(Debug, Clone)]
pub struct MessageUpsert {
    pub remote_id: String,
    pub direction: String,
    pub account_email: String,
    pub from_addr: String,
    pub to: Vec<String>,
    pub cc: Vec<String>,
    pub bcc: Vec<String>,
    pub reply_to: Vec<String>,
    pub subject: String,
    pub text_body: Option<String>,
    pub html_body: Option<String>,
    pub rfc_message_id: Option<String>,
    pub in_reply_to: Option<String>,
    pub references: Vec<String>,
    pub last_event: Option<String>,
    pub is_read: bool,
    pub created_at: String,
    pub raw_json: String,
}

// ── Recipient lists in API payloads ────────────────────────────────────────

/// A JSON value as read from an API payload.
#[derive(Debug)]
pub enum JsonValue {
    Null,
    Bool(bool),
    /// A number, in its JSON text.
    Number(String),
    Str(String),
    Array(Vec<JsonValue>),
    Object(Vec<(String, JsonValue)>),
}

/// Why a recipient field could not be read.
#[derive(Debug, Clone, PartialEq, Eq)]
pub enum StringVecError {
    ExpectedStringArrayOrNull,
}

/// The strings among `items`, in order; other items are skipped.
pub open spec fn string_items(items: Seq<JsonValue>) -> Seq<Seq<char>>
    decreases items.len(),
{
    if items.len() == 0 {
        Seq::empty()
    } else {
        let rest = string_items(items.drop_last());
        match items.last() {
            JsonValue::Str(s) => rest.push(s@),
            _ => rest,
        }
    }
}

/// The views of a list of strings.
pub open spec fn views(v: Seq<String>) -> Seq<Seq<char>> {
    v.map_values(|s: String| s@)
}

/// What a recipient field reads as: absent or null is no recipient, a string
/// is one recipient, an array gives its strings (other items skipped), and
/// anything else is refused.
pub open spec fn string_vec_of(value: Option<JsonValue>) -> Result<Seq<Seq<char>>, StringVecError> {
    match value {
        None => Ok(Seq::empty()),
        Some(JsonValue::Null) => Ok(Seq::empty()),
        Some(JsonValue::Str(s)) => Ok(seq![s@]),
        Some(JsonValue::Array(items)) => Ok(string_items(items@)),
        Some(_) => Err(StringVecError::ExpectedStringArrayOrNull),
    }
}

/// Reads a recipient field (`to`, `cc`, `bcc`, `reply_to`) that the API sends
/// either as a string, as an array of strings, or as null.
pub fn deserialize_string_vec(value: Option<JsonValue>) -> (r: Result<Vec<String>, StringVecError>)
    ensures
        match (r, string_vec_of(value)) {
            (Ok(v), Ok(w)) => views(v@) == w,
            (Err(e), Err(f)) => e == f,
            _ => false,
        },
{
    match value {
        None => Ok(Vec::new()),
        Some(JsonValue::Null) => Ok(Vec::new()),
        Some(JsonValue::Str(s)) => {
            let mut out: Vec<String> = Vec::new();
            out.push(s);
            assert(views(out@) =~= seq![s@]);
            Ok(out)
        },
        Some(JsonValue::Array(items)) => {
            let mut out: Vec<String> = Vec::new();
            let mut i: usize = 0;
            while i < items.len()
                invariant
                    i <= items.len(),
                    views(out@) == string_items(items@.take(i as int)),
                decreases items.len() - i,
            {
                assert(items@.take(i + 1).drop_last() =~= items@.take(i as int));
                match &items[i] {
                    JsonValue::Str(s) => {
                        out.push(s.clone());
                        assert(views(out@) =~= views(out@.drop_last()).push(s@));
                    },
                    _ => {},
                }
                i += 1;
            }
            assert(items@.take(items.len() as int) =~= items@);
            Ok(out)
        },
        Some(_) => Err(StringVecError::ExpectedStringArrayOrNull),
    }
}

} // verus!
