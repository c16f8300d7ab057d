//! Arguments of the command-line interface, as plain values. Paths are held
//! as strings.

use vstd::prelude::*;

verus! {

#[derive(Debug, Clone)]
pub enum ProfileCommand {
    Add(ProfileAddArgs),
    List,
    Test(ProfileTestArgs),
}

#[derive(Debug, Clone)]
pub struct ProfileAddArgs {
    pub name: String,
    pub api_key: Option<String>,
    pub api_key_env: Option<String>,
    pub api_key_file: Option<String>,
    pub api_key_name: String,
}

#[derive(Debug, Clone)]
pub struct ProfileTestArgs {
    pub name: String,
}

#[derive(Debug, Clone)]
pub enum AccountCommand {
    Add(AccountAddArgs),
    List,
    Use(AccountUseArgs),
}

#[derive(Debug, Clone)]
pub struct AccountAddArgs {
    pub email: String,
    pub profile: String,
    pub name: Option<String>,
    pub signature: Option<String>,
    pub default: bool,
}

#[derive(Debug, Clone)]
pub struct AccountUseArgs {
    pub email: String,
}

#[derive(Debug, Clone)]
pub enum SignatureCommand {
    /// `signature set`.
    Assign(SignatureSetArgs),
    Show(SignatureShowArgs),
}

#[derive(Debug, Clone)]
pub struct SignatureSetArgs {
    pub account: String,
    pub text: String,
}

#[derive(Debug, Clone)]
pub struct SignatureShowArgs {
    pub account: String,
}

#[derive(Debug, Clone)]
pub struct ComposeArgs {
    pub account: Option<String>,
    pub to: Vec<String>,
    pub cc: Vec<String>,
    pub bcc: Vec<String>,
    pub subject: String,
    pub text: Option<String>,
    pub text_file: Option<String>,
    pub html: Option<String>,
    pub html_file: Option<String>,
    pub attachments: Vec<String>,
}

#[derive(Debug, Clone)]
pub struct SendArgs {
    pub compose: ComposeArgs,
}

#[derive(Debug, Clone)]
pub struct ReplyArgs {
    pub message_id: i64,
    pub account: Option<String>,
    pub text: Option<String>,
    pub text_file: Option<String>,
    pub html: Option<String>,
    pub html_file: Option<String>,
    pub attachments: Vec<String>,
}

#[derive(Debug, Clone)]
pub enum DraftCommand {
    Create(DraftCreateArgs),
    List(DraftListArgs),
    Show(DraftShowArgs),
    Send(DraftSendArgs),
}

#[derive(Debug, Clone)]
pub struct DraftCreateArgs {
    pub compose: ComposeArgs,
    pub reply_to: Option<i64>,
}

#[derive(Debug, Clone)]
pub struct DraftListArgs {
    pub account: Option<String>,
}

#[derive(Debug, Clone)]
pub struct DraftShowArgs {
    pub id: String,
}

#[derive(Debug, Clone)]
pub struct DraftSendArgs {
    pub id: String,
}

#[derive(Debug, Clone)]
pub struct SyncArgs {
    pub account: Option<String>,
    pub limit: usize,
}

#[derive(Debug, Clone)]
pub enum InboxCommand {
    Ls(InboxListArgs),
    Read(InboxReadArgs),
}

#[derive(Debug, Clone)]
pub struct InboxListArgs {
    pub account: Option<String>,
    pub limit: usize,
    pub unread: bool,
    pub archived: bool,
    pub starred: bool,
    pub snoozed: bool,
    pub after: Option<i64>,
}

#[derive(Debug, Clone)]
pub struct InboxReadArgs {
    pub id: i64,
    pub mark_read: bool,
    pub raw: bool,
}

#[derive(Debug, Clone)]
pub enum AttachmentsCommand {
    List(AttachmentListArgs),
    Get(AttachmentGetArgs),
}

#[derive(Debug, Clone)]
pub struct AttachmentListArgs {
    pub message_id: i64,
}

#[derive(Debug, Clone)]
pub struct AttachmentGetArgs {
    pub message_id: i64,
    pub attachment_id: String,
    pub output: Option<String>,
    pub output_dir: Option<String>,
    pub output_file: Option<String>,
}

#[derive(Debug, Clone)]
pub enum SkillAction {
    Install,
    Status,
}

// ── Domain commands ────────────────────────────────────────────────────────

#[derive(Debug, Clone)]
pub enum DomainCommand {
    List,
    Get(DomainGetArgs),
    Create(DomainCreateArgs),
    Verify(DomainVerifyArgs),
    Delete(DomainDeleteArgs),
    Update(DomainUpdateArgs),
}

#[derive(Debug, Clone)]
pub struct DomainGetArgs {
    pub id: String,
}

#[derive(Debug, Clone)]
pub struct DomainCreateArgs {
    pub name: String,
    pub region: Option<String>,
}

#[derive(Debug, Clone)]
pub struct DomainVerifyArgs {
    pub id: String,
}

#[derive(Debug, Clone)]
pub struct DomainDeleteArgs {
    pub id: String,
}

#[derive(Debug, Clone)]
pub struct DomainUpdateArgs {
    pub id: String,
    pub open_tracking: Option<bool>,
    pub click_tracking: Option<bool>,
}

// ── Audience commands ──────────────────────────────────────────────────────

#[derive(Debug, Clone)]
pub enum AudienceCommand {
    List,
    Get(AudienceGetArgs),
    Create(AudienceCreateArgs),
    Delete(AudienceDeleteArgs),
}

#[derive(Debug, Clone)]
pub struct AudienceGetArgs {
    pub id: String,
}

#[derive(Debug, Clone)]
pub struct AudienceCreateArgs {
    pub name: String,
}

#[derive(Debug, Clone)]
pub struct AudienceDeleteArgs {
    pub id: String,
}

// ── Contact commands ───────────────────────────────────────────────────────

#[derive(Debug, Clone)]
pub enum ContactCommand {
    List(ContactListArgs),
    Get(ContactGetArgs),
    Create(ContactCreateArgs),
    Update(ContactUpdateArgs),
    Delete(ContactDeleteArgs),
}

#[derive(Debug, Clone)]
pub struct ContactListArgs {
    pub audience: String,
}

#[derive(Debug, Clone)]
pub struct ContactGetArgs {
    pub audience: String,
    pub id: String,
}

#[derive(Debug, Clone)]
pub struct ContactCreateArgs {
    pub audience: String,
    pub email: String,
    pub first_name: Option<String>,
    pub last_name: Option<String>,
    pub unsubscribed: Option<bool>,
}

#[derive(Debug, Clone)]
pub struct ContactUpdateArgs {
    pub audience: String,
    pub id: String,
    pub first_name: Option<String>,
    pub last_name: Option<String>,
    pub unsubscribed: Option<bool>,
}

#[derive(Debug, Clone)]
pub struct ContactDeleteArgs {
    pub audience: String,
    pub id: String,
}

// ── Batch commands ─────────────────────────────────────────────────────────

#[derive(Debug, Clone)]
pub enum BatchCommand {
    Send(BatchSendArgs),
}

#[derive(Debug, Clone)]
pub struct BatchSendArgs {
    pub file: String,
}

// ── API key commands ───────────────────────────────────────────────────────

#[derive(Debug, Clone)]
pub enum ApiKeyCommand {
    List,
    Create(ApiKeyCreateArgs),
    Delete(ApiKeyDeleteArgs),
}

#[derive(Debug, Clone)]
pub struct ApiKeyCreateArgs {
    pub name: String,
    pub permission: String,
}

#[derive(Debug, Clone)]
pub struct ApiKeyDeleteArgs {
    pub id: String,
}

#[derive(Debug, Clone)]
pub struct InboxSearchArgs {
    pub query: String,
    pub account: Option<String>,
    pub from: Option<String>,
    pub to: Option<String>,
    pub subject: Option<String>,
    pub has_attachment: bool,
    pub unread: bool,
    pub starred: bool,
    pub limit: usize,
}

#[derive(Debug, Clone)]
pub struct DaemonArgs {
    /// Seconds between background syncs.
    pub interval: u64,
    pub account: Option<String>,
}

} // verus!
