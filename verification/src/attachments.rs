//! The decisions behind the `attachments` commands: where downloaded bytes
//! go, which name a file gets, whether cached bytes can be served, and the
//! bookkeeping of a prefetch run.

use vstd::prelude::*;
use crate::chars::{chars_of, lemma_trim_chars, string_from_range, trim, trim_bounds};
use crate::cli::AttachmentGetArgs;
use crate::fmt::{concat, decimal, i64_to_decimal, signed_decimal, u64_to_decimal, usize_to_decimal};
use crate::models::AttachmentRecord;
use crate::sync::opt_view;

verus! {

/// Why an attachment could not be served.
#[derive(Debug, Clone, PartialEq, Eq)]
pub enum AttachmentError {
    /// Attachments are listed only for received and sent messages.
    UnsupportedDirection(String),
    /// No attachment with this id belongs to the message.
    NotFound(String),
    /// The attachment has no cached bytes and no download URL.
    NoDownloadUrl(String),
}

/// Where `attachments get` writes the bytes.
#[derive(Debug, Clone, PartialEq, Eq)]
pub enum OutputTarget {
    /// Exactly this file.
    File(String),
    /// A file inside this directory, named after the attachment.
    Directory(String),
}

/// The target chosen from the arguments: `--output-file` names the file
/// itself; otherwise `--output-dir`, then the older `--output`, then the
/// default downloads directory name a directory.
pub open spec fn output_target(args: AttachmentGetArgs, default_dir: Seq<char>) -> (bool, Seq<char>) {
    match args.output_file {
        Some(f) => (true, f@),
        None => match args.output_dir {
            Some(d) => (false, d@),
            None => match args.output {
                Some(o) => (false, o@),
                None => (false, default_dir),
            },
        },
    }
}

pub open spec fn target_view(t: OutputTarget) -> (bool, Seq<char>) {
    match t {
        OutputTarget::File(f) => (true, f@),
        OutputTarget::Directory(d) => (false, d@),
    }
}

/// Which option names where an attachment goes: `--output-file` above all,
/// then `--output-dir`, which the older `--output` never overrides, then
/// `--output`, and the default directory only when none is given. The
/// target depends on `--output` only when neither of the others is given.
pub proof fn output_options_take_precedence(
    args: AttachmentGetArgs,
    other: AttachmentGetArgs,
    default_dir: Seq<char>,
)
    ensures
        args.output_file matches Some(f) ==> output_target(args, default_dir) == (true, f@),
        args.output_file is None ==> !output_target(args, default_dir).0,
        args.output_file is None ==> (args.output_dir matches Some(d) ==> output_target(
            args,
            default_dir,
        ) == (false, d@)),
        args.output_file is None && args.output_dir is None ==> (args.output matches Some(o)
            ==> output_target(args, default_dir) == (false, o@)),
        args.output_file is None && args.output_dir is None && args.output is None
            ==> output_target(args, default_dir) == (false, default_dir),
        other.output_file == args.output_file && other.output_dir == args.output_dir && (
        args.output_file is Some || args.output_dir is Some) ==> output_target(other, default_dir)
            == output_target(args, default_dir),
{
}

/// Chooses where an attachment is written.
pub fn write_attachment_output(args: &AttachmentGetArgs, default_dir: &str) -> (t: OutputTarget)
    ensures
        target_view(t) == output_target(*args, default_dir@),
        args.output_file is None && args.output_dir is Some ==> t == OutputTarget::Directory(
            args.output_dir->0,
        ),
{
    match &args.output_file {
        Some(f) => OutputTarget::File(f.clone()),
        None => match &args.output_dir {
            Some(d) => OutputTarget::Directory(d.clone()),
            None => match &args.output {
                Some(o) => OutputTarget::Directory(o.clone()),
                None => OutputTarget::Directory(String::from_str(default_dir)),
            },
        },
    }
}

/// The file name an attachment is saved under: its own name, else
/// `attachment-<id>`.
pub open spec fn saved_name(filename: Option<String>, id: Seq<char>) -> Seq<char> {
    match filename {
        Some(f) => f@,
        None => "attachment-"@ + id,
    }
}

/// The name for `attachments get`, where the id is the one requested.
pub fn preferred_filename(filename: &Option<String>, attachment_id: &str) -> (n: String)
    ensures
        n@ == saved_name(*filename, attachment_id@),
{
    match filename {
        Some(f) => f.clone(),
        None => concat("attachment-", attachment_id),
    }
}

/// The name for a prefetched attachment, where the id is the local row id.
pub fn prefetch_filename(attachment: &AttachmentRecord) -> (n: String)
    ensures
        n@ == saved_name(attachment.filename, signed_decimal(attachment.id as int)),
{
    match &attachment.filename {
        Some(f) => f.clone(),
        None => {
            let id = i64_to_decimal(attachment.id);
            concat("attachment-", id.as_str())
        },
    }
}

/// Where the bytes of `attachments get` come from.
#[derive(Debug, Clone, PartialEq, Eq)]
pub enum AttachmentSource {
    /// A file cached by an earlier download.
    Cached(String),
    /// The download URL of the attachment.
    Download(String),
}

/// Serves cached bytes when the cached file exists, else the download URL;
/// refused when there is neither.
pub fn attachment_source(
    attachment: &AttachmentRecord,
    cached_file_exists: bool,
    attachment_id: &str,
) -> (r: Result<AttachmentSource, AttachmentError>)
    ensures
        match r {
            Ok(AttachmentSource::Cached(p)) => cached_file_exists && opt_view(
                attachment.local_path,
            ) == Some(p@),
            Ok(AttachmentSource::Download(u)) => !(cached_file_exists
                && attachment.local_path is Some) && opt_view(attachment.download_url) == Some(
                u@,
            ),
            Err(e) => !(cached_file_exists && attachment.local_path is Some)
                && attachment.download_url is None && (e matches AttachmentError::NoDownloadUrl(
                id,
            ) && id@ == attachment_id@),
        },
{
    match &attachment.local_path {
        Some(p) => {
            if cached_file_exists {
                return Ok(AttachmentSource::Cached(p.clone()));
            }
        },
        None => {},
    }
    match &attachment.download_url {
        Some(u) => Ok(AttachmentSource::Download(u.clone())),
        None => Err(AttachmentError::NoDownloadUrl(String::from_str(attachment_id))),
    }
}

/// The line `attachments list` prints for an attachment: its remote id (or
/// `unknown`) and its name (or `attachment`).
pub fn attachment_list_line(attachment: &AttachmentRecord) -> (line: String)
    ensures
        line@ == (match attachment.remote_attachment_id {
            Some(r) => r@,
            None => "unknown"@,
        }) + " "@ + (match attachment.filename {
            Some(f) => f@,
            None => "attachment"@,
        }),
{
    let mut line = match &attachment.remote_attachment_id {
        Some(r) => r.clone(),
        None => String::from_str("unknown"),
    };
    line.append(" ");
    match &attachment.filename {
        Some(f) => line.append(f.as_str()),
        None => line.append("attachment"),
    }
    line
}

// ── Prefetch ───────────────────────────────────────────────────────────────

/// What a prefetch run does with one attachment row.
#[derive(Debug, Clone, PartialEq, Eq)]
pub enum PrefetchAction {
    /// Its bytes are already cached.
    AlreadyCached,
    /// It has no download URL (e.g. an inline image): skipped quietly.
    NoUrl,
    /// Download from `url` and save as `filename`.
    Download { url: String, filename: String },
}

/// Decides what a prefetch run does with an attachment row.
pub fn prefetch_action(attachment: &AttachmentRecord) -> (a: PrefetchAction)
    ensures
        attachment.local_path is Some ==> a == PrefetchAction::AlreadyCached,
        attachment.local_path is None && attachment.download_url is None ==> a
            == PrefetchAction::NoUrl,
        attachment.local_path is None && attachment.download_url is Some ==> (a matches PrefetchAction::Download {
            url,
            filename,
        } && opt_view(attachment.download_url) == Some(url@) && filename@ == saved_name(
            attachment.filename,
            signed_decimal(attachment.id as int),
        )),
{
    if attachment.local_path.is_some() {
        return PrefetchAction::AlreadyCached;
    }
    match &attachment.download_url {
        Some(u) => PrefetchAction::Download { url: u.clone(), filename: prefetch_filename(attachment) },
        None => PrefetchAction::NoUrl,
    }
}

/// Counts of a prefetch run.
#[derive(Debug, Clone, Copy, PartialEq, Eq)]
pub struct PrefetchTally {
    pub downloaded: usize,
    pub errors: usize,
}

impl PrefetchTally {
    pub fn new() -> (t: PrefetchTally)
        ensures
            t.downloaded == 0,
            t.errors == 0,
    {
        PrefetchTally { downloaded: 0, errors: 0 }
    }

    /// Counts one attachment downloaded and saved.
    pub fn record_download(&mut self)
        requires
            old(self).downloaded < usize::MAX,
        ensures
            final(self).downloaded == old(self).downloaded + 1,
            final(self).errors == old(self).errors,
    {
        self.downloaded = self.downloaded + 1;
    }

    /// Counts one failure; the run goes on with the next item.
    pub fn record_error(&mut self)
        requires
            old(self).errors < usize::MAX,
        ensures
            final(self).errors == old(self).errors + 1,
            final(self).downloaded == old(self).downloaded,
    {
        self.errors = self.errors + 1;
    }

    /// The summary a person reads after the run.
    pub fn summary(&self) -> (s: String)
        ensures
            s@ == (if self.downloaded == 0 && self.errors == 0 {
                "no attachments to prefetch"@
            } else {
                "prefetched "@ + decimal(self.downloaded as nat) + " attachment(s); "@ + decimal(
                    self.errors as nat,
                ) + " error(s)"@
            }),
    {
        if self.downloaded == 0 && self.errors == 0 {
            String::from_str("no attachments to prefetch")
        } else {
            let mut s = String::from_str("prefetched ");
            let d = usize_to_decimal(self.downloaded);
            s.append(d.as_str());
            s.append(" attachment(s); ");
            let e = usize_to_decimal(self.errors);
            s.append(e.as_str());
            s.append(" error(s)");
            s
        }
    }
}

/// A step of a prefetch run that can fail.
#[derive(Debug, Clone, Copy, PartialEq, Eq)]
pub enum PrefetchStage {
    /// Looking up the account of a candidate message.
    Account,
    /// Building the API client of the account's profile.
    Client,
    /// Fetching fresh attachment metadata (download links expire).
    Metadata,
    /// Storing the fresh metadata.
    StoreMetadata,
    /// Reading back the message's attachment rows.
    ListRows,
    /// Downloading one attachment.
    Download,
    /// Writing its bytes into the downloads directory.
    Write,
    /// Recording in the mailbox where the bytes were written.
    RecordPath,
}

/// Where a prefetch run goes after a step.
#[derive(Debug, Clone, Copy, PartialEq, Eq)]
pub enum PrefetchNext {
    /// On to the following step.
    Proceed,
    /// On to the next attachment of the message.
    NextAttachment,
    /// On to the next candidate message.
    NextMessage,
    /// Stop the run with the error.
    Abort,
}

/// The failure policy of a prefetch run: a failed step is counted and the
/// run goes on with the next message (or, for a download or a write, the
/// next attachment); only a failure to record a saved file stops the run.
/// Recording a saved file completes a download.
pub open spec fn prefetch_next(stage: PrefetchStage, ok: bool) -> PrefetchNext {
    if ok {
        match stage {
            PrefetchStage::RecordPath => PrefetchNext::NextAttachment,
            _ => PrefetchNext::Proceed,
        }
    } else {
        match stage {
            PrefetchStage::Download | PrefetchStage::Write => PrefetchNext::NextAttachment,
            PrefetchStage::RecordPath => PrefetchNext::Abort,
            _ => PrefetchNext::NextMessage,
        }
    }
}

/// Takes the outcome of a prefetch step: where the run goes next, and the
/// tally with a completed download or a counted failure added.
pub fn prefetch_step(stage: PrefetchStage, ok: bool, tally: PrefetchTally) -> (r: (
    PrefetchTally,
    PrefetchNext,
))
    requires
        tally.downloaded < usize::MAX,
        tally.errors < usize::MAX,
    ensures
        r.1 == prefetch_next(stage, ok),
        r.0.downloaded == tally.downloaded + (if ok && stage == PrefetchStage::RecordPath {
            1int
        } else {
            0int
        }),
        r.0.errors == tally.errors + (if !ok && stage != PrefetchStage::RecordPath {
            1int
        } else {
            0int
        }),
{
    let mut t = tally;
    if ok {
        match stage {
            PrefetchStage::RecordPath => {
                t.record_download();
                (t, PrefetchNext::NextAttachment)
            },
            _ => (t, PrefetchNext::Proceed),
        }
    } else {
        match stage {
            PrefetchStage::RecordPath => (t, PrefetchNext::Abort),
            PrefetchStage::Download | PrefetchStage::Write => {
                t.record_error();
                (t, PrefetchNext::NextAttachment)
            },
            _ => {
                t.record_error();
                (t, PrefetchNext::NextMessage)
            },
        }
    }
}

/// `attachments get` refreshes the attachment metadata from the API unless
/// the attachment is known and its cached file exists.
pub fn attachment_needs_refresh(attachment: &Option<AttachmentRecord>, cached_file_exists: bool) -> (r:
    bool)
    ensures
        r == !(attachment matches Some(a) && a.local_path is Some && cached_file_exists),
{
    match attachment {
        Some(a) => !(a.local_path.is_some() && cached_file_exists),
        None => true,
    }
}

/// `attachments get` records where it wrote the bytes only when the
/// attachment had no cached file yet.
pub fn records_saved_path(attachment: &AttachmentRecord) -> (r: bool)
    ensures
        r == (attachment.local_path is None),
{
    attachment.local_path.is_none()
}

// ── Saved file names ───────────────────────────────────────────────────────

/// Characters a saved file name may not hold: path separators and control
/// characters (`char::is_control`, the Unicode `Cc` category).
pub open spec fn unsafe_in_name(c: char) -> bool {
    let x = c as u32;
    c == '/' || c == '\\' || x <= 0x1F || (0x7F <= x && x <= 0x9F)
}

/// `s` with each unsafe character replaced by `_`.
pub open spec fn replace_unsafe(s: Seq<char>) -> Seq<char> {
    s.map_values(|c: char| if unsafe_in_name(c) { '_' } else { c })
}

/// `s` without its leading dots.
pub open spec fn drop_leading_dots(s: Seq<char>) -> Seq<char>
    decreases s.len(),
{
    if s.len() > 0 && s[0] == '.' {
        drop_leading_dots(s.skip(1))
    } else {
        s
    }
}

/// The name an attachment is written under: unsafe characters replaced,
/// surrounding whitespace and then leading dots removed; `attachment` when
/// nothing is left.
pub open spec fn safe_file_name(name: Seq<char>) -> Seq<char> {
    let d = drop_leading_dots(trim(replace_unsafe(name)));
    if d.len() == 0 {
        "attachment"@
    } else {
        d
    }
}

/// Sanitizes a file name before it is written to disk.
pub fn sanitize_file_name(name: &str) -> (s: String)
    ensures
        s@ == safe_file_name(name@),
{
    let v = chars_of(name);
    let mut r: Vec<char> = Vec::new();
    let mut i: usize = 0;
    while i < v.len()
        invariant
            i <= v.len(),
            v@ == name@,
            r@ == replace_unsafe(v@.take(i as int)),
        decreases v.len() - i,
    {
        let c = v[i];
        let x = c as u32;
        let bad = c == '/' || c == '\\' || x <= 0x1F || (0x7F <= x && x <= 0x9F);
        r.push(if bad { '_' } else { c });
        assert(replace_unsafe(v@.take(i + 1)) =~= replace_unsafe(v@.take(i as int)).push(
            if unsafe_in_name(c) { '_' } else { c },
        ));
        i += 1;
    }
    assert(v@.take(v.len() as int) =~= v@);
    let (a, b) = trim_bounds(&r, 0, r.len());
    assert(r@.subrange(0, r.len() as int) =~= r@);
    let mut k = a;
    while k < b && r[k] == '.'
        invariant
            a <= k <= b <= r.len(),
            drop_leading_dots(r@.subrange(a as int, b as int)) == drop_leading_dots(
                r@.subrange(k as int, b as int),
            ),
        decreases b - k,
    {
        assert(r@.subrange(k as int, b as int).skip(1) =~= r@.subrange(k + 1, b as int));
        k += 1;
    }
    assert(drop_leading_dots(r@.subrange(k as int, b as int)) == r@.subrange(k as int, b as int));
    if k == b {
        String::from_str("attachment")
    } else {
        string_from_range(&r, k, b)
    }
}

proof fn lemma_drop_leading_dots(s: Seq<char>)
    ensures
        drop_leading_dots(s).len() <= s.len(),
        drop_leading_dots(s) == s.skip(s.len() - drop_leading_dots(s).len()),
        drop_leading_dots(s).len() > 0 ==> drop_leading_dots(s)[0] != '.',
    decreases s.len(),
{
    if s.len() > 0 && s[0] == '.' {
        lemma_drop_leading_dots(s.skip(1));
        let d = drop_leading_dots(s.skip(1));
        assert(s.skip(1).skip(s.skip(1).len() - d.len()) =~= s.skip(s.len() - d.len()));
    } else {
        assert(s.skip(0) =~= s);
    }
}

/// A saved file name is never empty, never hidden (no leading dot), and
/// holds no path separator or control character: written into a directory,
/// it stays in that directory.
pub proof fn safe_file_names_stay_in_their_directory(name: Seq<char>)
    ensures
        safe_file_name(name).len() > 0,
        safe_file_name(name)[0] != '.',
        forall|k: int|
            0 <= k < safe_file_name(name).len() ==> !unsafe_in_name(#[trigger] safe_file_name(name)[k]),
{
    let rn = replace_unsafe(name);
    let t = trim(rn);
    let d = drop_leading_dots(t);
    lemma_drop_leading_dots(t);
    lemma_trim_chars(rn);
    if d.len() == 0 {
        reveal_strlit("attachment");
    } else {
        assert forall|k: int| 0 <= k < d.len() implies !unsafe_in_name(#[trigger] d[k]) by {
            let off = t.len() - d.len();
            assert(d[k] == t[off + k]);
            assert(rn.contains(t[off + k]));
            let j = choose|j: int| 0 <= j < rn.len() && rn[j] == t[off + k];
            assert(rn[j] == (if unsafe_in_name(name[j]) { '_' } else { name[j] }));
        }
    }
}

/// Index of the last `.` before `i`, or -1.
pub open spec fn last_dot_before(s: Seq<char>, i: int) -> int
    decreases i,
{
    if i <= 0 {
        -1
    } else if s[i - 1] == '.' {
        i - 1
    } else {
        last_dot_before(s, i - 1)
    }
}

/// Where the extension of a file name starts: at its last dot, unless that
/// dot begins the name (or there is none), in which case at its end.
pub open spec fn extension_start(s: Seq<char>) -> int {
    let d = last_dot_before(s, s.len() as int);
    if d > 0 {
        d
    } else {
        s.len() as int
    }
}

/// The name tried after `n` clashes with existing files: the name itself
/// first, then `stem (n).ext`.
pub open spec fn numbered_name(name: Seq<char>, n: nat) -> Seq<char> {
    if n == 0 {
        name
    } else {
        name.take(extension_start(name)) + " ("@ + decimal(n) + ")"@ + name.skip(
            extension_start(name),
        )
    }
}

proof fn lemma_last_dot_bounds(s: Seq<char>, i: int)
    requires
        i <= s.len(),
    ensures
        -1 <= last_dot_before(s, i) < i || (i <= 0 && last_dot_before(s, i) == -1),
    decreases i,
{
    if i > 0 && s[i - 1] != '.' {
        lemma_last_dot_bounds(s, i - 1);
    }
}

/// Builds the `n`-th candidate name for a file.
pub fn numbered_file_name(name: &str, n: u64) -> (s: String)
    ensures
        s@ == numbered_name(name@, n as nat),
{
    if n == 0 {
        return String::from_str(name);
    }
    let v = chars_of(name);
    let mut i = v.len();
    while i > 0 && v[i - 1] != '.'
        invariant
            i <= v.len(),
            v@ == name@,
            last_dot_before(v@, v.len() as int) == last_dot_before(v@, i as int),
        decreases i,
    {
        i -= 1;
    }
    let e = if i > 1 {
        i - 1
    } else {
        v.len()
    };
    proof {
        lemma_last_dot_bounds(v@, v.len() as int);
    }
    assert(e as int == extension_start(v@));
    let mut s = string_from_range(&v, 0, e);
    s.append(" (");
    let d = u64_to_decimal(n);
    s.append(d.as_str());
    s.append(")");
    let rest = string_from_range(&v, e, v.len());
    s.append(rest.as_str());
    assert(v@.subrange(0, e as int) =~= v@.take(e as int));
    assert(v@.subrange(e as int, v.len() as int) =~= v@.skip(e as int));
    s
}

/// A relative name joined to a directory: the name alone after an empty
/// directory, else after the directory and a `/` unless it already ends
/// with one.
pub open spec fn joined_path(dir: Seq<char>, name: Seq<char>) -> Seq<char> {
    if dir.len() == 0 || dir.last() == '/' {
        dir + name
    } else {
        dir + "/"@ + name
    }
}

/// The path an attachment is written to on try number `attempt`: the file
/// itself, or inside a directory the sanitized file name, numbered from the
/// second try on (a name already taken is tried with the next number).
pub open spec fn attempt_path(target: (bool, Seq<char>), filename: Seq<char>, attempt: nat) -> Seq<
    char,
> {
    if target.0 {
        target.1
    } else {
        joined_path(target.1, numbered_name(safe_file_name(filename), attempt))
    }
}

/// Builds the path an attachment is written to on try number `attempt`.
pub fn output_path(target: &OutputTarget, filename: &str, attempt: u64) -> (p: String)
    ensures
        p@ == attempt_path(target_view(*target), filename@, attempt as nat),
{
    match target {
        OutputTarget::File(f) => f.clone(),
        OutputTarget::Directory(d) => {
            let name = numbered_file_name(sanitize_file_name(filename).as_str(), attempt);
            let v = chars_of(d.as_str());
            let mut p = d.clone();
            if v.len() > 0 && v[v.len() - 1] != '/' {
                p.append("/");
            }
            p.append(name.as_str());
            p
        },
    }
}

} // verus!
