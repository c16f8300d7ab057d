//! Outgoing mail: threading headers of replies (RFC 5322), Message-IDs,
//! reply subjects and recipients, attachment encoding (base64), and which
//! sent messages belong to an account.

use vstd::prelude::*;
use crate::chars::{chars_of, string_from_chars, string_from_range};
use crate::fmt::{concat, join, join_strings, normalize_email, normalized_email, str_eq};
use crate::api::pair_views;
use crate::models::{views, MessageRecord, ReplyHeaders};
use crate::sync::opt_view;

verus! {

// ── Threading ──────────────────────────────────────────────────────────────

/// The References of a reply (RFC 5322, 3.6.4): the parent's References
/// (or, when it has none, its In-Reply-To), followed by the parent's own
/// Message-ID.
pub open spec fn reply_references(parent: MessageRecord) -> Seq<Seq<char>> {
    let base = if parent.references.len() > 0 {
        views(parent.references@)
    } else {
        match parent.in_reply_to {
            Some(r) => seq![r@],
            None => Seq::empty(),
        }
    };
    match parent.rfc_message_id {
        Some(m) => base.push(m@),
        None => base,
    }
}

/// The threading headers of a reply to `parent`: In-Reply-To names the
/// parent's Message-ID, References the chain ending with it.
pub fn reply_headers(parent: &MessageRecord) -> (h: ReplyHeaders)
    ensures
        opt_view(h.in_reply_to) == opt_view(parent.rfc_message_id),
        views(h.references@) == reply_references(*parent),
{
    let mut refs: Vec<String> = Vec::new();
    if parent.references.len() > 0 {
        let mut i: usize = 0;
        while i < parent.references.len()
            invariant
                i <= parent.references.len(),
                views(refs@) == views(parent.references@).take(i as int),
            decreases parent.references.len() - i,
        {
            let ghost before = refs@;
            refs.push(parent.references[i].clone());
            assert(views(refs@) =~= views(before).push(parent.references@[i as int]@));
            assert(views(parent.references@).take(i + 1) =~= views(parent.references@).take(
                i as int,
            ).push(parent.references@[i as int]@));
            i += 1;
        }
        assert(views(parent.references@).take(parent.references.len() as int) =~= views(
            parent.references@,
        ));
    } else {
        match &parent.in_reply_to {
            Some(r) => {
                refs.push(r.clone());
                assert(views(refs@) =~= seq![r@]);
            },
            None => {
                assert(views(refs@) =~= Seq::<Seq<char>>::empty());
            },
        }
    }
    match &parent.rfc_message_id {
        Some(m) => {
            let ghost before = refs@;
            refs.push(m.clone());
            assert(views(refs@) =~= views(before).push(m@));
        },
        None => {},
    }
    ReplyHeaders { in_reply_to: parent.rfc_message_id.clone(), references: refs }
}

/// A reply keeps the thread: its In-Reply-To is the parent's Message-ID and
/// its References end with it, after the parent's own chain.
pub proof fn reply_threads_under_its_parent(parent: MessageRecord, m: Seq<char>)
    requires
        opt_view(parent.rfc_message_id) == Some(m),
    ensures
        reply_references(parent).len() > 0,
        reply_references(parent).last() == m,
        parent.references.len() > 0 ==> reply_references(parent).drop_last() == views(
            parent.references@,
        ),
{
}

/// Whether a subject already marks a reply (`Re:`, in any case).
pub open spec fn is_reply_subject(s: Seq<char>) -> bool {
    s.len() >= 3 && (s[0] == 'R' || s[0] == 'r') && (s[1] == 'E' || s[1] == 'e') && s[2] == ':'
}

/// The subject of a reply: the parent's, marked `Re: ` unless it already is.
pub open spec fn reply_subject_text(s: Seq<char>) -> Seq<char> {
    if is_reply_subject(s) {
        s
    } else {
        "Re: "@ + s
    }
}

pub fn reply_subject(subject: &str) -> (s: String)
    ensures
        s@ == reply_subject_text(subject@),
{
    let v = chars_of(subject);
    if v.len() >= 3 && (v[0] == 'R' || v[0] == 'r') && (v[1] == 'E' || v[1] == 'e') && v[2] == ':' {
        String::from_str(subject)
    } else {
        concat("Re: ", subject)
    }
}

/// Who a reply goes to: the parent's Reply-To addresses, else its sender.
pub open spec fn reply_recipients_of(parent: MessageRecord) -> Seq<Seq<char>> {
    if parent.reply_to.len() > 0 {
        views(parent.reply_to@)
    } else {
        seq![parent.from_addr@]
    }
}

pub fn reply_recipients(parent: &MessageRecord) -> (to: Vec<String>)
    ensures
        views(to@) == reply_recipients_of(*parent),
        parent.reply_to.len() > 0 ==> to.len() == parent.reply_to.len() && forall|i: int|
            0 <= i < to.len() ==> #[trigger] to@[i]@ == parent.reply_to@[i]@,
        parent.reply_to.len() == 0 ==> to.len() == 1 && to@[0]@ == parent.from_addr@,
{
    if parent.reply_to.len() > 0 {
        let to = parent.reply_to.clone();
        assert(to@ == parent.reply_to@);
        to
    } else {
        let mut to: Vec<String> = Vec::new();
        to.push(parent.from_addr.clone());
        assert(views(to@) =~= seq![parent.from_addr@]);
        to
    }
}

/// A reply goes to every Reply-To address of its parent, in order and with
/// none added; only a parent without Reply-To addresses is answered at its
/// sender, alone.
pub proof fn reply_goes_to_every_reply_to_address(parent: MessageRecord)
    ensures
        parent.reply_to.len() > 0 ==> reply_recipients_of(parent).len() == parent.reply_to.len(),
        forall|i: int|
            0 <= i < parent.reply_to.len() ==> #[trigger] reply_recipients_of(parent)[i]
                == parent.reply_to@[i]@,
        forall|a: Seq<char>|
            #![trigger reply_recipients_of(parent).contains(a)]
            parent.reply_to.len() > 0 ==> (reply_recipients_of(parent).contains(a) <==> exists|
                i: int,
            | 0 <= i < parent.reply_to.len() && #[trigger] parent.reply_to@[i]@ == a),
        parent.reply_to.len() == 0 ==> reply_recipients_of(parent).len() == 1
            && reply_recipients_of(parent)[0] == parent.from_addr@,
{
    let r = reply_recipients_of(parent);
    if parent.reply_to.len() > 0 {
        assert forall|a: Seq<char>| r.contains(a) <==> exists|i: int|
            0 <= i < parent.reply_to.len() && #[trigger] parent.reply_to@[i]@ == a by {
            if r.contains(a) {
                let k = choose|k: int| 0 <= k < r.len() && r[k] == a;
                assert(parent.reply_to@[k]@ == a);
            }
            if exists|i: int| 0 <= i < parent.reply_to.len() && #[trigger] parent.reply_to@[i]@ == a {
                let k = choose|i: int| 0 <= i < parent.reply_to.len() && #[trigger] parent.reply_to@[i]@ == a;
                assert(r[k] == a);
            }
        }
    }
}

/// The headers an outgoing message carries: its Message-ID, and for a
/// reply In-Reply-To and References (the chain, separated by spaces).
pub open spec fn outgoing_headers_of(message_id: Seq<char>, reply: Option<ReplyHeaders>) -> Seq<
    (Seq<char>, Seq<char>),
> {
    let base = seq![("Message-ID"@, message_id)];
    match reply {
        Some(h) => {
            let with_parent = match h.in_reply_to {
                Some(p) => base.push(("In-Reply-To"@, p@)),
                None => base,
            };
            if h.references.len() > 0 {
                with_parent.push(("References"@, join(views(h.references@), " "@)))
            } else {
                with_parent
            }
        },
        None => base,
    }
}

pub fn outgoing_headers(message_id: &str, reply: &Option<ReplyHeaders>) -> (h: Vec<(String, String)>)
    ensures
        pair_views(h@) == outgoing_headers_of(message_id@, *reply),
{
    let mut h: Vec<(String, String)> = Vec::new();
    h.push((String::from_str("Message-ID"), String::from_str(message_id)));
    assert(pair_views(h@) =~= seq![("Message-ID"@, message_id@)]);
    match reply {
        Some(r) => {
            match &r.in_reply_to {
                Some(p) => {
                    let ghost before = h@;
                    h.push((String::from_str("In-Reply-To"), p.clone()));
                    assert(pair_views(h@) =~= pair_views(before).push(("In-Reply-To"@, p@)));
                },
                None => {},
            }
            if r.references.len() > 0 {
                let ghost before = h@;
                let refs = join_strings(&r.references, " ");
                h.push((String::from_str("References"), refs));
                assert(pair_views(h@) =~= pair_views(before).push(
                    ("References"@, join(views(r.references@), " "@)),
                ));
            }
        },
        None => {},
    }
    h
}

/// The text body of an outgoing message: the signature, when the account
/// has one, follows after a blank line.
pub open spec fn signed_text(text: Seq<char>, signature: Seq<char>) -> Seq<char> {
    if signature.len() == 0 {
        text
    } else {
        text + "\n\n"@ + signature
    }
}

pub fn with_signature(text: &str, signature: &str) -> (s: String)
    ensures
        s@ == signed_text(text@, signature@),
{
    let v = chars_of(signature);
    if v.len() == 0 {
        String::from_str(text)
    } else {
        let mut s = String::from_str(text);
        s.append("\n\n");
        s.append(signature);
        s
    }
}

// ── Message-IDs ────────────────────────────────────────────────────────────

/// Index of the last `@` before `i`, or -1.
pub open spec fn last_at_before(s: Seq<char>, i: int) -> int
    decreases i,
{
    if i <= 0 {
        -1
    } else if s[i - 1] == '@' {
        i - 1
    } else {
        last_at_before(s, i - 1)
    }
}

/// The domain of an address: what follows its last `@` (the whole text when
/// it has none).
pub open spec fn domain_of(email: Seq<char>) -> Seq<char> {
    email.skip(last_at_before(email, email.len() as int) + 1)
}

proof fn lemma_last_at_bounds(s: Seq<char>, i: int)
    requires
        i <= s.len(),
    ensures
        -1 <= last_at_before(s, i),
        i > 0 ==> last_at_before(s, i) < i,
    decreases i,
{
    if i > 0 && s[i - 1] != '@' {
        lemma_last_at_bounds(s, i - 1);
    }
}

/// The Message-ID of an outgoing message: `<unique@domain>`, the domain
/// being that of the sending address.
pub fn message_id_for(unique: &str, from_email: &str) -> (m: String)
    ensures
        m@ == "<"@ + unique@ + "@"@ + domain_of(from_email@) + ">"@,
{
    let v = chars_of(from_email);
    let mut i = v.len();
    while i > 0 && v[i - 1] != '@'
        invariant
            i <= v.len(),
            v@ == from_email@,
            last_at_before(v@, v.len() as int) == last_at_before(v@, i as int),
        decreases i,
    {
        i -= 1;
    }
    proof {
        lemma_last_at_bounds(v@, v.len() as int);
    }
    let start: usize = if i > 0 {
        i
    } else {
        0
    };
    assert(start as int == last_at_before(v@, v.len() as int) + 1);
    let domain = string_from_range(&v, start, v.len());
    assert(v@.subrange(start as int, v.len() as int) =~= v@.skip(start as int));
    let mut m = String::from_str("<");
    m.append(unique);
    m.append("@");
    m.append(domain.as_str());
    m.append(">");
    m
}

// ── Sent messages of an account ────────────────────────────────────────────

/// Whether a sender field names the account: the address itself, or a
/// display name followed by `<address>`, once both are trimmed and
/// lowercased.
pub open spec fn sent_by(from: Seq<char>, account: Seq<char>) -> bool {
    let f = normalized_email(from);
    let a = normalized_email(account);
    f == a || (f.len() >= a.len() + 2 && f.skip(f.len() - a.len() - 2) == "<"@ + a + ">"@)
}

/// Whether a sent message was sent from the account.
pub fn sent_from_account(from: &Option<String>, account_email: &str) -> (r: bool)
    ensures
        r == (match from {
            Some(f) => sent_by(f@, account_email@),
            None => false,
        }),
{
    match from {
        None => false,
        Some(f) => {
            let nf = normalize_email(f.as_str());
            let na = normalize_email(account_email);
            if str_eq(nf.as_str(), na.as_str()) {
                return true;
            }
            let vf = chars_of(nf.as_str());
            let va = chars_of(na.as_str());
            if vf.len() < va.len() || vf.len() - va.len() < 2 {
                return false;
            }
            let tail = string_from_range(&vf, vf.len() - va.len() - 2, vf.len());
            let mut wrapped = String::from_str("<");
            wrapped.append(na.as_str());
            wrapped.append(">");
            assert(vf@.subrange(vf.len() - va.len() - 2, vf.len() as int) =~= vf@.skip(
                vf.len() - va.len() - 2,
            ));
            str_eq(tail.as_str(), wrapped.as_str())
        },
    }
}

// ── Base64 ─────────────────────────────────────────────────────────────────

/// The base64 digit for a value below 64 (RFC 4648 alphabet).
pub open spec fn b64_digit(v: int) -> char {
    if v < 26 {
        (65 + v) as char
    } else if v < 52 {
        (97 + v - 26) as char
    } else if v < 62 {
        (48 + v - 52) as char
    } else if v == 62 {
        '+'
    } else {
        '/'
    }
}

/// The four base64 digits of a group of up to three bytes (`n` of them),
/// padded with `=`.
pub open spec fn b64_group(a: int, b: int, c: int, n: int) -> Seq<char> {
    if n == 1 {
        seq![b64_digit(a / 4), b64_digit((a % 4) * 16), '=', '=']
    } else if n == 2 {
        seq![b64_digit(a / 4), b64_digit((a % 4) * 16 + b / 16), b64_digit((b % 16) * 4), '=']
    } else {
        seq![
            b64_digit(a / 4),
            b64_digit((a % 4) * 16 + b / 16),
            b64_digit((b % 16) * 4 + c / 64),
            b64_digit(c % 64),
        ]
    }
}

/// Base64 of `s` (RFC 4648, with `=` padding).
pub open spec fn base64(s: Seq<u8>) -> Seq<char>
    decreases s.len(),
{
    if s.len() == 0 {
        Seq::empty()
    } else if s.len() == 1 {
        b64_group(s[0] as int, 0, 0, 1)
    } else if s.len() == 2 {
        b64_group(s[0] as int, s[1] as int, 0, 2)
    } else {
        b64_group(s[0] as int, s[1] as int, s[2] as int, 3) + base64(s.skip(3))
    }
}

fn b64_digit_exec(v: u8) -> (c: char)
    requires
        v < 64,
    ensures
        c == b64_digit(v as int),
{
    if v < 26 {
        (65 + v) as char
    } else if v < 52 {
        (97 + v - 26) as char
    } else if v < 62 {
        (48 + v - 52) as char
    } else if v == 62 {
        '+'
    } else {
        '/'
    }
}

/// Encodes bytes as base64, the form attachments take in a send request.
pub fn base64_encode(bytes: &Vec<u8>) -> (s: String)
    ensures
        s@ == base64(bytes@),
{
    let mut out: Vec<char> = Vec::new();
    let mut i: usize = 0;
    let n = bytes.len();
    assert(bytes@.skip(0) =~= bytes@);
    assert(out@ + base64(bytes@.skip(0)) =~= base64(bytes@));
    while n - i >= 3
        invariant
            i <= n,
            n == bytes.len(),
            base64(bytes@) == out@ + base64(bytes@.skip(i as int)),
        decreases n - i,
    {
        let a = bytes[i];
        let b = bytes[i + 1];
        let c = bytes[i + 2];
        let ghost rest = bytes@.skip(i as int);
        assert(rest[0] == a && rest[1] == b && rest[2] == c);
        assert(rest.skip(3) =~= bytes@.skip(i + 3));
        let ghost before = out@;
        out.push(b64_digit_exec(a / 4));
        out.push(b64_digit_exec((a % 4) * 16 + b / 16));
        out.push(b64_digit_exec((b % 16) * 4 + c / 64));
        out.push(b64_digit_exec(c % 64));
        assert(out@ =~= before + b64_group(a as int, b as int, c as int, 3));
        i += 3;
    }
    let ghost rest = bytes@.skip(i as int);
    let ghost before = out@;
    if n - i == 1 {
        let a = bytes[i];
        assert(rest[0] == a);
        out.push(b64_digit_exec(a / 4));
        out.push(b64_digit_exec((a % 4) * 16));
        out.push('=');
        out.push('=');
        assert(out@ =~= before + base64(rest));
    } else if n - i == 2 {
        let a = bytes[i];
        let b = bytes[i + 1];
        assert(rest[0] == a && rest[1] == b);
        out.push(b64_digit_exec(a / 4));
        out.push(b64_digit_exec((a % 4) * 16 + b / 16));
        out.push(b64_digit_exec((b % 16) * 4));
        out.push('=');
        assert(out@ =~= before + base64(rest));
    } else {
        assert(rest.len() == 0);
        assert(out@ =~= before + base64(rest));
    }
    string_from_chars(&out)
}

/// Base64 output is four characters for every three bytes or part thereof.
pub proof fn base64_length(s: Seq<u8>)
    ensures
        base64(s).len() == 4 * ((s.len() + 2) / 3),
    decreases s.len(),
{
    if s.len() >= 3 {
        base64_length(s.skip(3));
    }
}

} // verus!
