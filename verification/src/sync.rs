//! The walk over a mail listing (received or sent) that a sync performs
//! for one account. The listing comes newest first, one page at a time; the
//! walk fetches every message newer than the stored sync cursor, stops at
//! the cursor, and afterwards moves the cursor to the newest message seen.
//!
//! The listing and the message details are fetched by the caller; this
//! module decides what to fetch next and which messages to fetch in full.

use vstd::prelude::*;
use crate::fmt::{normalize_email, normalized_email, str_eq};
use crate::models::{views, ReceivedEmail};

verus! {

/// The view of an optional string.
pub open spec fn opt_view(o: Option<String>) -> Option<Seq<char>> {
    match o {
        Some(s) => Some(s@),
        None => None,
    }
}

/// Position of the first id equal to the cursor, or the number of ids.
pub open spec fn cursor_index(ids: Seq<Seq<char>>, cursor: Option<Seq<char>>) -> int
    decreases ids.len(),
{
    if ids.len() == 0 {
        0
    } else if cursor == Some(ids[0]) {
        0
    } else {
        1 + cursor_index(ids.skip(1), cursor)
    }
}

pub proof fn lemma_cursor_index_bounds(ids: Seq<Seq<char>>, cursor: Option<Seq<char>>)
    ensures
        0 <= cursor_index(ids, cursor) <= ids.len(),
        cursor_index(ids, cursor) < ids.len() ==> cursor == Some(
            ids[cursor_index(ids, cursor)],
        ),
        forall|j: int| 0 <= j < cursor_index(ids, cursor) ==> cursor != Some(#[trigger] ids[j]),
    decreases ids.len(),
{
    if ids.len() > 0 && cursor != Some(ids[0]) {
        lemma_cursor_index_bounds(ids.skip(1), cursor);
        assert forall|j: int| 0 <= j < cursor_index(ids, cursor) implies cursor != Some(
            #[trigger] ids[j],
        ) by {
            if j > 0 {
                assert(ids[j] == ids.skip(1)[j - 1]);
            }
        }
    }
}

/// The ids of a page that the walk fetches in full: those listed before the
/// cursor.
pub open spec fn page_fetch(ids: Seq<Seq<char>>, cursor: Option<Seq<char>>) -> Seq<Seq<char>> {
    ids.take(cursor_index(ids, cursor))
}

/// Whether the walk stops after this page: it met the cursor, the page was
/// empty, or the listing has no more pages.
pub open spec fn page_ends_walk(ids: Seq<Seq<char>>, has_more: bool, cursor: Option<Seq<char>>) -> bool {
    cursor_index(ids, cursor) < ids.len() || ids.len() == 0 || !has_more
}

/// One page of the received listing: message ids, newest first.
#[derive(Debug, Clone)]
pub struct ReceivedPage {
    pub ids: Vec<String>,
    pub has_more: Option<bool>,
}

/// State of the walk for one account.
#[derive(Debug, Clone)]
pub struct ReceivedSync {
    /// The cursor stored by the previous sync.
    pub cursor: Option<String>,
    /// The first id of the first page: the cursor to store afterwards.
    pub newest: Option<String>,
    /// The id after which the next page is requested.
    pub after: Option<String>,
    pub finished: bool,
}

impl ReceivedSync {
    /// A walk that starts at the top of the listing.
    pub fn new(cursor: Option<String>) -> (w: ReceivedSync)
        ensures
            opt_view(w.cursor) == opt_view(cursor),
            w.newest is None,
            w.after is None,
            !w.finished,
    {
        ReceivedSync { cursor, newest: None, after: None, finished: false }
    }

    /// The page to request next: `None` once the walk is over, else the id
    /// after which to list (`Some(None)` for the first page).
    pub fn next_request(&self) -> (r: Option<Option<String>>)
        ensures
            self.finished <==> r is None,
            r matches Some(a) ==> opt_view(a) == opt_view(self.after),
    {
        if self.finished {
            None
        } else {
            Some(self.after.clone())
        }
    }

    /// The cursor to store once the walk is over.
    pub fn new_cursor(&self) -> (r: Option<String>)
        ensures
            opt_view(r) == opt_view(self.newest),
    {
        self.newest.clone()
    }
}

/// One page of a background sync's received walk: takes in a page of the
/// listing, returns the ids to fetch in full, in listing order, and
/// advances the walk. The run over all accounts, with what is stored and
/// when it stops, is `sync_run::sync_step`, which calls this for each page.
pub fn daemon_sync(walk: &mut ReceivedSync, page: &ReceivedPage) -> (fetch: Vec<String>)
    requires
        !old(walk).finished,
    ensures
        views(fetch@) == page_fetch(views(page.ids@), opt_view(old(walk).cursor)),
        opt_view(final(walk).cursor) == opt_view(old(walk).cursor),
        opt_view(final(walk).newest) == (if old(walk).newest is None && page.ids.len() > 0 {
            Some(page.ids@[0]@)
        } else {
            opt_view(old(walk).newest)
        }),
        final(walk).finished == page_ends_walk(
            views(page.ids@),
            page.has_more == Some(true),
            opt_view(old(walk).cursor),
        ),
        !final(walk).finished ==> opt_view(final(walk).after) == Some(page.ids@.last()@),
        final(walk).finished ==> opt_view(final(walk).after) == opt_view(old(walk).after),
{
    let ghost ids = views(page.ids@);
    let ghost cur = opt_view(walk.cursor);
    proof {
        lemma_cursor_index_bounds(ids, cur);
    }
    if walk.newest.is_none() && page.ids.len() > 0 {
        walk.newest = Some(page.ids[0].clone());
    }
    let mut fetch: Vec<String> = Vec::new();
    let mut stop = false;
    let mut i: usize = 0;
    while i < page.ids.len() && !stop
        invariant
            ids == views(page.ids@),
            cur == opt_view(walk.cursor),
            0 <= cursor_index(ids, cur) <= ids.len(),
            cursor_index(ids, cur) < ids.len() ==> cur == Some(ids[cursor_index(ids, cur)]),
            forall|j: int| 0 <= j < cursor_index(ids, cur) ==> cur != Some(#[trigger] ids[j]),
            i <= page.ids.len(),
            stop ==> i == cursor_index(ids, cur) + 1,
            !stop ==> i <= cursor_index(ids, cur),
            views(fetch@) == ids.take(if stop { i - 1 } else { i as int }),
        decreases page.ids.len() - i,
    {
        let id = &page.ids[i];
        let hit = match &walk.cursor {
            Some(c) => str_eq(c.as_str(), id.as_str()),
            None => false,
        };
        assert(ids[i as int] == id@);
        if hit {
            stop = true;
        } else {
            let ghost before = fetch@;
            let cloned = id.clone();
            fetch.push(cloned);
            assert(fetch@ == before.push(cloned));
            assert(views(fetch@) =~= views(before).push(id@));
            assert(ids.take(i + 1) =~= ids.take(i as int).push(ids[i as int]));
        }
        i += 1;
    }
    if !stop {
        assert(i == page.ids.len());
    }
    assert(views(fetch@) =~= ids.take(cursor_index(ids, cur)));
    let more = match page.has_more {
        Some(b) => b,
        None => false,
    };
    if stop || !more || page.ids.len() == 0 {
        walk.finished = true;
    } else {
        walk.after = Some(page.ids[page.ids.len() - 1].clone());
    }
    fetch
}

/// All ids of the pages, in order.
pub open spec fn flatten(pages: Seq<Seq<Seq<char>>>) -> Seq<Seq<char>>
    decreases pages.len(),
{
    if pages.len() == 0 {
        Seq::empty()
    } else {
        flatten(pages.drop_last()) + pages.last()
    }
}

/// What the walk fetches over the pages, page after page.
pub open spec fn walk_fetches(pages: Seq<Seq<Seq<char>>>, cursor: Option<Seq<char>>) -> Seq<
    Seq<char>,
>
    decreases pages.len(),
{
    if pages.len() == 0 {
        Seq::empty()
    } else {
        walk_fetches(pages.drop_last(), cursor) + page_fetch(pages.last(), cursor)
    }
}

proof fn lemma_cursor_index_append(a: Seq<Seq<char>>, b: Seq<Seq<char>>, cursor: Option<Seq<char>>)
    requires
        cursor_index(a, cursor) == a.len(),
    ensures
        cursor_index(a + b, cursor) == a.len() + cursor_index(b, cursor),
    decreases a.len(),
{
    if a.len() > 0 {
        assert((a + b)[0] == a[0]);
        assert((a + b).skip(1) =~= a.skip(1) + b);
        lemma_cursor_index_append(a.skip(1), b, cursor);
    } else {
        assert(a + b =~= b);
    }
}

/// Over the pages of one walk (every page but the last one continued the
/// walk), the messages fetched are exactly those listed before the stored
/// cursor: all of them when the cursor is not met.
pub proof fn walk_fetches_messages_newer_than_cursor(
    pages: Seq<Seq<Seq<char>>>,
    more: Seq<bool>,
    cursor: Option<Seq<char>>,
)
    requires
        pages.len() == more.len(),
        forall|i: int|
            0 <= i < pages.len() - 1 ==> !page_ends_walk(#[trigger] pages[i], more[i], cursor),
    ensures
        walk_fetches(pages, cursor) == flatten(pages).take(cursor_index(flatten(pages), cursor)),
        cursor_index(flatten(pages), cursor) < flatten(pages).len() ==> page_ends_walk(
            pages.last(),
            more.last(),
            cursor,
        ),
    decreases pages.len(),
{
    if pages.len() == 0 {
        assert(flatten(pages).take(0) =~= Seq::<Seq<char>>::empty());
    } else {
        let init = pages.drop_last();
        let last = pages.last();
        walk_fetches_messages_newer_than_cursor(init, more.drop_last(), cursor);
        let fi = flatten(init);
        lemma_cursor_index_bounds(fi, cursor);
        lemma_cursor_index_bounds(last, cursor);
        if init.len() > 0 {
            assert(!page_ends_walk(pages[init.len() - 1], more[init.len() - 1], cursor));
            assert(init.last() == pages[init.len() - 1]);
        }
        assert(cursor_index(fi, cursor) == fi.len());
        lemma_cursor_index_append(fi, last, cursor);
        let k = cursor_index(last, cursor);
        assert(flatten(pages) == fi + last);
        assert((fi + last).take(fi.len() + k) =~= fi.take(fi.len() as int) + last.take(k));
        assert(fi.take(fi.len() as int) =~= fi);
    }
}

/// Syncing again right after a sync, with the cursor it stored (the newest
/// id) and no new mail, ends on the first page and fetches nothing.
pub proof fn sync_again_fetches_nothing(pages: Seq<Seq<Seq<char>>>, more: Seq<bool>)
    requires
        pages.len() == more.len(),
        pages.len() > 0,
        pages[0].len() > 0,
        forall|i: int|
            0 <= i < pages.len() - 1 ==> !page_ends_walk(
                #[trigger] pages[i],
                more[i],
                Some(pages[0][0]),
            ),
    ensures
        pages.len() == 1,
        walk_fetches(pages, Some(pages[0][0])) == Seq::<Seq<char>>::empty(),
{
    let c = Some(pages[0][0]);
    assert(cursor_index(pages[0], c) == 0);
    if pages.len() > 1 {
        assert(!page_ends_walk(pages[0], more[0], c));
        assert(false);
    }
    assert(pages.drop_last().len() == 0);
    assert(pages.last() == pages[0]);
    assert(pages[0].take(0) =~= Seq::<Seq<char>>::empty());
    assert(walk_fetches(pages, c) =~= walk_fetches(pages.drop_last(), c) + page_fetch(
        pages.last(),
        c,
    ));
}

/// Whether some address of the list, normalized, is `target`.
pub open spec fn lists_address(list: Seq<String>, target: Seq<char>) -> bool {
    exists|i: int| 0 <= i < list.len() && normalized_email(#[trigger] list[i]@) == target
}

fn any_address_is(list: &Vec<String>, target: &String) -> (r: bool)
    ensures
        r == lists_address(list@, target@),
{
    let mut i: usize = 0;
    while i < list.len()
        invariant
            i <= list.len(),
            forall|k: int| 0 <= k < i ==> normalized_email(#[trigger] list@[k]@) != target@,
        decreases list.len() - i,
    {
        let n = normalize_email(list[i].as_str());
        if str_eq(n.as_str(), target.as_str()) {
            return true;
        }
        i += 1;
    }
    false
}

/// Whether a received message was addressed to an account: one of its
/// `to`, `cc` or `bcc` addresses is the account's, once both are trimmed
/// and lowercased.
pub open spec fn addressed_to(detail: ReceivedEmail, account_email: Seq<char>) -> bool {
    lists_address(detail.to@, normalized_email(account_email)) || lists_address(
        detail.cc@,
        normalized_email(account_email),
    ) || lists_address(detail.bcc@, normalized_email(account_email))
}

/// Whether a received message was addressed to the account (`addressed_to`).
pub fn received_email_matches_account(detail: &ReceivedEmail, account_email: &str) -> (r: bool)
    ensures
        r == addressed_to(*detail, account_email@),
{
    let target = normalize_email(account_email);
    any_address_is(&detail.to, &target) || any_address_is(&detail.cc, &target) || any_address_is(
        &detail.bcc,
        &target,
    )
}

} // verus!
