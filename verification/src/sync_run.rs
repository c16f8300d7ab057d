//! A whole sync run over the accounts, as a state machine. The caller does
//! the work each action names (open an API client, read or store a cursor,
//! list a page, fetch or store a message) and hands the outcome back as an
//! event; `sync_step` decides what comes next.
//!
//! For each account in order: its API client is opened, then its sent
//! listing and then its received listing are walked from the top down to
//! the cursor stored for each. Each message listed before the cursor is
//! fetched; a sent message is stored exactly when it was sent from the
//! account, a received one (and announced, when the run notifies) exactly
//! when it was addressed to the account. Once a walk is over its newest id
//! becomes its cursor. A failure during the sent walk moves on to the
//! received walk, unless the sent walk is required; any other failure
//! stops the run at once. The cursor of the walk that failed is then left
//! as it was, and messages already stored stay stored.

use vstd::prelude::*;
use crate::compose::{sent_by, sent_from_account};
use crate::models::{views, ReceivedEmail, SentEmail};
use crate::sync::{
    addressed_to, daemon_sync, opt_view, page_ends_walk, page_fetch, received_email_matches_account,
    ReceivedPage, ReceivedSync,
};

verus! {

/// Where a sync run stands: what it waits for.
#[derive(Debug, Clone, Copy, PartialEq, Eq)]
pub enum SyncStage {
    /// The API client of the current account.
    OpeningClient,
    /// The stored cursor of the current walk.
    LoadingCursor,
    /// A page of the current listing.
    Listing,
    /// The details of a listed message.
    Fetching,
    /// A message of the account being stored.
    Storing,
    /// The new cursor being stored.
    SavingCursor,
    /// Nothing: every account has been synced.
    Done,
    /// Nothing: a step failed and the run is over.
    Stopped,
}

/// Which listing of an account a walk goes over.
#[derive(Debug, Clone, Copy, PartialEq, Eq)]
pub enum MailWalk {
    Sent,
    Received,
}

/// A sync run in progress.
#[derive(Debug)]
pub struct SyncRun {
    /// The addresses of the accounts to sync, in order.
    pub accounts: Vec<String>,
    /// Whether each stored message is announced.
    pub notify: bool,
    /// Whether a failure during the sent walk stops the run.
    pub sent_required: bool,
    /// The account being synced.
    pub account: usize,
    pub stage: SyncStage,
    /// Which listing of the account is walked, and the walk over it.
    pub listing: MailWalk,
    pub walk: ReceivedSync,
    /// The ids of the current page to fetch, and how many were fetched.
    pub queue: Vec<String>,
    pub next: usize,
}

/// The outcome of the work an action named.
#[derive(Debug)]
pub enum SyncEvent {
    ClientOpened,
    CursorLoaded(Option<String>),
    PageListed(ReceivedPage),
    DetailFetched(ReceivedEmail),
    SentDetailFetched(SentEmail),
    Stored,
    CursorSaved,
    Failed,
}

/// The work to do next.
#[derive(Debug)]
pub enum SyncAction {
    /// Open the API client of the account at this index.
    OpenClient(usize),
    /// Read the stored cursor of this listing of the account.
    LoadCursor(usize, MailWalk),
    /// List a page of this listing of the account after this id (from the
    /// top for `None`).
    ListPage(usize, MailWalk, Option<String>),
    /// Fetch the details of the message of this listing with this id.
    FetchDetail(MailWalk, String),
    /// Store the message as sent by the account.
    StoreSent { account: usize, detail: SentEmail },
    /// Store the message as received by the account, with its attachments,
    /// and announce it when `notify` is set.
    StoreAndNotify { account: usize, detail: ReceivedEmail, notify: bool },
    /// Store this id as the cursor of this listing of the account.
    SaveCursor(usize, MailWalk, String),
    /// The run is over: every account was synced.
    Finish,
    /// The run is over: a step failed.
    Stop,
}

/// The walk, by its plain values.
pub struct WalkView {
    pub cursor: Option<Seq<char>>,
    pub newest: Option<Seq<char>>,
    pub after: Option<Seq<char>>,
    pub finished: bool,
}

pub open spec fn walk_view(w: ReceivedSync) -> WalkView {
    WalkView {
        cursor: opt_view(w.cursor),
        newest: opt_view(w.newest),
        after: opt_view(w.after),
        finished: w.finished,
    }
}

/// A sync run, by its plain values.
pub struct SyncRunView {
    pub accounts: Seq<Seq<char>>,
    pub notify: bool,
    pub sent_required: bool,
    pub account: int,
    pub stage: SyncStage,
    pub listing: MailWalk,
    pub walk: WalkView,
    pub queue: Seq<Seq<char>>,
    pub next: int,
}

pub enum SyncEventView {
    ClientOpened,
    CursorLoaded(Option<Seq<char>>),
    /// The ids of the page and whether the listing has more pages.
    PageListed(Seq<Seq<char>>, bool),
    DetailFetched(ReceivedEmail),
    SentDetailFetched(SentEmail),
    Stored,
    CursorSaved,
    Failed,
}

pub enum SyncActionView {
    OpenClient(int),
    LoadCursor(int, MailWalk),
    ListPage(int, MailWalk, Option<Seq<char>>),
    FetchDetail(MailWalk, Seq<char>),
    StoreSent(int, SentEmail),
    StoreAndNotify(int, ReceivedEmail, bool),
    SaveCursor(int, MailWalk, Seq<char>),
    Finish,
    Stop,
}

impl View for SyncRun {
    type V = SyncRunView;

    open spec fn view(&self) -> SyncRunView {
        SyncRunView {
            accounts: views(self.accounts@),
            notify: self.notify,
            sent_required: self.sent_required,
            account: self.account as int,
            stage: self.stage,
            listing: self.listing,
            walk: walk_view(self.walk),
            queue: views(self.queue@),
            next: self.next as int,
        }
    }
}

impl View for SyncEvent {
    type V = SyncEventView;

    open spec fn view(&self) -> SyncEventView {
        match self {
            SyncEvent::ClientOpened => SyncEventView::ClientOpened,
            SyncEvent::CursorLoaded(c) => SyncEventView::CursorLoaded(opt_view(*c)),
            SyncEvent::PageListed(p) => SyncEventView::PageListed(
                views(p.ids@),
                p.has_more == Some(true),
            ),
            SyncEvent::DetailFetched(d) => SyncEventView::DetailFetched(*d),
            SyncEvent::SentDetailFetched(d) => SyncEventView::SentDetailFetched(*d),
            SyncEvent::Stored => SyncEventView::Stored,
            SyncEvent::CursorSaved => SyncEventView::CursorSaved,
            SyncEvent::Failed => SyncEventView::Failed,
        }
    }
}

impl View for SyncAction {
    type V = SyncActionView;

    open spec fn view(&self) -> SyncActionView {
        match self {
            SyncAction::OpenClient(i) => SyncActionView::OpenClient(*i as int),
            SyncAction::LoadCursor(i, w) => SyncActionView::LoadCursor(*i as int, *w),
            SyncAction::ListPage(i, w, a) => SyncActionView::ListPage(*i as int, *w, opt_view(*a)),
            SyncAction::FetchDetail(w, id) => SyncActionView::FetchDetail(*w, id@),
            SyncAction::StoreSent { account, detail } => SyncActionView::StoreSent(
                *account as int,
                *detail,
            ),
            SyncAction::StoreAndNotify { account, detail, notify } => SyncActionView::StoreAndNotify(
                *account as int,
                *detail,
                *notify,
            ),
            SyncAction::SaveCursor(i, w, c) => SyncActionView::SaveCursor(*i as int, *w, c@),
            SyncAction::Finish => SyncActionView::Finish,
            SyncAction::Stop => SyncActionView::Stop,
        }
    }
}

/// What a run needs to hold for its next step: the current account exists
/// until the run is done, the fetch position is within the page, and a
/// listing is awaited only while the walk goes on.
pub open spec fn run_wf(s: SyncRunView) -> bool {
    &&& (s.stage == SyncStage::Done || 0 <= s.account < s.accounts.len())
    &&& 0 <= s.next <= s.queue.len()
    &&& s.stage == SyncStage::Listing ==> !s.walk.finished
}

/// The run stops.
pub open spec fn stop_run(s: SyncRunView) -> (SyncRunView, SyncActionView) {
    (SyncRunView { stage: SyncStage::Stopped, ..s }, SyncActionView::Stop)
}

/// On to the next account, or done after the last one.
pub open spec fn next_account(s: SyncRunView) -> (SyncRunView, SyncActionView) {
    if s.account + 1 < s.accounts.len() {
        (
            SyncRunView {
                account: s.account + 1,
                stage: SyncStage::OpeningClient,
                listing: MailWalk::Sent,
                ..s
            },
            SyncActionView::OpenClient(s.account + 1),
        )
    } else {
        (SyncRunView { stage: SyncStage::Done, ..s }, SyncActionView::Finish)
    }
}

/// The received walk of the current account starts: its cursor is read.
pub open spec fn start_received(s: SyncRunView) -> (SyncRunView, SyncActionView) {
    (
        SyncRunView { stage: SyncStage::LoadingCursor, listing: MailWalk::Received, ..s },
        SyncActionView::LoadCursor(s.account, MailWalk::Received),
    )
}

/// A walk is over: the sent walk is followed by the received one, the
/// received walk by the next account.
pub open spec fn end_walk(s: SyncRunView) -> (SyncRunView, SyncActionView) {
    if s.listing == MailWalk::Sent {
        start_received(s)
    } else {
        next_account(s)
    }
}

/// After a message of the page is dealt with: fetch the next one of the
/// page, else list the next page while the walk goes on, else store the
/// newest id as the cursor (when the listing had any), else end the walk.
pub open spec fn advance(s: SyncRunView) -> (SyncRunView, SyncActionView) {
    if s.next < s.queue.len() {
        (
            SyncRunView { stage: SyncStage::Fetching, next: s.next + 1, ..s },
            SyncActionView::FetchDetail(s.listing, s.queue[s.next]),
        )
    } else if !s.walk.finished {
        (
            SyncRunView { stage: SyncStage::Listing, ..s },
            SyncActionView::ListPage(s.account, s.listing, s.walk.after),
        )
    } else {
        match s.walk.newest {
            Some(c) => (
                SyncRunView { stage: SyncStage::SavingCursor, ..s },
                SyncActionView::SaveCursor(s.account, s.listing, c),
            ),
            None => end_walk(s),
        }
    }
}

/// Whether a sent message was sent from an account.
pub open spec fn sent_from(detail: SentEmail, account_email: Seq<char>) -> bool {
    match detail.from {
        Some(f) => sent_by(f@, account_email),
        None => false,
    }
}

/// The walk after one page of the listing (as `daemon_sync` moves it).
pub open spec fn walk_after_page(w: WalkView, ids: Seq<Seq<char>>, more: bool) -> WalkView {
    let finished = page_ends_walk(ids, more, w.cursor);
    WalkView {
        cursor: w.cursor,
        newest: if w.newest is None && ids.len() > 0 {
            Some(ids[0])
        } else {
            w.newest
        },
        after: if finished {
            w.after
        } else {
            Some(ids.last())
        },
        finished,
    }
}

/// The next state of a run and the work to do, given the outcome of the
/// last action. An event the stage does not await stops the run, as a
/// failure does; a done run stays done.
pub open spec fn sync_next(s: SyncRunView, ev: SyncEventView) -> (SyncRunView, SyncActionView) {
    if s.stage == SyncStage::Done {
        (s, SyncActionView::Finish)
    } else if s.stage == SyncStage::Stopped {
        (s, SyncActionView::Stop)
    } else {
        match ev {
            SyncEventView::ClientOpened => if s.stage == SyncStage::OpeningClient {
                (
                    SyncRunView { stage: SyncStage::LoadingCursor, listing: MailWalk::Sent, ..s },
                    SyncActionView::LoadCursor(s.account, MailWalk::Sent),
                )
            } else {
                stop_run(s)
            },
            SyncEventView::CursorLoaded(c) => if s.stage == SyncStage::LoadingCursor {
                (
                    SyncRunView {
                        stage: SyncStage::Listing,
                        walk: WalkView { cursor: c, newest: None, after: None, finished: false },
                        queue: Seq::empty(),
                        next: 0,
                        ..s
                    },
                    SyncActionView::ListPage(s.account, s.listing, None),
                )
            } else {
                stop_run(s)
            },
            SyncEventView::PageListed(ids, more) => if s.stage == SyncStage::Listing {
                advance(
                    SyncRunView {
                        walk: walk_after_page(s.walk, ids, more),
                        queue: page_fetch(ids, s.walk.cursor),
                        next: 0,
                        ..s
                    },
                )
            } else {
                stop_run(s)
            },
            SyncEventView::DetailFetched(d) => if s.stage == SyncStage::Fetching && s.listing
                == MailWalk::Received {
                if addressed_to(d, s.accounts[s.account]) {
                    (
                        SyncRunView { stage: SyncStage::Storing, ..s },
                        SyncActionView::StoreAndNotify(s.account, d, s.notify),
                    )
                } else {
                    advance(s)
                }
            } else {
                stop_run(s)
            },
            SyncEventView::SentDetailFetched(d) => if s.stage == SyncStage::Fetching && s.listing
                == MailWalk::Sent {
                if sent_from(d, s.accounts[s.account]) {
                    (
                        SyncRunView { stage: SyncStage::Storing, ..s },
                        SyncActionView::StoreSent(s.account, d),
                    )
                } else {
                    advance(s)
                }
            } else {
                stop_run(s)
            },
            SyncEventView::Stored => if s.stage == SyncStage::Storing {
                advance(s)
            } else {
                stop_run(s)
            },
            SyncEventView::CursorSaved => if s.stage == SyncStage::SavingCursor {
                end_walk(s)
            } else {
                stop_run(s)
            },
            SyncEventView::Failed => if s.stage != SyncStage::OpeningClient && s.listing
                == MailWalk::Sent && !s.sent_required {
                start_received(s)
            } else {
                stop_run(s)
            },
        }
    }
}

/// The actions a run takes in answer to a sequence of events.
pub open spec fn run_actions(s: SyncRunView, events: Seq<SyncEventView>) -> Seq<SyncActionView>
    decreases events.len(),
{
    if events.len() == 0 {
        Seq::empty()
    } else {
        let (next, action) = sync_next(s, events[0]);
        seq![action] + run_actions(next, events.skip(1))
    }
}

/// Once a run has stopped, whatever comes back it only answers `Stop`: no
/// message is fetched or stored and no cursor moves after a failure.
pub proof fn stopped_run_stays_stopped(s: SyncRunView, events: Seq<SyncEventView>)
    requires
        s.stage == SyncStage::Stopped,
    ensures
        run_actions(s, events).len() == events.len(),
        forall|i: int| 0 <= i < events.len() ==> #[trigger] run_actions(s, events)[i] == SyncActionView::Stop,
    decreases events.len(),
{
    if events.len() > 0 {
        let (next, action) = sync_next(s, events[0]);
        assert(next.stage == SyncStage::Stopped && action == SyncActionView::Stop);
        stopped_run_stays_stopped(next, events.skip(1));
        let rest = run_actions(next, events.skip(1));
        assert forall|i: int| 0 <= i < events.len() implies #[trigger] run_actions(s, events)[i]
            == SyncActionView::Stop by {
            if i > 0 {
                assert(run_actions(s, events)[i] == rest[i - 1]);
            }
        }
    }
}

/// The first step of a run over these accounts: open the first account's
/// client, or finish at once when there is no account.
pub fn sync_start(accounts: Vec<String>, notify: bool, sent_required: bool) -> (r: (
    SyncRun,
    SyncAction,
))
    ensures
        r.0@.accounts == views(accounts@),
        r.0@.notify == notify,
        r.0@.sent_required == sent_required,
        r.0@.account == 0,
        r.0@.listing == MailWalk::Sent,
        r.0@.queue.len() == 0,
        r.0@.next == 0,
        accounts.len() > 0 ==> r.0@.stage == SyncStage::OpeningClient && r.1@
            == SyncActionView::OpenClient(0),
        accounts.len() == 0 ==> r.0@.stage == SyncStage::Done && r.1@ == SyncActionView::Finish,
        run_wf(r.0@),
{
    let empty = accounts.len() == 0;
    let s = SyncRun {
        accounts,
        notify,
        sent_required,
        account: 0,
        stage: if empty {
            SyncStage::Done
        } else {
            SyncStage::OpeningClient
        },
        listing: MailWalk::Sent,
        walk: ReceivedSync::new(None),
        queue: Vec::new(),
        next: 0,
    };
    if empty {
        (s, SyncAction::Finish)
    } else {
        (s, SyncAction::OpenClient(0))
    }
}

fn stop_now(s: SyncRun) -> (r: (SyncRun, SyncAction))
    ensures
        (r.0@, r.1@) == stop_run(s@),
{
    let mut s = s;
    s.stage = SyncStage::Stopped;
    (s, SyncAction::Stop)
}

fn move_to_next_account(s: SyncRun) -> (r: (SyncRun, SyncAction))
    requires
        s.account < s.accounts.len(),
        s.next <= s.queue.len(),
    ensures
        (r.0@, r.1@) == next_account(s@),
        run_wf(r.0@),
{
    let mut s = s;
    if s.account + 1 < s.accounts.len() {
        s.account = s.account + 1;
        s.stage = SyncStage::OpeningClient;
        s.listing = MailWalk::Sent;
        let i = s.account;
        (s, SyncAction::OpenClient(i))
    } else {
        s.stage = SyncStage::Done;
        (s, SyncAction::Finish)
    }
}

fn begin_received(s: SyncRun) -> (r: (SyncRun, SyncAction))
    requires
        s.account < s.accounts.len(),
        s.next <= s.queue.len(),
    ensures
        (r.0@, r.1@) == start_received(s@),
        run_wf(r.0@),
{
    let mut s = s;
    s.stage = SyncStage::LoadingCursor;
    s.listing = MailWalk::Received;
    let i = s.account;
    (s, SyncAction::LoadCursor(i, MailWalk::Received))
}

fn finish_walk(s: SyncRun) -> (r: (SyncRun, SyncAction))
    requires
        s.account < s.accounts.len(),
        s.next <= s.queue.len(),
    ensures
        (r.0@, r.1@) == end_walk(s@),
        run_wf(r.0@),
{
    match s.listing {
        MailWalk::Sent => begin_received(s),
        MailWalk::Received => move_to_next_account(s),
    }
}

fn advance_run(s: SyncRun) -> (r: (SyncRun, SyncAction))
    requires
        s.account < s.accounts.len(),
        s.next <= s.queue.len(),
    ensures
        (r.0@, r.1@) == advance(s@),
        run_wf(r.0@),
{
    let mut s = s;
    if s.next < s.queue.len() {
        let id = s.queue[s.next].clone();
        s.next = s.next + 1;
        s.stage = SyncStage::Fetching;
        let w = s.listing;
        (s, SyncAction::FetchDetail(w, id))
    } else if !s.walk.finished {
        let after = match &s.walk.after {
            Some(a) => Some(a.clone()),
            None => None,
        };
        let i = s.account;
        let w = s.listing;
        s.stage = SyncStage::Listing;
        (s, SyncAction::ListPage(i, w, after))
    } else {
        match s.walk.new_cursor() {
            Some(c) => {
                s.stage = SyncStage::SavingCursor;
                let i = s.account;
                let w = s.listing;
                (s, SyncAction::SaveCursor(i, w, c))
            },
            None => finish_walk(s),
        }
    }
}

/// One step of a sync run: the next state and the work to do next, given
/// the outcome of the last action (`sync_next`). In particular:
///   - a fetched received message is stored (and announced when the run
///     notifies) exactly when it was addressed to the current account, a
///     fetched sent message exactly when it was sent from it;
///   - a failure during the sent walk, where that walk is not required,
///     moves on to the received walk by reading its cursor;
///   - any other failure stops the run at once, without storing a cursor;
///   - a cursor is stored only once its walk is over, and it is the newest
///     id that walk listed.
pub fn sync_step(s: SyncRun, ev: SyncEvent) -> (r: (SyncRun, SyncAction))
    requires
        run_wf(s@),
    ensures
        (r.0@, r.1@) == sync_next(s@, ev@),
        run_wf(r.0@),
        s@.stage == SyncStage::Fetching && s@.listing == MailWalk::Received ==> (
        ev matches SyncEvent::DetailFetched(d) ==> (r.1@ is StoreAndNotify <==> addressed_to(
            d,
            s@.accounts[s@.account],
        ))),
        s@.stage == SyncStage::Fetching && s@.listing == MailWalk::Sent ==> (
        ev matches SyncEvent::SentDetailFetched(d) ==> (r.1@ is StoreSent <==> sent_from(
            d,
            s@.accounts[s@.account],
        ))),
        ev is Failed && s@.stage != SyncStage::Done && s@.stage != SyncStage::Stopped ==> (if s@.stage
            != SyncStage::OpeningClient && s@.listing == MailWalk::Sent && !s@.sent_required {
            r.1@ == SyncActionView::LoadCursor(s@.account, MailWalk::Received)
        } else {
            r.1@ == SyncActionView::Stop && r.0@.stage == SyncStage::Stopped
        }),
        r.1@ matches SyncActionView::SaveCursor(i, w, c) ==> r.0@.walk.finished && r.0@.walk.newest
            == Some(c) && i == s@.account && w == s@.listing,
{
    match s.stage {
        SyncStage::Done => {
            return (s, SyncAction::Finish);
        },
        SyncStage::Stopped => {
            return (s, SyncAction::Stop);
        },
        _ => {},
    }
    match ev {
        SyncEvent::ClientOpened => match s.stage {
            SyncStage::OpeningClient => {
                let mut s = s;
                s.stage = SyncStage::LoadingCursor;
                s.listing = MailWalk::Sent;
                let i = s.account;
                (s, SyncAction::LoadCursor(i, MailWalk::Sent))
            },
            _ => stop_now(s),
        },
        SyncEvent::CursorLoaded(c) => match s.stage {
            SyncStage::LoadingCursor => {
                let mut s = s;
                s.walk = ReceivedSync::new(c);
                s.queue = Vec::new();
                s.next = 0;
                s.stage = SyncStage::Listing;
                let i = s.account;
                let w = s.listing;
                assert(views(s.queue@) =~= Seq::<Seq<char>>::empty());
                (s, SyncAction::ListPage(i, w, None))
            },
            _ => stop_now(s),
        },
        SyncEvent::PageListed(page) => match s.stage {
            SyncStage::Listing => {
                let mut s = s;
                let ghost w0 = walk_view(s.walk);
                let fetch = daemon_sync(&mut s.walk, &page);
                assert(walk_view(s.walk) == walk_after_page(
                    w0,
                    views(page.ids@),
                    page.has_more == Some(true),
                ));
                s.queue = fetch;
                s.next = 0;
                advance_run(s)
            },
            _ => stop_now(s),
        },
        SyncEvent::DetailFetched(d) => match (s.stage, s.listing) {
            (SyncStage::Fetching, MailWalk::Received) => {
                if received_email_matches_account(&d, s.accounts[s.account].as_str()) {
                    let mut s = s;
                    s.stage = SyncStage::Storing;
                    let i = s.account;
                    let notify = s.notify;
                    (s, SyncAction::StoreAndNotify { account: i, detail: d, notify })
                } else {
                    advance_run(s)
                }
            },
            _ => stop_now(s),
        },
        SyncEvent::SentDetailFetched(d) => match (s.stage, s.listing) {
            (SyncStage::Fetching, MailWalk::Sent) => {
                if sent_from_account(&d.from, s.accounts[s.account].as_str()) {
                    let mut s = s;
                    s.stage = SyncStage::Storing;
                    let i = s.account;
                    (s, SyncAction::StoreSent { account: i, detail: d })
                } else {
                    advance_run(s)
                }
            },
            _ => stop_now(s),
        },
        SyncEvent::Stored => match s.stage {
            SyncStage::Storing => advance_run(s),
            _ => stop_now(s),
        },
        SyncEvent::CursorSaved => match s.stage {
            SyncStage::SavingCursor => finish_walk(s),
            _ => stop_now(s),
        },
        SyncEvent::Failed => match (s.stage, s.listing) {
            (SyncStage::OpeningClient, _) => stop_now(s),
            (_, MailWalk::Sent) => {
                if s.sent_required {
                    stop_now(s)
                } else {
                    begin_received(s)
                }
            },
            _ => stop_now(s),
        },
    }
}

} // verus!
