//! The menu-bar daemon: what its status item shows, how a click on a menu
//! item is noticed by polling, and what a new-mail notification says.
//! Drawing the menu and sleeping between polls is left to the caller.

use vstd::prelude::*;
use crate::fmt::{decimal, usize_to_decimal};

verus! {

/// The title next to the menu-bar icon: a refresh arrow while syncing,
/// `99+` beyond 99 unread messages, the unread count when there are any,
/// and nothing otherwise.
pub open spec fn status_title_text(unread: nat, syncing: bool) -> Seq<char> {
    if syncing {
        "\u{21BB}"@
    } else if unread > 99 {
        "99+"@
    } else if unread > 0 {
        decimal(unread)
    } else {
        Seq::empty()
    }
}

pub fn status_title(unread: usize, syncing: bool) -> (s: String)
    ensures
        s@ == status_title_text(unread as nat, syncing),
{
    if syncing {
        String::from_str("\u{21BB}")
    } else if unread > 99 {
        String::from_str("99+")
    } else if unread > 0 {
        usize_to_decimal(unread)
    } else {
        String::new()
    }
}

/// The account the daemon watches, as shown in the menu.
pub fn account_label(filter: Option<&str>) -> (s: String)
    ensures
        s@ == (match filter {
            Some(a) => a@,
            None => "All accounts"@,
        }),
{
    match filter {
        Some(a) => String::from_str(a),
        None => String::from_str("All accounts"),
    }
}

/// The first, disabled line of the menu: the sync state or the unread
/// count, then the account label.
pub fn status_label(count: usize, syncing: bool, label: &str) -> (s: String)
    ensures
        s@ == (if syncing {
            "Syncing\u{2026} \u{00b7} "@ + label@
        } else {
            decimal(count as nat) + " unread \u{00b7} "@ + label@
        }),
{
    if syncing {
        let mut s = String::from_str("Syncing\u{2026} \u{00b7} ");
        s.append(label);
        s
    } else {
        let mut s = usize_to_decimal(count);
        s.append(" unread \u{00b7} ");
        s.append(label);
        s
    }
}

/// How many quarter-second ticks the daemon waits between syncs.
pub fn idle_ticks(interval_secs: u64) -> (n: u64)
    requires
        interval_secs * 4 <= u64::MAX,
    ensures
        n == interval_secs * 4,
{
    interval_secs * 4
}

/// The state of a polled menu item after one poll: its tag (1 while held
/// down, 0 otherwise) and whether a click just completed.
#[derive(Debug, Clone, Copy, PartialEq, Eq)]
pub struct ClickPoll {
    pub tag: i64,
    pub clicked: bool,
}

/// One poll of a menu item: a highlighted item is marked as pressed; an
/// item that was pressed and no longer is counts as clicked.
pub open spec fn click_poll(highlighted: bool, tag: i64) -> ClickPoll {
    if highlighted {
        ClickPoll { tag: if tag == 0 { 1 } else { tag }, clicked: false }
    } else if tag == 1 {
        ClickPoll { tag: 0, clicked: true }
    } else {
        ClickPoll { tag, clicked: false }
    }
}

pub fn poll_click(highlighted: bool, tag: i64) -> (p: ClickPoll)
    ensures
        p == click_poll(highlighted, tag),
{
    if highlighted {
        if tag == 0 {
            ClickPoll { tag: 1, clicked: false }
        } else {
            ClickPoll { tag, clicked: false }
        }
    } else if tag == 1 {
        ClickPoll { tag: 0, clicked: true }
    } else {
        ClickPoll { tag, clicked: false }
    }
}

/// Polls over a run of highlight observations, starting from `tag`; the
/// number of clicks noticed and the final tag.
pub open spec fn clicks_over(highlights: Seq<bool>, tag: i64) -> (nat, i64)
    decreases highlights.len(),
{
    if highlights.len() == 0 {
        (0, tag)
    } else {
        let (n, t) = clicks_over(highlights.drop_last(), tag);
        let p = click_poll(highlights.last(), t);
        (if p.clicked { n + 1 } else { n }, p.tag)
    }
}

/// The number of releases in a run of polls: a poll that finds the item
/// not highlighted right after one that found it highlighted.
pub open spec fn press_release_count(highlights: Seq<bool>) -> nat
    decreases highlights.len(),
{
    if highlights.len() < 2 {
        0
    } else {
        let n = press_release_count(highlights.drop_last());
        if !highlights.last() && highlights[highlights.len() - 2] {
            n + 1
        } else {
            n
        }
    }
}

/// Starting from an idle item (tag 0), each press-and-release is noticed as
/// exactly one click, and nothing else is.
pub proof fn each_press_release_is_one_click(highlights: Seq<bool>)
    ensures
        clicks_over(highlights, 0).0 == press_release_count(highlights),
        clicks_over(highlights, 0).1 == (if highlights.len() > 0 && highlights.last() {
            1i64
        } else {
            0i64
        }),
    decreases highlights.len(),
{
    if highlights.len() > 0 {
        each_press_release_is_one_click(highlights.drop_last());
        if highlights.len() >= 2 {
            assert(highlights.drop_last().last() == highlights[highlights.len() - 2]);
        }
    }
}

/// The title and text of the notification for a new message.
pub fn new_mail_notification(account_email: &str, from: &str, subject: &str) -> (n: (String, String))
    ensures
        n.0@ == "New email to "@ + account_email@,
        n.1@ == "From: "@ + from@ + "\n"@ + subject@,
{
    let mut title = String::from_str("New email to ");
    title.append(account_email);
    let mut body = String::from_str("From: ");
    body.append(from);
    body.append("\n");
    body.append(subject);
    (title, body)
}

/// What the background worker does next.
#[derive(Debug, Clone, Copy, PartialEq, Eq)]
pub enum WorkerAction {
    /// A sync round, after marking every message read when that was asked.
    Round { mark_read: bool },
    /// One more tick of waiting, after marking every message read when that
    /// was asked.
    Wait { mark_read: bool },
}

/// One decision of the worker.
#[derive(Debug, Clone, Copy, PartialEq, Eq)]
pub struct WorkerStep {
    pub action: WorkerAction,
    /// The ticks of waiting left after the action.
    pub ticks_left: u64,
    /// Whether the pending sync request was served (and is to be cleared).
    pub sync_served: bool,
}

/// The worker's schedule. A round comes when the wait is over (no ticks
/// left), and during a wait as soon as a sync is asked; a round is followed
/// by `ticks` ticks of waiting. A mark-all-read request is applied at the
/// next step, before the round or the tick. A sync request is looked at
/// only during a wait: one still pending when a round starts is served by
/// cutting the next wait short.
pub open spec fn worker_next(
    ticks_left: u64,
    ticks: u64,
    sync_requested: bool,
    mark_read_requested: bool,
) -> WorkerStep {
    if ticks_left == 0 {
        WorkerStep {
            action: WorkerAction::Round { mark_read: mark_read_requested },
            ticks_left: ticks,
            sync_served: false,
        }
    } else if sync_requested {
        WorkerStep {
            action: WorkerAction::Round { mark_read: mark_read_requested },
            ticks_left: ticks,
            sync_served: true,
        }
    } else {
        WorkerStep {
            action: WorkerAction::Wait { mark_read: mark_read_requested },
            ticks_left: (ticks_left - 1) as u64,
            sync_served: false,
        }
    }
}

pub fn worker_step(ticks_left: u64, ticks: u64, sync_requested: bool, mark_read_requested: bool) -> (r:
    WorkerStep)
    ensures
        r == worker_next(ticks_left, ticks, sync_requested, mark_read_requested),
{
    if ticks_left == 0 {
        WorkerStep {
            action: WorkerAction::Round { mark_read: mark_read_requested },
            ticks_left: ticks,
            sync_served: false,
        }
    } else if sync_requested {
        WorkerStep {
            action: WorkerAction::Round { mark_read: mark_read_requested },
            ticks_left: ticks,
            sync_served: true,
        }
    } else {
        WorkerStep {
            action: WorkerAction::Wait { mark_read: mark_read_requested },
            ticks_left: ticks_left - 1,
            sync_served: false,
        }
    }
}

/// The ticks left after `n` quiet steps (no request) from `ticks_left`.
pub open spec fn quiet_steps(ticks_left: u64, ticks: u64, n: nat) -> WorkerStep
    decreases n,
{
    if n <= 1 {
        worker_next(ticks_left, ticks, false, false)
    } else {
        let prev = quiet_steps(ticks_left, ticks, (n - 1) as nat);
        worker_next(prev.ticks_left, ticks, false, false)
    }
}

proof fn lemma_quiet_waits(ticks: u64, n: nat)
    requires
        1 <= n <= ticks,
    ensures
        quiet_steps(ticks, ticks, n).action == (WorkerAction::Wait { mark_read: false }),
        quiet_steps(ticks, ticks, n).ticks_left == ticks - n,
    decreases n,
{
    if n > 1 {
        lemma_quiet_waits(ticks, (n - 1) as nat);
    }
}

/// Without requests, a round is followed by exactly `ticks` ticks of
/// waiting and then the next round.
pub proof fn rounds_are_ticks_apart(ticks: u64)
    requires
        ticks >= 1,
    ensures
        forall|n: nat|
            1 <= n <= ticks ==> (#[trigger] quiet_steps(ticks, ticks, n)).action == (WorkerAction::Wait {
                mark_read: false,
            }),
        quiet_steps(ticks, ticks, (ticks + 1) as nat).action == (WorkerAction::Round {
            mark_read: false,
        }),
{
    assert forall|n: nat| 1 <= n <= ticks implies (#[trigger] quiet_steps(
        ticks,
        ticks,
        n,
    )).action == (WorkerAction::Wait { mark_read: false }) by {
        lemma_quiet_waits(ticks, n);
    }
    lemma_quiet_waits(ticks, ticks as nat);
}

} // verus!
