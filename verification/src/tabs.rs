//! The tab view: which canvas was active before the current one, when the
//! state of two tabs must be synchronised, what closing a tab asks of the
//! user, and which entries of a tab's context menu are enabled.
//!
//! Tab pages are known here by an identifier that the caller chooses and
//! keeps distinct for distinct live pages.
use vstd::prelude::*;

verus! {

/// Remembers the tab page that was active last. The page is held weakly
/// by the caller: it may have been destroyed since, which the caller
/// reports as `previous_alive` with each event.
#[derive(Clone, Copy, Debug, PartialEq, Eq, Structural)]
pub struct ActiveTabTracker {
    previous: Option<u64>,
}

/// The tab page recorded as active before, if it is still alive.
pub open spec fn live_previous(recorded: Option<u64>, previous_alive: bool) -> Option<u64> {
    if previous_alive {
        recorded
    } else {
        None
    }
}

/// The page whose state is carried over to `active` when `active` is
/// selected: the previously active page, if it is alive and another page.
pub open spec fn sync_source(recorded: Option<u64>, previous_alive: bool, active: u64) -> Option<u64> {
    match live_previous(recorded, previous_alive) {
        Some(p) => if p != active {
            Some(p)
        } else {
            None
        },
        None => None,
    }
}

/// The recorded page after `page` was detached from the tab view: the
/// record is cleared when it names `page` or a page that is gone.
pub open spec fn after_detach(recorded: Option<u64>, previous_alive: bool, page: u64) -> Option<u64> {
    match live_previous(recorded, previous_alive) {
        Some(p) => if p == page {
            None
        } else {
            recorded
        },
        None => None,
    }
}

impl ActiveTabTracker {
    /// The page recorded as active last.
    pub closed spec fn recorded(self) -> Option<u64> {
        self.previous
    }

    /// A tracker that has seen no active page yet.
    pub fn new() -> (res: Self)
        ensures
            res.recorded() is None,
    {
        ActiveTabTracker { previous: None }
    }

    /// The page recorded as active last.
    pub fn previous(&self) -> (res: Option<u64>)
        ensures
            res == self.recorded(),
    {
        self.previous
    }

    /// Handles the selection of `active` as the current page. Returns the
    /// page whose state must be synchronised into `active`: the page that
    /// was active before, when it is still alive and is another page.
    /// Afterwards `active` is recorded as the page active last.
    pub fn on_page_selected(&mut self, active: u64, previous_alive: bool) -> (sync_from: Option<u64>)
        ensures
            sync_from == sync_source(old(self).recorded(), previous_alive, active),
            final(self).recorded() == Some(active),
            old(self).recorded() matches Some(p) ==> (previous_alive && p != active ==> sync_from
                == Some(p)),
            (old(self).recorded() is None || !previous_alive || old(self).recorded() == Some(active))
                ==> sync_from is None,
    {
        let sync_from = match self.previous {
            Some(p) => {
                if previous_alive && p != active {
                    Some(p)
                } else {
                    None
                }
            },
            None => None,
        };
        self.previous = Some(active);
        sync_from
    }

    /// Handles the detaching of `page` from the tab view: when the page
    /// recorded as active last is `page`, or is gone, the record is
    /// cleared; otherwise it is kept.
    pub fn on_page_detached(&mut self, page: u64, previous_alive: bool)
        ensures
            final(self).recorded() == after_detach(old(self).recorded(), previous_alive, page),
    {
        match self.previous {
            Some(p) => {
                if !previous_alive || p == page {
                    self.previous = None;
                }
            },
            None => {},
        }
    }
}

/// The first step of closing a tab.
#[derive(Clone, Copy, Debug, PartialEq, Eq, Structural)]
pub enum CloseTabStep {
    /// The canvas has unsaved changes: ask the user, and finish closing
    /// with the answer.
    AskUser,
    /// Nothing would be lost: finish closing, confirmed.
    CloseConfirmed,
}

/// Decides how a request to close a tab proceeds: a canvas with unsaved
/// changes needs the user's confirmation; any other closes at once.
pub fn close_tab_step(unsaved_changes: bool) -> (res: CloseTabStep)
    ensures
        res == (if unsaved_changes {
            CloseTabStep::AskUser
        } else {
            CloseTabStep::CloseConfirmed
        }),
{
    if unsaved_changes {
        CloseTabStep::AskUser
    } else {
        CloseTabStep::CloseConfirmed
    }
}

/// Which entries of a tab's context menu are enabled.
#[derive(Clone, Copy, Debug, PartialEq, Eq, Structural)]
pub struct TabMenuState {
    pub move_left: bool,
    pub move_right: bool,
    pub close: bool,
}

/// The context menu of the tab at `position` among `n_pages` tabs: it can
/// move left unless it is first, move right unless it is last, and be
/// closed unless it is the only tab.
pub fn tab_menu_state(n_pages: i32, position: i32) -> (res: TabMenuState)
    ensures
        res.move_left == (position > 0),
        res.move_right == (position + 1 < n_pages),
        res.close == (n_pages > 1),
{
    let next: i64 = position as i64 + 1;
    TabMenuState { move_left: position > 0, move_right: next < n_pages as i64, close: n_pages > 1 }
}

/// A page is never synchronised with itself, and the page synchronised
/// from is always the live page recorded as active before.
pub proof fn lemma_sync_source_is_live_other_page(recorded: Option<u64>, previous_alive: bool, active: u64)
    ensures
        sync_source(recorded, previous_alive, active) != Some(active),
        sync_source(recorded, previous_alive, active) matches Some(p) ==> previous_alive && recorded
            == Some(p),
{
}

/// Switching to another page always carries over the state of the page
/// that was active before, while that page is alive, whatever the two
/// identifiers are; with no live previous page nothing is carried over.
pub proof fn lemma_switch_syncs_from_previous_page(previous: u64, active: u64, previous_alive: bool)
    ensures
        previous != active ==> sync_source(Some(previous), true, active) == Some(previous),
        sync_source(Some(previous), false, active) is None,
        sync_source(None, previous_alive, active) is None,
{
}

/// Selecting the same page twice in a row synchronises nothing the second
/// time: the first selection records it.
pub proof fn lemma_reselect_syncs_nothing(active: u64, previous_alive: bool)
    ensures
        sync_source(Some(active), previous_alive, active) is None,
{
}

/// Detaching the page remembered as active forgets it; detaching any other
/// page keeps the record of a live page.
pub proof fn lemma_detach_forgets_only_that_page(recorded: u64, page: u64)
    ensures
        after_detach(Some(recorded), true, recorded) is None,
        page != recorded ==> after_detach(Some(recorded), true, page) == Some(recorded),
        after_detach(Some(recorded), false, page) is None,
{
}

/// A lone tab can be neither moved nor closed; with two tabs or more, a tab
/// can always be closed and moved one way or the other.
pub proof fn lemma_tab_menu_bounds(n_pages: i32, position: i32)
    requires
        0 <= position < n_pages,
    ensures
        n_pages == 1 ==> !(position > 0) && !(position + 1 < n_pages) && !(n_pages > 1),
        n_pages >= 2 ==> (n_pages > 1) && ((position > 0) || (position + 1 < n_pages)),
{
}

} // verus!
