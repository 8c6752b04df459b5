use vstd::prelude::*;

use crate::audio::spec_age_ms;
use crate::text::chars_equal;

verus! {

/// The page the interface shows. `Main` is the ordinary player list (named
/// "default" in the settings file); `Sink` is reserved for an output
/// selector and is tracked as a flag only.
#[derive(Clone, Copy, PartialEq, Eq, Structural, Debug)]
pub enum Page {
    Main,
    Sink,
}

/// Rows of the player list that fit on screen at once.
pub const DISPLAY_LIMIT: usize = 16;

/// The roster is re-enumerated at most once per this many milliseconds,
/// however often the render loop spins.
pub const ROSTER_REFRESH_MS: u64 = 1000;

/// Selection and scroll state of the player list.
#[derive(Clone, Copy, PartialEq, Eq, Structural, Debug)]
pub struct NavState {
    pub selected_index: usize,
    pub scroll_offset: usize,
    pub page: Page,
}

/// Where the selection lands after a roster of `roster_len` players is
/// imposed on it: clamped to the last player when it points past the end
/// of a non-empty roster, untouched otherwise.
pub open spec fn spec_clamped_index(sel: int, roster_len: int) -> int {
    if roster_len > 0 && sel >= roster_len {
        roster_len - 1
    } else {
        sel
    }
}

/// Where the scroll offset lands so that the selected row is inside the
/// window of `limit` rows starting at the offset.
pub open spec fn spec_reconciled_scroll(sel: int, scroll: int, limit: int) -> int {
    if sel < scroll {
        sel
    } else if sel >= scroll + limit {
        sel - limit + 1
    } else {
        scroll
    }
}

/// One move-up step: down by one, stopping at the first row.
pub open spec fn spec_moved_up(sel: int) -> int {
    if sel > 0 {
        sel - 1
    } else {
        sel
    }
}

/// One move-down step: up by one, stopping at the last row of a roster of
/// `roster_len` players (and doing nothing on an empty roster).
pub open spec fn spec_moved_down(sel: int, roster_len: int) -> int {
    if roster_len > 0 && sel + 1 < roster_len {
        sel + 1
    } else {
        sel
    }
}

impl NavState {
    /// The navigation invariant: on a non-empty roster the selection is a
    /// real index, and it lies inside the visible window.
    pub open spec fn valid_for(self, roster_len: int, display_limit: int) -> bool {
        &&& roster_len > 0 ==> (self.selected_index as int) < roster_len
        &&& self.scroll_offset <= self.selected_index < self.scroll_offset + display_limit
    }

    /// Fresh navigation state: first row selected, window at the top.
    pub fn new(page: Page) -> (n: NavState)
        ensures
            n.selected_index == 0,
            n.scroll_offset == 0,
            n.page == page,
    {
        NavState { selected_index: 0, scroll_offset: 0, page }
    }

    /// Keep the selection meaningful after the roster changed size.
    pub fn clamp_selection(&mut self, roster_len: usize)
        ensures
            final(self).selected_index == spec_clamped_index(
                old(self).selected_index as int,
                roster_len as int,
            ),
            final(self).scroll_offset == old(self).scroll_offset,
            final(self).page == old(self).page,
    {
        if roster_len > 0 && self.selected_index >= roster_len {
            self.selected_index = roster_len - 1;
        }
    }

    /// Slide the window so the selected row is visible again.
    pub fn reconcile_scroll(&mut self, display_limit: usize)
        requires
            display_limit >= 1,
        ensures
            final(self).scroll_offset == spec_reconciled_scroll(
                old(self).selected_index as int,
                old(self).scroll_offset as int,
                display_limit as int,
            ),
            final(self).selected_index == old(self).selected_index,
            final(self).page == old(self).page,
            final(self).scroll_offset <= final(self).selected_index < final(self).scroll_offset
                + display_limit,
    {
        if self.selected_index < self.scroll_offset {
            self.scroll_offset = self.selected_index;
        } else if self.selected_index - self.scroll_offset >= display_limit {
            self.scroll_offset = self.selected_index - display_limit + 1;
        }
    }

    /// The per-frame reconciliation: clamp the selection to the roster,
    /// then scroll the window onto it. Afterwards the navigation invariant
    /// holds.
    pub fn reconcile(&mut self, roster_len: usize, display_limit: usize)
        requires
            display_limit >= 1,
        ensures
            final(self).selected_index == spec_clamped_index(
                old(self).selected_index as int,
                roster_len as int,
            ),
            final(self).scroll_offset == spec_reconciled_scroll(
                spec_clamped_index(old(self).selected_index as int, roster_len as int),
                old(self).scroll_offset as int,
                display_limit as int,
            ),
            final(self).page == old(self).page,
            final(self).valid_for(roster_len as int, display_limit as int),
    {
        self.clamp_selection(roster_len);
        self.reconcile_scroll(display_limit);
    }

    /// Move the selection one row up, saturating at the top.
    pub fn move_up(&mut self)
        ensures
            final(self).selected_index == spec_moved_up(old(self).selected_index as int),
            final(self).scroll_offset == old(self).scroll_offset,
            final(self).page == old(self).page,
    {
        if self.selected_index > 0 {
            self.selected_index = self.selected_index - 1;
        }
    }

    /// Move the selection one row down, saturating at the last player.
    pub fn move_down(&mut self, roster_len: usize)
        ensures
            final(self).selected_index == spec_moved_down(
                old(self).selected_index as int,
                roster_len as int,
            ),
            final(self).scroll_offset == old(self).scroll_offset,
            final(self).page == old(self).page,
    {
        if roster_len > 0 && self.selected_index < roster_len - 1 {
            self.selected_index = self.selected_index + 1;
        }
    }

    /// Toggle between the two pages.
    pub fn change_page(&mut self)
        ensures
            final(self).page == (if old(self).page is Main {
                Page::Sink
            } else {
                Page::Main
            }),
            final(self).selected_index == old(self).selected_index,
            final(self).scroll_offset == old(self).scroll_offset,
    {
        self.page = match self.page {
            Page::Main => Page::Sink,
            Page::Sink => Page::Main,
        };
    }
}

/// The page a settings name picks: exactly "sink" opens the sink page,
/// anything else the ordinary list.
pub open spec fn spec_page_of(name: Seq<char>) -> Page {
    if name == "sink"@ {
        Page::Sink
    } else {
        Page::Main
    }
}

/// Resolve the configured start page name.
pub fn page_from_string(name: &str) -> (p: Page)
    ensures
        p == spec_page_of(name@),
{
    if chars_equal(name, "sink") {
        Page::Sink
    } else {
        Page::Main
    }
}

/// True when the roster's re-enumeration cadence has elapsed and the list
/// of players should be fetched anew.
pub fn roster_refresh_due(last_refresh_ms: u64, now_ms: u64) -> (r: bool)
    ensures
        r == (spec_age_ms(last_refresh_ms, now_ms) >= ROSTER_REFRESH_MS),
{
    let age = if now_ms >= last_refresh_ms {
        now_ms - last_refresh_ms
    } else {
        0
    };
    age >= ROSTER_REFRESH_MS
}

/// The selection after a whole run of move commands (`true` is a move up,
/// `false` a move down).
pub open spec fn spec_apply_moves(sel: int, roster_len: int, moves: Seq<bool>) -> int
    decreases moves.len(),
{
    if moves.len() == 0 {
        sel
    } else {
        let next = if moves[0] {
            spec_moved_up(sel)
        } else {
            spec_moved_down(sel, roster_len)
        };
        spec_apply_moves(next, roster_len, moves.drop_first())
    }
}

/// Law: however long a run of move-up / move-down commands acts on a
/// selection inside a non-empty roster, the selection never leaves
/// `[0, roster_len)`.
pub proof fn lemma_moves_stay_bounded(sel: int, roster_len: int, moves: Seq<bool>)
    requires
        roster_len > 0,
        0 <= sel < roster_len,
    ensures
        0 <= spec_apply_moves(sel, roster_len, moves) < roster_len,
    decreases moves.len(),
{
    if moves.len() > 0 {
        let next = if moves[0] {
            spec_moved_up(sel)
        } else {
            spec_moved_down(sel, roster_len)
        };
        lemma_moves_stay_bounded(next, roster_len, moves.drop_first());
    }
}

} // verus!
