use vstd::prelude::*;
use crate::text::{has_prefix, str_starts_with};

verus! {

/// How a line of the changelog or the credits is laid out.
#[derive(Clone, Copy, Debug, PartialEq, Eq, Structural)]
pub enum LineKind {
    /// A section header: the line starts with "---".
    Header,
    /// An empty line: a small vertical gap.
    Spacer,
    /// Any other line.
    Body,
}

pub open spec fn spec_line_kind(line: Seq<char>) -> LineKind {
    if line.len() == 0 {
        LineKind::Spacer
    } else if has_prefix(line, "---"@) {
        LineKind::Header
    } else {
        LineKind::Body
    }
}

pub fn line_kind(line: &str) -> (r: LineKind)
    ensures
        r == spec_line_kind(line@),
{
    if line.is_empty() {
        LineKind::Spacer
    } else if str_starts_with(line, "---") {
        LineKind::Header
    } else {
        LineKind::Body
    }
}

/// What a key press did to an overlay panel.
#[derive(Clone, Copy, Debug, PartialEq, Eq, Structural)]
pub enum OverlayAction {
    /// Nothing to do this frame.
    Unchanged,
    /// The panel was opened or closed by its own key.
    Toggled,
    /// Escape closed the open panel and rewound its scroll.
    Closed,
}

/// The toggle key flips the panel; Escape only closes an open panel.
/// When both are pressed on a closed panel nothing happens.
pub open spec fn spec_overlay_action(open: bool, toggle: bool, close: bool) -> OverlayAction {
    if !toggle && !close {
        OverlayAction::Unchanged
    } else if close && !open {
        OverlayAction::Unchanged
    } else if toggle {
        OverlayAction::Toggled
    } else {
        OverlayAction::Closed
    }
}

pub open spec fn open_after(open: bool, a: OverlayAction) -> bool {
    match a {
        OverlayAction::Unchanged => open,
        OverlayAction::Toggled => !open,
        OverlayAction::Closed => false,
    }
}

pub fn overlay_action(open: bool, toggle: bool, close: bool) -> (r: OverlayAction)
    ensures
        r == spec_overlay_action(open, toggle, close),
{
    if !toggle && !close {
        OverlayAction::Unchanged
    } else if close && !open {
        OverlayAction::Unchanged
    } else if toggle {
        OverlayAction::Toggled
    } else {
        OverlayAction::Closed
    }
}

/// Height of one changelog row, in pixels.
pub const CHANGELOG_ROW_PX: u32 = 24;
/// How far one arrow press scrolls the changelog, in pixels.
pub const CHANGELOG_SCROLL_STEP: u32 = 30;
/// The visible height of the changelog column, in pixels.
pub const CHANGELOG_VISIBLE_PX: u32 = 320;

/// How far the changelog can scroll with `rows` lines of content.
pub open spec fn max_scroll(rows: int) -> int {
    if rows * CHANGELOG_ROW_PX > CHANGELOG_VISIBLE_PX {
        rows * CHANGELOG_ROW_PX - CHANGELOG_VISIBLE_PX
    } else {
        0
    }
}

/// The changelog panel: open or closed, and scrolled by whole pixels.
#[derive(Clone, Copy, Debug, PartialEq, Eq, Structural)]
pub struct ChangelogState {
    pub open: bool,
    pub scroll_y: u64,
}

impl ChangelogState {
    pub fn new() -> (r: ChangelogState)
        ensures
            r == (ChangelogState { open: false, scroll_y: 0 }),
    {
        ChangelogState { open: false, scroll_y: 0 }
    }

    /// The ";" key toggles the panel; Escape closes it and rewinds it.
    pub fn handle_keys(&mut self, toggle: bool, close: bool) -> (r: OverlayAction)
        ensures
            r == spec_overlay_action(old(self).open, toggle, close),
            final(self).open == open_after(old(self).open, r),
            final(self).scroll_y == if r == OverlayAction::Closed { 0 } else { old(self).scroll_y },
    {
        let a = overlay_action(self.open, toggle, close);
        match a {
            OverlayAction::Unchanged => {},
            OverlayAction::Toggled => {
                self.open = !self.open;
            },
            OverlayAction::Closed => {
                self.open = false;
                self.scroll_y = 0;
            },
        }
        a
    }

    /// The arrow keys scroll an open panel by one step, Down first, within
    /// the content height of `rows` lines.
    pub fn scroll(&mut self, rows: u32, down: bool, up: bool)
        ensures
            final(self).open == old(self).open,
            final(self).scroll_y == if !old(self).open {
                old(self).scroll_y as int
            } else {
                let s1 = if down {
                    if old(self).scroll_y + CHANGELOG_SCROLL_STEP < max_scroll(rows as int) {
                        old(self).scroll_y + CHANGELOG_SCROLL_STEP
                    } else {
                        max_scroll(rows as int)
                    }
                } else {
                    old(self).scroll_y as int
                };
                if up {
                    if s1 > CHANGELOG_SCROLL_STEP { s1 - CHANGELOG_SCROLL_STEP } else { 0 }
                } else {
                    s1
                }
            },
    {
        if !self.open {
            return;
        }
        let content: u64 = rows as u64 * CHANGELOG_ROW_PX as u64;
        let visible: u64 = CHANGELOG_VISIBLE_PX as u64;
        let max: u64 = if content > visible { content - visible } else { 0 };
        let step: u64 = CHANGELOG_SCROLL_STEP as u64;
        if down {
            self.scroll_y = if self.scroll_y < max && max - self.scroll_y > step { self.scroll_y + step } else { max };
        }
        if up {
            self.scroll_y = if self.scroll_y > step { self.scroll_y - step } else { 0 };
        }
    }
}

/// The credits panel's open flag. It scrolls by itself over time, which
/// the caller keeps.
#[derive(Clone, Copy, Debug, PartialEq, Eq, Structural)]
pub struct CreditsState {
    pub open: bool,
}

impl CreditsState {
    pub fn new() -> (r: CreditsState)
        ensures
            !r.open,
    {
        CreditsState { open: false }
    }

    /// K without Shift toggles the credits (Shift+K belongs to another
    /// feature); Escape closes them. `Closed` asks the caller to rewind the
    /// scroll.
    pub fn handle_keys(&mut self, shift: bool, k: bool, escape: bool) -> (r: OverlayAction)
        ensures
            r == spec_overlay_action(old(self).open, !shift && k, escape),
            final(self).open == open_after(old(self).open, r),
    {
        let a = overlay_action(self.open, !shift && k, escape);
        match a {
            OverlayAction::Unchanged => {},
            OverlayAction::Toggled => {
                self.open = !self.open;
            },
            OverlayAction::Closed => {
                self.open = false;
            },
        }
        a
    }
}

/// Toggling twice leaves a panel as it was, and Escape always leaves it
/// closed.
pub proof fn lemma_overlay_toggle(open: bool)
    ensures
        open_after(open_after(open, spec_overlay_action(open, true, false)),
            spec_overlay_action(open_after(open, spec_overlay_action(open, true, false)), true, false)) == open,
        open_after(open, spec_overlay_action(open, false, true)) == false,
{
}

} // verus!
