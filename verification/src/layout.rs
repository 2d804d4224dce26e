//! Viewport layout classification.
//!
//! The page renders one of two mutually exclusive layouts. The choice is made
//! exactly once, from the viewport width read at mount time: widths strictly
//! below [`MOBILE_BREAKPOINT`] pixels select the mobile layout, all others the
//! desktop layout. The choice is never re-evaluated afterwards, even if the
//! viewport is resized; [`LayoutState`] makes that write-once discipline
//! explicit.

use vstd::prelude::*;

verus! {

/// Widths strictly below this many pixels render the mobile layout
/// (the mascot's width plus its horizontal translation).
pub const MOBILE_BREAKPOINT: u64 = 755;

/// Which of the two layouts is rendered.
#[derive(Clone, Copy, Debug, PartialEq, Eq, Structural)]
pub enum LayoutMode {
    Desktop,
    Mobile,
}

/// The layout that a viewport of width `width` (in whole pixels) selects.
pub open spec fn mode_for_width(width: u64) -> LayoutMode {
    if width < MOBILE_BREAKPOINT {
        LayoutMode::Mobile
    } else {
        LayoutMode::Desktop
    }
}

/// Classify a viewport width, read once at mount.
pub fn classify_width(width: u64) -> (mode: LayoutMode)
    ensures
        mode == mode_for_width(width),
        mode == LayoutMode::Mobile <==> width < MOBILE_BREAKPOINT,
{
    if width < MOBILE_BREAKPOINT {
        LayoutMode::Mobile
    } else {
        LayoutMode::Desktop
    }
}

/// Write-once layout choice.
///
/// Starts out as `Desktop` (the default that also covers a failed width
/// read); the first `initialize` call decides the mode, and every later call
/// leaves the state untouched.
pub struct LayoutState {
    mode: LayoutMode,
    decided: bool,
}

impl LayoutState {
    /// The rendered mode.
    pub closed spec fn spec_mode(&self) -> LayoutMode {
        self.mode
    }

    /// Whether the one-shot classification has already run.
    pub closed spec fn spec_decided(&self) -> bool {
        self.decided
    }

    /// A fresh component renders the desktop layout until classified.
    pub fn new() -> (s: LayoutState)
        ensures
            s.spec_mode() == LayoutMode::Desktop,
            !s.spec_decided(),
    {
        LayoutState { mode: LayoutMode::Desktop, decided: false }
    }

    /// One-shot classification from the viewport width read at mount.
    ///
    /// `width` is `None` when the width could not be read; that still counts
    /// as the one permitted decision and leaves the default `Desktop` mode.
    /// Once a decision has been made, further calls change nothing: the mode
    /// is write-once.
    pub fn initialize(&mut self, width: Option<u64>)
        ensures
            final(self).spec_decided(),
            old(self).spec_decided() ==> *final(self) == *old(self),
            !old(self).spec_decided() ==> final(self).spec_mode() == (match width {
                Some(w) => mode_for_width(w),
                None => old(self).spec_mode(),
            }),
    {
        if !self.decided {
            if let Some(w) = width {
                self.mode = classify_width(w);
            }
            self.decided = true;
        }
    }

    /// The mode currently rendered.
    pub fn mode(&self) -> (mode: LayoutMode)
        ensures
            mode == self.spec_mode(),
    {
        self.mode
    }
}

} // verus!
