//! State of the `/power` MiniPower methodology and verification modal.

use vstd::prelude::*;
use crate::records::VerificationReport;

verus! {

/// Active tab within the `/power` MiniPower modal.
#[derive(Debug, Clone, Copy, PartialEq, Eq, Structural)]
pub enum MiniPowerTab {
    Pillars,
    RedFlags,
    VerificationBarrier,
}

impl MiniPowerTab {
    /// Position of the tab in `all()`.
    pub open spec fn index_spec(self) -> int {
        match self {
            MiniPowerTab::Pillars => 0,
            MiniPowerTab::RedFlags => 1,
            MiniPowerTab::VerificationBarrier => 2,
        }
    }

    /// The tab that follows `self`, wrapping around.
    pub open spec fn next_spec(self) -> MiniPowerTab {
        match self {
            MiniPowerTab::Pillars => MiniPowerTab::RedFlags,
            MiniPowerTab::RedFlags => MiniPowerTab::VerificationBarrier,
            MiniPowerTab::VerificationBarrier => MiniPowerTab::Pillars,
        }
    }

    /// The tab that precedes `self`, wrapping around.
    pub open spec fn prev_spec(self) -> MiniPowerTab {
        match self {
            MiniPowerTab::Pillars => MiniPowerTab::VerificationBarrier,
            MiniPowerTab::RedFlags => MiniPowerTab::Pillars,
            MiniPowerTab::VerificationBarrier => MiniPowerTab::RedFlags,
        }
    }

    pub fn all() -> (r: &'static [MiniPowerTab])
        ensures
            r@ == seq![
                MiniPowerTab::Pillars,
                MiniPowerTab::RedFlags,
                MiniPowerTab::VerificationBarrier,
            ],
    {
        &[MiniPowerTab::Pillars, MiniPowerTab::RedFlags, MiniPowerTab::VerificationBarrier]
    }

    pub fn title(&self) -> (r: &'static str)
        ensures
            r@ == (match *self {
                MiniPowerTab::Pillars => "Pillars & Methodology"@,
                MiniPowerTab::RedFlags => "Anti-Rationalization"@,
                MiniPowerTab::VerificationBarrier => "Verification Barrier"@,
            }),
    {
        match self {
            MiniPowerTab::Pillars => "Pillars & Methodology",
            MiniPowerTab::RedFlags => "Anti-Rationalization",
            MiniPowerTab::VerificationBarrier => "Verification Barrier",
        }
    }

    pub fn next(&self) -> (r: Self)
        ensures
            r == self.next_spec(),
    {
        match self {
            MiniPowerTab::Pillars => MiniPowerTab::RedFlags,
            MiniPowerTab::RedFlags => MiniPowerTab::VerificationBarrier,
            MiniPowerTab::VerificationBarrier => MiniPowerTab::Pillars,
        }
    }

    pub fn prev(&self) -> (r: Self)
        ensures
            r == self.prev_spec(),
    {
        match self {
            MiniPowerTab::Pillars => MiniPowerTab::VerificationBarrier,
            MiniPowerTab::RedFlags => MiniPowerTab::Pillars,
            MiniPowerTab::VerificationBarrier => MiniPowerTab::RedFlags,
        }
    }
}

/// Moving to the previous tab undoes moving to the next one and vice versa; `next` walks the
/// tabs in the order of `all()` and comes back after all of them.
pub proof fn lemma_minipower_tab_cycle(t: MiniPowerTab)
    ensures
        t.next_spec().prev_spec() == t,
        t.prev_spec().next_spec() == t,
        t.next_spec().index_spec() == (t.index_spec() + 1) % 3,
        t.next_spec().next_spec().next_spec() == t,
{
}

/// State for the interactive `/power` modal dialog.
#[derive(Debug, Clone)]
pub struct MiniPowerModalState {
    pub workspace_root: String,
    pub active_tab: MiniPowerTab,
    pub selected_index: usize,
    pub scroll_offset: usize,
    pub verification_report: Option<VerificationReport>,
    pub is_evaluating: bool,
}

impl MiniPowerModalState {
    pub fn new(workspace: &str) -> (r: Self)
        ensures
            r.workspace_root@ == workspace@,
            r.active_tab == MiniPowerTab::Pillars,
            r.selected_index == 0,
            r.scroll_offset == 0,
            r.verification_report is None,
            !r.is_evaluating,
    {
        Self {
            workspace_root: workspace.to_owned(),
            active_tab: MiniPowerTab::Pillars,
            selected_index: 0,
            scroll_offset: 0,
            verification_report: None,
            is_evaluating: false,
        }
    }

    pub fn next_tab(&mut self)
        ensures
            final(self).active_tab == old(self).active_tab.next_spec(),
            final(self).scroll_offset == 0,
            final(self).selected_index == 0,
            final(self).workspace_root == old(self).workspace_root,
            final(self).verification_report == old(self).verification_report,
            final(self).is_evaluating == old(self).is_evaluating,
    {
        self.active_tab = self.active_tab.next();
        self.scroll_offset = 0;
        self.selected_index = 0;
    }

    pub fn prev_tab(&mut self)
        ensures
            final(self).active_tab == old(self).active_tab.prev_spec(),
            final(self).scroll_offset == 0,
            final(self).selected_index == 0,
            final(self).workspace_root == old(self).workspace_root,
            final(self).verification_report == old(self).verification_report,
            final(self).is_evaluating == old(self).is_evaluating,
    {
        self.active_tab = self.active_tab.prev();
        self.scroll_offset = 0;
        self.selected_index = 0;
    }

    pub fn scroll_up(&mut self)
        ensures
            final(self).scroll_offset == if old(self).scroll_offset > 0 {
                old(self).scroll_offset - 1
            } else {
                0
            },
            *final(self) == (MiniPowerModalState { scroll_offset: final(self).scroll_offset, ..*old(self) }),
    {
        self.scroll_offset = self.scroll_offset.saturating_sub(1);
    }

    pub fn scroll_down(&mut self)
        ensures
            final(self).scroll_offset == if old(self).scroll_offset < usize::MAX {
                old(self).scroll_offset + 1
            } else {
                usize::MAX as int
            },
            *final(self) == (MiniPowerModalState { scroll_offset: final(self).scroll_offset, ..*old(self) }),
    {
        self.scroll_offset = self.scroll_offset.saturating_add(1);
    }

    pub fn set_report(&mut self, report: VerificationReport)
        ensures
            final(self).verification_report == Some(report),
            !final(self).is_evaluating,
            final(self).active_tab == old(self).active_tab,
            final(self).selected_index == old(self).selected_index,
            final(self).scroll_offset == old(self).scroll_offset,
            final(self).workspace_root == old(self).workspace_root,
    {
        self.verification_report = Some(report);
        self.is_evaluating = false;
    }
}

/// Scrolling down one line and back up one line restores the scroll offset (below the
/// saturation bound).
pub proof fn lemma_minipower_scroll_roundtrip(offset: usize)
    requires
        offset < usize::MAX,
    ensures
        ({
            let down: int = offset + 1;
            (if down > 0 { down - 1 } else { 0 }) == offset
        }),
{
}

} // verus!
