//! UI layout geometry helpers for centering popups and modals.

use vstd::prelude::*;
use ratatui::layout::{Constraint, Direction, Layout};

verus! {

/// A rectangle of terminal cells.
#[derive(Debug, Clone, Copy, PartialEq, Eq, Structural)]
pub struct Rect {
    pub x: u16,
    pub y: u16,
    pub width: u16,
    pub height: u16,
}

impl Rect {
    pub fn new(x: u16, y: u16, width: u16, height: u16) -> (r: Rect)
        ensures
            r == (Rect { x, y, width, height }),
    {
        Rect { x, y, width, height }
    }
}

/// The middle chunk that ratatui's `Layout` produces when it splits the rectangle
/// `(x, y, width, height)` along one axis (vertically when `vertical`) into three
/// `Constraint::Percentage` chunks of `margin_pct`, `middle_pct` and `margin_pct`.
pub uninterp spec fn percent_layout_middle(
    x: u16,
    y: u16,
    width: u16,
    height: u16,
    vertical: bool,
    margin_pct: u16,
    middle_pct: u16,
) -> Rect;

/// `ratatui::layout::Layout::split` with three percentage constraints; returns the middle
/// chunk, the name `percent_layout_middle` of its arguments.
#[verifier::external_body]
fn split_percent_middle(r: Rect, vertical: bool, margin_pct: u16, middle_pct: u16) -> (m: Rect)
    ensures
        m == percent_layout_middle(r.x, r.y, r.width, r.height, vertical, margin_pct, middle_pct),
{
    let direction = if vertical { Direction::Vertical } else { Direction::Horizontal };
    let chunks = Layout::default().direction(direction).constraints(
        [
            Constraint::Percentage(margin_pct),
            Constraint::Percentage(middle_pct),
            Constraint::Percentage(margin_pct),
        ],
    ).split(ratatui::layout::Rect::new(r.x, r.y, r.width, r.height));
    let c = chunks[1];
    Rect { x: c.x, y: c.y, width: c.width, height: c.height }
}

/// Centered sub-rectangle of `r` taking `percent_x` / `percent_y` of its width / height.
pub open spec fn centered_rect_spec(percent_x: u16, percent_y: u16, r: Rect) -> Rect {
    let margin_y: u16 = (if percent_y <= 100 { 100 - percent_y } else { 0 }) as u16 / 2;
    let margin_x: u16 = (if percent_x <= 100 { 100 - percent_x } else { 0 }) as u16 / 2;
    let py: u16 = if percent_y < 100 { percent_y } else { 100 };
    let px: u16 = if percent_x < 100 { percent_x } else { 100 };
    let v = percent_layout_middle(r.x, r.y, r.width, r.height, true, margin_y, py);
    percent_layout_middle(v.x, v.y, v.width, v.height, false, margin_x, px)
}

/// Computes a centered sub-rectangle using percentage constraints.
pub fn centered_rect(percent_x: u16, percent_y: u16, r: Rect) -> (c: Rect)
    ensures
        c == centered_rect_spec(percent_x, percent_y, r),
{
    let margin_y = 100u16.saturating_sub(percent_y) / 2;
    let margin_x = 100u16.saturating_sub(percent_x) / 2;
    let py = if percent_y < 100 { percent_y } else { 100 };
    let px = if percent_x < 100 { percent_x } else { 100 };
    let v = split_percent_middle(r, true, margin_y, py);
    split_percent_middle(v, false, margin_x, px)
}

/// Centered sub-rectangle of exact size, clamped to leave a one-cell border.
pub open spec fn centered_rect_exact_spec(width: u16, height: u16, r: Rect) -> Rect {
    let avail_w: int = if r.width >= 2 { r.width - 2 } else { 0 };
    let avail_h: int = if r.height >= 2 { r.height - 2 } else { 0 };
    let w: int = if width < avail_w { width as int } else { avail_w };
    let h: int = if height < avail_h { height as int } else { avail_h };
    Rect {
        x: (r.x + (r.width - w) / 2) as u16,
        y: (r.y + (r.height - h) / 2) as u16,
        width: w as u16,
        height: h as u16,
    }
}

/// The centered position of `centered_rect_exact` is representable in `u16`.
pub open spec fn centered_rect_exact_fits(width: u16, height: u16, r: Rect) -> bool {
    let avail_w: int = if r.width >= 2 { r.width - 2 } else { 0 };
    let avail_h: int = if r.height >= 2 { r.height - 2 } else { 0 };
    let w: int = if width < avail_w { width as int } else { avail_w };
    let h: int = if height < avail_h { height as int } else { avail_h };
    r.x + (r.width - w) / 2 <= u16::MAX && r.y + (r.height - h) / 2 <= u16::MAX
}

/// Computes a centered sub-rectangle using exact width and height in terminal cells.
pub fn centered_rect_exact(width: u16, height: u16, r: Rect) -> (c: Rect)
    requires
        centered_rect_exact_fits(width, height, r),
    ensures
        c == centered_rect_exact_spec(width, height, r),
{
    let w = if width < r.width.saturating_sub(2) { width } else { r.width.saturating_sub(2) };
    let h = if height < r.height.saturating_sub(2) { height } else { r.height.saturating_sub(2) };
    let x = r.x + (r.width - w) / 2;
    let y = r.y + (r.height - h) / 2;
    Rect { x, y, width: w, height: h }
}

/// The exact-size popup lies inside the screen rectangle it is centered in.
pub proof fn lemma_centered_rect_exact_inside(width: u16, height: u16, r: Rect)
    requires
        r.x + r.width <= u16::MAX,
        r.y + r.height <= u16::MAX,
    ensures
        ({
            let c = centered_rect_exact_spec(width, height, r);
            &&& c.width <= width && c.height <= height
            &&& r.x <= c.x && c.x + c.width <= r.x + r.width
            &&& r.y <= c.y && c.y + c.height <= r.y + r.height
        }),
{
}

/// Computes the scroll offset for a list widget so that the selected item remains visible.
pub fn compute_scroll_offset(selected_index: usize, max_visible: usize) -> (r: usize)
    ensures
        max_visible == 0 ==> r == 0,
        max_visible > 0 && selected_index < max_visible ==> r == 0,
        max_visible > 0 && selected_index >= max_visible ==> r == selected_index - (max_visible
            - 1),
{
    if max_visible == 0 {
        return 0;
    }
    if selected_index < max_visible {
        0
    } else {
        selected_index - (max_visible - 1)
    }
}

/// With a visible window, the selected row always falls inside the window that starts at the
/// computed offset.
pub proof fn lemma_scroll_offset_keeps_selection_visible(selected_index: usize, max_visible: usize)
    requires
        max_visible > 0,
    ensures
        ({
            let off: int = if selected_index < max_visible {
                0
            } else {
                selected_index - (max_visible - 1)
            };
            off <= selected_index < off + max_visible
        }),
{
}

} // verus!
