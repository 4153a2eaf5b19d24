//! The page-range windowing algorithm: which page buttons and ellipsis jump
//! markers to show for a given engine state and configuration.
//!
//! The window is the classic "first ... middle ... last" pattern. With edge
//! count `E` and sibling count `S`, a front breakpoint `E + 2 + S` and a
//! rear breakpoint `total - (E + 1 + S)` (never below zero) pick a mid page;
//! whenever the mid page lies strictly between the breakpoints, the runs of
//! pages outside the edges and the sibling window collapse into one
//! ellipsis each. An ellipsis carries a jump target five pages away from
//! the current page, a fixed design choice not derived from `E` or `S`.

use vstd::prelude::*;

use crate::engine::Pagination;

verus! {

/// Windowing configuration, fixed by the caller.
#[derive(Clone, Copy, Debug, PartialEq, Eq, Structural)]
pub struct PaginationConfig {
    /// How many page buttons stay visible at each extreme end once an
    /// ellipsis appears.
    pub edge_page_count: usize,
    /// How many page buttons stay visible next to the current page once an
    /// ellipsis appears.
    pub sibling_page_count: usize,
}

impl Default for PaginationConfig {
    /// One page button at each edge and one sibling on each side.
    fn default() -> (config: Self)
        ensures
            config.edge_page_count == 1,
            config.sibling_page_count == 1,
    {
        PaginationConfig { edge_page_count: 1, sibling_page_count: 1 }
    }
}

/// One entry of the rendered window: a page button, or an ellipsis button
/// that jumps to `target` (a raw target; activating it goes through
/// `set_page`, which clamps).
#[derive(Clone, Copy, Debug, PartialEq, Eq, Structural)]
pub enum PageItem {
    Page { number: usize, active: bool },
    Ellipsis { target: usize },
}

/// The computed window: the ordered items, and whether an ellipsis replaced
/// a run of pages at the front or at the rear.
#[derive(Clone, Debug, PartialEq, Eq)]
pub struct PageWindow {
    pub front_truncated: bool,
    pub rear_truncated: bool,
    pub items: Vec<PageItem>,
}

/// The smallest mid page at which pages before the sibling window no longer
/// all fit in front of it.
pub open spec fn front_breakpoint(edge: int, sibling: int) -> int {
    edge + 2 + sibling
}

/// The largest mid page at which pages behind the sibling window no longer
/// all fit after it; zero when there are too few pages for that.
pub open spec fn rear_breakpoint(total: int, edge: int, sibling: int) -> int {
    if total - (edge + 1 + sibling) < 0 {
        0
    } else {
        total - (edge + 1 + sibling)
    }
}

/// The page on which the sibling window is centred: the current page, pulled
/// into the span between the two breakpoints (and never past the last page).
pub open spec fn mid_page(total: int, current: int, edge: int, sibling: int) -> int {
    let front = front_breakpoint(edge, sibling);
    if current < front {
        if front < total {
            front
        } else {
            total
        }
    } else if current > rear_breakpoint(total, edge, sibling) {
        rear_breakpoint(total, edge, sibling)
    } else {
        current
    }
}

/// Whether an ellipsis replaces pages between the front edge and the
/// sibling window.
pub open spec fn front_truncated(total: int, current: int, edge: int, sibling: int) -> bool {
    mid_page(total, current, edge, sibling) > front_breakpoint(edge, sibling)
}

/// Whether an ellipsis replaces pages between the sibling window and the
/// rear edge.
pub open spec fn rear_truncated(total: int, current: int, edge: int, sibling: int) -> bool {
    mid_page(total, current, edge, sibling) < rear_breakpoint(total, edge, sibling)
}

/// The jump target of the front ellipsis: five pages back from the current
/// page, held at zero where that would fall below it.
pub open spec fn front_jump_target(current: int) -> int {
    if current - 5 >= 0 {
        current - 5
    } else {
        0
    }
}

/// The jump target of the rear ellipsis: five pages past the current page,
/// held at the machine limit where that would pass it.
pub open spec fn rear_jump_target(current: int) -> int {
    if current + 5 <= usize::MAX {
        current + 5
    } else {
        usize::MAX as int
    }
}

/// The run of page buttons `lo..=hi`, each marked active exactly when it is
/// the current page; empty when `lo > hi`.
pub open spec fn page_run(lo: int, hi: int, current: int) -> Seq<PageItem>
    decreases hi + 1 - lo,
{
    if lo > hi {
        Seq::empty()
    } else {
        page_run(lo, hi - 1, current).push(
            PageItem::Page { number: hi as usize, active: hi == current },
        )
    }
}

/// The front half of the window: the pages up to the mid page, with the run
/// between the front edge and the sibling window collapsed into an ellipsis
/// once the front is truncated.
pub open spec fn front_items(total: int, current: int, edge: int, sibling: int) -> Seq<PageItem> {
    let mid = mid_page(total, current, edge, sibling);
    if front_truncated(total, current, edge, sibling) {
        page_run(1, edge, current).push(
            PageItem::Ellipsis { target: front_jump_target(current) as usize },
        ) + page_run(mid - sibling, mid, current)
    } else {
        page_run(1, mid, current)
    }
}

/// The rear half of the window: the pages after the mid page, with the run
/// between the sibling window and the rear edge collapsed into an ellipsis
/// once the rear is truncated.
pub open spec fn rear_items(total: int, current: int, edge: int, sibling: int) -> Seq<PageItem> {
    let mid = mid_page(total, current, edge, sibling);
    if rear_truncated(total, current, edge, sibling) {
        page_run(mid + 1, mid + sibling, current).push(
            PageItem::Ellipsis { target: rear_jump_target(current) as usize },
        ) + page_run(total - edge + 1, total, current)
    } else {
        page_run(mid + 1, total, current)
    }
}

/// The whole window: front half followed by rear half.
pub open spec fn window_items(total: int, current: int, edge: int, sibling: int) -> Seq<PageItem> {
    front_items(total, current, edge, sibling) + rear_items(total, current, edge, sibling)
}

/// Append the page buttons `lo..=hi` to `items`.
fn push_page_run(items: &mut Vec<PageItem>, lo: usize, hi: usize, current: usize)
    requires
        lo >= 1,
    ensures
        final(items)@ == old(items)@ + page_run(lo as int, hi as int, current as int),
{
    let count = if hi >= lo {
        hi - lo + 1
    } else {
        0
    };
    let mut i: usize = 0;
    while i < count
        invariant
            lo >= 1,
            count == if hi >= lo { hi - lo + 1 } else { 0int },
            i <= count,
            items@ == old(items)@ + page_run(lo as int, lo + i - 1, current as int),
        decreases count - i,
    {
        let number = lo + i;
        items.push(PageItem::Page { number, active: number == current });
        i = i + 1;
    }
}

impl Pagination {
    /// Compute the window to render for this engine under `config`.
    ///
    /// The items are exactly [`window_items`] of the state: the pages from
    /// `1` to the mid page and from there to the last page, each truncated
    /// run replaced by its ellipsis, every page button marked active exactly
    /// when it is the current page. On an empty engine the window is empty.
    pub fn page_window(&self, config: PaginationConfig) -> (window: PageWindow)
        requires
            self.wf(),
            config.edge_page_count + 2 + config.sibling_page_count <= usize::MAX,
        ensures
            window.front_truncated == front_truncated(
                self.total_pages as int,
                self.current_page as int,
                config.edge_page_count as int,
                config.sibling_page_count as int,
            ),
            window.rear_truncated == rear_truncated(
                self.total_pages as int,
                self.current_page as int,
                config.edge_page_count as int,
                config.sibling_page_count as int,
            ),
            window.items@ == window_items(
                self.total_pages as int,
                self.current_page as int,
                config.edge_page_count as int,
                config.sibling_page_count as int,
            ),
    {
        let edge = config.edge_page_count;
        let sibling = config.sibling_page_count;

        let front = edge + 2 + sibling;
        let rear = if self.total_pages >= edge + 1 + sibling {
            self.total_pages - (edge + 1 + sibling)
        } else {
            0
        };
        let mid = if self.current_page < front {
            if front < self.total_pages {
                front
            } else {
                self.total_pages
            }
        } else if self.current_page > rear {
            rear
        } else {
            self.current_page
        };
        let is_front_truncated = mid > front;
        let is_rear_truncated = mid < rear;

        let mut items: Vec<PageItem> = Vec::new();

        if is_front_truncated {
            push_page_run(&mut items, 1, edge, self.current_page);
            let target = if self.current_page >= 5 {
                self.current_page - 5
            } else {
                0
            };
            items.push(PageItem::Ellipsis { target });
            push_page_run(&mut items, mid - sibling, mid, self.current_page);
        } else {
            push_page_run(&mut items, 1, mid, self.current_page);
        }

        if is_rear_truncated {
            push_page_run(&mut items, mid + 1, mid + sibling, self.current_page);
            let target = if self.current_page <= usize::MAX - 5 {
                self.current_page + 5
            } else {
                usize::MAX
            };
            items.push(PageItem::Ellipsis { target });
            // without edge pages the rear edge run is empty, and its lower
            // bound would not even fit in usize when total_pages is at the
            // machine limit
            if edge >= 1 {
                push_page_run(
                    &mut items,
                    self.total_pages - edge + 1,
                    self.total_pages,
                    self.current_page,
                );
            }
        } else {
            // an empty run, skipped so that mid + 1 stays within usize
            if mid < self.total_pages {
                push_page_run(&mut items, mid + 1, self.total_pages, self.current_page);
            }
        }
        PageWindow {
            front_truncated: is_front_truncated,
            rear_truncated: is_rear_truncated,
            items,
        }
    }
}

} // verus!

