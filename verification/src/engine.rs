//! The pagination state machine: a fixed page count, a current page, and
//! five navigation operations that clamp rather than fail.

use vstd::prelude::*;

verus! {

/// A navigation request, as the surrounding UI hands it in.
#[derive(Clone, Copy, Debug)]
pub enum PaginationMessage {
    First,
    Last,
    Next,
    Prev,
    SetPage(usize),
}

/// The pagination engine.
///
/// Invariant (see [`Pagination::wf`]): `current_page` is `0` when
/// `total_pages` is `0`, and lies in `1..=total_pages` otherwise.
/// `total_pages` is fixed at construction; `current_page` changes only
/// through the navigation operations, each of which reports whether it
/// changed anything, so that the caller knows when to notify observers.
#[derive(Clone, Copy, Debug, PartialEq, Eq, Structural)]
pub struct Pagination {
    pub total_pages: usize,
    pub current_page: usize,
}

/// `page` clamped into `1..=total` (for `total >= 1`).
pub open spec fn page_clamped(total: int, page: int) -> int {
    if page < 1 {
        1
    } else if page > total {
        total
    } else {
        page
    }
}

impl Pagination {
    /// Well-formedness: the empty engine rests on page `0`; otherwise the
    /// current page is a real page.
    pub open spec fn wf(self) -> bool {
        if self.total_pages == 0 {
            self.current_page == 0
        } else {
            1 <= self.current_page <= self.total_pages
        }
    }

    /// What `set_page` does: inert on an empty engine, otherwise move to the
    /// clamped target, reporting whether the page changed.
    pub open spec fn set_page_spec(self, page: int) -> (Pagination, bool) {
        if self.total_pages == 0 {
            (self, false)
        } else {
            let target = page_clamped(self.total_pages as int, page);
            if target == self.current_page as int {
                (self, false)
            } else {
                (Pagination { current_page: target as usize, ..self }, true)
            }
        }
    }

    /// What `next_page` does: one step forward unless already on the last
    /// page (or the engine is empty).
    pub open spec fn next_page_spec(self) -> (Pagination, bool) {
        if self.current_page < self.total_pages {
            (Pagination { current_page: (self.current_page + 1) as usize, ..self }, true)
        } else {
            (self, false)
        }
    }

    /// What `prev_page` does: one step back unless already on the first
    /// page (or the engine is empty).
    pub open spec fn prev_page_spec(self) -> (Pagination, bool) {
        if self.current_page > 1 {
            (Pagination { current_page: (self.current_page - 1) as usize, ..self }, true)
        } else {
            (self, false)
        }
    }

    /// What `first_page` does: move to page `1`.
    pub open spec fn first_page_spec(self) -> (Pagination, bool) {
        self.set_page_spec(1)
    }

    /// What `last_page` does: move to the last page.
    pub open spec fn last_page_spec(self) -> (Pagination, bool) {
        self.set_page_spec(self.total_pages as int)
    }

    /// The transition for one navigation request.
    pub open spec fn apply_spec(self, msg: PaginationMessage) -> (Pagination, bool) {
        match msg {
            PaginationMessage::First => self.first_page_spec(),
            PaginationMessage::Last => self.last_page_spec(),
            PaginationMessage::Next => self.next_page_spec(),
            PaginationMessage::Prev => self.prev_page_spec(),
            PaginationMessage::SetPage(page) => self.set_page_spec(page as int),
        }
    }

    /// A fresh engine over `total_pages` pages, resting on the first page,
    /// or on page `0` when there are no pages at all.
    pub fn new(total_pages: usize) -> (engine: Pagination)
        ensures
            engine.total_pages == total_pages,
            engine.current_page == (if total_pages > 0 { 1int } else { 0int }),
            engine.wf(),
    {
        Pagination { total_pages, current_page: if total_pages > 0 { 1 } else { 0 } }
    }

    /// Move to `page`, clamped into the valid range; out-of-range requests
    /// are never an error. Reports whether the current page changed; on an
    /// empty engine nothing ever changes.
    pub fn set_page(&mut self, page: usize) -> (changed: bool)
        ensures
            (*final(self), changed) == old(self).set_page_spec(page as int),
            old(self).wf() ==> final(self).wf(),
    {
        if self.total_pages == 0 {
            return false;
        }
        let page = if page < 1 {
            1
        } else if page > self.total_pages {
            self.total_pages
        } else {
            page
        };
        if page != self.current_page {
            self.current_page = page;
            true
        } else {
            false
        }
    }

    /// Advance by one page if one is left ahead; otherwise do nothing.
    pub fn next_page(&mut self) -> (changed: bool)
        ensures
            (*final(self), changed) == old(self).next_page_spec(),
            old(self).wf() ==> final(self).wf(),
    {
        if self.current_page < self.total_pages {
            self.current_page = self.current_page + 1;
            true
        } else {
            false
        }
    }

    /// Step back by one page if one is left behind; otherwise do nothing.
    pub fn prev_page(&mut self) -> (changed: bool)
        ensures
            (*final(self), changed) == old(self).prev_page_spec(),
            old(self).wf() ==> final(self).wf(),
    {
        if self.current_page > 1 {
            self.current_page = self.current_page - 1;
            true
        } else {
            false
        }
    }

    /// Move to the first page.
    pub fn first_page(&mut self) -> (changed: bool)
        ensures
            (*final(self), changed) == old(self).first_page_spec(),
            old(self).wf() ==> final(self).wf(),
    {
        self.set_page(1)
    }

    /// Move to the last page.
    pub fn last_page(&mut self) -> (changed: bool)
        ensures
            (*final(self), changed) == old(self).last_page_spec(),
            old(self).wf() ==> final(self).wf(),
    {
        let total = self.total_pages;
        self.set_page(total)
    }

    /// Perform one navigation request. The result says whether the current
    /// page changed: only then should the caller notify its observers.
    pub fn apply(&mut self, msg: PaginationMessage) -> (changed: bool)
        ensures
            (*final(self), changed) == old(self).apply_spec(msg),
            old(self).wf() ==> final(self).wf(),
    {
        match msg {
            PaginationMessage::First => self.first_page(),
            PaginationMessage::Last => self.last_page(),
            PaginationMessage::Next => self.next_page(),
            PaginationMessage::Prev => self.prev_page(),
            PaginationMessage::SetPage(page) => self.set_page(page),
        }
    }

    /// Whether the engine is well-formed, decided at run time so that
    /// unverified callers can check before relying on the invariant.
    pub fn is_well_formed(&self) -> (ok: bool)
        ensures
            ok == self.wf(),
    {
        if self.total_pages == 0 {
            self.current_page == 0
        } else {
            1 <= self.current_page && self.current_page <= self.total_pages
        }
    }
}

/// An engine without pages is inert: every navigation request reports no
/// change and leaves the state exactly as it was.
pub proof fn lemma_empty_engine_inert(engine: Pagination, msg: PaginationMessage)
    requires
        engine.total_pages == 0,
        engine.wf(),
    ensures
        engine.apply_spec(msg) == (engine, false),
{
}

/// `prev_page` on the first page reports no change and is a no-op.
pub proof fn lemma_prev_page_at_first_is_noop(engine: Pagination)
    requires
        engine.current_page == 1,
    ensures
        engine.prev_page_spec() == (engine, false),
{
}

/// `next_page` on the last page reports no change and is a no-op.
pub proof fn lemma_next_page_at_last_is_noop(engine: Pagination)
    requires
        engine.current_page == engine.total_pages,
    ensures
        engine.next_page_spec() == (engine, false),
{
}

/// `set_page` clamps every request, however far out of range, into
/// `1..=total_pages`, and reports a change exactly when the clamped target
/// differs from the page it was on.
pub proof fn lemma_set_page_clamps(engine: Pagination, page: int)
    requires
        engine.wf(),
        engine.total_pages >= 1,
    ensures
        ({
            let (next, changed) = engine.set_page_spec(page);
            &&& next.total_pages == engine.total_pages
            &&& 1 <= next.current_page <= next.total_pages
            &&& next.current_page == page_clamped(engine.total_pages as int, page)
            &&& changed == (next.current_page != engine.current_page)
        }),
{
}

/// On more than one page, `first_page` lands on page `1`, `last_page` then
/// lands on the last page, and `first_page` again lands back on page `1`.
pub proof fn lemma_first_then_last_then_first(engine: Pagination)
    requires
        engine.wf(),
        engine.total_pages > 1,
    ensures
        ({
            let (on_first, _) = engine.first_page_spec();
            let (on_last, _) = on_first.last_page_spec();
            let (back_on_first, _) = on_last.first_page_spec();
            &&& on_first.current_page == 1
            &&& on_last.current_page == engine.total_pages
            &&& back_on_first.current_page == 1
        }),
{
}

/// `set_page` aimed at the page the engine is already on reports no change
/// and is a no-op, so the caller never notifies observers for it.
pub proof fn lemma_set_page_to_current_is_noop(engine: Pagination)
    requires
        engine.wf(),
    ensures
        engine.set_page_spec(engine.current_page as int) == (engine, false),
{
}

/// Every navigation request preserves well-formedness and never touches the
/// page count.
pub proof fn lemma_apply_preserves_wf(engine: Pagination, msg: PaginationMessage)
    requires
        engine.wf(),
    ensures
        engine.apply_spec(msg).0.wf(),
        engine.apply_spec(msg).0.total_pages == engine.total_pages,
{
}

/// The reported flag is honest: a navigation request reports a change
/// exactly when the state after it differs from the state before it, so
/// notifying observers precisely on `true` never misses a change and never
/// repeats a state.
pub proof fn lemma_changed_iff_state_differs(engine: Pagination, msg: PaginationMessage)
    ensures
        ({
            let (next, changed) = engine.apply_spec(msg);
            changed == (next != engine)
        }),
{
}

} // verus!
