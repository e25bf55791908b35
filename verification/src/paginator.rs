use vstd::math::min;
use vstd::prelude::*;

use crate::page_item::PageItem;
use crate::yes_no_depends::YesNoDepends;

verus! {

/// A validated pagination layout: the page counts are in range and
/// `max_item_count` covers the minimum number of items the layout can need.
/// Values are built through `PaginatorBuilder`, which establishes `valid()`.
#[derive(Debug, Clone, Eq, PartialEq, Structural)]
pub struct Paginator {
    pub total_pages: usize,
    pub current_page: usize,
    pub max_item_count: usize,
    pub start_size: usize,
    pub end_size: usize,
    pub has_prev: YesNoDepends,
    pub has_next: YesNoDepends,
}

/// The pages `lo..=hi`, each shown literally as a `Page` item.
pub open spec fn page_run(lo: int, hi: int) -> Seq<PageItem> {
    if lo <= hi {
        Seq::new((hi + 1 - lo) as nat, |k: int| PageItem::Page((lo + k) as usize))
    } else {
        Seq::empty()
    }
}

/// The pages `lo..=hi` shown literally, with `cp` (which must lie in the
/// range) marked as the current page.
pub open spec fn page_window(cp: int, lo: int, hi: int) -> Seq<PageItem> {
    page_run(lo, cp - 1) + seq![PageItem::CurrentPage(cp as usize)] + page_run(cp + 1, hi)
}

/// How many items of the budget a prev/next control can claim: for more than
/// two pages any control that is not `No` may fire; for one or two pages the
/// collapsing logic is bypassed and only a forced (`Yes`) control fires.
pub open spec fn control_reserve(c: YesNoDepends, total: int) -> int {
    if total <= 2 {
        if c is Yes {
            1
        } else {
            0
        }
    } else {
        if c is No {
            0
        } else {
            1
        }
    }
}

impl Paginator {
    /// The leading pinned block size, clamped to the page count.
    pub open spec fn spec_start_size(self) -> int {
        min(self.start_size as int, self.total_pages as int)
    }

    /// The trailing pinned block size, clamped to the page count.
    pub open spec fn spec_end_size(self) -> int {
        min(self.end_size as int, self.total_pages as int)
    }

    /// Whether a previous-control item is emitted.
    pub open spec fn spec_show_prev(self) -> bool {
        ||| self.has_prev is Yes
        ||| (self.has_prev is Depends && self.current_page > 1 && self.total_pages > 2)
    }

    /// Whether a next-control item is emitted.
    pub open spec fn spec_show_next(self) -> bool {
        ||| self.has_next is Yes
        ||| (self.has_next is Depends && self.current_page < self.total_pages
            && self.total_pages > 2)
    }

    /// The item budget left for page items once the prev/next controls have
    /// claimed their slots.
    pub open spec fn spec_budget(self) -> int {
        self.max_item_count - (if self.spec_show_prev() {
            1int
        } else {
            0int
        }) - (if self.spec_show_next() {
            1int
        } else {
            0int
        })
    }

    /// The smallest `max_item_count` under which every page of this layout
    /// can be rendered within budget.
    pub open spec fn spec_required_budget(self) -> int {
        let t = self.total_pages as int;
        let base = if t <= 2 {
            t
        } else {
            min(self.spec_start_size() + self.spec_end_size() + 3, t)
        };
        base + control_reserve(self.has_prev, t) + control_reserve(self.has_next, t)
    }

    /// Well-formedness established by validation: the current page is in
    /// range and the item budget covers the required minimum.
    pub open spec fn valid(self) -> bool {
        &&& 1 <= self.current_page <= self.total_pages
        &&& self.spec_required_budget() <= self.max_item_count
    }

    /// The previous-control item: page 1 has no previous page.
    pub open spec fn prev_item(self) -> PageItem {
        if self.current_page == 1 {
            PageItem::ReservedPrev
        } else {
            PageItem::Prev((self.current_page - 1) as usize)
        }
    }

    /// The next-control item: the last page has no next page.
    pub open spec fn next_item(self) -> PageItem {
        if self.current_page >= self.total_pages {
            PageItem::ReservedNext
        } else {
            PageItem::Next((self.current_page + 1) as usize)
        }
    }

    /// True when the pages before the current page are collapsed behind an
    /// ellipsis: the budget is exceeded and the current page sits far enough
    /// past the pinned leading block.
    pub open spec fn spec_collapse_start(self) -> bool {
        &&& self.total_pages as int > self.spec_budget()
        &&& self.current_page as int > self.spec_start_size() + 2
    }

    /// True when the pages after the current page are collapsed behind an
    /// ellipsis, measured from the end of the page range.
    pub open spec fn spec_collapse_end(self) -> bool {
        &&& self.total_pages as int > self.spec_budget()
        &&& self.total_pages as int - self.current_page as int > self.spec_end_size()
    }

    /// Every page shown literally: no side collapses.
    pub open spec fn full_items(self) -> Seq<PageItem> {
        page_window(self.current_page as int, 1, self.total_pages as int)
    }

    /// Only the start side collapses: the pinned leading pages, an ellipsis,
    /// then an unbroken run up to the last page. The window is placed so that
    /// exactly `spec_budget()` items are emitted.
    pub open spec fn left_items(self) -> Seq<PageItem> {
        let t = self.total_pages as int;
        let b = self.spec_budget();
        let s = self.spec_start_size();
        page_run(1, s) + seq![PageItem::Ignore] + page_window(
            self.current_page as int,
            t - b + s + 2,
            t,
        )
    }

    /// Only the end side collapses: an unbroken run from page 1, an ellipsis,
    /// then the pinned trailing pages. The window is sized so that exactly
    /// `spec_budget()` items are emitted.
    pub open spec fn right_items(self) -> Seq<PageItem> {
        let t = self.total_pages as int;
        let b = self.spec_budget();
        let e = self.spec_end_size();
        page_window(self.current_page as int, 1, b - e - 1) + seq![PageItem::Ignore] + page_run(
            t - e + 1,
            t,
        )
    }

    /// Both sides collapse: pinned leading pages, ellipsis, a window centred
    /// on the current page (the slack is split with the smaller half before
    /// the current page), ellipsis, pinned trailing pages.
    pub open spec fn mid_items(self) -> Seq<PageItem> {
        let t = self.total_pages as int;
        let c = self.current_page as int;
        let s = self.spec_start_size();
        let e = self.spec_end_size();
        let ic = self.spec_budget() - (s + e + 3);
        let w = ic / 2;
        page_run(1, s) + seq![PageItem::Ignore] + page_window(c, c - w, c + (ic - w))
            + seq![PageItem::Ignore] + page_run(t - e + 1, t)
    }

    /// The page items of the bar, without the prev/next controls. When both
    /// sides could collapse, the window may reach a pinned block, in which
    /// case that side is shown in full: an ellipsis never stands for fewer
    /// than two pages.
    pub open spec fn core_items(self) -> Seq<PageItem> {
        let t = self.total_pages as int;
        let c = self.current_page as int;
        let s = self.spec_start_size();
        let e = self.spec_end_size();
        if self.spec_collapse_start() && self.spec_collapse_end() {
            let ic = self.spec_budget() - (s + e + 3);
            let w = ic / 2;
            if c - w <= s + 2 {
                self.right_items()
            } else if c + (ic - w) + 2 >= t - e + 1 {
                self.left_items()
            } else {
                self.mid_items()
            }
        } else if self.spec_collapse_start() {
            self.left_items()
        } else if self.spec_collapse_end() {
            self.right_items()
        } else {
            self.full_items()
        }
    }

    /// The full bar: the optional previous control, the page items, the
    /// optional next control.
    pub open spec fn spec_paginate(self) -> Seq<PageItem> {
        let pre = if self.spec_show_prev() {
            seq![self.prev_item()]
        } else {
            Seq::<PageItem>::empty()
        };
        let suf = if self.spec_show_next() {
            seq![self.next_item()]
        } else {
            Seq::<PageItem>::empty()
        };
        pre + self.core_items() + suf
    }
}

/// The reserved control slots cover every control that actually fires, so a
/// valid layout always keeps at least the base budget for page items.
pub(crate) proof fn lemma_budget_floor(p: Paginator)
    requires
        p.valid(),
    ensures
        p.spec_budget() >= 0,
        p.total_pages <= 2 ==> p.spec_budget() >= p.total_pages,
        p.total_pages > 2 ==> p.spec_budget() >= min(
            p.spec_start_size() + p.spec_end_size() + 3,
            p.total_pages as int,
        ),
{
    let t = p.total_pages as int;
    assert(p.spec_show_prev() ==> control_reserve(p.has_prev, t) == 1);
    assert(p.spec_show_next() ==> control_reserve(p.has_next, t) == 1);
}

/// When the page count exceeds the remaining budget, the layout has more
/// than two pages and the budget still covers the pinned blocks, both
/// ellipsis slots and the current page.
pub(crate) proof fn lemma_collapse_budget(p: Paginator)
    requires
        p.valid(),
        p.total_pages as int > p.spec_budget(),
    ensures
        p.total_pages > 2,
        p.spec_start_size() + p.spec_end_size() + 3 <= p.spec_budget(),
{
    lemma_budget_floor(p);
}

/// Appends the pages `lo..=hi` (empty when `hi < lo`) as `Page` items.
fn push_pages(v: &mut Vec<PageItem>, lo: usize, hi: usize)
    requires
        1 <= lo,
    ensures
        final(v)@ == old(v)@ + page_run(lo as int, hi as int),
{
    if hi < lo {
        assert(v@ =~= old(v)@ + page_run(lo as int, hi as int));
        return ;
    }
    let span = hi - lo;
    let mut k: usize = 0;
    assert(v@ =~= old(v)@ + page_run(lo as int, lo as int - 1));
    while k <= span
        invariant
            1 <= lo,
            lo as int + span as int == hi as int,
            hi <= usize::MAX,
            k <= span + 1,
            v@ == old(v)@ + page_run(lo as int, lo as int + k as int - 1),
        decreases span + 1 - k,
    {
        v.push(PageItem::Page(lo + k));
        proof {
            assert(v@ =~= old(v)@ + page_run(lo as int, lo as int + k as int));
        }
        k += 1;
    }
}

impl Paginator {
    pub fn total_pages(&self) -> (r: usize)
        ensures
            r == self.total_pages,
    {
        self.total_pages
    }

    pub fn current_page(&self) -> (r: usize)
        ensures
            r == self.current_page,
    {
        self.current_page
    }

    pub fn max_item_count(&self) -> (r: usize)
        ensures
            r == self.max_item_count,
    {
        self.max_item_count
    }

    pub fn start_size(&self) -> (r: usize)
        ensures
            r == self.start_size,
    {
        self.start_size
    }

    pub fn end_size(&self) -> (r: usize)
        ensures
            r == self.end_size,
    {
        self.end_size
    }

    pub fn has_prev(&self) -> (r: YesNoDepends)
        ensures
            r == self.has_prev,
    {
        self.has_prev
    }

    pub fn has_next(&self) -> (r: YesNoDepends)
        ensures
            r == self.has_next,
    {
        self.has_next
    }
}

impl Paginator {
    /// Appends the pinned trailing pages `total-end+1 ..= total` (none when
    /// `end` is zero).
    fn push_tail(v: &mut Vec<PageItem>, total: usize, end: usize)
        requires
            end <= total,
        ensures
            final(v)@ == old(v)@ + page_run(total as int - end as int + 1, total as int),
    {
        if end > 0 {
            push_pages(v, total - end + 1, total);
        } else {
            assert(v@ =~= old(v)@ + page_run(total as int + 1, total as int));
        }
    }

    /// Appends the pages `lo..=hi` with `cp` marked as the current page.
    fn emit_window(v: &mut Vec<PageItem>, cp: usize, lo: usize, hi: usize)
        requires
            1 <= lo,
            1 <= cp,
        ensures
            final(v)@ == old(v)@ + page_window(cp as int, lo as int, hi as int),
    {
        push_pages(v, lo, cp - 1);
        v.push(PageItem::CurrentPage(cp));
        if cp < hi {
            push_pages(v, cp + 1, hi);
            assert(v@ =~= old(v)@ + page_window(cp as int, lo as int, hi as int));
        } else {
            assert(v@ =~= old(v)@ + page_window(cp as int, lo as int, hi as int));
        }
    }

    /// Appends the start-collapsed layout: pinned head, ellipsis, then the
    /// unbroken run from `lo` to the last page.
    fn emit_left(&self, v: &mut Vec<PageItem>, start: usize, lo: usize)
        requires
            1 <= self.current_page,
            start as int == self.spec_start_size(),
            lo as int == self.total_pages as int - self.spec_budget() + self.spec_start_size()
                + 2,
            1 <= lo,
        ensures
            final(v)@ == old(v)@ + self.left_items(),
    {
        push_pages(v, 1, start);
        v.push(PageItem::Ignore);
        Self::emit_window(v, self.current_page, lo, self.total_pages);
        assert(v@ =~= old(v)@ + self.left_items());
    }

    /// Appends the end-collapsed layout: the unbroken run from page 1 up to
    /// `upper`, an ellipsis, then the pinned tail.
    fn emit_right(&self, v: &mut Vec<PageItem>, end: usize, upper: usize)
        requires
            1 <= self.current_page,
            end as int == self.spec_end_size(),
            end <= self.total_pages,
            upper as int == self.spec_budget() - self.spec_end_size() - 1,
        ensures
            final(v)@ == old(v)@ + self.right_items(),
    {
        Self::emit_window(v, self.current_page, 1, upper);
        v.push(PageItem::Ignore);
        Self::push_tail(v, self.total_pages, end);
        assert(v@ =~= old(v)@ + self.right_items());
    }

    /// Appends the doubly-collapsed layout: pinned head, ellipsis, the
    /// window around the current page, ellipsis, pinned tail.
    fn emit_mid(&self, v: &mut Vec<PageItem>, start: usize, end: usize, lo: usize, hi: usize)
        requires
            1 <= self.current_page,
            start as int == self.spec_start_size(),
            end as int == self.spec_end_size(),
            end <= self.total_pages,
            1 <= lo,
            ({
                let ic = self.spec_budget() - (self.spec_start_size() + self.spec_end_size()
                    + 3);
                lo as int == self.current_page as int - ic / 2 && hi as int
                    == self.current_page as int + (ic - ic / 2)
            }),
        ensures
            final(v)@ == old(v)@ + self.mid_items(),
    {
        push_pages(v, 1, start);
        v.push(PageItem::Ignore);
        Self::emit_window(v, self.current_page, lo, hi);
        v.push(PageItem::Ignore);
        Self::push_tail(v, self.total_pages, end);
        assert(v@ =~= old(v)@ + self.mid_items());
    }

    /// Chooses and appends the page items when both sides exceed their
    /// pinned blocks; a window that reaches a pinned block turns that side
    /// back into an unbroken run.
    fn emit_core_both(&self, v: &mut Vec<PageItem>, start: usize, end: usize, rem: usize)
        requires
            self.valid(),
            self.spec_collapse_start(),
            self.spec_collapse_end(),
            start as int == self.spec_start_size(),
            end as int == self.spec_end_size(),
            rem as int == self.spec_budget() - (self.spec_start_size() + self.spec_end_size()
                + 3),
        ensures
            final(v)@ == old(v)@ + self.core_items(),
    {
        proof {
            lemma_collapse_budget(*self);
        }
        let window_size = rem / 2;
        if self.current_page <= window_size || self.current_page - window_size <= start + 2 {
            // The window reaches the pinned leading block: show the head in
            // full and collapse only the end side.
            let upper = rem + start + 2;
            self.emit_right(v, end, upper);
            proof {
                assert(self.core_items() == self.right_items());
            }
        } else {
            let room = self.total_pages - end - 1 - self.current_page;
            if rem - window_size > room {
                // The trailing window would run past the pinned end block:
                // shift it left so the tail shows in full.
                let lo = self.total_pages - rem - end - 1;
                self.emit_left(v, start, lo);
                proof {
                    assert(self.core_items() == self.left_items());
                }
            } else if rem - window_size == room {
                // Exactly one page would be hidden on the end side: show it
                // instead of an ellipsis.
                let lo = self.current_page - window_size;
                self.emit_left(v, start, lo);
                proof {
                    assert(self.core_items() == self.left_items());
                }
            } else {
                let lo = self.current_page - window_size;
                let hi = self.current_page + (rem - window_size);
                self.emit_mid(v, start, end, lo, hi);
                proof {
                    assert(self.core_items() == self.mid_items());
                }
            }
        }
    }

    /// Appends the page items when only the start side collapses.
    fn emit_core_start(&self, v: &mut Vec<PageItem>, start: usize, rem: usize)
        requires
            self.valid(),
            self.spec_collapse_start(),
            !self.spec_collapse_end(),
            start as int == self.spec_start_size(),
            rem as int == self.spec_budget() - self.spec_start_size() - 2,
        ensures
            final(v)@ == old(v)@ + self.core_items(),
    {
        proof {
            lemma_collapse_budget(*self);
        }
        let mut window = rem;
        if self.current_page < self.total_pages {
            window -= self.total_pages - self.current_page;
        }
        let lo = self.current_page - window;
        self.emit_left(v, start, lo);
        proof {
            assert(self.core_items() == self.left_items());
        }
    }

    /// Appends the page items when only the end side collapses.
    fn emit_core_end(&self, v: &mut Vec<PageItem>, end: usize, rem: usize)
        requires
            self.valid(),
            !self.spec_collapse_start(),
            self.spec_collapse_end(),
            end as int == self.spec_end_size(),
            rem as int == self.spec_budget() - self.spec_end_size() - 1,
        ensures
            final(v)@ == old(v)@ + self.core_items(),
    {
        proof {
            lemma_collapse_budget(*self);
        }
        let window = rem - self.current_page;
        let upper = self.current_page + window;
        self.emit_right(v, end, upper);
        proof {
            assert(self.core_items() == self.right_items());
        }
    }

    /// Computes the ordered items of the pagination bar for this layout.
    #[verifier::rlimit(50)]
    pub fn paginate(&self) -> (r: Vec<PageItem>)
        requires
            self.valid(),
        ensures
            r@ == self.spec_paginate(),
    {
        let mut v: Vec<PageItem> = Vec::new();

        let show_prev = self.has_prev.yes() || (self.has_prev.depends() && self.current_page > 1
            && self.total_pages > 2);
        let show_next = self.has_next.yes() || (self.has_next.depends() && self.current_page
            < self.total_pages && self.total_pages > 2);

        proof {
            lemma_budget_floor(*self);
        }

        let mut items_counter = self.max_item_count;

        if show_prev {
            if self.current_page == 1 {
                v.push(PageItem::ReservedPrev);
            } else {
                v.push(PageItem::Prev(self.current_page - 1));
            }
            items_counter -= 1;
        }
        if show_next {
            items_counter -= 1;
        }

        let ghost pre = if self.spec_show_prev() {
            seq![self.prev_item()]
        } else {
            Seq::<PageItem>::empty()
        };
        assert(items_counter as int == self.spec_budget());
        assert(v@ =~= pre);

        let start_size = if self.start_size < self.total_pages {
            self.start_size
        } else {
            self.total_pages
        };
        let end_size = if self.end_size < self.total_pages {
            self.end_size
        } else {
            self.total_pages
        };
        assert(start_size as int == self.spec_start_size());
        assert(end_size as int == self.spec_end_size());

        let (ignore_start, ignore_end) = if self.total_pages > items_counter {
            (
                self.current_page > 2 && self.current_page - 2 > start_size,
                self.total_pages - self.current_page > end_size,
            )
        } else {
            (false, false)
        };
        assert(ignore_start == self.spec_collapse_start());
        assert(ignore_end == self.spec_collapse_end());

        if ignore_start {
            proof {
                lemma_collapse_budget(*self);
            }
            items_counter -= start_size + 2;
            if ignore_end {
                items_counter -= end_size + 1;
                self.emit_core_both(&mut v, start_size, end_size, items_counter);
            } else {
                self.emit_core_start(&mut v, start_size, items_counter);
            }
        } else if ignore_end {
            proof {
                lemma_collapse_budget(*self);
            }
            items_counter -= end_size + 1;
            self.emit_core_end(&mut v, end_size, items_counter);
        } else {
            // Every page fits: show them all.
            Self::emit_window(&mut v, self.current_page, 1, self.total_pages);
            proof {
                assert(self.core_items() == self.full_items());
            }
        }
        assert(v@ == pre + self.core_items());

        if show_next {
            if self.current_page >= self.total_pages {
                v.push(PageItem::ReservedNext);
            } else {
                v.push(PageItem::Next(self.current_page + 1));
            }
        }
        proof {
            assert(v@ =~= self.spec_paginate());
        }
        v
    }
}

} // verus!
