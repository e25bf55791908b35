//! The laws every planner result obeys, stated over `spec_paginate` and
//! proved for every valid layout: exactly one current page, strictly
//! increasing page numbers with no duplicates, a length within the item
//! budget, and ellipses that are never adjacent and never stand for fewer
//! than two pages.

use vstd::prelude::*;

use crate::page_item::item_page_no;
use crate::page_item::PageItem;
use crate::paginator::lemma_budget_floor;
use crate::paginator::lemma_collapse_budget;
use crate::paginator::page_run;
use crate::paginator::page_window;
use crate::paginator::Paginator;

verus! {

/// `r[i]` is a `CurrentPage` item.
pub open spec fn current_at(r: Seq<PageItem>, i: int) -> bool {
    0 <= i < r.len() && r[i] is CurrentPage
}

/// Exactly one item of `r` is a `CurrentPage`.
pub open spec fn exactly_one_current(r: Seq<PageItem>) -> bool {
    &&& exists|i: int| current_at(r, i)
    &&& forall|i: int, j: int| current_at(r, i) && current_at(r, j) ==> i == j
}

/// The page numbers of the page slots of `r` grow strictly from left to
/// right; in particular no page number appears twice.
pub open spec fn pages_strictly_increase(r: Seq<PageItem>) -> bool {
    forall|i: int, j: int|
        #![trigger item_page_no(r[i]), item_page_no(r[j])]
        0 <= i < j < r.len() && item_page_no(r[i]) is Some && item_page_no(r[j]) is Some
            ==> item_page_no(r[i])->Some_0 < item_page_no(r[j])->Some_0
}

/// No page slot of `r` repeats a page number of another slot.
pub open spec fn no_duplicate_pages(r: Seq<PageItem>) -> bool {
    forall|i: int, j: int|
        #![trigger item_page_no(r[i]), item_page_no(r[j])]
        0 <= i < r.len() && 0 <= j < r.len() && i != j && item_page_no(r[i]) is Some
            && item_page_no(r[j]) is Some ==> item_page_no(r[i]) != item_page_no(r[j])
}

/// Every page slot of `r` names a page of `1..=total`.
pub open spec fn pages_within(r: Seq<PageItem>, total: int) -> bool {
    forall|i: int|
        0 <= i < r.len() && #[trigger] item_page_no(r[i]) is Some ==> 1 <= item_page_no(
            r[i],
        )->Some_0 <= total
}

/// No ellipsis of `r` directly follows another ellipsis.
pub open spec fn no_adjacent_ellipses(r: Seq<PageItem>) -> bool {
    forall|i: int| 0 < i < r.len() && #[trigger] r[i] is Ignore ==> !(r[i - 1] is Ignore)
}

/// The page shown just before position `i`, or 0 when no page slot stands
/// there: the pages an ellipsis at `i` hides start right after this one.
pub open spec fn page_before(r: Seq<PageItem>, i: int) -> int {
    if i > 0 && item_page_no(r[i - 1]) is Some {
        item_page_no(r[i - 1])->Some_0
    } else {
        0
    }
}

/// The page shown just after position `i`, or `total + 1` when no page slot
/// stands there: the pages an ellipsis at `i` hides end right before this
/// one.
pub open spec fn page_after(r: Seq<PageItem>, total: int, i: int) -> int {
    if i + 1 < r.len() && item_page_no(r[i + 1]) is Some {
        item_page_no(r[i + 1])->Some_0
    } else {
        total + 1
    }
}

/// Every ellipsis of `r` stands for at least two hidden pages.
pub open spec fn ellipses_hide_two_or_more(r: Seq<PageItem>, total: int) -> bool {
    forall|i: int|
        0 <= i < r.len() && #[trigger] r[i] is Ignore ==> page_after(r, total, i) - page_before(
            r,
            i,
        ) >= 3
}

/// Everything the laws claim of one planner result for the layout
/// `(cp, total)`, taken together.
pub open spec fn plan_invariants(r: Seq<PageItem>, cp: int, total: int) -> bool {
    &&& exactly_one_current(r)
    &&& forall|i: int|
        current_at(r, i) ==> r[i] == PageItem::CurrentPage(cp as usize)
    &&& pages_strictly_increase(r)
    &&& no_duplicate_pages(r)
    &&& pages_within(r, total)
    &&& no_adjacent_ellipses(r)
    &&& ellipses_hide_two_or_more(r, total)
}

/// The one skeleton every planner result is built on: a literal head run, an
/// optional ellipsis, the window holding the current page, an optional
/// ellipsis, and a literal tail run up to the last page.
spec fn bar_shape(
    c: int,
    t: int,
    head_end: int,
    left_ig: bool,
    win_lo: int,
    win_hi: int,
    right_ig: bool,
    tail_lo: int,
) -> Seq<PageItem> {
    page_run(1, head_end) + (if left_ig {
        seq![PageItem::Ignore]
    } else {
        Seq::<PageItem>::empty()
    }) + page_window(c, win_lo, win_hi) + (if right_ig {
        seq![PageItem::Ignore]
    } else {
        Seq::<PageItem>::empty()
    }) + page_run(tail_lo, t)
}

/// The side conditions under which the skeleton is well-formed: the pieces
/// adjoin in increasing page order, a missing ellipsis means the pieces are
/// contiguous, and an ellipsis hides at least two pages.
spec fn bar_shape_ok(
    c: int,
    t: int,
    head_end: int,
    left_ig: bool,
    win_lo: int,
    win_hi: int,
    right_ig: bool,
    tail_lo: int,
) -> bool {
    &&& 1 <= c <= t <= usize::MAX
    &&& 0 <= head_end
    &&& head_end + 1 <= win_lo
    &&& win_lo <= c <= win_hi
    &&& win_hi + 1 <= tail_lo <= t + 1
    &&& (left_ig ==> win_lo - head_end >= 3)
    &&& (!left_ig ==> win_lo == head_end + 1)
    &&& (right_ig ==> tail_lo - win_hi >= 3)
    &&& (!right_ig ==> tail_lo == win_hi + 1)
}

/// A well-formed skeleton satisfies every law, and its length is the sum of
/// its pieces.
#[verifier::rlimit(60)]
proof fn lemma_bar_shape_props(
    c: int,
    t: int,
    head_end: int,
    left_ig: bool,
    win_lo: int,
    win_hi: int,
    right_ig: bool,
    tail_lo: int,
)
    requires
        bar_shape_ok(c, t, head_end, left_ig, win_lo, win_hi, right_ig, tail_lo),
    ensures
        plan_invariants(bar_shape(c, t, head_end, left_ig, win_lo, win_hi, right_ig, tail_lo), c, t),
        bar_shape(c, t, head_end, left_ig, win_lo, win_hi, right_ig, tail_lo).len() == head_end + (
        if left_ig {
            1int
        } else {
            0int
        }) + (win_hi + 1 - win_lo) + (if right_ig {
            1int
        } else {
            0int
        }) + (t + 1 - tail_lo),
{
    let r = bar_shape(c, t, head_end, left_ig, win_lo, win_hi, right_ig, tail_lo);
    let lg: int = if left_ig {
        1
    } else {
        0
    };
    let rg: int = if right_ig {
        1
    } else {
        0
    };
    let l1 = head_end;
    let l2 = l1 + lg;
    let l3 = l2 + (c - win_lo);
    let l4 = l3 + 1;
    let l5 = l4 + (win_hi - c);
    let l6 = l5 + rg;
    let n = l6 + (t + 1 - tail_lo);

    assert(r.len() == n);
    assert forall|i: int| 0 <= i < l1 implies r[i] == PageItem::Page((1 + i) as usize) by {}
    assert(left_ig ==> r[l1] == PageItem::Ignore);
    assert forall|i: int| l2 <= i < l3 implies r[i] == PageItem::Page(
        (win_lo + (i - l2)) as usize,
    ) by {}
    assert(r[l3] == PageItem::CurrentPage(c as usize));
    assert forall|i: int| l4 <= i < l5 implies r[i] == PageItem::Page(
        (c + 1 + (i - l4)) as usize,
    ) by {}
    assert(right_ig ==> r[l5] == PageItem::Ignore);
    assert forall|i: int| l6 <= i < n implies r[i] == PageItem::Page(
        (tail_lo + (i - l6)) as usize,
    ) by {}

    // Each slot's page number, where there is one.
    assert forall|i: int| 0 <= i < n && item_page_no(r[i]) is Some implies {
        let v = item_page_no(r[i])->Some_0;
        &&& 1 <= v <= t
        &&& (0 <= i < l1 ==> v == 1 + i)
        &&& (l2 <= i < l3 ==> v == win_lo + (i - l2))
        &&& (i == l3 ==> v == c)
        &&& (l4 <= i < l5 ==> v == c + 1 + (i - l4))
        &&& (l6 <= i < n ==> v == tail_lo + (i - l6))
        &&& (left_ig ==> i != l1)
        &&& (right_ig ==> i != l5)
    } by {}

    assert(current_at(r, l3));
    assert forall|i: int| current_at(r, i) implies i == l3 && r[i] == PageItem::CurrentPage(
        c as usize,
    ) by {}

    assert forall|i: int, j: int|
        #![trigger item_page_no(r[i]), item_page_no(r[j])]
        0 <= i < j < n && item_page_no(r[i]) is Some && item_page_no(r[j]) is Some implies
    item_page_no(r[i])->Some_0 < item_page_no(r[j])->Some_0 by {}

    assert forall|i: int| 0 <= i < n && #[trigger] r[i] is Ignore implies (left_ig && i == l1) || (
    right_ig && i == l5) by {}

    assert forall|i: int| 0 < i < n && #[trigger] r[i] is Ignore implies !(r[i - 1] is Ignore) by {}

    assert forall|i: int| 0 <= i < n && #[trigger] r[i] is Ignore implies page_after(r, t, i)
        - page_before(r, i) >= 3 by {
        if left_ig && i == l1 {
            assert(page_before(r, i) == head_end);
            assert(page_after(r, t, i) == win_lo);
        }
        if right_ig && i == l5 {
            assert(page_before(r, i) == win_hi);
            assert(page_after(r, t, i) == tail_lo);
        }
    }
}

/// Whatever collapses, the planner's page items form a well-formed
/// skeleton: the laws hold of them and their count stays within the
/// post-control budget.
proof fn lemma_core_invariants(p: Paginator)
    requires
        p.valid(),
    ensures
        plan_invariants(p.core_items(), p.current_page as int, p.total_pages as int),
        1 <= p.core_items().len() <= p.spec_budget(),
{
    let t = p.total_pages as int;
    let c = p.current_page as int;
    let s = p.spec_start_size();
    let e = p.spec_end_size();
    let b = p.spec_budget();
    lemma_budget_floor(p);
    if p.spec_collapse_start() && p.spec_collapse_end() {
        lemma_collapse_budget(p);
        let ic = b - (s + e + 3);
        let w = ic / 2;
        if c - w <= s + 2 {
            lemma_bar_shape_props(c, t, 0, false, 1, b - e - 1, true, t - e + 1);
            assert(p.core_items() =~= bar_shape(c, t, 0, false, 1, b - e - 1, true, t - e + 1));
        } else if c + (ic - w) + 2 >= t - e + 1 {
            lemma_bar_shape_props(c, t, s, true, t - b + s + 2, t, false, t + 1);
            assert(p.core_items() =~= bar_shape(c, t, s, true, t - b + s + 2, t, false, t + 1));
        } else {
            lemma_bar_shape_props(c, t, s, true, c - w, c + (ic - w), true, t - e + 1);
            assert(p.core_items() =~= bar_shape(
                c,
                t,
                s,
                true,
                c - w,
                c + (ic - w),
                true,
                t - e + 1,
            ));
        }
    } else if p.spec_collapse_start() {
        lemma_collapse_budget(p);
        lemma_bar_shape_props(c, t, s, true, t - b + s + 2, t, false, t + 1);
        assert(p.core_items() =~= bar_shape(c, t, s, true, t - b + s + 2, t, false, t + 1));
    } else if p.spec_collapse_end() {
        lemma_collapse_budget(p);
        lemma_bar_shape_props(c, t, 0, false, 1, b - e - 1, true, t - e + 1);
        assert(p.core_items() =~= bar_shape(c, t, 0, false, 1, b - e - 1, true, t - e + 1));
    } else {
        // Neither side collapses, so the budget covers every page: were
        // `t > b`, the current page would sit within two of a pinned block
        // on both sides, forcing the required budget up to `t` itself.
        assert(t <= b);
        lemma_bar_shape_props(c, t, 0, false, 1, t, false, t + 1);
        assert(p.core_items() =~= bar_shape(c, t, 0, false, 1, t, false, t + 1));
    }
}

/// Wrapping the optional controls around the page items preserves every
/// law: a control occupies no page slot and is not an ellipsis.
proof fn lemma_wrap_controls(p: Paginator)
    requires
        plan_invariants(p.core_items(), p.current_page as int, p.total_pages as int),
    ensures
        plan_invariants(p.spec_paginate(), p.current_page as int, p.total_pages as int),
        p.spec_paginate().len() == p.core_items().len() + (if p.spec_show_prev() {
            1int
        } else {
            0int
        }) + (if p.spec_show_next() {
            1int
        } else {
            0int
        }),
{
    let cp = p.current_page as int;
    let t = p.total_pages as int;
    let core = p.core_items();
    let r = p.spec_paginate();
    let k: int = if p.spec_show_prev() {
        1
    } else {
        0
    };
    let m: int = if p.spec_show_next() {
        1
    } else {
        0
    };
    let n = core.len() as int;

    assert(r.len() == k + n + m);
    assert forall|i: int| k <= i < k + n implies r[i] == core[i - k] by {}
    assert(k == 1 ==> item_page_no(r[0]) is None && !(r[0] is Ignore) && !(r[0] is CurrentPage));
    assert(m == 1 ==> item_page_no(r[k + n]) is None && !(r[k + n] is Ignore) && !(r[k
        + n] is CurrentPage));

    let j = choose|j: int| current_at(core, j);
    assert(current_at(core, j));
    assert(current_at(r, j + k));
    assert forall|i1: int, i2: int| current_at(r, i1) && current_at(r, i2) implies i1 == i2 by {
        assert(k <= i1 < k + n);
        assert(k <= i2 < k + n);
        assert(current_at(core, i1 - k));
        assert(current_at(core, i2 - k));
    }
    assert forall|i: int| current_at(r, i) implies r[i] == PageItem::CurrentPage(
        cp as usize,
    ) by {
        assert(k <= i < k + n);
        assert(current_at(core, i - k));
    }

    assert forall|i: int, j2: int|
        #![trigger item_page_no(r[i]), item_page_no(r[j2])]
        0 <= i < j2 < r.len() && item_page_no(r[i]) is Some && item_page_no(r[j2]) is Some implies
    item_page_no(r[i])->Some_0 < item_page_no(r[j2])->Some_0 by {
        assert(k <= i < k + n);
        assert(k <= j2 < k + n);
        assert(item_page_no(core[i - k]) == item_page_no(r[i]));
        assert(item_page_no(core[j2 - k]) == item_page_no(r[j2]));
    }

    assert forall|i: int| 0 <= i < r.len() && #[trigger] item_page_no(r[i]) is Some implies 1
        <= item_page_no(r[i])->Some_0 <= t by {
        assert(k <= i < k + n);
        assert(item_page_no(core[i - k]) == item_page_no(r[i]));
    }

    assert forall|i: int| 0 < i < r.len() && #[trigger] r[i] is Ignore implies !(r[i
        - 1] is Ignore) by {
        assert(k <= i < k + n);
        if i - 1 >= k {
            assert(core[i - k] is Ignore);
        }
    }

    assert forall|i: int| 0 <= i < r.len() && #[trigger] r[i] is Ignore implies page_after(r, t, i)
        - page_before(r, i) >= 3 by {
        assert(k <= i < k + n);
        assert(core[i - k] is Ignore);
        assert(page_before(r, i) == page_before(core, i - k));
        assert(page_after(r, t, i) == page_after(core, t, i - k));
    }
}

/// For every valid layout the planner yields exactly one `CurrentPage` —
/// carrying the layout's own current page — its page numbers grow strictly
/// from left to right within `1..=total_pages` with no duplicates, and the
/// result is never empty.
pub proof fn lemma_paginate_pages_sound(p: Paginator)
    requires
        p.valid(),
    ensures
        exactly_one_current(p.spec_paginate()),
        forall|i: int|
            current_at(p.spec_paginate(), i) ==> p.spec_paginate()[i] == PageItem::CurrentPage(
                p.current_page,
            ),
        pages_strictly_increase(p.spec_paginate()),
        no_duplicate_pages(p.spec_paginate()),
        pages_within(p.spec_paginate(), p.total_pages as int),
        p.spec_paginate().len() >= 1,
{
    lemma_core_invariants(p);
    lemma_wrap_controls(p);
    let j = choose|j: int| current_at(p.spec_paginate(), j);
    assert(current_at(p.spec_paginate(), j));
}

/// For every valid layout the planner emits at most `max_item_count` items.
pub proof fn lemma_paginate_within_budget(p: Paginator)
    requires
        p.valid(),
    ensures
        p.spec_paginate().len() <= p.max_item_count,
{
    lemma_core_invariants(p);
    lemma_wrap_controls(p);
}

/// For every valid layout no ellipsis of the planner's result touches
/// another ellipsis, and every ellipsis stands for at least two hidden
/// pages.
pub proof fn lemma_paginate_ellipses_sound(p: Paginator)
    requires
        p.valid(),
    ensures
        no_adjacent_ellipses(p.spec_paginate()),
        ellipses_hide_two_or_more(p.spec_paginate(), p.total_pages as int),
{
    lemma_core_invariants(p);
    lemma_wrap_controls(p);
}

/// The planner is a pure function of the layout: equal layouts plan equal
/// item sequences, so planning twice changes nothing.
pub proof fn lemma_paginate_deterministic(a: Paginator, b: Paginator)
    requires
        a == b,
    ensures
        a.spec_paginate() == b.spec_paginate(),
{
}

} // verus!
