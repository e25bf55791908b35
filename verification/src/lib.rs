//! A verified pagination-bar planner.
//!
//! Given a total page count, a current page and layout constraints (an item
//! budget, pinned leading/trailing blocks, optional previous/next controls),
//! the library computes the ordered list of items a pagination bar shows,
//! collapsing runs of far-away pages into ellipses while never exceeding the
//! budget, never dropping or duplicating a page reference, and never letting
//! an ellipsis stand for fewer than two pages.

use vstd::prelude::*;

mod page_item;
mod paginator;
mod paginator_builder;
mod paginator_iter;
mod plan_props;
mod yes_no_depends;

pub use page_item::digit_char;
pub use page_item::item_page_no;
pub use page_item::spec_digits;
pub use page_item::spec_item_text;
pub use page_item::spec_items_text;
pub use page_item::PageItem;
pub use paginator::control_reserve;
pub use paginator::page_run;
pub use paginator::page_window;
pub use paginator::Paginator;
pub use paginator_builder::control_of;
pub use paginator_builder::default_builder;
pub use paginator_builder::PaginatorBuildError;
pub use paginator_builder::PaginatorBuilder;
pub use paginator_iter::PaginatorIter;
pub use plan_props::current_at;
pub use plan_props::ellipses_hide_two_or_more;
pub use plan_props::exactly_one_current;
pub use plan_props::lemma_paginate_deterministic;
pub use plan_props::lemma_paginate_ellipses_sound;
pub use plan_props::lemma_paginate_pages_sound;
pub use plan_props::lemma_paginate_within_budget;
pub use plan_props::no_adjacent_ellipses;
pub use plan_props::no_duplicate_pages;
pub use plan_props::page_after;
pub use plan_props::page_before;
pub use plan_props::pages_strictly_increase;
pub use plan_props::pages_within;
pub use plan_props::plan_invariants;
pub use yes_no_depends::YesNoDepends;

use page_item::append_item_text;
use vstd::string::StringExecFns;

verus! {

/// Format `PageItem`s to a string. Usually for debug or logging.
///
/// Items are joined by single spaces; a page shows as its number, the
/// current page as its number followed by `*`, an ellipsis as `...`, the
/// prev/next controls as `<`/`>` and their reserved stand-ins as `)`/`(`.
pub fn page_items_to_string(page_items: &[PageItem]) -> (r: String)
    ensures
        r@ == spec_items_text(page_items@),
{
    let mut text = String::new();
    let n = page_items.len();
    let mut i: usize = 0;
    while i < n
        invariant
            n == page_items@.len(),
            i <= n,
            text@ == spec_items_text(page_items@.take(i as int)),
        decreases n - i,
    {
        if i > 0 {
            text.append(" ");
            proof {
                reveal_strlit(" ");
            }
        }
        append_item_text(&mut text, page_items[i]);
        proof {
            assert(page_items@.take(i + 1).drop_last() =~= page_items@.take(i as int));
            assert(text@ =~= spec_items_text(page_items@.take(i + 1)));
        }
        i += 1;
    }
    proof {
        assert(page_items@.take(n as int) =~= page_items@);
    }
    text
}

} // verus!
