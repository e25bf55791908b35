use paginator::{
    page_items_to_string, PageItem, Paginator, PaginatorBuildError, PaginatorBuilder,
};

fn page_no(item: &PageItem) -> Option<usize> {
    match item {
        PageItem::Page(n) => Some(*n),
        PageItem::CurrentPage(n) => Some(*n),
        _ => None,
    }
}

fn check_laws(p: &Paginator) {
    let items = p.paginate();

    // The item budget is kept and the result is never empty.
    assert!(items.len() <= p.max_item_count());
    assert!(!items.is_empty());

    // Exactly one current page, every page in range, no duplicates (the
    // page numbers grow strictly left to right).
    let mut currents = 0;
    let mut pages: Vec<usize> = Vec::new();
    for item in items.iter() {
        if let PageItem::CurrentPage(n) = item {
            currents += 1;
            assert_eq!(*n, p.current_page());
        }
        if let Some(n) = page_no(item) {
            assert!(1 <= n && n <= p.total_pages());
            pages.push(n);
        }
    }
    assert_eq!(currents, 1);
    for pair in pages.windows(2) {
        assert!(pair[0] < pair[1]);
    }

    // No two adjacent ellipses, and every ellipsis hides at least 2 pages.
    for (i, item) in items.iter().enumerate() {
        if matches!(item, PageItem::Ignore) {
            if i + 1 < items.len() {
                assert!(!matches!(items[i + 1], PageItem::Ignore));
            }
            let before = if i > 0 { page_no(&items[i - 1]).unwrap_or(0) } else { 0 };
            let after = if i + 1 < items.len() {
                page_no(&items[i + 1]).unwrap_or(p.total_pages() + 1)
            } else {
                p.total_pages() + 1
            };
            assert!(after - before >= 3, "ellipsis hides fewer than two pages: {:?}", items);
        }
    }
}

#[test]
fn laws_hold_across_small_layouts() {
    for total in 1..=24usize {
        for &(start, end) in &[(1usize, 1usize), (0, 0), (2, 3), (0, 2), (30, 1)] {
            for &prev in &[true, false] {
                for &next in &[true, false] {
                    let base = PaginatorBuilder::new(total)
                        .start_size(start)
                        .end_size(end)
                        .has_prev(prev)
                        .has_next(next);
                    let min = (0..=total + 5)
                        .find(|&m| {
                            base.clone().max_item_count(m).build_paginator().is_ok()
                        })
                        .unwrap();
                    for max in [min, min + 1, min + 2, min + 5] {
                        for current in 1..=total {
                            let p = base
                                .clone()
                                .max_item_count(max)
                                .current_page(current)
                                .build_paginator()
                                .unwrap();
                            check_laws(&p);
                        }
                    }
                }
            }
        }
    }
}

#[test]
fn paginate_twice_yields_equal_sequences() {
    let p = Paginator::builder(20)
        .current_page(13)
        .max_item_count(17)
        .build_paginator()
        .unwrap();
    assert_eq!(p.paginate(), p.paginate());
}

#[test]
fn forward_then_backward_reversed_are_equal() {
    let mut fwd = PaginatorBuilder::new(7).build_paginator_iter().unwrap();
    let mut bwd = PaginatorBuilder::new(7).build_paginator_iter().unwrap();

    let mut forward: Vec<Paginator> = Vec::new();
    while let Some(p) = fwd.next() {
        forward.push(p);
    }
    let mut backward: Vec<Paginator> = Vec::new();
    while let Some(p) = bwd.next_back() {
        backward.push(p);
    }
    backward.reverse();
    assert_eq!(forward, backward);
    assert_eq!(forward.len(), 7);
}

#[test]
fn error_variants_and_messages() {
    let e = PaginatorBuilder::new(1).current_page(0).build_paginator().unwrap_err();
    assert_eq!(e, PaginatorBuildError::CurrentPageZero);
    assert_eq!(e.message(), "current_page should not be zero");

    let e = PaginatorBuilder::new(0).build_paginator().unwrap_err();
    assert_eq!(e, PaginatorBuildError::TotalPagesZero);
    assert_eq!(e.message(), "total_pages should not be zero");

    let e = PaginatorBuilder::new(3).current_page(5).build_paginator().unwrap_err();
    assert_eq!(
        e,
        PaginatorBuildError::CurrentPageTooLarge { current_page: 5, total_pages: 3 }
    );
    assert_eq!(e.message(), "5 > 3 (current_page > total_pages)");

    let e = PaginatorBuilder::new(10)
        .start_size(2)
        .end_size(3)
        .has_prev(true)
        .has_next(false)
        .max_item_count(8)
        .build_paginator()
        .unwrap_err();
    assert_eq!(e, PaginatorBuildError::MaxItemCountTooSmall { min_item_count: 9 });
    assert_eq!(e.message(), "max_item_count cannot be smaller than 9");
}

#[test]
fn no_pinned_pages_allows_bare_ellipses() {
    let p = PaginatorBuilder::new(9)
        .start_size(0)
        .end_size(0)
        .has_prev(false)
        .has_next(false)
        .max_item_count(3)
        .current_page(5)
        .build_paginator()
        .unwrap();
    assert_eq!("... 5* ...", page_items_to_string(p.paginate().as_slice()));
}

#[test]
fn pinned_sizes_clamp_to_total_pages() {
    let p = PaginatorBuilder::new(9)
        .start_size(50)
        .end_size(50)
        .max_item_count(11)
        .current_page(5)
        .build_paginator()
        .unwrap();
    assert_eq!(
        "< 1 2 3 4 5* 6 7 8 9 >",
        page_items_to_string(p.paginate().as_slice())
    );
}

#[test]
fn largest_page_count_collapses_the_tail() {
    let p = PaginatorBuilder::new(usize::MAX)
        .has_prev(false)
        .has_next(false)
        .build_paginator()
        .unwrap();
    let expected = format!("1* 2 3 4 5 6 7 ... {}", usize::MAX);
    assert_eq!(expected, page_items_to_string(p.paginate().as_slice()));
}

#[test]
fn empty_and_single_item_text() {
    assert_eq!("", page_items_to_string(&[]));
    assert_eq!("705", page_items_to_string(&[PageItem::Page(705)]));
    assert_eq!(
        "( )",
        page_items_to_string(&[PageItem::ReservedNext, PageItem::ReservedPrev])
    );
}

#[test]
fn iter_starts_at_the_current_page() {
    let p = Paginator::builder(5).current_page(3).build_paginator().unwrap();
    let mut iter = p.iter();
    assert_eq!(3, iter.next().unwrap().current_page());
    assert_eq!(4, iter.next().unwrap().current_page());
    assert_eq!(5, iter.next().unwrap().current_page());
    assert_eq!(None, iter.next());
}

#[test]
fn iter_count_size_hint_last() {
    let iter = PaginatorBuilder::new(6).build_paginator_iter().unwrap();
    assert_eq!((6, Some(6)), iter.size_hint());
    assert_eq!(6, iter.clone().count());
    assert_eq!(6, iter.last().unwrap().current_page());

    let mut iter = PaginatorBuilder::new(6).build_paginator_iter().unwrap();
    iter.next();
    iter.next_back();
    assert_eq!((4, Some(4)), iter.size_hint());
    assert_eq!(4, iter.count());
}

#[test]
fn iter_nth_and_nth_back() {
    let mut iter = PaginatorBuilder::new(9).build_paginator_iter().unwrap();
    assert_eq!(3, iter.nth(2).unwrap().current_page());
    assert_eq!(8, iter.nth_back(1).unwrap().current_page());
    assert_eq!(4, iter.next().unwrap().current_page());
    assert_eq!(None, iter.nth(10));
    assert_eq!(0, iter.count());

    let mut iter = PaginatorBuilder::new(4).build_paginator_iter().unwrap();
    assert_eq!(None, iter.nth_back(7));
    assert_eq!(None, iter.next());
}
