use vstd::math::min;
use vstd::prelude::*;
use vstd::string::StringExecFns;

use crate::page_item::append_digits;
use crate::page_item::spec_digits;
use crate::paginator::Paginator;
use crate::paginator_iter::PaginatorIter;
use crate::yes_no_depends::YesNoDepends;

verus! {

/// Why a raw configuration was rejected.
#[derive(Debug, Copy, Clone, Eq, PartialEq, Structural)]
pub enum PaginatorBuildError {
    CurrentPageZero,
    TotalPagesZero,
    CurrentPageTooLarge { current_page: usize, total_pages: usize },
    MaxItemCountTooSmall { min_item_count: usize },
}

impl PaginatorBuildError {
    /// The human-readable description of this error.
    pub open spec fn spec_message(self) -> Seq<char> {
        match self {
            PaginatorBuildError::CurrentPageZero => "current_page should not be zero"@,
            PaginatorBuildError::TotalPagesZero => "total_pages should not be zero"@,
            PaginatorBuildError::CurrentPageTooLarge { current_page, total_pages } => spec_digits(
                current_page as nat,
            ) + " > "@ + spec_digits(total_pages as nat) + " (current_page > total_pages)"@,
            PaginatorBuildError::MaxItemCountTooSmall { min_item_count } => {
                "max_item_count cannot be smaller than "@ + spec_digits(min_item_count as nat)
            },
        }
    }

    /// Describes this error, for reporting to a caller.
    pub fn message(&self) -> (r: String)
        ensures
            r@ == self.spec_message(),
    {
        match *self {
            PaginatorBuildError::CurrentPageZero => String::from_str(
                "current_page should not be zero",
            ),
            PaginatorBuildError::TotalPagesZero => String::from_str(
                "total_pages should not be zero",
            ),
            PaginatorBuildError::CurrentPageTooLarge { current_page, total_pages } => {
                let mut r = String::new();
                append_digits(&mut r, current_page);
                r.append(" > ");
                append_digits(&mut r, total_pages);
                r.append(" (current_page > total_pages)");
                r
            },
            PaginatorBuildError::MaxItemCountTooSmall { min_item_count } => {
                let mut r = String::from_str("max_item_count cannot be smaller than ");
                append_digits(&mut r, min_item_count);
                r
            },
        }
    }
}

/// Raw layout parameters, validated into a `Paginator` or a `PaginatorIter`.
#[derive(Debug, Clone, Eq, PartialEq, Structural)]
pub struct PaginatorBuilder {
    /// The number of pages.
    pub total_pages: usize,
    /// The number of the current page.
    pub current_page: usize,
    /// The max number of `PageItem`s after generated.
    pub max_item_count: usize,
    /// The number of `PageItem`s (the `PageItem::Prev` item is excluded) on
    /// the start edge (before the first `PageItem::Ignore` item).
    pub start_size: usize,
    /// The number of `PageItem`s (the `PageItem::Next` item is excluded) on
    /// the end edge (after the last `PageItem::Ignore` item).
    pub end_size: usize,
    /// Whether to add the `PageItem::Prev` item.
    pub has_prev: bool,
    /// Whether to add the `PageItem::Next` item.
    pub has_next: bool,
}

/// The tri-state a builder switch stands for: a requested control is emitted
/// when applicable, an unrequested one never.
pub open spec fn control_of(b: bool) -> YesNoDepends {
    if b {
        YesNoDepends::Depends
    } else {
        YesNoDepends::No
    }
}

impl PaginatorBuilder {
    /// The smallest acceptable `max_item_count` for these parameters: for up
    /// to two pages every page must fit; otherwise both pinned blocks, the
    /// current page and both ellipsis slots must fit (capped at the page
    /// count), plus one slot per requested control.
    pub open spec fn spec_min_item_count(self) -> int {
        let t = self.total_pages as int;
        if t == 0 {
            0
        } else if t <= 2 {
            t
        } else {
            let s = min(self.start_size as int, t);
            let e = min(self.end_size as int, t);
            min(s + e + 3, t) + (if self.has_prev {
                1int
            } else {
                0int
            }) + (if self.has_next {
                1int
            } else {
                0int
            })
        }
    }

    /// Whether the machine can represent the minimum item count; only page
    /// counts within two of `usize::MAX` with a requested control fall out.
    pub open spec fn min_fits(self) -> bool {
        self.spec_min_item_count() <= usize::MAX
    }

    /// The outcome validation decides for these parameters: the first failed
    /// check wins.
    pub open spec fn spec_check(self) -> Result<(), PaginatorBuildError> {
        if self.current_page == 0 {
            Err(PaginatorBuildError::CurrentPageZero)
        } else if self.total_pages == 0 {
            Err(PaginatorBuildError::TotalPagesZero)
        } else if self.current_page > self.total_pages {
            Err(
                PaginatorBuildError::CurrentPageTooLarge {
                    current_page: self.current_page,
                    total_pages: self.total_pages,
                },
            )
        } else if (self.max_item_count as int) < self.spec_min_item_count() {
            Err(
                PaginatorBuildError::MaxItemCountTooSmall {
                    min_item_count: self.spec_min_item_count() as usize,
                },
            )
        } else {
            Ok(())
        }
    }

    /// The `Paginator` these parameters validate to.
    pub open spec fn spec_paginator(self) -> Paginator {
        Paginator {
            total_pages: self.total_pages,
            current_page: self.current_page,
            max_item_count: self.max_item_count,
            start_size: self.start_size,
            end_size: self.end_size,
            has_prev: control_of(self.has_prev),
            has_next: control_of(self.has_next),
        }
    }

    /// The `PaginatorIter` these parameters validate to.
    pub open spec fn spec_paginator_iter(self) -> PaginatorIter {
        PaginatorIter {
            total_pages: self.total_pages,
            current_page: self.current_page,
            back_page: self.total_pages,
            max_item_count: self.max_item_count,
            start_size: self.start_size,
            end_size: self.end_size,
            has_prev: control_of(self.has_prev),
            has_next: control_of(self.has_next),
        }
    }
}

/// The builder's minimum item count is exactly the budget floor that
/// `Paginator::valid()` demands of the layout it builds.
proof fn lemma_min_is_required_budget(b: PaginatorBuilder)
    requires
        b.total_pages >= 1,
    ensures
        b.spec_min_item_count() == b.spec_paginator().spec_required_budget(),
{
}

/// The default layout for `total_pages` pages: current page 1, at most 9
/// items, one pinned page on either edge, both controls requested.
pub open spec fn default_builder(total_pages: usize) -> PaginatorBuilder {
    PaginatorBuilder {
        total_pages,
        current_page: 1,
        max_item_count: 9,
        start_size: 1,
        end_size: 1,
        has_prev: true,
        has_next: true,
    }
}

impl PaginatorBuilder {
    /// A builder for `total_pages` pages with the default layout.
    pub fn new(total_pages: usize) -> (r: PaginatorBuilder)
        ensures
            r == default_builder(total_pages),
    {
        PaginatorBuilder {
            total_pages,
            current_page: 1,
            max_item_count: 9,
            start_size: 1,
            end_size: 1,
            has_prev: true,
            has_next: true,
        }
    }

    /// Set the number of pages.
    pub fn total_pages(self, total_pages: usize) -> (r: PaginatorBuilder)
        ensures
            r == (PaginatorBuilder { total_pages, ..self }),
    {
        PaginatorBuilder { total_pages, ..self }
    }

    /// Set the number of the current page.
    pub fn current_page(self, current_page: usize) -> (r: PaginatorBuilder)
        ensures
            r == (PaginatorBuilder { current_page, ..self }),
    {
        PaginatorBuilder { current_page, ..self }
    }

    /// Set the max number of `PageItem`s after generated.
    pub fn max_item_count(self, max_item_count: usize) -> (r: PaginatorBuilder)
        ensures
            r == (PaginatorBuilder { max_item_count, ..self }),
    {
        PaginatorBuilder { max_item_count, ..self }
    }

    /// Set the number of pinned pages on the start edge.
    pub fn start_size(self, start_size: usize) -> (r: PaginatorBuilder)
        ensures
            r == (PaginatorBuilder { start_size, ..self }),
    {
        PaginatorBuilder { start_size, ..self }
    }

    /// Set the number of pinned pages on the end edge.
    pub fn end_size(self, end_size: usize) -> (r: PaginatorBuilder)
        ensures
            r == (PaginatorBuilder { end_size, ..self }),
    {
        PaginatorBuilder { end_size, ..self }
    }

    /// Set whether to add the `PageItem::Prev` item.
    pub fn has_prev(self, has_prev: bool) -> (r: PaginatorBuilder)
        ensures
            r == (PaginatorBuilder { has_prev, ..self }),
    {
        PaginatorBuilder { has_prev, ..self }
    }

    /// Set whether to add the `PageItem::Next` item.
    pub fn has_next(self, has_next: bool) -> (r: PaginatorBuilder)
        ensures
            r == (PaginatorBuilder { has_next, ..self }),
    {
        PaginatorBuilder { has_next, ..self }
    }
}

impl PaginatorBuilder {
    /// Computes the smallest acceptable `max_item_count`.
    fn compute_min_item_count(&self) -> (r: usize)
        requires
            self.min_fits(),
        ensures
            r as int == self.spec_min_item_count(),
    {
        if self.total_pages <= 2 {
            return self.total_pages;
        }
        let t = self.total_pages;
        let start_size = if self.start_size < t {
            self.start_size
        } else {
            t
        };
        let end_size = if self.end_size < t {
            self.end_size
        } else {
            t
        };
        let headroom = t - start_size;
        let mut min_item_count = if headroom <= 3 {
            t
        } else if end_size >= headroom - 3 {
            t
        } else {
            start_size + end_size + 3
        };
        if self.has_prev {
            min_item_count += 1;
        }
        if self.has_next {
            min_item_count += 1;
        }
        min_item_count
    }

    /// Runs the validation checks shared by both build paths.
    fn build_check_common(&self) -> (r: Result<(), PaginatorBuildError>)
        requires
            self.min_fits(),
        ensures
            r == self.spec_check(),
    {
        if self.current_page == 0 {
            return Err(PaginatorBuildError::CurrentPageZero);
        }
        if self.total_pages == 0 {
            return Err(PaginatorBuildError::TotalPagesZero);
        }
        if self.current_page > self.total_pages {
            return Err(
                PaginatorBuildError::CurrentPageTooLarge {
                    current_page: self.current_page,
                    total_pages: self.total_pages,
                },
            );
        }
        let min_item_count = self.compute_min_item_count();
        if self.max_item_count < min_item_count {
            return Err(PaginatorBuildError::MaxItemCountTooSmall { min_item_count });
        }
        Ok(())
    }

    /// Validates the parameters into a `Paginator`, or reports the first
    /// failed check.
    pub fn build_paginator(self) -> (r: Result<Paginator, PaginatorBuildError>)
        requires
            self.min_fits(),
        ensures
            self.spec_check() is Ok ==> r == Ok::<Paginator, PaginatorBuildError>(
                self.spec_paginator(),
            ) && self.spec_paginator().valid(),
            self.spec_check() is Err ==> r == Err::<Paginator, PaginatorBuildError>(
                self.spec_check()->Err_0,
            ),
    {
        match self.build_check_common() {
            Err(error) => Err(error),
            Ok(()) => {
                proof {
                    lemma_min_is_required_budget(self);
                }
                Ok(
                    Paginator {
                        total_pages: self.total_pages,
                        current_page: self.current_page,
                        max_item_count: self.max_item_count,
                        start_size: self.start_size,
                        end_size: self.end_size,
                        has_prev: if self.has_prev {
                            YesNoDepends::Depends
                        } else {
                            YesNoDepends::No
                        },
                        has_next: if self.has_next {
                            YesNoDepends::Depends
                        } else {
                            YesNoDepends::No
                        },
                    },
                )
            },
        }
    }

    /// Validates the parameters into a `PaginatorIter` that starts from the
    /// configured current page, or reports the first failed check.
    pub fn build_paginator_iter(self) -> (r: Result<PaginatorIter, PaginatorBuildError>)
        requires
            self.min_fits(),
        ensures
            self.spec_check() is Ok ==> r == Ok::<PaginatorIter, PaginatorBuildError>(
                self.spec_paginator_iter(),
            ) && self.spec_paginator_iter().wf(),
            self.spec_check() is Err ==> r == Err::<PaginatorIter, PaginatorBuildError>(
                self.spec_check()->Err_0,
            ),
    {
        match self.build_check_common() {
            Err(error) => Err(error),
            Ok(()) => {
                proof {
                    lemma_min_is_required_budget(self);
                }
                Ok(
                    PaginatorIter {
                        total_pages: self.total_pages,
                        current_page: self.current_page,
                        back_page: self.total_pages,
                        max_item_count: self.max_item_count,
                        start_size: self.start_size,
                        end_size: self.end_size,
                        has_prev: if self.has_prev {
                            YesNoDepends::Depends
                        } else {
                            YesNoDepends::No
                        },
                        has_next: if self.has_next {
                            YesNoDepends::Depends
                        } else {
                            YesNoDepends::No
                        },
                    },
                )
            },
        }
    }
}

impl Paginator {
    /// An alias of `PaginatorBuilder::new`.
    pub fn builder(total_pages: usize) -> (r: PaginatorBuilder)
        ensures
            r == default_builder(total_pages),
    {
        PaginatorBuilder::new(total_pages)
    }
}

impl PaginatorIter {
    /// An alias of `PaginatorBuilder::new`.
    pub fn builder(total_pages: usize) -> (r: PaginatorBuilder)
        ensures
            r == default_builder(total_pages),
    {
        PaginatorBuilder::new(total_pages)
    }
}

} // verus!
