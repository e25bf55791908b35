use vstd::prelude::*;

use crate::paginator::Paginator;
use crate::yes_no_depends::YesNoDepends;

verus! {

/// A bidirectional, restartable series of `Paginator`s sharing every field
/// but the current page, which runs over `[1, total_pages]`. Two cursors walk
/// towards each other; the series is exhausted once they cross.
#[derive(Debug, Clone, Eq, PartialEq, Structural)]
pub struct PaginatorIter {
    pub total_pages: usize,
    pub current_page: usize,
    pub back_page: usize,
    pub max_item_count: usize,
    pub start_size: usize,
    pub end_size: usize,
    pub has_prev: YesNoDepends,
    pub has_next: YesNoDepends,
}

impl PaginatorIter {
    /// The layout this series yields, pinned to `page`.
    pub open spec fn spec_config(self, page: int) -> Paginator {
        Paginator {
            total_pages: self.total_pages,
            current_page: page as usize,
            max_item_count: self.max_item_count,
            start_size: self.start_size,
            end_size: self.end_size,
            has_prev: self.has_prev,
            has_next: self.has_next,
        }
    }

    /// Well-formedness kept by every advance: the cursors stay inside
    /// `[1, total_pages]` (the forward cursor may sit one past the backward
    /// one once the series is exhausted), and the shared layout fields would
    /// make a valid `Paginator` for any page in range.
    pub open spec fn wf(self) -> bool {
        &&& 1 <= self.current_page
        &&& self.current_page <= self.back_page + 1
        &&& self.back_page <= self.total_pages
        &&& 1 <= self.total_pages
        &&& self.spec_config(1).valid()
    }

    /// How many layouts are still to be yielded.
    pub open spec fn remaining(self) -> int {
        if self.current_page <= self.back_page {
            self.back_page + 1 - self.current_page
        } else {
            0
        }
    }

    /// The layouts a full forward traversal yields, in order.
    pub open spec fn fwd_configs(self) -> Seq<Paginator> {
        Seq::new(self.remaining() as nat, |i: int| self.spec_config(self.current_page + i))
    }

    /// The layouts a full backward traversal yields, in order.
    pub open spec fn back_configs(self) -> Seq<Paginator> {
        Seq::new(self.remaining() as nat, |i: int| self.spec_config(self.back_page - i))
    }

    /// The whole series seen backward is exactly the forward series
    /// reversed, however far either cursor has already advanced.
    pub proof fn lemma_backward_is_forward_reversed(self)
        ensures
            self.back_configs() == self.fwd_configs().reverse(),
    {
        assert(self.back_configs() =~= self.fwd_configs().reverse());
    }

    /// The `Paginator` with this series' shared fields and the given page.
    fn to_page_config(&self, current_page: usize) -> (r: Paginator)
        ensures
            r == self.spec_config(current_page as int),
    {
        Paginator {
            total_pages: self.total_pages,
            current_page,
            max_item_count: self.max_item_count,
            start_size: self.start_size,
            end_size: self.end_size,
            has_prev: self.has_prev,
            has_next: self.has_next,
        }
    }

    /// Yields the layout under the forward cursor and advances it.
    pub fn next(&mut self) -> (r: Option<Paginator>)
        requires
            old(self).wf(),
        ensures
            final(self).wf(),
            old(self).remaining() == 0 ==> r is None && *final(self) == *old(self),
            old(self).remaining() > 0 ==> {
                &&& r == Some(old(self).spec_config(old(self).current_page as int))
                &&& r->Some_0.valid()
                &&& final(self).remaining() == old(self).remaining() - 1
                &&& final(self).fwd_configs() == old(self).fwd_configs().drop_first()
                &&& final(self).back_configs() == old(self).back_configs().drop_last()
                &&& final(self).spec_config(1) == old(self).spec_config(1)
            },
    {
        if self.current_page <= self.back_page {
            let config = self.to_page_config(self.current_page);
            if self.current_page < self.back_page {
                self.current_page += 1;
            } else {
                self.back_page = self.current_page - 1;
            }
            proof {
                assert(self.fwd_configs() =~= old(self).fwd_configs().drop_first());
                assert(self.back_configs() =~= old(self).back_configs().drop_last());
            }
            Some(config)
        } else {
            None
        }
    }

    /// Yields the layout under the backward cursor and retreats it.
    pub fn next_back(&mut self) -> (r: Option<Paginator>)
        requires
            old(self).wf(),
        ensures
            final(self).wf(),
            old(self).remaining() == 0 ==> r is None && *final(self) == *old(self),
            old(self).remaining() > 0 ==> {
                &&& r == Some(old(self).spec_config(old(self).back_page as int))
                &&& r->Some_0.valid()
                &&& final(self).remaining() == old(self).remaining() - 1
                &&& final(self).back_configs() == old(self).back_configs().drop_first()
                &&& final(self).fwd_configs() == old(self).fwd_configs().drop_last()
                &&& final(self).spec_config(1) == old(self).spec_config(1)
            },
    {
        if self.current_page <= self.back_page {
            let config = self.to_page_config(self.back_page);
            self.back_page -= 1;
            proof {
                assert(self.back_configs() =~= old(self).back_configs().drop_first());
                assert(self.fwd_configs() =~= old(self).fwd_configs().drop_last());
            }
            Some(config)
        } else {
            None
        }
    }

    /// How many layouts are left, as an exact lower and upper bound.
    pub fn size_hint(&self) -> (r: (usize, Option<usize>))
        requires
            self.wf(),
        ensures
            r.0 as int == self.remaining(),
            r.1 == Some(r.0),
    {
        let remaining_pages = self.back_page - (self.current_page - 1);
        (remaining_pages, Some(remaining_pages))
    }

    /// How many layouts a full forward traversal would still yield.
    pub fn count(self) -> (r: usize)
        requires
            self.wf(),
        ensures
            r as int == self.remaining(),
    {
        if self.current_page <= self.back_page {
            self.back_page - (self.current_page - 1)
        } else {
            0
        }
    }

    /// The layout for the last page of the series, if any is left.
    pub fn last(self) -> (r: Option<Paginator>)
        requires
            self.wf(),
        ensures
            self.remaining() == 0 ==> r is None,
            self.remaining() > 0 ==> r == Some(self.spec_config(self.back_page as int))
                && r->Some_0.valid(),
    {
        if self.current_page <= self.back_page {
            Some(self.to_page_config(self.back_page))
        } else {
            None
        }
    }

    /// Skips `n` layouts forward, then yields the next one, if any is left.
    pub fn nth(&mut self, n: usize) -> (r: Option<Paginator>)
        requires
            old(self).wf(),
        ensures
            final(self).wf(),
            final(self).spec_config(1) == old(self).spec_config(1),
            n < old(self).remaining() ==> {
                &&& r == Some(old(self).spec_config(old(self).current_page + n))
                &&& r->Some_0.valid()
                &&& final(self).remaining() == old(self).remaining() - n - 1
                &&& final(self).fwd_configs() == old(self).fwd_configs().skip(n as int + 1)
            },
            n >= old(self).remaining() ==> r is None && final(self).remaining() == 0,
    {
        if self.current_page <= self.back_page && n <= self.back_page - self.current_page {
            let page = self.current_page + n;
            let config = self.to_page_config(page);
            if page < self.back_page {
                self.current_page = page + 1;
            } else {
                self.current_page = page;
                self.back_page = page - 1;
            }
            proof {
                assert(self.fwd_configs() =~= old(self).fwd_configs().skip(n as int + 1));
            }
            Some(config)
        } else {
            self.back_page = self.current_page - 1;
            None
        }
    }

    /// Skips `n` layouts backward, then yields the next one from the back,
    /// if any is left.
    pub fn nth_back(&mut self, n: usize) -> (r: Option<Paginator>)
        requires
            old(self).wf(),
        ensures
            final(self).wf(),
            final(self).spec_config(1) == old(self).spec_config(1),
            n < old(self).remaining() ==> {
                &&& r == Some(old(self).spec_config(old(self).back_page - n))
                &&& r->Some_0.valid()
                &&& final(self).remaining() == old(self).remaining() - n - 1
                &&& final(self).back_configs() == old(self).back_configs().skip(n as int + 1)
            },
            n >= old(self).remaining() ==> r is None && final(self).remaining() == 0,
    {
        if self.current_page <= self.back_page && n <= self.back_page - self.current_page {
            let page = self.back_page - n;
            let config = self.to_page_config(page);
            self.back_page = page - 1;
            proof {
                assert(self.back_configs() =~= old(self).back_configs().skip(n as int + 1));
            }
            Some(config)
        } else {
            self.back_page = self.current_page - 1;
            None
        }
    }
}

impl Paginator {
    /// The series of layouts from this one's current page up to the last
    /// page.
    pub fn iter(&self) -> (r: PaginatorIter)
        requires
            self.valid(),
        ensures
            r.wf(),
            r == (PaginatorIter {
                total_pages: self.total_pages,
                current_page: self.current_page,
                back_page: self.total_pages,
                max_item_count: self.max_item_count,
                start_size: self.start_size,
                end_size: self.end_size,
                has_prev: self.has_prev,
                has_next: self.has_next,
            }),
    {
        PaginatorIter {
            total_pages: self.total_pages,
            current_page: self.current_page,
            back_page: self.total_pages,
            max_item_count: self.max_item_count,
            start_size: self.start_size,
            end_size: self.end_size,
            has_prev: self.has_prev,
            has_next: self.has_next,
        }
    }
}

} // verus!
