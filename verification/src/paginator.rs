//! Reading a backend's build list page by page: the cursor that says when
//! a page has to be fetched, and hands the entries out one at a time.

use crate::drone::DroneBuildListItem;
use std::collections::VecDeque;
use vstd::prelude::*;

verus! {

/// The number of entries that a backend puts on one page.
pub const PAGE_SIZE: usize = 50;

/// A list of builds, newest first, as a backend sends one page of it.
#[derive(Debug, Clone)]
pub struct DroneBuildList(pub VecDeque<DroneBuildListItem>);

impl View for DroneBuildList {
    type V = Seq<DroneBuildListItem>;

    open spec fn view(&self) -> Seq<DroneBuildListItem> {
        self.0@
    }
}

impl DroneBuildList {
    /// A list without entries.
    pub fn new() -> (list: Self)
        ensures
            list@ == Seq::<DroneBuildListItem>::empty(),
    {
        DroneBuildList(VecDeque::new())
    }

    /// A list without entries, with room for `capacity` of them.
    pub fn with_capacity(capacity: usize) -> (list: Self)
        ensures
            list@ == Seq::<DroneBuildListItem>::empty(),
    {
        DroneBuildList(VecDeque::with_capacity(capacity))
    }
}

/// What the cursor needs next.
#[derive(Debug, Clone, Copy, PartialEq, Eq, Structural)]
pub enum PaginatorAction {
    /// No entry is buffered: fetch the page of this number and hand it to
    /// `receive_page`.
    FetchPage(usize),
    /// Entries are buffered: take the next one.
    TakeBuffered,
}

/// A cursor over a backend's build list. It holds the number of the page
/// to fetch next, counted from 1, and the entries of the last page fetched
/// that were not handed out yet. It only moves forward.
#[derive(Debug, Clone)]
pub struct DroneBuildsPaginator {
    page: usize,
    cached: DroneBuildList,
}

impl DroneBuildsPaginator {
    /// The number of the page to fetch next.
    pub closed spec fn spec_page(&self) -> usize {
        self.page
    }

    /// The entries that are buffered, the next one to hand out first.
    pub closed spec fn spec_cached(&self) -> Seq<DroneBuildListItem> {
        self.cached@
    }

    /// What the cursor needs next: a page exactly when nothing is buffered.
    pub open spec fn spec_next_action(&self) -> PaginatorAction {
        if self.spec_cached().len() == 0 {
            PaginatorAction::FetchPage(self.spec_page())
        } else {
            PaginatorAction::TakeBuffered
        }
    }

    /// A cursor at the first page, with nothing buffered.
    pub fn new() -> (paginator: Self)
        ensures
            paginator.spec_page() == 1,
            paginator.spec_cached() == Seq::<DroneBuildListItem>::empty(),
    {
        DroneBuildsPaginator { page: 1, cached: DroneBuildList::with_capacity(PAGE_SIZE) }
    }

    /// The number of the page to fetch next.
    pub fn page(&self) -> (page: usize)
        ensures
            page == self.spec_page(),
    {
        self.page
    }

    /// How many entries are buffered.
    pub fn buffered(&self) -> (count: usize)
        ensures
            count == self.spec_cached().len(),
    {
        self.cached.0.len()
    }

    /// Moves the cursor `pages` pages on without fetching any, and drops
    /// what was buffered. With `pages` at 0 nothing changes.
    pub fn skip_pages(self, pages: usize) -> (paginator: Self)
        requires
            self.spec_page() + pages <= usize::MAX,
        ensures
            paginator.spec_page() == self.spec_page() + pages,
            paginator.spec_cached() == if pages > 0 {
                Seq::<DroneBuildListItem>::empty()
            } else {
                self.spec_cached()
            },
    {
        let mut paginator = self;
        let _ = paginator.skip_pages_mut(pages);
        paginator
    }

    /// Moves the cursor `pages` pages on without fetching any, and drops
    /// what was buffered. With `pages` at 0 nothing changes. Hands the
    /// cursor back, so that calls can be chained.
    pub fn skip_pages_mut(&mut self, pages: usize) -> (paginator: &mut Self)
        requires
            old(self).spec_page() + pages <= usize::MAX,
        ensures
            paginator.spec_page() == old(self).spec_page() + pages,
            paginator.spec_cached() == if pages > 0 {
                Seq::<DroneBuildListItem>::empty()
            } else {
                old(self).spec_cached()
            },
            *final(self) == *final(paginator),
    {
        if pages > 0 {
            self.cached.0.clear();
            self.page = self.page + pages;
        }
        self
    }

    /// What the cursor needs next: a page is asked for only when nothing is
    /// buffered.
    pub fn next_action(&self) -> (action: PaginatorAction)
        ensures
            action == self.spec_next_action(),
    {
        if self.cached.0.len() == 0 {
            PaginatorAction::FetchPage(self.page)
        } else {
            PaginatorAction::TakeBuffered
        }
    }

    /// Takes in the page that `next_action` asked for: its entries are
    /// buffered behind what is buffered already, in their order, and the
    /// cursor moves to the next page.
    pub fn receive_page(&mut self, page: DroneBuildList)
        requires
            old(self).spec_page() < usize::MAX,
        ensures
            final(self).spec_page() == old(self).spec_page() + 1,
            final(self).spec_cached() == old(self).spec_cached() + page@,
    {
        let mut page = page;
        self.cached.0.append(&mut page.0);
        self.page = self.page + 1;
    }

    /// Hands out the oldest buffered entry, or `None` where nothing is
    /// buffered. The page number stays.
    pub fn take_buffered(&mut self) -> (item: Option<DroneBuildListItem>)
        ensures
            final(self).spec_page() == old(self).spec_page(),
            match item {
                Some(first) => {
                    &&& old(self).spec_cached().len() > 0
                    &&& first == old(self).spec_cached()[0]
                    &&& final(self).spec_cached() == old(self).spec_cached().drop_first()
                },
                None => {
                    &&& old(self).spec_cached().len() == 0
                    &&& final(self).spec_cached() == old(self).spec_cached()
                },
            },
    {
        self.cached.0.pop_front()
    }
}

} // verus!
