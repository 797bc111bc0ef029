//! The generic paginator: turns a page descriptor and a fetched row set (with
//! one lookahead row) into previous/next page offsets, with no SQL knowledge.

use vstd::prelude::*;
use std::collections::VecDeque;

verus! {

/// Which page is being requested and how big it is. `cursor` is the row
/// offset of the page's first row; absent means the first page. A forged or
/// out-of-range cursor is accepted and simply scrolls to an empty page.
#[derive(Debug, Clone, Default, PartialEq, Eq)]
pub struct PageInfo {
    pub cursor: Option<u64>,
    pub page_size: u64,
}

/// The computed navigation for a page: the offsets to request for the
/// adjacent pages, or absence meaning "no such page". `total` is reserved and
/// never computed.
#[derive(Debug, Clone, Default, PartialEq, Eq)]
pub struct Pager {
    pub prev: Option<u64>,
    pub next: Option<u64>,
    pub total: Option<u64>,
}

/// The previous page's offset: `cursor - page_size` clamped to zero when a
/// positive cursor is present, absent otherwise (the first page, including an
/// explicit cursor of zero, has no previous page).
pub open spec fn prev_offset(cursor: Option<u64>, page_size: u64) -> Option<u64> {
    match cursor {
        Some(v) => if v > 0 {
            if v >= page_size {
                Some((v - page_size) as u64)
            } else {
                Some(0)
            }
        } else {
            None
        },
        None => None,
    }
}

/// The next page's offset: the current offset advanced by one page.
pub open spec fn next_offset(cursor: Option<u64>, page_size: u64) -> u64
    recommends
        cursor matches Some(c) ==> c + page_size <= u64::MAX,
{
    match cursor {
        Some(v) => (v + page_size) as u64,
        None => page_size,
    }
}

/// An ordered collection of fetched row identifiers. The paginator needs only
/// its length and the ability to discard the row at the tail.
pub trait Container {
    /// The number of rows held.
    spec fn length(&self) -> nat;

    /// Discards the tail row; does nothing when empty.
    fn pop(&mut self)
        ensures
            final(self).length() == if old(self).length() == 0 {
                0nat
            } else {
                (old(self).length() - 1) as nat
            },
    ;

    fn len(&self) -> (n: usize)
        ensures
            n == self.length(),
    ;

    fn is_empty(&self) -> (b: bool)
        ensures
            b == (self.length() == 0),
    ;
}

impl<T> Container for VecDeque<T> {
    open spec fn length(&self) -> nat {
        self@.len()
    }

    fn pop(&mut self) {
        self.pop_back();
    }

    fn len(&self) -> (n: usize) {
        VecDeque::len(self)
    }

    fn is_empty(&self) -> (b: bool) {
        VecDeque::len(self) == 0
    }
}

impl<T> Container for Vec<T> {
    open spec fn length(&self) -> nat {
        self@.len()
    }

    fn pop(&mut self) {
        if Vec::len(self) > 0 {
            Vec::pop(self);
        }
    }

    fn len(&self) -> (n: usize) {
        Vec::len(self)
    }

    fn is_empty(&self) -> (b: bool) {
        Vec::len(self) == 0
    }
}

/// A page descriptor that can compute its navigation from a fetched row set
/// and derive the adjacent descriptors from the result.
pub trait Paginator: Sized {
    /// The current offset, absent on the first page.
    spec fn cursor_spec(&self) -> Option<u64>;

    /// The page size the descriptor was made with.
    spec fn size_spec(&self) -> u64;

    /// Computes the navigation for this page from the fetched rows, which were
    /// requested with one extra lookahead row. A further page exists exactly
    /// when the fetch brought back more than `page_size` rows; in that case
    /// the lookahead row is popped off the tail, leaving the page's real rows.
    fn get_pager<T: Container>(&self, data: &mut T) -> (r: Pager)
        requires
            self.size_spec() > 0,
            self.cursor_spec() matches Some(c) ==> c + self.size_spec() <= u64::MAX,
        ensures
            r.prev == prev_offset(self.cursor_spec(), self.size_spec()),
            r.total is None,
            old(data).length() > self.size_spec() ==> r.next == Some(
                next_offset(self.cursor_spec(), self.size_spec()),
            ) && final(data).length() == (old(data).length() - 1) as nat,
            old(data).length() <= self.size_spec() ==> r.next is None && final(data).length()
                == old(data).length(),
    ;

    /// The descriptor of the following page, if the pager found one.
    fn next_page(&self, pager: &Pager) -> (r: Option<Self>)
        ensures
            r is Some <==> pager.next is Some,
            r matches Some(p) ==> p.cursor_spec() == pager.next && p.size_spec()
                == self.size_spec(),
    ;

    /// The descriptor of the preceding page, if the pager found one.
    fn prev_page(&self, pager: &Pager) -> (r: Option<Self>)
        ensures
            r is Some <==> pager.prev is Some,
            r matches Some(p) ==> p.cursor_spec() == pager.prev && p.size_spec()
                == self.size_spec(),
    ;
}

impl Paginator for PageInfo {
    open spec fn cursor_spec(&self) -> Option<u64> {
        self.cursor
    }

    open spec fn size_spec(&self) -> u64 {
        self.page_size
    }

    fn get_pager<T: Container>(&self, data: &mut T) -> (r: Pager) {
        let prev = match self.cursor {
            Some(v) => if v > 0 {
                if v >= self.page_size {
                    Some(v - self.page_size)
                } else {
                    Some(0)
                }
            } else {
                None
            },
            None => None,
        };

        let has_next = data.len() as u64 > self.page_size;
        let next = if has_next {
            data.pop();
            let base = match self.cursor {
                Some(v) => v,
                None => 0,
            };
            Some(base + self.page_size)
        } else {
            None
        };

        Pager { prev, next, total: None }
    }

    fn next_page(&self, pager: &Pager) -> (r: Option<Self>) {
        if pager.next.is_some() {
            Some(PageInfo { cursor: pager.next, page_size: self.page_size })
        } else {
            None
        }
    }

    fn prev_page(&self, pager: &Pager) -> (r: Option<Self>) {
        if pager.prev.is_some() {
            Some(PageInfo { cursor: pager.prev, page_size: self.page_size })
        } else {
            None
        }
    }
}

} // verus!
