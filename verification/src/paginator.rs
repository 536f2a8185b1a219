use vstd::prelude::*;

use crate::media::{LookupMediaPagePageMedia, PageInfo, PageModel};
use crate::source::{pages_wf, MediaPaginatorError, PageSource};

verus! {

/// Where a cursor stands in a result set: which page is cached (counting
/// from one) and which of its items is current (counting from zero).
pub struct Cursor {
    pub page: int,
    pub index: int,
}

/// A cursor is well placed when its page exists and its index points at an
/// item of that page; over an empty page (only a one-page result set may
/// have one) the index rests at zero and points at nothing.
pub open spec fn cursor_wf(pages: Seq<PageModel>, c: Cursor) -> bool {
    &&& 1 <= c.page <= pages.len()
    &&& (0 <= c.index < pages[c.page - 1].items.len() || (pages[c.page - 1].items.len() == 0
        && c.index == 0))
}

/// The item the cursor rests on, if the cached page has any.
pub open spec fn item_at(pages: Seq<PageModel>, c: Cursor) -> Option<LookupMediaPagePageMedia> {
    if pages[c.page - 1].items.len() == 0 {
        None
    } else {
        Some(pages[c.page - 1].items[c.index])
    }
}

/// Whether anything follows the cursor: another item on the cached page, or
/// another page after it.
pub open spec fn has_next_at(pages: Seq<PageModel>, c: Cursor) -> bool {
    c.index + 1 < pages[c.page - 1].items.len() || pages[c.page - 1].info.has_next_page
}

/// Whether anything precedes the cursor: an earlier item on the cached
/// page, or an earlier page.
pub open spec fn has_prev_at(pages: Seq<PageModel>, c: Cursor) -> bool {
    c.index > 0 || pages[c.page - 1].info.current_page != 1
}

/// Whether moving forward leaves the cached page.
pub open spec fn crosses_forward(pages: Seq<PageModel>, c: Cursor) -> bool {
    c.index + 1 >= pages[c.page - 1].items.len()
}

/// Whether moving backward leaves the cached page.
pub open spec fn crosses_backward(pages: Seq<PageModel>, c: Cursor) -> bool {
    c.index == 0
}

/// The cursor after one successful forward step: the next item of the
/// cached page, or the first item of the following page.
pub open spec fn next_cursor(pages: Seq<PageModel>, c: Cursor) -> Cursor {
    if c.index + 1 < pages[c.page - 1].items.len() {
        Cursor { page: c.page, index: c.index + 1 }
    } else {
        Cursor { page: c.page + 1, index: 0 }
    }
}

/// The cursor after one successful backward step: the previous item of the
/// cached page, or the last item of the preceding page.
pub open spec fn prev_cursor(pages: Seq<PageModel>, c: Cursor) -> Cursor {
    if c.index > 0 {
        Cursor { page: c.page, index: c.index - 1 }
    } else {
        Cursor { page: c.page - 1, index: pages[c.page - 2].items.len() - 1 }
    }
}

/// A fetch counter one higher, except that it rests at its ceiling.
pub open spec fn bump(n: int) -> int {
    if n >= u64::MAX {
        n
    } else {
        n + 1
    }
}

/// Moving forward and then backward returns the cursor, and with it the
/// current item, exactly to where it stood — both within one page and
/// across a page boundary.
pub proof fn lemma_next_then_prev(pages: Seq<PageModel>, c: Cursor)
    requires
        pages_wf(pages),
        cursor_wf(pages, c),
        has_next_at(pages, c),
    ensures
        cursor_wf(pages, next_cursor(pages, c)),
        has_prev_at(pages, next_cursor(pages, c)),
        prev_cursor(pages, next_cursor(pages, c)) == c,
        item_at(pages, prev_cursor(pages, next_cursor(pages, c))) == item_at(pages, c),
{
    let len = pages[c.page - 1].items.len();
    if c.index + 1 < len {
    } else {
        assert(pages[c.page - 1].info.has_next_page);
        assert(c.page < pages.len());
        assert(pages[c.page].items.len() >= 1);
        assert(pages[c.page].info.current_page == c.page + 1);
        assert(len >= 1);
        assert(c.index == len - 1);
    }
}

/// Moving backward and then forward returns the cursor, and with it the
/// current item, exactly to where it stood — both within one page and
/// across a page boundary.
pub proof fn lemma_prev_then_next(pages: Seq<PageModel>, c: Cursor)
    requires
        pages_wf(pages),
        cursor_wf(pages, c),
        has_prev_at(pages, c),
    ensures
        cursor_wf(pages, prev_cursor(pages, c)),
        has_next_at(pages, prev_cursor(pages, c)),
        next_cursor(pages, prev_cursor(pages, c)) == c,
        item_at(pages, next_cursor(pages, prev_cursor(pages, c))) == item_at(pages, c),
{
    if c.index > 0 {
    } else {
        assert(pages[c.page - 1].info.current_page == c.page);
        assert(c.page >= 2);
        assert(pages.len() >= 2);
        assert(pages[c.page - 2].items.len() >= 1);
        assert(pages[c.page - 2].info.has_next_page);
        assert(pages[c.page - 1].items.len() >= 1);
    }
}

/// A result set whose single page is empty offers nothing at all: no
/// current item, nothing to move forward to, nothing to move back to.
pub proof fn lemma_empty_result(pages: Seq<PageModel>, c: Cursor)
    requires
        pages_wf(pages),
        cursor_wf(pages, c),
        pages[c.page - 1].items.len() == 0,
    ensures
        item_at(pages, c) is None,
        !has_next_at(pages, c),
        !has_prev_at(pages, c),
{
    assert(pages.len() == 1);
    assert(c.page == 1);
    assert(pages[0].info.current_page == 1);
    assert(!pages[0].info.has_next_page);
}

/// The items of the first `p` pages of the result set, laid end to end.
pub open spec fn items_before(pages: Seq<PageModel>, p: int) -> Seq<LookupMediaPagePageMedia>
    decreases p,
{
    if p <= 0 {
        Seq::empty()
    } else {
        items_before(pages, p - 1) + pages[p - 1].items
    }
}

/// How many items of the whole result set precede the cursor.
pub open spec fn offset_at(pages: Seq<PageModel>, c: Cursor) -> int {
    items_before(pages, c.page - 1).len() + c.index
}

/// Laying more pages end to end only appends: the first `p` pages are a
/// prefix of the first `q`.
proof fn lemma_items_before_prefix(pages: Seq<PageModel>, p: int, q: int)
    requires
        0 <= p <= q,
    ensures
        items_before(pages, p).len() <= items_before(pages, q).len(),
        forall|k: int|
            0 <= k < items_before(pages, p).len() ==> items_before(pages, q)[k] == items_before(
                pages,
                p,
            )[k],
    decreases q - p,
{
    if q > p {
        lemma_items_before_prefix(pages, p, q - 1);
    }
}

/// A cursor that stands on an item stands on the item of the whole result
/// set at its overall offset.
pub proof fn lemma_item_at_offset(pages: Seq<PageModel>, c: Cursor)
    requires
        pages_wf(pages),
        cursor_wf(pages, c),
        pages[c.page - 1].items.len() > 0,
    ensures
        0 <= offset_at(pages, c) < items_before(pages, pages.len() as int).len(),
        item_at(pages, c) == Some(items_before(pages, pages.len() as int)[offset_at(pages, c)]),
{
    assert(items_before(pages, c.page) == items_before(pages, c.page - 1) + pages[c.page
        - 1].items);
    lemma_items_before_prefix(pages, c.page, pages.len() as int);
}

/// One forward step lands exactly one item further in the whole result set:
/// the overall offset grows by one, and the item found is the one at that
/// offset of the pages laid end to end.
pub proof fn lemma_next_offset(pages: Seq<PageModel>, c: Cursor)
    requires
        pages_wf(pages),
        cursor_wf(pages, c),
        has_next_at(pages, c),
    ensures
        offset_at(pages, next_cursor(pages, c)) == offset_at(pages, c) + 1,
        item_at(pages, next_cursor(pages, c)) == Some(
            items_before(pages, pages.len() as int)[offset_at(pages, c) + 1],
        ),
{
    lemma_next_then_prev(pages, c);
    let d = next_cursor(pages, c);
    let len = pages[c.page - 1].items.len();
    if c.index + 1 < len {
    } else {
        assert(pages[c.page - 1].info.has_next_page);
        assert(c.page < pages.len());
        assert(len >= 1 && c.index == len - 1);
        assert(items_before(pages, c.page) == items_before(pages, c.page - 1) + pages[c.page
            - 1].items);
        assert(pages[d.page - 1].items.len() > 0);
    }
    lemma_item_at_offset(pages, d);
}

/// One backward step lands exactly one item earlier in the whole result
/// set.
pub proof fn lemma_prev_offset(pages: Seq<PageModel>, c: Cursor)
    requires
        pages_wf(pages),
        cursor_wf(pages, c),
        has_prev_at(pages, c),
    ensures
        offset_at(pages, prev_cursor(pages, c)) == offset_at(pages, c) - 1,
        item_at(pages, prev_cursor(pages, c)) == Some(
            items_before(pages, pages.len() as int)[offset_at(pages, c) - 1],
        ),
{
    lemma_prev_then_next(pages, c);
    let d = prev_cursor(pages, c);
    if c.index > 0 {
    } else {
        assert(pages[c.page - 1].info.current_page == c.page);
        assert(c.page >= 2);
        assert(items_before(pages, c.page - 1) == items_before(pages, c.page - 2) + pages[c.page
            - 2].items);
        assert(pages[d.page - 1].items.len() > 0);
    }
    lemma_item_at_offset(pages, d);
}

/// A cursor over one remote result set that keeps exactly one fetched page
/// in memory. Navigation within the cached page is free; crossing a page
/// boundary fetches the neighbouring page, and a failed fetch leaves the
/// cursor exactly where it was. The structural invariant `inv` asks nothing
/// of the source, so every guarantee of memory safety holds over a remote
/// source too; the exact navigation contracts hold under `model_ok`, which
/// adds that the source's result set is well formed.
pub struct MediaPaginator<S: PageSource> {
    source: S,
    page: i64,
    page_info: PageInfo,
    items: Vec<LookupMediaPagePageMedia>,
    index: usize,
    fetches: u64,
}

impl<S: PageSource> MediaPaginator<S> {
    /// The result set this cursor walks.
    pub closed spec fn pages(&self) -> Seq<PageModel> {
        self.source.pages()
    }

    /// Whether the source behind this cursor may fail a fetch.
    pub closed spec fn may_fail(&self) -> bool {
        self.source.may_fail()
    }

    /// Where the cursor stands.
    pub closed spec fn pos(&self) -> Cursor {
        Cursor { page: self.page as int, index: self.index as int }
    }

    /// How many pages have been fetched over this cursor's lifetime,
    /// the one fetched at construction included.
    pub closed spec fn fetch_count(&self) -> int {
        self.fetches as int
    }

    /// The cached page is the one of the result set the cursor points into.
    spec fn cached_ok(&self) -> bool {
        &&& self.page_info == self.pages()[self.page - 1].info
        &&& self.items@ == self.pages()[self.page - 1].items
    }

    /// The structural invariant, kept whatever the source answers: the page
    /// number counts from one and the index stands on a cached item, or at
    /// zero over an empty cache. Every method preserves it and none can
    /// panic under it.
    pub closed spec fn inv(&self) -> bool {
        &&& 1 <= self.page
        &&& (self.index < self.items@.len() || (self.items@.len() == 0 && self.index == 0))
    }

    /// The model invariant: the source's result set is well formed, the
    /// cursor is well placed in it, and the cached page is the fetched copy
    /// of the one it names. Over such a source navigation is exact.
    pub closed spec fn model_ok(&self) -> bool {
        &&& pages_wf(self.pages())
        &&& cursor_wf(self.pages(), self.pos())
        &&& self.cached_ok()
    }

    /// Build a cursor over `source` by fetching its first page; a failed
    /// fetch fails construction, and over a well-formed source that cannot
    /// fail it never does. A first page without items is not a failure: the
    /// cursor then stands on nothing.
    pub fn new(source: S) -> (r: Result<MediaPaginator<S>, MediaPaginatorError>)
        ensures
            r matches Ok(p) ==> {
                &&& p.inv()
                &&& p.pages() == source.pages()
                &&& p.may_fail() == source.may_fail()
                &&& p.pos() == (Cursor { page: 1, index: 0 })
                &&& p.fetch_count() == 1
            },
            pages_wf(source.pages()) ==> (r matches Ok(p) ==> p.model_ok()),
            pages_wf(source.pages()) && !source.may_fail() ==> r is Ok,
    {
        match source.fetch_page(1) {
            Ok(pg) => Ok(
                MediaPaginator {
                    source,
                    page: 1,
                    page_info: pg.page_info,
                    items: pg.media,
                    index: 0,
                    fetches: 1,
                },
            ),
            Err(e) => Err(e),
        }
    }

    /// The item the cursor stands on; over a well-formed result set this is
    /// nothing exactly when the result set is empty. A pure read: nothing
    /// is fetched and nothing moves.
    pub fn current_item(&self) -> (r: Option<LookupMediaPagePageMedia>)
        requires
            self.inv(),
        ensures
            self.model_ok() ==> r == item_at(self.pages(), self.pos()),
    {
        if self.items.len() == 0 {
            None
        } else {
            Some(self.items[self.index].clone())
        }
    }

    /// The item the cursor stands on, under the name the embed-building
    /// callers use.
    pub fn current_page(&self) -> (r: Option<LookupMediaPagePageMedia>)
        requires
            self.inv(),
        ensures
            self.model_ok() ==> r == item_at(self.pages(), self.pos()),
    {
        self.current_item()
    }

    /// Whether a forward step can find an item: one further on the cached
    /// page, or a following page to fetch.
    pub fn has_next(&self) -> (r: bool)
        requires
            self.inv(),
        ensures
            self.model_ok() ==> r == has_next_at(self.pages(), self.pos()),
    {
        (self.items.len() > 0 && self.index < self.items.len() - 1)
            || self.page_info.has_next_page
    }

    /// Whether a backward step can find an item: an earlier one on the
    /// cached page, or a preceding page to fetch.
    pub fn has_prev(&self) -> (r: bool)
        requires
            self.inv(),
        ensures
            self.model_ok() ==> r == has_prev_at(self.pages(), self.pos()),
    {
        self.index > 0 || self.page_info.current_page != 1
    }

    /// How many fetches this cursor has made so far.
    pub fn fetches_made(&self) -> (r: u64)
        ensures
            r as int == self.fetch_count(),
    {
        self.fetches
    }

    /// Step forward. At the end of the result set nothing is returned and
    /// nothing changes. Otherwise the cursor advances — fetching the next
    /// page when it leaves the cached one — and returns the item it now
    /// stands on. A failed fetch, or a fetched page that does not fit the
    /// result set the metadata advertised (an empty page where items were
    /// due), is returned as the error and the cursor stays exactly where it
    /// was, so the same step may be retried. Over a well-formed source that
    /// cannot fail, the step never fails.
    pub fn next_item(&mut self) -> (r: Result<
        Option<LookupMediaPagePageMedia>,
        MediaPaginatorError,
    >)
        requires
            old(self).inv(),
        ensures
            final(self).inv(),
            final(self).pages() == old(self).pages(),
            final(self).may_fail() == old(self).may_fail(),
            old(self).model_ok() ==> {
                &&& final(self).model_ok()
                &&& !old(self).may_fail() ==> r is Ok
                &&& !has_next_at(old(self).pages(), old(self).pos()) ==> {
                    &&& r == Ok::<Option<LookupMediaPagePageMedia>, MediaPaginatorError>(None)
                    &&& final(self).pos() == old(self).pos()
                    &&& final(self).fetch_count() == old(self).fetch_count()
                }
                &&& has_next_at(old(self).pages(), old(self).pos()) ==> match r {
                    Ok(item) => {
                        &&& final(self).pos() == next_cursor(old(self).pages(), old(self).pos())
                        &&& item == item_at(old(self).pages(), final(self).pos())
                        &&& item is Some
                        &&& final(self).fetch_count() == if crosses_forward(
                            old(self).pages(),
                            old(self).pos(),
                        ) {
                            bump(old(self).fetch_count())
                        } else {
                            old(self).fetch_count()
                        }
                    },
                    Err(_) => {
                        &&& final(self).pos() == old(self).pos()
                        &&& crosses_forward(old(self).pages(), old(self).pos())
                        &&& final(self).fetch_count() == bump(old(self).fetch_count())
                    },
                }
            },
    {
        if !self.has_next() {
            return Ok(None);
        }
        if self.items.len() > 0 && self.index < self.items.len() - 1 {
            self.index = self.index + 1;
            Ok(Some(self.items[self.index].clone()))
        } else {
            proof {
                if self.model_ok() {
                    assert(self.page_info.has_next_page);
                    assert(self.pages()[self.page - 1].info.has_next_page);
                    assert(self.page < self.pages().len());
                }
            }
            let target = if self.page < i64::MAX {
                self.page + 1
            } else {
                self.page
            };
            match self.source.fetch_page(target) {
                Ok(pg) => {
                    if pg.media.len() == 0 {
                        proof {
                            if self.model_ok() {
                                assert(self.pages()[target - 1].items.len() >= 1);
                            }
                        }
                        if self.fetches < u64::MAX {
                            self.fetches = self.fetches + 1;
                        }
                        return Err(MediaPaginatorError::GraphQLError);
                    }
                    self.page = target;
                    self.page_info = pg.page_info;
                    self.items = pg.media;
                    self.index = 0;
                    if self.fetches < u64::MAX {
                        self.fetches = self.fetches + 1;
                    }
                    Ok(Some(self.items[0].clone()))
                },
                Err(e) => {
                    if self.fetches < u64::MAX {
                        self.fetches = self.fetches + 1;
                    }
                    Err(e)
                },
            }
        }
    }

    /// Step backward. At the start of the result set nothing is returned
    /// and nothing changes. Otherwise the cursor retreats — re-fetching the
    /// preceding page when it leaves the cached one, since only one page is
    /// ever kept — and returns the item it now stands on. A failed fetch,
    /// or a fetched page that does not fit the advertised result set, is
    /// returned as the error and the cursor stays exactly where it was.
    /// Over a well-formed source that cannot fail, the step never fails.
    pub fn prev_item(&mut self) -> (r: Result<
        Option<LookupMediaPagePageMedia>,
        MediaPaginatorError,
    >)
        requires
            old(self).inv(),
        ensures
            final(self).inv(),
            final(self).pages() == old(self).pages(),
            final(self).may_fail() == old(self).may_fail(),
            old(self).model_ok() ==> {
                &&& final(self).model_ok()
                &&& !old(self).may_fail() ==> r is Ok
                &&& !has_prev_at(old(self).pages(), old(self).pos()) ==> {
                    &&& r == Ok::<Option<LookupMediaPagePageMedia>, MediaPaginatorError>(None)
                    &&& final(self).pos() == old(self).pos()
                    &&& final(self).fetch_count() == old(self).fetch_count()
                }
                &&& has_prev_at(old(self).pages(), old(self).pos()) ==> match r {
                    Ok(item) => {
                        &&& final(self).pos() == prev_cursor(old(self).pages(), old(self).pos())
                        &&& item == item_at(old(self).pages(), final(self).pos())
                        &&& item is Some
                        &&& final(self).fetch_count() == if crosses_backward(
                            old(self).pages(),
                            old(self).pos(),
                        ) {
                            bump(old(self).fetch_count())
                        } else {
                            old(self).fetch_count()
                        }
                    },
                    Err(_) => {
                        &&& final(self).pos() == old(self).pos()
                        &&& crosses_backward(old(self).pages(), old(self).pos())
                        &&& final(self).fetch_count() == bump(old(self).fetch_count())
                    },
                }
            },
    {
        if !self.has_prev() {
            return Ok(None);
        }
        if self.index > 0 {
            self.index = self.index - 1;
            Ok(Some(self.items[self.index].clone()))
        } else {
            proof {
                if self.model_ok() {
                    assert(self.pages()[self.page - 1].info.current_page == self.page);
                    assert(self.page >= 2);
                    assert(self.pages().len() >= 2);
                }
            }
            let target = if self.page > 1 {
                self.page - 1
            } else {
                self.page
            };
            match self.source.fetch_page(target) {
                Ok(pg) => {
                    if pg.media.len() == 0 {
                        proof {
                            if self.model_ok() {
                                assert(self.pages()[target - 1].items.len() >= 1);
                            }
                        }
                        if self.fetches < u64::MAX {
                            self.fetches = self.fetches + 1;
                        }
                        return Err(MediaPaginatorError::GraphQLError);
                    }
                    self.page = target;
                    self.page_info = pg.page_info;
                    let last = pg.media.len() - 1;
                    self.items = pg.media;
                    self.index = last;
                    if self.fetches < u64::MAX {
                        self.fetches = self.fetches + 1;
                    }
                    Ok(Some(self.items[self.index].clone()))
                },
                Err(e) => {
                    if self.fetches < u64::MAX {
                        self.fetches = self.fetches + 1;
                    }
                    Err(e)
                },
            }
        }
    }
}

} // verus!
