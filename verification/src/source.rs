use vstd::prelude::*;

use crate::media::{page_model, LookupMediaPagePageMedia, MediaPage, PageInfo, PageModel};

verus! {

/// How fetching one page of results can fail: the request itself did not go
/// through, or the remote answered but reported query-level errors.
#[derive(Debug, PartialEq, Eq)]
pub enum MediaPaginatorError {
    RequestError(String),
    GraphQLError,
}

/// A whole remote result set is well formed when its pages carry metadata
/// that agrees with their position: page numbers start at one and count up,
/// `has_next_page` is set exactly below the last page, `last_page` is the
/// page count, and only a result set of a single page may have an empty
/// page. The count is bounded so that page numbers fit the wire type.
pub open spec fn pages_wf(pages: Seq<PageModel>) -> bool {
    &&& pages.len() >= 1
    &&& pages.len() <= i64::MAX
    &&& forall|i: int|
        0 <= i < pages.len() ==> (#[trigger] pages[i]).info.current_page == i + 1
    &&& forall|i: int|
        0 <= i < pages.len() ==> (#[trigger] pages[i]).info.has_next_page == (i + 1
            < pages.len())
    &&& forall|i: int| 0 <= i < pages.len() ==> (#[trigger] pages[i]).info.last_page == pages.len()
    &&& forall|i: int|
        0 <= i < pages.len() && pages.len() > 1 ==> (#[trigger] pages[i]).items.len() >= 1
}

/// The narrow capability a paginator needs: a stateless way to ask for one
/// page of a fixed result set. A fetch may always fail; over a well-formed
/// result set, a successful fetch of page `page` returns exactly that page,
/// and a source that cannot fail serves every page of its set.
pub trait PageSource: Sized {
    /// The result set this source draws from, page by page. Everything the
    /// trait promises about fetched content is conditioned on this set
    /// being well formed, so a source the verifier never sees (one the
    /// surrounding program implements over the network) keeps the default
    /// and is promised — and asked — nothing.
    open spec fn pages(&self) -> Seq<PageModel> {
        Seq::empty()
    }

    /// Whether a fetch may ever fail. Only an in-memory source can deny it;
    /// the default says nothing, as fits anything remote.
    open spec fn may_fail(&self) -> bool {
        true
    }

    /// Fetch one page; `page` counts from one.
    fn fetch_page(&self, page: i64) -> (r: Result<MediaPage, MediaPaginatorError>)
        requires
            1 <= page,
        ensures
            pages_wf(self.pages()) && page <= self.pages().len() ==> (r matches Ok(p)
                ==> page_model(p) == self.pages()[page - 1]),
            !self.may_fail() && pages_wf(self.pages()) && page <= self.pages().len() ==> r is Ok,
    ;
}

/// An in-memory result set, cut into pages of a fixed size up front. It
/// serves every page of its set without failing; only a request beyond the
/// set is refused.
pub struct VecSource {
    pages_vec: Vec<MediaPage>,
}

impl PageSource for VecSource {
    closed spec fn pages(&self) -> Seq<PageModel> {
        self.pages_vec@.map_values(|p: MediaPage| page_model(p))
    }

    open spec fn may_fail(&self) -> bool {
        false
    }

    fn fetch_page(&self, page: i64) -> (r: Result<MediaPage, MediaPaginatorError>)
        ensures
            r matches Ok(p) ==> page_model(p) == self.pages()[page - 1],
            1 <= page <= self.pages().len() ==> r is Ok,
    {
        proof {
            assert(self.pages_vec.len() == self.pages_vec@.len());
            assert(self.pages().len() == self.pages_vec@.len());
        }
        if (page as u64) > (self.pages_vec.len() as u64) {
            return Err(MediaPaginatorError::RequestError("no such page".to_owned()));
        }
        let idx: usize = (page - 1) as usize;
        let p = self.pages_vec[idx].clone();
        proof {
            assert(idx as int == page - 1);
            assert(page_model(p) == self.pages()[page - 1]);
        }
        Ok(p)
    }
}

/// The number of pages a result set of `n` items is cut into when each page
/// holds up to `per_page` items: at least one page, and enough pages that
/// none overflows.
pub open spec fn page_count(n: int, per_page: int) -> int
    recommends
        per_page >= 1,
{
    if n == 0 {
        1
    } else {
        (n + per_page - 1) / per_page
    }
}

impl VecSource {
    /// Cut `items` into consecutive pages of at most `per_page` items each,
    /// with pagination metadata that matches: the result set has
    /// `page_count` pages, and page `i` (counting from zero) holds exactly
    /// the items from offset `i * per_page` on.
    pub fn paginate(items: Vec<LookupMediaPagePageMedia>, per_page: usize) -> (r: VecSource)
        requires
            per_page >= 1,
            items@.len() + per_page <= i64::MAX,
        ensures
            pages_wf(r.pages()),
            r.pages().len() == page_count(items@.len() as int, per_page as int),
            forall|i: int|
                0 <= i < r.pages().len() ==> (#[trigger] r.pages()[i]).items == items@.subrange(
                    i * per_page,
                    if (i + 1) * per_page <= items@.len() {
                        (i + 1) * per_page
                    } else {
                        items@.len() as int
                    },
                ),
    {
        let ghost n: int = items@.len() as int;
        let ghost per: int = per_page as int;
        let total: usize = items.len();
        let count: usize = if total == 0 {
            1
        } else {
            (total - 1) / per_page + 1
        };
        proof {
            if n != 0 {
                assert(count == (n - 1) / per + 1);
                vstd::arithmetic::div_mod::lemma_div_plus_one(n - 1, per);
                assert(1 + (n - 1) / per == (per + (n - 1)) / per);
                assert(per + (n - 1) == n + per - 1);
                vstd::arithmetic::div_mod::lemma_div_nonincreasing(n - 1, per);
            }
            assert(count == page_count(n, per));
            assert(count as int <= i64::MAX);
        }
        let mut pages_vec: Vec<MediaPage> = Vec::new();
        let mut taken: usize = 0;
        let mut remaining = items;
        let mut page_no: usize = 0;
        while page_no < count
            invariant
                per_page >= 1,
                per == per_page as int,
                n + per <= i64::MAX,
                n == items@.len(),
                n <= usize::MAX,
                total as int == n,
                count == page_count(n, per),
                count as int <= i64::MAX,
                taken <= n,
                page_no <= count,
                pages_vec@.len() == page_no,
                taken == if page_no * per <= n {
                    page_no * per
                } else {
                    n
                },
                remaining@ == items@.subrange(taken as int, n),
                forall|i: int|
                    0 <= i < page_no ==> (#[trigger] pages_vec@[i]).media@ == items@.subrange(
                        i * per,
                        if (i + 1) * per <= n {
                            (i + 1) * per
                        } else {
                            n
                        },
                    ),
                forall|i: int|
                    0 <= i < page_no ==> (#[trigger] pages_vec@[i]).page_info == (PageInfo {
                        total: n as i64,
                        current_page: (i + 1) as i64,
                        last_page: count as i64,
                        has_next_page: i + 1 < count,
                    }),
            decreases count - page_no,
        {
            let ghost pg: int = page_no as int;
            proof {
                lemma_page_slicing(n, per, count as int, pg);
                assert(taken == pg * per);
            }
            let take_now: usize = if remaining.len() > per_page {
                per_page
            } else {
                remaining.len()
            };
            proof {
                assert(remaining@.len() == n - taken);
                if pg < count - 1 {
                    assert((pg + 1) * per <= n);
                    assert(take_now == per_page);
                } else {
                    assert(n <= count as int * per);
                    assert(count as int * per == pg * per + per);
                    assert(n - taken <= per);
                    assert(take_now == n - taken);
                }
            }
            let rest = remaining.split_off(take_now);
            let info = PageInfo {
                total: total as i64,
                current_page: (page_no + 1) as i64,
                last_page: count as i64,
                has_next_page: page_no + 1 < count,
            };
            let ghost upper: int = if (pg + 1) * per <= n {
                (pg + 1) * per
            } else {
                n
            };
            pages_vec.push(MediaPage { page_info: info, media: remaining });
            proof {
                assert(taken + take_now == upper);
                assert(pages_vec@[pg].media@ =~= items@.subrange(pg * per, upper));
            }
            remaining = rest;
            taken = taken + take_now;
            page_no = page_no + 1;
            proof {
                assert(remaining@ =~= items@.subrange(taken as int, n));
                assert(taken == if page_no as int * per <= n {
                    page_no as int * per
                } else {
                    n
                });
            }
        }
        let r = VecSource { pages_vec };
        proof {
            assert(r.pages().len() == pages_vec@.len());
            assert forall|i: int| 0 <= i < r.pages().len() implies (#[trigger] r.pages()[i])
                == page_model(pages_vec@[i]) by {}
            assert forall|i: int| 0 <= i < r.pages().len() implies (#[trigger] r.pages()[i]).items
                == items@.subrange(
                i * per,
                if (i + 1) * per <= n {
                    (i + 1) * per
                } else {
                    n
                },
            ) by {
                lemma_page_slicing(n, per, count as int, i);
                assert(r.pages()[i].items == pages_vec@[i].media@);
            }
            assert(pages_wf(r.pages())) by {
                assert forall|i: int| 0 <= i < count && count > 1 implies (
                #[trigger] r.pages()[i]).items.len() >= 1 by {
                    lemma_page_slicing(n, per, count as int, i);
                    assert(r.pages()[i].items == items@.subrange(
                        i * per,
                        if (i + 1) * per <= n {
                            (i + 1) * per
                        } else {
                            n
                        },
                    ));
                }
            }
        }
        r
    }
}

/// Facts about the slice boundaries of page `i` out of `count` pages of
/// width `per` over `n` items: the slice lies inside the items, every page
/// before the last is full, the items run out by the last page, and every
/// page is non-empty unless the result set is a single empty page.
proof fn lemma_page_slicing(n: int, per: int, count: int, i: int)
    requires
        per >= 1,
        n >= 0,
        count == page_count(n, per),
        0 <= i < count,
    ensures
        i * per <= n,
        i < count - 1 ==> (i + 1) * per <= n,
        n > 0 ==> i * per < n,
        n <= count * per,
        count * per == (count - 1) * per + per,
        (i + 1) * per == i * per + per,
{
    assert((i + 1) * per == i * per + per) by (nonlinear_arith);
    assert(count * per == (count - 1) * per + per) by (nonlinear_arith);
    if n == 0 {
        assert(count == 1);
        assert(i == 0);
        assert(i * per == 0) by (nonlinear_arith)
            requires
                i == 0,
        ;
        assert(count * per >= 1) by (nonlinear_arith)
            requires
                count == 1 && per >= 1,
        ;
    } else {
        let q = (n + per - 1) / per;
        assert(count == q);
        vstd::arithmetic::div_mod::lemma_fundamental_div_mod(n + per - 1, per);
        vstd::arithmetic::div_mod::lemma_mod_bound(n + per - 1, per);
        let r = (n + per - 1) % per;
        assert(n + per - 1 == per * q + r);
        assert((q - 1) * per == n - 1 - r) by (nonlinear_arith)
            requires
                n + per - 1 == per * q + r,
        ;
        assert((q - 1) * per <= n - 1);
        assert(q * per == (q - 1) * per + per) by (nonlinear_arith);
        assert(n <= q * per);
        assert(i * per <= (q - 1) * per) by (nonlinear_arith)
            requires
                i <= q - 1 && per >= 1,
        ;
        assert(i * per <= n - 1);
        if i < count - 1 {
            assert((i + 1) * per <= (q - 1) * per) by (nonlinear_arith)
                requires
                    i + 1 <= q - 1 && per >= 1,
            ;
        }
    }
}

/// An in-memory result set that refuses to serve the pages named in
/// `failing`: it behaves like `VecSource` elsewhere and reports a transport
/// failure there. Useful to exercise how navigation recovers from a failed
/// fetch.
pub struct FlakyPageSource {
    inner: VecSource,
    failing: Vec<i64>,
}

impl FlakyPageSource {
    /// Wrap `inner` so that fetching any page listed in `failing` fails.
    pub fn new(inner: VecSource, failing: Vec<i64>) -> (r: FlakyPageSource)
        ensures
            r.pages() == inner.pages(),
    {
        FlakyPageSource { inner, failing }
    }
}

impl PageSource for FlakyPageSource {
    closed spec fn pages(&self) -> Seq<PageModel> {
        self.inner.pages()
    }

    fn fetch_page(&self, page: i64) -> (r: Result<MediaPage, MediaPaginatorError>) {
        let mut i: usize = 0;
        while i < self.failing.len()
            invariant
                i <= self.failing.len(),
            decreases self.failing.len() - i,
        {
            if self.failing[i] == page {
                return Err(MediaPaginatorError::RequestError("injected fault".to_owned()));
            }
            i = i + 1;
        }
        self.inner.fetch_page(page)
    }
}

} // verus!
