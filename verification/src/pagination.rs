//! Gathering a listing that the host ledger hands out page by page: the
//! pages are asked for one after the other, each with the key that the page
//! before it named, until a page names none.

use vstd::prelude::*;
use crate::query::{PageRequest, PageResponse, Query};

verus! {

/// One page of a listing, or the whole listing once it is gathered.
#[derive(Clone, Debug, PartialEq, Eq)]
pub struct Page<T> {
    pub pagination: PageResponse,
    pub items: Vec<T>,
}

/// The listings that come in pages, each with the issuer or account that it
/// is about.
#[derive(Clone, Debug, PartialEq, Eq)]
pub enum Listing {
    Tokens { issuer: String },
    FrozenBalances { account: String },
    WhitelistedBalances { account: String },
}

/// Why a listing could not be gathered.
#[derive(Clone, Debug, PartialEq, Eq)]
pub enum PageError<E> {
    /// The host ledger failed a query; its error is handed on as it came.
    Upstream(E),
    /// The allowed number of pages was read and the last one named another.
    ResourceExhausted,
}

/// What to do after a page.
#[derive(Clone, Debug, PartialEq, Eq)]
pub enum Step {
    /// Ask for the next page with this request.
    More(PageRequest),
    /// The data has ended; this is the last page's metadata.
    Done(PageResponse),
}

/// The request for the page after one with this metadata: its key is the
/// key that the page named, nothing else is set.
pub open spec fn follow_up(meta: PageResponse) -> PageRequest {
    PageRequest { key: meta.next_key, offset: None, limit: None, count_total: None, reverse: None }
}

/// The step that follows a page with this metadata.
pub open spec fn step_after(meta: PageResponse) -> Step {
    if meta.next_key is None {
        Step::Done(meta)
    } else {
        Step::More(follow_up(meta))
    }
}

/// The page request that the query number `i` of a run carries: none for
/// the first, then the follow-up of the page before.
pub open spec fn request_at<T>(pages: Seq<Page<T>>, i: int) -> Option<PageRequest> {
    if i <= 0 {
        None
    } else {
        Some(follow_up(pages[i - 1].pagination))
    }
}

/// The items of all pages, in the order of the pages and, within a page, in
/// the order of its items.
pub open spec fn gathered<T>(pages: Seq<Page<T>>) -> Seq<T>
    decreases pages.len(),
{
    if pages.len() == 0 {
        Seq::empty()
    } else {
        gathered(pages.drop_last()) + pages.last().items@
    }
}

impl Listing {
    /// The outbound query for one page of the listing.
    pub open spec fn page_query(self, pagination: Option<PageRequest>) -> Query {
        match self {
            Listing::Tokens { issuer } => Query::Tokens { pagination, issuer },
            Listing::FrozenBalances { account } => Query::FrozenBalances { pagination, account },
            Listing::WhitelistedBalances { account } => Query::WhitelistedBalances { pagination, account },
        }
    }

    /// Builds the outbound query for one page of the listing.
    pub fn query_for(&self, pagination: Option<PageRequest>) -> (q: Query)
        ensures
            q == self.page_query(pagination),
    {
        match self {
            Listing::Tokens { issuer } => Query::Tokens { pagination, issuer: issuer.clone() },
            Listing::FrozenBalances { account } => Query::FrozenBalances { pagination, account: account.clone() },
            Listing::WhitelistedBalances { account } => Query::WhitelistedBalances {
                pagination,
                account: account.clone(),
            },
        }
    }
}

/// Whether the upstream answered query number `i` of the run with page
/// number `i`.
pub open spec fn answered<T, E, F: Fn(Query) -> Result<Page<T>, E>>(
    fetch: F,
    listing: Listing,
    pages: Seq<Page<T>>,
    i: int,
) -> bool {
    call_ensures(fetch, (listing.page_query(request_at(pages, i)),), Ok::<Page<T>, E>(pages[i]))
}

/// Whether `pages` is a run of the protocol against `fetch`: each page is
/// the upstream's answer to the query made from the page before it, and
/// every page but the last names a next one.
pub open spec fn is_run<T, E, F: Fn(Query) -> Result<Page<T>, E>>(
    fetch: F,
    listing: Listing,
    pages: Seq<Page<T>>,
) -> bool {
    &&& forall|i: int| 0 <= i < pages.len() ==> #[trigger] answered(fetch, listing, pages, i)
    &&& forall|i: int| 0 <= i < pages.len() - 1 ==> (#[trigger] pages[i]).pagination.next_key is Some
}

/// Whether a run has not reached the end of the data: it is empty, or its
/// last page names a next one.
pub open spec fn unfinished<T>(pages: Seq<Page<T>>) -> bool {
    pages.len() > 0 ==> pages.last().pagination.next_key is Some
}

/// What gathering a listing comes to. A complete listing holds the items of
/// a finished run of at most `max_pages` pages, with the last page's
/// metadata. An upstream error is the answer to the query that follows an
/// unfinished run. The exhaustion follows an unfinished run of exactly
/// `max_pages` pages.
pub open spec fn collected<T, E, F: Fn(Query) -> Result<Page<T>, E>>(
    fetch: F,
    listing: Listing,
    max_pages: usize,
    r: Result<Page<T>, PageError<E>>,
    pages: Seq<Page<T>>,
) -> bool {
    &&& is_run(fetch, listing, pages)
    &&& pages.len() <= max_pages
    &&& match r {
        Ok(whole) => {
            &&& pages.len() >= 1
            &&& pages.last().pagination.next_key is None
            &&& whole.pagination == pages.last().pagination
            &&& whole.items@ == gathered(pages)
        },
        Err(PageError::Upstream(e)) => {
            &&& unfinished(pages)
            &&& pages.len() < max_pages
            &&& call_ensures(
                fetch,
                (listing.page_query(request_at(pages, pages.len() as int)),),
                Err::<Page<T>, E>(e),
            )
        },
        Err(PageError::ResourceExhausted) => {
            &&& unfinished(pages)
            &&& pages.len() == max_pages
        },
    }
}

/// Gathering one more page appends its items.
pub proof fn gathered_push<T>(pages: Seq<Page<T>>, page: Page<T>)
    ensures
        gathered(pages.push(page)) == gathered(pages) + page.items@,
{
    assert(pages.push(page).drop_last() =~= pages);
}

/// Gathering keeps the order of the pages: the items of a run that is made
/// of two parts are the items of the first part, then those of the second.
pub proof fn gathered_concat<T>(front: Seq<Page<T>>, back: Seq<Page<T>>)
    ensures
        gathered(front + back) == gathered(front) + gathered(back),
    decreases back.len(),
{
    if back.len() == 0 {
        assert(front + back =~= front);
        assert(gathered(front) + gathered(back) =~= gathered(front));
    } else {
        gathered_concat(front, back.drop_last());
        assert((front + back).drop_last() =~= front + back.drop_last());
        assert((front + back).last() == back.last());
        assert(gathered(front + back) =~= gathered(front) + gathered(back));
    }
}

/// A listing that comes in two pages holds the items of the first page,
/// then those of the second.
pub proof fn gathered_pair<T>(first: Page<T>, second: Page<T>)
    ensures
        gathered(seq![first, second]) == first.items@ + second.items@,
{
    let none = Seq::<Page<T>>::empty();
    gathered_push(none, first);
    gathered_push(none.push(first), second);
    assert(none.push(first).push(second) =~= seq![first, second]);
    assert(gathered(none) + first.items@ =~= first.items@);
}

/// Whether the upstream answers each query in one way only.
pub open spec fn single_valued<T, E, F: Fn(Query) -> Result<Page<T>, E>>(fetch: F) -> bool {
    forall|q: Query, a: Result<Page<T>, E>, b: Result<Page<T>, E>|
        #![trigger call_ensures(fetch, (q,), a), call_ensures(fetch, (q,), b)]
        call_ensures(fetch, (q,), a) && call_ensures(fetch, (q,), b) ==> a == b
}

/// Against an upstream that answers each query in one way only, two runs
/// hold the same page wherever both have one.
pub proof fn runs_agree<T, E, F: Fn(Query) -> Result<Page<T>, E>>(
    fetch: F,
    listing: Listing,
    a: Seq<Page<T>>,
    b: Seq<Page<T>>,
    i: int,
)
    requires
        single_valued(fetch),
        is_run(fetch, listing, a),
        is_run(fetch, listing, b),
        0 <= i < a.len(),
        i < b.len(),
    ensures
        a[i] == b[i],
    decreases i,
{
    if i > 0 {
        runs_agree(fetch, listing, a, b, i - 1);
    }
    assert(request_at(a, i) == request_at(b, i));
    assert(answered(fetch, listing, a, i));
    assert(answered(fetch, listing, b, i));
    assert(Ok::<Page<T>, E>(a[i]) == Ok::<Page<T>, E>(b[i]));
}

/// Against an upstream that answers each query in one way only, there is
/// one run that reaches the end of the data.
pub proof fn finished_run_is_unique<T, E, F: Fn(Query) -> Result<Page<T>, E>>(
    fetch: F,
    listing: Listing,
    a: Seq<Page<T>>,
    b: Seq<Page<T>>,
)
    requires
        single_valued(fetch),
        is_run(fetch, listing, a),
        is_run(fetch, listing, b),
        a.len() >= 1,
        b.len() >= 1,
        a.last().pagination.next_key is None,
        b.last().pagination.next_key is None,
    ensures
        a == b,
{
    if a.len() < b.len() {
        runs_agree(fetch, listing, a, b, a.len() - 1);
        assert(b[a.len() - 1].pagination.next_key is Some);
    } else if b.len() < a.len() {
        runs_agree(fetch, listing, a, b, b.len() - 1);
        assert(a[b.len() - 1].pagination.next_key is Some);
    } else {
        assert forall|i: int| 0 <= i < a.len() implies a[i] == b[i] by {
            runs_agree(fetch, listing, a, b, i);
        }
        assert(a =~= b);
    }
}

/// Gathering the same listing twice from an upstream that answers each
/// query in one way only gives the same items and the same metadata, where
/// both times the end of the data is reached.
pub proof fn complete_listing_is_determined<T, E, F: Fn(Query) -> Result<Page<T>, E>>(
    fetch: F,
    listing: Listing,
    first_max: usize,
    second_max: usize,
    first: Result<Page<T>, PageError<E>>,
    second: Result<Page<T>, PageError<E>>,
)
    requires
        single_valued(fetch),
        exists|pages: Seq<Page<T>>| #[trigger] collected(fetch, listing, first_max, first, pages),
        exists|pages: Seq<Page<T>>| #[trigger] collected(fetch, listing, second_max, second, pages),
        first is Ok,
        second is Ok,
    ensures
        first->Ok_0.items@ == second->Ok_0.items@,
        first->Ok_0.pagination == second->Ok_0.pagination,
{
    let a = choose|pages: Seq<Page<T>>| #[trigger] collected(fetch, listing, first_max, first, pages);
    let b = choose|pages: Seq<Page<T>>| #[trigger] collected(fetch, listing, second_max, second, pages);
    finished_run_is_unique(fetch, listing, a, b);
}

/// Takes one page into what is gathered so far, and says how to go on.
pub fn absorb<T>(so_far: &mut Vec<T>, page: Page<T>) -> (step: Step)
    ensures
        final(so_far)@ == old(so_far)@ + page.items@,
        step == step_after(page.pagination),
{
    let Page { pagination, items } = page;
    let mut items = items;
    so_far.append(&mut items);
    if pagination.next_key.is_none() {
        Step::Done(pagination)
    } else {
        Step::More(
            PageRequest { key: pagination.next_key, offset: None, limit: None, count_total: None, reverse: None },
        )
    }
}

/// Gathers a listing: asks `fetch` for page after page, the first without a
/// page request, until a page names no next key, and returns all items in
/// the order received with the last page's metadata. Stops with
/// `ResourceExhausted` once `max_pages` pages are read and the data has not
/// ended, and hands on the first error of `fetch`.
pub fn collect_pages<T, E, F: Fn(Query) -> Result<Page<T>, E>>(listing: &Listing, fetch: F, max_pages: usize) -> (r:
    Result<Page<T>, PageError<E>>)
    requires
        forall|q: Query| call_requires(fetch, (q,)),
    ensures
        exists|pages: Seq<Page<T>>| #[trigger] collected(fetch, *listing, max_pages, r, pages),
{
    let mut so_far: Vec<T> = Vec::new();
    let mut pagination: Option<PageRequest> = None;
    let mut read: usize = 0;
    let ghost mut pages: Seq<Page<T>> = Seq::empty();
    while read < max_pages
        invariant
            forall|q: Query| call_requires(fetch, (q,)),
            is_run(fetch, *listing, pages),
            unfinished(pages),
            pages.len() == read,
            read <= max_pages,
            pagination == request_at(pages, pages.len() as int),
            so_far@ == gathered(pages),
        decreases max_pages - read,
    {
        let request = listing.query_for(pagination);
        match fetch(request) {
            Err(e) => {
                let r = Err(PageError::Upstream(e));
                assert(collected(fetch, *listing, max_pages, r, pages));
                return r;
            },
            Ok(page) => {
                let ghost before = pages;
                proof {
                    pages = before.push(page);
                    gathered_push(before, page);
                    assert forall|i: int| 0 <= i < pages.len() implies #[trigger] answered(
                        fetch,
                        *listing,
                        pages,
                        i,
                    ) by {
                        if i < before.len() {
                            assert(answered(fetch, *listing, before, i));
                            assert(request_at(pages, i) == request_at(before, i));
                        }
                    }
                    assert forall|i: int| 0 <= i < pages.len() - 1 implies (#[trigger] pages[i]).pagination.next_key is Some by {
                        if i < before.len() - 1 {
                            assert(before[i].pagination.next_key is Some);
                        } else {
                            assert(pages[i] == before.last());
                        }
                    }
                }
                read = read + 1;
                match absorb(&mut so_far, page) {
                    Step::Done(meta) => {
                        let r = Ok(Page { pagination: meta, items: so_far });
                        assert(collected(fetch, *listing, max_pages, r, pages));
                        return r;
                    },
                    Step::More(next) => {
                        pagination = Some(next);
                    },
                }
            },
        }
    }
    let r = Err(PageError::ResourceExhausted);
    assert(collected(fetch, *listing, max_pages, r, pages));
    r
}

/// All tokens of an issuer, gathered from the pages that `fetch` returns.
pub fn query_tokens<T, E, F: Fn(Query) -> Result<Page<T>, E>>(issuer: String, fetch: F, max_pages: usize) -> (r:
    Result<Page<T>, PageError<E>>)
    requires
        forall|q: Query| call_requires(fetch, (q,)),
    ensures
        exists|pages: Seq<Page<T>>| #[trigger]
            collected(fetch, (Listing::Tokens { issuer }), max_pages, r, pages),
{
    collect_pages(&Listing::Tokens { issuer }, fetch, max_pages)
}

/// All frozen balances of an account, gathered from the pages that `fetch`
/// returns.
pub fn query_frozen_balances<T, E, F: Fn(Query) -> Result<Page<T>, E>>(
    account: String,
    fetch: F,
    max_pages: usize,
) -> (r: Result<Page<T>, PageError<E>>)
    requires
        forall|q: Query| call_requires(fetch, (q,)),
    ensures
        exists|pages: Seq<Page<T>>| #[trigger]
            collected(fetch, (Listing::FrozenBalances { account }), max_pages, r, pages),
{
    collect_pages(&Listing::FrozenBalances { account }, fetch, max_pages)
}

/// All whitelisted balances of an account, gathered from the pages that
/// `fetch` returns.
pub fn query_whitelisted_balances<T, E, F: Fn(Query) -> Result<Page<T>, E>>(
    account: String,
    fetch: F,
    max_pages: usize,
) -> (r: Result<Page<T>, PageError<E>>)
    requires
        forall|q: Query| call_requires(fetch, (q,)),
    ensures
        exists|pages: Seq<Page<T>>| #[trigger]
            collected(fetch, (Listing::WhitelistedBalances { account }), max_pages, r, pages),
{
    collect_pages(&Listing::WhitelistedBalances { account }, fetch, max_pages)
}

} // verus!
