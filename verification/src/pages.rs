//! Folding the pages of a search into one result. The caller fetches a page,
//! hands it in with the `Link` header that came with it, and is told the URL
//! of the next page or given the finished result.

use vstd::prelude::*;
use vstd::string::*;
use crate::error::Error;
use crate::link::{link_relations, next_url, parse_next_url, parsed_url, url_parse};
use crate::response::HeaderValue;

verus! {

/// One page of a search, and also the result of a whole paged fetch.
#[derive(Debug)]
pub struct SearchResult<T> {
    /// How many items the search matches in all.
    pub total_count: u32,
    /// Whether the search gave up before it had seen everything.
    pub incomplete_results: bool,
    /// The items, in the order received.
    pub items: Vec<T>,
}

/// What has been gathered from the pages received so far.
#[derive(Debug)]
pub struct PageFetch<T> {
    total_count: u32,
    items: Vec<T>,
}

/// What follows a page.
#[derive(Debug)]
pub enum PageStep<T> {
    /// Fetch the page at the URL and fold it into the state.
    Next(PageFetch<T>, String),
    /// The page was the last; the result is complete.
    Done(SearchResult<T>),
}

/// What folding a page gives, as pure values.
pub ghost enum Folded<T> {
    /// The whole fetch has failed.
    Failed(Error),
    /// Another page follows at `url`.
    Continue { total: u32, items: Seq<T>, url: Seq<char> },
    /// No page follows.
    Finished { total: u32, items: Seq<T> },
}

/// Folds a page into the largest total seen and the items gathered so far.
/// An incomplete page fails the fetch; so does a `Link` header that cannot be
/// read. The total never decreases, and the page's items follow the earlier
/// ones in their order.
pub open spec fn folded<T>(total: u32, items: Seq<T>, page: SearchResult<T>, link: HeaderValue) -> Folded<
    T,
> {
    if page.incomplete_results {
        Folded::Failed(Error::IncompleteSearchResult)
    } else {
        let total = if total <= page.total_count {
            page.total_count
        } else {
            total
        };
        match next_url(link) {
            Err(e) => Folded::Failed(Error::PaginationParse(e)),
            Ok(Some(url)) => Folded::Continue { total, items: items + page.items@, url },
            Ok(None) => Folded::Finished { total, items: items + page.items@ },
        }
    }
}

impl<T> PageFetch<T> {
    /// The largest total that a page has reported so far.
    pub closed spec fn total(self) -> u32 {
        self.total_count
    }

    /// The items of the pages folded so far, in order.
    pub closed spec fn items(self) -> Seq<T> {
        self.items@
    }

    /// Starts a paged fetch at `seed`: nothing gathered, and the URL of the
    /// first page. Fails where `seed` is not an absolute URL.
    pub fn begin(seed: &str) -> (r: Result<(PageFetch<T>, String), Error>)
        ensures
            match r {
                Ok((fetch, url)) => {
                    &&& fetch.total() == 0
                    &&& fetch.items() == Seq::<T>::empty()
                    &&& parsed_url(seed@) == Some(url@)
                },
                Err(e) => e == Error::InvalidUrl && parsed_url(seed@) is None,
            },
    {
        match url_parse(seed) {
            Ok(url) => Ok((PageFetch { total_count: 0, items: Vec::new() }, url)),
            Err(_) => Err(Error::InvalidUrl),
        }
    }

    /// Folds the page that was fetched, with the `Link` header of its
    /// response, into what has been gathered.
    pub fn fold(self, page: SearchResult<T>, link: &HeaderValue) -> (r: Result<PageStep<T>, Error>)
        ensures
            match r {
                Err(e) => folded(self.total(), self.items(), page, *link) == Folded::<T>::Failed(e),
                Ok(PageStep::Next(fetch, url)) => folded(self.total(), self.items(), page, *link)
                    == (Folded::Continue { total: fetch.total(), items: fetch.items(), url: url@ }),
                Ok(PageStep::Done(result)) => {
                    &&& !result.incomplete_results
                    &&& folded(self.total(), self.items(), page, *link) == (Folded::Finished {
                        total: result.total_count,
                        items: result.items@,
                    })
                },
            },
    {
        if page.incomplete_results {
            return Err(Error::IncompleteSearchResult);
        }
        let mut total_count = self.total_count;
        if total_count <= page.total_count {
            total_count = page.total_count;
        }
        let mut items = self.items;
        let mut fresh = page.items;
        items.append(&mut fresh);
        match parse_next_url(link) {
            Err(e) => Err(Error::PaginationParse(e)),
            Ok(Some(url)) => Ok(PageStep::Next(PageFetch { total_count, items }, url)),
            Ok(None) => Ok(
                PageStep::Done(SearchResult { total_count, incomplete_results: false, items }),
            ),
        }
    }
}

/// A page that is complete and whose `Link` header holds no relation `next`
/// is the last: folding it finishes the fetch.
pub proof fn law_no_next_relation_finishes<T>(
    total: u32,
    items: Seq<T>,
    page: SearchResult<T>,
    header: String,
)
    requires
        !page.incomplete_results,
        link_relations(header@) matches Ok(links) && !links.contains_key("next"@),
    ensures
        folded(total, items, page, HeaderValue::Text(header)) is Finished,
{
}

/// A complete page that came without a `Link` header is the last.
pub proof fn law_no_link_header_finishes<T>(total: u32, items: Seq<T>, page: SearchResult<T>)
    requires
        !page.incomplete_results,
    ensures
        folded(total, items, page, HeaderValue::Missing) is Finished,
{
}

/// Folding a page that does not fail the fetch keeps every item gathered so
/// far, appends the page's items in their order, and leaves the total at the
/// larger of the total so far and the page's: it never decreases.
pub proof fn law_fold_keeps_items_and_largest_total<T>(
    total: u32,
    items: Seq<T>,
    page: SearchResult<T>,
    link: HeaderValue,
)
    requires
        !(folded(total, items, page, link) is Failed),
    ensures
        ({
            let (new_total, new_items) = match folded(total, items, page, link) {
                Folded::Continue { total, items, url } => (total, items),
                Folded::Finished { total, items } => (total, items),
                Folded::Failed(_) => (total, items),
            };
            &&& new_items.len() == items.len() + page.items@.len()
            &&& new_items.take(items.len() as int) == items
            &&& new_items.skip(items.len() as int) == page.items@
            &&& new_total >= total && new_total >= page.total_count
            &&& new_total == total || new_total == page.total_count
        }),
{
    let joined = items + page.items@;
    assert(joined.take(items.len() as int) =~= items);
    assert(joined.skip(items.len() as int) =~= page.items@);
}

/// The largest total that any of `pages` reports; zero for no page.
pub open spec fn largest_total<T>(pages: Seq<SearchResult<T>>) -> u32
    decreases pages.len(),
{
    if pages.len() == 0 {
        0
    } else if largest_total(pages.drop_last()) <= pages.last().total_count {
        pages.last().total_count
    } else {
        largest_total(pages.drop_last())
    }
}

/// The items of `pages`, page after page.
pub open spec fn all_items<T>(pages: Seq<SearchResult<T>>) -> Seq<T>
    decreases pages.len(),
{
    if pages.len() == 0 {
        Seq::empty()
    } else {
        all_items(pages.drop_last()) + pages.last().items@
    }
}

/// The number of items that `pages` hold together.
pub open spec fn item_count<T>(pages: Seq<SearchResult<T>>) -> nat
    decreases pages.len(),
{
    if pages.len() == 0 {
        0
    } else {
        item_count(pages.drop_last()) + pages.last().items@.len()
    }
}

/// After the pages received so far have been folded one by one, folding
/// another that does not fail the fetch gives the largest total of all the
/// pages and the items of all of them in the order received; their number
/// is the sum of the pages' item counts.
pub proof fn law_fold_gathers_all_pages<T>(
    pages: Seq<SearchResult<T>>,
    page: SearchResult<T>,
    link: HeaderValue,
)
    requires
        !(folded(largest_total(pages), all_items(pages), page, link) is Failed),
    ensures
        match folded(largest_total(pages), all_items(pages), page, link) {
            Folded::Continue { total, items, url } => total == largest_total(pages.push(page))
                && items == all_items(pages.push(page)),
            Folded::Finished { total, items } => total == largest_total(pages.push(page)) && items
                == all_items(pages.push(page)),
            Folded::Failed(_) => false,
        },
        all_items(pages.push(page)).len() == item_count(pages.push(page)),
{
    let more = pages.push(page);
    assert(more.drop_last() == pages);
    assert(more.last() == page);
    lemma_item_count(more);
}

/// The items of some pages are as many as the pages' item counts together.
pub proof fn lemma_item_count<T>(pages: Seq<SearchResult<T>>)
    ensures
        all_items(pages).len() == item_count(pages),
    decreases pages.len(),
{
    if pages.len() > 0 {
        lemma_item_count(pages.drop_last());
    }
}

/// An incomplete page fails the fetch, whatever has been gathered and
/// whatever the `Link` header says.
pub proof fn law_incomplete_page_fails<T>(
    total: u32,
    items: Seq<T>,
    page: SearchResult<T>,
    link: HeaderValue,
)
    requires
        page.incomplete_results,
    ensures
        folded(total, items, page, link) == Folded::<T>::Failed(Error::IncompleteSearchResult),
{
}

} // verus!
