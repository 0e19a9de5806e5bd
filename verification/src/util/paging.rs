//! Cursor pagination.  A [`Paginator`] is the verified core of a paged
//! listing: it says which URL to request next and accumulates the items of
//! the pages it is fed, in page order, until the listing is exhausted.
//!
//! A driver owns the network: it asks [`Paginator::next_url`] for the next
//! request, performs it, and hands the decoded page to [`Paginator::feed`].

use vstd::prelude::*;

use crate::util::text::{cat3, cat4, contains_char, dec_int, i64_to_string};

verus! {

/// How many items a paged request asks for.  `All` stands for "every page":
/// the listing is followed page by page until the server stops returning a
/// cursor.
#[derive(Debug, Clone, Copy, PartialEq, Eq, Structural)]
pub enum PageLimit {
    /// Retrieves all pages.
    All,
    /// Retrieves 10 items.
    Limit10,
    /// Retrieves 25 items.
    Limit25,
    /// Retrieves 50 items.
    Limit50,
    /// Retrieves 100 items.
    Limit100,
}

impl PageLimit {
    /// The numeric value each limit stands for.
    pub open spec fn limit_value(self) -> int {
        match self {
            PageLimit::All => 20000,
            PageLimit::Limit10 => 10,
            PageLimit::Limit25 => 25,
            PageLimit::Limit50 => 50,
            PageLimit::Limit100 => 100,
        }
    }

    /// The limit as a number.
    pub fn get_limit(&self) -> (r: i64)
        ensures
            r == self.limit_value(),
    {
        match self {
            PageLimit::All => 20000,
            PageLimit::Limit10 => 10,
            PageLimit::Limit25 => 25,
            PageLimit::Limit50 => 50,
            PageLimit::Limit100 => 100,
        }
    }
}

/// The order a listing is returned in.
#[derive(Debug, Clone, Copy, PartialEq, Eq, Structural)]
pub enum SortOrder {
    /// Sort in ascending order.
    Asc,
    /// Sort in descending order.
    Desc,
}

impl SortOrder {
    /// The query-parameter spelling of each order.
    pub open spec fn sort_order_chars(self) -> Seq<char> {
        match self {
            SortOrder::Asc => "Asc"@,
            SortOrder::Desc => "Desc"@,
        }
    }

    /// The sort order as the query-parameter string.
    pub fn get_sort_order_string(&self) -> (r: String)
        ensures
            r@ == self.sort_order_chars(),
    {
        match self {
            SortOrder::Asc => "Asc".to_owned(),
            SortOrder::Desc => "Desc".to_owned(),
        }
    }
}

/// The query-parameter spelling of an optional sort order, ascending when
/// none is given.
pub open spec fn sort_chars_or_asc(sort_order: Option<SortOrder>) -> Seq<char> {
    match sort_order {
        Some(s) => s.sort_order_chars(),
        None => "Asc"@,
    }
}

/// Renders an optional sort order, defaulting to ascending.
pub fn sort_order_string_or_asc(sort_order: Option<SortOrder>) -> (r: String)
    ensures
        r@ == sort_chars_or_asc(sort_order),
{
    match sort_order {
        Some(s) => s.get_sort_order_string(),
        None => SortOrder::Asc.get_sort_order_string(),
    }
}

/// One page of a cursor-paged listing, as the remote service returns it.
#[derive(Debug, Clone, PartialEq)]
pub struct PagedResponse<T> {
    pub next_page_cursor: Option<String>,
    pub previous_page_cursor: Option<String>,
    pub data: Vec<T>,
}

/// The items of a sequence of pages, concatenated in page order.
pub open spec fn pages_data<T>(pages: Seq<PagedResponse<T>>) -> Seq<T>
    decreases pages.len(),
{
    if pages.len() == 0 {
        Seq::empty()
    } else {
        pages_data(pages.drop_last()) + pages.last().data@
    }
}

/// The item sequence reached by starting from `start` and accumulating the
/// given pages one after another, as [`Paginator::feed`] does.
pub open spec fn accumulated<T>(start: Seq<T>, pages: Seq<PagedResponse<T>>) -> Seq<T>
    decreases pages.len(),
{
    if pages.len() == 0 {
        start
    } else {
        accumulated(start, pages.drop_last()) + pages.last().data@
    }
}

/// Law: feeding pages one after another concatenates their items in page
/// order — the accumulated result is the starting items followed by every
/// page's items, first page first, with nothing reordered, dropped or added.
pub proof fn lemma_pages_in_order<T>(start: Seq<T>, pages: Seq<PagedResponse<T>>)
    ensures
        accumulated(start, pages) == start + pages_data(pages),
    decreases pages.len(),
{
    if pages.len() == 0 {
        assert(start + pages_data(pages) =~= start);
    } else {
        lemma_pages_in_order(start, pages.drop_last());
        assert((start + pages_data(pages.drop_last())) + pages.last().data@ =~= start
            + pages_data(pages));
    }
}

/// Law: a listing started empty that is complete after a single page — as
/// every limit at or below the page cap is, by [`Paginator::feed`] — holds
/// exactly that page's items, in server order.
pub proof fn lemma_single_page<T>(page: PagedResponse<T>)
    ensures
        accumulated(Seq::<T>::empty(), seq![page]) == page.data@,
{
    let pages = seq![page];
    assert(pages.drop_last() =~= Seq::<PagedResponse<T>>::empty());
    assert(accumulated(Seq::<T>::empty(), pages.drop_last()) + page.data@ =~= page.data@);
}

/// A paged listing in progress.
///
/// With a limit at or below the single-page cap, exactly one request is
/// issued, carrying that limit, and the listing is complete after one page
/// whatever cursor it returns.  With `PageLimit::All`, requests carry the
/// page cap and follow the returned cursor until a page omits it.
pub struct Paginator<T> {
    /// The endpoint listing URL, without cursor or limit parameters.
    pub base_url: String,
    /// The requested logical limit.
    pub limit: PageLimit,
    /// The cursor to send with the next request, if any.  An empty cursor
    /// stands for the first page and adds no query parameter.
    pub cursor: Option<String>,
    /// The items accumulated so far, in server order.
    pub items: Vec<T>,
    /// Whether the listing is complete: no further request is to be made.
    pub done: bool,
}

impl<T> Paginator<T> {
    /// The limit carried in the request's query string: the page cap when
    /// every page is wanted, the requested limit otherwise.
    pub open spec fn request_limit(self) -> int {
        if self.limit == PageLimit::All {
            100
        } else {
            self.limit.limit_value()
        }
    }

    /// The base URL with the cursor parameter attached, when one is pending.
    pub open spec fn spec_cursor_url(self) -> Seq<char> {
        match self.cursor {
            Some(c) => if c@.len() > 0 {
                self.base_url@ + "?cursor="@ + c@
            } else {
                self.base_url@
            },
            None => self.base_url@,
        }
    }

    /// The full URL of the next page request.
    pub open spec fn spec_next_url(self) -> Seq<char> {
        let u = self.spec_cursor_url();
        let q = if u.contains('?') {
            "&"@
        } else {
            "?"@
        };
        u + q + "limit="@ + dec_int(self.request_limit())
    }

    /// Starts a paged listing.  When every page is wanted the listing always
    /// starts from the first page, so a supplied cursor applies only to a
    /// single-page request.
    pub fn new(base_url: String, limit: PageLimit, cursor: Option<String>) -> (r: Paginator<T>)
        ensures
            r.base_url == base_url,
            r.limit == limit,
            r.items@ == Seq::<T>::empty(),
            !r.done,
            limit == PageLimit::All ==> r.cursor is None,
            limit != PageLimit::All ==> r.cursor == cursor,
    {
        let c = if limit == PageLimit::All {
            None
        } else {
            cursor
        };
        Paginator { base_url, limit, cursor: c, items: Vec::new(), done: false }
    }

    /// The URL to request next: `None` once the listing is complete.
    pub fn next_url(&self) -> (r: Option<String>)
        ensures
            self.done <==> r is None,
            r is Some ==> r->0@ == self.spec_next_url(),
    {
        if self.done {
            return None;
        }
        let with_cursor: String = match &self.cursor {
            Some(c) => if c.as_str().is_empty() {
                self.base_url.clone()
            } else {
                cat3(self.base_url.as_str(), "?cursor=", c.as_str())
            },
            None => self.base_url.clone(),
        };
        let sep: &str = if contains_char(with_cursor.as_str(), '?') {
            "&"
        } else {
            "?"
        };
        let requested: i64 = match self.limit {
            PageLimit::All => 100,
            _ => self.limit.get_limit(),
        };
        Some(cat4(with_cursor.as_str(), sep, "limit=", i64_to_string(requested).as_str()))
    }

    /// Accumulates one fetched page.  The page's items are appended in
    /// server order.  With `PageLimit::All` the listing continues at the
    /// returned cursor and is complete exactly when the page omits it; with
    /// any other limit the listing is complete after this single page.
    pub fn feed(&mut self, page: PagedResponse<T>)
        requires
            !old(self).done,
        ensures
            final(self).items@ == old(self).items@ + page.data@,
            final(self).base_url == old(self).base_url,
            final(self).limit == old(self).limit,
            old(self).limit == PageLimit::All ==> (final(self).done <==> page.next_page_cursor
                is None),
            old(self).limit == PageLimit::All ==> final(self).cursor == page.next_page_cursor,
            old(self).limit != PageLimit::All ==> final(self).done,
            old(self).limit != PageLimit::All ==> final(self).cursor == old(self).cursor,
    {
        let PagedResponse { next_page_cursor, data, .. } = page;
        let mut fetched = data;
        self.items.append(&mut fetched);
        if self.limit == PageLimit::All {
            self.done = next_page_cursor.is_none();
            self.cursor = next_page_cursor;
        } else {
            self.done = true;
        }
    }

    /// The accumulated items of the complete listing.
    pub fn into_items(self) -> (r: Vec<T>)
        requires
            self.done,
        ensures
            r@ == self.items@,
    {
        self.items
    }
}

/// Starts a paged retrieval of the listing at `url`.
pub fn get_page<T>(url: &str, limit: PageLimit, cursor: Option<String>) -> (r: Paginator<T>)
    ensures
        r.base_url@ == url@,
        r.limit == limit,
        r.items@ == Seq::<T>::empty(),
        !r.done,
        limit == PageLimit::All ==> r.cursor is None,
        limit != PageLimit::All ==> r.cursor == cursor,
{
    Paginator::new(url.to_owned(), limit, cursor)
}

} // verus!
