//! Page sizes, continuation links and the outcome of a page request.
//!
//! A page is cut by identity key: the key of its last record is the cursor of
//! the page that follows. A page shorter than the size it was asked with is
//! the last one.

use vstd::prelude::*;
use crate::dto::{project_page, to_dtos, ApplicationDto, ApplicationDtoView};
use crate::errors::StoreError;
use crate::model::{Application, ApplicationView};
use crate::repository::{
    is_catalog, lemma_records_after_is_tail, lemma_records_after_record, page_limit,
    records_after, spec_answer, StoreReadView,
};
use crate::text::{decimal, push_decimal};

verus! {

/// The page size that a listing is served with: the requested size where it
/// lies between 1 and the configured maximum, the maximum otherwise.
pub open spec fn spec_effective_limit(requested: Option<i64>, max: i64) -> i64 {
    match requested {
        Some(r) => if 0 < r <= max { r } else { max },
        None => max,
    }
}

/// Resolves the page size of one request. A size that is absent, not positive
/// or above `max` gives `max`.
pub fn effective_limit(requested: Option<i64>, max: i64) -> (limit: i64)
    requires
        max > 0,
    ensures
        limit == spec_effective_limit(requested, max),
        0 < limit <= max,
        requested is None ==> limit == max,
        requested matches Some(r) ==> limit == (if 0 < r <= max {
            r
        } else {
            max
        }),
{
    match requested {
        Some(r) => if 0 < r && r <= max { r } else { max },
        None => max,
    }
}

/// The cursor of the page after `page`, where there is one: none after a page
/// that holds fewer than `limit` records, else the identity key of its last
/// record (the empty key for a page without records).
pub open spec fn spec_next_page_key(page: Seq<ApplicationView>, limit: int) -> Option<Seq<char>> {
    if page.len() < limit {
        None
    } else if page.len() == 0 {
        Some(Seq::empty())
    } else {
        Some(page.last().id)
    }
}

/// Decides whether a page served with size `limit` has a successor, and
/// under which cursor.
pub fn next_page_key(page: &Vec<Application>, limit: i64) -> (key: Option<String>)
    ensures
        key.deep_view() == spec_next_page_key(page.deep_view(), limit as int),
        page.len() < limit ==> key is None,
        0 < page.len() && page.len() >= limit ==> key.deep_view() == Some(
            page@[page.len() - 1].id@,
        ),
{
    let size = page.len();
    if limit > 0 && (size as u64) < (limit as u64) {
        None
    } else if size == 0 {
        Some(String::new())
    } else {
        Some(page[size - 1].id.clone())
    }
}

/// Address of the first page of the listing.
pub open spec fn spec_first_url(context: Seq<char>, limit: int) -> Seq<char> {
    context + "/api/v1/applications/?limit="@ + decimal(limit)
}

/// Address of the page that follows the record with identity key `key`.
pub open spec fn spec_next_url(context: Seq<char>, key: Seq<char>, limit: int) -> Seq<char> {
    context + "/api/v1/applications/?page="@ + key + "&limit="@ + decimal(limit)
}

/// Value of the `Link` header of a page: the relation `first`, and the
/// relation `next` where the page has a successor.
pub open spec fn spec_link_header(
    context: Seq<char>,
    limit: int,
    next_key: Option<Seq<char>>,
) -> Seq<char> {
    let first = "<"@ + spec_first_url(context, limit) + ">; rel=first"@;
    match next_key {
        Some(key) => first + ", <"@ + spec_next_url(context, key, limit) + ">; rel=next"@,
        None => first,
    }
}

/// Writes the `Link` header of a page served under `context` with size
/// `limit`, whose successor, if any, starts after `next_key`.
pub fn link_header(context: &str, limit: i64, next_key: Option<&str>) -> (header: String)
    ensures
        header@ == spec_link_header(context@, limit as int, next_key.deep_view()),
{
    let mut header = String::from_str("<");
    header.append(context);
    header.append("/api/v1/applications/?limit=");
    push_decimal(&mut header, limit);
    header.append(">; rel=first");
    match next_key {
        Some(key) => {
            header.append(", <");
            header.append(context);
            header.append("/api/v1/applications/?page=");
            header.append(key);
            header.append("&limit=");
            push_decimal(&mut header, limit);
            header.append(">; rel=next");
        },
        None => {},
    }
    header
}

/// How a page request ends.
#[derive(Clone, Debug, PartialEq, Eq)]
pub enum PageOutcome {
    /// The page, projected, with the value of its `Link` header.
    Page { dtos: Vec<ApplicationDto>, link: String },
    /// The store answered with no record.
    NotFound,
    /// The store failed; the cause is for the log.
    ServerError { cause: StoreError },
}

/// Model of a [`PageOutcome`].
pub enum PageOutcomeView {
    Page { dtos: Seq<ApplicationDtoView>, link: Seq<char> },
    NotFound,
    ServerError { cause: Seq<char> },
}

impl View for PageOutcome {
    type V = PageOutcomeView;

    open spec fn view(&self) -> PageOutcomeView {
        match self {
            PageOutcome::Page { dtos, link } => PageOutcomeView::Page {
                dtos: dtos.deep_view(),
                link: link@,
            },
            PageOutcome::NotFound => PageOutcomeView::NotFound,
            PageOutcome::ServerError { cause } => PageOutcomeView::ServerError {
                cause: cause.cause@,
            },
        }
    }
}

/// Model of what the store hands back for a page read.
pub open spec fn fetched_view(fetched: Result<Vec<Application>, StoreError>) -> Result<
    Seq<ApplicationView>,
    Seq<char>,
> {
    match fetched {
        Ok(page) => Ok(page.deep_view()),
        Err(e) => Err(e.cause@),
    }
}

/// The outcome of a page request served with size `limit` under `context`,
/// given what the store handed back.
pub open spec fn spec_page_outcome(
    fetched: Result<Seq<ApplicationView>, Seq<char>>,
    limit: int,
    context: Seq<char>,
) -> PageOutcomeView {
    match fetched {
        Err(cause) => PageOutcomeView::ServerError { cause },
        Ok(page) => if page.len() == 0 {
            PageOutcomeView::NotFound
        } else {
            PageOutcomeView::Page {
                dtos: project_page(page),
                link: spec_link_header(context, limit, spec_next_page_key(page, limit)),
            }
        },
    }
}

/// Turns the store's answer to a page read into the outcome of the request:
/// a failure stays a failure, an empty page is "not found", and any other
/// page is projected record by record and given its `Link` header.
pub fn respond_page(
    fetched: Result<Vec<Application>, StoreError>,
    limit: i64,
    context: &str,
) -> (outcome: PageOutcome)
    ensures
        outcome@ == spec_page_outcome(fetched_view(fetched), limit as int, context@),
{
    match fetched {
        Err(cause) => PageOutcome::ServerError { cause },
        Ok(page) => {
            if page.len() == 0 {
                PageOutcome::NotFound
            } else {
                let link = match next_page_key(&page, limit) {
                    Some(key) => link_header(context, limit, Some(key.as_str())),
                    None => link_header(context, limit, None),
                };
                let dtos = to_dtos(page);
                PageOutcome::Page { dtos, link }
            }
        },
    }
}

/// On a page that is kept, the header says whether another follows: a page
/// with fewer records than `limit` is the last and its header holds the
/// relation `first` alone; any other page also holds the relation `next`,
/// whose address carries the identity key of the page's last record.
pub proof fn lemma_next_relation_iff_page_is_full(
    page: Seq<ApplicationView>,
    limit: int,
    context: Seq<char>,
)
    requires
        page.len() > 0,
    ensures
        spec_page_outcome(Ok(page), limit, context) matches PageOutcomeView::Page { dtos, link }
            && {
            &&& dtos == project_page(page)
            &&& page.len() < limit ==> link == "<"@ + spec_first_url(context, limit)
                + ">; rel=first"@
            &&& page.len() >= limit ==> link == "<"@ + spec_first_url(context, limit)
                + ">; rel=first"@ + ", <"@ + spec_next_url(context, page.last().id, limit)
                + ">; rel=next"@
        },
{
}

/// A header with the relation `next` is longer than the header of the same
/// page without it, so the two are never mistaken for each other.
pub proof fn lemma_next_relation_lengthens_header(
    context: Seq<char>,
    limit: int,
    key: Seq<char>,
)
    ensures
        spec_link_header(context, limit, Some(key)).len() > spec_link_header(
            context,
            limit,
            None,
        ).len(),
        spec_link_header(context, limit, Some(key)) != spec_link_header(context, limit, None),
{
    reveal_strlit(", <");
}

/// Paging leaves no gap and repeats nothing. A full page of a catalog, the
/// `n` records from place `start` on, names a successor under the key of its
/// last record, and what a store owes for the page after that key is the
/// stretch of the catalog that follows: the next `n` records, or all that
/// are left.
pub proof fn lemma_next_page_continues(
    catalog: Seq<ApplicationView>,
    collection: Seq<char>,
    start: int,
    n: int,
)
    requires
        is_catalog(catalog),
        n > 0,
        0 <= start,
        start + n <= catalog.len(),
    ensures
        ({
            let page = catalog.subrange(start, start + n);
            let end = if start + 2 * n < catalog.len() {
                start + 2 * n
            } else {
                catalog.len() as int
            };
            &&& spec_next_page_key(page, n) == Some(page.last().id)
            &&& spec_answer(
                StoreReadView::PageAfter { collection, key: page.last().id, limit: Some(n) },
                catalog,
            ) == catalog.subrange(start + n, end)
        }),
{
    lemma_records_after_record(catalog, start + n - 1);
}

/// A page that names no successor has none. Where a store answers a page
/// read of size `n` as it owes, with at least one record and fewer than `n`,
/// no record of the catalog stands after the last of the page.
pub proof fn lemma_short_page_ends_catalog(
    catalog: Seq<ApplicationView>,
    read: StoreReadView,
    n: int,
)
    requires
        is_catalog(catalog),
        n > 0,
        page_limit(read) == Some(n),
        0 < spec_answer(read, catalog).len() < n,
    ensures
        spec_next_page_key(spec_answer(read, catalog), n) is None,
        records_after(catalog, spec_answer(read, catalog).last().id).len() == 0,
{
    if let StoreReadView::PageAfter { key, .. } = read {
        lemma_records_after_is_tail(catalog, key);
    }
    lemma_records_after_record(catalog, catalog.len() - 1);
}

} // verus!
