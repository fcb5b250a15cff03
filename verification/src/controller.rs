//! The endpoints of the catalog, as decisions.
//!
//! An endpoint that reads the store is served in two steps. The first says
//! which read the request needs; the second takes the store's answer and
//! gives the reply. Between the two, the caller performs the read. Nothing
//! here touches a socket or a connection.

use vstd::prelude::*;
use crate::config::ServerConfig;
use crate::dto::{
    dto_keys, lemma_project_page_keeps_keys, project_application, project_page, ApplicationDto,
    ApplicationDtoView,
};
use crate::errors::{InternalServerError, StoreError};
use crate::model::{ascending, page_keys, Application, ApplicationView};
use crate::pagination::{
    effective_limit, fetched_view, lemma_next_page_continues, respond_page,
    spec_effective_limit, spec_link_header, spec_next_page_key, spec_page_outcome, PageOutcome,
    PageOutcomeView,
};
use crate::query::ApplicationsQuery;
use crate::repository::{is_catalog, lemma_first_page_answer, spec_answer, StoreReadView};
use crate::services::{spec_get_by_id, spec_list, ServiceCall};

verus! {

/// Body of a reply.
#[derive(Clone, Debug, PartialEq, Eq)]
pub enum ReplyBody {
    Empty,
    Application(ApplicationDto),
    Applications(Vec<ApplicationDto>),
    Error(InternalServerError),
}

/// Model of a [`ReplyBody`].
pub enum ReplyBodyView {
    Empty,
    Application(ApplicationDtoView),
    Applications(Seq<ApplicationDtoView>),
    Error { message: Seq<char>, date: Seq<char> },
}

impl View for ReplyBody {
    type V = ReplyBodyView;

    open spec fn view(&self) -> ReplyBodyView {
        match self {
            ReplyBody::Empty => ReplyBodyView::Empty,
            ReplyBody::Application(dto) => ReplyBodyView::Application(dto@),
            ReplyBody::Applications(dtos) => ReplyBodyView::Applications(dtos.deep_view()),
            ReplyBody::Error(e) => ReplyBodyView::Error { message: e.message@, date: e.date@ },
        }
    }
}

/// What an endpoint answers with. `status`, `link` (the value of the `Link`
/// header, where the reply has one) and `body` go to the caller; `log` is a
/// line for the server's own log and goes nowhere else.
#[derive(Clone, Debug, PartialEq, Eq)]
pub struct Reply {
    pub status: u16,
    pub link: Option<String>,
    pub body: ReplyBody,
    pub log: Option<String>,
}

/// Model of a [`Reply`].
pub struct ReplyView {
    pub status: int,
    pub link: Option<Seq<char>>,
    pub body: ReplyBodyView,
    pub log: Option<Seq<char>>,
}

impl View for Reply {
    type V = ReplyView;

    open spec fn view(&self) -> ReplyView {
        ReplyView {
            status: self.status as int,
            link: self.link.deep_view(),
            body: self.body@,
            log: self.log.deep_view(),
        }
    }
}

/// The reply "not found": status 404 and nothing else.
pub open spec fn spec_not_found() -> ReplyView {
    ReplyView { status: 404, link: None, body: ReplyBodyView::Empty, log: None }
}

/// Whether `reply` reports a failure of the store: status 500, no link, a
/// body with exactly `message` and some date, and the log line `log`.
pub open spec fn is_server_error(reply: ReplyView, message: Seq<char>, log: Seq<char>) -> bool {
    &&& reply.status == 500
    &&& reply.link is None
    &&& reply.body matches ReplyBodyView::Error { message: m, .. } && m == message
    &&& reply.log == Some(log)
}

/// Whether `reply` is the reply to a request for the record `id`, given what
/// the store handed back: the projected record with status 200, "not found"
/// where there is no such record, and on a failure a message that names `id`
/// and nothing of the cause, which goes to the log.
pub open spec fn spec_find_by_id(
    id: Seq<char>,
    found: Result<Option<ApplicationView>, Seq<char>>,
    reply: ReplyView,
) -> bool {
    match found {
        Ok(Some(application)) => reply == ReplyView {
            status: 200,
            link: None,
            body: ReplyBodyView::Application(project_application(application)),
            log: None,
        },
        Ok(None) => reply == spec_not_found(),
        Err(cause) => is_server_error(
            reply,
            "Error fetching application with ID "@ + id,
            "Error fetching application: "@ + cause,
        ),
    }
}

/// Whether `reply` is the reply to a listing request with page size
/// `requested`, served under `context` with at most `max` records a page,
/// given what the store handed back.
pub open spec fn spec_find_all(
    requested: Option<i64>,
    max: i64,
    context: Seq<char>,
    fetched: Result<Seq<ApplicationView>, Seq<char>>,
    reply: ReplyView,
) -> bool {
    match spec_page_outcome(fetched, spec_effective_limit(requested, max) as int, context) {
        PageOutcomeView::Page { dtos, link } => reply == ReplyView {
            status: 200,
            link: Some(link),
            body: ReplyBodyView::Applications(dtos),
            log: None,
        },
        PageOutcomeView::NotFound => reply == spec_not_found(),
        PageOutcomeView::ServerError { cause } => is_server_error(
            reply,
            "Error fetching applications"@,
            "Error fetching applications: "@ + cause,
        ),
    }
}

/// Model of what the store hands back for a read by key.
pub open spec fn found_view(found: Result<Option<Application>, StoreError>) -> Result<
    Option<ApplicationView>,
    Seq<char>,
> {
    match found {
        Ok(Some(application)) => Ok(Some(application@)),
        Ok(None) => Ok(None),
        Err(e) => Err(e.cause@),
    }
}

fn not_found() -> (reply: Reply)
    ensures
        reply@ == spec_not_found(),
{
    Reply { status: 404, link: None, body: ReplyBody::Empty, log: None }
}

fn server_error(message: &str, log_prefix: &str, cause: &StoreError) -> (reply: Reply)
    ensures
        is_server_error(reply@, message@, log_prefix@ + cause.cause@),
{
    let mut log = String::from_str(log_prefix);
    log.append(cause.cause.as_str());
    Reply {
        status: 500,
        link: None,
        body: ReplyBody::Error(InternalServerError::new(message)),
        log: Some(log),
    }
}

/// The liveness probe: status 200 and nothing else, whatever the state of
/// the store.
pub fn health() -> (reply: Reply)
    ensures
        reply@ == (ReplyView { status: 200, link: None, body: ReplyBodyView::Empty, log: None }),
{
    Reply { status: 200, link: None, body: ReplyBody::Empty, log: None }
}

/// First step of a request for one record: the call for the record `id`.
pub fn prepare_find_by_id(id: &str, config: &ServerConfig) -> (call: ServiceCall)
    ensures
        call@ == spec_get_by_id(config.services.application_service.collection(), id@),
{
    config.services.application_service.get_by_id(id)
}

/// Second step of a request for one record: the reply, given what the store
/// handed back for the call of the first step.
pub fn find_by_id(id: &str, found: Result<Option<Application>, StoreError>) -> (reply: Reply)
    ensures
        spec_find_by_id(id@, found_view(found), reply@),
{
    match found {
        Err(cause) => {
            let mut message = String::from_str("Error fetching application with ID ");
            message.append(id);
            server_error(message.as_str(), "Error fetching application: ", &cause)
        },
        Ok(None) => not_found(),
        Ok(Some(application)) => Reply {
            status: 200,
            link: None,
            body: ReplyBody::Application(ApplicationDto::from(application)),
            log: None,
        },
    }
}

/// First step of a listing request: the call for the page that starts after
/// the request's cursor, or for the first page where it has none, with the
/// page size that the request resolves to.
pub fn prepare_find_all(query: &ApplicationsQuery, config: &ServerConfig) -> (call: ServiceCall)
    requires
        config.is_valid(),
    ensures
        call@ == spec_list(
            config.services.application_service.collection(),
            query.page.deep_view(),
            Some(spec_effective_limit(query.limit, config.max_fetch_limit)),
        ),
{
    let limit = effective_limit(query.limit, config.max_fetch_limit);
    match &query.page {
        Some(key) => config.services.application_service.list(Some(key.as_str()), Some(limit)),
        None => config.services.application_service.list(None, Some(limit)),
    }
}

/// Second step of a listing request: the reply, given what the store handed
/// back for the call of the first step.
pub fn find_all(
    query: &ApplicationsQuery,
    config: &ServerConfig,
    fetched: Result<Vec<Application>, StoreError>,
) -> (reply: Reply)
    requires
        config.is_valid(),
    ensures
        spec_find_all(
            query.limit,
            config.max_fetch_limit,
            config.server_context@,
            fetched_view(fetched),
            reply@,
        ),
{
    let limit = effective_limit(query.limit, config.max_fetch_limit);
    match respond_page(fetched, limit, config.server_context.as_str()) {
        PageOutcome::Page { dtos, link } => Reply {
            status: 200,
            link: Some(link),
            body: ReplyBody::Applications(dtos),
            log: None,
        },
        PageOutcome::NotFound => not_found(),
        PageOutcome::ServerError { cause } => server_error(
            "Error fetching applications",
            "Error fetching applications: ",
            &cause,
        ),
    }
}

/// A listing request that is repeated over a store that has not changed is
/// answered as before: two replies to the same request, given the same page,
/// have the same status, the same `Link` header and the same records.
pub proof fn lemma_find_all_repeats(
    requested: Option<i64>,
    max: i64,
    context: Seq<char>,
    page: Seq<ApplicationView>,
    first: ReplyView,
    second: ReplyView,
)
    requires
        spec_find_all(requested, max, context, Ok(page), first),
        spec_find_all(requested, max, context, Ok(page), second),
    ensures
        first == second,
{
}

/// A request for one record that is repeated over a store that has not
/// changed is answered as before.
pub proof fn lemma_find_by_id_repeats(
    id: Seq<char>,
    found: Option<ApplicationView>,
    first: ReplyView,
    second: ReplyView,
)
    requires
        spec_find_by_id(id, Ok(found), first),
        spec_find_by_id(id, Ok(found), second),
    ensures
        first == second,
{
}

/// The reply to a listing request lists the page that the store handed back:
/// a record for a record, each under its identity key, in the order of the
/// page.
pub proof fn lemma_reply_lists_the_page(
    requested: Option<i64>,
    max: i64,
    context: Seq<char>,
    page: Seq<ApplicationView>,
    reply: ReplyView,
)
    requires
        page.len() > 0,
        spec_find_all(requested, max, context, Ok(page), reply),
    ensures
        reply.status == 200,
        reply.body matches ReplyBodyView::Applications(dtos) && {
            &&& dtos.len() == page.len()
            &&& dto_keys(dtos) == page_keys(page)
            &&& forall|i: int|
                0 <= i < page.len() ==> #[trigger] dtos[i] == project_application(page[i])
        },
{
    lemma_project_page_keeps_keys(page);
}

/// A first page holds at most `n` records, in ascending order of identity
/// key. Where a request without a cursor asks for `n` records, `n` within
/// the configured maximum, and the store answers the read of the request as
/// it owes, the reply lists the first records of the catalog, `n` of them or
/// all where there are fewer; over an empty catalog it is "not found".
pub proof fn lemma_first_page_bounded_and_ascending(
    n: i64,
    max: i64,
    context: Seq<char>,
    collection: Seq<char>,
    catalog: Seq<ApplicationView>,
    reply: ReplyView,
)
    requires
        0 < n <= max,
        is_catalog(catalog),
        spec_find_all(
            Some(n),
            max,
            context,
            Ok(
                spec_answer(
                    spec_list(collection, None, Some(spec_effective_limit(Some(n), max))).read,
                    catalog,
                ),
            ),
            reply,
        ),
    ensures
        catalog.len() == 0 ==> reply == spec_not_found(),
        catalog.len() > 0 ==> reply.status == 200,
        catalog.len() > 0 ==> (reply.body matches ReplyBodyView::Applications(dtos) && {
            &&& 0 < dtos.len() <= n
            &&& ascending(dto_keys(dtos))
            &&& dtos == project_page(catalog.take(dtos.len() as int))
        }),
{
    lemma_first_page_answer(catalog, collection, n as int);
    let page = spec_answer(
        StoreReadView::PageFromStart { collection, limit: Some(n as int) },
        catalog,
    );
    lemma_project_page_keeps_keys(page);
}

/// The reply to a listing request says whether a page follows. With fewer
/// records than the page size that the request resolves to, the page is the
/// last and the `Link` header holds the relation `first` alone; otherwise it
/// also holds the relation `next`, under the identity key of the last record.
pub proof fn lemma_reply_names_next_iff_page_is_full(
    requested: Option<i64>,
    max: i64,
    context: Seq<char>,
    page: Seq<ApplicationView>,
    reply: ReplyView,
)
    requires
        max > 0,
        page.len() > 0,
        spec_find_all(requested, max, context, Ok(page), reply),
    ensures
        ({
            let limit = spec_effective_limit(requested, max) as int;
            &&& reply.status == 200
            &&& page.len() < limit ==> reply.link == Some(spec_link_header(context, limit, None))
            &&& page.len() >= limit ==> reply.link == Some(
                spec_link_header(context, limit, Some(page.last().id)),
            )
        }),
{
}

/// Following `next` serves what follows. Where the `n` records of a catalog
/// from place `start` on were served as a full page, the request under the
/// cursor that the page named, answered by the store as it owes, is replied
/// to with the stretch of the catalog right behind the page, the next `n`
/// records or all that are left, and with "not found" where the page ended
/// the catalog.
pub proof fn lemma_following_next_serves_what_follows(
    n: i64,
    max: i64,
    context: Seq<char>,
    collection: Seq<char>,
    catalog: Seq<ApplicationView>,
    start: int,
    reply: ReplyView,
)
    requires
        0 < n <= max,
        is_catalog(catalog),
        0 <= start,
        start + n <= catalog.len(),
        spec_find_all(
            Some(n),
            max,
            context,
            Ok(
                spec_answer(
                    spec_list(
                        collection,
                        spec_next_page_key(catalog.subrange(start, start + n), n as int),
                        Some(spec_effective_limit(Some(n), max)),
                    ).read,
                    catalog,
                ),
            ),
            reply,
        ),
    ensures
        start + n == catalog.len() ==> reply == spec_not_found(),
        start + n < catalog.len() ==> reply.status == 200,
        start + n < catalog.len() ==> (reply.body matches ReplyBodyView::Applications(dtos)
            && dtos == project_page(
            catalog.subrange(
                start + n,
                if start + 2 * n < catalog.len() {
                    start + 2 * n
                } else {
                    catalog.len() as int
                },
            ),
        )),
{
    lemma_next_page_continues(catalog, collection, start, n as int);
}

} // verus!
