//! The catalog service: between the endpoints and the repository.
//!
//! The service decides which read a request needs and says, in one line for
//! the server's log, what it is about to fetch.

use vstd::prelude::*;
use crate::repository::{spec_bound, ApplicationRepository, StoreRead, StoreReadView};
use crate::text::{decimal, push_decimal};

verus! {

/// What the service asks for: the read to perform, and the line to log
/// before performing it.
#[derive(Clone, Debug, PartialEq, Eq)]
pub struct ServiceCall {
    pub trace: String,
    pub read: StoreRead,
}

/// Model of a [`ServiceCall`].
pub struct ServiceCallView {
    pub trace: Seq<char>,
    pub read: StoreReadView,
}

impl View for ServiceCall {
    type V = ServiceCallView;

    open spec fn view(&self) -> ServiceCallView {
        ServiceCallView { trace: self.trace@, read: self.read@ }
    }
}

/// The page size that the service hands to the repository: the one it was
/// given, or 0, which sets no bound, where it was given none.
pub open spec fn resolved_limit(limit: Option<i64>) -> i64 {
    match limit {
        Some(n) => n,
        None => 0,
    }
}

/// The call for one record.
pub open spec fn spec_get_by_id(collection: Seq<char>, id: Seq<char>) -> ServiceCallView {
    ServiceCallView {
        trace: "Fetching application with ID: "@ + id,
        read: StoreReadView::ByKey { collection, key: id },
    }
}

/// The call for the first page.
pub open spec fn spec_get_all_sorted_by_id(
    collection: Seq<char>,
    limit: Option<i64>,
) -> ServiceCallView {
    ServiceCallView {
        trace: "Fetching all applications sorted by ID with limit: "@ + decimal(
            resolved_limit(limit) as int,
        ),
        read: StoreReadView::PageFromStart {
            collection,
            limit: spec_bound(resolved_limit(limit) as int),
        },
    }
}

/// The call for the page after `id`.
pub open spec fn spec_get_all_with_id_greater_than(
    collection: Seq<char>,
    id: Seq<char>,
    limit: Option<i64>,
) -> ServiceCallView {
    ServiceCallView {
        trace: "Fetching all applications with ID greater than: "@ + id + " with limit: "@
            + decimal(resolved_limit(limit) as int),
        read: StoreReadView::PageAfter {
            collection,
            key: id,
            limit: spec_bound(resolved_limit(limit) as int),
        },
    }
}

/// The call for a page of the listing: the first page where there is no
/// cursor, the page after the cursor otherwise.
pub open spec fn spec_list(
    collection: Seq<char>,
    page_key: Option<Seq<char>>,
    limit: Option<i64>,
) -> ServiceCallView {
    match page_key {
        None => spec_get_all_sorted_by_id(collection, limit),
        Some(key) => spec_get_all_with_id_greater_than(collection, key, limit),
    }
}

/// The catalog service over one repository.
#[derive(Clone, Debug, PartialEq, Eq)]
pub struct ApplicationService {
    application_repository: ApplicationRepository,
}

impl ApplicationService {
    /// Name of the collection that the service reads.
    pub closed spec fn collection(&self) -> Seq<char> {
        self.application_repository.collection()
    }

    /// A service over the given repository.
    pub fn new(application_repository: ApplicationRepository) -> (service: ApplicationService)
        ensures
            service.collection() == application_repository.collection(),
    {
        ApplicationService { application_repository }
    }

    /// Asks for the record with identity key `id`.
    pub fn get_by_id(&self, id: &str) -> (call: ServiceCall)
        ensures
            call@ == spec_get_by_id(self.collection(), id@),
    {
        let mut trace = String::from_str("Fetching application with ID: ");
        trace.append(id);
        ServiceCall { trace, read: self.application_repository.get_by_id(id) }
    }

    /// Asks for the first page of the listing.
    pub fn get_all_sorted_by_id(&self, limit: Option<i64>) -> (call: ServiceCall)
        ensures
            call@ == spec_get_all_sorted_by_id(self.collection(), limit),
    {
        let resolved = match limit {
            Some(n) => n,
            None => 0,
        };
        let mut trace = String::from_str("Fetching all applications sorted by ID with limit: ");
        push_decimal(&mut trace, resolved);
        ServiceCall { trace, read: self.application_repository.get_all_sorted_by_id(resolved) }
    }

    /// Asks for the page of the listing that follows the record `id`.
    pub fn get_all_with_id_greater_than(&self, id: &str, limit: Option<i64>) -> (call: ServiceCall)
        ensures
            call@ == spec_get_all_with_id_greater_than(self.collection(), id@, limit),
    {
        let resolved = match limit {
            Some(n) => n,
            None => 0,
        };
        let mut trace = String::from_str("Fetching all applications with ID greater than: ");
        trace.append(id);
        trace.append(" with limit: ");
        push_decimal(&mut trace, resolved);
        ServiceCall {
            trace,
            read: self.application_repository.get_all_with_id_greater_than(id, resolved),
        }
    }

    /// Asks for one page of the listing: the first where `page_key` is
    /// absent, else the one that follows the record `page_key`.
    pub fn list(&self, page_key: Option<&str>, limit: Option<i64>) -> (call: ServiceCall)
        ensures
            call@ == spec_list(self.collection(), page_key.deep_view(), limit),
    {
        match page_key {
            None => self.get_all_sorted_by_id(limit),
            Some(key) => self.get_all_with_id_greater_than(key, limit),
        }
    }
}

/// The services that the endpoints work with.
#[derive(Clone, Debug, PartialEq, Eq)]
pub struct Services {
    pub application_service: ApplicationService,
}

impl Services {
    /// The services, made of the given application service.
    pub fn new(application_service: ApplicationService) -> (services: Services)
        ensures
            services.application_service == application_service,
    {
        Services { application_service }
    }
}

} // verus!
