//! The reads that the catalog makes of its document store.
//!
//! The store itself is outside this library. A read is described here as a
//! value; whoever holds the connection performs it and hands the answer back.

use vstd::prelude::*;
use crate::model::{
    ascending, key_lt, lemma_ascending_keys_distinct, lemma_key_order_irreflexive,
    lemma_key_order_transitive, page_keys, ApplicationView,
};

verus! {

/// One read of the store. Every read names the collection it goes to.
///
/// A page read asks for records in ascending order of identity key: at most
/// `limit` of them, or all of them where `limit` is `None`.
#[derive(Clone, Debug, PartialEq, Eq)]
pub enum StoreRead {
    /// The record whose identity key is exactly `key`, if there is one.
    ByKey { collection: String, key: String },
    /// The records with the lowest identity keys.
    PageFromStart { collection: String, limit: Option<i64> },
    /// The records with the lowest identity keys strictly above `key`.
    PageAfter { collection: String, key: String, limit: Option<i64> },
}

/// Model of a [`StoreRead`].
pub enum StoreReadView {
    ByKey { collection: Seq<char>, key: Seq<char> },
    PageFromStart { collection: Seq<char>, limit: Option<int> },
    PageAfter { collection: Seq<char>, key: Seq<char>, limit: Option<int> },
}

/// The bound that a page size sets on a read: the size itself where it is
/// positive, none otherwise.
pub open spec fn spec_bound(limit: int) -> Option<int> {
    if limit > 0 {
        Some(limit)
    } else {
        None
    }
}

/// The model of a bound.
pub open spec fn bound_view(limit: Option<i64>) -> Option<int> {
    match limit {
        Some(n) => Some(n as int),
        None => None,
    }
}

impl View for StoreRead {
    type V = StoreReadView;

    open spec fn view(&self) -> StoreReadView {
        match self {
            StoreRead::ByKey { collection, key } => StoreReadView::ByKey {
                collection: collection@,
                key: key@,
            },
            StoreRead::PageFromStart { collection, limit } => StoreReadView::PageFromStart {
                collection: collection@,
                limit: bound_view(*limit),
            },
            StoreRead::PageAfter { collection, key, limit } => StoreReadView::PageAfter {
                collection: collection@,
                key: key@,
                limit: bound_view(*limit),
            },
        }
    }
}

/// Phrases the catalog's reads for one collection of the store.
#[derive(Clone, Debug, PartialEq, Eq)]
pub struct ApplicationRepository {
    collection: String,
}

impl ApplicationRepository {
    /// Name of the collection that the reads go to.
    pub closed spec fn collection(&self) -> Seq<char> {
        self.collection@
    }

    /// A repository over the collection of the given name.
    pub fn new(collection: String) -> (repository: ApplicationRepository)
        ensures
            repository.collection() == collection@,
    {
        ApplicationRepository { collection }
    }

    /// The read of the single record with identity key `id`.
    pub fn get_by_id(&self, id: &str) -> (read: StoreRead)
        ensures
            read@ == (StoreReadView::ByKey { collection: self.collection(), key: id@ }),
    {
        StoreRead::ByKey { collection: self.collection.clone(), key: id.to_owned() }
    }

    /// The read of the first page: up to `limit` records from the lowest
    /// identity key on. A `limit` that is not positive sets no bound.
    pub fn get_all_sorted_by_id(&self, limit: i64) -> (read: StoreRead)
        ensures
            read@ == (StoreReadView::PageFromStart {
                collection: self.collection(),
                limit: spec_bound(limit as int),
            }),
    {
        StoreRead::PageFromStart { collection: self.collection.clone(), limit: bound(limit) }
    }

    /// The read of the page after `id`: up to `limit` records whose identity
    /// key is strictly greater than `id`. A `limit` that is not positive sets
    /// no bound.
    pub fn get_all_with_id_greater_than(&self, id: &str, limit: i64) -> (read: StoreRead)
        ensures
            read@ == (StoreReadView::PageAfter {
                collection: self.collection(),
                key: id@,
                limit: spec_bound(limit as int),
            }),
    {
        StoreRead::PageAfter {
            collection: self.collection.clone(),
            key: id.to_owned(),
            limit: bound(limit),
        }
    }
}

fn bound(limit: i64) -> (bound: Option<i64>)
    ensures
        bound_view(bound) == spec_bound(limit as int),
{
    if limit > 0 {
        Some(limit)
    } else {
        None
    }
}

/// Whether `records` can be the content of a collection, written down in
/// ascending order of identity key. No two records of it share a key.
pub open spec fn is_catalog(records: Seq<ApplicationView>) -> bool {
    ascending(page_keys(records))
}

/// The records of a catalog whose identity key is strictly above `key`.
pub open spec fn records_after(catalog: Seq<ApplicationView>, key: Seq<char>) -> Seq<
    ApplicationView,
> {
    catalog.filter(|a: ApplicationView| key_lt(key, a.id))
}

/// The first `limit` of `records`; all of them where there are no more, or
/// where there is no bound.
pub open spec fn bounded(records: Seq<ApplicationView>, limit: Option<int>) -> Seq<
    ApplicationView,
> {
    match limit {
        Some(n) => if 0 <= n < records.len() {
            records.take(n)
        } else {
            records
        },
        None => records,
    }
}

/// The bound of a page read; none for a read by key.
pub open spec fn page_limit(read: StoreReadView) -> Option<int> {
    match read {
        StoreReadView::ByKey { .. } => None,
        StoreReadView::PageFromStart { limit, .. } => limit,
        StoreReadView::PageAfter { limit, .. } => limit,
    }
}

/// What a store whose collection holds `catalog` owes for a read. The laws
/// of paging are stated for a store that answers so; nothing in this library
/// claims that a given store does.
pub open spec fn spec_answer(read: StoreReadView, catalog: Seq<ApplicationView>) -> Seq<
    ApplicationView,
> {
    match read {
        StoreReadView::ByKey { key, .. } => catalog.filter(|a: ApplicationView| a.id == key),
        StoreReadView::PageFromStart { limit, .. } => bounded(catalog, limit),
        StoreReadView::PageAfter { key, limit, .. } => bounded(records_after(catalog, key), limit),
    }
}

/// Where a key splits a list of records in two, the records up to `cut` not
/// above the key and the others above it, the records after the key are
/// those from `cut` on.
pub proof fn lemma_records_after_split(catalog: Seq<ApplicationView>, key: Seq<char>, cut: int)
    requires
        0 <= cut <= catalog.len(),
        forall|j: int| 0 <= j < cut ==> !key_lt(key, #[trigger] catalog[j].id),
        forall|j: int| cut <= j < catalog.len() ==> key_lt(key, #[trigger] catalog[j].id),
    ensures
        records_after(catalog, key) == catalog.skip(cut),
    decreases catalog.len(),
{
    reveal(Seq::filter);
    if catalog.len() > 0 {
        let cut_of_front = if cut == catalog.len() {
            cut - 1
        } else {
            cut
        };
        lemma_records_after_split(catalog.drop_last(), key, cut_of_front);
    }
}

/// A catalog without its last record is a catalog.
pub proof fn lemma_catalog_front(catalog: Seq<ApplicationView>)
    requires
        is_catalog(catalog),
        catalog.len() > 0,
    ensures
        is_catalog(catalog.drop_last()),
{
    let keys = page_keys(catalog);
    let front = page_keys(catalog.drop_last());
    assert forall|i: int, j: int| 0 <= i < j < front.len() implies key_lt(front[i], front[j]) by {
        assert(key_lt(keys[i], keys[j]));
    }
}

/// In a catalog, the records after the key of a record are the records that
/// stand behind it.
pub proof fn lemma_records_after_record(catalog: Seq<ApplicationView>, i: int)
    requires
        is_catalog(catalog),
        0 <= i < catalog.len(),
    ensures
        records_after(catalog, catalog[i].id) == catalog.skip(i + 1),
{
    let key = catalog[i].id;
    let keys = page_keys(catalog);
    assert forall|j: int| 0 <= j < i + 1 implies !key_lt(key, #[trigger] catalog[j].id) by {
        if j == i {
            lemma_key_order_irreflexive(key);
        } else {
            assert(key_lt(keys[j], keys[i]));
            if key_lt(key, catalog[j].id) {
                lemma_key_order_transitive(key, catalog[j].id, key);
                lemma_key_order_irreflexive(key);
            }
        }
    }
    assert forall|j: int| i + 1 <= j < catalog.len() implies key_lt(
        key,
        #[trigger] catalog[j].id,
    ) by {
        assert(key_lt(keys[i], keys[j]));
    }
    lemma_records_after_split(catalog, key, i + 1);
}

/// What a store owes for a first page of size `n`: the `n` records with the
/// lowest keys, or all where there are fewer; so at most `n` records, in
/// ascending order of identity key.
pub proof fn lemma_first_page_answer(catalog: Seq<ApplicationView>, collection: Seq<char>, n: int)
    requires
        is_catalog(catalog),
        n > 0,
    ensures
        ({
            let page = spec_answer(
                StoreReadView::PageFromStart { collection, limit: Some(n) },
                catalog,
            );
            &&& page.len() <= n
            &&& page.len() == if n < catalog.len() {
                n
            } else {
                catalog.len() as int
            }
            &&& page == catalog.take(page.len() as int)
            &&& ascending(page_keys(page))
        }),
{
    let page = spec_answer(StoreReadView::PageFromStart { collection, limit: Some(n) }, catalog);
    let keys = page_keys(catalog);
    assert forall|i: int, j: int| 0 <= i < j < page.len() implies key_lt(
        page_keys(page)[i],
        page_keys(page)[j],
    ) by {
        assert(key_lt(keys[i], keys[j]));
    }
}

/// In a catalog, the records after a key are a tail of the catalog: what
/// stands behind some place `cut`.
pub proof fn lemma_records_after_is_tail(catalog: Seq<ApplicationView>, key: Seq<char>) -> (cut:
    int)
    requires
        is_catalog(catalog),
    ensures
        0 <= cut <= catalog.len(),
        records_after(catalog, key) == catalog.skip(cut),
    decreases catalog.len(),
{
    let keys = page_keys(catalog);
    if catalog.len() == 0 {
        lemma_records_after_split(catalog, key, 0);
        0
    } else if key_lt(key, catalog.last().id) {
        lemma_catalog_front(catalog);
        reveal(Seq::filter);
        lemma_records_after_is_tail(catalog.drop_last(), key)
    } else {
        assert forall|j: int| 0 <= j < catalog.len() implies !key_lt(
            key,
            #[trigger] catalog[j].id,
        ) by {
            if j < catalog.len() - 1 && key_lt(key, catalog[j].id) {
                assert(key_lt(keys[j], keys[catalog.len() - 1]));
                lemma_key_order_transitive(key, catalog[j].id, catalog.last().id);
            }
        }
        lemma_records_after_split(catalog, key, catalog.len() as int);
        catalog.len() as int
    }
}

/// What a store owes for a read by a key that no record has: nothing.
pub proof fn lemma_by_key_absent(
    records: Seq<ApplicationView>,
    collection: Seq<char>,
    key: Seq<char>,
)
    requires
        forall|j: int| 0 <= j < records.len() ==> (#[trigger] records[j]).id != key,
    ensures
        spec_answer(StoreReadView::ByKey { collection, key }, records).len() == 0,
    decreases records.len(),
{
    reveal(Seq::filter);
    if records.len() > 0 {
        lemma_by_key_absent(records.drop_last(), collection, key);
    }
}

/// What a store owes for a read by the key of a record of its catalog: that
/// record and no other.
pub proof fn lemma_by_key_present(catalog: Seq<ApplicationView>, collection: Seq<char>, i: int)
    requires
        is_catalog(catalog),
        0 <= i < catalog.len(),
    ensures
        spec_answer(StoreReadView::ByKey { collection, key: catalog[i].id }, catalog)
            == seq![catalog[i]],
    decreases catalog.len(),
{
    reveal(Seq::filter);
    let key = catalog[i].id;
    let keys = page_keys(catalog);
    let front = catalog.drop_last();
    lemma_ascending_keys_distinct(keys);
    if i == catalog.len() - 1 {
        assert forall|j: int| 0 <= j < front.len() implies (#[trigger] front[j]).id != key by {
            assert(keys[j] != keys[i]);
        }
        lemma_by_key_absent(front, collection, key);
    } else {
        assert(keys[i] != keys[catalog.len() - 1]);
        lemma_catalog_front(catalog);
        lemma_by_key_present(front, collection, i);
    }
}

} // verus!
