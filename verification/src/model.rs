//! The stored shape of the catalog: an application with its platforms, their
//! architectures and the releases of each architecture.
//!
//! Every record type has a mathematical model, reached with `@`, in which text
//! is a `Seq<char>` and a list is a `Seq` of models. Contracts speak of the
//! models only.

use vstd::prelude::*;

verus! {

/// How large a step a release is.
#[derive(Clone, Copy, Debug, PartialEq, Eq)]
pub enum ReleaseType {
    Major,
    Minor,
    Patch,
    PreRelease,
    Other,
}

impl DeepView for ReleaseType {
    type V = ReleaseType;

    open spec fn deep_view(&self) -> ReleaseType {
        *self
    }
}

/// One downloadable release of an application for one architecture.
#[derive(Clone, Debug, PartialEq, Eq)]
pub struct Release {
    pub name: Option<String>,
    pub description: Option<String>,
    pub portable: Option<bool>,
    pub release_date: Option<String>,
    pub release_type: Option<ReleaseType>,
    pub semver: String,
    pub download_url: String,
    pub info_url: Option<String>,
    pub checksum: Option<String>,
}

/// Model of a [`Release`].
pub struct ReleaseView {
    pub name: Option<Seq<char>>,
    pub description: Option<Seq<char>>,
    pub portable: Option<bool>,
    pub release_date: Option<Seq<char>>,
    pub release_type: Option<ReleaseType>,
    pub semver: Seq<char>,
    pub download_url: Seq<char>,
    pub info_url: Option<Seq<char>>,
    pub checksum: Option<Seq<char>>,
}

impl DeepView for Release {
    type V = ReleaseView;

    open spec fn deep_view(&self) -> ReleaseView {
        ReleaseView {
            name: self.name.deep_view(),
            description: self.description.deep_view(),
            portable: self.portable,
            release_date: self.release_date.deep_view(),
            release_type: self.release_type,
            semver: self.semver@,
            download_url: self.download_url@,
            info_url: self.info_url.deep_view(),
            checksum: self.checksum.deep_view(),
        }
    }
}

impl View for Release {
    type V = ReleaseView;

    open spec fn view(&self) -> ReleaseView {
        self.deep_view()
    }
}

/// A processor architecture that an application is built for, with the
/// releases for it in the order in which they are stored.
#[derive(Clone, Debug, PartialEq, Eq)]
pub struct Architecture {
    pub name: String,
    pub url: String,
    pub releases: Option<Vec<Release>>,
}

/// Model of an [`Architecture`].
pub struct ArchitectureView {
    pub name: Seq<char>,
    pub url: Seq<char>,
    pub releases: Option<Seq<ReleaseView>>,
}

impl DeepView for Architecture {
    type V = ArchitectureView;

    open spec fn deep_view(&self) -> ArchitectureView {
        ArchitectureView {
            name: self.name@,
            url: self.url@,
            releases: self.releases.deep_view(),
        }
    }
}

impl View for Architecture {
    type V = ArchitectureView;

    open spec fn view(&self) -> ArchitectureView {
        self.deep_view()
    }
}

/// A platform that an application runs on, with its architectures in stored
/// order.
#[derive(Clone, Debug, PartialEq, Eq)]
pub struct ApplicationPlatform {
    pub platform_name: String,
    pub architectures: Option<Vec<Architecture>>,
}

/// Model of an [`ApplicationPlatform`].
pub struct ApplicationPlatformView {
    pub platform_name: Seq<char>,
    pub architectures: Option<Seq<ArchitectureView>>,
}

impl DeepView for ApplicationPlatform {
    type V = ApplicationPlatformView;

    open spec fn deep_view(&self) -> ApplicationPlatformView {
        ApplicationPlatformView {
            platform_name: self.platform_name@,
            architectures: self.architectures.deep_view(),
        }
    }
}

impl View for ApplicationPlatform {
    type V = ApplicationPlatformView;

    open spec fn view(&self) -> ApplicationPlatformView {
        self.deep_view()
    }
}

/// A catalog record. `id` is the identity key: unique, never changed, and the
/// cursor that pages are cut at. The two timestamps are kept by the store and
/// are not part of the public shape.
#[derive(Clone, Debug, PartialEq, Eq)]
pub struct Application {
    pub id: String,
    pub created_at: String,
    pub updated_at: String,
    pub name: String,
    pub description: Option<String>,
    pub platforms: Option<Vec<ApplicationPlatform>>,
}

/// Model of an [`Application`].
pub struct ApplicationView {
    pub id: Seq<char>,
    pub created_at: Seq<char>,
    pub updated_at: Seq<char>,
    pub name: Seq<char>,
    pub description: Option<Seq<char>>,
    pub platforms: Option<Seq<ApplicationPlatformView>>,
}

impl DeepView for Application {
    type V = ApplicationView;

    open spec fn deep_view(&self) -> ApplicationView {
        ApplicationView {
            id: self.id@,
            created_at: self.created_at@,
            updated_at: self.updated_at@,
            name: self.name@,
            description: self.description.deep_view(),
            platforms: self.platforms.deep_view(),
        }
    }
}

impl View for Application {
    type V = ApplicationView;

    open spec fn view(&self) -> ApplicationView {
        self.deep_view()
    }
}

/// The order of identity keys: `a` comes before `b` when, at the first place
/// where they differ, `a` has the smaller character, or when `a` ends there
/// and `b` goes on. Characters compare by code point.
pub open spec fn key_lt(a: Seq<char>, b: Seq<char>) -> bool
    decreases a.len(),
{
    if b.len() == 0 {
        false
    } else if a.len() == 0 {
        true
    } else if a[0] != b[0] {
        (a[0] as int) < (b[0] as int)
    } else {
        key_lt(a.drop_first(), b.drop_first())
    }
}

/// Whether keys stand in strictly ascending order.
pub open spec fn ascending(keys: Seq<Seq<char>>) -> bool {
    forall|i: int, j: int| 0 <= i < j < keys.len() ==> key_lt(keys[i], keys[j])
}

/// The identity keys of a page, in the order of the page.
pub open spec fn page_keys(page: Seq<ApplicationView>) -> Seq<Seq<char>> {
    page.map_values(|a: ApplicationView| a.id)
}

/// No key comes before itself.
pub proof fn lemma_key_order_irreflexive(a: Seq<char>)
    ensures
        !key_lt(a, a),
    decreases a.len(),
{
    if a.len() > 0 {
        lemma_key_order_irreflexive(a.drop_first());
    }
}

/// Of two different keys, one comes before the other.
pub proof fn lemma_key_order_total(a: Seq<char>, b: Seq<char>)
    ensures
        a == b || key_lt(a, b) || key_lt(b, a),
    decreases a.len(),
{
    if a.len() > 0 && b.len() > 0 && a[0] == b[0] {
        lemma_key_order_total(a.drop_first(), b.drop_first());
        if a.drop_first() == b.drop_first() {
            assert(b =~= seq![b[0]] + b.drop_first());
        }
    }
}

/// A key before a second, which is before a third, is before the third.
pub proof fn lemma_key_order_transitive(a: Seq<char>, b: Seq<char>, c: Seq<char>)
    requires
        key_lt(a, b),
        key_lt(b, c),
    ensures
        key_lt(a, c),
    decreases a.len(),
{
    if a.len() > 0 && a[0] == b[0] && b[0] == c[0] {
        lemma_key_order_transitive(a.drop_first(), b.drop_first(), c.drop_first());
    }
}

/// Keys in ascending order are pairwise different, and the last is the
/// greatest.
pub proof fn lemma_ascending_keys_distinct(keys: Seq<Seq<char>>)
    requires
        ascending(keys),
    ensures
        forall|i: int, j: int| 0 <= i < j < keys.len() ==> keys[i] != keys[j],
        forall|i: int| 0 <= i < keys.len() - 1 ==> key_lt(#[trigger] keys[i], keys.last()),
{
    assert forall|i: int, j: int| 0 <= i < j < keys.len() implies keys[i] != keys[j] by {
        lemma_key_order_irreflexive(keys[i]);
    }
}

} // verus!
