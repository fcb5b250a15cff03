//! The public shape of the catalog and the projection of stored records into
//! it.
//!
//! The projection keeps every public field as it is, keeps lists in their
//! stored order, keeps an absent list absent, and leaves out the two
//! timestamps that only the store uses.

use vstd::prelude::*;
use vstd::std_specs::convert::FromSpecImpl;
use crate::model::{
    page_keys, Application, ApplicationPlatform, ApplicationPlatformView, ApplicationView,
    Architecture, ArchitectureView, Release, ReleaseType, ReleaseView,
};

verus! {

/// Public counterpart of [`ReleaseType`], variant for variant.
#[derive(Clone, Copy, Debug, PartialEq, Eq)]
pub enum ReleaseTypeDto {
    Major,
    Minor,
    Patch,
    PreRelease,
    Other,
}

impl DeepView for ReleaseTypeDto {
    type V = ReleaseTypeDto;

    open spec fn deep_view(&self) -> ReleaseTypeDto {
        *self
    }
}

/// Public shape of a [`Release`].
#[derive(Clone, Debug, PartialEq, Eq)]
pub struct ReleaseDto {
    pub name: Option<String>,
    pub description: Option<String>,
    pub portable: Option<bool>,
    pub release_date: Option<String>,
    pub release_type: Option<ReleaseTypeDto>,
    pub semver: String,
    pub download_url: String,
    pub info_url: Option<String>,
    pub checksum: Option<String>,
}

/// Model of a [`ReleaseDto`].
pub struct ReleaseDtoView {
    pub name: Option<Seq<char>>,
    pub description: Option<Seq<char>>,
    pub portable: Option<bool>,
    pub release_date: Option<Seq<char>>,
    pub release_type: Option<ReleaseTypeDto>,
    pub semver: Seq<char>,
    pub download_url: Seq<char>,
    pub info_url: Option<Seq<char>>,
    pub checksum: Option<Seq<char>>,
}

impl DeepView for ReleaseDto {
    type V = ReleaseDtoView;

    open spec fn deep_view(&self) -> ReleaseDtoView {
        ReleaseDtoView {
            name: self.name.deep_view(),
            description: self.description.deep_view(),
            portable: self.portable,
            release_date: self.release_date.deep_view(),
            release_type: self.release_type,
            semver: self.semver@,
            download_url: self.download_url@,
            info_url: self.info_url.deep_view(),
            checksum: self.checksum.deep_view(),
        }
    }
}

impl View for ReleaseDto {
    type V = ReleaseDtoView;

    open spec fn view(&self) -> ReleaseDtoView {
        self.deep_view()
    }
}

/// Public shape of an [`Architecture`].
#[derive(Clone, Debug, PartialEq, Eq)]
pub struct ArchitectureDto {
    pub name: String,
    pub url: String,
    pub releases: Option<Vec<ReleaseDto>>,
}

/// Model of an [`ArchitectureDto`].
pub struct ArchitectureDtoView {
    pub name: Seq<char>,
    pub url: Seq<char>,
    pub releases: Option<Seq<ReleaseDtoView>>,
}

impl DeepView for ArchitectureDto {
    type V = ArchitectureDtoView;

    open spec fn deep_view(&self) -> ArchitectureDtoView {
        ArchitectureDtoView {
            name: self.name@,
            url: self.url@,
            releases: self.releases.deep_view(),
        }
    }
}

impl View for ArchitectureDto {
    type V = ArchitectureDtoView;

    open spec fn view(&self) -> ArchitectureDtoView {
        self.deep_view()
    }
}

/// Public shape of an [`ApplicationPlatform`].
#[derive(Clone, Debug, PartialEq, Eq)]
pub struct ApplicationPlatformDto {
    pub platform_name: String,
    pub architectures: Option<Vec<ArchitectureDto>>,
}

/// Model of an [`ApplicationPlatformDto`].
pub struct ApplicationPlatformDtoView {
    pub platform_name: Seq<char>,
    pub architectures: Option<Seq<ArchitectureDtoView>>,
}

impl DeepView for ApplicationPlatformDto {
    type V = ApplicationPlatformDtoView;

    open spec fn deep_view(&self) -> ApplicationPlatformDtoView {
        ApplicationPlatformDtoView {
            platform_name: self.platform_name@,
            architectures: self.architectures.deep_view(),
        }
    }
}

impl View for ApplicationPlatformDto {
    type V = ApplicationPlatformDtoView;

    open spec fn view(&self) -> ApplicationPlatformDtoView {
        self.deep_view()
    }
}

/// Public shape of an [`Application`]: the identity key under the name `id`,
/// and no timestamps.
#[derive(Clone, Debug, PartialEq, Eq)]
pub struct ApplicationDto {
    pub id: String,
    pub name: String,
    pub description: Option<String>,
    pub platforms: Option<Vec<ApplicationPlatformDto>>,
}

/// Model of an [`ApplicationDto`].
pub struct ApplicationDtoView {
    pub id: Seq<char>,
    pub name: Seq<char>,
    pub description: Option<Seq<char>>,
    pub platforms: Option<Seq<ApplicationPlatformDtoView>>,
}

impl DeepView for ApplicationDto {
    type V = ApplicationDtoView;

    open spec fn deep_view(&self) -> ApplicationDtoView {
        ApplicationDtoView {
            id: self.id@,
            name: self.name@,
            description: self.description.deep_view(),
            platforms: self.platforms.deep_view(),
        }
    }
}

impl View for ApplicationDto {
    type V = ApplicationDtoView;

    open spec fn view(&self) -> ApplicationDtoView {
        self.deep_view()
    }
}

/// The public variant of a release type: the one of the same name.
pub open spec fn project_release_type(t: ReleaseType) -> ReleaseTypeDto {
    match t {
        ReleaseType::Major => ReleaseTypeDto::Major,
        ReleaseType::Minor => ReleaseTypeDto::Minor,
        ReleaseType::Patch => ReleaseTypeDto::Patch,
        ReleaseType::PreRelease => ReleaseTypeDto::PreRelease,
        ReleaseType::Other => ReleaseTypeDto::Other,
    }
}

/// The public shape of a release: every field, unchanged.
pub open spec fn project_release(r: ReleaseView) -> ReleaseDtoView {
    ReleaseDtoView {
        name: r.name,
        description: r.description,
        portable: r.portable,
        release_date: r.release_date,
        release_type: match r.release_type {
            Some(t) => Some(project_release_type(t)),
            None => None,
        },
        semver: r.semver,
        download_url: r.download_url,
        info_url: r.info_url,
        checksum: r.checksum,
    }
}

/// The public shape of an architecture: its releases one by one, in order.
pub open spec fn project_architecture(a: ArchitectureView) -> ArchitectureDtoView {
    ArchitectureDtoView {
        name: a.name,
        url: a.url,
        releases: match a.releases {
            Some(rs) => Some(rs.map_values(|r: ReleaseView| project_release(r))),
            None => None,
        },
    }
}

/// The public shape of a platform: its architectures one by one, in order.
pub open spec fn project_platform(p: ApplicationPlatformView) -> ApplicationPlatformDtoView {
    ApplicationPlatformDtoView {
        platform_name: p.platform_name,
        architectures: match p.architectures {
            Some(archs) => Some(archs.map_values(|a: ArchitectureView| project_architecture(a))),
            None => None,
        },
    }
}

/// The public shape of an application: the identity key as `id`, the
/// platforms one by one, in order, and neither timestamp.
pub open spec fn project_application(a: ApplicationView) -> ApplicationDtoView {
    ApplicationDtoView {
        id: a.id,
        name: a.name,
        description: a.description,
        platforms: match a.platforms {
            Some(ps) => Some(ps.map_values(|p: ApplicationPlatformView| project_platform(p))),
            None => None,
        },
    }
}

impl FromSpecImpl<ReleaseType> for ReleaseTypeDto {
    open spec fn obeys_from_spec() -> bool {
        true
    }

    open spec fn from_spec(release_type: ReleaseType) -> ReleaseTypeDto {
        project_release_type(release_type)
    }
}

impl From<ReleaseType> for ReleaseTypeDto {
    fn from(release_type: ReleaseType) -> (dto: ReleaseTypeDto)
        ensures
            dto == project_release_type(release_type),
    {
        match release_type {
            ReleaseType::Major => ReleaseTypeDto::Major,
            ReleaseType::Minor => ReleaseTypeDto::Minor,
            ReleaseType::Patch => ReleaseTypeDto::Patch,
            ReleaseType::PreRelease => ReleaseTypeDto::PreRelease,
            ReleaseType::Other => ReleaseTypeDto::Other,
        }
    }
}

impl FromSpecImpl<Release> for ReleaseDto {
    open spec fn obeys_from_spec() -> bool {
        true
    }

    open spec fn from_spec(release: Release) -> ReleaseDto {
        ReleaseDto {
            name: release.name,
            description: release.description,
            portable: release.portable,
            release_date: release.release_date,
            release_type: match release.release_type {
                Some(t) => Some(project_release_type(t)),
                None => None,
            },
            semver: release.semver,
            download_url: release.download_url,
            info_url: release.info_url,
            checksum: release.checksum,
        }
    }
}

impl From<Release> for ReleaseDto {
    fn from(release: Release) -> (dto: ReleaseDto)
        ensures
            dto@ == project_release(release@),
    {
        let release_type = match release.release_type {
            Some(t) => Some(ReleaseTypeDto::from(t)),
            None => None,
        };
        ReleaseDto {
            name: release.name,
            description: release.description,
            portable: release.portable,
            release_date: release.release_date,
            release_type,
            semver: release.semver,
            download_url: release.download_url,
            info_url: release.info_url,
            checksum: release.checksum,
        }
    }
}

/// The conversion is stated on models, in the `ensures` of `from`: a
/// specification cannot build the `Vec` that `from_spec` would have to return.
impl FromSpecImpl<Architecture> for ArchitectureDto {
    open spec fn obeys_from_spec() -> bool {
        false
    }

    open spec fn from_spec(architecture: Architecture) -> ArchitectureDto {
        arbitrary()
    }
}

impl From<Architecture> for ArchitectureDto {
    fn from(architecture: Architecture) -> (dto: ArchitectureDto)
        ensures
            dto@ == project_architecture(architecture@),
    {
        let releases = match architecture.releases {
            Some(stored) => {
                let ghost src = stored@;
                let mut out: Vec<ReleaseDto> = Vec::new();
                for release in it: stored
                    invariant
                        it.seq() == src,
                        out@.len() == it.index(),
                        forall|j: int|
                            0 <= j < out@.len() ==> (#[trigger] out@[j])@ == project_release(
                                src[j]@,
                            ),
                {
                    out.push(ReleaseDto::from(release));
                }
                assert(out.deep_view() =~= stored.deep_view().map_values(
                    |r: ReleaseView| project_release(r),
                ));
                Some(out)
            },
            None => None,
        };
        ArchitectureDto { name: architecture.name, url: architecture.url, releases }
    }
}

/// The conversion is stated on models, in the `ensures` of `from`.
impl FromSpecImpl<ApplicationPlatform> for ApplicationPlatformDto {
    open spec fn obeys_from_spec() -> bool {
        false
    }

    open spec fn from_spec(platform: ApplicationPlatform) -> ApplicationPlatformDto {
        arbitrary()
    }
}

impl From<ApplicationPlatform> for ApplicationPlatformDto {
    fn from(platform: ApplicationPlatform) -> (dto: ApplicationPlatformDto)
        ensures
            dto@ == project_platform(platform@),
    {
        let architectures = match platform.architectures {
            Some(stored) => {
                let ghost src = stored@;
                let mut out: Vec<ArchitectureDto> = Vec::new();
                for architecture in it: stored
                    invariant
                        it.seq() == src,
                        out@.len() == it.index(),
                        forall|j: int|
                            0 <= j < out@.len() ==> (#[trigger] out@[j])@ == project_architecture(
                                src[j]@,
                            ),
                {
                    out.push(ArchitectureDto::from(architecture));
                }
                assert(out.deep_view() =~= stored.deep_view().map_values(
                    |a: ArchitectureView| project_architecture(a),
                ));
                Some(out)
            },
            None => None,
        };
        ApplicationPlatformDto { platform_name: platform.platform_name, architectures }
    }
}

/// The conversion is stated on models, in the `ensures` of `from`.
impl FromSpecImpl<Application> for ApplicationDto {
    open spec fn obeys_from_spec() -> bool {
        false
    }

    open spec fn from_spec(application: Application) -> ApplicationDto {
        arbitrary()
    }
}

impl From<Application> for ApplicationDto {
    fn from(application: Application) -> (dto: ApplicationDto)
        ensures
            dto@ == project_application(application@),
    {
        let platforms = match application.platforms {
            Some(stored) => {
                let ghost src = stored@;
                let mut out: Vec<ApplicationPlatformDto> = Vec::new();
                for platform in it: stored
                    invariant
                        it.seq() == src,
                        out@.len() == it.index(),
                        forall|j: int|
                            0 <= j < out@.len() ==> (#[trigger] out@[j])@ == project_platform(
                                src[j]@,
                            ),
                {
                    out.push(ApplicationPlatformDto::from(platform));
                }
                assert(out.deep_view() =~= stored.deep_view().map_values(
                    |p: ApplicationPlatformView| project_platform(p),
                ));
                Some(out)
            },
            None => None,
        };
        ApplicationDto {
            id: application.id,
            name: application.name,
            description: application.description,
            platforms,
        }
    }
}

/// The identity keys of a projected page, in the order of the page.
pub open spec fn dto_keys(dtos: Seq<ApplicationDtoView>) -> Seq<Seq<char>> {
    dtos.map_values(|d: ApplicationDtoView| d.id)
}

/// The public shape of a page: its records one by one, in order.
pub open spec fn project_page(page: Seq<ApplicationView>) -> Seq<ApplicationDtoView> {
    page.map_values(|a: ApplicationView| project_application(a))
}

/// Projects every record of a page, keeping the order of the page.
pub fn to_dtos(page: Vec<Application>) -> (dtos: Vec<ApplicationDto>)
    ensures
        dtos.deep_view() == project_page(page.deep_view()),
{
    let ghost src = page@;
    let mut dtos: Vec<ApplicationDto> = Vec::new();
    for application in it: page
        invariant
            it.seq() == src,
            dtos@.len() == it.index(),
            forall|j: int|
                0 <= j < dtos@.len() ==> (#[trigger] dtos@[j])@ == project_application(src[j]@),
    {
        dtos.push(ApplicationDto::from(application));
    }
    dtos
}

/// The stored variant of a public release type: the one of the same name.
pub open spec fn restore_release_type(t: ReleaseTypeDto) -> ReleaseType {
    match t {
        ReleaseTypeDto::Major => ReleaseType::Major,
        ReleaseTypeDto::Minor => ReleaseType::Minor,
        ReleaseTypeDto::Patch => ReleaseType::Patch,
        ReleaseTypeDto::PreRelease => ReleaseType::PreRelease,
        ReleaseTypeDto::Other => ReleaseType::Other,
    }
}

/// The release that a public release was projected from.
pub open spec fn restore_release(r: ReleaseDtoView) -> ReleaseView {
    ReleaseView {
        name: r.name,
        description: r.description,
        portable: r.portable,
        release_date: r.release_date,
        release_type: match r.release_type {
            Some(t) => Some(restore_release_type(t)),
            None => None,
        },
        semver: r.semver,
        download_url: r.download_url,
        info_url: r.info_url,
        checksum: r.checksum,
    }
}

/// The architecture that a public architecture was projected from.
pub open spec fn restore_architecture(a: ArchitectureDtoView) -> ArchitectureView {
    ArchitectureView {
        name: a.name,
        url: a.url,
        releases: match a.releases {
            Some(rs) => Some(rs.map_values(|r: ReleaseDtoView| restore_release(r))),
            None => None,
        },
    }
}

/// The platform that a public platform was projected from.
pub open spec fn restore_platform(p: ApplicationPlatformDtoView) -> ApplicationPlatformView {
    ApplicationPlatformView {
        platform_name: p.platform_name,
        architectures: match p.architectures {
            Some(archs) => Some(
                archs.map_values(|a: ArchitectureDtoView| restore_architecture(a)),
            ),
            None => None,
        },
    }
}

/// The application that a public application was projected from, given the
/// two timestamps that the projection left out.
pub open spec fn restore_application(
    a: ApplicationDtoView,
    created_at: Seq<char>,
    updated_at: Seq<char>,
) -> ApplicationView {
    ApplicationView {
        id: a.id,
        created_at,
        updated_at,
        name: a.name,
        description: a.description,
        platforms: match a.platforms {
            Some(ps) => Some(ps.map_values(|p: ApplicationPlatformDtoView| restore_platform(p))),
            None => None,
        },
    }
}

/// The variants of the stored and of the public release type answer each
/// other one to one: each has a counterpart of its own, and no variant is
/// left over on either side.
pub proof fn lemma_release_type_round_trip(stored: ReleaseType, public: ReleaseTypeDto)
    ensures
        restore_release_type(project_release_type(stored)) == stored,
        project_release_type(restore_release_type(public)) == public,
{
}

/// A release can be read back from its public shape.
pub proof fn lemma_release_round_trip(r: ReleaseView)
    ensures
        restore_release(project_release(r)) == r,
{
}

/// An architecture can be read back from its public shape: the projection
/// keeps an absent list absent, and a present one present, as long as it was
/// and in its order.
pub proof fn lemma_architecture_round_trip(a: ArchitectureView)
    ensures
        restore_architecture(project_architecture(a)) == a,
        project_architecture(a).releases is Some <==> a.releases is Some,
        a.releases is Some ==> project_architecture(a).releases->0.len() == a.releases->0.len(),
{
    if let Some(rs) = a.releases {
        let projected = rs.map_values(|r: ReleaseView| project_release(r));
        assert forall|i: int| 0 <= i < rs.len() implies restore_release(
            #[trigger] projected[i],
        ) == rs[i] by {
            lemma_release_round_trip(rs[i]);
        }
        assert(projected.map_values(|r: ReleaseDtoView| restore_release(r)) =~= rs);
    }
}

/// A platform can be read back from its public shape.
pub proof fn lemma_platform_round_trip(p: ApplicationPlatformView)
    ensures
        restore_platform(project_platform(p)) == p,
        project_platform(p).architectures is Some <==> p.architectures is Some,
        p.architectures is Some ==> project_platform(p).architectures->0.len()
            == p.architectures->0.len(),
{
    if let Some(archs) = p.architectures {
        let projected = archs.map_values(|a: ArchitectureView| project_architecture(a));
        assert forall|i: int| 0 <= i < archs.len() implies restore_architecture(
            #[trigger] projected[i],
        ) == archs[i] by {
            lemma_architecture_round_trip(archs[i]);
        }
        assert(projected.map_values(|a: ArchitectureDtoView| restore_architecture(a)) =~= archs);
    }
}

/// The projection loses nothing but the timestamps: from the public shape of
/// an application and its two timestamps the application can be read back,
/// with every optional value and every nested list as it was.
pub proof fn lemma_projection_lossless(a: ApplicationView)
    ensures
        restore_application(project_application(a), a.created_at, a.updated_at) == a,
        project_application(a).description == a.description,
        project_application(a).platforms is Some <==> a.platforms is Some,
        a.platforms is Some ==> project_application(a).platforms->0.len() == a.platforms->0.len(),
{
    if let Some(ps) = a.platforms {
        let projected = ps.map_values(|p: ApplicationPlatformView| project_platform(p));
        assert forall|i: int| 0 <= i < ps.len() implies restore_platform(#[trigger] projected[i])
            == ps[i] by {
            lemma_platform_round_trip(ps[i]);
        }
        assert(projected.map_values(|p: ApplicationPlatformDtoView| restore_platform(p)) =~= ps);
    }
}

/// The projection reads neither timestamp: applications that differ in
/// their timestamps only have the same public shape.
pub proof fn lemma_projection_omits_timestamps(
    a: ApplicationView,
    created_at: Seq<char>,
    updated_at: Seq<char>,
)
    ensures
        project_application(ApplicationView { created_at, updated_at, ..a })
            == project_application(a),
{
}

/// A projected page holds the public shape of each record of the page, at
/// the record's place, under the record's identity key.
pub proof fn lemma_project_page_keeps_keys(page: Seq<ApplicationView>)
    ensures
        project_page(page).len() == page.len(),
        forall|i: int|
            0 <= i < page.len() ==> #[trigger] project_page(page)[i] == project_application(
                page[i],
            ),
        dto_keys(project_page(page)) == page_keys(page),
{
}

} // verus!
