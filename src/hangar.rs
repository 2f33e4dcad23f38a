//! The Hangar plugin service: paged version lists filtered by platform.

use vstd::prelude::*;
use crate::error::ResolveError;
use crate::hash::{HashFormat, Hashes};
use crate::model::{same_resolution, CacheStrategy, ResolvedFile};
use crate::paging::{next_page_step, page_step, PageStep};
use crate::servertype::ServerType;
use crate::text::{
    after_first, chars_after_first, chars_of, concat2, concat3, contains_char, contains_str,
    has_infix, lowercase_of, replace_all, replace_str, str_eq, string_from_chars, to_lowercase,
};
use crate::version::is_latest_sentinel;

verus! {

pub const HANGAR_API_V1: &'static str = "https://hangar.papermc.io/api/v1";

/// The server platforms that Hangar distinguishes.
#[derive(Debug, Clone, Copy, PartialEq, Eq, Structural, Hash)]
pub enum Platform {
    Paper,
    Waterfall,
    Velocity,
}

impl Platform {
    /// The platform a name stands for, ignoring case; anything unknown is Paper.
    pub fn from_name(value: &str) -> (r: Platform)
        ensures
            lowercase_of(value@) == "waterfall"@ ==> r == Platform::Waterfall,
            lowercase_of(value@) == "velocity"@ ==> r == Platform::Velocity,
            lowercase_of(value@) != "waterfall"@ && lowercase_of(value@) != "velocity"@ ==> r
                == Platform::Paper,
    {
        proof {
            reveal_strlit("waterfall");
            reveal_strlit("velocity");
            assert("waterfall"@.len() != "velocity"@.len());
        }
        let lower = to_lowercase(value);
        if str_eq(lower.as_str(), "waterfall") {
            Platform::Waterfall
        } else if str_eq(lower.as_str(), "velocity") {
            Platform::Velocity
        } else {
            Platform::Paper
        }
    }

    /// The platform's name as the API writes it.
    pub fn as_str(&self) -> (r: &'static str)
        ensures
            *self == Platform::Paper ==> r@ == "PAPER"@,
            *self == Platform::Waterfall ==> r@ == "WATERFALL"@,
            *self == Platform::Velocity ==> r@ == "VELOCITY"@,
    {
        match self {
            Platform::Paper => "PAPER",
            Platform::Waterfall => "WATERFALL",
            Platform::Velocity => "VELOCITY",
        }
    }
}

/// The owner and slug of a project.
#[derive(Debug)]
pub struct Namespace {
    pub owner: String,
    pub slug: String,
}

impl Namespace {
    /// "owner/slug".
    pub fn as_string(&self) -> (r: String)
        ensures
            r@ == self.owner@ + "/"@ + self.slug@,
    {
        concat3(self.owner.as_str(), "/", self.slug.as_str())
    }
}

/// Counters of a project.
#[derive(Debug)]
pub struct ProjectStats {
    pub views: u64,
    pub downloads: u64,
    pub recent_views: u64,
    pub recent_downloads: u64,
    pub stars: u64,
    pub watchers: u64,
}

/// The category of a project.
#[derive(Debug, Clone, Copy, PartialEq, Eq, Structural, Default)]
pub enum Category {
    AdminTools,
    Chat,
    DevTools,
    Economy,
    Gameplay,
    Games,
    Protection,
    RolePlaying,
    WorldManagement,
    Misc,
    #[default]
    Undefined,
}

/// Who can see a project or version.
#[derive(Debug, Clone, Copy, PartialEq, Eq, Structural, Default)]
pub enum Visibility {
    #[default]
    Public,
    New,
    NeedsChanges,
    NeedsApproval,
    SoftDelete,
}

/// A project.
#[derive(Debug)]
pub struct Project {
    pub created_at: String,
    pub name: String,
    pub namespace: Namespace,
    pub stats: ProjectStats,
    pub category: Category,
    pub last_updated: String,
    pub visibility: Visibility,
    pub avatar_url: String,
    pub description: String,
}

/// Where a page sits in a listing.
#[derive(Debug)]
pub struct Pagination {
    pub limit: u64,
    pub offset: u64,
    pub count: u64,
}

/// The review state of a version.
#[derive(Debug, Clone, Copy, PartialEq, Eq, Structural)]
pub enum ReviewState {
    Unreviewed,
    Reviewed,
    UnderReview,
    PartiallyReviewed,
}

/// Whether and how a version is pinned.
#[derive(Debug, Clone, Copy, PartialEq, Eq, Structural, Default)]
pub enum PinnedStatus {
    Version,
    Channel,
    #[default]
    Unpinned,
}

/// Flags of a release channel.
#[derive(Debug, Clone, Copy, PartialEq, Eq, Structural, Hash)]
pub enum ChannelFlag {
    Frozen,
    Unstable,
    Pinned,
    SendsNotifications,
}

/// The release channel of a version.
#[derive(Debug)]
pub struct ProjectChannel {
    pub created_at: String,
    pub name: String,
    pub description: Option<String>,
    pub color: String,
    pub flags: Vec<ChannelFlag>,
}

/// A plugin that a version needs or can use.
#[derive(Debug)]
pub struct PluginDependency {
    pub name: String,
    pub required: bool,
    pub external_url: Option<String>,
    pub platform: Platform,
}

/// The name, size and SHA-256 digest of a file.
#[derive(Debug)]
pub struct FileInfo {
    pub name: String,
    pub size_bytes: u64,
    pub sha256_hash: String,
}

/// The file of a version for one platform, hosted by Hangar or elsewhere.
#[derive(Debug)]
pub enum PlatformVersionDownload {
    Hangar { file_info: FileInfo, download_url: String },
    External { file_info: FileInfo, external_url: String },
}

pub open spec fn download_url_of(d: PlatformVersionDownload) -> Seq<char> {
    match d {
        PlatformVersionDownload::Hangar { download_url, .. } => download_url@,
        PlatformVersionDownload::External { external_url, .. } => external_url@,
    }
}

pub open spec fn file_info_of(d: PlatformVersionDownload) -> FileInfo {
    match d {
        PlatformVersionDownload::Hangar { file_info, .. } => file_info,
        PlatformVersionDownload::External { file_info, .. } => file_info,
    }
}

impl PlatformVersionDownload {
    /// Where the file is downloaded from.
    pub fn get_url(&self) -> (r: String)
        ensures
            r@ == download_url_of(*self),
    {
        match self {
            PlatformVersionDownload::Hangar { download_url, .. } => String::from_str(
                download_url.as_str(),
            ),
            PlatformVersionDownload::External { external_url, .. } => String::from_str(
                external_url.as_str(),
            ),
        }
    }

    /// The name, size and digest of the file.
    pub fn get_file_info(&self) -> (r: &FileInfo)
        ensures
            *r == file_info_of(*self),
    {
        match self {
            PlatformVersionDownload::Hangar { file_info, .. } => file_info,
            PlatformVersionDownload::External { file_info, .. } => file_info,
        }
    }
}

/// A version of a project.
#[derive(Debug)]
pub struct ProjectVersion {
    pub created_at: String,
    pub name: String,
    pub visibility: Visibility,
    pub description: String,
    pub author: String,
    pub review_state: ReviewState,
    pub pinned_status: PinnedStatus,
    pub downloads: Vec<(Platform, PlatformVersionDownload)>,
    pub plugin_dependencies: Vec<(Platform, Vec<PluginDependency>)>,
    pub platform_dependencies: Vec<(Platform, Vec<String>)>,
}

/// One page of a project's versions.
#[derive(Debug)]
pub struct ProjectVersionsResponse {
    pub pagination: Pagination,
    pub result: Vec<ProjectVersion>,
}

/// The query of a version listing.
#[derive(Debug)]
pub struct PlatformFilter {
    pub limit: u64,
    pub offset: u64,
    pub channel: Option<String>,
    pub platform: Option<Platform>,
}

/// The game versions that `v` declares for platform `p` (its first entry for `p`).
pub open spec fn deps_for(s: Seq<(Platform, Vec<String>)>, p: Platform) -> Option<Seq<String>>
    decreases s.len(),
{
    if s.len() == 0 {
        None
    } else if s[0].0 == p {
        Some(s[0].1@)
    } else {
        deps_for(s.skip(1), p)
    }
}

/// Whether version `v` fits: when both a platform and a game version are asked for,
/// the version must declare that game version for that platform.
pub open spec fn is_compatible(v: ProjectVersion, platform: Option<Platform>, game: Option<Seq<char>>) -> bool {
    match (platform, game) {
        (Some(p), Some(g)) => declares_game(v.platform_dependencies@, p, g),
        _ => true,
    }
}

/// `r` is the first compatible version of `vs`, or None when none is.
pub open spec fn first_compatible(vs: Seq<ProjectVersion>, platform: Option<Platform>, game: Option<Seq<char>>, r: Option<usize>) -> bool {
    match r {
        Some(i) => 0 <= i < vs.len() && is_compatible(vs[i as int], platform, game) && forall|j: int|
            0 <= j < i ==> !is_compatible(#[trigger] vs[j], platform, game),
        None => forall|j: int| 0 <= j < vs.len() ==> !is_compatible(#[trigger] vs[j], platform, game),
    }
}

/// Whether `v` is compatible and named exactly `name`.
pub open spec fn is_exact(v: ProjectVersion, platform: Option<Platform>, game: Option<Seq<char>>, name: Seq<char>) -> bool {
    is_compatible(v, platform, game) && v.name@ == name
}

/// `r` is the first compatible version of `vs` named exactly `name`, or None.
pub open spec fn first_exact(vs: Seq<ProjectVersion>, platform: Option<Platform>, game: Option<Seq<char>>, name: Seq<char>, r: Option<usize>) -> bool {
    match r {
        Some(i) => 0 <= i < vs.len() && is_exact(vs[i as int], platform, game, name) && forall|j: int|
            0 <= j < i ==> !is_exact(#[trigger] vs[j], platform, game, name),
        None => forall|j: int| 0 <= j < vs.len() ==> !is_exact(#[trigger] vs[j], platform, game, name),
    }
}

/// `r` is the first version of `vs` whose name contains `name`, or None.
pub open spec fn first_containing(vs: Seq<ProjectVersion>, name: Seq<char>, r: Option<usize>) -> bool {
    match r {
        Some(i) => 0 <= i < vs.len() && has_infix(vs[i as int].name@, name) && forall|j: int|
            0 <= j < i ==> !has_infix(#[trigger] vs[j].name@, name),
        None => forall|j: int| 0 <= j < vs.len() ==> !has_infix(#[trigger] vs[j].name@, name),
    }
}

pub open spec fn opt_view(o: Option<String>) -> Option<Seq<char>> {
    match o {
        Some(s) => Some(s@),
        None => None,
    }
}

/// Whether the dependency list declares game version `game` for platform `p`.
pub open spec fn declares_game(deps: Seq<(Platform, Vec<String>)>, p: Platform, game: Seq<char>) -> bool {
    match deps_for(deps, p) {
        Some(d) => exists|k: int| 0 <= k < d.len() && #[trigger] d[k]@ == game,
        None => false,
    }
}

fn declares(deps: &Vec<(Platform, Vec<String>)>, p: Platform, game: &str) -> (r: bool)
    ensures
        r == declares_game(deps@, p, game@),
{
    let mut i: usize = 0;
    proof {
        assert(deps@.skip(0) == deps@);
    }
    while i < deps.len()
        invariant
            0 <= i <= deps@.len(),
            deps_for(deps@, p) == deps_for(deps@.skip(i as int), p),
        decreases deps@.len() - i,
    {
        proof {
            assert(deps@.skip(i as int)[0] == deps@[i as int]);
            assert(deps@.skip(i as int).skip(1) == deps@.skip(i + 1));
        }
        if deps[i].0 == p {
            let list = &deps[i].1;
            proof {
                assert(deps_for(deps@, p) == Some(list@));
            }
            let mut k: usize = 0;
            while k < list.len()
                invariant
                    0 <= k <= list@.len(),
                    deps_for(deps@, p) == Some(list@),
                    forall|j: int| 0 <= j < k ==> #[trigger] list@[j]@ != game@,
                decreases list@.len() - k,
            {
                if str_eq(list[k].as_str(), game) {
                    let ghost d = deps_for(deps@, p)->Some_0;
                    assert(d == list@);
                    assert(d[k as int]@ == game@);
                    assert(declares_game(deps@, p, game@));
                    return true;
                }
                k += 1;
            }
            return false;
        }
        i += 1;
    }
    false
}

fn compatible(v: &ProjectVersion, platform: Option<Platform>, game: &Option<String>) -> (r: bool)
    ensures
        r == is_compatible(*v, platform, opt_view(*game)),
{
    match (platform, game) {
        (Some(p), Some(g)) => declares(&v.platform_dependencies, p, g.as_str()),
        _ => true,
    }
}

/// Picks the version of one page: with a plugin version, the first compatible
/// version of that exact name, or else the first version (compatible or not) whose
/// name contains it; without one, the first compatible version.
pub fn find_version(
    versions: &[ProjectVersion],
    platform: Option<Platform>,
    game: &Option<String>,
    plugin_version: &Option<String>,
) -> (r: Option<usize>)
    ensures
        plugin_version is None ==> first_compatible(versions@, platform, opt_view(*game), r),
        plugin_version matches Some(n) ==> ((exists|i: int|
            0 <= i < versions@.len() && is_exact(#[trigger] versions@[i], platform, opt_view(*game), n@))
            ==> first_exact(versions@, platform, opt_view(*game), n@, r)),
        plugin_version matches Some(n) ==> (!(exists|i: int|
            0 <= i < versions@.len() && is_exact(#[trigger] versions@[i], platform, opt_view(*game), n@))
            ==> first_containing(versions@, n@, r)),
{
    match plugin_version {
        None => {
            let mut i: usize = 0;
            while i < versions.len()
                invariant
                    0 <= i <= versions@.len(),
                    plugin_version is None,
                    forall|j: int| 0 <= j < i ==> !is_compatible(#[trigger] versions@[j], platform, opt_view(*game)),
                decreases versions@.len() - i,
            {
                if compatible(&versions[i], platform, game) {
                    assert(is_compatible(versions@[i as int], platform, opt_view(*game)));
                    assert(first_compatible(versions@, platform, opt_view(*game), Some(i)));
                    return Some(i);
                }
                i += 1;
            }
            None
        },
        Some(n) => {
            let mut i: usize = 0;
            while i < versions.len()
                invariant
                    0 <= i <= versions@.len(),
                    opt_view(*plugin_version) == Some(n@),
                    forall|j: int| 0 <= j < i ==> !is_exact(#[trigger] versions@[j], platform, opt_view(*game), n@),
                decreases versions@.len() - i,
            {
                if compatible(&versions[i], platform, game) && str_eq(versions[i].name.as_str(), n.as_str()) {
                    assert(is_exact(versions@[i as int], platform, opt_view(*game), n@));
                    assert(first_exact(versions@, platform, opt_view(*game), n@, Some(i)));
                    return Some(i);
                }
                i += 1;
            }
            let mut k: usize = 0;
            while k < versions.len()
                invariant
                    0 <= k <= versions@.len(),
                    opt_view(*plugin_version) == Some(n@),
                    forall|j: int| 0 <= j < versions@.len() ==> !is_exact(#[trigger] versions@[j], platform, opt_view(*game), n@),
                    forall|j: int| 0 <= j < k ==> !has_infix(#[trigger] versions@[j].name@, n@),
                decreases versions@.len() - k,
            {
                if contains_str(versions[k].name.as_str(), n.as_str()) {
                    assert(has_infix(versions@[k as int].name@, n@));
                    assert(first_containing(versions@, n@, Some(k)));
                    return Some(k);
                }
                k += 1;
            }
            None
        },
    }
}

/// How a version selector is looked up.
#[derive(Debug)]
pub enum VersionQuery {
    /// Walk the version pages for the first fitting version, named like this if given.
    Search(Option<String>),
    /// Ask for the version of this exact name.
    Direct(String),
}

/// The part of a project id after its first '/', or the whole id.
pub open spec fn project_slug(id: Seq<char>) -> Seq<char> {
    if id.contains('/') {
        after_first(id, '/')
    } else {
        id
    }
}

/// Whether entry `i` is the first download of `version` for platform `p`.
pub open spec fn first_download(version: ProjectVersion, p: Platform, i: int) -> bool {
    0 <= i < version.downloads@.len() && version.downloads@[i].0 == p && forall|j: int|
        0 <= j < i ==> #[trigger] version.downloads@[j].0 != p
}

/// The file resolved from download `i` of `version`.
pub open spec fn hangar_fields(id: Seq<char>, version: ProjectVersion, i: int, f: ResolvedFile) -> bool {
    let d = version.downloads@[i].1;
    let info = file_info_of(d);
    &&& f.url@ == download_url_of(d)
    &&& f.filename@ == info.name@
    &&& f.cache matches CacheStrategy::File { namespace, path } && namespace@ == "hangar"@ && path@
        == id + "/"@ + version.name@ + "/"@ + info.name@
    &&& f.size == Some(info.size_bytes)
    &&& f.hashes@ == Map::<HashFormat, Seq<char>>::empty().insert(HashFormat::Sha256, info.sha256_hash@)
}

/// What resolving a version for platform `p` gives: its first download for `p`,
/// cached under "hangar" as "{id}/{version}/{file name}", with size and SHA-256.
pub open spec fn hangar_resolved(p: Platform, id: Seq<char>, version: ProjectVersion, f: ResolvedFile) -> bool {
    exists|i: int| first_download(version, p, i) && hangar_fields(id, version, i, f)
}

/// Resolving the same version for the same platform twice gives the same file.
pub proof fn lemma_hangar_resolution_deterministic(
    p: Platform,
    id: Seq<char>,
    version: ProjectVersion,
    a: ResolvedFile,
    b: ResolvedFile,
)
    requires
        hangar_resolved(p, id, version, a),
        hangar_resolved(p, id, version, b),
    ensures
        same_resolution(a, b),
{
    let i = choose|i: int| first_download(version, p, i) && hangar_fields(id, version, i, a);
    let k = choose|k: int| first_download(version, p, k) && hangar_fields(id, version, k, b);
    assert(i == k);
}

/// The Hangar source for one server.
pub struct HangarAPI {
    pub mc_version: String,
    pub platform: Option<Platform>,
}

pub open spec fn platform_of(t: ServerType) -> Option<Platform> {
    match t {
        ServerType::Waterfall {} => Some(Platform::Waterfall),
        ServerType::Velocity {} => Some(Platform::Velocity),
        ServerType::PaperMC { project, .. } => if project@ == "waterfall"@ {
            Some(Platform::Waterfall)
        } else if project@ == "velocity"@ {
            Some(Platform::Velocity)
        } else if project@ == "paper"@ {
            Some(Platform::Paper)
        } else {
            None
        },
        ServerType::Paper {} | ServerType::Purpur { .. } => Some(Platform::Paper),
        _ => None,
    }
}

impl HangarAPI {
    /// The platform whose plugins a server runs.
    pub fn get_platform(server: &ServerType) -> (r: Option<Platform>)
        ensures
            r == platform_of(*server),
    {
        match server {
            ServerType::Waterfall {} => Some(Platform::Waterfall),
            ServerType::Velocity {} => Some(Platform::Velocity),
            ServerType::PaperMC { project, .. } => {
                if str_eq(project.as_str(), "waterfall") {
                    Some(Platform::Waterfall)
                } else if str_eq(project.as_str(), "velocity") {
                    Some(Platform::Velocity)
                } else if str_eq(project.as_str(), "paper") {
                    Some(Platform::Paper)
                } else {
                    None
                }
            },
            ServerType::Paper {} | ServerType::Purpur { .. } => Some(Platform::Paper),
            _ => None,
        }
    }

    /// The source for a server of type `server` at game version `mc_version`.
    pub fn new(server: &ServerType, mc_version: &str) -> (r: HangarAPI)
        ensures
            r.mc_version@ == mc_version@,
            r.platform == platform_of(*server),
    {
        HangarAPI { mc_version: String::from_str(mc_version), platform: Self::get_platform(server) }
    }

    /// The query of the first page: 25 versions from offset 0, for the platform.
    pub fn get_platform_filter(&self) -> (r: PlatformFilter)
        ensures
            r.limit == 25 && r.offset == 0 && r.channel is None && r.platform == self.platform,
    {
        PlatformFilter { limit: 25, offset: 0, channel: None, platform: self.platform }
    }

    /// The game version that fitting versions must declare: the server's, when a
    /// platform is known.
    pub fn platform_version(&self) -> (r: Option<String>)
        ensures
            self.platform is None ==> r is None,
            self.platform is Some ==> (r matches Some(s) && s@ == self.mc_version@),
    {
        match self.platform {
            Some(_) => Some(String::from_str(self.mc_version.as_str())),
            None => None,
        }
    }

    /// How a version selector is looked up: "latest" searches for the first fitting
    /// version; a selector with '$' searches for the name with "${mcver}" and
    /// "${mcversion}" replaced by the game version; any other names a version.
    pub fn version_query(&self, version: &str) -> (r: VersionQuery)
        ensures
            is_latest_sentinel(version@) ==> r matches VersionQuery::Search(None),
            !is_latest_sentinel(version@) && version@.contains('$') ==> (r matches VersionQuery::Search(Some(n))
                && n@ == replace_all(
                replace_all(version@, "${mcver}"@, self.mc_version@),
                "${mcversion}"@,
                self.mc_version@,
            )),
            !is_latest_sentinel(version@) && !version@.contains('$') ==> (r matches VersionQuery::Direct(n)
                && n@ == version@),
    {
        if crate::version::is_default_str(version) {
            VersionQuery::Search(None)
        } else if contains_char(version, '$') {
            let a = replace_str(version, "${mcver}", self.mc_version.as_str());
            let b = replace_str(a.as_str(), "${mcversion}", self.mc_version.as_str());
            VersionQuery::Search(Some(b))
        } else {
            VersionQuery::Direct(String::from_str(version))
        }
    }

    /// The address of a project's version list.
    pub fn versions_url(id: &str) -> (r: String)
        ensures
            r@ == HANGAR_API_V1@ + "/projects/"@ + project_slug(id@) + "/versions"@,
    {
        let slug = if contains_char(id, '/') {
            string_from_chars(chars_after_first(&chars_of(id), '/').as_slice())
        } else {
            String::from_str(id)
        };
        concat3(HANGAR_API_V1, "/projects/", slug.as_str()).concat("/versions")
    }

    /// The next step of the version search after a page: the match, the next offset,
    /// or the end when the page was short or the declared `count` of versions is
    /// reached.
    pub fn after_page(filter: &PlatformFilter, count: u64, page_len: usize, found: Option<usize>) -> (r: PageStep)
        ensures
            r == page_step(filter.offset, filter.limit, count, page_len as nat, found),
    {
        next_page_step(filter.offset, filter.limit, count, page_len, found)
    }

    /// The plugin file of a version for the server's platform (Paper when unknown),
    /// cached under "hangar" as "{id}/{version}/{file name}", with its size and
    /// SHA-256 digest.
    pub fn resolve_source(&self, id: &str, version: &ProjectVersion) -> (r: Result<ResolvedFile, ResolveError>)
        ensures
            ({
                let p = match self.platform {
                    Some(p) => p,
                    None => Platform::Paper,
                };
                &&& (r is Err <==> forall|i: int| 0 <= i < version.downloads@.len() ==> #[trigger] version.downloads@[i].0 != p)
                &&& (r matches Err(e) ==> e is NotFound)
                &&& (r matches Ok(f) ==> hangar_resolved(p, id@, *version, f))
            }),
    {
        let p = match self.platform {
            Some(p) => p,
            None => Platform::Paper,
        };
        let mut i: usize = 0;
        while i < version.downloads.len()
            invariant
                0 <= i <= version.downloads@.len(),
                p == match self.platform {
                    Some(p) => p,
                    None => Platform::Paper,
                },
                forall|j: int| 0 <= j < i ==> #[trigger] version.downloads@[j].0 != p,
            decreases version.downloads@.len() - i,
        {
            if version.downloads[i].0 == p {
                let d = &version.downloads[i].1;
                proof {
                    assert(version.downloads@[i as int].0 == p);
                    assert(version.downloads@[i as int].1 == *d);
                    assert(first_download(*version, p, i as int));
                }
                let info = d.get_file_info();
                let mut path = concat3(id, "/", version.name.as_str());
                path.append("/");
                path.append(info.name.as_str());
                return Ok(
                    ResolvedFile {
                        url: d.get_url(),
                        filename: String::from_str(info.name.as_str()),
                        cache: CacheStrategy::File { namespace: String::from_str("hangar"), path },
                        size: Some(info.size_bytes),
                        hashes: Hashes::new_single(
                            HashFormat::Sha256,
                            String::from_str(info.sha256_hash.as_str()),
                        ),
                    },
                );
            }
            i += 1;
        }
        Err(ResolveError::NotFound(concat3("Platform unsupported for Hangar project '", id, "'")))
    }
}

} // verus!
