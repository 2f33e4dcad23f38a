//! The PaperMC build service: projects, their game versions, and numbered builds.

use vstd::prelude::*;
use crate::error::ResolveError;
use crate::hash::Hashes;
use crate::model::{same_resolution, CacheStrategy, ResolvedFile};
use crate::text::{concat2, concat3, decimal, str_eq, u64_to_string};
use crate::version::{is_default_str, is_latest_sentinel};

verus! {

pub const PAPERMC_URL: &'static str = "https://api.papermc.io/v2";
pub const PAPERMC_CACHE_DIR: &'static str = "papermc";

/// A project and its game versions, oldest first.
#[derive(Debug)]
pub struct PaperProject {
    pub project_id: String,
    pub project_name: String,
    pub version_groups: Vec<String>,
    pub versions: Vec<String>,
}

/// The release channel of a build.
#[derive(Debug, Clone, Copy, PartialEq, Eq, Structural)]
pub enum PaperChannel {
    Default,
    Experimental,
}

/// One commit that went into a build.
#[derive(Debug)]
pub struct PaperChange {
    pub commit: String,
    pub summary: String,
    pub message: String,
}

/// A file of a build.
#[derive(Debug)]
pub struct PaperDownload {
    pub name: String,
    pub sha256: String,
}

/// A numbered build and its files, keyed by role ("application", ...).
#[derive(Debug)]
pub struct PaperVersionBuild {
    pub build: u64,
    pub time: String,
    pub channel: PaperChannel,
    pub promoted: bool,
    pub changes: Vec<PaperChange>,
    pub downloads: Vec<(String, PaperDownload)>,
}

/// The builds of a game version, oldest first.
#[derive(Debug)]
pub struct PaperBuildsResponse {
    pub project_id: String,
    pub project_name: String,
    pub version: String,
    pub builds: Vec<PaperVersionBuild>,
}

/// The index of the first build whose number reads as `id`.
pub open spec fn build_numbered(builds: Seq<PaperVersionBuild>, id: Seq<char>, i: int) -> bool {
    0 <= i < builds.len() && decimal(builds[i].build as nat) == id && forall|j: int|
        0 <= j < i ==> decimal(#[trigger] builds[j].build as nat) != id
}

/// Whether entry `i` is the first "application" file of `build`.
pub open spec fn first_application(build: PaperVersionBuild, i: int) -> bool {
    0 <= i < build.downloads@.len() && build.downloads@[i].0@ == "application"@ && forall|j: int|
        0 <= j < i ==> #[trigger] build.downloads@[j].0@ != "application"@
}

/// The file resolved from entry `i` of `build`.
pub open spec fn papermc_fields(project: Seq<char>, version: Seq<char>, build: PaperVersionBuild, i: int, f: ResolvedFile) -> bool {
    let name = build.downloads@[i].1.name@;
    &&& f.url@ == PAPERMC_URL@ + "/projects/"@ + project + "/versions/"@ + version + "/builds/"@
        + decimal(build.build as nat) + "/downloads/"@ + name
    &&& f.filename@ == name
    &&& f.cache matches CacheStrategy::File { namespace, path } && namespace@ == PAPERMC_CACHE_DIR@
        && path@ == project + "/"@ + name
    &&& f.size is None
    &&& f.hashes@ == Map::<crate::hash::HashFormat, Seq<char>>::empty()
}

/// What resolving a build gives: the first "application" file, cached under
/// "papermc" as "{project}/{file name}".
pub open spec fn papermc_resolved(project: Seq<char>, version: Seq<char>, build: PaperVersionBuild, f: ResolvedFile) -> bool {
    exists|i: int| first_application(build, i) && papermc_fields(project, version, build, i, f)
}

/// Resolving the same build twice gives the same file.
pub proof fn lemma_papermc_resolution_deterministic(
    project: Seq<char>,
    version: Seq<char>,
    build: PaperVersionBuild,
    a: ResolvedFile,
    b: ResolvedFile,
)
    requires
        papermc_resolved(project, version, build, a),
        papermc_resolved(project, version, build, b),
    ensures
        same_resolution(a, b),
{
    let i = choose|i: int| first_application(build, i) && papermc_fields(project, version, build, i, a);
    let k = choose|k: int| first_application(build, k) && papermc_fields(project, version, build, k, b);
    assert(i == k);
}

/// The PaperMC source.
pub struct PaperMCAPI {}

impl PaperMCAPI {
    /// The game version for a selector: for "latest" the last listed version.
    pub fn select_version(version: &str, versions: &[String]) -> (r: Result<String, ResolveError>)
        ensures
            !is_latest_sentinel(version@) ==> (r matches Ok(s) && s@ == version@),
            is_latest_sentinel(version@) ==> (versions@.len() == 0 <==> r is Err),
            is_latest_sentinel(version@) && versions@.len() > 0 ==> (r matches Ok(s) && s@
                == versions@.last()@),
    {
        if is_default_str(version) {
            if versions.len() == 0 {
                Err(ResolveError::NotFound(String::from_str("No versions")))
            } else {
                Ok(String::from_str(versions[versions.len() - 1].as_str()))
            }
        } else {
            Ok(String::from_str(version))
        }
    }

    /// The index of the selected build: for "latest" the last one, otherwise the first
    /// whose number reads as the selector.
    pub fn fetch_build(builds: &[PaperVersionBuild], build: &str) -> (r: Result<usize, ResolveError>)
        ensures
            is_latest_sentinel(build@) ==> (builds@.len() == 0 <==> r is Err),
            is_latest_sentinel(build@) && builds@.len() > 0 ==> r == Ok::<usize, ResolveError>(
                (builds@.len() - 1) as usize,
            ),
            !is_latest_sentinel(build@) ==> (r matches Ok(i) ==> build_numbered(builds@, build@, i as int)),
            !is_latest_sentinel(build@) ==> (r is Err <==> forall|i: int|
                0 <= i < builds@.len() ==> decimal(#[trigger] builds@[i].build as nat) != build@),
            r matches Err(e) ==> e is NotFound,
    {
        if is_default_str(build) {
            if builds.len() == 0 {
                return Err(ResolveError::NotFound(String::from_str("Latest papermc build not found")));
            }
            return Ok(builds.len() - 1);
        }
        let mut i: usize = 0;
        while i < builds.len()
            invariant
                0 <= i <= builds@.len(),
                !is_latest_sentinel(build@),
                forall|j: int| 0 <= j < i ==> decimal(#[trigger] builds@[j].build as nat) != build@,
            decreases builds@.len() - i,
        {
            let n = u64_to_string(builds[i].build);
            if str_eq(n.as_str(), build) {
                return Ok(i);
            }
            i += 1;
        }
        Err(ResolveError::NotFound(concat3("PaperMC build '", build, "' not found")))
    }

    /// The file of a build with role "application".
    pub fn application_download(build: &PaperVersionBuild) -> (r: Option<&PaperDownload>)
        ensures
            r is None <==> forall|i: int|
                0 <= i < build.downloads@.len() ==> #[trigger] build.downloads@[i].0@ != "application"@,
            r matches Some(d) ==> exists|i: int|
                0 <= i < build.downloads@.len() && build.downloads@[i].0@ == "application"@ && *d
                    == build.downloads@[i].1 && forall|j: int|
                    0 <= j < i ==> #[trigger] build.downloads@[j].0@ != "application"@,
    {
        let mut i: usize = 0;
        while i < build.downloads.len()
            invariant
                0 <= i <= build.downloads@.len(),
                forall|j: int|
                    0 <= j < i ==> #[trigger] build.downloads@[j].0@ != "application"@,
            decreases build.downloads@.len() - i,
        {
            if str_eq(build.downloads[i].0.as_str(), "application") {
                return Some(&build.downloads[i].1);
            }
            i += 1;
        }
        None
    }

    /// The server jar of a build of `project` at the concrete game version `version`,
    /// cached under "papermc" as "{project}/{file name}".
    pub fn resolve_source(project: &str, version: &str, build: &PaperVersionBuild) -> (r: Result<
        ResolvedFile,
        ResolveError,
    >)
        ensures
            r is Err <==> forall|i: int|
                0 <= i < build.downloads@.len() ==> #[trigger] build.downloads@[i].0@ != "application"@,
            r matches Ok(f) ==> papermc_resolved(project@, version@, *build, f),
            r matches Err(e) ==> e is MissingDownloadUrl,
    {
        let download = match Self::application_download(build) {
            Some(d) => d,
            None => {
                return Err(
                    ResolveError::MissingDownloadUrl(
                        concat2("downloads['application'] missing for papermc project ", project),
                    ),
                );
            },
        };
        let mut url = concat3(PAPERMC_URL, "/projects/", project);
        url.append("/versions/");
        url.append(version);
        url.append("/builds/");
        let n = u64_to_string(build.build);
        url.append(n.as_str());
        url.append("/downloads/");
        url.append(download.name.as_str());
        let path = concat3(project, "/", download.name.as_str());
        let ghost wi = choose|i: int|
            0 <= i < build.downloads@.len() && build.downloads@[i].0@ == "application"@ && *download
                == build.downloads@[i].1 && forall|j: int|
                0 <= j < i ==> #[trigger] build.downloads@[j].0@ != "application"@;
        assert(first_application(*build, wi));
        Ok(
            ResolvedFile {
                url,
                filename: String::from_str(download.name.as_str()),
                cache: CacheStrategy::File { namespace: String::from_str(PAPERMC_CACHE_DIR), path },
                size: None,
                hashes: Hashes::new(),
            },
        )
    }
}

} // verus!
