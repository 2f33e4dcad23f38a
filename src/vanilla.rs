//! The game's own server jars, from the version manifest.

use vstd::prelude::*;
use crate::error::ResolveError;
use crate::hash::{HashFormat, Hashes};
use crate::model::{same_resolution, CacheStrategy, ResolvedFile};
use crate::text::{concat3, str_eq};
use crate::version::is_latest_sentinel;

verus! {

pub const VANILLA_CACHE_DIR: &'static str = "vanilla";
pub const VERSION_MANIFEST_URL: &'static str =
    "https://piston-meta.mojang.com/mc/game/version_manifest_v2.json";

/// The kind of a game version.
#[derive(Debug, Clone, Copy, PartialEq, Eq, Structural, Default)]
pub enum VersionType {
    #[default]
    Release,
    Snapshot,
    OldAlpha,
    OldBeta,
}

/// The role of a downloadable file of a game version.
#[derive(Debug, Clone, Copy, PartialEq, Eq, Structural)]
pub enum DownloadType {
    Client,
    ClientMappings,
    Server,
    ServerMappings,
    WindowsServer,
}

/// A file of the game's metadata service.
#[derive(Debug)]
pub struct PistonFile {
    pub sha1: String,
    pub size: u64,
    pub url: String,
    pub id: Option<String>,
    pub total_size: Option<u64>,
    pub path: Option<String>,
}

/// The Java runtime a game version needs.
#[derive(Debug)]
pub struct VersionJavaInfo {
    pub major_version: u8,
    pub component: String,
}

/// The operating system a rule tests for.
#[derive(Debug)]
pub struct PistonOs {
    pub name: String,
    pub arch: String,
    pub version: String,
}

/// The conditions of a rule.
#[derive(Debug)]
pub struct PistonRuleConstraints {
    pub os: Option<PistonOs>,
    pub features: Option<Vec<(String, bool)>>,
}

/// A rule that allows or forbids a library or argument under some conditions.
#[derive(Debug)]
pub enum PistonRule {
    Allow(PistonRuleConstraints),
    Disallow(PistonRuleConstraints),
}

/// The value of a conditional argument.
#[derive(Debug)]
pub enum ArgumentValue {
    Single(String),
    Many(Vec<String>),
}

/// A launch argument, always present or subject to rules.
#[derive(Debug)]
pub enum PistonArgument {
    Normal(String),
    Ruled { rules: Vec<PistonRule>, value: ArgumentValue },
}

/// The game and JVM launch arguments of a version.
#[derive(Debug)]
pub struct VersionArguments {
    pub game: Vec<PistonArgument>,
    pub jvm: Vec<PistonArgument>,
}

/// Files of a library: its artifact and classified extras.
#[derive(Debug)]
pub struct PistonLibraryDownload {
    pub artifact: PistonFile,
    pub classifiers: Option<Vec<(String, PistonFile)>>,
}

/// What to leave out when unpacking a native library.
#[derive(Debug)]
pub struct PistonExtractLibrary {
    pub exclude: Vec<String>,
    pub name: Option<String>,
}

/// A library of a version.
#[derive(Debug)]
pub struct PistonLibrary {
    pub name: String,
    pub downloads: PistonLibraryDownload,
    pub rules: Vec<PistonRule>,
    pub extract: Option<PistonExtractLibrary>,
    pub natives: Option<Vec<(String, String)>>,
}

/// How the client logs.
#[derive(Debug)]
pub struct VersionLoggingInfo {
    pub argument: String,
    pub file: PistonFile,
    pub logging_type: String,
}

/// The logging set-up of a version.
#[derive(Debug)]
pub struct LoggingInfoWrapper {
    pub client: VersionLoggingInfo,
}

/// What the metadata service says of one game version.
#[derive(Debug)]
pub struct VersionInfo {
    pub id: String,
    pub assets: String,
    pub java_version: VersionJavaInfo,
    pub downloads: Vec<(DownloadType, PistonFile)>,
    pub main_class: String,
    pub version_type: VersionType,
    pub time: String,
    pub release_time: String,
}

/// The newest release and snapshot.
#[derive(Debug)]
pub struct LatestVersions {
    pub release: String,
    pub snapshot: String,
}

/// An entry of the manifest, pointing at the version's own metadata.
#[derive(Debug)]
pub struct VersionIndex {
    pub id: String,
    pub version_type: VersionType,
    pub url: String,
    pub time: String,
    pub release_time: String,
    pub sha1: String,
    pub compliance_level: u8,
}

/// The list of all game versions, with pointers to the newest ones.
#[derive(Debug)]
pub struct VersionManifest {
    pub latest: LatestVersions,
    pub versions: Vec<VersionIndex>,
}

impl VersionManifest {
    /// The first entry with id `id`.
    pub fn find(&self, id: &str) -> (r: Option<&VersionIndex>)
        ensures
            r is None <==> forall|i: int|
                0 <= i < self.versions@.len() ==> #[trigger] self.versions@[i].id@ != id@,
            r matches Some(v) ==> exists|i: int|
                0 <= i < self.versions@.len() && *v == self.versions@[i] && v.id@ == id@ && forall|
                    j: int,
                | 0 <= j < i ==> #[trigger] self.versions@[j].id@ != id@,
    {
        let mut i: usize = 0;
        while i < self.versions.len()
            invariant
                0 <= i <= self.versions@.len(),
                forall|j: int| 0 <= j < i ==> #[trigger] self.versions@[j].id@ != id@,
            decreases self.versions@.len() - i,
        {
            if str_eq(self.versions[i].id.as_str(), id) {
                return Some(&self.versions[i]);
            }
            i += 1;
        }
        None
    }

    /// The version id a selector stands for: "latest" is the newest release,
    /// "latest-snapshot" the newest snapshot, anything else itself.
    pub fn select_id(&self, selector: &str) -> (r: String)
        ensures
            is_latest_sentinel(selector@) ==> r@ == self.latest.release@,
            selector@ == "latest-snapshot"@ ==> r@ == self.latest.snapshot@,
            !is_latest_sentinel(selector@) && selector@ != "latest-snapshot"@ ==> r@ == selector@,
    {
        if str_eq(selector, "latest") {
            proof {
                reveal_strlit("latest");
                reveal_strlit("latest-snapshot");
                assert("latest"@ =~= seq!['l', 'a', 't', 'e', 's', 't']);
                assert("latest-snapshot"@[6] == '-');
            }
            String::from_str(self.latest.release.as_str())
        } else if str_eq(selector, "latest-snapshot") {
            String::from_str(self.latest.snapshot.as_str())
        } else {
            String::from_str(selector)
        }
    }
}

/// The first file of `info` with role `kind`.
pub fn download_of(info: &VersionInfo, kind: DownloadType) -> (r: Option<&PistonFile>)
    ensures
        r is None <==> forall|i: int|
            0 <= i < info.downloads@.len() ==> #[trigger] info.downloads@[i].0 != kind,
        r matches Some(f) ==> exists|i: int|
            0 <= i < info.downloads@.len() && info.downloads@[i].0 == kind && *f
                == info.downloads@[i].1 && forall|j: int|
                0 <= j < i ==> #[trigger] info.downloads@[j].0 != kind,
{
    let mut i: usize = 0;
    while i < info.downloads.len()
        invariant
            0 <= i <= info.downloads@.len(),
            forall|j: int| 0 <= j < i ==> #[trigger] info.downloads@[j].0 != kind,
        decreases info.downloads@.len() - i,
    {
        if info.downloads[i].0 == kind {
            return Some(&info.downloads[i].1);
        }
        i += 1;
    }
    None
}

/// What resolving the server jar of `info` gives: the first server download,
/// cached under "vanilla" as "server-{id}.jar", with its size and SHA-1 digest.
pub open spec fn vanilla_resolved(info: VersionInfo, f: ResolvedFile) -> bool {
    exists|i: int|
        0 <= i < info.downloads@.len() && info.downloads@[i].0 == DownloadType::Server
            && (forall|j: int|
            0 <= j < i ==> #[trigger] info.downloads@[j].0 != DownloadType::Server) && {
            let file = info.downloads@[i].1;
            &&& f.url@ == file.url@
            &&& f.filename@ == "server-"@ + info.id@ + ".jar"@
            &&& f.cache matches CacheStrategy::File { namespace, path } && namespace@
                == VANILLA_CACHE_DIR@ && path@ == "server-"@ + info.id@ + ".jar"@
            &&& f.size == Some(file.size)
            &&& f.hashes@ == Map::<HashFormat, Seq<char>>::empty().insert(
                HashFormat::Sha1,
                file.sha1@,
            )
        }
}

/// Resolving the same version info twice gives the same file.
pub proof fn lemma_vanilla_resolution_deterministic(info: VersionInfo, a: ResolvedFile, b: ResolvedFile)
    requires
        vanilla_resolved(info, a),
        vanilla_resolved(info, b),
    ensures
        same_resolution(a, b),
{
    let i = choose|i: int|
        0 <= i < info.downloads@.len() && info.downloads@[i].0 == DownloadType::Server && (forall|j: int|
            0 <= j < i ==> #[trigger] info.downloads@[j].0 != DownloadType::Server) && {
            let file = info.downloads@[i].1;
            &&& a.url@ == file.url@
            &&& a.filename@ == "server-"@ + info.id@ + ".jar"@
            &&& a.cache matches CacheStrategy::File { namespace, path } && namespace@
                == VANILLA_CACHE_DIR@ && path@ == "server-"@ + info.id@ + ".jar"@
            &&& a.size == Some(file.size)
            &&& a.hashes@ == Map::<HashFormat, Seq<char>>::empty().insert(HashFormat::Sha1, file.sha1@)
        };
    let k = choose|k: int|
        0 <= k < info.downloads@.len() && info.downloads@[k].0 == DownloadType::Server && (forall|j: int|
            0 <= j < k ==> #[trigger] info.downloads@[j].0 != DownloadType::Server) && {
            let file = info.downloads@[k].1;
            &&& b.url@ == file.url@
            &&& b.filename@ == "server-"@ + info.id@ + ".jar"@
            &&& b.cache matches CacheStrategy::File { namespace, path } && namespace@
                == VANILLA_CACHE_DIR@ && path@ == "server-"@ + info.id@ + ".jar"@
            &&& b.size == Some(file.size)
            &&& b.hashes@ == Map::<HashFormat, Seq<char>>::empty().insert(HashFormat::Sha1, file.sha1@)
        };
    assert(i == k);
}

/// The vanilla source.
pub struct VanillaAPI {}

impl VanillaAPI {
    /// The server jar of a game version, cached under "vanilla" as
    /// "server-{id}.jar", with its size and SHA-1 digest.
    pub fn resolve_source(info: &VersionInfo) -> (r: Result<ResolvedFile, ResolveError>)
        ensures
            r is Err <==> forall|i: int|
                0 <= i < info.downloads@.len() ==> #[trigger] info.downloads@[i].0
                    != DownloadType::Server,
            r matches Err(e) ==> e is MissingDownloadUrl,
            r matches Ok(f) ==> vanilla_resolved(*info, f),
    {
        let file = match download_of(info, DownloadType::Server) {
            Some(f) => f,
            None => {
                return Err(
                    ResolveError::MissingDownloadUrl(
                        String::from_str("version manifest doesn't include a server download"),
                    ),
                );
            },
        };
        let name = concat3("server-", info.id.as_str(), ".jar");
        Ok(
            ResolvedFile {
                url: String::from_str(file.url.as_str()),
                filename: String::from_str(name.as_str()),
                cache: CacheStrategy::File { namespace: String::from_str(VANILLA_CACHE_DIR), path: name },
                size: Some(file.size),
                hashes: Hashes::new_single(HashFormat::Sha1, String::from_str(file.sha1.as_str())),
            },
        )
    }
}

} // verus!
