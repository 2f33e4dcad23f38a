//! Release assets of a code-hosting service.

use vstd::prelude::*;
use crate::hash::Hashes;
use crate::model::{CacheStrategy, ResolvedFile};
use crate::text::{concat3, str_eq};
use crate::version::{is_default_str, is_latest_sentinel};

verus! {

pub const GITHUB_API_URL: &'static str = "https://api.github.com";
pub const GITHUB_API_VERSION: &'static str = "2022-11-28";

/// A release, identified by its tag.
#[derive(Debug)]
pub struct GithubRelease {
    pub tag_name: String,
    pub name: String,
    pub assets: Vec<GithubAsset>,
}

/// A file attached to a release.
#[derive(Debug)]
pub struct GithubAsset {
    pub name: String,
    pub size: u64,
    pub browser_download_url: String,
}

/// The release API, by its base URL.
pub struct GitHubAPI(pub String);

impl GitHubAPI {
    /// The API at its public address.
    pub fn new() -> (r: GitHubAPI)
        ensures
            r.0@ == GITHUB_API_URL@,
    {
        GitHubAPI(String::from_str(GITHUB_API_URL))
    }

    /// The address of the releases list of `repo`.
    pub fn releases_url(&self, repo: &str) -> (r: String)
        ensures
            r@ == self.0@ + "/repos/"@ + repo@ + "/releases"@,
    {
        concat3(self.0.as_str(), "/repos/", repo).concat("/releases")
    }

    /// The download address of an asset of a release of `repo`.
    pub fn resolve_asset_url(&self, repo: &str, release: &GithubRelease, asset: &GithubAsset) -> (r:
        String)
        ensures
            r@ == "https://github.com/"@ + repo@ + "/releases/download/"@ + release.tag_name@ + "/"@
                + asset.name@,
    {
        let mut r = concat3("https://github.com/", repo, "/releases/download/");
        r.append(release.tag_name.as_str());
        r.append("/");
        r.append(asset.name.as_str());
        r
    }

    /// The index of the release a tag selects: the first listed (newest) for
    /// "latest", else the first whose tag is `tag`.
    pub fn select_release(releases: &[GithubRelease], tag: &str) -> (r: Option<usize>)
        ensures
            is_latest_sentinel(tag@) ==> (releases@.len() == 0 <==> r is None),
            is_latest_sentinel(tag@) && releases@.len() > 0 ==> r == Some(0usize),
            !is_latest_sentinel(tag@) ==> match r {
                Some(i) => i < releases@.len() && releases@[i as int].tag_name@ == tag@ && forall|j: int|
                    0 <= j < i ==> #[trigger] releases@[j].tag_name@ != tag@,
                None => forall|j: int| 0 <= j < releases@.len() ==> #[trigger] releases@[j].tag_name@ != tag@,
            },
    {
        if is_default_str(tag) {
            return if releases.len() == 0 {
                None
            } else {
                Some(0)
            };
        }
        let mut i: usize = 0;
        while i < releases.len()
            invariant
                0 <= i <= releases@.len(),
                !is_latest_sentinel(tag@),
                forall|j: int| 0 <= j < i ==> #[trigger] releases@[j].tag_name@ != tag@,
            decreases releases@.len() - i,
        {
            if str_eq(releases[i].tag_name.as_str(), tag) {
                return Some(i);
            }
            i += 1;
        }
        None
    }

    /// The index of the first asset of `release` named `asset`.
    pub fn select_asset(release: &GithubRelease, asset: &str) -> (r: Option<usize>)
        ensures
            match r {
                Some(i) => i < release.assets@.len() && release.assets@[i as int].name@ == asset@
                    && forall|j: int| 0 <= j < i ==> #[trigger] release.assets@[j].name@ != asset@,
                None => forall|j: int|
                    0 <= j < release.assets@.len() ==> #[trigger] release.assets@[j].name@ != asset@,
            },
    {
        let mut i: usize = 0;
        while i < release.assets.len()
            invariant
                0 <= i <= release.assets@.len(),
                forall|j: int| 0 <= j < i ==> #[trigger] release.assets@[j].name@ != asset@,
            decreases release.assets@.len() - i,
        {
            if str_eq(release.assets[i].name.as_str(), asset) {
                return Some(i);
            }
            i += 1;
        }
        None
    }

    /// An asset of a release of `repo`, cached under "github" as
    /// "{repo}/{tag}/{asset name}", with its size.
    pub fn resolve_source(&self, repo: &str, release: &GithubRelease, asset: &GithubAsset) -> (r:
        ResolvedFile)
        ensures
            r.url@ == "https://github.com/"@ + repo@ + "/releases/download/"@ + release.tag_name@
                + "/"@ + asset.name@,
            r.filename@ == asset.name@,
            r.cache matches CacheStrategy::File { namespace, path } && namespace@ == "github"@
                && path@ == repo@ + "/"@ + release.tag_name@ + "/"@ + asset.name@,
            r.size == Some(asset.size),
            r.hashes@ == Map::<crate::hash::HashFormat, Seq<char>>::empty(),
    {
        let mut path = concat3(repo, "/", release.tag_name.as_str());
        path.append("/");
        path.append(asset.name.as_str());
        ResolvedFile {
            url: self.resolve_asset_url(repo, release, asset),
            filename: String::from_str(asset.name.as_str()),
            cache: CacheStrategy::File { namespace: String::from_str("github"), path },
            size: Some(asset.size),
            hashes: Hashes::new(),
        }
    }
}

} // verus!
