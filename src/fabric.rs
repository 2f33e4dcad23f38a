//! The Fabric loader: a server launcher jar served per game, loader and installer
//! version.

use vstd::prelude::*;
use crate::error::ResolveError;
use crate::hash::Hashes;
use crate::model::{same_resolution, CacheStrategy, ResolvedFile};
use crate::text::{concat3, has_infix, lemma_infix_split, lemma_no_infix_short};
use crate::version::{is_latest_sentinel, resolve_latest};

verus! {

pub const FABRIC_META_URL: &'static str = "https://meta.fabricmc.net";

/// One entry of the loader version list.
#[derive(Debug)]
pub struct FabricLoader {
    pub separator: String,
    pub build: u64,
    pub maven: String,
    pub version: String,
    pub stable: bool,
}

/// One entry of the installer version list.
#[derive(Debug)]
pub struct FabricInstaller {
    pub url: String,
    pub maven: String,
    pub version: String,
    pub stable: bool,
}

/// The cache path and file name of a server launcher.
pub open spec fn fabric_file_name(mc: Seq<char>, installer: Seq<char>, loader: Seq<char>) -> Seq<char> {
    "fabric-server-"@ + mc + "-"@ + installer + "-"@ + loader + ".jar"@
}

/// The download URL of a server launcher.
pub open spec fn fabric_url(mc: Seq<char>, installer: Seq<char>, loader: Seq<char>) -> Seq<char> {
    FABRIC_META_URL@ + "/v2/versions/loader/"@ + mc + "/"@ + loader + "/"@ + installer
        + "/server/jar"@
}

/// What resolving concrete loader and installer versions gives.
pub open spec fn fabric_resolved(mc: Seq<char>, loader: Seq<char>, installer: Seq<char>, f: ResolvedFile) -> bool {
    &&& f.url@ == fabric_url(mc, installer, loader)
    &&& f.filename@ == fabric_file_name(mc, installer, loader)
    &&& f.cache matches CacheStrategy::File { namespace, path } && namespace@ == "fabric"@ && path@
        == fabric_file_name(mc, installer, loader)
    &&& f.size is None
    &&& f.hashes@ == Map::<crate::hash::HashFormat, Seq<char>>::empty()
}

/// For concrete versions, resolution is deterministic: two resolutions of the same
/// game, loader and installer versions agree on every field.
pub proof fn lemma_fabric_resolution_deterministic(
    mc: Seq<char>,
    loader: Seq<char>,
    installer: Seq<char>,
    a: ResolvedFile,
    b: ResolvedFile,
)
    requires
        fabric_resolved(mc, loader, installer, a),
        fabric_resolved(mc, loader, installer, b),
    ensures
        same_resolution(a, b),
{
}

/// The Fabric source for one game version.
pub struct FabricAPI {
    pub mc_version: String,
}

impl FabricAPI {
    /// The newest loader: the first entry of the list, which the service orders
    /// newest first.
    pub fn fetch_latest_loader(loaders: &[FabricLoader]) -> (r: Option<String>)
        ensures
            loaders@.len() == 0 ==> r is None,
            loaders@.len() > 0 ==> (r matches Some(s) && s@ == loaders@[0].version@),
    {
        if loaders.len() == 0 {
            None
        } else {
            Some(String::from_str(loaders[0].version.as_str()))
        }
    }

    /// The newest installer: the first entry of the list.
    pub fn fetch_latest_installer(installers: &[FabricInstaller]) -> (r: Option<String>)
        ensures
            installers@.len() == 0 ==> r is None,
            installers@.len() > 0 ==> (r matches Some(s) && s@ == installers@[0].version@),
    {
        if installers.len() == 0 {
            None
        } else {
            Some(String::from_str(installers[0].version.as_str()))
        }
    }

    /// The server launcher for concrete loader and installer versions, cached under
    /// "fabric".
    pub fn resolve_concrete(&self, loader: &str, installer: &str) -> (r: ResolvedFile)
        ensures
            fabric_resolved(self.mc_version@, loader@, installer@, r),
    {
        let mut name = concat3("fabric-server-", self.mc_version.as_str(), "-");
        name.append(installer);
        name.append("-");
        name.append(loader);
        name.append(".jar");
        let mut url = concat3(FABRIC_META_URL, "/v2/versions/loader/", self.mc_version.as_str());
        url.append("/");
        url.append(loader);
        url.append("/");
        url.append(installer);
        url.append("/server/jar");
        ResolvedFile {
            url,
            filename: name.clone(),
            cache: CacheStrategy::File { namespace: String::from_str("fabric"), path: name },
            size: None,
            hashes: Hashes::new(),
        }
    }

    /// The server launcher for the loader and installer selectors; a "latest"
    /// selector takes the newest version from the lists.
    pub fn resolve_source(
        &self,
        loader: &str,
        installer: &str,
        loaders: &[FabricLoader],
        installers: &[FabricInstaller],
    ) -> (r: Result<ResolvedFile, ResolveError>)
        ensures
            is_latest_sentinel(loader@) && loaders@.len() == 0 ==> r is Err,
            is_latest_sentinel(installer@) && installers@.len() == 0 ==> r is Err,
            r is Err ==> (is_latest_sentinel(loader@) && loaders@.len() == 0) || (
            is_latest_sentinel(installer@) && installers@.len() == 0),
            r matches Ok(f) ==> {
                let l = if is_latest_sentinel(loader@) {
                    loaders@[0].version@
                } else {
                    loader@
                };
                let i = if is_latest_sentinel(installer@) {
                    installers@[0].version@
                } else {
                    installer@
                };
                &&& f.url@ == fabric_url(self.mc_version@, i, l)
                &&& f.filename@ == fabric_file_name(self.mc_version@, i, l)
                &&& f.cache matches CacheStrategy::File { namespace, path } && namespace@
                    == "fabric"@ && path@ == fabric_file_name(self.mc_version@, i, l)
            },
    {
        let l = resolve_latest(loader, Self::fetch_latest_loader(loaders), "fabric loader")?;
        let i = resolve_latest(installer, Self::fetch_latest_installer(installers), "fabric installer")?;
        Ok(self.resolve_concrete(l.as_str(), i.as_str()))
    }
}

/// A "latest" selector never reaches the cache key: resolving "latest" for both the
/// loader and the installer gives the same file, cache key included, as resolving the
/// newest listed versions themselves.
pub proof fn lemma_latest_resolves_to_listed_versions(
    mc: Seq<char>,
    newest_loader: Seq<char>,
    newest_installer: Seq<char>,
    a: ResolvedFile,
    b: ResolvedFile,
)
    requires
        a.url@ == fabric_url(mc, newest_installer, newest_loader),
        a.filename@ == fabric_file_name(mc, newest_installer, newest_loader),
        a.cache matches CacheStrategy::File { namespace, path } && namespace@ == "fabric"@ && path@
            == fabric_file_name(mc, newest_installer, newest_loader),
        fabric_resolved(mc, newest_loader, newest_installer, b),
    ensures
        a.url@ == b.url@,
        a.filename@ == b.filename@,
        a.cache matches CacheStrategy::File { path: pa, .. } && b.cache matches CacheStrategy::File {
            path: pb,
            ..
        } && pa@ == pb@,
{
}


/// With a game version and listed versions free of "latest", the cache key holds no
/// "latest" either.
pub proof fn lemma_fabric_key_has_no_sentinel(mc: Seq<char>, installer: Seq<char>, loader: Seq<char>)
    requires
        !has_infix(mc, "latest"@),
        !has_infix(installer, "latest"@),
        !has_infix(loader, "latest"@),
    ensures
        !has_infix(fabric_file_name(mc, installer, loader), "latest"@),
{
    reveal_strlit("latest");
    reveal_strlit("fabric-server-");
    reveal_strlit("-");
    reveal_strlit(".jar");
    let t = "latest"@;
    assert(t =~= seq!['l', 'a', 't', 'e', 's', 't']);
    assert(!t.contains('-')) by {
        if t.contains('-') {
            let k = choose|k: int| 0 <= k < t.len() && t[k] == '-';
        }
    }
    assert(!t.contains('.')) by {
        if t.contains('.') {
            let k = choose|k: int| 0 <= k < t.len() && t[k] == '.';
        }
    }
    let fabric = seq!['f', 'a', 'b', 'r', 'i', 'c'];
    let server = seq!['s', 'e', 'r', 'v', 'e', 'r'];
    let jar = seq!['j', 'a', 'r'];
    assert(fabric != t) by {
        assert(fabric[0] != t[0]);
    }
    assert(server != t) by {
        assert(server[0] != t[0]);
    }
    lemma_no_infix_short(fabric, t);
    lemma_no_infix_short(server, t);
    lemma_no_infix_short(jar, t);
    let tail = loader + seq!['.'] + jar;
    assert(!has_infix(tail, t)) by {
        if has_infix(tail, t) {
            lemma_infix_split(loader, '.', jar, t);
        }
    }
    let right = installer + seq!['-'] + tail;
    assert(!has_infix(right, t)) by {
        if has_infix(right, t) {
            lemma_infix_split(installer, '-', tail, t);
        }
    }
    let sm = server + seq!['-'] + mc;
    assert(!has_infix(sm, t)) by {
        if has_infix(sm, t) {
            lemma_infix_split(server, '-', mc, t);
        }
    }
    let left = fabric + seq!['-'] + sm;
    assert(!has_infix(left, t)) by {
        if has_infix(left, t) {
            lemma_infix_split(fabric, '-', sm, t);
        }
    }
    assert(fabric_file_name(mc, installer, loader) =~= left + seq!['-'] + right);
    if has_infix(left + seq!['-'] + right, t) {
        lemma_infix_split(left, '-', right, t);
    }
}

} // verus!
