//! What an artifact is, and what resolving one produces.

use vstd::prelude::*;
use crate::error::ResolveError;
use crate::hash::Hashes;
use crate::text::{concat2, replace_all, replace_str, trim, trim_of, after_last, before_first, chars_after_last, chars_before_first, chars_of, string_from_chars};

verus! {

/// How previously downloaded bytes of an artifact may be reused.
#[derive(Debug)]
pub enum CacheStrategy {
    /// Always fetch fresh bytes.
    NoCache,
    /// Keep the bytes at `namespace/path` under the cache root.
    File { namespace: String, path: String },
}

/// A concrete download: where from, under which name, how to cache it, and the
/// digests the bytes must have.
#[derive(Debug)]
pub struct ResolvedFile {
    pub url: String,
    pub filename: String,
    pub cache: CacheStrategy,
    pub size: Option<u64>,
    pub hashes: Hashes,
}

/// Where an artifact comes from.
#[derive(Debug)]
pub enum Downloadable {
    Url { url: String, filename: Option<String>, desc: Option<String> },
    Modrinth { id: String, version: String },
    CurseRinth { id: String, version: String },
    Spigot { id: String, version: String },
    Hangar { id: String, version: String },
    GithubRelease { repo: String, tag: String, asset: String },
    Jenkins { url: String, job: String, build: String, artifact: String },
    Maven { url: String, group: String, artifact: String, version: String, filename: String },
}

/// The default version selector, "latest".
pub fn latest() -> (r: String)
    ensures
        r@ == "latest"@,
{
    String::from_str("latest")
}

/// The default Jenkins artifact selector, "first".
pub fn first() -> (r: String)
    ensures
        r@ == "first"@,
{
    String::from_str("first")
}

/// The default Maven file name template, "artifact".
pub fn artifact() -> (r: String)
    ensures
        r@ == "artifact"@,
{
    String::from_str("artifact")
}

/// The file name that a bare URL names: what follows the last '/' of the part
/// before any '?'.
pub open spec fn url_filename(url: Seq<char>) -> Seq<char> {
    after_last(before_first(url, '?'), '/')
}

/// The file name that a bare URL names.
pub fn filename_from_url(url: &str) -> (r: String)
    ensures
        r@ == url_filename(url@),
{
    let chars = chars_of(url);
    let clean = chars_before_first(&chars, '?');
    let name = chars_after_last(&clean, '/');
    string_from_chars(name.as_slice())
}

/// The file name a bare URL artifact gets: the given one, or the one the URL names.
pub open spec fn chosen_name(url: Seq<char>, filename: Option<Seq<char>>) -> Seq<char> {
    match filename {
        Some(n) => n,
        None => url_filename(url),
    }
}

pub open spec fn opt_name(o: Option<String>) -> Option<Seq<char>> {
    match o {
        Some(s) => Some(s@),
        None => None,
    }
}

/// Resolution of a bare URL: no cache, no size, no expected digest; the file name is
/// the given one or the one the URL names, and must not be empty (a URL ending in
/// '/' names no file).
pub fn resolve_url(url: &str, filename: &Option<String>) -> (r: Result<ResolvedFile, ResolveError>)
    ensures
        chosen_name(url@, opt_name(*filename)).len() == 0 <==> r matches Err(
            ResolveError::Format(_),
        ),
        r matches Ok(f) ==> url_resolved(url@, opt_name(*filename), f) && f.filename@.len() > 0,
{
    let name = match filename {
        Some(f) => f.clone(),
        None => filename_from_url(url),
    };
    if name.unicode_len() == 0 {
        return Err(ResolveError::Format(concat2("No file name in URL ", url)));
    }
    Ok(
        ResolvedFile {
            url: String::from_str(url),
            filename: name,
            cache: CacheStrategy::NoCache,
            size: None,
            hashes: Hashes::new(),
        },
    )
}

impl Downloadable {
    /// The resolution of a `Url` artifact, which needs no lookup; None for the
    /// artifacts that a source must be asked about.
    pub fn resolve_direct(&self) -> (r: Option<Result<ResolvedFile, ResolveError>>)
        ensures
            match self {
                Downloadable::Url { url, filename, .. } => r matches Some(x) && (chosen_name(
                    url@,
                    opt_name(*filename),
                ).len() == 0 <==> x matches Err(ResolveError::Format(_))) && (x matches Ok(f)
                    ==> url_resolved(url@, opt_name(*filename), f) && f.filename@.len() > 0),
                _ => r is None,
            },
    {
        match self {
            Downloadable::Url { url, filename, .. } => Some(resolve_url(url.as_str(), filename)),
            _ => None,
        }
    }
}


/// A directory name for a server address: without scheme, with '/' turned into '-'
/// ("https://ci.lucko.me" gives "ci.lucko.me", "https://a.b/c/" gives "a.b-c").
pub open spec fn folder_for_url(url: Seq<char>) -> Seq<char> {
    replace_all(
        trim_of(
            replace_all(
                replace_all(replace_all(url, "https://"@, Seq::empty()), "http://"@, Seq::empty()),
                "/"@,
                " "@,
            ),
        ),
        " "@,
        "-"@,
    )
}

/// A directory name for a server address.
pub fn url_to_folder(url: &str) -> (r: String)
    ensures
        r@ == folder_for_url(url@),
{
    let a = replace_str(url, "https://", "");
    let b = replace_str(a.as_str(), "http://", "");
    let c = replace_str(b.as_str(), "/", " ");
    let d = trim(c.as_str());
    proof {
        assert(""@ == Seq::<char>::empty()) by {
            reveal_strlit("");
        }
    }
    replace_str(d.as_str(), " ", "-")
}


/// Whether two resolutions agree on every field: address, name, cache entry, size and
/// expected digests.
pub open spec fn same_resolution(a: ResolvedFile, b: ResolvedFile) -> bool {
    &&& a.url@ == b.url@
    &&& a.filename@ == b.filename@
    &&& match (a.cache, b.cache) {
        (CacheStrategy::NoCache, CacheStrategy::NoCache) => true,
        (
            CacheStrategy::File { namespace: na, path: pa },
            CacheStrategy::File { namespace: nb, path: pb },
        ) => na@ == nb@ && pa@ == pb@,
        _ => false,
    }
    &&& a.size == b.size
    &&& a.hashes@ == b.hashes@
}

/// What resolving a bare URL gives.
pub open spec fn url_resolved(url: Seq<char>, filename: Option<Seq<char>>, f: ResolvedFile) -> bool {
    &&& f.url@ == url
    &&& f.filename@ == match filename {
        Some(n) => n,
        None => url_filename(url),
    }
    &&& f.cache is NoCache
    &&& f.size is None
    &&& f.hashes@ == Map::<crate::hash::HashFormat, Seq<char>>::empty()
}

/// Resolving the same bare URL twice gives the same file.
pub proof fn lemma_url_resolution_deterministic(
    url: Seq<char>,
    filename: Option<Seq<char>>,
    a: ResolvedFile,
    b: ResolvedFile,
)
    requires
        url_resolved(url, filename, a),
        url_resolved(url, filename, b),
    ensures
        same_resolution(a, b),
{
}

} // verus!
