//! The CurseForge file service: paged file lists, filtered by game version and loader.

use vstd::prelude::*;
use crate::error::ResolveError;
use crate::hash::{HashFormat, Hashes};
use crate::model::{CacheStrategy, ResolvedFile};
use crate::paging::{next_page_step, page_step, PageStep};
use crate::text::{chars_of, concat2, concat3, decimal, lowercase_of, str_eq, to_lowercase, u64_to_string};
use crate::version::{is_latest_sentinel, parse_bounded, parse_component};

verus! {

pub const CURSEFORGE_API: &'static str = "https://api.curseforge.com/v1";
pub const CURSEFORGE_PAGE_SIZE: u32 = 50;

/// A digest of a file; `algo` 1 is SHA-1 and 2 is MD5.
#[derive(Debug)]
pub struct CurseForgeHash {
    pub value: String,
    pub algo: u8,
}

/// A project that a file depends on.
#[derive(Debug)]
pub struct CurseForgeFileDependency {
    pub mod_id: u64,
    pub relation_type: u8,
}

/// A file of a project. `game_versions` mixes game versions and loader names.
#[derive(Debug)]
pub struct CurseForgeFile {
    pub id: u64,
    pub mod_id: u64,
    pub is_available: bool,
    pub display_name: String,
    pub file_name: String,
    pub release_type: u8,
    pub file_status: u8,
    pub hashes: Vec<CurseForgeHash>,
    pub file_date: String,
    pub file_length: u64,
    pub download_count: u64,
    pub download_url: Option<String>,
    pub game_versions: Vec<String>,
    pub dependencies: Vec<CurseForgeFileDependency>,
}

/// Where a page sits in a listing.
#[derive(Debug)]
pub struct CurseForgePagination {
    pub index: u32,
    pub page_size: u32,
    pub result_count: u32,
    pub total_count: u32,
}

/// A response that carries one value.
#[derive(Debug)]
pub struct CurseForgeResponse<T> {
    pub data: T,
}

/// A response that carries one page of a listing.
#[derive(Debug)]
pub struct CurseForgeListResponse<T> {
    pub data: T,
    pub pagination: CurseForgePagination,
}

/// A request for files by id.
#[derive(Debug)]
pub struct CurseForgeFilesRequest {
    pub file_ids: Vec<u64>,
}

/// Whether tag `gv` marks a file as fit for loader `loader`. Files tagged for Fabric
/// also fit Quilt.
pub open spec fn loader_tag_fits(gv: Seq<char>, loader: Seq<char>) -> bool {
    lowercase_of(gv) == loader || (loader == "quilt"@ && lowercase_of(gv) == "fabric"@)
}

/// Whether `f` is tagged with game version `mc` and, when a loader is given, with a
/// tag that fits it.
pub open spec fn file_fits(f: CurseForgeFile, mc: Seq<char>, loader: Option<Seq<char>>) -> bool {
    (exists|i: int| 0 <= i < f.game_versions@.len() && #[trigger] f.game_versions@[i]@ == mc)
        && match loader {
        None => true,
        Some(l) => exists|i: int|
            0 <= i < f.game_versions@.len() && loader_tag_fits(#[trigger] f.game_versions@[i]@, l),
    }
}

/// The indices of the files of `files[..n]` that fit, in order.
pub open spec fn fitting_indices(files: Seq<CurseForgeFile>, mc: Seq<char>, loader: Option<Seq<char>>, n: nat) -> Seq<usize>
    decreases n,
{
    if n == 0 {
        Seq::empty()
    } else {
        let rest = fitting_indices(files, mc, loader, (n - 1) as nat);
        if file_fits(files[n - 1], mc, loader) {
            rest.push((n - 1) as usize)
        } else {
            rest
        }
    }
}

/// The expected digests that a file's hash list gives; a later entry of a format wins.
pub open spec fn cf_hashes(s: Seq<CurseForgeHash>) -> Map<HashFormat, Seq<char>>
    decreases s.len(),
{
    if s.len() == 0 {
        Map::empty()
    } else {
        let rest = cf_hashes(s.drop_last());
        if s.last().algo == 1 {
            rest.insert(HashFormat::Sha1, s.last().value@)
        } else if s.last().algo == 2 {
            rest.insert(HashFormat::Md5, s.last().value@)
        } else {
            rest
        }
    }
}

pub open spec fn opt_view(o: Option<String>) -> Option<Seq<char>> {
    match o {
        Some(s) => Some(s@),
        None => None,
    }
}

fn has_version(f: &CurseForgeFile, mc: &str) -> (r: bool)
    ensures
        r == exists|i: int| 0 <= i < f.game_versions@.len() && #[trigger] f.game_versions@[i]@ == mc@,
{
    let mut i: usize = 0;
    while i < f.game_versions.len()
        invariant
            0 <= i <= f.game_versions@.len(),
            forall|j: int| 0 <= j < i ==> #[trigger] f.game_versions@[j]@ != mc@,
        decreases f.game_versions@.len() - i,
    {
        if str_eq(f.game_versions[i].as_str(), mc) {
            return true;
        }
        i += 1;
    }
    false
}

fn has_loader(f: &CurseForgeFile, loader: &str) -> (r: bool)
    ensures
        r == exists|i: int|
            0 <= i < f.game_versions@.len() && loader_tag_fits(#[trigger] f.game_versions@[i]@, loader@),
{
    let quilt = str_eq(loader, "quilt");
    let mut i: usize = 0;
    while i < f.game_versions.len()
        invariant
            0 <= i <= f.game_versions@.len(),
            quilt == (loader@ == "quilt"@),
            forall|j: int| 0 <= j < i ==> !loader_tag_fits(#[trigger] f.game_versions@[j]@, loader@),
        decreases f.game_versions@.len() - i,
    {
        let lower = to_lowercase(f.game_versions[i].as_str());
        if str_eq(lower.as_str(), loader) || (quilt && str_eq(lower.as_str(), "fabric")) {
            return true;
        }
        i += 1;
    }
    false
}

/// The CurseForge source for one game version and loader.
pub struct CurseForgeAPI {
    pub mc_version: String,
    pub loader: Option<String>,
}

impl CurseForgeAPI {
    /// The API key, or a configuration error when none is set.
    pub fn get_api_key(key: Option<String>) -> (r: Result<String, ResolveError>)
        ensures
            key is None <==> r matches Err(ResolveError::Configuration(_)),
            key matches Some(k) ==> (r matches Ok(s) && s@ == k@),
    {
        match key {
            Some(k) => Ok(k),
            None => Err(
                ResolveError::Configuration(
                    String::from_str("CURSEFORGE_API_KEY environment variable not set."),
                ),
            ),
        }
    }

    /// The address of the page of project `id`'s file list that starts at `index`.
    pub fn files_page_url(id: &str, index: u32) -> (r: String)
        ensures
            r@ == CURSEFORGE_API@ + "/mods/"@ + id@ + "/files?index="@ + decimal(index as nat)
                + "&pageSize="@ + decimal(CURSEFORGE_PAGE_SIZE as nat),
    {
        let mut r = concat3(CURSEFORGE_API, "/mods/", id);
        r.append("/files?index=");
        let i = u64_to_string(index as u64);
        r.append(i.as_str());
        r.append("&pageSize=");
        let p = u64_to_string(CURSEFORGE_PAGE_SIZE as u64);
        r.append(p.as_str());
        r
    }

    /// Whether file `f` fits the game version and loader.
    pub fn fits(&self, f: &CurseForgeFile) -> (r: bool)
        ensures
            r == file_fits(*f, self.mc_version@, opt_view(self.loader)),
    {
        if !has_version(f, self.mc_version.as_str()) {
            return false;
        }
        match &self.loader {
            None => true,
            Some(l) => has_loader(f, l.as_str()),
        }
    }

    /// The indices, in order, of the files that fit the game version and loader.
    pub fn filter_versions(&self, versions: &[CurseForgeFile]) -> (r: Vec<usize>)
        ensures
            r@ == fitting_indices(versions@, self.mc_version@, opt_view(self.loader), versions@.len()),
    {
        let mut r: Vec<usize> = Vec::new();
        let mut i: usize = 0;
        while i < versions.len()
            invariant
                0 <= i <= versions@.len(),
                r@ == fitting_indices(versions@, self.mc_version@, opt_view(self.loader), i as nat),
            decreases versions@.len() - i,
        {
            if self.fits(&versions[i]) {
                r.push(i);
            }
            i += 1;
        }
        r
    }

    /// The index of the first file of `page` that fits.
    pub fn first_fitting(&self, page: &[CurseForgeFile]) -> (r: Option<usize>)
        ensures
            match r {
                Some(i) => i < page@.len() && file_fits(page@[i as int], self.mc_version@, opt_view(self.loader))
                    && forall|j: int| 0 <= j < i ==> !file_fits(#[trigger] page@[j], self.mc_version@, opt_view(self.loader)),
                None => forall|j: int| 0 <= j < page@.len() ==> !file_fits(#[trigger] page@[j], self.mc_version@, opt_view(self.loader)),
            },
    {
        let mut i: usize = 0;
        while i < page.len()
            invariant
                0 <= i <= page@.len(),
                forall|j: int| 0 <= j < i ==> !file_fits(#[trigger] page@[j], self.mc_version@, opt_view(self.loader)),
            decreases page@.len() - i,
        {
            if self.fits(&page[i]) {
                return Some(i);
            }
            i += 1;
        }
        None
    }

    /// The step of the "latest" search after the page at `index` of a listing that
    /// declares `total_count` files: the first fitting file of the page if any,
    /// else the next page, unless the page was short or the declared count is reached.
    pub fn listing_step(index: u32, total_count: u32, page_len: usize, found: Option<usize>) -> (r: PageStep)
        ensures
            r == page_step(index as u64, CURSEFORGE_PAGE_SIZE as u64, total_count as u64, page_len as nat, found),
    {
        next_page_step(index as u64, CURSEFORGE_PAGE_SIZE as u64, total_count as u64, page_len, found)
    }

    /// The error of a "latest" search that found no fitting file: NotFound when the
    /// project listed no file at all, NoCompatibleVersion otherwise.
    pub fn no_match_error(files_seen: usize) -> (r: ResolveError)
        ensures
            files_seen == 0 <==> r is NotFound,
            files_seen > 0 <==> r is NoCompatibleVersion,
    {
        if files_seen == 0 {
            ResolveError::NotFound(String::from_str("No files for CurseForge project"))
        } else {
            ResolveError::NoCompatibleVersion(
                String::from_str("No compatible versions for CurseForge project (version 'latest')"),
            )
        }
    }

    /// The index of the file that "latest" selects: the first that fits. No file at
    /// all is NotFound; files of which none fits are NoCompatibleVersion.
    pub fn select_latest(&self, versions: &[CurseForgeFile]) -> (r: Result<usize, ResolveError>)
        ensures
            versions@.len() == 0 <==> r matches Err(ResolveError::NotFound(_)),
            versions@.len() > 0 && fitting_indices(versions@, self.mc_version@, opt_view(self.loader), versions@.len()).len() == 0
                <==> r matches Err(ResolveError::NoCompatibleVersion(_)),
            r matches Ok(i) ==> i == fitting_indices(versions@, self.mc_version@, opt_view(self.loader), versions@.len())[0],
    {
        if versions.len() == 0 {
            return Err(ResolveError::NotFound(String::from_str("No files for CurseForge project")));
        }
        let kept = self.filter_versions(versions);
        if kept.len() == 0 {
            Err(ResolveError::NoCompatibleVersion(String::from_str("No compatible versions for CurseForge project (version 'latest')")))
        } else {
            Ok(kept[0])
        }
    }

    /// The file id that a version selector names.
    pub fn parse_file_id(version: &str) -> (r: Result<u64, ResolveError>)
        ensures
            parse_bounded(version@, u64::MAX as nat) is None <==> r matches Err(ResolveError::Format(_)),
            r matches Ok(n) ==> parse_bounded(version@, u64::MAX as nat) == Some(n as nat),
    {
        match parse_component(&chars_of(version), 18446744073709551615) {
            Some(n) => Ok(n),
            None => Err(ResolveError::Format(concat2("Invalid CurseForge file ID: ", version))),
        }
    }

    /// The expected digests a hash list gives: SHA-1 and MD5 entries; others are ignored.
    pub fn convert_hashes(hashes: &[CurseForgeHash]) -> (r: Hashes)
        ensures
            r@ == cf_hashes(hashes@),
    {
        let mut r = Hashes::new();
        let mut i: usize = 0;
        while i < hashes.len()
            invariant
                0 <= i <= hashes@.len(),
                r@ == cf_hashes(hashes@.take(i as int)),
            decreases hashes@.len() - i,
        {
            proof {
                assert(hashes@.take(i + 1).drop_last() == hashes@.take(i as int));
            }
            let h = &hashes[i];
            if h.algo == 1 {
                r.insert(HashFormat::Sha1, String::from_str(h.value.as_str()));
            } else if h.algo == 2 {
                r.insert(HashFormat::Md5, String::from_str(h.value.as_str()));
            }
            i += 1;
        }
        proof {
            assert(hashes@.take(hashes@.len() as int) == hashes@);
        }
        r
    }

    /// A file of project `project_id`, cached under "curseforge" as
    /// "{project}/{file id}/{file name}", with its size and digests. A file without a
    /// download address cannot be resolved.
    pub fn resolve_source(project_id: &str, file: &CurseForgeFile) -> (r: Result<ResolvedFile, ResolveError>)
        ensures
            file.download_url is None <==> r matches Err(ResolveError::MissingDownloadUrl(_)),
            r matches Err(ResolveError::MissingDownloadUrl(m)) ==> m@ == "CurseForge file "@
                + decimal(file.id as nat) + " ("@ + file.display_name@
                + ") has no download URL - may require manual download"@,
            r matches Ok(f) ==> {
                &&& file.download_url matches Some(u) && f.url@ == u@
                &&& f.filename@ == file.file_name@
                &&& f.cache matches CacheStrategy::File { namespace, path } && namespace@
                    == "curseforge"@ && path@ == project_id@ + "/"@ + decimal(file.id as nat) + "/"@
                    + file.file_name@
                &&& f.size == Some(file.file_length)
                &&& f.hashes@ == cf_hashes(file.hashes@)
            },
    {
        let url = match &file.download_url {
            Some(u) => String::from_str(u.as_str()),
            None => {
                let id = u64_to_string(file.id);
                let mut m = concat3("CurseForge file ", id.as_str(), " (");
                m.append(file.display_name.as_str());
                m.append(") has no download URL - may require manual download");
                return Err(ResolveError::MissingDownloadUrl(m));
            },
        };
        let id = u64_to_string(file.id);
        let mut path = concat3(project_id, "/", id.as_str());
        path.append("/");
        path.append(file.file_name.as_str());
        Ok(
            ResolvedFile {
                url,
                filename: String::from_str(file.file_name.as_str()),
                cache: CacheStrategy::File { namespace: String::from_str("curseforge"), path },
                size: Some(file.file_length),
                hashes: Self::convert_hashes(file.hashes.as_slice()),
            },
        )
    }
}

} // verus!
