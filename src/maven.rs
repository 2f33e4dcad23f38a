//! Maven-layout repositories: where an artifact's files and metadata live.

use vstd::prelude::*;
use crate::error::ResolveError;
use crate::hash::Hashes;
use crate::model::{folder_for_url, url_to_folder, CacheStrategy, ResolvedFile};
use crate::template::{dollar_repl, pair_views, substitute};
use crate::text::{concat3, replace_all, replace_str, str_eq};
use crate::version::is_latest_sentinel;

verus! {

/// The directory of a group: its dots turned into '/'.
pub open spec fn group_path(group: Seq<char>) -> Seq<char> {
    replace_all(group, "."@, "/"@)
}

/// The file name a template gives, with "${artifact}" and "${version}" filled in.
pub open spec fn maven_file_name(artifact: Seq<char>, version: Seq<char>, template: Seq<char>) -> Seq<char> {
    substitute(template, seq![("artifact"@, artifact), ("version"@, version)])
}

/// The directory of an artifact under a repository.
pub open spec fn artifact_dir(url: Seq<char>, group: Seq<char>, artifact: Seq<char>) -> Seq<char> {
    url + "/"@ + group_path(group) + "/"@ + artifact
}

/// A Maven repository.
pub struct MavenAPI {}

impl MavenAPI {
    /// The address of an artifact's metadata file, which lists its versions.
    pub fn metadata_url(url: &str, group: &str, artifact: &str) -> (r: String)
        ensures
            r@ == artifact_dir(url@, group@, artifact@) + "/maven-metadata.xml"@,
    {
        let g = replace_str(group, ".", "/");
        let mut r = concat3(url, "/", g.as_str());
        r.append("/");
        r.append(artifact);
        r.append("/maven-metadata.xml");
        r
    }

    /// The version a selector names: "latest" and "release" take the metadata's
    /// pointers; anything else is itself. A missing pointer is NotFound.
    pub fn select_version(
        selector: &str,
        latest: &Option<String>,
        release: &Option<String>,
    ) -> (r: Result<String, ResolveError>)
        ensures
            is_latest_sentinel(selector@) ==> match latest {
                Some(l) => r matches Ok(s) && s@ == l@,
                None => r matches Err(ResolveError::NotFound(_)),
            },
            selector@ == "release"@ ==> match release {
                Some(l) => r matches Ok(s) && s@ == l@,
                None => r matches Err(ResolveError::NotFound(_)),
            },
            !is_latest_sentinel(selector@) && selector@ != "release"@ ==> (r matches Ok(s) && s@
                == selector@),
    {
        proof {
            reveal_strlit("latest");
            reveal_strlit("release");
            assert("latest"@[0] != "release"@[0]);
        }
        let pick = if str_eq(selector, "latest") {
            latest
        } else if str_eq(selector, "release") {
            release
        } else {
            return Ok(String::from_str(selector));
        };
        match pick {
            Some(v) => Ok(String::from_str(v.as_str())),
            None => Err(ResolveError::NotFound(concat3("No '", selector, "' version in the Maven metadata"))),
        }
    }

    /// A file of an artifact at a concrete version, cached under the repository's
    /// folder name as "{group path}/{artifact}/{version}/{file name}".
    pub fn resolve_source(url: &str, group: &str, artifact: &str, version: &str, filename: &str) -> (r:
        ResolvedFile)
        ensures
            ({
                let name = maven_file_name(artifact@, version@, filename@);
                let rel = group_path(group@) + "/"@ + artifact@ + "/"@ + version@ + "/"@ + name;
                &&& r.url@ == url@ + "/"@ + rel
                &&& r.filename@ == name
                &&& r.cache matches CacheStrategy::File { namespace, path } && namespace@
                    == folder_for_url(url@) && path@ == rel
                &&& r.size is None
                &&& r.hashes@ == Map::<crate::hash::HashFormat, Seq<char>>::empty()
            }),
    {
        let mut vars: Vec<(String, String)> = Vec::new();
        vars.push((String::from_str("artifact"), String::from_str(artifact)));
        vars.push((String::from_str("version"), String::from_str(version)));
        proof {
            assert(pair_views(vars@) =~= seq![("artifact"@, artifact@), ("version"@, version@)]);
        }
        let name = dollar_repl(filename, vars.as_slice());
        let g = replace_str(group, ".", "/");
        let mut rel = concat3(g.as_str(), "/", artifact);
        rel.append("/");
        rel.append(version);
        rel.append("/");
        rel.append(name.as_str());
        let full = concat3(url, "/", rel.as_str());
        ResolvedFile {
            url: full,
            filename: name,
            cache: CacheStrategy::File { namespace: url_to_folder(url), path: rel },
            size: None,
            hashes: Hashes::new(),
        }
    }
}

} // verus!
