//! The Quilt loader: an installer from Maven, and its loader version list.

use vstd::prelude::*;
use crate::error::ResolveError;
use crate::model::Downloadable;
use crate::text::has_infix;
use crate::text::{chars_of, str_eq};
use crate::version::is_latest_sentinel;

verus! {

pub const QUILT_META_URL: &'static str = "https://meta.quiltmc.org";
pub const QUILT_MAVEN_URL: &'static str = "https://maven.quiltmc.org/repository/release";
pub const QUILT_MAVEN_GROUP: &'static str = "org.quiltmc";
pub const QUILT_MAVEN_ARTIFACT: &'static str = "quilt-installer";
pub const QUILT_MAVEN_FILE: &'static str = "${artifact}-${version}.jar";

/// One entry of the loader version list, newest first.
#[derive(Debug)]
pub struct QuiltLoader {
    pub separator: String,
    pub build: u64,
    pub maven: String,
    pub version: String,
}

/// The Quilt source.
pub struct QuiltAPI {}

impl QuiltAPI {
    /// The Maven coordinates of the installer at `version`.
    pub fn resolve_installer(version: &str) -> (r: Downloadable)
        ensures
            r matches Downloadable::Maven { url, group, artifact, version: v, filename } && url@
                == QUILT_MAVEN_URL@ && group@ == QUILT_MAVEN_GROUP@ && artifact@
                == QUILT_MAVEN_ARTIFACT@ && v@ == version@ && filename@ == QUILT_MAVEN_FILE@,
    {
        Downloadable::Maven {
            url: String::from_str(QUILT_MAVEN_URL),
            group: String::from_str(QUILT_MAVEN_GROUP),
            artifact: String::from_str(QUILT_MAVEN_ARTIFACT),
            version: String::from_str(version),
            filename: String::from_str(QUILT_MAVEN_FILE),
        }
    }
}

/// Whether a loader selector asks for the newest version, stable or beta.
pub fn needs_loader_list(loader: &str) -> (r: bool)
    ensures
        r == (is_latest_sentinel(loader@) || loader@ == "latest-beta"@),
{
    str_eq(loader, "latest") || str_eq(loader, "latest-beta")
}

/// The concrete loader version for a selector: "latest" is the first listed version
/// that is not a beta, "latest-beta" the first listed version, anything else itself.
pub fn map_quilt_loader_version(loader: &str, loaders: &[QuiltLoader]) -> (r: Result<
    String,
    ResolveError,
>)
    ensures
        !(is_latest_sentinel(loader@) || loader@ == "latest-beta"@) ==> (r matches Ok(s) && s@
            == loader@),
        loader@ == "latest-beta"@ ==> (loaders@.len() == 0 <==> r is Err),
        loader@ == "latest-beta"@ && loaders@.len() > 0 ==> (r matches Ok(s) && s@
            == loaders@[0].version@),
        is_latest_sentinel(loader@) ==> ((forall|i: int|
            0 <= i < loaders@.len() ==> has_infix(#[trigger] loaders@[i].version@, "beta"@))
            <==> r is Err),
        is_latest_sentinel(loader@) ==> (r matches Ok(s) ==> exists|i: int|
            0 <= i < loaders@.len() && s@ == loaders@[i].version@ && !has_infix(
                loaders@[i].version@,
                "beta"@,
            ) && forall|j: int|
                0 <= j < i ==> has_infix(#[trigger] loaders@[j].version@, "beta"@)),
{
    if str_eq(loader, "latest") {
        proof {
            reveal_strlit("latest");
            reveal_strlit("latest-beta");
            assert("latest"@ =~= seq!['l', 'a', 't', 'e', 's', 't']);
            assert("latest-beta"@[6] == '-');
            assert("latest"@ != "latest-beta"@);
        }
        let mut i: usize = 0;
        while i < loaders.len()
            invariant
                0 <= i <= loaders@.len(),
                loader@ == "latest"@,
                "latest"@ != "latest-beta"@,
                forall|j: int| 0 <= j < i ==> has_infix(#[trigger] loaders@[j].version@, "beta"@),
            decreases loaders@.len() - i,
        {
            let v = chars_of(loaders[i].version.as_str());
            if !crate::neoforge::has_beta_chars(&v) {
                return Ok(String::from_str(loaders[i].version.as_str()));
            }
            i += 1;
        }
        Err(ResolveError::NotFound(String::from_str("cant find latest loader version - None")))
    } else if str_eq(loader, "latest-beta") {
        if loaders.len() == 0 {
            Err(ResolveError::NotFound(String::from_str("cant find latest loader version - None")))
        } else {
            Ok(String::from_str(loaders[0].version.as_str()))
        }
    } else {
        Ok(String::from_str(loader))
    }
}

} // verus!
