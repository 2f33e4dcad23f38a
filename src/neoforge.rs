//! The NeoForge loader: its two artifact layouts and its version list.

use vstd::prelude::*;
use crate::error::ResolveError;
use crate::model::Downloadable;
use crate::text::{has_infix, before_first, chars_before_first, chars_of, concat2, concat3, contains_char, string_from_chars};
use crate::version::{get_latest_semver, is_default_str, is_latest_at, is_latest_sentinel, string_views};

verus! {

/// The major, minor and patch numbers of a semantic version, and whether it has no
/// pre-release part; None when the text is not a semantic version.
pub uninterp spec fn semver_of(s: Seq<char>) -> Option<(u64, u64, u64, bool)>;

/// Relies on semver::Version::parse: the numbers of the version, and whether its
/// pre-release part is empty.
#[verifier::external_body]
fn parse_semver(s: &str) -> (r: Option<(u64, u64, u64, bool)>)
    ensures
        r == semver_of(s@),
{
    match semver::Version::parse(s) {
        Ok(v) => Some((v.major, v.minor, v.patch, v.pre.is_empty())),
        Err(_) => None,
    }
}

/// Whether a parsed version is at or above 1.20.2, the first game version whose
/// loader uses the new artifact layout. A pre-release of 1.20.2 is below it.
pub open spec fn at_or_after_breakoff(v: (u64, u64, u64, bool)) -> bool {
    v.0 > 1 || (v.0 == 1 && (v.1 > 20 || (v.1 == 20 && (v.2 > 2 || (v.2 == 2 && v.3)))))
}

pub const NEOFORGE_MAVEN: &'static str = "https://maven.neoforged.net/releases";
pub const NEOFORGE_GROUP: &'static str = "net.neoforged";
pub const NEOFORGE_OLD_ARTIFACT: &'static str = "forge";
pub const NEOFORGE_NEW_ARTIFACT: &'static str = "neoforge";
pub const NEOFORGE_FILENAME: &'static str = "${artifact}-${version}-installer.jar";

/// Whether the game version `mc` uses the new layout; None when it does not parse.
pub open spec fn breakoff_of(mc: Seq<char>) -> Option<bool> {
    match semver_of(mc) {
        Some(v) => Some(at_or_after_breakoff(v)),
        None => None,
    }
}

/// The artifact name for a side of the breakoff.
pub open spec fn artifact_for(after: bool) -> Seq<char> {
    if after {
        "neoforge"@
    } else {
        "forge"@
    }
}

/// The Maven version of a loader: the bare loader version from the breakoff on,
/// "{game}-{loader}" before it.
pub open spec fn maven_version_for(after: bool, mc: Seq<char>, loader: Seq<char>) -> Seq<char> {
    if after {
        loader
    } else {
        mc + "-"@ + loader
    }
}

/// `s` without a leading "1.", if it has one.
pub open spec fn trim_major(s: Seq<char>) -> Seq<char> {
    if s.len() >= 2 && s.take(2) == "1."@ {
        s.skip(2)
    } else {
        s
    }
}

/// The loader versions in a Maven version list that fit the game version `mc`.
/// From the breakoff on, entries look like "21.3.93": the non-beta ones that begin
/// with `mc` less its leading "1." are kept. Before it, entries look like
/// "1.20.1-47.1.7": the loader part of those whose game part is `mc` is kept.
pub open spec fn fitting_versions(after: bool, mc: Seq<char>, list: Seq<Seq<char>>) -> Seq<
    Seq<char>,
>
    decreases list.len(),
{
    if list.len() == 0 {
        Seq::empty()
    } else {
        let rest = fitting_versions(after, mc, list.drop_last());
        let v = list.last();
        if after {
            if !has_infix(v, "beta"@) && trim_major(mc).len() <= v.len() && v.take(
                trim_major(mc).len() as int,
            ) == trim_major(mc) {
                rest.push(v)
            } else {
                rest
            }
        } else {
            if v.contains('-') && before_first(v, '-') == mc {
                rest.push(v.skip(before_first(v, '-').len() as int + 1))
            } else {
                rest
            }
        }
    }
}

fn starts_with(s: &Vec<char>, p: &Vec<char>) -> (r: bool)
    ensures
        r == (p@.len() <= s@.len() && s@.take(p@.len() as int) == p@),
{
    if p.len() > s.len() {
        return false;
    }
    let mut i: usize = 0;
    while i < p.len()
        invariant
            0 <= i <= p@.len(),
            p@.len() <= s@.len(),
            forall|j: int| 0 <= j < i ==> s@[j] == p@[j],
        decreases p@.len() - i,
    {
        if s[i] != p[i] {
            assert(s@.take(p@.len() as int)[i as int] != p@[i as int]);
            return false;
        }
        i += 1;
    }
    assert(s@.take(p@.len() as int) =~= p@);
    true
}

pub fn has_beta_chars(s: &Vec<char>) -> (r: bool)
    ensures
        r == has_infix(s@, "beta"@),
{
    proof {
        reveal_strlit("beta");
        assert("beta"@ =~= seq!['b', 'e', 't', 'a']);
    }
    if s.len() < 4 {
        return false;
    }
    let mut i: usize = 0;
    while i < s.len() - 3
        invariant
            0 <= i <= s@.len() - 3,
            s@.len() >= 4,
            "beta"@ == seq!['b', 'e', 't', 'a'],
            forall|j: int| 0 <= j < i && j + 4 <= s@.len() ==> #[trigger] s@.subrange(j, j + 4) != "beta"@,
        decreases s@.len() - i,
    {
        if s[i] == 'b' && s[i + 1] == 'e' && s[i + 2] == 't' && s[i + 3] == 'a' {
            assert(s@.subrange(i as int, i + 4) =~= "beta"@);
            return true;
        }
        assert(s@.subrange(i as int, i + 4)[0] == s@[i as int]);
        assert(s@.subrange(i as int, i + 4)[1] == s@[i + 1]);
        assert(s@.subrange(i as int, i + 4)[2] == s@[i + 2]);
        assert(s@.subrange(i as int, i + 4)[3] == s@[i + 3]);
        i += 1;
    }
    false
}

fn tail_after(s: &Vec<char>, k: usize) -> (r: Vec<char>)
    requires
        k <= s@.len(),
    ensures
        r@ == s@.skip(k as int),
{
    let mut r: Vec<char> = Vec::new();
    let mut i: usize = k;
    while i < s.len()
        invariant
            k <= i <= s@.len(),
            r@ == s@.subrange(k as int, i as int),
        decreases s@.len() - i,
    {
        r.push(s[i]);
        proof {
            assert(s@.subrange(k as int, i + 1) == s@.subrange(k as int, i as int).push(s@[i as int]));
        }
        i += 1;
    }
    r
}

proof fn lemma_before_first_len(s: Seq<char>, c: char)
    ensures
        before_first(s, c).len() <= s.len(),
        s.contains(c) ==> before_first(s, c).len() < s.len() && s[before_first(s, c).len() as int] == c,
        before_first(s, c) == s.take(before_first(s, c).len() as int),
    decreases s.len(),
{
    if s.len() > 0 {
        lemma_before_first_len(s.skip(1), c);
        if s[0] != c {
            if s.contains(c) {
                let i = choose|i: int| 0 <= i < s.len() && s[i] == c;
                assert(s.skip(1)[i - 1] == c);
            }
            assert(seq![s[0]] + s.skip(1).take(before_first(s.skip(1), c).len() as int) =~= s.take(
                before_first(s, c).len() as int,
            ));
        } else {
            assert(s.take(0) =~= Seq::<char>::empty());
        }
    } else {
        assert(s.take(0) =~= Seq::<char>::empty());
    }
}

/// The NeoForge loader for one game version.
pub struct NeoforgeAPI {
    pub mc_version: String,
}

impl NeoforgeAPI {
    /// Whether the game version uses the new artifact layout.
    pub fn is_after_breakoff(&self) -> (r: Result<bool, ResolveError>)
        ensures
            match breakoff_of(self.mc_version@) {
                Some(b) => r == Ok::<bool, ResolveError>(b),
                None => r matches Err(ResolveError::Format(_)),
            },
    {
        match parse_semver(self.mc_version.as_str()) {
            Some(v) => {
                let (major, minor, patch, release) = v;
                Ok(major > 1 || (major == 1 && (minor > 20 || (minor == 20 && (patch > 2 || (patch
                    == 2 && release))))))
            },
            None => Err(
                ResolveError::Format(
                    concat3("Parsing mc version '", self.mc_version.as_str(), "' to determine neoforge version"),
                ),
            ),
        }
    }

    /// The Maven artifact name for the game version.
    pub fn get_artifact_id(&self) -> (r: Result<&'static str, ResolveError>)
        ensures
            match breakoff_of(self.mc_version@) {
                Some(b) => r matches Ok(a) && a@ == artifact_for(b),
                None => r matches Err(ResolveError::Format(_)),
            },
    {
        if self.is_after_breakoff()? {
            Ok(NEOFORGE_NEW_ARTIFACT)
        } else {
            Ok(NEOFORGE_OLD_ARTIFACT)
        }
    }

    /// The loader versions for the game version, out of the Maven version list of
    /// the artifact.
    pub fn fetch_versions(&self, maven_versions: &[String]) -> (r: Result<Vec<String>, ResolveError>)
        ensures
            match breakoff_of(self.mc_version@) {
                Some(b) => r matches Ok(v) && string_views(v@) == fitting_versions(
                    b,
                    self.mc_version@,
                    string_views(maven_versions@),
                ),
                None => r matches Err(ResolveError::Format(_)),
            },
    {
        let after = self.is_after_breakoff()?;
        let mc = chars_of(self.mc_version.as_str());
        proof {
            reveal_strlit("1.");
        }
        let one_dot = chars_of("1.");
        let trimmed = if starts_with(&mc, &one_dot) {
            tail_after(&mc, 2)
        } else {
            mc.clone()
        };
        proof {
            reveal_strlit("1.");
            assert(trimmed@ == trim_major(mc@));
        }
        let ghost all = string_views(maven_versions@);
        let mut out: Vec<String> = Vec::new();
        let mut i: usize = 0;
        while i < maven_versions.len()
            invariant
                0 <= i <= maven_versions@.len(),
                all == string_views(maven_versions@),
                mc@ == self.mc_version@,
                trimmed@ == trim_major(mc@),
                breakoff_of(self.mc_version@) == Some(after),
                string_views(out@) == fitting_versions(after, mc@, all.take(i as int)),
            decreases maven_versions@.len() - i,
        {
            let v = chars_of(maven_versions[i].as_str());
            let ghost prev = string_views(out@);
            proof {
                assert(all.take(i + 1).drop_last() == all.take(i as int));
                assert(all.take(i + 1).last() == v@);
            }
            if after {
                if !has_beta_chars(&v) && starts_with(&v, &trimmed) {
                    out.push(string_from_chars(v.as_slice()));
                    proof {
                        assert(string_views(out@) =~= prev.push(v@));
                    }
                }
            } else {
                if contains_char(maven_versions[i].as_str(), '-') {
                    let game = chars_before_first(&v, '-');
                    proof {
                        assert(v@.contains('-'));
                        lemma_before_first_len(v@, '-');
                        assert(game@.len() < v@.len());
                    }
                    if game.len() == mc.len() && starts_with(&game, &mc) {
                        proof {
                            assert(game@ =~= mc@);
                        }
                        assert(game.len() < v.len());
                        let loader = tail_after(&v, game.len() + 1);
                        out.push(string_from_chars(loader.as_slice()));
                        proof {
                            assert(string_views(out@) =~= prev.push(v@.skip(game@.len() as int + 1)));
                        }
                    } else {
                        proof {
                            if game@ == mc@ {
                                assert(game@.take(mc@.len() as int) =~= game@);
                            }
                        }
                    }
                }
            }
            i += 1;
        }
        proof {
            assert(all.take(maven_versions@.len() as int) == all);
        }
        Ok(out)
    }

    /// Whether a loader selector needs the version list: "latest" or empty.
    pub fn needs_lookup(loader: &str) -> (r: bool)
        ensures
            r == (is_latest_sentinel(loader@) || loader@.len() == 0),
    {
        is_default_str(loader) || loader.unicode_len() == 0
    }

    /// The concrete loader version: the selector itself, or for "latest" or an empty
    /// selector the newest of `available` (the fitting versions).
    pub fn resolve_version(loader: &str, available: &[String]) -> (r: Result<String, ResolveError>)
        ensures
            !(is_latest_sentinel(loader@) || loader@.len() == 0) ==> (r matches Ok(s) && s@
                == loader@),
            (is_latest_sentinel(loader@) || loader@.len() == 0) ==> (available@.len() == 0
                <==> r matches Err(ResolveError::NoCompatibleVersion(_))),
            (is_latest_sentinel(loader@) || loader@.len() == 0) && available@.len() > 0 ==> exists|b: int|
                is_latest_at(string_views(available@), b) && (r matches Ok(s) && s@ == available@[b]@),
    {
        if Self::needs_lookup(loader) {
            match get_latest_semver(available) {
                Some(v) => Ok(v),
                None => Err(ResolveError::NoCompatibleVersion(String::from_str("No NeoForge loader versions for the game version"))),
            }
        } else {
            Ok(String::from_str(loader))
        }
    }

    /// The Maven coordinates of the installer for the concrete loader version.
    pub fn resolve_source(&self, loader_version: &str) -> (r: Result<Downloadable, ResolveError>)
        ensures
            match breakoff_of(self.mc_version@) {
                Some(b) => r matches Ok(Downloadable::Maven { url, group, artifact, version, filename })
                    && url@ == NEOFORGE_MAVEN@ && group@ == NEOFORGE_GROUP@ && artifact@
                    == artifact_for(b) && version@ == maven_version_for(
                    b,
                    self.mc_version@,
                    loader_version@,
                ) && filename@ == NEOFORGE_FILENAME@,
                None => r matches Err(ResolveError::Format(_)),
            },
    {
        let after = self.is_after_breakoff()?;
        let version = if after {
            String::from_str(loader_version)
        } else {
            concat3(self.mc_version.as_str(), "-", loader_version)
        };
        let artifact = if after {
            NEOFORGE_NEW_ARTIFACT
        } else {
            NEOFORGE_OLD_ARTIFACT
        };
        Ok(
            Downloadable::Maven {
                url: String::from_str(NEOFORGE_MAVEN),
                group: String::from_str(NEOFORGE_GROUP),
                artifact: String::from_str(artifact),
                version,
                filename: String::from_str(NEOFORGE_FILENAME),
            },
        )
    }
}

/// The breakoff rule: below 1.20.2 the legacy artifact and "{game}-{loader}" are
/// used, from 1.20.2 on the new artifact and the bare loader version.
pub proof fn lemma_breakoff_rule(mc: Seq<char>, loader: Seq<char>)
    requires
        semver_of(mc) is Some,
    ensures
        semver_of(mc) == Some((1u64, 20u64, 1u64, true)) ==> artifact_for(breakoff_of(mc)->Some_0)
            == "forge"@ && maven_version_for(breakoff_of(mc)->Some_0, mc, loader) == mc + "-"@
            + loader,
        semver_of(mc) == Some((1u64, 20u64, 2u64, true)) ==> artifact_for(breakoff_of(mc)->Some_0)
            == "neoforge"@ && maven_version_for(breakoff_of(mc)->Some_0, mc, loader) == loader,
{
}

} // verus!
