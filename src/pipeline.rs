//! The decisions of a build: what to fetch, when to run an installer, how to
//! handle its output, and how the start scripts launch the server.

use vstd::prelude::*;
use crate::error::ResolveError;
use crate::model::CacheStrategy;
use crate::neoforge::{breakoff_of, NeoforgeAPI};
use crate::servertype::{ServerType, StartupMethod};
use crate::text::{concat2, concat3};
use crate::version::string_views;

verus! {

/// How the bytes of one artifact reach their destination.
#[derive(Debug, Clone, Copy, PartialEq, Eq, Structural)]
pub enum FetchAction {
    /// The destination already holds the artifact: nothing is fetched.
    Skip,
    /// The cache holds the bytes: they are copied into place.
    CopyFromCache,
    /// The bytes are downloaded into the cache, then copied into place.
    DownloadToCache,
    /// The bytes are downloaded straight to the destination.
    DownloadDirect,
}

pub open spec fn fetch_plan(dest_exists: bool, force: bool, cached: bool, cache_hit: bool) -> FetchAction {
    if dest_exists && !force {
        FetchAction::Skip
    } else if cached {
        if cache_hit && !force {
            FetchAction::CopyFromCache
        } else {
            FetchAction::DownloadToCache
        }
    } else {
        FetchAction::DownloadDirect
    }
}

pub open spec fn is_download(a: FetchAction) -> bool {
    a == FetchAction::DownloadToCache || a == FetchAction::DownloadDirect
}

/// Decides how to materialize an artifact: skip when its destination exists (unless
/// forced), reuse cached bytes on a hit (unless forced), else download.
pub fn plan_fetch(dest_exists: bool, force: bool, cache: &CacheStrategy, cache_hit: bool) -> (r:
    FetchAction)
    ensures
        r == fetch_plan(dest_exists, force, cache is File, cache_hit),
{
    if dest_exists && !force {
        FetchAction::Skip
    } else {
        match cache {
            CacheStrategy::File { .. } => {
                if cache_hit && !force {
                    FetchAction::CopyFromCache
                } else {
                    FetchAction::DownloadToCache
                }
            },
            CacheStrategy::NoCache => FetchAction::DownloadDirect,
        }
    }
}

/// A repeated build without force downloads nothing for an artifact whose
/// destination the first build materialized.
pub proof fn lemma_rebuild_downloads_nothing(cached: bool, cache_hit: bool)
    ensures
        fetch_plan(true, false, cached, cache_hit) == FetchAction::Skip,
        !is_download(fetch_plan(true, false, cached, cache_hit)),
{
}

/// With force set, every artifact is downloaded again, whatever is on disk or cached.
pub proof fn lemma_force_downloads_everything(dest_exists: bool, cached: bool, cache_hit: bool)
    ensures
        is_download(fetch_plan(dest_exists, true, cached, cache_hit)),
{
}

/// Whether the installer has to run: its final output is missing, or force is set.
pub fn installer_needed(output_exists: bool, force: bool) -> (r: bool)
    ensures
        r == (!output_exists || force),
{
    !output_exists || force
}

/// What follows a successful installer run for its declared raw output.
#[derive(Debug, Clone, Copy, PartialEq, Eq, Structural)]
pub enum RenameStep {
    /// Nothing is to be renamed.
    Nothing,
    /// Move the raw output to the final name.
    Rename,
    /// The raw output is gone but the final file is there already.
    AlreadyInPlace,
}

/// An installer run that did not produce a usable server.
#[derive(Debug)]
pub enum InstallerError {
    /// The installer exited with a non-zero status.
    Failed(String),
    /// The installer succeeded but its declared output file is missing.
    MissingOutput(String),
}

/// The failure of an installer run, if it exited unsuccessfully; the message names
/// the installer and the command that ran it.
pub fn check_exit(success: bool, name: &str, command: &str) -> (r: Result<(), InstallerError>)
    ensures
        r is Ok <==> success,
        r matches Err(e) ==> (e matches InstallerError::Failed(m) && m@ == name@
            + " exited with non-zero code running '"@ + command@ + "'"@),
{
    if success {
        Ok(())
    } else {
        let mut m = concat3(name, " exited with non-zero code running '", command);
        m.append("'");
        Err(InstallerError::Failed(m))
    }
}

/// The step after a successful run, from whether the raw output and the final file
/// exist; a declared raw output that is missing while the final file is missing too
/// is an error.
pub fn rename_step(rename_from: &Option<String>, from_exists: bool, to_exists: bool) -> (r: Result<
    RenameStep,
    InstallerError,
>)
    ensures
        rename_from is None ==> r == Ok::<RenameStep, InstallerError>(RenameStep::Nothing),
        rename_from is Some && from_exists ==> r == Ok::<RenameStep, InstallerError>(
            RenameStep::Rename,
        ),
        rename_from is Some && !from_exists && to_exists ==> r == Ok::<RenameStep, InstallerError>(
            RenameStep::AlreadyInPlace,
        ),
        rename_from is Some && !from_exists && !to_exists ==> r matches Err(
            InstallerError::MissingOutput(_),
        ),
{
    match rename_from {
        None => Ok(RenameStep::Nothing),
        Some(from) => {
            if from_exists {
                Ok(RenameStep::Rename)
            } else if to_exists {
                Ok(RenameStep::AlreadyInPlace)
            } else {
                Err(
                    InstallerError::MissingOutput(
                        concat3("Installer did not output '", from.as_str(), "'"),
                    ),
                )
            }
        },
    }
}

/// The name of the log file of an installer run with short label `tag`.
pub fn log_file_name(tag: &str) -> (r: String)
    ensures
        r@ == "."@ + tag@ + ".mcman.log"@,
{
    concat3(".", tag, ".mcman.log")
}

/// The first line of an installer's log file.
pub fn log_header(tag: &str, label: &str) -> (r: String)
    ensures
        r@ == "=== mcman "@ + tag@ + " / "@ + label@ + " output ===\n\n"@,
{
    let mut r = concat3("=== mcman ", tag, " / ");
    r.append(label);
    r.append(" output ===\n\n");
    r
}

/// The java arguments that run installer jar `installer_jar` with `args`.
pub fn installer_command(installer_jar: &str, args: &Vec<String>) -> (r: Vec<String>)
    ensures
        string_views(r@) == seq!["-jar"@, installer_jar@] + string_views(args@),
{
    let mut r: Vec<String> = Vec::new();
    r.push(String::from_str("-jar"));
    r.push(String::from_str(installer_jar));
    let ghost base = seq!["-jar"@, installer_jar@];
    proof {
        assert(string_views(r@) =~= base);
        assert(base + string_views(args@.take(0)) =~= base);
    }
    let mut i: usize = 0;
    while i < args.len()
        invariant
            0 <= i <= args@.len(),
            string_views(r@) == base + string_views(args@.take(i as int)),
        decreases args@.len() - i,
    {
        let ghost prev = string_views(r@);
        r.push(String::from_str(args[i].as_str()));
        proof {
            assert(string_views(r@) =~= prev.push(args@[i as int]@));
            assert(string_views(args@.take(i + 1)) =~= string_views(args@.take(i as int)).push(
                args@[i as int]@,
            ));
        }
        i += 1;
    }
    proof {
        assert(args@.take(args@.len() as int) == args@);
    }
    r
}

/// The argument files of the start scripts, for the families that need them.
pub open spec fn startup_files(
    t: ServerType,
    mcver: Seq<char>,
    loader_version: Seq<char>,
    after_breakoff: bool,
) -> Option<(Seq<char>, Seq<char>)> {
    match t {
        ServerType::NeoForge { .. } => if after_breakoff {
            Some(
                (
                    "@libraries/net/neoforged/neoforge/"@ + loader_version + "/win_args.txt"@,
                    "@libraries/net/neoforged/neoforge/"@ + loader_version + "/unix_args.txt"@,
                ),
            )
        } else {
            Some(
                (
                    "@libraries/net/neoforged/forge/"@ + mcver + "-"@ + loader_version
                        + "/win_args.txt"@,
                    "@libraries/net/neoforged/forge/"@ + mcver + "-"@ + loader_version
                        + "/unix_args.txt"@,
                ),
            )
        },
        ServerType::Forge { .. } => Some(
            (
                "@libraries/net/minecraftforge/forge/"@ + mcver + "-"@ + loader_version
                    + "/win_args.txt"@,
                "@libraries/net/minecraftforge/forge/"@ + mcver + "-"@ + loader_version
                    + "/unix_args.txt"@,
            ),
        ),
        _ => None,
    }
}

fn custom(windows: String, linux: String) -> (r: StartupMethod)
    ensures
        r matches StartupMethod::Custom { windows: w, linux: l } && string_views(w@) == seq![
            windows@,
        ] && string_views(l@) == seq![linux@],
{
    let mut w: Vec<String> = Vec::new();
    w.push(windows);
    let mut l: Vec<String> = Vec::new();
    l.push(linux);
    proof {
        assert(string_views(w@) =~= seq![windows@]);
        assert(string_views(l@) =~= seq![linux@]);
    }
    StartupMethod::Custom { windows: w, linux: l }
}

/// How the start scripts launch the server: NeoForge and Forge through their
/// generated argument files, every other family through the server jar.
pub fn get_startup_method(
    server: &ServerType,
    mcver: &str,
    loader_version: &str,
    serverjar_name: &str,
) -> (r: Result<StartupMethod, ResolveError>)
    ensures
        server is NeoForge && breakoff_of(mcver@) is None ==> r matches Err(ResolveError::Format(_)),
        !(server is NeoForge && breakoff_of(mcver@) is None) ==> match startup_files(
            *server,
            mcver@,
            loader_version@,
            breakoff_of(mcver@) == Some(true),
        ) {
            Some((win, unix)) => r matches Ok(StartupMethod::Custom { windows, linux })
                && string_views(windows@) == seq![win] && string_views(linux@) == seq![unix],
            None => r matches Ok(StartupMethod::Jar(j)) && j@ == serverjar_name@,
        },
{
    match server {
        ServerType::NeoForge { .. } => {
            let api = NeoforgeAPI { mc_version: String::from_str(mcver) };
            let after = api.is_after_breakoff()?;
            if after {
                let w = concat3("@libraries/net/neoforged/neoforge/", loader_version, "/win_args.txt");
                let l = concat3("@libraries/net/neoforged/neoforge/", loader_version, "/unix_args.txt");
                Ok(custom(w, l))
            } else {
                let mut w = concat3("@libraries/net/neoforged/forge/", mcver, "-");
                w.append(loader_version);
                w.append("/win_args.txt");
                let mut l = concat3("@libraries/net/neoforged/forge/", mcver, "-");
                l.append(loader_version);
                l.append("/unix_args.txt");
                Ok(custom(w, l))
            }
        },
        ServerType::Forge { .. } => {
            let mut w = concat3("@libraries/net/minecraftforge/forge/", mcver, "-");
            w.append(loader_version);
            w.append("/win_args.txt");
            let mut l = concat3("@libraries/net/minecraftforge/forge/", mcver, "-");
            l.append(loader_version);
            l.append("/unix_args.txt");
            Ok(custom(w, l))
        },
        _ => Ok(StartupMethod::Jar(String::from_str(serverjar_name))),
    }
}

} // verus!
