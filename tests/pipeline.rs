use mcman::model::CacheStrategy;
use mcman::paging::{first_match, next_page_step, PageStep};
use mcman::pipeline::{
    check_exit, get_startup_method, installer_command, installer_needed, log_file_name, log_header,
    plan_fetch, rename_step, FetchAction, InstallerError, RenameStep,
};
use mcman::servertype::{InstallMethod, ServerType, SoftwareType, StartupMethod};
use mcman::task::{entry_path_is_safe, TaskHandle};

fn file_cache() -> CacheStrategy {
    CacheStrategy::File { namespace: "n".into(), path: "p".into() }
}

#[test]
fn second_build_downloads_nothing() {
    assert_eq!(plan_fetch(true, false, &file_cache(), true), FetchAction::Skip);
    assert_eq!(plan_fetch(true, false, &CacheStrategy::NoCache, false), FetchAction::Skip);
}

#[test]
fn force_downloads_everything() {
    assert_eq!(plan_fetch(true, true, &file_cache(), true), FetchAction::DownloadToCache);
    assert_eq!(plan_fetch(true, true, &CacheStrategy::NoCache, false), FetchAction::DownloadDirect);
    assert!(installer_needed(true, true));
}

#[test]
fn cache_hit_is_copied() {
    assert_eq!(plan_fetch(false, false, &file_cache(), true), FetchAction::CopyFromCache);
    assert_eq!(plan_fetch(false, false, &file_cache(), false), FetchAction::DownloadToCache);
    assert_eq!(plan_fetch(false, false, &CacheStrategy::NoCache, true), FetchAction::DownloadDirect);
}

#[test]
fn paged_search_stops_at_the_match() {
    let pages: Vec<Vec<bool>> = vec![vec![false, false], vec![false, true], vec![true, false]];
    let limit = 2u64;
    let mut offset = 0u64;
    let mut requests = 0;
    let found = loop {
        let page = &pages[(offset / limit) as usize];
        requests += 1;
        match next_page_step(offset, limit, 6, page.len(), first_match(page)) {
            PageStep::Found(i) => break Some(((offset / limit) as usize, i)),
            PageStep::Next(n) => offset = n,
            PageStep::Exhausted => break None,
        }
    };
    assert_eq!(found, Some((1, 1)));
    assert_eq!(requests, 2);
}

#[test]
fn short_page_ends_the_search() {
    assert_eq!(next_page_step(25, 25, 100, 3, None), PageStep::Exhausted);
    assert_eq!(next_page_step(25, 25, 100, 25, None), PageStep::Next(50));
    assert_eq!(next_page_step(u64::MAX, 25, u64::MAX, 25, None), PageStep::Exhausted);
}

#[test]
fn declared_count_ends_the_search() {
    assert_eq!(next_page_step(0, 25, 25, 25, None), PageStep::Exhausted);
    assert_eq!(next_page_step(0, 25, 26, 25, None), PageStep::Next(25));
    assert_eq!(next_page_step(0, 25, 25, 25, Some(3)), PageStep::Found(3));
}

#[test]
fn installer_outcomes() {
    assert!(!installer_needed(true, false));
    assert!(installer_needed(false, false));
    assert!(check_exit(true, "x", "java -jar i.jar").is_ok());
    match check_exit(false, "Forge Installer", "java -jar i.jar") {
        Err(InstallerError::Failed(m)) => {
            assert_eq!(m, "Forge Installer exited with non-zero code running 'java -jar i.jar'")
        }
        _ => panic!("expected a failure"),
    }
    let from = Some("server.jar".to_string());
    assert_eq!(rename_step(&from, true, false).unwrap(), RenameStep::Rename);
    assert_eq!(rename_step(&from, false, true).unwrap(), RenameStep::AlreadyInPlace);
    assert!(matches!(rename_step(&from, false, false), Err(InstallerError::MissingOutput(_))));
    assert_eq!(rename_step(&None, false, false).unwrap(), RenameStep::Nothing);
    assert_eq!(log_file_name("qsi"), ".qsi.mcman.log");
    assert_eq!(log_header("bt", "BuildTools"), "=== mcman bt / BuildTools output ===\n\n");
    assert_eq!(
        installer_command("i.jar", &vec!["--installServer".into(), ".".into()]),
        vec!["-jar", "i.jar", "--installServer", "."]
    );
}

#[test]
fn install_methods() {
    let quilt = ServerType::Quilt { loader: "latest".into(), installer: "latest".into() };
    match quilt.get_install_method("1.20.1", "0.19.2").unwrap() {
        InstallMethod::Installer { label, args, rename_from, jar_name, .. } => {
            assert_eq!(label, "qsi");
            assert_eq!(args, vec!["install", "server", "1.20.1", "0.19.2", "--install-dir=.", "--download-server"]);
            assert_eq!(rename_from.as_deref(), Some("quilt-server-launch.jar"));
            assert_eq!(jar_name, "quilt-server-launch-1.20.1-0.19.2.jar");
        }
        _ => panic!("expected an installer"),
    }
    let pinned = ServerType::Quilt { loader: "0.19.2".into(), installer: "latest".into() };
    match pinned.get_install_method("1.20.1", "0.19.2").unwrap() {
        InstallMethod::Installer { args, .. } => assert_eq!(args[3], "0.19.2"),
        _ => panic!("expected an installer"),
    }
    let bt = ServerType::BuildTools { software: "craftbukkit".into(), args: vec!["--x".into()] };
    match bt.get_install_method("1.20.4", "").unwrap() {
        InstallMethod::Installer { args, jar_name, .. } => {
            assert_eq!(args, vec!["--compile", "craftbukkit", "--compile-if-changed", "--rev", "1.20.4", "--x"]);
            assert_eq!(jar_name, "craftbukkit-1.20.4.jar");
        }
        _ => panic!("expected an installer"),
    }
    let forge = ServerType::Forge { loader: "latest".into() };
    match forge.get_install_method("1.20.1", "47.2.0").unwrap() {
        InstallMethod::Installer { jar_name, rename_from, .. } => {
            assert_eq!(jar_name, "libraries/net/minecraftforge/forge/1.20.1-47.2.0/forge-1.20.1-47.2.0-server.jar");
            assert!(rename_from.is_none());
        }
        _ => panic!("expected an installer"),
    }
    let neo = ServerType::NeoForge { loader: "latest".into() };
    match neo.get_install_method("1.20.1", "47.1.7").unwrap() {
        InstallMethod::Installer { jar_name, .. } => {
            assert_eq!(jar_name, "libraries/net/neoforged/forge/1.20.1-47.1.7/forge-1.20.1-47.1.7-server.jar")
        }
        _ => panic!("expected an installer"),
    }
    match neo.get_install_method("1.20.2", "20.2.86").unwrap() {
        InstallMethod::Installer { jar_name, .. } => {
            assert_eq!(jar_name, "libraries/net/neoforged/neoforge/20.2.86/neoforge-20.2.86-server.jar")
        }
        _ => panic!("expected an installer"),
    }
    assert!(neo.get_install_method("1.21", "21.0.1").is_err());
    let beta = ServerType::Quilt { loader: "latest-beta".into(), installer: "latest".into() };
    match beta.get_install_method("1.20.1", "0.20.0-beta.9").unwrap() {
        InstallMethod::Installer { args, jar_name, .. } => {
            assert!(args.iter().all(|a| !a.contains("latest")));
            assert!(!jar_name.contains("latest"));
        }
        _ => panic!("expected an installer"),
    }
    assert!(matches!(ServerType::Paper {}.get_install_method("1.20.1", ""), Ok(InstallMethod::SingleJar)));
}

#[test]
fn software_kinds() {
    let velocity = ServerType::PaperMC { project: "velocity".into(), build: "latest".into() };
    assert_eq!(velocity.get_software_type(), SoftwareType::Proxy);
    assert_eq!(velocity.get_modrinth_name(), Some("velocity".to_string()));
    let fabric = ServerType::Fabric { loader: "latest".into(), installer: "latest".into() };
    assert!(fabric.is_modded());
    assert!(!fabric.supports_eula_args());
    assert!(!ServerType::Vanilla {}.supports_eula_args());
    assert!(ServerType::Paper {}.supports_eula_args());
    assert_eq!(ServerType::Vanilla {}.get_modrinth_name(), None);
}

#[test]
fn startup_methods() {
    let neo = ServerType::NeoForge { loader: "latest".into() };
    match get_startup_method(&neo, "1.20.1", "47.1.7", "server.jar").unwrap() {
        StartupMethod::Custom { windows, linux } => {
            assert_eq!(windows, vec!["@libraries/net/neoforged/forge/1.20.1-47.1.7/win_args.txt"]);
            assert_eq!(linux, vec!["@libraries/net/neoforged/forge/1.20.1-47.1.7/unix_args.txt"]);
        }
        _ => panic!("expected argument files"),
    }
    match get_startup_method(&neo, "1.20.2", "20.2.86", "server.jar").unwrap() {
        StartupMethod::Custom { linux, .. } => {
            assert_eq!(linux, vec!["@libraries/net/neoforged/neoforge/20.2.86/unix_args.txt"]);
        }
        _ => panic!("expected argument files"),
    }
    match get_startup_method(&ServerType::Paper {}, "1.20.1", "", "paper.jar").unwrap() {
        StartupMethod::Jar(j) => assert_eq!(j, "paper.jar"),
        _ => panic!("expected a jar"),
    }
}

#[test]
fn archive_entries_stay_inside() {
    assert!(entry_path_is_safe("a/b/c.txt"));
    assert!(entry_path_is_safe("a/../b.txt"));
    assert!(entry_path_is_safe("./a"));
    assert!(!entry_path_is_safe("../evil"));
    assert!(!entry_path_is_safe("a/../../evil"));
    assert!(!entry_path_is_safe("/etc/passwd"));
    assert!(!entry_path_is_safe("..\\evil"));
    assert!(!entry_path_is_safe("C:/evil"));
}

#[test]
fn task_handle_keeps_last_message() {
    let mut h = TaskHandle::new();
    h.set_message("one");
    h.set_message("two");
    assert_eq!(h.message, "two");
}
