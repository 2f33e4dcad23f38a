use mcman::curseforge::{CurseForgeAPI, CurseForgeFile, CurseForgeHash};
use mcman::error::ResolveError;
use mcman::fabric::{FabricAPI, FabricInstaller, FabricLoader};
use mcman::github::{GitHubAPI, GithubAsset, GithubRelease};
use mcman::hash::HashFormat;
use mcman::hangar::{
    find_version, FileInfo, HangarAPI, PinnedStatus, Platform, PlatformVersionDownload,
    ProjectVersion, ReviewState, VersionQuery, Visibility,
};
use mcman::maven::MavenAPI;
use mcman::model::{filename_from_url, url_to_folder, CacheStrategy, Downloadable};
use mcman::neoforge::NeoforgeAPI;
use mcman::paging::PageStep;
use mcman::papermc::{PaperChannel, PaperDownload, PaperMCAPI, PaperVersionBuild};
use mcman::quilt::{map_quilt_loader_version, QuiltAPI, QuiltLoader};
use mcman::servertype::ServerType;
use mcman::vanilla::{
    DownloadType, LatestVersions, PistonFile, VanillaAPI, VersionIndex, VersionInfo,
    VersionJavaInfo, VersionManifest, VersionType,
};

fn strings(v: &[&str]) -> Vec<String> {
    v.iter().map(|s| s.to_string()).collect()
}

fn cache_path(c: &CacheStrategy) -> (String, String) {
    match c {
        CacheStrategy::File { namespace, path } => (namespace.clone(), path.clone()),
        CacheStrategy::NoCache => panic!("expected a cache entry"),
    }
}

fn loader(v: &str) -> FabricLoader {
    FabricLoader { separator: ".".into(), build: 1, maven: "m".into(), version: v.into(), stable: true }
}

fn installer(v: &str) -> FabricInstaller {
    FabricInstaller { url: "u".into(), maven: "m".into(), version: v.into(), stable: true }
}

#[test]
fn concrete_resolution_is_deterministic() {
    let api = FabricAPI { mc_version: "1.20.1".into() };
    let a = api.resolve_concrete("0.15.3", "1.0.0");
    let b = api.resolve_concrete("0.15.3", "1.0.0");
    assert_eq!(a.url, b.url);
    assert_eq!(a.filename, b.filename);
    assert_eq!(cache_path(&a.cache), cache_path(&b.cache));
    assert_eq!(a.size, b.size);
    assert_eq!(
        a.url,
        "https://meta.fabricmc.net/v2/versions/loader/1.20.1/0.15.3/1.0.0/server/jar"
    );
    assert_eq!(a.filename, "fabric-server-1.20.1-1.0.0-0.15.3.jar");
}

#[test]
fn latest_selector_never_reaches_cache_key() {
    let api = FabricAPI { mc_version: "1.20.1".into() };
    let f = api
        .resolve_source("latest", "latest", &[loader("0.15.3"), loader("0.15.2")], &[installer("1.0.0")])
        .unwrap();
    let (ns, path) = cache_path(&f.cache);
    assert_eq!(ns, "fabric");
    assert_eq!(path, "fabric-server-1.20.1-1.0.0-0.15.3.jar");
    assert!(!path.contains("latest"));
}

#[test]
fn latest_selector_without_versions_fails() {
    let api = FabricAPI { mc_version: "1.20.1".into() };
    assert!(matches!(
        api.resolve_source("latest", "1.0.0", &[], &[]),
        Err(ResolveError::NotFound(_))
    ));
}

#[test]
fn url_artifact_takes_name_from_url() {
    assert_eq!(filename_from_url("https://x.org/a/b/plugin.jar?token=1/2"), "plugin.jar");
    assert_eq!(filename_from_url("plain"), "plain");
    let d = Downloadable::Url { url: "https://x.org/f.jar".into(), filename: None, desc: None };
    let r = d.resolve_direct().unwrap().unwrap();
    assert_eq!(r.filename, "f.jar");
    assert!(matches!(r.cache, CacheStrategy::NoCache));
    assert!(r.hashes.is_empty());
    let named = Downloadable::Url { url: "https://x.org/f.jar".into(), filename: Some("g.jar".into()), desc: None };
    assert_eq!(named.resolve_direct().unwrap().unwrap().filename, "g.jar");
    let dir = Downloadable::Url { url: "https://x.org/files/".into(), filename: None, desc: None };
    assert!(matches!(dir.resolve_direct(), Some(Err(ResolveError::Format(_)))));
    let m = Downloadable::Modrinth { id: "a".into(), version: "latest".into() };
    assert!(m.resolve_direct().is_none());
}

#[test]
fn folder_names_for_urls() {
    assert_eq!(url_to_folder("https://ci.lucko.me"), "ci.lucko.me");
    assert_eq!(url_to_folder("http://a.b/c/"), "a.b-c");
}

#[test]
fn breakoff_rule() {
    let old = NeoforgeAPI { mc_version: "1.20.1".into() };
    match old.resolve_source("47.1.7").unwrap() {
        Downloadable::Maven { artifact, version, group, .. } => {
            assert_eq!(artifact, "forge");
            assert_eq!(version, "1.20.1-47.1.7");
            assert_eq!(group, "net.neoforged");
        }
        _ => panic!("expected maven coordinates"),
    }
    let new = NeoforgeAPI { mc_version: "1.20.2".into() };
    match new.resolve_source("20.2.86").unwrap() {
        Downloadable::Maven { artifact, version, .. } => {
            assert_eq!(artifact, "neoforge");
            assert_eq!(version, "20.2.86");
        }
        _ => panic!("expected maven coordinates"),
    }
    assert_eq!(old.get_artifact_id().unwrap(), "forge");
    assert_eq!(new.get_artifact_id().unwrap(), "neoforge");
    assert!(!NeoforgeAPI { mc_version: "1.20.2-pre1".into() }.is_after_breakoff().unwrap());
    assert!(NeoforgeAPI { mc_version: "1.21".into() }.is_after_breakoff().is_err());
}

#[test]
fn neoforge_version_lists() {
    let old = NeoforgeAPI { mc_version: "1.20.1".into() };
    let list = strings(&["1.20.1-47.1.7", "1.20.2-48.0.1", "1.20.1-47.1.10", "junk"]);
    assert_eq!(old.fetch_versions(&list).unwrap(), strings(&["47.1.7", "47.1.10"]));
    let new = NeoforgeAPI { mc_version: "1.21.1".into() };
    let list = strings(&["21.1.5", "21.1.6-beta", "21.3.93", "21.1.7"]);
    let fit = new.fetch_versions(&list).unwrap();
    assert_eq!(fit, strings(&["21.1.5", "21.1.7"]));
    assert_eq!(NeoforgeAPI::resolve_version("latest", &fit).unwrap(), "21.1.7");
    assert_eq!(NeoforgeAPI::resolve_version("", &fit).unwrap(), "21.1.7");
    assert_eq!(NeoforgeAPI::resolve_version("21.1.5", &[]).unwrap(), "21.1.5");
    assert!(matches!(
        NeoforgeAPI::resolve_version("latest", &[]),
        Err(ResolveError::NoCompatibleVersion(_))
    ));
}

fn quilt(v: &str) -> QuiltLoader {
    QuiltLoader { separator: ".".into(), build: 1, maven: "m".into(), version: v.into() }
}

#[test]
fn quilt_loader_selectors() {
    let list = [quilt("0.20.0-beta.9"), quilt("0.19.2"), quilt("0.19.1")];
    assert_eq!(map_quilt_loader_version("latest", &list).unwrap(), "0.19.2");
    assert_eq!(map_quilt_loader_version("latest-beta", &list).unwrap(), "0.20.0-beta.9");
    assert_eq!(map_quilt_loader_version("0.18.0", &list).unwrap(), "0.18.0");
    assert!(map_quilt_loader_version("latest", &[quilt("1.0-beta")]).is_err());
    match QuiltAPI::resolve_installer("0.9.1") {
        Downloadable::Maven { artifact, version, .. } => {
            assert_eq!(artifact, "quilt-installer");
            assert_eq!(version, "0.9.1");
        }
        _ => panic!("expected maven coordinates"),
    }
}

fn build(n: u64, files: &[(&str, &str)]) -> PaperVersionBuild {
    PaperVersionBuild {
        build: n,
        time: "t".into(),
        channel: PaperChannel::Default,
        promoted: false,
        changes: vec![],
        downloads: files
            .iter()
            .map(|(k, v)| (k.to_string(), PaperDownload { name: v.to_string(), sha256: "s".into() }))
            .collect(),
    }
}

#[test]
fn papermc_builds() {
    let builds = [build(10, &[("application", "paper-10.jar")]), build(17, &[("application", "paper-17.jar")])];
    assert_eq!(PaperMCAPI::fetch_build(&builds, "latest").unwrap(), 1);
    assert_eq!(PaperMCAPI::fetch_build(&builds, "10").unwrap(), 0);
    assert!(PaperMCAPI::fetch_build(&builds, "11").is_err());
    assert!(PaperMCAPI::fetch_build(&[], "latest").is_err());
    let f = PaperMCAPI::resolve_source("paper", "1.20.4", &builds[1]).unwrap();
    assert_eq!(f.url, "https://api.papermc.io/v2/projects/paper/versions/1.20.4/builds/17/downloads/paper-17.jar");
    assert_eq!(cache_path(&f.cache), ("papermc".to_string(), "paper/paper-17.jar".to_string()));
    let none = build(3, &[("mojang-mappings", "m.txt")]);
    assert!(matches!(PaperMCAPI::resolve_source("paper", "1", &none), Err(ResolveError::MissingDownloadUrl(_))));
    let versions = strings(&["1.19.4", "1.20.4"]);
    assert_eq!(PaperMCAPI::select_version("latest", &versions).unwrap(), "1.20.4");
    assert_eq!(PaperMCAPI::select_version("1.19.4", &versions).unwrap(), "1.19.4");
}

#[test]
fn vanilla_server_download() {
    let manifest = VersionManifest {
        latest: LatestVersions { release: "1.20.4".into(), snapshot: "24w01a".into() },
        versions: vec![VersionIndex {
            id: "1.20.4".into(),
            version_type: VersionType::Release,
            url: "u".into(),
            time: "t".into(),
            release_time: "t".into(),
            sha1: "s".into(),
            compliance_level: 1,
        }],
    };
    assert_eq!(manifest.select_id("latest"), "1.20.4");
    assert_eq!(manifest.select_id("latest-snapshot"), "24w01a");
    assert_eq!(manifest.select_id("1.8.9"), "1.8.9");
    assert_eq!(manifest.find("1.20.4").unwrap().url, "u");
    assert!(manifest.find("1.8.9").is_none());
    let info = VersionInfo {
        id: "1.20.4".into(),
        assets: "a".into(),
        java_version: VersionJavaInfo { major_version: 17, component: "c".into() },
        downloads: vec![(
            DownloadType::Server,
            PistonFile { sha1: "abc".into(), size: 42, url: "https://s/server.jar".into(), id: None, total_size: None, path: None },
        )],
        main_class: "m".into(),
        version_type: VersionType::Release,
        time: "t".into(),
        release_time: "t".into(),
    };
    let f = VanillaAPI::resolve_source(&info).unwrap();
    assert_eq!(f.filename, "server-1.20.4.jar");
    assert_eq!(f.size, Some(42));
    assert_eq!(f.hashes.get(HashFormat::Sha1), Some(&"abc".to_string()));
    let bare = VersionInfo { downloads: vec![], ..info };
    assert!(matches!(VanillaAPI::resolve_source(&bare), Err(ResolveError::MissingDownloadUrl(_))));
}

fn cf_file(id: u64, tags: &[&str], url: Option<&str>) -> CurseForgeFile {
    CurseForgeFile {
        id,
        mod_id: 9,
        is_available: true,
        display_name: "d".into(),
        file_name: format!("f{id}.jar"),
        release_type: 1,
        file_status: 4,
        hashes: vec![
            CurseForgeHash { value: "s1".into(), algo: 1 },
            CurseForgeHash { value: "m5".into(), algo: 2 },
            CurseForgeHash { value: "other".into(), algo: 7 },
        ],
        file_date: "t".into(),
        file_length: 100,
        download_count: 0,
        download_url: url.map(|s| s.to_string()),
        game_versions: strings(tags),
        dependencies: vec![],
    }
}

#[test]
fn curseforge_filters_by_version_and_loader() {
    let files = [
        cf_file(1, &["1.20.1", "Forge"], Some("u1")),
        cf_file(2, &["1.20.1", "Fabric"], Some("u2")),
        cf_file(3, &["1.19.2", "Quilt"], Some("u3")),
        cf_file(4, &["1.20.1", "Quilt"], Some("u4")),
    ];
    let quilt = CurseForgeAPI { mc_version: "1.20.1".into(), loader: Some("quilt".into()) };
    assert_eq!(quilt.filter_versions(&files), vec![1, 3]);
    assert_eq!(quilt.select_latest(&files).unwrap(), 1);
    let fabric = CurseForgeAPI { mc_version: "1.20.1".into(), loader: Some("fabric".into()) };
    assert_eq!(fabric.filter_versions(&files), vec![1]);
    let any = CurseForgeAPI { mc_version: "1.20.1".into(), loader: None };
    assert_eq!(any.filter_versions(&files), vec![0, 1, 3]);
    let neo = CurseForgeAPI { mc_version: "1.20.1".into(), loader: Some("neoforge".into()) };
    assert!(matches!(neo.select_latest(&files), Err(ResolveError::NoCompatibleVersion(_))));
    assert!(matches!(neo.select_latest(&[]), Err(ResolveError::NotFound(_))));
}

#[test]
fn curseforge_latest_stops_at_the_page_with_a_match() {
    let api = CurseForgeAPI { mc_version: "1.20.1".into(), loader: None };
    let pages = vec![
        vec![cf_file(1, &["1.19"], Some("u")), cf_file(2, &["1.19"], Some("u"))],
        vec![cf_file(3, &["1.18"], Some("u")), cf_file(4, &["1.20.1"], Some("u"))],
        vec![cf_file(5, &["1.20.1"], Some("u")), cf_file(6, &["1.20.1"], Some("u"))],
    ];
    let mut index = 0u32;
    let mut requests = 0;
    let found = loop {
        let page = &pages[index as usize / 50];
        requests += 1;
        // the listing serves pages of 50; this fake serves 2 per page but declares 150 in all
        match CurseForgeAPI::listing_step(index, 150, 50, api.first_fitting(page)) {
            PageStep::Found(i) => break Some(page[i].id),
            PageStep::Next(n) => index = n as u32,
            PageStep::Exhausted => break None,
        }
    };
    assert_eq!(found, Some(4));
    assert_eq!(requests, 2);
    assert!(matches!(CurseForgeAPI::no_match_error(0), ResolveError::NotFound(_)));
    assert!(matches!(CurseForgeAPI::no_match_error(3), ResolveError::NoCompatibleVersion(_)));
    assert_eq!(CurseForgeAPI::listing_step(0, 40, 40, None), PageStep::Exhausted);
}

#[test]
fn curseforge_file_resolution() {
    let f = CurseForgeAPI::resolve_source("jei", &cf_file(5, &[], Some("https://edge/f5.jar"))).unwrap();
    assert_eq!(f.url, "https://edge/f5.jar");
    assert_eq!(cache_path(&f.cache), ("curseforge".to_string(), "jei/5/f5.jar".to_string()));
    assert_eq!(f.size, Some(100));
    assert_eq!(f.hashes.get(HashFormat::Sha1), Some(&"s1".to_string()));
    assert_eq!(f.hashes.get(HashFormat::Md5), Some(&"m5".to_string()));
    assert_eq!(f.hashes.get_best_hash().unwrap().0, HashFormat::Sha1);
    match CurseForgeAPI::resolve_source("jei", &cf_file(5, &[], None)) {
        Err(ResolveError::MissingDownloadUrl(m)) => {
            assert_eq!(m, "CurseForge file 5 (d) has no download URL - may require manual download")
        }
        _ => panic!("expected a missing download URL"),
    }
    assert_eq!(CurseForgeAPI::parse_file_id("4711").unwrap(), 4711);
    assert!(matches!(CurseForgeAPI::parse_file_id("abc"), Err(ResolveError::Format(_))));
    assert!(matches!(CurseForgeAPI::get_api_key(None), Err(ResolveError::Configuration(_))));
    assert_eq!(
        CurseForgeAPI::files_page_url("42", 50),
        "https://api.curseforge.com/v1/mods/42/files?index=50&pageSize=50"
    );
}

fn pv(name: &str, deps: &[&str]) -> ProjectVersion {
    ProjectVersion {
        created_at: "t".into(),
        name: name.into(),
        visibility: Visibility::Public,
        description: "d".into(),
        author: "a".into(),
        review_state: ReviewState::Reviewed,
        pinned_status: PinnedStatus::Unpinned,
        downloads: vec![(
            Platform::Paper,
            PlatformVersionDownload::Hangar {
                file_info: FileInfo { name: format!("{name}.jar"), size_bytes: 7, sha256_hash: "h".into() },
                download_url: format!("https://hangar/{name}.jar"),
            },
        )],
        plugin_dependencies: vec![],
        platform_dependencies: vec![(Platform::Paper, strings(deps))],
    }
}

#[test]
fn hangar_version_choice() {
    let page = [pv("2.0", &["1.20.4"]), pv("1.9", &["1.20.1"]), pv("1.9-hotfix", &["1.20.4"])];
    let game = Some("1.20.1".to_string());
    assert_eq!(find_version(&page, Some(Platform::Paper), &game, &None), Some(1));
    assert_eq!(find_version(&page, None, &game, &None), Some(0));
    assert_eq!(find_version(&page, Some(Platform::Paper), &game, &Some("1.9".into())), Some(1));
    let game4 = Some("1.20.4".to_string());
    assert_eq!(find_version(&page, Some(Platform::Paper), &game4, &Some("1.9".into())), Some(1));
    assert_eq!(find_version(&page, Some(Platform::Velocity), &game, &None), None);
}

#[test]
fn hangar_queries_and_resolution() {
    let api = HangarAPI::new(&ServerType::Paper {}, "1.20.4");
    assert_eq!(api.platform, Some(Platform::Paper));
    assert!(matches!(api.version_query("latest"), VersionQuery::Search(None)));
    match api.version_query("v-${mcver}-${mcversion}") {
        VersionQuery::Search(Some(n)) => assert_eq!(n, "v-1.20.4-1.20.4"),
        _ => panic!("expected a search"),
    }
    assert!(matches!(api.version_query("2.0"), VersionQuery::Direct(n) if n == "2.0"));
    assert_eq!(HangarAPI::versions_url("owner/slug"), "https://hangar.papermc.io/api/v1/projects/slug/versions");
    let f = api.resolve_source("owner/slug", &pv("2.0", &[])).unwrap();
    assert_eq!(cache_path(&f.cache), ("hangar".to_string(), "owner/slug/2.0/2.0.jar".to_string()));
    assert_eq!(f.hashes.get(HashFormat::Sha256), Some(&"h".to_string()));
    let velocity = HangarAPI::new(&ServerType::Velocity {}, "3.3.0");
    assert!(matches!(velocity.resolve_source("x", &pv("2.0", &[])), Err(ResolveError::NotFound(_))));
    assert_eq!(Platform::from_name("WaterFall"), Platform::Waterfall);
    assert_eq!(Platform::from_name("spigot"), Platform::Paper);
    let filter = api.get_platform_filter();
    assert_eq!((filter.limit, filter.offset), (25, 0));
}

#[test]
fn github_asset_url() {
    let api = GitHubAPI::new();
    let release = GithubRelease { tag_name: "v1.0".into(), name: "r".into(), assets: vec![] };
    let asset = GithubAsset { name: "p.jar".into(), size: 1, browser_download_url: "b".into() };
    assert_eq!(
        api.resolve_asset_url("o/r", &release, &asset),
        "https://github.com/o/r/releases/download/v1.0/p.jar"
    );
    assert_eq!(api.releases_url("o/r"), "https://api.github.com/repos/o/r/releases");
}

#[test]
fn github_release_selection() {
    let asset = |n: &str| GithubAsset { name: n.into(), size: 3, browser_download_url: "b".into() };
    let releases = vec![
        GithubRelease { tag_name: "v2".into(), name: "r2".into(), assets: vec![asset("a.jar"), asset("b.jar")] },
        GithubRelease { tag_name: "v1".into(), name: "r1".into(), assets: vec![asset("a.jar")] },
    ];
    assert_eq!(GitHubAPI::select_release(&releases, "latest"), Some(0));
    assert_eq!(GitHubAPI::select_release(&releases, "v1"), Some(1));
    assert_eq!(GitHubAPI::select_release(&releases, "v3"), None);
    assert_eq!(GitHubAPI::select_release(&[], "latest"), None);
    assert_eq!(GitHubAPI::select_asset(&releases[0], "b.jar"), Some(1));
    assert_eq!(GitHubAPI::select_asset(&releases[1], "b.jar"), None);
    let f = GitHubAPI::new().resolve_source("o/r", &releases[0], &releases[0].assets[1]);
    assert_eq!(f.url, "https://github.com/o/r/releases/download/v2/b.jar");
    assert_eq!(cache_path(&f.cache), ("github".to_string(), "o/r/v2/b.jar".to_string()));
    assert_eq!(f.size, Some(3));
}

#[test]
fn maven_layout() {
    assert_eq!(
        MavenAPI::metadata_url("https://maven.neoforged.net/releases", "net.neoforged", "neoforge"),
        "https://maven.neoforged.net/releases/net/neoforged/neoforge/maven-metadata.xml"
    );
    let f = MavenAPI::resolve_source(
        "https://maven.neoforged.net/releases",
        "net.neoforged",
        "neoforge",
        "20.2.86",
        "${artifact}-${version}-installer.jar",
    );
    assert_eq!(f.filename, "neoforge-20.2.86-installer.jar");
    assert_eq!(
        f.url,
        "https://maven.neoforged.net/releases/net/neoforged/neoforge/20.2.86/neoforge-20.2.86-installer.jar"
    );
    assert_eq!(
        cache_path(&f.cache),
        (
            "maven.neoforged.net-releases".to_string(),
            "net/neoforged/neoforge/20.2.86/neoforge-20.2.86-installer.jar".to_string()
        )
    );
    let latest = Some("2.0".to_string());
    let release = Some("1.9".to_string());
    assert_eq!(MavenAPI::select_version("latest", &latest, &release).unwrap(), "2.0");
    assert_eq!(MavenAPI::select_version("release", &latest, &release).unwrap(), "1.9");
    assert_eq!(MavenAPI::select_version("1.0", &None, &None).unwrap(), "1.0");
    assert!(matches!(MavenAPI::select_version("latest", &None, &release), Err(ResolveError::NotFound(_))));
}
