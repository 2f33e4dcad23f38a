//! Server software families, and how each is installed and started.

use vstd::prelude::*;
use crate::error::ResolveError;
use crate::model::Downloadable;
use crate::neoforge::{breakoff_of, NeoforgeAPI};
use crate::text::{concat2, concat3, str_eq};
use crate::version::string_views;

verus! {

/// The broad kind of a server software.
#[derive(Debug, Clone, Copy, PartialEq, Eq, Structural, Default)]
pub enum SoftwareType {
    Normal,
    Modded,
    Proxy,
    #[default]
    Unknown,
}

/// The server software of an installation.
#[derive(Debug)]
pub enum ServerType {
    Vanilla {},
    PaperMC { project: String, build: String },
    Purpur { build: String },
    Fabric { loader: String, installer: String },
    Quilt { loader: String, installer: String },
    NeoForge { loader: String },
    Forge { loader: String },
    BuildTools { software: String, args: Vec<String> },
    Paper {},
    Velocity {},
    Waterfall {},
    BungeeCord {},
    Downloadable { inner: Downloadable },
}

/// Whether the resolved server artifact is used as is, or run once as an installer
/// that produces the server.
#[derive(Debug)]
pub enum InstallMethod {
    SingleJar,
    Installer {
        name: String,
        label: String,
        args: Vec<String>,
        rename_from: Option<String>,
        jar_name: String,
    },
}

/// How the start scripts launch the server: a jar, or argument files that differ
/// between Windows and other systems.
#[derive(Debug)]
pub enum StartupMethod {
    Jar(String),
    Custom { windows: Vec<String>, linux: Vec<String> },
}

pub open spec fn software_type_of(t: ServerType) -> SoftwareType {
    match t {
        ServerType::Velocity {} | ServerType::BungeeCord {} | ServerType::Waterfall {} => {
            SoftwareType::Proxy
        },
        ServerType::PaperMC { project, .. } => if project@ == "velocity"@ || project@
            == "waterfall"@ {
            SoftwareType::Proxy
        } else {
            SoftwareType::Normal
        },
        ServerType::Quilt { .. }
        | ServerType::Fabric { .. }
        | ServerType::NeoForge { .. }
        | ServerType::Forge { .. } => SoftwareType::Modded,
        ServerType::Vanilla {}
        | ServerType::Paper {}
        | ServerType::Purpur { .. }
        | ServerType::BuildTools { .. } => SoftwareType::Normal,
        ServerType::Downloadable { .. } => SoftwareType::Unknown,
    }
}

pub open spec fn modrinth_name_of(t: ServerType) -> Option<Seq<char>> {
    match t {
        ServerType::Fabric { .. } => Some("fabric"@),
        ServerType::Quilt { .. } => Some("quilt"@),
        ServerType::Forge { .. } => Some("forge"@),
        ServerType::NeoForge { .. } => Some("neoforge"@),
        ServerType::Paper {} => Some("paper"@),
        ServerType::BuildTools { .. } => Some("spigot"@),
        ServerType::Purpur { .. } => Some("purpur"@),
        ServerType::BungeeCord {} => Some("bungeecord"@),
        ServerType::Velocity {} => Some("velocity"@),
        ServerType::Waterfall {} => Some("waterfall"@),
        ServerType::PaperMC { project, .. } => Some(project@),
        _ => None,
    }
}

/// The installer plan of a software family, given the game version and the
/// concrete loader version (used by the Quilt, NeoForge and Forge families).
/// NeoForge uses the new artifact layout when `after_breakoff` holds.
pub open spec fn installer_plan(
    t: ServerType,
    mcver: Seq<char>,
    loader_version: Seq<char>,
    after_breakoff: bool,
) -> Option<
    (Seq<char>, Seq<char>, Seq<Seq<char>>, Option<Seq<char>>, Seq<char>),
> {
    match t {
        ServerType::Quilt { loader, .. } => Some(
            (
                "Quilt Server Installer"@,
                "qsi"@,
                seq![
                    "install"@,
                    "server"@,
                    mcver,
                    loader_version,
                    "--install-dir=."@,
                    "--download-server"@,
                ],
                Some("quilt-server-launch.jar"@),
                "quilt-server-launch-"@ + mcver + "-"@ + loader_version + ".jar"@,
            ),
        ),
        ServerType::NeoForge { .. } => Some(
            (
                "NeoForged Installer"@,
                "nfi"@,
                seq!["--installServer"@, "."@],
                None,
                if after_breakoff {
                    "libraries/net/neoforged/neoforge/"@ + loader_version + "/neoforge-"@
                        + loader_version + "-server.jar"@
                } else {
                    "libraries/net/neoforged/forge/"@ + mcver + "-"@ + loader_version + "/forge-"@
                        + mcver + "-"@ + loader_version + "-server.jar"@
                },
            ),
        ),
        ServerType::Forge { .. } => Some(
            (
                "Forge Installer"@,
                "fi"@,
                seq!["--installServer"@, "."@],
                None,
                "libraries/net/minecraftforge/forge/"@ + mcver + "-"@ + loader_version
                    + "/forge-"@ + mcver + "-"@ + loader_version + "-server.jar"@,
            ),
        ),
        ServerType::BuildTools { software, args } => Some(
            (
                "BuildTools"@,
                "bt"@,
                seq!["--compile"@, software@, "--compile-if-changed"@, "--rev"@, mcver]
                    + string_views(args@),
                Some("server.jar"@),
                (if software@ == "craftbukkit"@ {
                    "craftbukkit"@
                } else {
                    "spigot"@
                }) + "-"@ + mcver + ".jar"@,
            ),
        ),
        _ => None,
    }
}

/// Whether `m` is the plan that `installer_plan` describes.
pub open spec fn is_plan(
    m: InstallMethod,
    p: Option<(Seq<char>, Seq<char>, Seq<Seq<char>>, Option<Seq<char>>, Seq<char>)>,
) -> bool {
    match p {
        None => m is SingleJar,
        Some((name, label, args, rename_from, jar_name)) => match m {
            InstallMethod::Installer { name: n, label: l, args: a, rename_from: r, jar_name: j } => {
                &&& n@ == name
                &&& l@ == label
                &&& string_views(a@) == args
                &&& match r {
                    Some(x) => rename_from == Some(x@),
                    None => rename_from is None,
                }
                &&& j@ == jar_name
            },
            _ => false,
        },
    }
}

fn push_str(v: &mut Vec<String>, s: &str)
    ensures
        string_views(final(v)@) == string_views(old(v)@).push(s@),
{
    let ghost before = string_views(v@);
    v.push(String::from_str(s));
    proof {
        assert(string_views(v@) =~= before.push(s@));
    }
}

impl ServerType {
    /// The broad kind of this software.
    pub fn get_software_type(&self) -> (r: SoftwareType)
        ensures
            r == software_type_of(*self),
    {
        match self {
            ServerType::Velocity {} | ServerType::BungeeCord {} | ServerType::Waterfall {} => {
                SoftwareType::Proxy
            },
            ServerType::PaperMC { project, .. } => {
                if str_eq(project.as_str(), "velocity") || str_eq(project.as_str(), "waterfall") {
                    SoftwareType::Proxy
                } else {
                    SoftwareType::Normal
                }
            },
            ServerType::Quilt { .. }
            | ServerType::Fabric { .. }
            | ServerType::NeoForge { .. }
            | ServerType::Forge { .. } => SoftwareType::Modded,
            ServerType::Vanilla {}
            | ServerType::Paper {}
            | ServerType::Purpur { .. }
            | ServerType::BuildTools { .. } => SoftwareType::Normal,
            ServerType::Downloadable { .. } => SoftwareType::Unknown,
        }
    }

    /// The loader name under which Modrinth and CurseForge tag files for this software.
    pub fn get_modrinth_name(&self) -> (r: Option<String>)
        ensures
            match modrinth_name_of(*self) {
                Some(n) => r matches Some(s) && s@ == n,
                None => r is None,
            },
    {
        match self {
            ServerType::Fabric { .. } => Some(String::from_str("fabric")),
            ServerType::Quilt { .. } => Some(String::from_str("quilt")),
            ServerType::Forge { .. } => Some(String::from_str("forge")),
            ServerType::NeoForge { .. } => Some(String::from_str("neoforge")),
            ServerType::Paper {} => Some(String::from_str("paper")),
            ServerType::BuildTools { .. } => Some(String::from_str("spigot")),
            ServerType::Purpur { .. } => Some(String::from_str("purpur")),
            ServerType::BungeeCord {} => Some(String::from_str("bungeecord")),
            ServerType::Velocity {} => Some(String::from_str("velocity")),
            ServerType::Waterfall {} => Some(String::from_str("waterfall")),
            ServerType::PaperMC { project, .. } => Some(String::from_str(project.as_str())),
            _ => None,
        }
    }

    /// Whether this software loads mods.
    pub fn is_modded(&self) -> (r: bool)
        ensures
            r == (software_type_of(*self) == SoftwareType::Modded),
    {
        match self.get_software_type() {
            SoftwareType::Modded => true,
            _ => false,
        }
    }

    /// Whether the server accepts the EULA through its arguments: every software
    /// but vanilla and the modded ones.
    pub fn supports_eula_args(&self) -> (r: bool)
        ensures
            r == (!(*self is Vanilla) && software_type_of(*self) != SoftwareType::Modded),
    {
        let vanilla = match self {
            ServerType::Vanilla {} => true,
            _ => false,
        };
        !vanilla && !self.is_modded()
    }

    /// How this software is installed, given the game version and the concrete loader
    /// version (the resolved one, never a "latest" selector). NeoForge needs a game
    /// version that parses, to pick its layout.
    pub fn get_install_method(&self, mcver: &str, loader_version: &str) -> (r: Result<
        InstallMethod,
        ResolveError,
    >)
        ensures
            *self is NeoForge && breakoff_of(mcver@) is None ==> r matches Err(
                ResolveError::Format(_),
            ),
            !(*self is NeoForge && breakoff_of(mcver@) is None) ==> (r matches Ok(m) && is_plan(
                m,
                installer_plan(*self, mcver@, loader_version@, breakoff_of(mcver@) == Some(true)),
            )),
    {
        match self {
            ServerType::Quilt { .. } => {
                let mut args: Vec<String> = Vec::new();
                push_str(&mut args, "install");
                push_str(&mut args, "server");
                push_str(&mut args, mcver);
                push_str(&mut args, loader_version);
                push_str(&mut args, "--install-dir=.");
                push_str(&mut args, "--download-server");
                proof {
                    assert(string_views(args@) =~= seq![
                        "install"@,
                        "server"@,
                        mcver@,
                        loader_version@,
                        "--install-dir=."@,
                        "--download-server"@,
                    ]);
                }
                let mut jar_name = concat3("quilt-server-launch-", mcver, "-");
                jar_name.append(loader_version);
                jar_name.append(".jar");
                Ok(InstallMethod::Installer {
                    name: String::from_str("Quilt Server Installer"),
                    label: String::from_str("qsi"),
                    args,
                    rename_from: Some(String::from_str("quilt-server-launch.jar")),
                    jar_name,
                })
            },
            ServerType::NeoForge { .. } => {
                let api = NeoforgeAPI { mc_version: String::from_str(mcver) };
                let after = api.is_after_breakoff()?;
                let mut args: Vec<String> = Vec::new();
                push_str(&mut args, "--installServer");
                push_str(&mut args, ".");
                let jar_name = if after {
                    let mut j = concat3("libraries/net/neoforged/neoforge/", loader_version, "/neoforge-");
                    j.append(loader_version);
                    j.append("-server.jar");
                    j
                } else {
                    let mut j = concat3("libraries/net/neoforged/forge/", mcver, "-");
                    j.append(loader_version);
                    j.append("/forge-");
                    j.append(mcver);
                    j.append("-");
                    j.append(loader_version);
                    j.append("-server.jar");
                    j
                };
                proof {
                    assert(string_views(args@) =~= seq!["--installServer"@, "."@]);
                }
                Ok(InstallMethod::Installer {
                    name: String::from_str("NeoForged Installer"),
                    label: String::from_str("nfi"),
                    args,
                    rename_from: None,
                    jar_name,
                })
            },
            ServerType::Forge { .. } => {
                let mut args: Vec<String> = Vec::new();
                push_str(&mut args, "--installServer");
                push_str(&mut args, ".");
                let mut jar_name = concat3("libraries/net/minecraftforge/forge/", mcver, "-");
                jar_name.append(loader_version);
                jar_name.append("/forge-");
                jar_name.append(mcver);
                jar_name.append("-");
                jar_name.append(loader_version);
                jar_name.append("-server.jar");
                proof {
                    assert(string_views(args@) =~= seq!["--installServer"@, "."@]);
                }
                Ok(InstallMethod::Installer {
                    name: String::from_str("Forge Installer"),
                    label: String::from_str("fi"),
                    args,
                    rename_from: None,
                    jar_name,
                })
            },
            ServerType::BuildTools { software, args: extra } => {
                let mut args: Vec<String> = Vec::new();
                push_str(&mut args, "--compile");
                push_str(&mut args, software.as_str());
                push_str(&mut args, "--compile-if-changed");
                push_str(&mut args, "--rev");
                push_str(&mut args, mcver);
                let ghost base = string_views(args@);
                proof {
                    assert(base =~= seq!["--compile"@, software@, "--compile-if-changed"@, "--rev"@, mcver@]);
                    assert(base + string_views(extra@.take(0)) =~= base);
                }
                let mut i: usize = 0;
                while i < extra.len()
                    invariant
                        0 <= i <= extra@.len(),
                        string_views(args@) == base + string_views(extra@.take(i as int)),
                    decreases extra@.len() - i,
                {
                    push_str(&mut args, extra[i].as_str());
                    proof {
                        assert(string_views(extra@.take(i + 1)) =~= string_views(
                            extra@.take(i as int),
                        ).push(extra@[i as int]@));
                    }
                    i += 1;
                }
                proof {
                    assert(extra@.take(extra@.len() as int) == extra@);
                }
                let prefix = if str_eq(software.as_str(), "craftbukkit") {
                    "craftbukkit"
                } else {
                    "spigot"
                };
                let jar_name = concat3(prefix, "-", mcver);
                let jar_name = concat2(jar_name.as_str(), ".jar");
                Ok(InstallMethod::Installer {
                    name: String::from_str("BuildTools"),
                    label: String::from_str("bt"),
                    args,
                    rename_from: Some(String::from_str("server.jar")),
                    jar_name,
                })
            },
            _ => Ok(InstallMethod::SingleJar),
        }
    }
}

/// The Jenkins artifact of the BungeeCord proxy.
pub fn bungeecord() -> (r: Downloadable)
    ensures
        r matches Downloadable::Jenkins { url, job, build, artifact } && url@
            == "https://ci.md-5.net"@ && job@ == "BungeeCord"@ && build@ == "latest"@ && artifact@
            == "BungeeCord"@,
{
    Downloadable::Jenkins {
        url: String::from_str("https://ci.md-5.net"),
        job: String::from_str("BungeeCord"),
        build: String::from_str("latest"),
        artifact: String::from_str("BungeeCord"),
    }
}

/// The Jenkins artifact of the BuildTools installer.
pub fn buildtools() -> (r: Downloadable)
    ensures
        r matches Downloadable::Jenkins { url, job, build, artifact } && url@
            == "https://hub.spigotmc.org/jenkins"@ && job@ == "BuildTools"@ && build@ == "latest"@
            && artifact@ == "first"@,
{
    Downloadable::Jenkins {
        url: String::from_str("https://hub.spigotmc.org/jenkins"),
        job: String::from_str("BuildTools"),
        build: String::from_str("latest"),
        artifact: String::from_str("first"),
    }
}

/// The default BuildTools software, "spigot".
pub fn spigot() -> (r: String)
    ensures
        r@ == "spigot"@,
{
    String::from_str("spigot")
}

} // verus!
