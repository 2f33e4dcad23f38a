//! The Modrinth project and version records.

use vstd::prelude::*;
use crate::hash::Hashes;
use crate::text::concat3;

verus! {

/// Whether a project runs on one side of the game.
#[derive(Debug, Clone, Copy, PartialEq, Eq, Structural)]
pub enum SideSupport {
    Required,
    Optional,
    Unsupported,
    Unknown,
}

/// The moderation status of a project.
#[derive(Debug, Clone, Copy, PartialEq, Eq, Structural)]
pub enum ProjectStatus {
    Approved,
    Archived,
    Rejected,
    Draft,
    Unlisted,
    Processing,
    Withheld,
    Scheduled,
    Private,
    Unknown,
}

/// What a project distributes.
#[derive(Debug, Clone, Copy, PartialEq, Eq, Structural)]
pub enum ProjectType {
    Mod,
    ModPack,
    ResourcePack,
    Shader,
}

/// A donation link of a project.
#[derive(Debug)]
pub struct DonationLink {
    pub id: String,
    pub platform: String,
    pub url: String,
}

/// A project.
#[derive(Debug)]
pub struct ModrinthProject {
    pub id: String,
    pub team: String,
    pub published: String,
    pub updated: String,
    pub followers: u64,
    pub downloads: u64,
    pub approved: Option<String>,
    pub queued: Option<String>,
    pub slug: String,
    pub title: String,
    pub description: String,
    pub categories: Vec<String>,
    pub client_side: SideSupport,
    pub server_side: SideSupport,
    pub body: String,
    pub status: ProjectStatus,
    pub requested_status: Option<ProjectStatus>,
    pub additional_categories: Vec<String>,
    pub issues_url: Option<String>,
    pub source_url: Option<String>,
    pub wiki_url: Option<String>,
    pub discord_url: Option<String>,
    pub donation_urls: Vec<DonationLink>,
    pub project_type: ProjectType,
    pub icon_url: Option<String>,
    pub color: Option<u64>,
    pub thread_id: Option<String>,
    pub versions: Vec<String>,
    pub game_versions: Vec<String>,
    pub loaders: Vec<String>,
}

/// How a version relates to another project or version.
#[derive(Debug, Clone, Copy, PartialEq, Eq, Structural)]
pub enum DependencyType {
    Required,
    Optional,
    Incompatible,
    Embedded,
    Unsupported,
    Unknown,
}

/// The release kind of a version.
#[derive(Debug, Clone, Copy, PartialEq, Eq, Structural)]
pub enum VersionType {
    Release,
    Beta,
    Alpha,
}

/// The visibility status of a version.
#[derive(Debug, Clone, Copy, PartialEq, Eq, Structural)]
pub enum ModrinthStatus {
    Listed,
    Archived,
    Draft,
    Unlisted,
    Scheduled,
    Unknown,
}

/// A dependency of a version.
#[derive(Debug)]
pub struct ModrinthDependency {
    pub version_id: Option<String>,
    pub project_id: Option<String>,
    pub file_name: Option<String>,
    pub dependency_type: Option<DependencyType>,
}

/// A file of a version, with its expected digests.
#[derive(Debug)]
pub struct ModrinthFile {
    pub hashes: Hashes,
    pub url: String,
    pub filename: String,
    pub primary: bool,
    pub size: u128,
    pub file_type: Option<String>,
}

/// A version of a project.
#[derive(Debug)]
pub struct ModrinthVersion {
    pub name: String,
    pub version_number: String,
    pub changelog: String,
    pub dependencies: Vec<ModrinthDependency>,
    pub game_versions: Vec<String>,
    pub version_type: VersionType,
    pub loaders: Vec<String>,
    pub featured: bool,
    pub status: ModrinthStatus,
    pub requested_status: Option<ModrinthStatus>,
    pub id: String,
    pub project_id: String,
    pub author_id: String,
    pub date_published: String,
    pub downloads: u128,
    pub files: Vec<ModrinthFile>,
}

/// The Modrinth API, by its base address.
pub struct ModrinthAPI {
    pub base_url: String,
    pub api_key: Option<String>,
}

impl ModrinthAPI {
    /// The address of a project's record.
    pub fn project_url(&self, id: &str) -> (r: String)
        ensures
            r@ == self.base_url@ + "/v2/project/"@ + id@,
    {
        concat3(self.base_url.as_str(), "/v2/project/", id)
    }
}

} // verus!
