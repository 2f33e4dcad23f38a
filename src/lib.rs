//! Resolution, integrity checking and install planning for server artifacts.

pub mod hash;
pub mod text;
pub mod vanilla;
pub mod curseforge;
pub mod error;
pub mod fabric;
pub mod github;
pub mod hangar;
pub mod maven;
pub mod model;
pub mod modrinth;
pub mod neoforge;
pub mod paging;
pub mod papermc;
pub mod servertype;
pub mod task;
pub mod template;
pub mod pipeline;
pub mod quilt;
pub mod checksum;
pub mod version;
