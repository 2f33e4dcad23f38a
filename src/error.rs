//! Why resolving an artifact failed.

use vstd::prelude::*;

verus! {

/// The ways resolution fails; each carries a message naming the source and artifact.
#[derive(Debug)]
pub enum ResolveError {
    /// The project, version, build or asset does not exist.
    NotFound(String),
    /// Candidates exist, but none fits the game version and loader.
    NoCompatibleVersion(String),
    /// The metadata names no file that can be downloaded.
    MissingDownloadUrl(String),
    /// A required credential is absent.
    Configuration(String),
    /// The upstream service failed or answered with an error status.
    Upstream(String),
    /// A value does not have the expected shape.
    Format(String),
}

impl ResolveError {
    /// The message that this error carries.
    pub fn message(&self) -> (r: &String)
        ensures
            match self {
                ResolveError::NotFound(m) => r == m,
                ResolveError::NoCompatibleVersion(m) => r == m,
                ResolveError::MissingDownloadUrl(m) => r == m,
                ResolveError::Configuration(m) => r == m,
                ResolveError::Upstream(m) => r == m,
                ResolveError::Format(m) => r == m,
            },
    {
        match self {
            ResolveError::NotFound(m) => m,
            ResolveError::NoCompatibleVersion(m) => m,
            ResolveError::MissingDownloadUrl(m) => m,
            ResolveError::Configuration(m) => m,
            ResolveError::Upstream(m) => m,
            ResolveError::Format(m) => m,
        }
    }
}

} // verus!
