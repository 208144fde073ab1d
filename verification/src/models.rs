//! The data of a scrape: what a server is, what it publishes and what a scrape
//! of it returns.

pub mod cvmfs_published;
pub mod cvmfs_status_json;
pub mod generic;
pub mod geoapi;
pub mod meta_json;
pub mod repositories_json;
pub mod resolved;
pub mod servers;

pub use cvmfs_published::Manifest;
pub use cvmfs_status_json::StatusJSON;
pub use generic::{HexString, Hostname, MaybeRfc2822DateTime, Rfc2822DateTime};
pub use geoapi::GeoapiServerQuery;
pub use meta_json::MetaJSON;
pub use repositories_json::{RepositoriesJSON, RepositoriesJSONRepo};
pub use resolved::ResolvedRepositorySet;
pub use servers::{
    FailedServer, MetadataFromRepoJSON, PopulatedRepositoryOrReplica, PopulatedServer,
    RepositoryOrReplica, ScrapedServer, Server, ServerBackendType, ServerMetadata, ServerType,
};
