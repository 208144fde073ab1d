//! Servers, what is known of a server after a scrape, and the rules by which the
//! pieces of a scrape are judged and put together.

use vstd::prelude::*;
use crate::errors::{CVMFSScraperError, GenericError, ManifestError, ScrapeError};
use crate::models::cvmfs_published::{parse_manifest, Manifest};
use crate::models::cvmfs_status_json::StatusJSON;
use crate::models::generic::{Hostname, MaybeRfc2822DateTime};
use crate::models::geoapi::GeoapiServerQuery;
use crate::models::meta_json::MetaJSON;
use crate::models::repositories_json::RepositoriesJSON;
use crate::text::{compare_names, concatenated, NameOrder};
use crate::versions::{parse_semver, semver_parse, Version};

verus! {

/// The role of a server.
///
/// - `Stratum0`: the server that holds the master copy of the data.
/// - `Stratum1`: a server that holds a replica of the data of a stratum 0.
/// - `SyncServer`: a server that holds a replica but serves no clients.
#[derive(Debug, Clone, Copy, PartialEq, Eq, Structural)]
pub enum ServerType {
    Stratum0,
    Stratum1,
    SyncServer,
}

/// How a server stores and publishes its repositories.
///
/// - `S3`: in an object store, which cannot list what it holds.
/// - `CVMFS`: behind a web server, with a self-description that lists them.
/// - `AutoDetect`: not known; the scrape finds out by asking for the
///   self-description.
#[derive(Debug, Clone, Copy, PartialEq, Eq, Structural)]
pub enum ServerBackendType {
    S3,
    CVMFS,
    AutoDetect,
}

impl ServerType {
    /// The name of the role.
    pub open spec fn name_text(&self) -> Seq<char> {
        match self {
            ServerType::Stratum0 => "Stratum0"@,
            ServerType::Stratum1 => "Stratum1"@,
            ServerType::SyncServer => "SyncServer"@,
        }
    }

    /// The name of the role.
    pub fn name(&self) -> (s: String)
        ensures
            s@ == self.name_text(),
    {
        match self {
            ServerType::Stratum0 => "Stratum0".to_owned(),
            ServerType::Stratum1 => "Stratum1".to_owned(),
            ServerType::SyncServer => "SyncServer".to_owned(),
        }
    }
}

impl ServerBackendType {
    /// The name of the backend.
    pub open spec fn name_text(&self) -> Seq<char> {
        match self {
            ServerBackendType::S3 => "S3"@,
            ServerBackendType::CVMFS => "CVMFS"@,
            ServerBackendType::AutoDetect => "AutoDetect"@,
        }
    }

    /// The name of the backend.
    pub fn name(&self) -> (s: String)
        ensures
            s@ == self.name_text(),
    {
        match self {
            ServerBackendType::S3 => "S3".to_owned(),
            ServerBackendType::CVMFS => "CVMFS".to_owned(),
            ServerBackendType::AutoDetect => "AutoDetect".to_owned(),
        }
    }
}

/// The backend of a server of which none was given.
pub fn default_backend_type() -> (r: ServerBackendType)
    ensures
        r == ServerBackendType::AutoDetect,
{
    ServerBackendType::AutoDetect
}

/// A server to scrape: its role, its backend and its hostname.
#[derive(Debug, PartialEq)]
pub struct Server {
    pub server_type: ServerType,
    pub backend_type: ServerBackendType,
    pub hostname: Hostname,
}

impl Clone for Server {
    fn clone(&self) -> (r: Self)
        ensures
            r == *self,
    {
        Server {
            server_type: self.server_type,
            backend_type: self.backend_type,
            hostname: self.hostname.clone(),
        }
    }
}

/// What a server's self-description says of the host.
///
/// Every field may be absent: a server with the S3 backend has no
/// self-description, and another may leave fields out.
#[derive(Debug, Clone, PartialEq)]
pub struct MetadataFromRepoJSON {
    pub schema_version: Option<u32>,
    pub cvmfs_version: Option<Version>,
    pub last_geodb_update: MaybeRfc2822DateTime,
    pub os_version_id: Option<String>,
    pub os_pretty_name: Option<String>,
    pub os_id: Option<String>,
}

/// What is known of a server besides its repositories: the fields of the
/// self-description, and the contact fields that its administrators publish.
#[derive(Debug, Clone, PartialEq)]
pub struct ServerMetadata {
    pub schema_version: Option<u32>,
    pub cvmfs_version: Option<Version>,
    pub last_geodb_update: MaybeRfc2822DateTime,
    pub os_version_id: Option<String>,
    pub os_pretty_name: Option<String>,
    pub os_id: Option<String>,
    pub administrator: Option<String>,
    pub email: Option<String>,
    pub organisation: Option<String>,
    pub custom: Option<serde_json::Value>,
}

/// A repository or replica on a server, before it is scraped.
#[derive(Debug, Clone, PartialEq)]
pub struct RepositoryOrReplica {
    pub server: Server,
    pub name: String,
}

/// A repository or replica that was scraped: its name, its manifest, and when it
/// was last snapshotted and last garbage collected, as far as the server says.
#[derive(Debug, Clone, PartialEq)]
pub struct PopulatedRepositoryOrReplica {
    pub name: String,
    pub manifest: Manifest,
    pub last_snapshot: MaybeRfc2822DateTime,
    pub last_gc: MaybeRfc2822DateTime,
}

/// A server that was scraped.
///
/// `backend_detected` is the backend that the scrape found; it is `backend_type`
/// unless that is `AutoDetect`. Repositories and replicas stand together in
/// `repositories`, in the order of their names. `metadata` has no fields of the
/// self-description where the backend is S3.
#[derive(Debug, Clone, PartialEq)]
pub struct PopulatedServer {
    pub server_type: ServerType,
    pub backend_type: ServerBackendType,
    pub backend_detected: ServerBackendType,
    pub hostname: Hostname,
    pub repositories: Vec<PopulatedRepositoryOrReplica>,
    pub metadata: ServerMetadata,
    pub geoapi: GeoapiServerQuery,
}

/// A server whose scrape failed, and why.
#[derive(Debug, Clone, PartialEq)]
pub struct FailedServer {
    pub hostname: Hostname,
    pub server_type: ServerType,
    pub backend_type: ServerBackendType,
    pub error: CVMFSScraperError,
}

/// The outcome of the scrape of one server.
#[derive(Debug, Clone, PartialEq)]
pub enum ScrapedServer {
    Populated(PopulatedServer),
    Failed(FailedServer),
}

impl ScrapedServer {
    /// Whether the scrape failed.
    pub fn is_failed(&self) -> (r: bool)
        ensures
            r == (self is Failed),
    {
        match self {
            ScrapedServer::Failed(_) => true,
            ScrapedServer::Populated(_) => false,
        }
    }

    /// Whether the scrape succeeded.
    pub fn is_ok(&self) -> (r: bool)
        ensures
            r == (self is Populated),
    {
        match self {
            ScrapedServer::Populated(_) => true,
            ScrapedServer::Failed(_) => false,
        }
    }

    /// The server, where the scrape succeeded.
    pub fn get_populated_server(self) -> (r: Result<PopulatedServer, GenericError>)
        ensures
            match self {
                ScrapedServer::Populated(server) => r == Ok::<PopulatedServer, GenericError>(server),
                ScrapedServer::Failed(failed) => r matches Err(GenericError::TypeError(t)) && t@
                    == failed.hostname@ + " is a failed server"@,
            },
    {
        match self {
            ScrapedServer::Populated(server) => Ok(server),
            ScrapedServer::Failed(failed) => Err(
                GenericError::TypeError(concatenated(failed.hostname.as_str(), " is a failed server")),
            ),
        }
    }

    /// The failure, where the scrape failed.
    pub fn get_failed_server(self) -> (r: Result<FailedServer, GenericError>)
        ensures
            match self {
                ScrapedServer::Failed(failed) => r == Ok::<FailedServer, GenericError>(failed),
                ScrapedServer::Populated(server) => r matches Err(GenericError::TypeError(t)) && t@
                    == server.hostname@ + " is a populated server"@,
            },
    {
        match self {
            ScrapedServer::Failed(failed) => Ok(failed),
            ScrapedServer::Populated(server) => Err(
                GenericError::TypeError(concatenated(server.hostname.as_str(), " is a populated server")),
            ),
        }
    }
}

/// The names of the repositories, in order.
pub open spec fn populated_names(repos: Seq<PopulatedRepositoryOrReplica>) -> Seq<Seq<char>> {
    Seq::new(repos.len(), |i: int| repos[i].name@)
}

impl PopulatedServer {
    /// Whether a repository of this name was scraped.
    pub fn has_repository(&self, repository: &str) -> (r: bool)
        ensures
            r == populated_names(self.repositories@).contains(repository@),
    {
        let mut i: usize = 0;
        while i < self.repositories.len()
            invariant
                i <= self.repositories.len(),
                forall|j: int| 0 <= j < i ==> self.repositories[j].name@ != repository@,
            decreases self.repositories.len() - i,
        {
            if compare_names(self.repositories[i].name.as_str(), repository) == NameOrder::Same {
                assert(populated_names(self.repositories@)[i as int] == repository@);
                return true;
            }
            i += 1;
        }
        false
    }

    /// The server in one line: its hostname, then its role and its backend.
    pub fn to_string(&self) -> (s: String)
        ensures
            s@ == self.hostname@ + " ("@ + self.server_type.name_text() + ", "@
                + self.backend_type.name_text() + ")"@,
    {
        let mut s = concatenated(self.hostname.as_str(), " (");
        s.append(self.server_type.name().as_str());
        s.append(", ");
        s.append(self.backend_type.name().as_str());
        s.append(")");
        s
    }
}

impl PopulatedRepositoryOrReplica {
    /// The number of the revision that the manifest describes.
    pub fn revision(&self) -> (r: i32)
        ensures
            r == self.manifest.s,
    {
        self.manifest.s
    }
}

impl MetadataFromRepoJSON {
    /// The metadata of a server without self-description: no field is set.
    pub open spec fn is_unset(&self) -> bool {
        &&& self.schema_version is None
        &&& self.cvmfs_version is None
        &&& self.last_geodb_update.0 is None
        &&& self.os_version_id is None
        &&& self.os_pretty_name is None
        &&& self.os_id is None
    }

    /// The metadata of a server without self-description.
    pub fn unset() -> (r: MetadataFromRepoJSON)
        ensures
            r.is_unset(),
    {
        MetadataFromRepoJSON {
            schema_version: None,
            cvmfs_version: None,
            last_geodb_update: MaybeRfc2822DateTime(None),
            os_version_id: None,
            os_pretty_name: None,
            os_id: None,
        }
    }

    /// Whether this is what `repo_json` says of the host, but for the version.
    pub open spec fn taken_from(&self, repo_json: RepositoriesJSON) -> bool {
        &&& self.schema_version == Some(repo_json.schema)
        &&& self.last_geodb_update == repo_json.last_geodb_update
        &&& self.os_version_id == repo_json.os_version_id
        &&& self.os_pretty_name == repo_json.os_pretty_name
        &&& self.os_id == repo_json.os_id
    }

    /// The metadata that a self-description gives, with the version as it was read.
    pub fn with_version(repo_json: &RepositoriesJSON, version: Option<Version>) -> (r:
        MetadataFromRepoJSON)
        ensures
            r.taken_from(*repo_json),
            r.cvmfs_version == version,
    {
        MetadataFromRepoJSON {
            schema_version: Some(repo_json.schema),
            cvmfs_version: version,
            last_geodb_update: repo_json.last_geodb_update.clone(),
            os_version_id: repo_json.os_version_id.clone(),
            os_pretty_name: repo_json.os_pretty_name.clone(),
            os_id: repo_json.os_id.clone(),
        }
    }

    /// The metadata that a self-description gives, given what reading its version
    /// gave, if it has a version: the version as it was read, or a conversion error
    /// that carries the reason why it could not be read.
    pub fn from_parsed_version(
        repo_json: &RepositoriesJSON,
        parsed: Option<Result<Version, String>>,
    ) -> (r: Result<MetadataFromRepoJSON, ScrapeError>)
        ensures
            match parsed {
                None => r matches Ok(m) && m.taken_from(*repo_json) && m.cvmfs_version is None,
                Some(Ok(version)) => r matches Ok(m) && m.taken_from(*repo_json) && m.cvmfs_version
                    == Some(version),
                Some(Err(reason)) => r matches Err(ScrapeError::ConversionError(t)) && t@
                    == reason@,
            },
    {
        match parsed {
            None => Ok(MetadataFromRepoJSON::with_version(repo_json, None)),
            Some(Ok(version)) => Ok(MetadataFromRepoJSON::with_version(repo_json, Some(version))),
            Some(Err(reason)) => Err(ScrapeError::ConversionError(reason)),
        }
    }

    /// The metadata that a self-description gives. The version of the software,
    /// where the self-description has one, is read as a semantic version; one that
    /// cannot be read is a conversion error that carries the reason.
    pub fn try_from(repo_json: &RepositoriesJSON) -> (r: Result<MetadataFromRepoJSON, ScrapeError>)
        ensures
            repo_json.cvmfs_version is None ==> (r matches Ok(m) && m.taken_from(*repo_json)
                && m.cvmfs_version is None),
            repo_json.cvmfs_version matches Some(text) ==> match semver_parse(text@) {
                Ok(fields) => r matches Ok(m) && m.taken_from(*repo_json) && (
                m.cvmfs_version matches Some(v) && v.fields() == fields),
                Err(reason) => r matches Err(ScrapeError::ConversionError(t)) && t@ == reason,
            },
    {
        let parsed = match &repo_json.cvmfs_version {
            None => None,
            Some(text) => Some(parse_semver(text.as_str())),
        };
        MetadataFromRepoJSON::from_parsed_version(repo_json, parsed)
    }
}

impl ServerMetadata {
    /// The metadata of a server that publishes no contact fields: no field is set.
    pub fn unset() -> (r: ServerMetadata)
        ensures
            r.schema_version is None,
            r.cvmfs_version is None,
            r.last_geodb_update.0 is None,
            r.os_version_id is None,
            r.os_pretty_name is None,
            r.os_id is None,
            r.administrator is None,
            r.email is None,
            r.organisation is None,
            r.custom is None,
    {
        ServerMetadata {
            schema_version: None,
            cvmfs_version: None,
            last_geodb_update: MaybeRfc2822DateTime(None),
            os_version_id: None,
            os_pretty_name: None,
            os_id: None,
            administrator: None,
            email: None,
            organisation: None,
            custom: None,
        }
    }

    /// The metadata that the contact fields give: they are set, and no field of the
    /// self-description is.
    pub fn from(meta: MetaJSON) -> (r: ServerMetadata)
        ensures
            r.schema_version is None,
            r.cvmfs_version is None,
            r.last_geodb_update.0 is None,
            r.os_version_id is None,
            r.os_pretty_name is None,
            r.os_id is None,
            r.administrator == Some(meta.administrator),
            r.email == Some(meta.email),
            r.organisation == Some(meta.organisation),
            r.custom == Some(meta.custom),
    {
        ServerMetadata {
            schema_version: None,
            cvmfs_version: None,
            last_geodb_update: MaybeRfc2822DateTime(None),
            os_version_id: None,
            os_pretty_name: None,
            os_id: None,
            administrator: Some(meta.administrator),
            email: Some(meta.email),
            organisation: Some(meta.organisation),
            custom: Some(meta.custom),
        }
    }

    /// Whether the fields of the self-description are those of `repo_meta`.
    pub open spec fn has_repo_fields(&self, repo_meta: MetadataFromRepoJSON) -> bool {
        &&& self.schema_version == repo_meta.schema_version
        &&& self.cvmfs_version == repo_meta.cvmfs_version
        &&& self.last_geodb_update == repo_meta.last_geodb_update
        &&& self.os_version_id == repo_meta.os_version_id
        &&& self.os_pretty_name == repo_meta.os_pretty_name
        &&& self.os_id == repo_meta.os_id
    }

    /// Whether the contact fields are those of `other`.
    pub open spec fn same_contact_fields(&self, other: ServerMetadata) -> bool {
        &&& self.administrator == other.administrator
        &&& self.email == other.email
        &&& self.organisation == other.organisation
        &&& self.custom == other.custom
    }

    /// Whether the contact fields are those of `meta_json`: set where there are
    /// any, unset where there are none.
    pub open spec fn has_contact_fields(&self, meta_json: Option<MetaJSON>) -> bool {
        match meta_json {
            Some(meta) => {
                &&& self.administrator == Some(meta.administrator)
                &&& self.email == Some(meta.email)
                &&& self.organisation == Some(meta.organisation)
                &&& self.custom == Some(meta.custom)
            },
            None => {
                &&& self.administrator is None
                &&& self.email is None
                &&& self.organisation is None
                &&& self.custom is None
            },
        }
    }

    /// Takes the fields of the self-description from `repo_meta`. The contact
    /// fields stay as they are.
    pub fn merge_repo_metadata(&mut self, repo_meta: MetadataFromRepoJSON)
        ensures
            final(self).has_repo_fields(repo_meta),
            final(self).same_contact_fields(*old(self)),
    {
        self.schema_version = repo_meta.schema_version;
        self.cvmfs_version = repo_meta.cvmfs_version;
        self.last_geodb_update = repo_meta.last_geodb_update;
        self.os_version_id = repo_meta.os_version_id;
        self.os_pretty_name = repo_meta.os_pretty_name;
        self.os_id = repo_meta.os_id;
    }
}

impl Server {
    /// A server with this role, this backend and this hostname.
    pub fn new(server_type: ServerType, backend_type: ServerBackendType, hostname: Hostname) -> (r:
        Server)
        ensures
            r == (Server { server_type, backend_type, hostname }),
    {
        Server { server_type, backend_type, hostname }
    }

    /// The failure of this server with `error`.
    pub fn to_failed_server(&self, error: CVMFSScraperError) -> (r: FailedServer)
        ensures
            r == (FailedServer {
                hostname: self.hostname,
                server_type: self.server_type,
                backend_type: self.backend_type,
                error,
            }),
    {
        FailedServer {
            hostname: self.hostname.clone(),
            server_type: self.server_type,
            backend_type: self.backend_type,
            error,
        }
    }

    /// How the role of a server contradicts a self-description, if it does: a
    /// stratum 0 has no replicas, a stratum 1 and a sync server have some.
    pub open spec fn role_contradiction(server_type: ServerType, has_replicas: bool) -> Option<
        Seq<char>,
    > {
        match (server_type, has_replicas) {
            (ServerType::Stratum0, true) => Some(
                " is a Stratum0 server, but replicas were found in the repositories.json"@,
            ),
            (ServerType::Stratum1, false) => Some(
                " is a Stratum1 server, but no replicas were found in the repositories.json"@,
            ),
            (ServerType::SyncServer, false) => Some(
                " is a SyncServer, but no replicas were found in the repositories.json"@,
            ),
            _ => None,
        }
    }

    /// Holds the role of the server against its self-description. A contradiction
    /// is a mismatch of the server type, reported with the hostname, the role and
    /// what was found.
    pub fn validate_repo_json_and_server_type(&self, repo_json: &RepositoriesJSON) -> (r: Result<
        (),
        CVMFSScraperError,
    >)
        ensures
            match Server::role_contradiction(self.server_type, repo_json.replicas.len() > 0) {
                None => r is Ok,
                Some(found) => r matches Err(
                    CVMFSScraperError::ScrapeError(ScrapeError::ServerTypeMismatch(t)),
                ) && t@ == self.hostname@ + found,
            },
    {
        let has_replicas = repo_json.replicas.len() > 0;
        match (self.server_type, has_replicas) {
            (ServerType::Stratum0, true) => Err(
                CVMFSScraperError::ScrapeError(
                    ScrapeError::ServerTypeMismatch(
                        concatenated(
                            self.hostname.as_str(),
                            " is a Stratum0 server, but replicas were found in the repositories.json",
                        ),
                    ),
                ),
            ),
            (ServerType::Stratum1, false) => Err(
                CVMFSScraperError::ScrapeError(
                    ScrapeError::ServerTypeMismatch(
                        concatenated(
                            self.hostname.as_str(),
                            " is a Stratum1 server, but no replicas were found in the repositories.json",
                        ),
                    ),
                ),
            ),
            (ServerType::SyncServer, false) => Err(
                CVMFSScraperError::ScrapeError(
                    ScrapeError::ServerTypeMismatch(
                        concatenated(
                            self.hostname.as_str(),
                            " is a SyncServer, but no replicas were found in the repositories.json",
                        ),
                    ),
                ),
            ),
            _ => Ok(()),
        }
    }

    /// Puts the two sources of metadata together. Each owns its fields: those of the
    /// self-description come from `repo_meta`, the contact fields from `meta_json`,
    /// and neither changes the other's.
    pub fn merge_metadata(&self, repo_meta: MetadataFromRepoJSON, meta_json: Option<MetaJSON>) -> (r:
        ServerMetadata)
        ensures
            r.has_repo_fields(repo_meta),
            r.has_contact_fields(meta_json),
    {
        let mut server_metadata = match meta_json {
            Some(meta) => ServerMetadata::from(meta),
            None => ServerMetadata::unset(),
        };
        server_metadata.merge_repo_metadata(repo_meta);
        server_metadata
    }
}

impl RepositoryOrReplica {
    /// The repository `name` on `server`.
    pub fn new(name: &str, server: &Server) -> (r: RepositoryOrReplica)
        ensures
            r.server == *server,
            r.name@ == name@,
    {
        RepositoryOrReplica { server: server.clone(), name: name.to_owned() }
    }

    /// The repository as scraped, from what its two fetches gave: the status file
    /// as it was decoded, and the text of the manifest. Both have to have
    /// succeeded, and the manifest has to be readable. A failed status is reported
    /// before anything that is wrong with the manifest.
    pub fn populate(
        &self,
        status: Result<StatusJSON, ScrapeError>,
        manifest: Result<String, ManifestError>,
    ) -> (r: Result<PopulatedRepositoryOrReplica, CVMFSScraperError>)
        ensures
            match status {
                Err(e) => r == Err::<PopulatedRepositoryOrReplica, CVMFSScraperError>(
                    CVMFSScraperError::ScrapeError(e),
                ),
                Ok(status_json) => match manifest {
                    Err(e) => r == Err::<PopulatedRepositoryOrReplica, CVMFSScraperError>(
                        CVMFSScraperError::ManifestError(e),
                    ),
                    Ok(text) => match parse_manifest(text@) {
                        Err(fault) => r matches Err(CVMFSScraperError::ManifestError(e)) && e@
                            == fault,
                        Ok(m) => r matches Ok(repo) && repo.name@ == self.name@ && repo.manifest@
                            == m && repo.last_snapshot == status_json.last_snapshot && repo.last_gc
                            == status_json.last_gc,
                    },
                },
            },
    {
        let status_json = match status {
            Ok(s) => s,
            Err(e) => return Err(CVMFSScraperError::ScrapeError(e)),
        };
        let text = match manifest {
            Ok(t) => t,
            Err(e) => return Err(CVMFSScraperError::ManifestError(e)),
        };
        match Manifest::from_str(text.as_str()) {
            Err(e) => Err(CVMFSScraperError::ManifestError(e)),
            Ok(manifest) => Ok(
                PopulatedRepositoryOrReplica {
                    name: self.name.clone(),
                    manifest,
                    last_snapshot: status_json.last_snapshot,
                    last_gc: status_json.last_gc,
                },
            ),
        }
    }
}

} // verus!
