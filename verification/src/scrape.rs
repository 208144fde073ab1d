//! The scrape of one server, as a machine that the caller drives.
//!
//! A scrape alternates requests and decisions. The library makes the decisions:
//! it says which document to fetch next, takes the answer, and in the end gives
//! the outcome. The caller does the fetching. `Server::begin_scrape` starts a
//! scrape and `ServerScrape::advance` takes it one answer further.

use vstd::prelude::*;
use crate::constants::default_geoapi_servers;
use crate::errors::{CVMFSScraperError, ManifestError, ScrapeError};
use crate::models::cvmfs_published::parse_manifest;
use crate::models::cvmfs_status_json::StatusJSON;
use crate::models::generic::Hostname;
use crate::models::geoapi::{
    all_indices, first_bad_index, host_names, indices_of, parse_index, response_pieces,
    GeoapiServerQuery,
};
use crate::models::meta_json::MetaJSON;
use crate::models::repositories_json::RepositoriesJSON;
use crate::models::resolved::{strictly_sorted, texts, ResolvedRepositorySet};
use crate::models::servers::{
    populated_names, FailedServer, MetadataFromRepoJSON, PopulatedRepositoryOrReplica,
    PopulatedServer, RepositoryOrReplica, ScrapedServer, Server, ServerBackendType,
    ServerMetadata, ServerType,
};
use crate::text::{concatenated, join};
use crate::versions::semver_parse;

verus! {

/// A document that the scrape needs from the server.
#[derive(Debug, Clone, PartialEq)]
pub enum ScrapeRequest {
    /// The self-description, `cvmfs/info/v1/repositories.json`.
    RepositoriesJson,
    /// The status file of the named repository, `cvmfs/<name>/.cvmfs_status.json`.
    RepositoryStatus(String),
    /// The manifest of the named repository, `cvmfs/<name>/.cvmfspublished`.
    RepositoryManifest(String),
    /// The contact file, `cvmfs/info/v1/meta.json`.
    MetaJson,
    /// The ranking of `hosts` by the GeoAPI, asked under `repository`.
    Geoapi { repository: String, hosts: Vec<Hostname> },
}

/// What came of a request. A fetch failed where the transport failed or the
/// status was outside 2xx; a fetched document may still fail to decode.
#[derive(Debug, PartialEq)]
pub enum ScrapeResponse {
    /// The self-description, decoded; or why there is none.
    RepositoriesJson(Result<RepositoriesJSON, ScrapeError>),
    /// The status file, decoded; or why there is none.
    RepositoryStatus(Result<StatusJSON, ScrapeError>),
    /// The text of the manifest; or why there is none.
    RepositoryManifest(Result<String, ManifestError>),
    /// The contact file, decoded; or why there is none.
    MetaJson(Result<MetaJSON, ScrapeError>),
    /// The text that the GeoAPI answered, or why there is none, and the token
    /// under which it was asked.
    Geoapi { token: String, body: Result<String, ScrapeError> },
}

/// What the scrape does next: it asks for a document, or it is over.
#[derive(Debug, Clone, PartialEq)]
pub enum ScrapeStep {
    Fetch(ScrapeRequest),
    Finished(ScrapedServer),
}

/// The answer that a scrape waits for.
#[derive(Debug, Clone, Copy, PartialEq, Eq, Structural)]
pub enum ScrapePhase {
    AwaitingRepositoriesJson,
    AwaitingStatus,
    AwaitingManifest,
    AwaitingMetaJson,
    AwaitingGeoapi,
    Finished,
}

/// A scrape under way.
#[derive(Debug, Clone, PartialEq)]
pub struct ServerScrape {
    /// The server that is scraped.
    pub server: Server,
    /// The names that are never scraped.
    pub ignored: Vec<String>,
    /// Whether the names that the server advertises are left out.
    pub only_forced: bool,
    /// The hosts that the GeoAPI is asked to rank.
    pub geoapi_servers: Vec<Hostname>,
    /// The answer that is awaited.
    pub phase: ScrapePhase,
    /// The backend, as far as it is known.
    pub backend_detected: ServerBackendType,
    /// What the self-description said of the host.
    pub repo_metadata: MetadataFromRepoJSON,
    /// The repositories to scrape.
    pub names: ResolvedRepositorySet,
    /// The repositories scraped so far: the first of `names`, in order.
    pub populated: Vec<PopulatedRepositoryOrReplica>,
    /// The status of the repository whose manifest is awaited.
    pub status: Option<StatusJSON>,
    /// The metadata of the server, once the contact file has been asked for.
    pub metadata: Option<ServerMetadata>,
}

/// The names joined by commas.
pub open spec fn comma_separated(names: Seq<Seq<char>>) -> Seq<char> {
    join(names, ',')
}

/// The names of the hosts joined by commas.
pub fn join_hostnames(hosts: &Vec<Hostname>) -> (s: String)
    ensures
        s@ == comma_separated(host_names(hosts@)),
{
    let mut s = String::new();
    let mut i: usize = 0;
    let ghost names = host_names(hosts@);
    assert(names.take(0) =~= Seq::<Seq<char>>::empty());
    while i < hosts.len()
        invariant
            i <= hosts.len(),
            names == host_names(hosts@),
            s@ == comma_separated(names.take(i as int)),
        decreases hosts.len() - i,
    {
        proof {
            reveal_strlit(",");
            assert(names.take(i + 1).drop_last() =~= names.take(i as int));
            assert(names.take(i + 1).last() == hosts[i as int]@);
            if i == 0 {
                assert(s@ + hosts[i as int]@ =~= hosts[i as int]@);
            } else {
                assert(s@ + ","@ =~= s@.push(','));
            }
        }
        if i > 0 {
            s.append(",");
        }
        s.append(hosts[i].as_str());
        i += 1;
    }
    assert(names.take(hosts.len() as int) =~= names);
    s
}

impl ScrapeRequest {
    /// The address of the document on the server `hostname`. The probe of the
    /// GeoAPI carries `token` in its address, so that no cache answers in the
    /// server's place; the other addresses do not depend on it.
    pub open spec fn url_text(&self, hostname: Seq<char>, token: Seq<char>) -> Seq<char> {
        match self {
            ScrapeRequest::RepositoriesJson => "http://"@ + hostname
                + "/cvmfs/info/v1/repositories.json"@,
            ScrapeRequest::RepositoryStatus(name) => "http://"@ + hostname + "/cvmfs/"@ + name@
                + "/.cvmfs_status.json"@,
            ScrapeRequest::RepositoryManifest(name) => "http://"@ + hostname + "/cvmfs/"@ + name@
                + "/.cvmfspublished"@,
            ScrapeRequest::MetaJson => "http://"@ + hostname + "/cvmfs/info/v1/meta.json"@,
            ScrapeRequest::Geoapi { repository, hosts } => "http://"@ + hostname + "/cvmfs/"@
                + repository@ + "/api/v1.0/geo/"@ + token + "/"@ + comma_separated(
                host_names(hosts@),
            ),
        }
    }

    /// The address to fetch.
    pub fn url(&self, hostname: &Hostname, token: &str) -> (s: String)
        ensures
            s@ == self.url_text(hostname@, token@),
    {
        let mut s = concatenated("http://", hostname.as_str());
        match self {
            ScrapeRequest::RepositoriesJson => {
                s.append("/cvmfs/info/v1/repositories.json");
            },
            ScrapeRequest::RepositoryStatus(name) => {
                s.append("/cvmfs/");
                s.append(name.as_str());
                s.append("/.cvmfs_status.json");
            },
            ScrapeRequest::RepositoryManifest(name) => {
                s.append("/cvmfs/");
                s.append(name.as_str());
                s.append("/.cvmfspublished");
            },
            ScrapeRequest::MetaJson => {
                s.append("/cvmfs/info/v1/meta.json");
            },
            ScrapeRequest::Geoapi { repository, hosts } => {
                s.append("/cvmfs/");
                s.append(repository.as_str());
                s.append("/api/v1.0/geo/");
                s.append(token);
                s.append("/");
                s.append(join_hostnames(hosts).as_str());
            },
        }
        s
    }
}


/// The step that ends a scrape of `server` in failure with `error`.
pub open spec fn failure_of(server: Server, error: CVMFSScraperError) -> ScrapeStep {
    ScrapeStep::Finished(
        ScrapedServer::Failed(
            FailedServer {
                hostname: server.hostname,
                server_type: server.server_type,
                backend_type: server.backend_type,
                error,
            },
        ),
    )
}

/// Whether the step ends a scrape of `server` in failure with a scrape error.
pub open spec fn fails_with_scrape_error(step: ScrapeStep, server: Server) -> bool {
    &&& step matches ScrapeStep::Finished(ScrapedServer::Failed(failed))
    &&& failed.hostname == server.hostname
    &&& failed.server_type == server.server_type
    &&& failed.backend_type == server.backend_type
    &&& failed.error is ScrapeError
}

/// The scrape error with which the step ends the scrape.
pub open spec fn scrape_error_of(step: ScrapeStep) -> ScrapeError {
    step->Finished_0->Failed_0.error->ScrapeError_0
}

/// The reason why the version in a self-description cannot be read, if it has
/// one that cannot.
pub open spec fn version_fault(json: RepositoriesJSON) -> Option<Seq<char>> {
    match json.cvmfs_version {
        Some(text) => match semver_parse(text@) {
            Err(reason) => Some(reason),
            Ok(_) => None,
        },
        None => None,
    }
}

/// Whether `metadata` is what the self-description says of the host.
pub open spec fn metadata_from(metadata: MetadataFromRepoJSON, json: RepositoriesJSON) -> bool {
    &&& metadata.taken_from(json)
    &&& match json.cvmfs_version {
        Some(text) => metadata.cvmfs_version matches Some(v) && semver_parse(text@) == Ok::<
            (u64, u64, u64, Seq<char>, Seq<char>),
            Seq<char>,
        >(v.fields()),
        None => metadata.cvmfs_version is None,
    }
}

/// What fails a scrape in a self-description.
pub enum SelfDescriptionFault {
    /// It contradicts the role of the server; the text says how.
    RoleMismatch(Seq<char>),
    /// Its version cannot be read; the text says why.
    UnreadableVersion(Seq<char>),
}

/// The text that reports a failed probe of the GeoAPI.
pub open spec fn geoapi_fetch_message(server: Server, token: Seq<char>) -> Seq<char> {
    "Failed to fetch geoapi for "@ + server.hostname@ + " on "@ + server.backend_type.name_text()
        + " (with "@ + token + ")"@
}

impl ServerScrape {
    /// Whether the backend has been settled: it is no longer unknown, and it is the
    /// one that was configured, if one was.
    pub open spec fn backend_settled(&self) -> bool {
        &&& self.backend_detected != ServerBackendType::AutoDetect
        &&& self.server.backend_type != ServerBackendType::AutoDetect ==> self.backend_detected
            == self.server.backend_type
    }

    /// What holds of a scrape at every step: the repositories are in the order of
    /// their names, those scraped so far are the first of them, and the rest fits
    /// the answer that is awaited.
    pub open spec fn wf(&self) -> bool {
        &&& self.phase != ScrapePhase::Finished ==> {
            &&& strictly_sorted(self.names@)
            &&& self.populated.len() <= self.names@.len()
            &&& populated_names(self.populated@) == self.names@.take(self.populated.len() as int)
        }
        &&& match self.phase {
            ScrapePhase::AwaitingRepositoriesJson => {
                &&& self.server.backend_type != ServerBackendType::S3
                &&& self.backend_detected == self.server.backend_type
                &&& self.populated.len() == 0
                &&& self.repo_metadata.is_unset()
                &&& self.status is None
                &&& self.metadata is None
            },
            ScrapePhase::AwaitingStatus => {
                &&& self.backend_settled()
                &&& self.populated.len() < self.names@.len()
                &&& self.status is None
                &&& self.metadata is None
            },
            ScrapePhase::AwaitingManifest => {
                &&& self.backend_settled()
                &&& self.populated.len() < self.names@.len()
                &&& self.status is Some
                &&& self.metadata is None
            },
            ScrapePhase::AwaitingMetaJson => {
                &&& self.backend_settled()
                &&& self.populated.len() == self.names@.len()
                &&& self.metadata is None
            },
            ScrapePhase::AwaitingGeoapi => {
                &&& self.backend_detected == ServerBackendType::CVMFS
                &&& self.server.backend_type != ServerBackendType::S3
                &&& self.server.server_type != ServerType::Stratum0
                &&& self.populated.len() == self.names@.len()
                &&& self.populated.len() > 0
                &&& self.metadata is Some
            },
            ScrapePhase::Finished => true,
        }
    }

    /// Whether `response` answers what the scrape waits for.
    pub open spec fn accepts(&self, response: ScrapeResponse) -> bool {
        match (self.phase, response) {
            (ScrapePhase::AwaitingRepositoriesJson, ScrapeResponse::RepositoriesJson(_)) => true,
            (ScrapePhase::AwaitingStatus, ScrapeResponse::RepositoryStatus(_)) => true,
            (ScrapePhase::AwaitingManifest, ScrapeResponse::RepositoryManifest(_)) => true,
            (ScrapePhase::AwaitingMetaJson, ScrapeResponse::MetaJson(_)) => true,
            (ScrapePhase::AwaitingGeoapi, ScrapeResponse::Geoapi { .. }) => true,
            _ => false,
        }
    }

    /// Whether `post` has what the caller configured as `self` has it.
    pub open spec fn same_configuration(&self, post: ServerScrape) -> bool {
        &&& post.server == self.server
        &&& post.ignored == self.ignored
        &&& post.only_forced == self.only_forced
        &&& post.geoapi_servers == self.geoapi_servers
    }

    /// Whether the scrape goes on to its repositories: the next one that is not yet
    /// scraped is asked for its status, or, where none is left, the server for its
    /// contact file.
    pub open spec fn turns_to_repositories(&self, step: ScrapeStep) -> bool {
        if self.populated.len() < self.names@.len() {
            &&& self.phase == ScrapePhase::AwaitingStatus
            &&& self.status is None
            &&& step matches ScrapeStep::Fetch(ScrapeRequest::RepositoryStatus(name))
            &&& name@ == self.names@[self.populated.len() as int]
        } else {
            &&& self.phase == ScrapePhase::AwaitingMetaJson
            &&& step == ScrapeStep::Fetch(ScrapeRequest::MetaJson)
        }
    }

    /// Whether `server` is the outcome of this scrape with this metadata and this
    /// answer of the GeoAPI.
    pub open spec fn populates(
        &self,
        server: PopulatedServer,
        metadata: ServerMetadata,
        response: Seq<u32>,
    ) -> bool {
        &&& server.server_type == self.server.server_type
        &&& server.backend_type == self.server.backend_type
        &&& server.backend_detected == self.backend_detected
        &&& server.hostname == self.server.hostname
        &&& server.repositories == self.populated
        &&& server.metadata == metadata
        &&& server.geoapi.hostname == self.server.hostname
        &&& server.geoapi.geoapi_hosts == self.geoapi_servers
        &&& server.geoapi.response@ == response
    }

    /// Whether the GeoAPI is asked: not for a stratum 0, not for a server without
    /// repositories, and not for an object store.
    pub open spec fn probes_geoapi(&self) -> bool {
        &&& self.populated.len() > 0
        &&& self.server.server_type != ServerType::Stratum0
        &&& self.backend_detected != ServerBackendType::S3
    }

    /// What fails the scrape in a self-description that was fetched, if anything
    /// does: its version cannot be read, or it contradicts the role of the server.
    /// Where both hold, the role is reported where the backend is to be detected,
    /// and the version where the backend is configured.
    pub open spec fn self_description_fault(&self, json: RepositoriesJSON) -> Option<
        SelfDescriptionFault,
    > {
        let contradiction = Server::role_contradiction(
            self.server.server_type,
            json.replicas.len() > 0,
        );
        let unreadable = version_fault(json);
        if contradiction is Some && (self.server.backend_type == ServerBackendType::AutoDetect
            || unreadable is None) {
            Some(SelfDescriptionFault::RoleMismatch(contradiction->Some_0))
        } else if unreadable is Some {
            Some(SelfDescriptionFault::UnreadableVersion(unreadable->Some_0))
        } else {
            None
        }
    }

    /// The step for the self-description.
    ///
    /// A self-description that was fetched is held against the role of the server,
    /// and its version is read; either can fail the scrape. Then the backend is
    /// CVMFS, and the names that the server advertises join the repositories to
    /// scrape, without the ignored ones, unless only the forced ones are wanted.
    /// A self-description that could not be fetched fails the scrape, unless the
    /// backend was to be detected: then the backend is S3 and the scrape goes on
    /// with the repositories that it has.
    pub open spec fn after_repositories_json(
        &self,
        answer: Result<RepositoriesJSON, ScrapeError>,
        post: ServerScrape,
        step: ScrapeStep,
    ) -> bool {
        match answer {
            Err(e) => if self.server.backend_type == ServerBackendType::AutoDetect && e
                is FetchError {
                &&& self.same_configuration(post)
                &&& post.backend_detected == ServerBackendType::S3
                &&& post.repo_metadata.is_unset()
                &&& post.names@ == self.names@
                &&& post.populated.len() == 0
                &&& post.turns_to_repositories(step)
            } else {
                &&& post.phase == ScrapePhase::Finished
                &&& step == failure_of(self.server, CVMFSScraperError::ScrapeError(e))
            },
            Ok(json) => match self.self_description_fault(json) {
                Some(SelfDescriptionFault::RoleMismatch(found)) => {
                    &&& post.phase == ScrapePhase::Finished
                    &&& fails_with_scrape_error(step, self.server)
                    &&& scrape_error_of(step) matches ScrapeError::ServerTypeMismatch(t)
                    &&& t@ == self.server.hostname@ + found
                },
                Some(SelfDescriptionFault::UnreadableVersion(reason)) => {
                    &&& post.phase == ScrapePhase::Finished
                    &&& fails_with_scrape_error(step, self.server)
                    &&& scrape_error_of(step) matches ScrapeError::ConversionError(t)
                    &&& t@ == reason
                },
                None => {
                    &&& self.same_configuration(post)
                    &&& post.backend_detected == ServerBackendType::CVMFS
                    &&& metadata_from(post.repo_metadata, json)
                    &&& strictly_sorted(post.names@)
                    &&& forall|x: Seq<char>|
                        #![trigger post.names@.contains(x)]
                        post.names@.contains(x) <==> self.names@.contains(x) || (
                        !self.only_forced && json.advertised_names().contains(x) && !texts(
                            self.ignored@,
                        ).contains(x))
                    &&& post.populated.len() == 0
                    &&& post.turns_to_repositories(step)
                },
            },
        }
    }

    /// The step for the status of a repository: a failure fails the scrape; a
    /// status is kept, and the manifest of the same repository is asked for.
    pub open spec fn after_status(
        &self,
        answer: Result<StatusJSON, ScrapeError>,
        post: ServerScrape,
        step: ScrapeStep,
    ) -> bool {
        match answer {
            Err(e) => {
                &&& post.phase == ScrapePhase::Finished
                &&& step == failure_of(self.server, CVMFSScraperError::ScrapeError(e))
            },
            Ok(status) => {
                &&& post == (ServerScrape {
                    phase: ScrapePhase::AwaitingManifest,
                    status: Some(status),
                    ..*self
                })
                &&& step matches ScrapeStep::Fetch(ScrapeRequest::RepositoryManifest(name))
                &&& name@ == self.names@[self.populated.len() as int]
            },
        }
    }

    /// The step for the manifest of a repository: a failure, or a text that cannot
    /// be read, fails the scrape, and what was scraped so far is dropped; a
    /// manifest makes, with the status, one more scraped repository, and the scrape
    /// turns to the next.
    pub open spec fn after_manifest(
        &self,
        answer: Result<String, ManifestError>,
        post: ServerScrape,
        step: ScrapeStep,
    ) -> bool {
        match answer {
            Err(e) => {
                &&& post.phase == ScrapePhase::Finished
                &&& step == failure_of(self.server, CVMFSScraperError::ManifestError(e))
            },
            Ok(text) => match parse_manifest(text@) {
                Err(fault) => {
                    &&& post.phase == ScrapePhase::Finished
                    &&& step matches ScrapeStep::Finished(ScrapedServer::Failed(failed))
                    &&& failed.hostname == self.server.hostname
                    &&& failed.server_type == self.server.server_type
                    &&& failed.backend_type == self.server.backend_type
                    &&& failed.error matches CVMFSScraperError::ManifestError(e)
                    &&& e@ == fault
                },
                Ok(manifest) => {
                    &&& self.same_configuration(post)
                    &&& post.backend_detected == self.backend_detected
                    &&& post.repo_metadata == self.repo_metadata
                    &&& post.names@ == self.names@
                    &&& post.metadata == self.metadata
                    &&& post.populated.len() == self.populated.len() + 1
                    &&& post.populated@.take(self.populated.len() as int) == self.populated@
                    &&& post.populated@.last().name@ == self.names@[self.populated.len() as int]
                    &&& post.populated@.last().manifest@ == manifest
                    &&& post.populated@.last().last_snapshot == self.status->Some_0.last_snapshot
                    &&& post.populated@.last().last_gc == self.status->Some_0.last_gc
                    &&& post.turns_to_repositories(step)
                },
            },
        }
    }

    /// The step for the contact file. The file is optional: whatever went wrong
    /// with it, the scrape goes on, and the metadata has no contact fields. Then
    /// the GeoAPI is asked, under the first repository, to rank the hosts; or,
    /// where it is not asked, the scrape ends with an empty answer of the GeoAPI.
    pub open spec fn after_meta_json(
        &self,
        answer: Result<MetaJSON, ScrapeError>,
        post: ServerScrape,
        step: ScrapeStep,
    ) -> bool {
        let contact = match answer {
            Ok(meta) => Some(meta),
            Err(_) => None,
        };
        if self.probes_geoapi() {
            &&& post.phase == ScrapePhase::AwaitingGeoapi
            &&& self.same_configuration(post)
            &&& post.backend_detected == self.backend_detected
            &&& post.names@ == self.names@
            &&& post.populated == self.populated
            &&& post.metadata matches Some(metadata)
            &&& metadata.has_repo_fields(self.repo_metadata)
            &&& metadata.has_contact_fields(contact)
            &&& step matches ScrapeStep::Fetch(ScrapeRequest::Geoapi { repository, hosts })
            &&& repository@ == self.populated[0].name@
            &&& hosts@ == self.geoapi_servers@
        } else {
            &&& post.phase == ScrapePhase::Finished
            &&& step matches ScrapeStep::Finished(ScrapedServer::Populated(server))
            &&& self.populates(server, server.metadata, Seq::empty())
            &&& server.metadata.has_repo_fields(self.repo_metadata)
            &&& server.metadata.has_contact_fields(contact)
        }
    }

    /// The step for the answer of the GeoAPI: a failed probe, or an answer that is
    /// not a list of numbers, fails the scrape; a list of numbers ends it well.
    pub open spec fn after_geoapi(
        &self,
        token: String,
        body: Result<String, ScrapeError>,
        post: ServerScrape,
        step: ScrapeStep,
    ) -> bool {
        &&& post.phase == ScrapePhase::Finished
        &&& match body {
            Err(_) => {
                &&& fails_with_scrape_error(step, self.server)
                &&& scrape_error_of(step) matches ScrapeError::GeoAPIFailure(t)
                &&& t@ == geoapi_fetch_message(self.server, token@)
            },
            Ok(text) => if all_indices(response_pieces(text@)) {
                &&& step matches ScrapeStep::Finished(ScrapedServer::Populated(server))
                &&& self.populates(
                    server,
                    self.metadata->Some_0,
                    indices_of(response_pieces(text@)),
                )
            } else {
                &&& fails_with_scrape_error(step, self.server)
                &&& scrape_error_of(step) matches ScrapeError::GeoAPIFailure(t)
                &&& forall|k: int|
                    first_bad_index(response_pieces(text@), k) ==> t@ == parse_index(
                        response_pieces(text@)[k],
                    )->Err_0.message()
            },
        }
    }

    /// What `advance` does with `response`: the step that belongs to the answer.
    pub open spec fn advances_to(&self, response: ScrapeResponse, post: ServerScrape, step: ScrapeStep) -> bool {
        match response {
            ScrapeResponse::RepositoriesJson(answer) => self.after_repositories_json(
                answer,
                post,
                step,
            ),
            ScrapeResponse::RepositoryStatus(answer) => self.after_status(answer, post, step),
            ScrapeResponse::RepositoryManifest(answer) => self.after_manifest(answer, post, step),
            ScrapeResponse::MetaJson(answer) => self.after_meta_json(answer, post, step),
            ScrapeResponse::Geoapi { token, body } => self.after_geoapi(token, body, post, step),
        }
    }
}


impl ServerScrape {
    /// Ends the scrape in failure.
    fn fail(self, error: CVMFSScraperError) -> (r: (ServerScrape, ScrapeStep))
        ensures
            r.0 == (ServerScrape { phase: ScrapePhase::Finished, ..self }),
            r.1 == failure_of(self.server, error),
    {
        let failed = self.server.to_failed_server(error);
        (
            ServerScrape { phase: ScrapePhase::Finished, ..self },
            ScrapeStep::Finished(ScrapedServer::Failed(failed)),
        )
    }

    /// Turns to the next repository that is not yet scraped, or to the contact file.
    fn turn_to_repositories(self) -> (r: (ServerScrape, ScrapeStep))
        requires
            self.backend_settled(),
            self.populated.len() <= self.names@.len(),
            populated_names(self.populated@) == self.names@.take(self.populated.len() as int),
            self.metadata is None,
        ensures
            r.0.wf(),
            r.0.turns_to_repositories(r.1),
            r.0 == (ServerScrape { phase: r.0.phase, status: r.0.status, ..self }),
    {
        let names = self.names.names();
        if self.populated.len() < names.len() {
            let name = names[self.populated.len()].clone();
            (
                ServerScrape { phase: ScrapePhase::AwaitingStatus, status: None, ..self },
                ScrapeStep::Fetch(ScrapeRequest::RepositoryStatus(name)),
            )
        } else {
            (
                ServerScrape { phase: ScrapePhase::AwaitingMetaJson, ..self },
                ScrapeStep::Fetch(ScrapeRequest::MetaJson),
            )
        }
    }

    /// Takes the self-description.
    fn take_repositories_json(self, answer: Result<RepositoriesJSON, ScrapeError>) -> (r: (
        ServerScrape,
        ScrapeStep,
    ))
        requires
            self.wf(),
            self.phase == ScrapePhase::AwaitingRepositoriesJson,
        ensures
            r.0.wf(),
            self.after_repositories_json(answer, r.0, r.1),
    {
        match answer {
            Err(e) => {
                if self.server.backend_type == ServerBackendType::AutoDetect && e.is_fetch_error() {
                    let state = ServerScrape { backend_detected: ServerBackendType::S3, ..self };
                    state.turn_to_repositories()
                } else {
                    self.fail(CVMFSScraperError::ScrapeError(e))
                }
            },
            Ok(json) => {
                let detecting = self.server.backend_type == ServerBackendType::AutoDetect;
                if detecting {
                    match self.server.validate_repo_json_and_server_type(&json) {
                        Err(error) => {
                            return self.fail(error);
                        },
                        Ok(_) => {},
                    }
                }
                let metadata = match MetadataFromRepoJSON::try_from(&json) {
                    Err(error) => {
                        return self.fail(CVMFSScraperError::ScrapeError(error));
                    },
                    Ok(m) => m,
                };
                if !detecting {
                    match self.server.validate_repo_json_and_server_type(&json) {
                        Err(error) => {
                            return self.fail(error);
                        },
                        Ok(_) => {},
                    }
                }
                let mut names = self.names;
                if !self.only_forced {
                    let advertised = json.repositories_and_replicas();
                    names.extend_advertised(&advertised, &self.ignored);
                }
                let state = ServerScrape {
                    server: self.server,
                    ignored: self.ignored,
                    only_forced: self.only_forced,
                    geoapi_servers: self.geoapi_servers,
                    phase: self.phase,
                    backend_detected: ServerBackendType::CVMFS,
                    repo_metadata: metadata,
                    names,
                    populated: self.populated,
                    status: self.status,
                    metadata: self.metadata,
                };
                assert(state.names@.take(0) =~= populated_names(state.populated@));
                state.turn_to_repositories()
            },
        }
    }

    /// Takes the status of the repository that is being scraped.
    fn take_status(self, answer: Result<StatusJSON, ScrapeError>) -> (r: (ServerScrape, ScrapeStep))
        requires
            self.wf(),
            self.phase == ScrapePhase::AwaitingStatus,
        ensures
            r.0.wf(),
            self.after_status(answer, r.0, r.1),
    {
        match answer {
            Err(e) => self.fail(CVMFSScraperError::ScrapeError(e)),
            Ok(status) => {
                let name = self.names.names()[self.populated.len()].clone();
                (
                    ServerScrape {
                        phase: ScrapePhase::AwaitingManifest,
                        status: Some(status),
                        ..self
                    },
                    ScrapeStep::Fetch(ScrapeRequest::RepositoryManifest(name)),
                )
            },
        }
    }

    /// Takes the manifest of the repository that is being scraped.
    fn take_manifest(self, answer: Result<String, ManifestError>) -> (r: (ServerScrape, ScrapeStep))
        requires
            self.wf(),
            self.phase == ScrapePhase::AwaitingManifest,
        ensures
            r.0.wf(),
            self.after_manifest(answer, r.0, r.1),
    {
        let repository = RepositoryOrReplica::new(
            self.names.names()[self.populated.len()].as_str(),
            &self.server,
        );
        let ghost before = self.populated@;
        let ghost names = self.names@;
        let ServerScrape {
            server,
            ignored,
            only_forced,
            geoapi_servers,
            phase,
            backend_detected,
            repo_metadata,
            names: resolved,
            populated,
            status,
            metadata,
        } = self;
        let mut populated = populated;
        match repository.populate(Ok(status.unwrap()), answer) {
            Err(error) => {
                let state = ServerScrape {
                    server,
                    ignored,
                    only_forced,
                    geoapi_servers,
                    phase,
                    backend_detected,
                    repo_metadata,
                    names: resolved,
                    populated,
                    status: None,
                    metadata,
                };
                state.fail(error)
            },
            Ok(repo) => {
                populated.push(repo);
                let state = ServerScrape {
                    server,
                    ignored,
                    only_forced,
                    geoapi_servers,
                    phase,
                    backend_detected,
                    repo_metadata,
                    names: resolved,
                    populated,
                    status: None,
                    metadata,
                };
                proof {
                    assert(state.populated@.take(before.len() as int) =~= before);
                    assert(populated_names(state.populated@) =~= names.take(before.len() as int + 1)) by {
                        assert forall|i: int| 0 <= i < before.len() implies populated_names(
                            state.populated@,
                        )[i] == names[i] by {
                            assert(populated_names(before)[i] == names.take(before.len() as int)[i]);
                        }
                    }
                }
                state.turn_to_repositories()
            },
        }
    }

    /// Takes the contact file.
    fn take_meta_json(self, answer: Result<MetaJSON, ScrapeError>) -> (r: (ServerScrape, ScrapeStep))
        requires
            self.wf(),
            self.phase == ScrapePhase::AwaitingMetaJson,
        ensures
            r.0.wf(),
            self.after_meta_json(answer, r.0, r.1),
    {
        let contact = match answer {
            Ok(meta) => Some(meta),
            Err(_) => None,
        };
        let ServerScrape {
            server,
            ignored,
            only_forced,
            geoapi_servers,
            phase,
            backend_detected,
            repo_metadata,
            names,
            populated,
            status,
            metadata,
        } = self;
        let merged = server.merge_metadata(repo_metadata, contact);
        let probes = populated.len() > 0 && server.server_type != ServerType::Stratum0
            && backend_detected != ServerBackendType::S3;
        if probes {
            let request = ScrapeRequest::Geoapi {
                repository: populated[0].name.clone(),
                hosts: geoapi_servers.clone(),
            };
            (
                ServerScrape {
                    server,
                    ignored,
                    only_forced,
                    geoapi_servers,
                    phase: ScrapePhase::AwaitingGeoapi,
                    backend_detected,
                    repo_metadata: MetadataFromRepoJSON::unset(),
                    names,
                    populated,
                    status,
                    metadata: Some(merged),
                },
                ScrapeStep::Fetch(request),
            )
        } else {
            let result = PopulatedServer {
                server_type: server.server_type,
                backend_type: server.backend_type,
                backend_detected,
                hostname: server.hostname.clone(),
                repositories: populated,
                metadata: merged,
                geoapi: GeoapiServerQuery {
                    hostname: server.hostname.clone(),
                    geoapi_hosts: geoapi_servers,
                    response: Vec::new(),
                },
            };
            (
                ServerScrape {
                    server,
                    ignored,
                    only_forced,
                    geoapi_servers: Vec::new(),
                    phase: ScrapePhase::Finished,
                    backend_detected,
                    repo_metadata: MetadataFromRepoJSON::unset(),
                    names: ResolvedRepositorySet::new(),
                    populated: Vec::new(),
                    status,
                    metadata: None,
                },
                ScrapeStep::Finished(ScrapedServer::Populated(result)),
            )
        }
    }

    /// Takes the answer of the GeoAPI.
    fn take_geoapi(self, token: String, body: Result<String, ScrapeError>) -> (r: (
        ServerScrape,
        ScrapeStep,
    ))
        requires
            self.wf(),
            self.phase == ScrapePhase::AwaitingGeoapi,
        ensures
            r.0.wf(),
            self.after_geoapi(token, body, r.0, r.1),
    {
        let text = match body {
            Ok(text) => text,
            Err(_) => {
                let mut message = concatenated("Failed to fetch geoapi for ", self.server.hostname.as_str());
                message.append(" on ");
                message.append(self.server.backend_type.name().as_str());
                message.append(" (with ");
                message.append(token.as_str());
                message.append(")");
                return self.fail(
                    CVMFSScraperError::ScrapeError(ScrapeError::GeoAPIFailure(message)),
                );
            },
        };
        let response = match GeoapiServerQuery::parse_response(text.as_str()) {
            Ok(indices) => indices,
            Err(error) => {
                return self.fail(CVMFSScraperError::ScrapeError(error));
            },
        };
        let ServerScrape {
            server,
            ignored,
            only_forced,
            geoapi_servers,
            phase,
            backend_detected,
            repo_metadata,
            names,
            populated,
            status,
            metadata,
        } = self;
        let result = PopulatedServer {
            server_type: server.server_type,
            backend_type: server.backend_type,
            backend_detected,
            hostname: server.hostname.clone(),
            repositories: populated,
            metadata: metadata.unwrap(),
            geoapi: GeoapiServerQuery {
                hostname: server.hostname.clone(),
                geoapi_hosts: geoapi_servers,
                response,
            },
        };
        (
            ServerScrape {
                server,
                ignored,
                only_forced,
                geoapi_servers: Vec::new(),
                phase: ScrapePhase::Finished,
                backend_detected,
                repo_metadata,
                names: ResolvedRepositorySet::new(),
                populated: Vec::new(),
                status,
                metadata: None,
            },
            ScrapeStep::Finished(ScrapedServer::Populated(result)),
        )
    }

    /// Whether `response` answers what the scrape waits for.
    pub fn is_accepted(&self, response: &ScrapeResponse) -> (r: bool)
        ensures
            r == self.accepts(*response),
    {
        match (self.phase, response) {
            (ScrapePhase::AwaitingRepositoriesJson, ScrapeResponse::RepositoriesJson(_)) => true,
            (ScrapePhase::AwaitingStatus, ScrapeResponse::RepositoryStatus(_)) => true,
            (ScrapePhase::AwaitingManifest, ScrapeResponse::RepositoryManifest(_)) => true,
            (ScrapePhase::AwaitingMetaJson, ScrapeResponse::MetaJson(_)) => true,
            (ScrapePhase::AwaitingGeoapi, ScrapeResponse::Geoapi { .. }) => true,
            _ => false,
        }
    }

    /// Takes the scrape one answer further: decides, from the answer to the last
    /// request, what to ask next or how the scrape ends.
    pub fn advance(self, response: ScrapeResponse) -> (r: (ServerScrape, ScrapeStep))
        requires
            self.wf(),
            self.accepts(response),
        ensures
            r.0.wf(),
            self.advances_to(response, r.0, r.1),
            r.1 is Finished <==> r.0.phase == ScrapePhase::Finished,
    {
        match response {
            ScrapeResponse::RepositoriesJson(answer) => self.take_repositories_json(answer),
            ScrapeResponse::RepositoryStatus(answer) => self.take_status(answer),
            ScrapeResponse::RepositoryManifest(answer) => self.take_manifest(answer),
            ScrapeResponse::MetaJson(answer) => self.take_meta_json(answer),
            ScrapeResponse::Geoapi { token, body } => self.take_geoapi(token, body),
        }
    }
}

impl Server {
    /// Whether `state` and `step` are the start of a scrape of this server under
    /// this configuration: the names of the forced and of the ignored repositories,
    /// whether only the forced ones are wanted, and the hosts for the GeoAPI.
    pub open spec fn begins_scrape(
        &self,
        repositories: Seq<Seq<char>>,
        ignored_repositories: Seq<Seq<char>>,
        only_scrape_forced_repos: bool,
        geoapi_servers: Option<Vec<Hostname>>,
        state: ServerScrape,
        step: ScrapeStep,
    ) -> bool {
        &&& state.wf()
        &&& state.server == *self
        &&& texts(state.ignored@) == ignored_repositories
        &&& state.only_forced == only_scrape_forced_repos
        &&& match geoapi_servers {
            Some(hosts) => state.geoapi_servers == hosts,
            None => host_names(state.geoapi_servers@) == crate::constants::default_geoapi_names(),
        }
        &&& state.populated.len() == 0
        &&& state.repo_metadata.is_unset()
        &&& strictly_sorted(state.names@)
        &&& forall|x: Seq<char>|
            #![trigger state.names@.contains(x)]
            state.names@.contains(x) <==> repositories.contains(x)
                && !ignored_repositories.contains(x)
        &&& step is Finished <==> state.phase == ScrapePhase::Finished
        &&& if self.backend_type != ServerBackendType::S3 {
            &&& state.phase == ScrapePhase::AwaitingRepositoriesJson
            &&& step == ScrapeStep::Fetch(ScrapeRequest::RepositoriesJson)
        } else if state.names@.len() == 0 {
            &&& fails_with_scrape_error(step, *self)
            &&& scrape_error_of(step) matches ScrapeError::EmptyRepositoryList(t)
            &&& t@ == self.hostname@
        } else {
            &&& state.backend_detected == ServerBackendType::S3
            &&& state.turns_to_repositories(step)
        }
    }

    /// Starts the scrape of this server.
    ///
    /// - `repositories`: the repositories to scrape whatever the server advertises.
    ///   A server with the S3 backend advertises nothing, so there has to be one.
    /// - `ignored_repositories`: the repositories that are never scraped.
    /// - `only_scrape_forced_repos`: whether what the server advertises is left out.
    /// - `geoapi_servers`: the hosts that the GeoAPI ranks; the default ones
    ///   where none are given.
    ///
    /// The scrape starts from the forced repositories without the ignored ones. A
    /// server with the S3 backend is not asked for a self-description: its scrape
    /// fails at once where no repository is left, and turns to the repositories
    /// otherwise. Any other server is asked for its self-description first.
    pub fn begin_scrape(
        &self,
        repositories: &Vec<String>,
        ignored_repositories: &Vec<String>,
        only_scrape_forced_repos: bool,
        geoapi_servers: Option<Vec<Hostname>>,
    ) -> (r: (ServerScrape, ScrapeStep))
        ensures
            self.begins_scrape(
                texts(repositories@),
                texts(ignored_repositories@),
                only_scrape_forced_repos,
                geoapi_servers,
                r.0,
                r.1,
            ),
    {
        let hosts = match geoapi_servers {
            Some(hosts) => hosts,
            None => default_geoapi_servers(),
        };
        let names = ResolvedRepositorySet::from_forced(repositories, ignored_repositories);
        let state = ServerScrape {
            server: self.clone(),
            ignored: ignored_repositories.clone(),
            only_forced: only_scrape_forced_repos,
            geoapi_servers: hosts,
            phase: ScrapePhase::AwaitingRepositoriesJson,
            backend_detected: self.backend_type,
            repo_metadata: MetadataFromRepoJSON::unset(),
            names,
            populated: Vec::new(),
            status: None,
            metadata: None,
        };
        assert(state.names@.take(0) =~= populated_names(state.populated@));
        match self.backend_type {
            ServerBackendType::S3 => {
                if state.names.is_empty() {
                    state.fail(
                        CVMFSScraperError::ScrapeError(
                            ScrapeError::EmptyRepositoryList(self.hostname.to_string()),
                        ),
                    )
                } else {
                    state.turn_to_repositories()
                }
            },
            _ => (state, ScrapeStep::Fetch(ScrapeRequest::RepositoriesJson)),
        }
    }
}

} // verus!
