use cvmfs_server_scraper::errors::{CVMFSScraperError, ManifestError, ScrapeError};
use cvmfs_server_scraper::models::{
    Hostname, MaybeRfc2822DateTime, MetaJSON, PopulatedServer, RepositoriesJSON,
    RepositoriesJSONRepo, ScrapedServer, Server, ServerBackendType, ServerType, StatusJSON,
};
use cvmfs_server_scraper::scrape::{
    join_hostnames, ScrapePhase, ScrapeRequest, ScrapeResponse, ScrapeStep, ServerScrape,
};
use cvmfs_server_scraper::scraper::{Scraper, ScraperCommon};
use cvmfs_server_scraper::versions::Version;

const HOST: &str = "aws-eu-central-s1.eessi.science";

fn manifest_text(name: &str, revision: i32) -> String {
    format!("C\nB1\nAno\nR\nX\nGno\nH\nT2\nD3\nS{}\nN{}\nM\nY\n--\nsig\n", revision, name)
}

fn names(list: &[&str]) -> Vec<String> {
    list.iter().map(|n| n.to_string()).collect()
}

fn hosts(list: &[&str]) -> Vec<Hostname> {
    list.iter().map(|n| Hostname(n.to_string())).collect()
}

fn server(server_type: ServerType, backend_type: ServerBackendType) -> Server {
    Server::new(server_type, backend_type, Hostname(HOST.to_string()))
}

fn repo_json(repositories: &[&str], replicas: &[&str]) -> RepositoriesJSON {
    let list = |names: &[&str]| {
        names
            .iter()
            .map(|n| RepositoriesJSONRepo { name: n.to_string(), url: format!("/cvmfs/{}", n) })
            .collect::<Vec<_>>()
    };
    RepositoriesJSON {
        schema: 1,
        last_geodb_update: MaybeRfc2822DateTime(Some("Tue Jun 18 13:40:04 UTC 2024".to_string())),
        cvmfs_version: Some("2.11.3-1".to_string()),
        os_id: Some("rhel".to_string()),
        os_version_id: Some("9.4".to_string()),
        os_pretty_name: Some("Red Hat Enterprise Linux 9.4 (Plow)".to_string()),
        repositories: list(repositories),
        replicas: list(replicas),
    }
}

fn meta_json() -> MetaJSON {
    MetaJSON {
        administrator: "EESSI CVMFS Administrators".to_string(),
        email: "support@eessi.io".to_string(),
        organisation: "EESSI".to_string(),
        custom: serde_json::from_str(r#"{"_comment": "See https://eessi.io/docs/"}"#).unwrap(),
    }
}

fn status() -> StatusJSON {
    StatusJSON {
        last_snapshot: MaybeRfc2822DateTime(Some("Fri Jun 21 17:40:02 UTC 2024".to_string())),
        last_gc: MaybeRfc2822DateTime(None),
    }
}

fn fetch_error() -> ScrapeError {
    ScrapeError::FetchError("HTTP status client error (404 Not Found)".to_string())
}

/// A server as the scrape sees it: what it answers to each request.
struct World {
    repos: Result<RepositoriesJSON, ScrapeError>,
    meta: Result<(), ScrapeError>,
    broken_status: Vec<String>,
    broken_manifest: Vec<String>,
    geoapi: Result<String, ScrapeError>,
}

impl World {
    fn cvmfs(replicas: &[&str]) -> World {
        World {
            repos: Ok(repo_json(&[], replicas)),
            meta: Ok(()),
            broken_status: vec![],
            broken_manifest: vec![],
            geoapi: Ok("2,1,3\n".to_string()),
        }
    }

    fn s3() -> World {
        World {
            repos: Err(fetch_error()),
            meta: Err(fetch_error()),
            broken_status: vec![],
            broken_manifest: vec![],
            geoapi: Err(fetch_error()),
        }
    }

    fn answer(&self, request: &ScrapeRequest) -> ScrapeResponse {
        match request {
            ScrapeRequest::RepositoriesJson => ScrapeResponse::RepositoriesJson(self.repos.clone()),
            ScrapeRequest::RepositoryStatus(name) => {
                ScrapeResponse::RepositoryStatus(if self.broken_status.contains(name) {
                    Err(fetch_error())
                } else {
                    Ok(status())
                })
            },
            ScrapeRequest::RepositoryManifest(name) => {
                ScrapeResponse::RepositoryManifest(if self.broken_manifest.contains(name) {
                    Err(ManifestError::FetchError("gone".to_string()))
                } else {
                    Ok(manifest_text(name, 7))
                })
            },
            ScrapeRequest::MetaJson => {
                ScrapeResponse::MetaJson(self.meta.clone().map(|_| meta_json()))
            },
            ScrapeRequest::Geoapi { .. } => {
                ScrapeResponse::Geoapi { token: "token".to_string(), body: self.geoapi.clone() }
            },
        }
    }
}

/// Runs a scrape to its end and records what was asked for.
fn run(begun: (ServerScrape, ScrapeStep), world: &World) -> (ScrapedServer, Vec<ScrapeRequest>) {
    let (mut state, mut step) = begun;
    let mut asked = Vec::new();
    loop {
        match step {
            ScrapeStep::Finished(outcome) => {
                assert_eq!(state.phase, ScrapePhase::Finished);
                return (outcome, asked);
            },
            ScrapeStep::Fetch(request) => {
                let response = world.answer(&request);
                assert!(state.is_accepted(&response));
                asked.push(request);
                let next = state.advance(response);
                state = next.0;
                step = next.1;
            },
        }
    }
}

fn scrape(
    server: &Server,
    forced: &[&str],
    ignored: &[&str],
    only_forced: bool,
    world: &World,
) -> (ScrapedServer, Vec<ScrapeRequest>) {
    run(server.begin_scrape(&names(forced), &names(ignored), only_forced, None), world)
}

fn populated(outcome: ScrapedServer) -> PopulatedServer {
    outcome.get_populated_server().unwrap()
}

fn repository_names(server: &PopulatedServer) -> Vec<String> {
    server.repositories.iter().map(|r| r.name.clone()).collect()
}

#[test]
fn test_cvmfs_server_mismatch_s0_is_s1() {
    let server = server(ServerType::Stratum0, ServerBackendType::CVMFS);
    let world = World::cvmfs(&["software.eessi.io", "dev.eessi.io"]);
    let (outcome, asked) = scrape(&server, &["software.eessi.io", "dev.eessi.io"], &[], false, &world);
    assert_eq!(asked, vec![ScrapeRequest::RepositoriesJson]);
    match outcome {
        ScrapedServer::Populated(_) => panic!("Error, should not have succeeded"),
        ScrapedServer::Failed(failedserver) => {
            assert_eq!(failedserver.hostname.as_str(), HOST);
            assert_eq!(failedserver.server_type, ServerType::Stratum0);
            assert_eq!(failedserver.backend_type, ServerBackendType::CVMFS);
            assert_eq!(failedserver.error.to_string(), "Scrape error: Server type mismatch: aws-eu-central-s1.eessi.science is a Stratum0 server, but replicas were found in the repositories.json");
        },
    }
}

#[test]
fn test_role_mismatch_of_replica_without_replicas() {
    for backend in [ServerBackendType::CVMFS, ServerBackendType::AutoDetect] {
        let server = server(ServerType::Stratum1, backend);
        let mut world = World::cvmfs(&[]);
        world.repos = Ok(repo_json(&["software.eessi.io"], &[]));
        let (outcome, _) = scrape(&server, &[], &[], false, &world);
        assert_eq!(
            outcome.get_failed_server().unwrap().error,
            CVMFSScraperError::ScrapeError(ScrapeError::ServerTypeMismatch(
                "aws-eu-central-s1.eessi.science is a Stratum1 server, but no replicas were found in the repositories.json".to_string()
            ))
        );
    }
}

#[test]
fn test_role_mismatch_of_sync_server_without_replicas() {
    let server = server(ServerType::SyncServer, ServerBackendType::AutoDetect);
    let mut world = World::cvmfs(&[]);
    world.repos = Ok(repo_json(&[], &[]));
    let (outcome, _) = scrape(&server, &["forced"], &[], false, &world);
    assert_eq!(
        outcome.get_failed_server().unwrap().error,
        CVMFSScraperError::ScrapeError(ScrapeError::ServerTypeMismatch(
            "aws-eu-central-s1.eessi.science is a SyncServer, but no replicas were found in the repositories.json".to_string()
        ))
    );
}

#[test]
fn test_role_mismatch_comes_before_an_unreadable_version_where_the_backend_is_detected() {
    let server = server(ServerType::Stratum0, ServerBackendType::AutoDetect);
    let mut json = repo_json(&[], &["software.eessi.io"]);
    json.cvmfs_version = Some("not a version".to_string());
    let mut world = World::cvmfs(&[]);
    world.repos = Ok(json);
    let (outcome, _) = scrape(&server, &[], &[], false, &world);
    match outcome.get_failed_server().unwrap().error {
        CVMFSScraperError::ScrapeError(ScrapeError::ServerTypeMismatch(_)) => {},
        other => panic!("unexpected {:?}", other),
    }
}

#[test]
fn test_unreadable_version_comes_before_a_role_mismatch_where_the_backend_is_configured() {
    let server = server(ServerType::Stratum0, ServerBackendType::CVMFS);
    let mut json = repo_json(&[], &["software.eessi.io"]);
    json.cvmfs_version = Some("2.11".to_string());
    let mut world = World::cvmfs(&[]);
    world.repos = Ok(json);
    let (outcome, _) = scrape(&server, &[], &[], false, &world);
    assert_eq!(
        outcome.get_failed_server().unwrap().error,
        CVMFSScraperError::ScrapeError(ScrapeError::ConversionError(
            "unexpected end of input while parsing minor version number".to_string()
        ))
    );
}

#[test]
fn test_unreadable_version_fails_the_scrape() {
    let server = server(ServerType::Stratum1, ServerBackendType::AutoDetect);
    let mut json = repo_json(&[], &["software.eessi.io"]);
    json.cvmfs_version = Some("2.11".to_string());
    let mut world = World::cvmfs(&[]);
    world.repos = Ok(json);
    let (outcome, asked) = scrape(&server, &[], &[], false, &world);
    assert_eq!(asked.len(), 1);
    assert_eq!(
        outcome.get_failed_server().unwrap().error,
        CVMFSScraperError::ScrapeError(ScrapeError::ConversionError(
            "unexpected end of input while parsing minor version number".to_string()
        ))
    );
}

#[test]
fn test_cvmfs_server_s1_has_repos() {
    let server = server(ServerType::Stratum1, ServerBackendType::CVMFS);
    let world = World::cvmfs(&["software.eessi.io", "dev.eessi.io", "riscv.eessi.io"]);
    let (outcome, asked) = scrape(&server, &[], &[], false, &world);
    let popserver = populated(outcome);
    for repo in ["software.eessi.io", "dev.eessi.io", "riscv.eessi.io"] {
        assert!(popserver.has_repository(repo));
    }
    assert_eq!(
        repository_names(&popserver),
        names(&["dev.eessi.io", "riscv.eessi.io", "software.eessi.io"])
    );
    assert_eq!(
        asked,
        vec![
            ScrapeRequest::RepositoriesJson,
            ScrapeRequest::RepositoryStatus("dev.eessi.io".to_string()),
            ScrapeRequest::RepositoryManifest("dev.eessi.io".to_string()),
            ScrapeRequest::RepositoryStatus("riscv.eessi.io".to_string()),
            ScrapeRequest::RepositoryManifest("riscv.eessi.io".to_string()),
            ScrapeRequest::RepositoryStatus("software.eessi.io".to_string()),
            ScrapeRequest::RepositoryManifest("software.eessi.io".to_string()),
            ScrapeRequest::MetaJson,
            ScrapeRequest::Geoapi {
                repository: "dev.eessi.io".to_string(),
                hosts: hosts(&[
                    "cvmfs-s1fnal.opensciencegrid.org",
                    "cvmfs-stratum-one.cern.ch",
                    "cvmfs-stratum-one.ihep.ac.cn",
                ]),
            },
        ]
    );
    assert_eq!(popserver.server_type, ServerType::Stratum1);
    assert_eq!(popserver.backend_type, ServerBackendType::CVMFS);
    assert_eq!(popserver.backend_detected, ServerBackendType::CVMFS);
    assert_eq!(popserver.hostname.as_str(), HOST);
    assert_eq!(popserver.repositories[0].manifest.n, "dev.eessi.io");
    assert_eq!(popserver.repositories[0].revision(), 7);
    assert_eq!(popserver.repositories[0].last_snapshot, status().last_snapshot);
    assert_eq!(popserver.repositories[0].last_gc, MaybeRfc2822DateTime(None));
    assert_eq!(popserver.geoapi.hostname.as_str(), HOST);
    assert_eq!(popserver.geoapi.response, vec![2, 1, 3]);
    assert_eq!(popserver.geoapi.geoapi_hosts.len(), 3);
}

#[test]
fn test_cvmfs_server_autodetect_s1_with_repos() {
    let server = server(ServerType::Stratum1, ServerBackendType::AutoDetect);
    let world = World::cvmfs(&["software.eessi.io", "dev.eessi.io", "riscv.eessi.io"]);
    let (outcome, _) =
        scrape(&server, &["software.eessi.io", "dev.eessi.io", "riscv.eessi.io"], &[], false, &world);
    let popserver = populated(outcome);
    assert_eq!(popserver.backend_type, ServerBackendType::AutoDetect);
    assert_eq!(popserver.backend_detected, ServerBackendType::CVMFS);
    assert_eq!(popserver.repositories.len(), 3);
}

#[test]
fn test_cvmfs_server_autodetect_s1_without_repos() {
    let server = server(ServerType::Stratum1, ServerBackendType::AutoDetect);
    let world = World::cvmfs(&["software.eessi.io"]);
    let (outcome, _) = scrape(&server, &[], &[], false, &world);
    assert!(outcome.is_ok());
    let popserver = populated(outcome);
    assert_eq!(popserver.backend_type, ServerBackendType::AutoDetect);
    assert_eq!(popserver.backend_detected, ServerBackendType::CVMFS);
}

#[test]
fn test_cvmfs_server_autodetect_s3_with_repos() {
    let server = server(ServerType::Stratum1, ServerBackendType::AutoDetect);
    let world = World::s3();
    let (outcome, asked) =
        scrape(&server, &["software.eessi.io", "dev.eessi.io", "riscv.eessi.io"], &[], false, &world);
    let popserver = populated(outcome);
    assert_eq!(popserver.backend_type, ServerBackendType::AutoDetect);
    assert_eq!(popserver.backend_detected, ServerBackendType::S3);
    assert_eq!(
        repository_names(&popserver),
        names(&["dev.eessi.io", "riscv.eessi.io", "software.eessi.io"])
    );
    // an object store has no GeoAPI: it is not asked
    assert_eq!(asked.last(), Some(&ScrapeRequest::MetaJson));
    assert!(popserver.geoapi.response.is_empty());
}

#[test]
fn test_autodetect_s3_without_repos_succeeds_with_none() {
    let server = server(ServerType::Stratum1, ServerBackendType::AutoDetect);
    let world = World::s3();
    let (outcome, asked) = scrape(&server, &[], &[], false, &world);
    let popserver = populated(outcome);
    assert_eq!(popserver.backend_detected, ServerBackendType::S3);
    assert!(popserver.repositories.is_empty());
    assert!(popserver.geoapi.response.is_empty());
    assert_eq!(asked, vec![ScrapeRequest::RepositoriesJson, ScrapeRequest::MetaJson]);
}

#[test]
fn test_autodetect_fails_where_the_self_description_cannot_be_decoded() {
    let server = server(ServerType::Stratum1, ServerBackendType::AutoDetect);
    let mut world = World::s3();
    world.repos = Err(ScrapeError::ParseError("expected value at line 1 column 1".to_string()));
    let (outcome, asked) = scrape(&server, &["software.eessi.io"], &[], false, &world);
    assert_eq!(asked, vec![ScrapeRequest::RepositoriesJson]);
    assert_eq!(
        outcome.get_failed_server().unwrap().error,
        CVMFSScraperError::ScrapeError(ScrapeError::ParseError(
            "expected value at line 1 column 1".to_string()
        ))
    );
}

#[test]
fn test_cvmfs_fails_where_the_self_description_cannot_be_fetched() {
    let server = server(ServerType::Stratum1, ServerBackendType::CVMFS);
    let world = World::s3();
    let (outcome, asked) = scrape(&server, &["software.eessi.io"], &[], false, &world);
    assert_eq!(asked, vec![ScrapeRequest::RepositoriesJson]);
    assert_eq!(
        outcome.get_failed_server().unwrap().error,
        CVMFSScraperError::ScrapeError(fetch_error())
    );
}

#[test]
fn test_s3_with_empty_forced_list_fails() {
    let server = server(ServerType::SyncServer, ServerBackendType::S3);
    let (outcome, asked) = scrape(&server, &[], &[], false, &World::s3());
    assert!(asked.is_empty());
    let failed = outcome.get_failed_server().unwrap();
    assert_eq!(
        failed.error,
        CVMFSScraperError::ScrapeError(ScrapeError::EmptyRepositoryList(HOST.to_string()))
    );
    assert_eq!(
        failed.error.to_string(),
        "Scrape error: Empty repository list with S3 backend: aws-eu-central-s1.eessi.science"
    );
}

#[test]
fn test_s3_with_every_forced_repository_ignored_fails() {
    let server = server(ServerType::SyncServer, ServerBackendType::S3);
    let (outcome, _) = scrape(&server, &["a", "b"], &["b", "a"], false, &World::s3());
    assert!(outcome.is_failed());
}

#[test]
fn test_s3_backend_no_metadata() {
    let server = server(ServerType::SyncServer, ServerBackendType::S3);
    let mut world = World::s3();
    world.meta = Ok(());
    let (outcome, asked) =
        scrape(&server, &["software.eessi.io", "dev.eessi.io", "riscv.eessi.io"], &[], false, &world);
    let popserver = populated(outcome);
    assert!(!asked.contains(&ScrapeRequest::RepositoriesJson));
    assert_eq!(popserver.backend_detected, ServerBackendType::S3);
    assert!(popserver.metadata.schema_version.is_none());
    assert!(popserver.metadata.cvmfs_version.is_none());
    assert!(popserver.metadata.last_geodb_update.is_none());
    assert!(popserver.metadata.os_version_id.is_none());
    assert!(popserver.metadata.os_pretty_name.is_none());
    assert!(popserver.metadata.os_id.is_none());
    assert_eq!(popserver.metadata.organisation, Some("EESSI".to_string()));
    assert_eq!(popserver.repositories.len(), 3);
}

#[test]
fn test_cvmfs_backend_metadata() {
    let server = server(ServerType::Stratum1, ServerBackendType::CVMFS);
    let world = World::cvmfs(&["software.eessi.io", "dev.eessi.io", "riscv.eessi.io"]);
    let (outcome, _) = scrape(&server, &[], &[], false, &world);
    let popserver = populated(outcome);
    assert_eq!(popserver.metadata.schema_version, Some(1));
    assert_eq!(
        popserver.metadata.cvmfs_version,
        Some(Version { major: 2, minor: 11, patch: 3, pre: "1".to_string(), build: String::new() })
    );
    assert!(popserver.metadata.last_geodb_update.is_some());
    assert_eq!(popserver.metadata.os_version_id, Some("9.4".to_string()));
    assert!(popserver.metadata.os_pretty_name.is_some());
    assert_eq!(popserver.metadata.os_id, Some("rhel".to_string()));
    assert_eq!(
        popserver.metadata.administrator,
        Some("EESSI CVMFS Administrators".to_string())
    );
    assert_eq!(popserver.metadata.email, Some("support@eessi.io".to_string()));
    assert_eq!(popserver.metadata.organisation, Some("EESSI".to_string()));
    assert_eq!(popserver.metadata.custom, Some(meta_json().custom));
}

#[test]
fn test_contact_file_is_optional() {
    let server = server(ServerType::Stratum1, ServerBackendType::CVMFS);
    let mut world = World::cvmfs(&["software.eessi.io"]);
    world.meta = Err(ScrapeError::ParseError("trailing characters".to_string()));
    let (outcome, _) = scrape(&server, &[], &[], false, &world);
    let popserver = populated(outcome);
    assert_eq!(popserver.metadata.schema_version, Some(1));
    assert_eq!(popserver.metadata.administrator, None);
    assert_eq!(popserver.metadata.email, None);
    assert_eq!(popserver.metadata.organisation, None);
    assert_eq!(popserver.metadata.custom, None);
}

#[test]
fn test_cvmfs_server_s1_ignored_repos() {
    let server = server(ServerType::Stratum1, ServerBackendType::CVMFS);
    let world = World::cvmfs(&["software.eessi.io", "dev.eessi.io", "riscv.eessi.io"]);
    let (outcome, asked) = scrape(
        &server,
        &["software.eessi.io", "dev.eessi.io", "riscv.eessi.io"],
        &["riscv.eessi.io"],
        false,
        &world,
    );
    let popserver = populated(outcome);
    assert!(popserver.has_repository("software.eessi.io"));
    assert!(popserver.has_repository("dev.eessi.io"));
    assert!(!popserver.has_repository("riscv.eessi.io"));
    assert!(!asked.contains(&ScrapeRequest::RepositoryStatus("riscv.eessi.io".to_string())));
}

#[test]
fn test_cvmfs_server_s1_only_forced_repos() {
    let server = server(ServerType::Stratum1, ServerBackendType::CVMFS);
    let world = World::cvmfs(&["software.eessi.io", "dev.eessi.io", "riscv.eessi.io"]);
    let (outcome, _) = scrape(&server, &["software.eessi.io", "dev.eessi.io"], &[], true, &world);
    let popserver = populated(outcome);
    assert!(popserver.has_repository("software.eessi.io"));
    assert!(popserver.has_repository("dev.eessi.io"));
    assert!(popserver.repositories.len() == 2);
    // the self-description still gives the metadata
    assert_eq!(popserver.metadata.schema_version, Some(1));
}

#[test]
fn test_only_forced_still_leaves_out_the_ignored() {
    let server = server(ServerType::Stratum1, ServerBackendType::AutoDetect);
    let world = World::cvmfs(&["advertised.example.org"]);
    let (outcome, _) = scrape(&server, &["b", "a", "b", "c"], &["c", "zzz"], true, &world);
    assert_eq!(repository_names(&populated(outcome)), names(&["a", "b"]));
}

#[test]
fn test_forced_and_advertised_are_merged_in_the_order_of_names() {
    let server = server(ServerType::Stratum1, ServerBackendType::AutoDetect);
    let mut world = World::cvmfs(&[]);
    world.repos = Ok(repo_json(&["m", "b", "é", "B"], &["a", "m", "ignored"]));
    let (outcome, _) = scrape(&server, &["z", "b", "forced"], &["ignored", "z"], false, &world);
    let mut expected = names(&["m", "b", "é", "B", "a", "forced"]);
    expected.sort();
    assert_eq!(expected, names(&["B", "a", "b", "forced", "m", "é"]));
    assert_eq!(repository_names(&populated(outcome)), expected);
}

#[test]
fn test_first_repository_failure_fails_the_server() {
    let server = server(ServerType::Stratum1, ServerBackendType::CVMFS);
    let mut world = World::cvmfs(&["a", "b", "c"]);
    world.broken_status = names(&["b"]);
    let (outcome, asked) = scrape(&server, &[], &[], false, &world);
    assert_eq!(
        outcome.get_failed_server().unwrap().error,
        CVMFSScraperError::ScrapeError(fetch_error())
    );
    assert_eq!(
        asked,
        vec![
            ScrapeRequest::RepositoriesJson,
            ScrapeRequest::RepositoryStatus("a".to_string()),
            ScrapeRequest::RepositoryManifest("a".to_string()),
            ScrapeRequest::RepositoryStatus("b".to_string()),
        ]
    );
}

#[test]
fn test_manifest_failure_fails_the_server() {
    let server = server(ServerType::Stratum1, ServerBackendType::CVMFS);
    let mut world = World::cvmfs(&["a", "b"]);
    world.broken_manifest = names(&["a"]);
    let (outcome, asked) = scrape(&server, &[], &[], false, &world);
    assert_eq!(
        outcome.get_failed_server().unwrap().error,
        CVMFSScraperError::ManifestError(ManifestError::FetchError("gone".to_string()))
    );
    assert_eq!(asked.len(), 3);
}

#[test]
fn test_unreadable_manifest_fails_the_server() {
    let server = server(ServerType::Stratum1, ServerBackendType::S3);
    let (state, step) = server.begin_scrape(&names(&["a"]), &vec![], false, None);
    assert_eq!(step, ScrapeStep::Fetch(ScrapeRequest::RepositoryStatus("a".to_string())));
    let (state, step) = state.advance(ScrapeResponse::RepositoryStatus(Ok(status())));
    assert_eq!(step, ScrapeStep::Fetch(ScrapeRequest::RepositoryManifest("a".to_string())));
    assert_eq!(state.phase, ScrapePhase::AwaitingManifest);
    let response = ScrapeResponse::RepositoryManifest(Ok("C00\nB12\n".to_string()));
    assert!(state.is_accepted(&response));
    let (state, step) = state.advance(response);
    assert_eq!(state.phase, ScrapePhase::Finished);
    assert_eq!(
        step,
        ScrapeStep::Finished(ScrapedServer::Failed(server.to_failed_server(
            CVMFSScraperError::ManifestError(ManifestError::MissingField('A'))
        )))
    );
}

#[test]
fn test_manifest_with_an_empty_line_fails_the_server() {
    let server = server(ServerType::Stratum1, ServerBackendType::S3);
    let (state, _) = server.begin_scrape(&names(&["a"]), &vec![], false, None);
    let (state, _) = state.advance(ScrapeResponse::RepositoryStatus(Ok(status())));
    let response = ScrapeResponse::RepositoryManifest(Ok("C00\n\nB12\n".to_string()));
    assert!(state.is_accepted(&response));
    let (state, step) = state.advance(response);
    assert_eq!(state.phase, ScrapePhase::Finished);
    assert_eq!(
        step,
        ScrapeStep::Finished(ScrapedServer::Failed(
            server.to_failed_server(CVMFSScraperError::ManifestError(ManifestError::EmptyLine))
        ))
    );
}

#[test]
fn test_responses_are_accepted_in_their_phase_only() {
    let server = server(ServerType::Stratum1, ServerBackendType::S3);
    let (state, _) = server.begin_scrape(&names(&["a"]), &vec![], false, None);
    assert!(state.is_accepted(&ScrapeResponse::RepositoryStatus(Ok(status()))));
    assert!(!state.is_accepted(&ScrapeResponse::RepositoryManifest(Ok(manifest_text("a", 1)))));
    assert!(!state.is_accepted(&ScrapeResponse::MetaJson(Err(fetch_error()))));
    assert!(!state.is_accepted(&ScrapeResponse::RepositoriesJson(Err(fetch_error()))));
    let (state, _) = state.advance(ScrapeResponse::RepositoryStatus(Ok(status())));
    assert!(!state.is_accepted(&ScrapeResponse::RepositoryStatus(Ok(status()))));
    assert!(state.is_accepted(&ScrapeResponse::RepositoryManifest(Ok(manifest_text("a", 1)))));
    assert!(state.is_accepted(&ScrapeResponse::RepositoryManifest(Ok("C\n\nB1\n".to_string()))));
    let (state, step) = state.advance(ScrapeResponse::RepositoryStatus(Err(fetch_error())));
    assert!(matches!(step, ScrapeStep::Finished(ScrapedServer::Failed(_))));
    assert!(!state.is_accepted(&ScrapeResponse::MetaJson(Err(fetch_error()))));
}

#[test]
fn test_geoapi_is_not_asked_for_a_stratum0() {
    let server = server(ServerType::Stratum0, ServerBackendType::CVMFS);
    let mut world = World::cvmfs(&[]);
    world.repos = Ok(repo_json(&["software.eessi.io"], &[]));
    let (outcome, asked) = scrape(&server, &[], &[], false, &world);
    let popserver = populated(outcome);
    assert_eq!(asked.last(), Some(&ScrapeRequest::MetaJson));
    assert!(popserver.geoapi.response.is_empty());
    assert_eq!(popserver.geoapi.geoapi_hosts.len(), 3);
}

#[test]
fn test_geoapi_is_not_asked_without_repositories() {
    let server = server(ServerType::Stratum1, ServerBackendType::CVMFS);
    let world = World::cvmfs(&["only.example.org"]);
    let (outcome, asked) = scrape(&server, &[], &["only.example.org"], false, &world);
    let popserver = populated(outcome);
    assert!(popserver.repositories.is_empty());
    assert_eq!(asked, vec![ScrapeRequest::RepositoriesJson, ScrapeRequest::MetaJson]);
    assert!(popserver.geoapi.response.is_empty());
}

#[test]
fn test_geoapi_fetch_failure_fails_the_server() {
    let server = server(ServerType::Stratum1, ServerBackendType::AutoDetect);
    let mut world = World::cvmfs(&["software.eessi.io"]);
    world.geoapi = Err(fetch_error());
    let (outcome, _) = scrape(&server, &[], &[], false, &world);
    assert_eq!(
        outcome.get_failed_server().unwrap().error,
        CVMFSScraperError::ScrapeError(ScrapeError::GeoAPIFailure(
            "Failed to fetch geoapi for aws-eu-central-s1.eessi.science on AutoDetect (with token)"
                .to_string()
        ))
    );
}

#[test]
fn test_geoapi_answer_that_is_no_list_of_numbers_fails_the_server() {
    let server = server(ServerType::Stratum1, ServerBackendType::CVMFS);
    let mut world = World::cvmfs(&["software.eessi.io"]);
    world.geoapi = Ok("1,two,3".to_string());
    let (outcome, _) = scrape(&server, &[], &[], false, &world);
    assert_eq!(
        outcome.get_failed_server().unwrap().error,
        CVMFSScraperError::ScrapeError(ScrapeError::GeoAPIFailure(
            "invalid digit found in string".to_string()
        ))
    );
}

#[test]
fn test_geoapi_hosts_of_the_caller_are_asked() {
    let server = server(ServerType::Stratum1, ServerBackendType::CVMFS);
    let mut world = World::cvmfs(&["software.eessi.io"]);
    world.geoapi = Ok("1,2".to_string());
    let begun = server.begin_scrape(
        &vec![],
        &vec![],
        false,
        Some(hosts(&["one.example.org", "two.example.org"])),
    );
    let (outcome, asked) = run(begun, &world);
    assert_eq!(
        asked.last(),
        Some(&ScrapeRequest::Geoapi {
            repository: "software.eessi.io".to_string(),
            hosts: hosts(&["one.example.org", "two.example.org"]),
        })
    );
    let popserver = populated(outcome);
    assert_eq!(popserver.geoapi.geoapi_hosts, hosts(&["one.example.org", "two.example.org"]));
    assert_eq!(popserver.geoapi.response, vec![1, 2]);
}

#[test]
fn test_request_urls() {
    let host = Hostname(HOST.to_string());
    assert_eq!(
        ScrapeRequest::RepositoriesJson.url(&host, "t"),
        "http://aws-eu-central-s1.eessi.science/cvmfs/info/v1/repositories.json"
    );
    assert_eq!(
        ScrapeRequest::MetaJson.url(&host, "t"),
        "http://aws-eu-central-s1.eessi.science/cvmfs/info/v1/meta.json"
    );
    assert_eq!(
        ScrapeRequest::RepositoryStatus("dev.eessi.io".to_string()).url(&host, "t"),
        "http://aws-eu-central-s1.eessi.science/cvmfs/dev.eessi.io/.cvmfs_status.json"
    );
    assert_eq!(
        ScrapeRequest::RepositoryManifest("dev.eessi.io".to_string()).url(&host, "t"),
        "http://aws-eu-central-s1.eessi.science/cvmfs/dev.eessi.io/.cvmfspublished"
    );
    let probe = ScrapeRequest::Geoapi {
        repository: "dev.eessi.io".to_string(),
        hosts: hosts(&["a.example.org", "b.example.org", "c.example.org"]),
    };
    assert_eq!(
        probe.url(&host, "x7Gq"),
        "http://aws-eu-central-s1.eessi.science/cvmfs/dev.eessi.io/api/v1.0/geo/x7Gq/a.example.org,b.example.org,c.example.org"
    );
}

#[test]
fn test_join_hostnames() {
    assert_eq!(join_hostnames(&hosts(&[])), "");
    assert_eq!(join_hostnames(&hosts(&["a"])), "a");
    assert_eq!(join_hostnames(&hosts(&["a", "b"])), "a,b");
    assert_eq!(join_hostnames(&hosts(&["a", "", "c"])), "a,,c");
}

#[test]
fn test_one_server_failing_leaves_the_others_alone() {
    let servers = vec![
        Server::new(
            ServerType::Stratum1,
            ServerBackendType::CVMFS,
            Hostname("x.example.org".to_string()),
        ),
        Server::new(
            ServerType::Stratum1,
            ServerBackendType::CVMFS,
            Hostname("y.example.org".to_string()),
        ),
    ];
    let scraper = Scraper::new()
        .forced_repositories(names(&["software.eessi.io"]))
        .with_servers(servers)
        .validate()
        .unwrap();
    let mut broken = World::cvmfs(&["software.eessi.io"]);
    broken.broken_manifest = names(&["software.eessi.io"]);
    let sound = World::cvmfs(&["software.eessi.io"]);

    let mut begun = scraper.begin_scrapes();
    let y = begun.pop().unwrap();
    let x = begun.pop().unwrap();
    let (outcome_x, _) = run(x, &broken);
    let (outcome_y, _) = run(y, &sound);
    assert!(outcome_x.is_failed());
    assert_eq!(outcome_x.get_failed_server().unwrap().hostname.as_str(), "x.example.org");

    // the outcome for y is what it is when y is scraped alone
    let alone = scrape(
        &Server::new(
            ServerType::Stratum1,
            ServerBackendType::CVMFS,
            Hostname("y.example.org".to_string()),
        ),
        &["software.eessi.io"],
        &[],
        false,
        &sound,
    );
    assert!(outcome_y.is_ok());
    assert_eq!(outcome_y, alone.0);
}
